//! End-to-end scenarios over the pure pipeline: the engine and the
//! filesystem are played by the test, every decision by the library.

use pdf_size_shrinker::FileResult;
use pdf_size_shrinker::FileStatus;
use pdf_size_shrinker::InputEntry;
use pdf_size_shrinker::Mode;
use pdf_size_shrinker::RunAggregator;
use pdf_size_shrinker::SizeDecision;
use pdf_size_shrinker::Step;
use pdf_size_shrinker::WalkEntry;
use pdf_size_shrinker::collect_pdfs;
use pdf_size_shrinker::overall_success;
use pdf_size_shrinker::plan_step;
use pdf_size_shrinker::result_after_replace;
use pdf_size_shrinker::size_gate;
use pdf_size_shrinker::temp_path;

#[test]
fn scenario_sibling_run_with_one_improvement_and_one_skip() {
    // Input directory: a.pdf (1,000,000 bytes), b.pdf (500,000 bytes),
    // c.txt. The engine "compresses" a.pdf to 400,000 bytes and b.pdf
    // to 600,000 bytes.
    let dir = InputEntry::DirInput {
        path: "/in".to_string(),
        entries: vec![
            WalkEntry { path: "/in".to_string(), depth: 0, is_file: false },
            WalkEntry { path: "/in/a.pdf".to_string(), depth: 1, is_file: true },
            WalkEntry { path: "/in/b.pdf".to_string(), depth: 1, is_file: true },
            WalkEntry { path: "/in/c.txt".to_string(), depth: 1, is_file: true },
        ],
    };
    let found = collect_pdfs(&vec![dir], false);
    assert_eq!(found.candidates, vec!["/in/a.pdf", "/in/b.pdf"]);

    let sizes = [(1_000_000u64, 400_000u64), (500_000u64, 600_000u64)];
    let mut sibling_outputs_kept: Vec<String> = Vec::new();
    let mut agg = RunAggregator::new();
    for (pdf, (original, produced)) in found.candidates.iter().zip(sizes) {
        let result = match plan_step(Mode::Sibling, size_gate(original, produced)) {
            Step::AcceptSibling(saved) => {
                sibling_outputs_kept.push(pdf.clone());
                FileResult::done(pdf.clone(), saved)
            }
            Step::DiscardAndSkip => FileResult::skip(pdf.clone()),
            Step::AttemptReplace(_) => panic!("sibling mode never renames"),
        };
        agg.record(result);
    }
    // a.pdf done with 600,000 bytes saved; b.pdf's larger output was
    // discarded and recorded as a skip.
    assert_eq!(sibling_outputs_kept, vec!["/in/a.pdf"]);
    let summary = agg.summary();
    assert_eq!(summary.succeeded, 2);
    assert_eq!(summary.failed, 0);
    assert_eq!(summary.total_saved, 600_000);
    assert!(overall_success(&summary, found.candidates.len() as u64));
}

#[test]
fn scenario_in_place_engine_failure_leaves_the_original_alone() {
    // In-place mode: the engine invocation for report.pdf exits
    // non-zero, so its partial temp output is deleted, the original is
    // untouched, and the file is recorded as failed.
    let original = "/in/report.pdf".to_string();
    let temp = temp_path(&original);
    assert_eq!(temp, "/in/report._pdfshrinker_tmp.pdf");

    let disk_original_bytes = b"%PDF-1.4 original".to_vec();
    let pre_run = disk_original_bytes.clone();

    // Engine exited non-zero: delete the partial output, record Failed.
    let temp_exists = false;
    let result = FileResult::failed(original.clone(), "engine exited with status 1".to_string());
    assert_eq!(result.status, FileStatus::Failed);
    assert_eq!(result.bytes_saved, 0);

    let mut agg = RunAggregator::new();
    agg.record(result);
    let summary = agg.summary();
    assert_eq!(summary.failed, 1);
    assert_eq!(summary.succeeded, 0);
    assert!(!overall_success(&summary, 1));

    // The original is byte-identical to its pre-run content and no
    // temporary artifact remains.
    assert_eq!(disk_original_bytes, pre_run);
    assert!(!temp_exists);
}

#[test]
fn scenario_in_place_improvement_swaps_and_skip_discards() {
    // Improved: the rename succeeds, so the record keeps the saving.
    let improved = match plan_step(Mode::InPlace, size_gate(1_000, 400)) {
        Step::AttemptReplace(saved) => {
            result_after_replace("/in/a.pdf".to_string(), Ok(()), saved)
        }
        _ => panic!("an improvement in in-place mode attempts the rename"),
    };
    assert_eq!(improved.status, FileStatus::Done);
    assert_eq!(improved.bytes_saved, 600);

    // Rename failure: an operational error, not a skip.
    let rename_failed = match plan_step(Mode::InPlace, size_gate(1_000, 400)) {
        Step::AttemptReplace(saved) => result_after_replace(
            "/in/b.pdf".to_string(),
            Err("cross-device link".to_string()),
            saved,
        ),
        _ => panic!("an improvement in in-place mode attempts the rename"),
    };
    assert_eq!(rename_failed.status, FileStatus::Failed);
    assert_eq!(rename_failed.bytes_saved, 0);
    assert_eq!(rename_failed.error_detail.as_deref(), Some("cross-device link"));

    // Not improved: the temp is discarded without touching the original.
    assert_eq!(size_gate(1_000, 1_000), SizeDecision::NotImproved);
    assert_eq!(plan_step(Mode::InPlace, SizeDecision::NotImproved), Step::DiscardAndSkip);
}

#[test]
fn scenario_no_candidates_aborts_before_any_invocation() {
    // Zero input paths resolve to a candidate file: the run fails with
    // the distinct empty-result condition, without invoking the engine.
    let inputs = vec![
        InputEntry::MissingInput { path: "/gone.pdf".to_string() },
        InputEntry::FileInput { path: "/notes.txt".to_string() },
    ];
    let found = collect_pdfs(&inputs, false);
    assert!(found.candidates.is_empty());
    assert_eq!(found.diagnostics.len(), 2);

    let engine_invocations = 0u32;
    let agg = RunAggregator::new();
    let summary = agg.summary();
    assert!(!overall_success(&summary, found.candidates.len() as u64));
    assert_eq!(engine_invocations, 0);
}
