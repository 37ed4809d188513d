use pdf_size_shrinker::is_pdf;
use pdf_size_shrinker::output_path;
use pdf_size_shrinker::temp_path;

// output_path ─────────────────────────────────────────────────────────

#[test]
fn output_path_same_directory() {
    let result = output_path("/docs/report.pdf", "_compressed", None);
    assert_eq!(result, "/docs/report_compressed.pdf");
}

#[test]
fn output_path_into_custom_directory() {
    let result = output_path("/docs/report.pdf", "_compressed", Some("/out"));
    assert_eq!(result, "/out/report_compressed.pdf");
}

#[test]
fn output_path_custom_suffix() {
    let result = output_path("/a/b.pdf", "_min", None);
    assert_eq!(result, "/a/b_min.pdf");
}

#[test]
fn output_path_preserves_stem_with_dots() {
    let result = output_path("/a/report.v2.pdf", "_small", None);
    assert_eq!(result, "/a/report.v2_small.pdf");
}

#[test]
fn output_path_bare_file_name() {
    let result = output_path("report.pdf", "_compressed", None);
    assert_eq!(result, "report_compressed.pdf");
}

#[test]
fn output_path_directory_with_trailing_slash() {
    let result = output_path("/docs/report.pdf", "_compressed", Some("/out/"));
    assert_eq!(result, "/out/report_compressed.pdf");
}

#[test]
fn output_path_same_inputs_same_result() {
    let first = output_path("/docs/report.pdf", "_compressed", Some("/out"));
    let second = output_path("/x/report.pdf", "_compressed", Some("/out"));
    let again = output_path("/docs/report.pdf", "_compressed", Some("/out"));
    assert_eq!(first, again);
    assert_eq!(first, second);
}

// is_pdf ──────────────────────────────────────────────────────────────

#[test]
fn is_pdf_matches_lowercase_extension() {
    assert!(is_pdf("file.pdf"));
}

#[test]
fn is_pdf_matches_uppercase_extension() {
    assert!(is_pdf("file.PDF"));
}

#[test]
fn is_pdf_matches_mixed_case_extension() {
    assert!(is_pdf("file.Pdf"));
}

#[test]
fn is_pdf_rejects_other_extensions() {
    assert!(!is_pdf("file.docx"));
    assert!(!is_pdf("file.txt"));
}

#[test]
fn is_pdf_rejects_no_extension() {
    assert!(!is_pdf("file"));
}

#[test]
fn is_pdf_rejects_hidden_file_without_extension() {
    assert!(!is_pdf(".pdf"));
    assert!(!is_pdf("/docs/.pdf"));
}

#[test]
fn is_pdf_looks_at_final_component_only() {
    assert!(is_pdf("/docs.pdf/file.pdf"));
    assert!(!is_pdf("/docs.pdf/file.txt"));
}

// temp_path ───────────────────────────────────────────────────────────

#[test]
fn temp_path_is_a_sibling_of_the_original() {
    let result = temp_path("/docs/report.pdf");
    assert_eq!(result, "/docs/report._pdfshrinker_tmp.pdf");
}

#[test]
fn temp_path_without_directory() {
    let result = temp_path("report.pdf");
    assert_eq!(result, "report._pdfshrinker_tmp.pdf");
}
