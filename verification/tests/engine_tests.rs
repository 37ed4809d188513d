use pdf_size_shrinker::Error;
use pdf_size_shrinker::InvocationOutcome;
use pdf_size_shrinker::Quality;
use pdf_size_shrinker::ShrinkOptions;
use pdf_size_shrinker::classify_invocation;
use pdf_size_shrinker::gs_args;
use pdf_size_shrinker::gs_candidates;

#[test]
fn quality_gs_settings_are_correct() {
    assert_eq!(Quality::Screen.gs_setting(), "/screen");
    assert_eq!(Quality::Ebook.gs_setting(), "/ebook");
    assert_eq!(Quality::Printer.gs_setting(), "/printer");
    assert_eq!(Quality::Prepress.gs_setting(), "/prepress");
}

#[test]
fn gs_candidates_are_probed_in_order() {
    assert_eq!(gs_candidates(), vec!["gs", "gswin64c", "gswin32c"]);
}

#[test]
fn gs_args_quiet_by_default() {
    let opts = ShrinkOptions { gs_bin: "gs", quality: Quality::Ebook, verbose: false };
    let args = gs_args(&opts, "in.pdf", "out.pdf");
    assert_eq!(
        args,
        vec![
            "-sDEVICE=pdfwrite",
            "-dCompatibilityLevel=1.4",
            "-dPDFSETTINGS=/ebook",
            "-dNOPAUSE",
            "-dBATCH",
            "-dSAFER",
            "-dQUIET",
            "-sOutputFile=out.pdf",
            "in.pdf",
        ]
    );
}

#[test]
fn gs_args_verbose_keeps_engine_output() {
    let opts = ShrinkOptions { gs_bin: "gs", quality: Quality::Screen, verbose: true };
    let args = gs_args(&opts, "/a/in.pdf", "/a/out.pdf");
    assert_eq!(
        args,
        vec![
            "-sDEVICE=pdfwrite",
            "-dCompatibilityLevel=1.4",
            "-dPDFSETTINGS=/screen",
            "-dNOPAUSE",
            "-dBATCH",
            "-dSAFER",
            "-sOutputFile=/a/out.pdf",
            "/a/in.pdf",
        ]
    );
}

#[test]
fn classify_invocation_zero_exit_is_success() {
    assert!(classify_invocation(InvocationOutcome::Produced).is_ok());
}

#[test]
fn classify_invocation_nonzero_exit_keeps_stderr_verbatim() {
    let r = classify_invocation(InvocationOutcome::EngineError("boom\nline two".to_string()));
    match r {
        Err(Error::GhostscriptFailed(s)) => assert_eq!(s, "boom\nline two"),
        _ => panic!("expected GhostscriptFailed"),
    }
}

#[test]
fn classify_invocation_spawn_failure() {
    let r = classify_invocation(InvocationOutcome::SpawnError("permission denied".to_string()));
    match r {
        Err(Error::Spawn(s)) => assert_eq!(s, "permission denied"),
        _ => panic!("expected Spawn"),
    }
}

// Error messages ──────────────────────────────────────────────────────

#[test]
fn error_message_not_found_names_the_engine() {
    let m = Error::GhostscriptNotFound.message();
    assert!(m.starts_with("Ghostscript not found."));
}

#[test]
fn error_message_failed_carries_diagnostic() {
    let m = Error::GhostscriptFailed("bad xref".to_string()).message();
    assert_eq!(m, "Ghostscript failed: bad xref");
}

#[test]
fn error_message_spawn_carries_cause() {
    let m = Error::Spawn("no such file".to_string()).message();
    assert_eq!(m, "Failed to spawn Ghostscript: no such file");
}

#[test]
fn error_message_io_names_the_path() {
    let m = Error::Io { path: "/x/y.pdf".to_string(), message: "denied".to_string() }.message();
    assert_eq!(m, "I/O error at '/x/y.pdf': denied");
}
