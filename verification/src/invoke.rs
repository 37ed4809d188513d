//! Engine invocation: quality presets, the exact argument list handed
//! to the external Ghostscript process, and classification of its
//! outcome. Building the invocation and classifying what came back are
//! verified here; the process call itself lives outside the library.

use vstd::prelude::*;
use crate::error::Error;

verus! {

/// Compression quality preset, directly mapped to Ghostscript's
/// `-dPDFSETTINGS` option.
///
/// The four presets are ordered from low fidelity / smallest output to
/// high fidelity / largest output.
#[derive(Copy, Clone, Debug, PartialEq, Eq, Structural)]
pub enum Quality {
    /// 72 dpi — smallest file, lowest quality (on-screen viewing only).
    Screen,
    /// 150 dpi — good quality, significantly smaller (e-readers / web).
    Ebook,
    /// 300 dpi — high quality (desktop printing).
    Printer,
    /// 300 dpi — maximum quality, colour-preserving (professional print).
    Prepress,
}

/// The Ghostscript `-dPDFSETTINGS` token for each preset.
pub open spec fn spec_gs_setting(q: Quality) -> Seq<char> {
    match q {
        Quality::Screen => "/screen"@,
        Quality::Ebook => "/ebook"@,
        Quality::Printer => "/printer"@,
        Quality::Prepress => "/prepress"@,
    }
}

impl Quality {
    /// Returns the Ghostscript `-dPDFSETTINGS` argument value for this
    /// preset.
    pub fn gs_setting(self) -> (r: &'static str)
        ensures
            r@ == spec_gs_setting(self),
    {
        match self {
            Quality::Screen => "/screen",
            Quality::Ebook => "/ebook",
            Quality::Printer => "/printer",
            Quality::Prepress => "/prepress",
        }
    }
}

/// Configuration for one run of the shrinking engine.
#[derive(Debug)]
pub struct ShrinkOptions<'a> {
    /// Path or name of the Ghostscript executable.
    pub gs_bin: &'a str,
    /// Quality preset controlling the `-dPDFSETTINGS` flag.
    pub quality: Quality,
    /// When `true`, the engine's own console output is kept.
    pub verbose: bool,
}

/// The ordered list of executable names probed for a working
/// Ghostscript, first responder wins.
pub fn gs_candidates() -> (r: Vec<&'static str>)
    ensures
        r@.len() == 3,
        r@[0]@ == "gs"@,
        r@[1]@ == "gswin64c"@,
        r@[2]@ == "gswin32c"@,
{
    let mut v: Vec<&'static str> = Vec::new();
    v.push("gs");
    v.push("gswin64c");
    v.push("gswin32c");
    v
}

/// The exact argument list for one engine invocation: fixed batch-safe
/// flags, the quality token, quiet mode unless verbose, then the
/// output and input paths.
pub open spec fn spec_gs_args(
    quality: Quality,
    verbose: bool,
    input: Seq<char>,
    output: Seq<char>,
) -> Seq<Seq<char>> {
    seq![
        "-sDEVICE=pdfwrite"@,
        "-dCompatibilityLevel=1.4"@,
        "-dPDFSETTINGS="@ + spec_gs_setting(quality),
        "-dNOPAUSE"@,
        "-dBATCH"@,
        "-dSAFER"@,
    ] + (if verbose {
        Seq::<Seq<char>>::empty()
    } else {
        seq!["-dQUIET"@]
    }) + seq!["-sOutputFile="@ + output, input]
}

/// Builds the argument list for one engine invocation from the run
/// configuration and the input and output paths.
pub fn gs_args(opts: &ShrinkOptions<'_>, input: &str, output: &str) -> (r: Vec<String>)
    ensures
        r@.map_values(|s: String| s@) == spec_gs_args(opts.quality, opts.verbose, input@, output@),
{
    let mut v: Vec<String> = Vec::new();
    v.push(String::from_str("-sDEVICE=pdfwrite"));
    v.push(String::from_str("-dCompatibilityLevel=1.4"));
    let mut settings = String::from_str("-dPDFSETTINGS=");
    settings.append(opts.quality.gs_setting());
    v.push(settings);
    v.push(String::from_str("-dNOPAUSE"));
    v.push(String::from_str("-dBATCH"));
    v.push(String::from_str("-dSAFER"));
    if !opts.verbose {
        v.push(String::from_str("-dQUIET"));
    }
    let mut out_arg = String::from_str("-sOutputFile=");
    out_arg.append(output);
    v.push(out_arg);
    v.push(String::from_str(input));
    proof {
        assert(v@.map_values(|s: String| s@) =~= spec_gs_args(
            opts.quality,
            opts.verbose,
            input@,
            output@,
        ));
    }
    v
}

/// What one attempt to run the engine observably produced, as plain
/// values handed in by the process-running shell around the library.
pub enum InvocationOutcome {
    /// The engine ran and exited with status 0.
    Produced,
    /// The engine ran and exited non-zero; carries its error-stream
    /// output verbatim.
    EngineError(String),
    /// The engine could not be spawned; carries the system error text.
    SpawnError(String),
}

/// Classifies one engine invocation outcome: exit status 0 is success,
/// a non-zero exit becomes [`Error::GhostscriptFailed`] carrying the
/// engine's error output verbatim, and a spawn failure becomes
/// [`Error::Spawn`].
pub fn classify_invocation(outcome: InvocationOutcome) -> (r: Result<(), Error>)
    ensures
        match outcome {
            InvocationOutcome::Produced => r is Ok,
            InvocationOutcome::EngineError(s) => r == Result::<(), Error>::Err(
                Error::GhostscriptFailed(s),
            ),
            InvocationOutcome::SpawnError(s) => r == Result::<(), Error>::Err(Error::Spawn(s)),
        },
{
    match outcome {
        InvocationOutcome::Produced => Ok(()),
        InvocationOutcome::EngineError(s) => Err(Error::GhostscriptFailed(s)),
        InvocationOutcome::SpawnError(s) => Err(Error::Spawn(s)),
    }
}

} // verus!
