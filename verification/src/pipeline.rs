//! The per-file pipeline: after one engine invocation, decide what to
//! do with the produced file and what to record for the run summary.
//!
//! The decisions are pure; the shell around the library performs the
//! filesystem actions each decision calls for and reports the events
//! back. The in-place replacement protocol is additionally modelled
//! abstractly, and its atomicity invariant proved over that model.

use vstd::prelude::*;
use crate::gate::SizeDecision;

verus! {

/// The replacement strategy selected once per run.
#[derive(Copy, Clone, Debug, PartialEq, Eq, Structural)]
pub enum Mode {
    /// Keep the original and write the shrunk file at a derived
    /// sibling path.
    Sibling,
    /// Atomically replace the original: the engine writes to a private
    /// temporary path which, on improvement, is renamed over the
    /// original.
    InPlace,
}

/// The terminal classification of one candidate file.
#[derive(Copy, Clone, Debug, PartialEq, Eq, Structural)]
pub enum FileStatus {
    /// The shrunk file was kept (sibling) or swapped in (in-place).
    Done,
    /// The engine ran but produced no improvement; the produced file
    /// was discarded and the original left untouched.
    Skip,
    /// The invocation or the replacement failed; the original is
    /// untouched.
    Failed,
}

/// Terminal record for one candidate file.
#[derive(Clone, Debug)]
pub struct FileResult {
    /// The candidate's path.
    pub path: String,
    /// How the file's run ended.
    pub status: FileStatus,
    /// Bytes saved; 0 unless the shrunk file was kept.
    pub bytes_saved: u64,
    /// The diagnostic, present exactly on failure.
    pub error_detail: Option<String>,
}

/// Internal consistency of one record: savings only on `Done`, a
/// diagnostic exactly on `Failed`.
pub open spec fn result_wf(r: FileResult) -> bool {
    &&& r.status != FileStatus::Done ==> r.bytes_saved == 0
    &&& (r.status == FileStatus::Failed <==> r.error_detail is Some)
}

impl FileResult {
    /// Record for a kept improvement of `bytes_saved` bytes.
    pub fn done(path: String, bytes_saved: u64) -> (r: FileResult)
        ensures
            r.path == path,
            r.status == FileStatus::Done,
            r.bytes_saved == bytes_saved,
            r.error_detail is None,
            result_wf(r),
    {
        FileResult { path, status: FileStatus::Done, bytes_saved, error_detail: None }
    }

    /// Record for a run that produced no improvement.
    pub fn skip(path: String) -> (r: FileResult)
        ensures
            r.path == path,
            r.status == FileStatus::Skip,
            r.bytes_saved == 0,
            r.error_detail is None,
            result_wf(r),
    {
        FileResult { path, status: FileStatus::Skip, bytes_saved: 0, error_detail: None }
    }

    /// Record for a failed run, carrying its diagnostic.
    pub fn failed(path: String, detail: String) -> (r: FileResult)
        ensures
            r.path == path,
            r.status == FileStatus::Failed,
            r.bytes_saved == 0,
            r.error_detail == Some(detail),
            result_wf(r),
    {
        FileResult { path, status: FileStatus::Failed, bytes_saved: 0, error_detail: Some(detail) }
    }
}

/// The filesystem action owed after a successful engine run, given the
/// size gate's decision and the run's replacement mode.
#[derive(Copy, Clone, Debug, PartialEq, Eq, Structural)]
pub enum Step {
    /// Sibling mode, improved: keep the produced file at its derived
    /// path and record `Done` with the saved bytes.
    AcceptSibling(u64),
    /// Not improved (either mode): delete the produced file, leave the
    /// original untouched, record `Skip`.
    DiscardAndSkip,
    /// In-place mode, improved: attempt the atomic rename of the
    /// temporary file over the original, then record through
    /// [`result_after_replace`].
    AttemptReplace(u64),
}

/// Decides the replacement step after a successful engine run.
pub fn plan_step(mode: Mode, decision: SizeDecision) -> (s: Step)
    ensures
        match decision {
            SizeDecision::Improved(saved) => s == (match mode {
                Mode::Sibling => Step::AcceptSibling(saved),
                Mode::InPlace => Step::AttemptReplace(saved),
            }),
            SizeDecision::NotImproved => s == Step::DiscardAndSkip,
        },
{
    match decision {
        SizeDecision::Improved(saved) => match mode {
            Mode::Sibling => Step::AcceptSibling(saved),
            Mode::InPlace => Step::AttemptReplace(saved),
        },
        SizeDecision::NotImproved => Step::DiscardAndSkip,
    }
}

/// Records the outcome of the attempted atomic rename in in-place
/// mode: success keeps the saving; a rename failure is an operational
/// error, recorded as `Failed` (not as a skip), with the temporary
/// file owed deletion and the original untouched.
pub fn result_after_replace(path: String, rename: Result<(), String>, saved: u64) -> (r: FileResult)
    ensures
        rename is Ok ==> r == (FileResult {
            path,
            status: FileStatus::Done,
            bytes_saved: saved,
            error_detail: None,
        }),
        rename matches Err(e) ==> r == (FileResult {
            path,
            status: FileStatus::Failed,
            bytes_saved: 0,
            error_detail: Some(e),
        }),
        result_wf(r),
{
    match rename {
        Ok(()) => FileResult { path, status: FileStatus::Done, bytes_saved: saved, error_detail: None },
        Err(e) => FileResult { path, status: FileStatus::Failed, bytes_saved: 0, error_detail: Some(e) },
    }
}

/// Abstract disk state of one candidate file during an in-place run:
/// what the original name holds, and whether the private temporary
/// file exists.
pub struct InPlaceDisk {
    /// The original name holds the pre-run content.
    pub original_current: bool,
    /// The original name holds the engine's output.
    pub original_replaced: bool,
    /// The private temporary file exists.
    pub temp_present: bool,
}

/// Effect of deleting the temporary file.
pub open spec fn apply_delete_temp(d: InPlaceDisk) -> InPlaceDisk {
    InPlaceDisk { temp_present: false, ..d }
}

/// Effect of the successful atomic rename: the original name now holds
/// the engine's output and the temporary name is gone, with no
/// intermediate state in which neither or both exist.
pub open spec fn apply_replace(d: InPlaceDisk) -> InPlaceDisk {
    InPlaceDisk { original_current: false, original_replaced: true, temp_present: false }
}

/// The disk state after one whole in-place run, composed from the
/// per-action effects as the pipeline's decisions order them: a failed
/// engine run or a non-improvement deletes the temporary; an improved
/// run renames it over the original; a failed rename deletes it.
pub open spec fn in_place_final_disk(
    start: InPlaceDisk,
    engine_ok: bool,
    improved: bool,
    rename_ok: bool,
) -> InPlaceDisk {
    if !engine_ok {
        apply_delete_temp(start)
    } else if !improved {
        apply_delete_temp(start)
    } else if rename_ok {
        apply_replace(start)
    } else {
        apply_delete_temp(start)
    }
}

/// In-place atomicity: after any single-file run — success, skip or
/// failure — exactly one of {original unchanged, original replaced by
/// the improved content} holds, no temporary artifact remains, and the
/// original is replaced only by an improved result whose rename
/// succeeded.
pub proof fn lemma_in_place_exclusive(
    start: InPlaceDisk,
    engine_ok: bool,
    improved: bool,
    rename_ok: bool,
)
    requires
        start.original_current,
        !start.original_replaced,
    ensures
        !in_place_final_disk(start, engine_ok, improved, rename_ok).temp_present,
        in_place_final_disk(start, engine_ok, improved, rename_ok).original_current
            != in_place_final_disk(start, engine_ok, improved, rename_ok).original_replaced,
        in_place_final_disk(start, engine_ok, improved, rename_ok).original_replaced ==> engine_ok
            && improved && rename_ok,
{
}

} // verus!
