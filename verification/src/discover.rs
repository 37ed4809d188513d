//! Candidate discovery: turns observations of the filesystem — each
//! user-supplied path's kind, and the entries a directory walk yielded
//! — into the ordered candidate list and the non-fatal diagnostics.
//!
//! The walk itself is filesystem work done by the shell around the
//! library; the selection rules over what it observed are decided and
//! verified here.

use vstd::prelude::*;
use crate::paths::is_pdf;
use crate::paths::spec_is_pdf;

verus! {

/// One entry observed while walking a directory: its path, its depth
/// below the walked root (0 is the root itself, 1 an immediate child),
/// and whether it is a regular file.
#[derive(Clone, Debug)]
pub struct WalkEntry {
    /// The entry's path.
    pub path: String,
    /// Depth below the walked root.
    pub depth: u64,
    /// Whether the entry is a regular file.
    pub is_file: bool,
}

/// One user-supplied input path, as observed on the filesystem.
pub enum InputEntry {
    /// The path is an existing regular file.
    FileInput {
        /// The supplied path.
        path: String,
    },
    /// The path is a directory; `entries` is what walking it yielded,
    /// in traversal order, to unbounded depth.
    DirInput {
        /// The supplied path.
        path: String,
        /// The walked entries in traversal order.
        entries: Vec<WalkEntry>,
    },
    /// The path exists as neither file nor directory, or not at all.
    MissingInput {
        /// The supplied path.
        path: String,
    },
}

/// A non-fatal diagnostic recorded during discovery.
#[derive(Clone, Debug)]
pub enum Diagnostic {
    /// An input file was skipped because its name does not match the
    /// target document type.
    NonPdfSkipped(String),
    /// An input path was skipped because it does not exist.
    PathNotFound(String),
}

/// A diagnostic reduced to plain values: whether it is the not-found
/// kind, and the path it names.
pub open spec fn diag_view(d: Diagnostic) -> (bool, Seq<char>) {
    match d {
        Diagnostic::NonPdfSkipped(p) => (false, p@),
        Diagnostic::PathNotFound(p) => (true, p@),
    }
}

/// Whether a walked entry is selected: it must be a regular file with
/// a matching extension, and lie at depth 1 or less unless recursion
/// is enabled.
pub open spec fn entry_selected(e: WalkEntry, recursive: bool) -> bool {
    e.is_file && (recursive || e.depth <= 1) && spec_is_pdf(e.path@)
}

/// The paths selected from one directory walk, in traversal order.
pub open spec fn selected_paths(entries: Seq<WalkEntry>, recursive: bool) -> Seq<Seq<char>>
    decreases entries.len(),
{
    if entries.len() == 0 {
        Seq::empty()
    } else {
        selected_paths(entries.drop_last(), recursive) + (if entry_selected(
            entries.last(),
            recursive,
        ) {
            seq![entries.last().path@]
        } else {
            Seq::<Seq<char>>::empty()
        })
    }
}

/// The candidates contributed by one input: a matching file is taken
/// as it is, a non-matching file contributes nothing, a directory
/// contributes its selected walk entries, a missing path nothing.
pub open spec fn spec_candidates_of(inp: InputEntry, recursive: bool) -> Seq<Seq<char>> {
    match inp {
        InputEntry::FileInput { path } => if spec_is_pdf(path@) {
            seq![path@]
        } else {
            Seq::<Seq<char>>::empty()
        },
        InputEntry::DirInput { entries, .. } => selected_paths(entries@, recursive),
        InputEntry::MissingInput { .. } => Seq::<Seq<char>>::empty(),
    }
}

/// The diagnostics contributed by one input: a non-matching file is
/// recorded as skipped, a missing path as not found; directory walks
/// are silent.
pub open spec fn spec_diags_of(inp: InputEntry) -> Seq<(bool, Seq<char>)> {
    match inp {
        InputEntry::FileInput { path } => if spec_is_pdf(path@) {
            Seq::<(bool, Seq<char>)>::empty()
        } else {
            seq![(false, path@)]
        },
        InputEntry::DirInput { .. } => Seq::<(bool, Seq<char>)>::empty(),
        InputEntry::MissingInput { path } => seq![(true, path@)],
    }
}

/// All candidates over the ordered inputs, encounter order preserved.
pub open spec fn spec_collect(inputs: Seq<InputEntry>, recursive: bool) -> Seq<Seq<char>>
    decreases inputs.len(),
{
    if inputs.len() == 0 {
        Seq::empty()
    } else {
        spec_collect(inputs.drop_last(), recursive) + spec_candidates_of(
            inputs.last(),
            recursive,
        )
    }
}

/// All diagnostics over the ordered inputs, encounter order preserved.
pub open spec fn spec_collect_diags(inputs: Seq<InputEntry>) -> Seq<(bool, Seq<char>)>
    decreases inputs.len(),
{
    if inputs.len() == 0 {
        Seq::empty()
    } else {
        spec_collect_diags(inputs.drop_last()) + spec_diags_of(inputs.last())
    }
}

/// The outcome of discovery: the ordered candidate list and the
/// non-fatal diagnostics gathered along the way.
pub struct Discovery {
    /// Every matched candidate path, in encounter order.
    pub candidates: Vec<String>,
    /// The diagnostics, in encounter order.
    pub diagnostics: Vec<Diagnostic>,
}

/// Collects PDF candidates from a mixed list of observed file and
/// directory inputs.
///
/// Files that do not match are skipped with a diagnostic; directories
/// contribute their walked entries at depth 1 only unless `recursive`
/// is set; missing paths are skipped with a diagnostic. No input is
/// fatal here, and an empty result is valid output.
pub fn collect_pdfs(inputs: &Vec<InputEntry>, recursive: bool) -> (d: Discovery)
    ensures
        d.candidates@.map_values(|s: String| s@) == spec_collect(inputs@, recursive),
        d.diagnostics@.map_values(|g: Diagnostic| diag_view(g)) == spec_collect_diags(inputs@),
{
    let mut candidates: Vec<String> = Vec::new();
    let mut diagnostics: Vec<Diagnostic> = Vec::new();
    let n = inputs.len();
    let mut i: usize = 0;
    while i < n
        invariant
            i <= n,
            n == inputs@.len(),
            candidates@.map_values(|s: String| s@) == spec_collect(inputs@.take(i as int), recursive),
            diagnostics@.map_values(|g: Diagnostic| diag_view(g)) == spec_collect_diags(
                inputs@.take(i as int),
            ),
        decreases n - i,
    {
        proof {
            assert(inputs@.take(i + 1).drop_last() =~= inputs@.take(i as int));
            assert(inputs@.take(i + 1).last() == inputs@[i as int]);
        }
        match &inputs[i] {
            InputEntry::FileInput { path } => {
                if is_pdf(path.as_str()) {
                    candidates.push(path.clone());
                } else {
                    diagnostics.push(Diagnostic::NonPdfSkipped(path.clone()));
                }
                proof {
                    assert(candidates@.map_values(|s: String| s@) =~= spec_collect(
                        inputs@.take(i + 1),
                        recursive,
                    ));
                    assert(diagnostics@.map_values(|g: Diagnostic| diag_view(g))
                        =~= spec_collect_diags(inputs@.take(i + 1)));
                }
            },
            InputEntry::DirInput { entries, .. } => {
                let m = entries.len();
                let mut j: usize = 0;
                while j < m
                    invariant
                        j <= m,
                        m == entries@.len(),
                        candidates@.map_values(|s: String| s@) == spec_collect(
                            inputs@.take(i as int),
                            recursive,
                        ) + selected_paths(entries@.take(j as int), recursive),
                    decreases m - j,
                {
                    proof {
                        assert(entries@.take(j + 1).drop_last() =~= entries@.take(j as int));
                        assert(entries@.take(j + 1).last() == entries@[j as int]);
                    }
                    let ghost pre_cands = candidates@;
                    let e = &entries[j];
                    let sel = e.is_file && (recursive || e.depth <= 1) && is_pdf(e.path.as_str());
                    if sel {
                        candidates.push(e.path.clone());
                    }
                    proof {
                        assert(sel == entry_selected(entries@[j as int], recursive));
                        assert(selected_paths(entries@.take(j + 1), recursive) == selected_paths(
                            entries@.take(j as int),
                            recursive,
                        ) + (if sel {
                            seq![entries@[j as int].path@]
                        } else {
                            Seq::<Seq<char>>::empty()
                        }));
                        if sel {
                            assert(candidates@ == pre_cands.push(entries@[j as int].path));
                            assert(candidates@.map_values(|s: String| s@) =~= pre_cands.map_values(
                                |s: String| s@,
                            ).push(entries@[j as int].path@));
                        }
                        assert(candidates@.map_values(|s: String| s@) =~= spec_collect(
                            inputs@.take(i as int),
                            recursive,
                        ) + selected_paths(entries@.take(j + 1), recursive));
                    }
                    j = j + 1;
                }
                proof {
                    assert(entries@.take(m as int) =~= entries@);
                    assert(candidates@.map_values(|s: String| s@) =~= spec_collect(
                        inputs@.take(i + 1),
                        recursive,
                    ));
                    assert(diagnostics@.map_values(|g: Diagnostic| diag_view(g))
                        =~= spec_collect_diags(inputs@.take(i + 1)));
                }
            },
            InputEntry::MissingInput { path } => {
                diagnostics.push(Diagnostic::PathNotFound(path.clone()));
                proof {
                    assert(candidates@.map_values(|s: String| s@) =~= spec_collect(
                        inputs@.take(i + 1),
                        recursive,
                    ));
                    assert(diagnostics@.map_values(|g: Diagnostic| diag_view(g))
                        =~= spec_collect_diags(inputs@.take(i + 1)));
                }
            },
        }
        i = i + 1;
    }
    proof {
        assert(inputs@.take(n as int) =~= inputs@);
    }
    Discovery { candidates, diagnostics }
}

/// Discovery selects exactly the matching file entries the walk
/// visited: every regular file at an admitted depth with a matching
/// extension appears in the selection, and everything selected is such
/// an entry — so with recursion disabled only immediate children are
/// taken, with it enabled all descendants, and non-matching or
/// non-file entries never appear.
pub proof fn lemma_selected_paths_characterized(entries: Seq<WalkEntry>, recursive: bool)
    ensures
        forall|i: int|
            0 <= i < entries.len() && entry_selected(#[trigger] entries[i], recursive)
                ==> selected_paths(entries, recursive).contains(entries[i].path@),
        forall|p: Seq<char>|
            #[trigger] selected_paths(entries, recursive).contains(p) ==> exists|i: int|
                0 <= i < entries.len() && entry_selected(entries[i], recursive)
                    && entries[i].path@ == p,
    decreases entries.len(),
{
    if entries.len() > 0 {
        let pre = entries.drop_last();
        let e = entries.last();
        let head = selected_paths(pre, recursive);
        let tail: Seq<Seq<char>> = if entry_selected(e, recursive) {
            seq![e.path@]
        } else {
            Seq::<Seq<char>>::empty()
        };
        let s = selected_paths(entries, recursive);
        lemma_selected_paths_characterized(pre, recursive);
        assert(s == head + tail);
        assert forall|i: int|
            0 <= i < entries.len() && entry_selected(#[trigger] entries[i], recursive)
                implies s.contains(entries[i].path@) by {
            if i < entries.len() - 1 {
                assert(pre[i] == entries[i]);
                assert(head.contains(entries[i].path@));
                let k = choose|k: int| 0 <= k < head.len() && head[k] == entries[i].path@;
                assert(s[k] == entries[i].path@);
            } else {
                assert(entries[i] == e);
                assert(s[s.len() - 1] == e.path@);
            }
        }
        assert forall|p: Seq<char>| #[trigger] selected_paths(entries, recursive).contains(p)
            implies exists|i: int|
                0 <= i < entries.len() && entry_selected(entries[i], recursive)
                    && entries[i].path@ == p by {
            let k = choose|k: int| 0 <= k < s.len() && s[k] == p;
            if k < head.len() {
                assert(head[k] == p);
                assert(head.contains(p));
                let i = choose|i: int|
                    0 <= i < pre.len() && entry_selected(pre[i], recursive) && pre[i].path@ == p;
                assert(entries[i] == pre[i]);
                assert(entry_selected(entries[i], recursive) && entries[i].path@ == p);
            } else {
                assert(tail.len() > 0);
                assert(p == e.path@);
                assert(entries[entries.len() - 1] == e);
                assert(entry_selected(entries[entries.len() - 1], recursive));
            }
        }
    }
}

} // verus!
