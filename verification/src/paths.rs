//! Path derivation rules, modelled over plain strings.
//!
//! Paths are manipulated as strings with `/` as the component
//! separator; a path's final component is split into a stem and an
//! extension at its last dot, with a leading dot (a hidden file) not
//! counting as an extension marker.

use vstd::prelude::*;

verus! {

/// Index of the last occurrence of `c` in `s`, or -1 when `c` does not
/// occur.
pub open spec fn last_index_of_char(s: Seq<char>, c: char) -> int
    decreases s.len(),
{
    if s.len() == 0 {
        -1
    } else if s[s.len() - 1] == c {
        s.len() - 1
    } else {
        last_index_of_char(s.drop_last(), c)
    }
}

/// `last_index_of_char` returns a valid index of `c`, with no later
/// occurrence, or -1 when there is none.
pub proof fn lemma_last_index_of_char(s: Seq<char>, c: char)
    ensures
        -1 <= last_index_of_char(s, c) < s.len(),
        last_index_of_char(s, c) >= 0 ==> s[last_index_of_char(s, c)] == c,
        forall|j: int| last_index_of_char(s, c) < j < s.len() ==> s[j] != c,
    decreases s.len(),
{
    if s.len() == 0 {
    } else if s[s.len() - 1] == c {
    } else {
        lemma_last_index_of_char(s.drop_last(), c);
        assert forall|j: int| last_index_of_char(s, c) < j < s.len() implies s[j] != c by {
            if j < s.len() - 1 {
                assert(s.drop_last()[j] == s[j]);
            }
        }
    }
}

/// Finds the index of the last occurrence of `c` in `s`.
pub fn rfind_char(s: &str, c: char) -> (r: Option<usize>)
    ensures
        match r {
            Some(k) => k < s@.len() && last_index_of_char(s@, c) == k,
            None => last_index_of_char(s@, c) == -1,
        },
{
    let n = s.unicode_len();
    let mut i = n;
    while i > 0
        invariant
            i <= n,
            n == s@.len(),
            forall|j: int| i <= j < n ==> s@[j] != c,
        decreases i,
    {
        i = i - 1;
        let ch = s.get_char(i);
        if ch == c {
            proof {
                lemma_last_index_of_char(s@, c);
            }
            return Some(i);
        }
    }
    proof {
        lemma_last_index_of_char(s@, c);
    }
    None
}

/// Position just past the last `/` of `path`; 0 when `path` has no
/// directory part.
pub open spec fn file_name_start(path: Seq<char>) -> int {
    last_index_of_char(path, '/') + 1
}

/// The final component of `path`.
pub open spec fn spec_file_name(path: Seq<char>) -> Seq<char> {
    path.subrange(file_name_start(path), path.len() as int)
}

/// Everything up to and including the last `/` of `path`; empty when
/// `path` has no directory part.
pub open spec fn spec_parent_prefix(path: Seq<char>) -> Seq<char> {
    path.take(file_name_start(path))
}

/// Whether the file name `name` carries an extension: a dot after its
/// first character (a name starting with its only dot is a hidden
/// file, not an extension).
pub open spec fn spec_has_extension(name: Seq<char>) -> bool {
    last_index_of_char(name, '.') >= 1
}

/// The part of `name` before its extension marker; the whole name when
/// there is no extension.
pub open spec fn spec_stem(name: Seq<char>) -> Seq<char> {
    if spec_has_extension(name) {
        name.take(last_index_of_char(name, '.'))
    } else {
        name
    }
}

/// The part of `name` after its extension marker; empty when there is
/// no extension.
pub open spec fn spec_extension(name: Seq<char>) -> Seq<char> {
    if spec_has_extension(name) {
        name.subrange(last_index_of_char(name, '.') + 1, name.len() as int)
    } else {
        Seq::empty()
    }
}

/// Whether `ext` spells "pdf", ignoring ASCII case.
pub open spec fn pdf_extension(ext: Seq<char>) -> bool {
    &&& ext.len() == 3
    &&& (ext[0] == 'p' || ext[0] == 'P')
    &&& (ext[1] == 'd' || ext[1] == 'D')
    &&& (ext[2] == 'f' || ext[2] == 'F')
}

/// Whether `path`'s final component has a ".pdf" extension,
/// case-insensitively.
pub open spec fn spec_is_pdf(path: Seq<char>) -> bool {
    spec_has_extension(spec_file_name(path)) && pdf_extension(spec_extension(spec_file_name(path)))
}

/// Returns `true` if `path` has a `.pdf` extension (case-insensitive).
pub fn is_pdf(path: &str) -> (r: bool)
    ensures
        r == spec_is_pdf(path@),
{
    let n = path.unicode_len();
    let start: usize = match rfind_char(path, '/') {
        Some(k) => k + 1,
        None => 0,
    };
    let name = path.substring_char(start, n);
    let m = name.unicode_len();
    match rfind_char(name, '.') {
        Some(d) => {
            if d >= 1 && m - (d + 1) == 3 {
                let c0 = name.get_char(d + 1);
                let c1 = name.get_char(d + 2);
                let c2 = name.get_char(d + 3);
                (c0 == 'p' || c0 == 'P') && (c1 == 'd' || c1 == 'D') && (c2 == 'f' || c2 == 'F')
            } else {
                false
            }
        },
        None => false,
    }
}

/// The file name derived for a shrunk output: the original stem, the
/// configured suffix, then the original extension; a name without an
/// extension gets ".pdf" appended after the suffix.
pub open spec fn spec_output_name(name: Seq<char>, suffix: Seq<char>) -> Seq<char> {
    if spec_has_extension(name) {
        spec_stem(name) + suffix + "."@ + spec_extension(name)
    } else {
        name + suffix + ".pdf"@
    }
}

/// `dir` and `name` joined with a single `/`; an empty `dir` yields
/// `name` alone.
pub open spec fn spec_join(dir: Seq<char>, name: Seq<char>) -> Seq<char> {
    if dir.len() == 0 {
        name
    } else if dir[dir.len() - 1] == '/' {
        dir + name
    } else {
        dir + "/"@ + name
    }
}

/// The full derived output path: the output name placed in `dir` when
/// one is configured, else next to the original.
pub open spec fn spec_output_path(input: Seq<char>, suffix: Seq<char>, dir: Option<Seq<char>>) -> Seq<char> {
    match dir {
        Some(d) => spec_join(d, spec_output_name(spec_file_name(input), suffix)),
        None => spec_parent_prefix(input) + spec_output_name(spec_file_name(input), suffix),
    }
}

/// Builds the derived output file name for one original file name.
fn output_name(name: &str, suffix: &str) -> (r: String)
    ensures
        r@ == spec_output_name(name@, suffix@),
{
    let m = name.unicode_len();
    match rfind_char(name, '.') {
        Some(d) => {
            if d >= 1 {
                let stem = name.substring_char(0, d);
                let ext = name.substring_char(d + 1, m);
                let mut out = String::from_str(stem);
                out.append(suffix);
                out.append(".");
                out.append(ext);
                proof {
                    assert(stem@ =~= spec_stem(name@));
                    assert(ext@ =~= spec_extension(name@));
                }
                out
            } else {
                let mut out = String::from_str(name);
                out.append(suffix);
                out.append(".pdf");
                out
            }
        },
        None => {
            let mut out = String::from_str(name);
            out.append(suffix);
            out.append(".pdf");
            out
        },
    }
}

/// Joins a directory path and a file name with a single `/`.
fn join_path(dir: &str, name: &str) -> (r: String)
    ensures
        r@ == spec_join(dir@, name@),
{
    let dl = dir.unicode_len();
    if dl == 0 {
        String::from_str(name)
    } else {
        let last = dir.get_char(dl - 1);
        let mut r = String::from_str(dir);
        if last != '/' {
            r.append("/");
        }
        r.append(name);
        r
    }
}

/// Computes the output path for a shrunk PDF.
///
/// When `output_dir` is `Some`, the file is placed in that directory;
/// otherwise it is placed alongside `input`. The file name is the
/// original stem, then `suffix`, then the original extension.
pub fn output_path(input: &str, suffix: &str, output_dir: Option<&str>) -> (r: String)
    ensures
        r@ == spec_output_path(
            input@,
            suffix@,
            match output_dir {
                Some(d) => Some(d@),
                None => None,
            },
        ),
{
    let n = input.unicode_len();
    let start: usize = match rfind_char(input, '/') {
        Some(k) => k + 1,
        None => 0,
    };
    let name = input.substring_char(start, n);
    let out_name = output_name(name, suffix);
    match output_dir {
        Some(dir) => join_path(dir, out_name.as_str()),
        None => {
            let prefix = input.substring_char(0, start);
            let mut r = String::from_str(prefix);
            r.append(out_name.as_str());
            proof {
                assert(prefix@ =~= spec_parent_prefix(input@));
            }
            r
        },
    }
}

/// The private temporary path used by in-place replacement: the
/// original's extension is replaced by a distinctive temporary one in
/// the same directory, so an atomic rename back stays on one volume.
pub open spec fn spec_temp_path(path: Seq<char>) -> Seq<char> {
    spec_parent_prefix(path) + spec_stem(spec_file_name(path)) + "."@ + "_pdfshrinker_tmp.pdf"@
}

/// Derives the in-place temporary path next to `input`.
pub fn temp_path(input: &str) -> (r: String)
    ensures
        r@ == spec_temp_path(input@),
{
    let n = input.unicode_len();
    let start: usize = match rfind_char(input, '/') {
        Some(k) => k + 1,
        None => 0,
    };
    let name = input.substring_char(start, n);
    let prefix = input.substring_char(0, start);
    let m = name.unicode_len();
    let mut r = String::from_str(prefix);
    proof {
        assert(prefix@ =~= spec_parent_prefix(input@));
        assert(name@ =~= spec_file_name(input@));
    }
    match rfind_char(name, '.') {
        Some(d) => {
            if d >= 1 {
                let stem = name.substring_char(0, d);
                r.append(stem);
                proof {
                    assert(stem@ =~= spec_stem(name@));
                }
            } else {
                r.append(name);
            }
        },
        None => {
            r.append(name);
        },
    }
    r.append(".");
    r.append("_pdfshrinker_tmp.pdf");
    r
}

/// The derived output path is a function of the original's directory
/// prefix, stem and extension, the suffix, and the configured
/// directory alone: two originals that agree on those parts map to the
/// same output path, whatever else their paths hold and in whatever
/// order the derivations run.
pub proof fn lemma_output_path_deterministic(
    a: Seq<char>,
    b: Seq<char>,
    suffix: Seq<char>,
    dir: Option<Seq<char>>,
)
    requires
        spec_stem(spec_file_name(a)) == spec_stem(spec_file_name(b)),
        spec_has_extension(spec_file_name(a)) == spec_has_extension(spec_file_name(b)),
        spec_extension(spec_file_name(a)) == spec_extension(spec_file_name(b)),
        dir is None ==> spec_parent_prefix(a) == spec_parent_prefix(b),
    ensures
        spec_output_path(a, suffix, dir) == spec_output_path(b, suffix, dir),
{
    assert(spec_output_name(spec_file_name(a), suffix) == spec_output_name(
        spec_file_name(b),
        suffix,
    ));
}

} // verus!
