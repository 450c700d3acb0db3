//! Decisions of the corpus regression harness: which files it formats, where
//! their baselines lie, and how per-file outcomes add up to a verdict.

use vstd::prelude::*;

verus! {

use vstd::string::StringSliceAdditionalSpecFns;

/// Extension of the source files that the corpora hold.
pub const SOURCE_EXTENSION: &'static str = ".symon";

/// Suffix of the file that holds a source file's expected output.
pub const BASELINE_SUFFIX: &'static str = ".expected";

/// Marker of a source file that bundles several files in one.
pub const MULTI_PART_MARKER: &'static str = "@TEST-START-FILE";

/// Whether `s` ends with `suffix`.
pub open spec fn has_suffix(s: Seq<char>, suffix: Seq<char>) -> bool {
    s.len() >= suffix.len() && s.subrange(s.len() - suffix.len(), s.len() as int) == suffix
}

/// Whether the path `p` ends with the path `suffix`, compared by whole
/// components.
pub open spec fn ends_with_components(p: Seq<char>, suffix: Seq<char>) -> bool {
    has_suffix(p, suffix) && (p.len() == suffix.len() || p[p.len() - suffix.len() - 1] == '/')
}

/// Whether the path `p` names a source file: its file name has a non-empty
/// stem and the source extension.
pub open spec fn is_source_path(p: Seq<char>) -> bool {
    let ext = SOURCE_EXTENSION@;
    has_suffix(p, ext) && p.len() > ext.len() && p[p.len() - ext.len() - 1] != '/'
}

/// Paths, by trailing components, of the external corpus files that are known
/// not to format: legacy syntax, a parser ambiguity, unsupported unit hooks.
pub open spec fn deny_list() -> Seq<Seq<char>> {
    seq![
        "tools/preprocessor.symon"@,
        "types/unit/hooks-fail.symon"@,
        "types/vector/legacy-syntax-fail.symon"@,
        "types/unit/switch-attributes-fail.symon"@,
    ]
}

pub open spec fn is_denied_path(p: Seq<char>) -> bool {
    exists|i: int| 0 <= i < deny_list().len() && ends_with_components(p, #[trigger] deny_list()[i])
}

/// Whether `needle` occurs in `hay` at index `i`.
pub open spec fn occurs_at(hay: Seq<u8>, needle: Seq<u8>, i: int) -> bool {
    0 <= i && i + needle.len() <= hay.len() && hay.subrange(i, i + needle.len()) == needle
}

pub open spec fn occurs(hay: Seq<u8>, needle: Seq<u8>) -> bool {
    exists|i: int| occurs_at(hay, needle, i)
}

/// Whether `s` ends with `suffix`.
fn suffix_at(s: &str, suffix: &str) -> (r: bool)
    ensures
        r == has_suffix(s@, suffix@),
{
    let n = s.unicode_len();
    let m = suffix.unicode_len();
    if m > n {
        return false;
    }
    let base = n - m;
    let mut i: usize = 0;
    while i < m
        invariant
            n == s@.len(),
            m == suffix@.len(),
            base == n - m,
            i <= m,
            forall|j: int| 0 <= j < i ==> s@[base + j] == suffix@[j],
        decreases m - i,
    {
        if s.get_char(base + i) != suffix.get_char(i) {
            assert(s@.subrange(base as int, n as int)[i as int] != suffix@[i as int]);
            return false;
        }
        i = i + 1;
    }
    assert(s@.subrange(base as int, n as int) =~= suffix@);
    true
}

/// Whether the path `path` ends with the path `suffix`, by whole components.
pub fn path_ends_with(path: &str, suffix: &str) -> (r: bool)
    ensures
        r == ends_with_components(path@, suffix@),
{
    if !suffix_at(path, suffix) {
        return false;
    }
    let n = path.unicode_len();
    let m = suffix.unicode_len();
    n == m || path.get_char(n - m - 1) == '/'
}

/// Whether the external corpus check leaves out the file at `path`.
pub fn is_denied(path: &str) -> (r: bool)
    ensures
        r == is_denied_path(path@),
{
    let denied = vec![
        "tools/preprocessor.symon",
        "types/unit/hooks-fail.symon",
        "types/vector/legacy-syntax-fail.symon",
        "types/unit/switch-attributes-fail.symon",
    ];
    assert(denied@.len() == 4);
    assert forall|i: int| 0 <= i < 4 implies denied@[i]@ == #[trigger] deny_list()[i] by {}
    let mut i: usize = 0;
    while i < denied.len()
        invariant
            denied@.len() == deny_list().len(),
            forall|k: int| 0 <= k < 4 ==> denied@[k]@ == #[trigger] deny_list()[k],
            i <= denied.len(),
            forall|k: int| 0 <= k < i ==> !ends_with_components(path@, #[trigger] deny_list()[k]),
        decreases denied.len() - i,
    {
        if path_ends_with(path, denied[i]) {
            assert(ends_with_components(path@, deny_list()[i as int]));
            return true;
        }
        i = i + 1;
    }
    false
}

/// Whether the path `path` names a source file of the corpora.
pub fn is_source_file(path: &str) -> (r: bool)
    ensures
        r == is_source_path(path@),
{
    if !suffix_at(path, SOURCE_EXTENSION) {
        return false;
    }
    let n = path.unicode_len();
    let m = SOURCE_EXTENSION.unicode_len();
    n > m && path.get_char(n - m - 1) != '/'
}

/// Whether `needle` occurs in `hay`.
pub fn contains_bytes(hay: &[u8], needle: &[u8]) -> (r: bool)
    ensures
        r == occurs(hay@, needle@),
{
    let n = hay.len();
    let m = needle.len();
    if m > n {
        assert forall|i: int| !occurs_at(hay@, needle@, i) by {}
        return false;
    }
    let mut i: usize = 0;
    while i <= n - m
        invariant
            n == hay@.len(),
            m == needle@.len(),
            m <= n,
            i <= n - m + 1,
            forall|k: int| 0 <= k < i ==> !occurs_at(hay@, needle@, k),
        decreases n - m + 1 - i,
    {
        let mut j: usize = 0;
        while j < m && hay[i + j] == needle[j]
            invariant
                n == hay@.len(),
                m == needle@.len(),
                i + m <= n,
                j <= m,
                forall|k: int| 0 <= k < j ==> hay@[i + k] == needle@[k],
            decreases m - j,
        {
            j = j + 1;
        }
        if j == m {
            assert(hay@.subrange(i as int, i + m) =~= needle@);
            assert(occurs_at(hay@, needle@, i as int));
            return true;
        }
        assert(hay@.subrange(i as int, i + m)[j as int] != needle@[j as int]);
        i = i + 1;
    }
    assert forall|k: int| !occurs_at(hay@, needle@, k) by {
        if 0 <= k && k + m <= n {
            assert(k < i);
        }
    }
    false
}

/// Whether `source` bundles several files, which the external corpus check
/// does not format.
pub fn is_multi_part(source: &str) -> (r: bool)
    ensures
        r == occurs(source.spec_bytes(), MULTI_PART_MARKER.spec_bytes()),
{
    contains_bytes(source.as_bytes(), MULTI_PART_MARKER.as_bytes())
}

/// File name of the expected output of the source file named `file_name`.
pub fn baseline_name(file_name: &str) -> (r: String)
    ensures
        r@ == file_name@ + BASELINE_SUFFIX@,
{
    let mut r = file_name.to_string();
    r.append(BASELINE_SUFFIX);
    r
}

/// Paths of the failed outcomes among `rs`, in order.
pub open spec fn failed_paths(rs: Seq<(String, bool)>) -> Seq<Seq<char>>
    decreases rs.len(),
{
    if rs.len() == 0 {
        seq![]
    } else if rs.last().1 {
        failed_paths(rs.drop_last())
    } else {
        failed_paths(rs.drop_last()).push(rs.last().0@)
    }
}

pub open spec fn path_views(v: Seq<String>) -> Seq<Seq<char>> {
    v.map_values(|s: String| s@)
}

/// What a run over the external corpus amounts to.
pub struct CorpusReport {
    /// How many files were formatted.
    pub attempted: usize,
    /// The paths of the files that failed to format.
    pub failures: Vec<String>,
}

impl CorpusReport {
    /// Whether the run succeeded: no file failed.
    pub fn passed(&self) -> (r: bool)
        ensures
            r == (self.failures@.len() == 0),
    {
        self.failures.len() == 0
    }
}

/// Adds up per-file outcomes, each a path and whether formatting it
/// succeeded. The outcomes come as a list, one per file walked, so each path
/// occurs once.
pub fn summarize(results: &Vec<(String, bool)>) -> (r: CorpusReport)
    ensures
        r.attempted == results@.len(),
        path_views(r.failures@) == failed_paths(results@),
{
    let mut failures: Vec<String> = Vec::new();
    let mut i: usize = 0;
    while i < results.len()
        invariant
            i <= results@.len(),
            path_views(failures@) == failed_paths(results@.take(i as int)),
        decreases results@.len() - i,
    {
        let ghost before = failures@;
        assert(results@.take(i + 1).drop_last() =~= results@.take(i as int));
        if !results[i].1 {
            failures.push(results[i].0.clone());
            assert(path_views(failures@) =~= path_views(before).push(results@[i as int].0@));
        }
        i = i + 1;
    }
    assert(results@.take(results@.len() as int) =~= results@);
    CorpusReport { attempted: results.len(), failures }
}

/// A run succeeds exactly when every file formatted; in particular a run
/// over no files succeeds.
pub proof fn lemma_passes_iff_all_succeeded(rs: Seq<(String, bool)>)
    ensures
        failed_paths(rs).len() == 0 <==> forall|i: int| 0 <= i < rs.len() ==> #[trigger] rs[i].1,
    decreases rs.len(),
{
    if rs.len() > 0 {
        lemma_passes_iff_all_succeeded(rs.drop_last());
        if failed_paths(rs).len() == 0 {
            assert forall|i: int| 0 <= i < rs.len() implies #[trigger] rs[i].1 by {
                if i < rs.len() - 1 {
                    assert(rs.drop_last()[i] == rs[i]);
                }
            }
        } else {
            if forall|i: int| 0 <= i < rs.len() ==> #[trigger] rs[i].1 {
                assert forall|i: int| 0 <= i < rs.drop_last().len() implies #[trigger] rs.drop_last()[i].1 by {
                    assert(rs.drop_last()[i] == rs[i]);
                }
                assert(rs[rs.len() - 1].1);
            }
        }
    }
}

} // verus!
