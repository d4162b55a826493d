//! Which source files a search keeps, and in what order.
//!
//! The file system walk itself stays with the caller: it reports each file
//! it met as a [`FoundFile`], and [`discover`] decides which of them are
//! analysed.

use vstd::prelude::*;
use crate::text::{chars_of, chars_eq, matches_at, texts};
use crate::report::chars_of_string;
use crate::analyze::{text_lt, text_less, lemma_text_lt_trans, lemma_text_lt_total, lemma_text_lt_irrefl};

verus! {

/// Which files a search keeps.
pub struct DiscoverOptions {
    /// Endings a file met in a directory walk must have one of.
    pub suffixes: Vec<String>,
    /// Texts that exclude every path they occur in.
    pub exclude: Vec<String>,
    /// Whether test files and test directories are left out.
    pub ignore_tests: bool,
}

// ----- text predicates -------------------------------------------------------

pub open spec fn ends_with(s: Seq<char>, suf: Seq<char>) -> bool {
    suf.len() <= s.len() && s.subrange(s.len() - suf.len(), s.len() as int) == suf
}

pub open spec fn starts_with(s: Seq<char>, pre: Seq<char>) -> bool {
    pre.len() <= s.len() && s.subrange(0, pre.len() as int) == pre
}

pub open spec fn occurs_in(s: Seq<char>, sub: Seq<char>) -> bool {
    exists|i: int| 0 <= i && i + sub.len() <= s.len() && #[trigger] s.subrange(i, i + sub.len()) == sub
}

fn ends_with_text(s: &Vec<char>, suf: &Vec<char>) -> (b: bool)
    ensures
        b == ends_with(s@, suf@),
{
    if suf.len() > s.len() {
        false
    } else {
        matches_at(s, suf, s.len() - suf.len())
    }
}

fn starts_with_text(s: &Vec<char>, pre: &Vec<char>) -> (b: bool)
    ensures
        b == starts_with(s@, pre@),
{
    matches_at(s, pre, 0)
}

fn occurs_text(s: &Vec<char>, sub: &Vec<char>) -> (b: bool)
    ensures
        b == occurs_in(s@, sub@),
{
    if sub.len() > s.len() {
        return false;
    }
    let last = s.len() - sub.len();
    let mut i: usize = 0;
    loop
        invariant
            last == s.len() - sub.len(),
            i <= last,
            forall|j: int| 0 <= j < i ==> #[trigger] s@.subrange(j, j + sub.len()) != sub@,
        decreases last - i,
    {
        if matches_at(s, sub, i) {
            return true;
        }
        if i == last {
            return false;
        }
        i = i + 1;
    }
}

// ----- decisions -------------------------------------------------------------

/// Directories a walk never enters.
pub open spec fn skipped_dir(name: Seq<char>) -> bool {
    name == "target"@ || name == ".git"@ || name == "node_modules"@
}

/// Whether a walk leaves directory `name` out.
pub fn should_skip_dir(name: &str) -> (b: bool)
    ensures
        b == skipped_dir(name@),
{
    let n = chars_of(name);
    chars_eq(&n, &chars_of("target")) || chars_eq(&n, &chars_of(".git")) || chars_eq(&n, &chars_of("node_modules"))
}

/// Names of test files.
pub open spec fn test_file_name(n: Seq<char>) -> bool {
    n == "test.rs"@ || n == "tests.rs"@ || starts_with(n, "test_"@) || ends_with(n, "_test.rs"@)
}

/// Whether a file named `file_name` is a test file (a path without a
/// readable file name is not).
pub fn is_test_file(file_name: &Option<String>) -> (b: bool)
    ensures
        b == (file_name matches Some(n) && test_file_name(n@)),
{
    match file_name {
        Some(name) => {
            let n = chars_of_string(name);
            chars_eq(&n, &chars_of("test.rs")) || chars_eq(&n, &chars_of("tests.rs"))
                || starts_with_text(&n, &chars_of("test_")) || ends_with_text(&n, &chars_of("_test.rs"))
        },
        None => false,
    }
}

/// Names of test directories.
pub open spec fn test_dir_name(n: Seq<char>) -> bool {
    n == "test"@ || n == "tests"@ || n == "__tests__"@
}

/// Whether `name` names a test directory.
pub fn is_test_dir(name: &str) -> (b: bool)
    ensures
        b == test_dir_name(name@),
{
    let n = chars_of(name);
    chars_eq(&n, &chars_of("test")) || chars_eq(&n, &chars_of("tests")) || chars_eq(&n, &chars_of("__tests__"))
}

/// Whether some part of a relative path names a test directory.
pub open spec fn in_test_dir(relative: Option<Vec<String>>) -> bool {
    match relative {
        Some(parts) => any_test_dir(parts@),
        None => false,
    }
}

/// Whether one of `parts` names a test directory.
pub open spec fn any_test_dir(parts: Seq<String>) -> bool {
    exists|k: int| 0 <= k < parts.len() && #[trigger] test_dir_name(parts[k]@)
}

fn has_test_dir(parts: &Vec<String>) -> (b: bool)
    ensures
        b == any_test_dir(parts@),
{
    let mut k: usize = 0;
    while k < parts.len()
        invariant
            k <= parts.len(),
            forall|j: int| 0 <= j < k ==> !#[trigger] test_dir_name(parts@[j]@),
        decreases parts.len() - k,
    {
        if is_test_dir(parts[k].as_str()) {
            assert(test_dir_name(parts@[k as int]@));
            return true;
        }
        k = k + 1;
    }
    false
}

/// Whether a file is a test file, or lies in a test directory below the
/// root it was found from (`relative` is `None` where it does not lie below
/// that root).
pub fn is_test_path(file_name: &Option<String>, relative: &Option<Vec<String>>) -> (b: bool)
    ensures
        b == ((file_name matches Some(n) && test_file_name(n@)) || in_test_dir(*relative)),
{
    if is_test_file(file_name) {
        return true;
    }
    match relative {
        Some(parts) => has_test_dir(parts),
        None => false,
    }
}

/// Whether `path` ends with one of `suffixes`.
pub open spec fn suffix_matches(path: Seq<char>, suffixes: Seq<Seq<char>>) -> bool {
    exists|k: int| 0 <= k < suffixes.len() && #[trigger] ends_with(path, suffixes[k])
}

/// Whether `path` ends with one of `suffixes`.
pub fn matches_suffix(path: &str, suffixes: &Vec<String>) -> (b: bool)
    ensures
        b == suffix_matches(path@, texts(suffixes@)),
{
    let p = chars_of(path);
    let mut k: usize = 0;
    while k < suffixes.len()
        invariant
            k <= suffixes.len(),
            p@ == path@,
            forall|j: int| 0 <= j < k ==> !#[trigger] ends_with(path@, texts(suffixes@)[j]),
        decreases suffixes.len() - k,
    {
        assert(texts(suffixes@)[k as int] == suffixes@[k as int]@);
        if ends_with_text(&p, &chars_of_string(&suffixes[k])) {
            return true;
        }
        k = k + 1;
    }
    false
}

/// Whether one of `exclude` occurs in `path`.
pub open spec fn excluded(path: Seq<char>, exclude: Seq<Seq<char>>) -> bool {
    exists|k: int| 0 <= k < exclude.len() && #[trigger] occurs_in(path, exclude[k])
}

/// Whether one of `exclude` occurs in `path`.
pub fn is_excluded(path: &str, exclude: &Vec<String>) -> (b: bool)
    ensures
        b == excluded(path@, texts(exclude@)),
{
    let p = chars_of(path);
    let mut k: usize = 0;
    while k < exclude.len()
        invariant
            k <= exclude.len(),
            p@ == path@,
            forall|j: int| 0 <= j < k ==> !#[trigger] occurs_in(path@, texts(exclude@)[j]),
        decreases exclude.len() - k,
    {
        assert(texts(exclude@)[k as int] == exclude@[k as int]@);
        if occurs_text(&p, &chars_of_string(&exclude[k])) {
            return true;
        }
        k = k + 1;
    }
    false
}

/// Whether a search root that is a directory named `name` is left out.
pub fn skips_root_dir(name: &Option<String>, opts: &DiscoverOptions) -> (b: bool)
    ensures
        b == (opts.ignore_tests && (name matches Some(n) && test_dir_name(n@))),
{
    match name {
        Some(n) => opts.ignore_tests && is_test_dir(n.as_str()),
        None => false,
    }
}

// ----- found files -----------------------------------------------------------

/// One part of a path: its kind (root before current directory before
/// parent directory before a name) and its text.
pub struct PathPart {
    pub rank: u8,
    pub text: String,
}

/// A file met by the search.
pub struct FoundFile {
    /// The path as named or walked to.
    pub path: String,
    /// Its last part, where that is readable text.
    pub file_name: Option<String>,
    /// Its parts below the search root, where it lies below that root.
    pub relative: Option<Vec<String>>,
    /// Its canonical path, part by part.
    pub key: Vec<PathPart>,
    /// Found by walking a directory, rather than named directly.
    pub walked: bool,
    /// The name of the directory the walk started from, where it has one.
    pub root_name: Option<String>,
}

pub open spec fn part_view(p: PathPart) -> (u8, Seq<char>) {
    (p.rank, p.text@)
}

/// The canonical path of `f`, part by part.
pub open spec fn key_of(f: FoundFile) -> Seq<(u8, Seq<char>)> {
    f.key@.map_values(|p: PathPart| part_view(p))
}

/// Whether the file is a test file or lies in a test directory.
pub open spec fn test_path(f: FoundFile) -> bool {
    (f.file_name matches Some(n) && test_file_name(n@)) || in_test_dir(f.relative)
}

/// Whether one of the directories of `parts` (all but the last part, the
/// file's own name) is one a walk leaves out.
pub open spec fn below_skipped_dir(parts: Seq<String>) -> bool {
    exists|k: int| 0 <= k < parts.len() - 1 && #[trigger] skipped_dir(parts[k]@)
}

/// Whether a walked file lies in a directory the walk leaves out: the
/// search root itself or one between it and the file is `target`, `.git` or
/// `node_modules`.
pub open spec fn pruned(f: FoundFile) -> bool {
    &&& f.walked
    &&& ((f.root_name matches Some(n) && skipped_dir(n@)) || (f.relative matches Some(parts) && below_skipped_dir(parts@)))
}

/// Whether a walked file was found under a search root named like a test
/// directory.
pub open spec fn under_test_root(f: FoundFile) -> bool {
    f.walked && (f.root_name matches Some(n) && test_dir_name(n@))
}

/// Whether the search keeps `f`.
pub open spec fn kept(f: FoundFile, opts: DiscoverOptions) -> bool {
    &&& (!f.walked || suffix_matches(f.path@, texts(opts.suffixes@)))
    &&& (!opts.ignore_tests || (!test_path(f) && !under_test_root(f)))
    &&& !excluded(f.path@, texts(opts.exclude@))
    &&& !pruned(f)
}

fn has_skipped_dir(parts: &Vec<String>) -> (b: bool)
    ensures
        b == below_skipped_dir(parts@),
{
    if parts.len() == 0 {
        return false;
    }
    let mut k: usize = 0;
    while k < parts.len() - 1
        invariant
            parts.len() > 0,
            k <= parts.len() - 1,
            forall|j: int| 0 <= j < k ==> !skipped_dir(#[trigger] parts@[j]@),
        decreases parts.len() - k,
    {
        if should_skip_dir(parts[k].as_str()) {
            return true;
        }
        k = k + 1;
    }
    false
}

/// Whether the search keeps `f`.
pub fn keeps(f: &FoundFile, opts: &DiscoverOptions) -> (b: bool)
    ensures
        b == kept(*f, *opts),
{
    let root_skipped = match &f.root_name {
        Some(n) => should_skip_dir(n.as_str()),
        None => false,
    };
    let inside_skipped = match &f.relative {
        Some(parts) => has_skipped_dir(parts),
        None => false,
    };
    let test_root = f.walked && match &f.root_name {
        Some(n) => is_test_dir(n.as_str()),
        None => false,
    };
    (!f.walked || matches_suffix(f.path.as_str(), &opts.suffixes))
        && (!opts.ignore_tests || (!is_test_path(&f.file_name, &f.relative) && !test_root))
        && !is_excluded(f.path.as_str(), &opts.exclude)
        && !(f.walked && (root_skipped || inside_skipped))
}

// ----- path order ------------------------------------------------------------

pub open spec fn part_lt(a: (u8, Seq<char>), b: (u8, Seq<char>)) -> bool {
    a.0 < b.0 || (a.0 == b.0 && text_lt(a.1, b.1))
}

/// The order of paths: part by part, a path before any longer one it starts.
pub open spec fn key_lt(a: Seq<(u8, Seq<char>)>, b: Seq<(u8, Seq<char>)>) -> bool
    decreases a.len(),
{
    if b.len() == 0 {
        false
    } else if a.len() == 0 {
        true
    } else if a[0] != b[0] {
        part_lt(a[0], b[0])
    } else {
        key_lt(a.drop_first(), b.drop_first())
    }
}

proof fn lemma_part_lt(a: (u8, Seq<char>), b: (u8, Seq<char>), c: (u8, Seq<char>))
    ensures
        part_lt(a, b) && part_lt(b, c) ==> part_lt(a, c),
        a == b || part_lt(a, b) || part_lt(b, a),
        !part_lt(a, a),
{
    lemma_text_lt_irrefl(a.1);
    lemma_text_lt_total(a.1, b.1);
    if part_lt(a, b) && part_lt(b, c) && a.0 == b.0 && b.0 == c.0 {
        lemma_text_lt_trans(a.1, b.1, c.1);
    }
}

proof fn lemma_key_lt_trans(a: Seq<(u8, Seq<char>)>, b: Seq<(u8, Seq<char>)>, c: Seq<(u8, Seq<char>)>)
    requires
        key_lt(a, b),
        key_lt(b, c),
    ensures
        key_lt(a, c),
    decreases a.len(),
{
    if a.len() > 0 && b.len() > 0 && c.len() > 0 {
        lemma_part_lt(a[0], b[0], c[0]);
        lemma_part_lt(b[0], c[0], a[0]);
        lemma_part_lt(a[0], c[0], b[0]);
        if a[0] == b[0] && b[0] == c[0] {
            lemma_key_lt_trans(a.drop_first(), b.drop_first(), c.drop_first());
        }
    }
}

proof fn lemma_key_lt_total(a: Seq<(u8, Seq<char>)>, b: Seq<(u8, Seq<char>)>)
    ensures
        a == b || key_lt(a, b) || key_lt(b, a),
    decreases a.len(),
{
    if a.len() > 0 && b.len() > 0 {
        lemma_part_lt(a[0], b[0], b[0]);
        if a[0] == b[0] {
            lemma_key_lt_total(a.drop_first(), b.drop_first());
            if a.drop_first() == b.drop_first() {
                assert(a =~= seq![a[0]] + a.drop_first());
                assert(b =~= seq![b[0]] + b.drop_first());
            }
        }
    } else if a.len() == 0 && b.len() == 0 {
        assert(a =~= b);
    }
}

proof fn lemma_key_lt_irrefl(a: Seq<(u8, Seq<char>)>)
    ensures
        !key_lt(a, a),
    decreases a.len(),
{
    if a.len() > 0 {
        lemma_key_lt_irrefl(a.drop_first());
    }
}

fn part_eq(a: &PathPart, b: &PathPart) -> (r: bool)
    ensures
        r == (part_view(*a) == part_view(*b)),
{
    a.rank == b.rank && chars_eq(&chars_of_string(&a.text), &chars_of_string(&b.text))
}

fn part_less(a: &PathPart, b: &PathPart) -> (r: bool)
    ensures
        r == part_lt(part_view(*a), part_view(*b)),
{
    a.rank < b.rank || (a.rank == b.rank && text_less(&a.text, &b.text))
}

fn key_less(a: &Vec<PathPart>, b: &Vec<PathPart>) -> (r: bool)
    ensures
        r == key_lt(a@.map_values(|p: PathPart| part_view(p)), b@.map_values(|p: PathPart| part_view(p))),
{
    let ghost x = a@.map_values(|p: PathPart| part_view(p));
    let ghost y = b@.map_values(|p: PathPart| part_view(p));
    let mut k: usize = 0;
    assert(x.skip(0) =~= x);
    assert(y.skip(0) =~= y);
    while k < a.len() && k < b.len() && part_eq(&a[k], &b[k])
        invariant
            k <= a.len(),
            k <= b.len(),
            x == a@.map_values(|p: PathPart| part_view(p)),
            y == b@.map_values(|p: PathPart| part_view(p)),
            key_lt(x, y) == key_lt(x.skip(k as int), y.skip(k as int)),
        decreases a.len() - k,
    {
        assert(x.skip(k as int).drop_first() =~= x.skip(k + 1));
        assert(y.skip(k as int).drop_first() =~= y.skip(k + 1));
        k = k + 1;
    }
    if k == b.len() {
        false
    } else if k == a.len() {
        true
    } else {
        assert(x.skip(k as int)[0] == x[k as int]);
        assert(y.skip(k as int)[0] == y[k as int]);
        part_less(&a[k], &b[k])
    }
}

fn key_equal(a: &Vec<PathPart>, b: &Vec<PathPart>) -> (r: bool)
    ensures
        r == (a@.map_values(|p: PathPart| part_view(p)) == b@.map_values(|p: PathPart| part_view(p))),
{
    let ghost x = a@.map_values(|p: PathPart| part_view(p));
    let ghost y = b@.map_values(|p: PathPart| part_view(p));
    if a.len() != b.len() {
        assert(x.len() != y.len());
        return false;
    }
    let mut k: usize = 0;
    while k < a.len()
        invariant
            k <= a.len(),
            a.len() == b.len(),
            x == a@.map_values(|p: PathPart| part_view(p)),
            y == b@.map_values(|p: PathPart| part_view(p)),
            forall|j: int| 0 <= j < k ==> x[j] == y[j],
        decreases a.len() - k,
    {
        if !part_eq(&a[k], &b[k]) {
            assert(x[k as int] != y[k as int]);
            return false;
        }
        k = k + 1;
    }
    assert(x =~= y);
    true
}

/// Whether the canonical paths of `fs` rise strictly.
pub open spec fn strictly_rising(fs: Seq<FoundFile>) -> bool {
    forall|i: int, j: int| 0 <= i < j < fs.len() ==> key_lt(key_of(#[trigger] fs[i]), key_of(#[trigger] fs[j]))
}

/// Inserting a file between the paths below and above its own keeps the
/// paths rising.
proof fn lemma_insert_rising(before: Seq<FoundFile>, p: int, x: FoundFile)
    requires
        strictly_rising(before),
        0 <= p <= before.len(),
        forall|k: int| p <= k < before.len() ==> key_lt(key_of(x), key_of(#[trigger] before[k])),
        p > 0 ==> key_lt(key_of(before[p - 1]), key_of(x)),
    ensures
        strictly_rising(before.insert(p, x)),
{
    let out = before.insert(p, x);
    assert forall|a: int, b: int| 0 <= a < b < out.len() implies key_lt(key_of(#[trigger] out[a]), key_of(#[trigger] out[b])) by {
        if b < p {
            assert(out[a] == before[a] && out[b] == before[b]);
        } else if a > p {
            assert(out[a] == before[a - 1] && out[b] == before[b - 1]);
        } else if a == p {
            assert(out[b] == before[b - 1]);
        } else if b == p {
            assert(out[a] == before[a]);
            if a < p - 1 {
                lemma_key_lt_trans(key_of(before[a]), key_of(before[p - 1]), key_of(x));
            }
        } else {
            assert(out[a] == before[a] && out[b] == before[b - 1]);
        }
    }
}

/// The files to analyse among those the walk met: those the options keep,
/// each canonical path once, in path order.
#[verifier::rlimit(30)]
pub fn discover(found: Vec<FoundFile>, opts: &DiscoverOptions) -> (r: Vec<FoundFile>)
    ensures
        strictly_rising(r@),
        forall|k: int| 0 <= k < r@.len() ==> kept(#[trigger] r@[k], *opts),
        forall|k: int| 0 <= k < r@.len() ==> found@.contains(#[trigger] r@[k]),
        forall|j: int| 0 <= j < found@.len() && kept(#[trigger] found@[j], *opts) ==> exists|k: int| 0 <= k < r@.len() && key_of(r@[k]) == key_of(found@[j]),
{
    let mut input = found;
    let ghost all = input@;
    let mut out: Vec<FoundFile> = Vec::new();
    let mut i: usize = 0;
    let total = input.len();
    assert(all.skip(0) =~= all);
    while input.len() > 0
        invariant
            i + input.len() == all.len(),
            all.len() == total,
            all == found@,
            input@ == all.skip(i as int),
            strictly_rising(out@),
            forall|k: int| 0 <= k < out@.len() ==> kept(#[trigger] out@[k], *opts),
            forall|k: int| 0 <= k < out@.len() ==> all.contains(#[trigger] out@[k]),
            forall|j: int| 0 <= j < i && kept(#[trigger] all[j], *opts) ==> exists|k: int| 0 <= k < out@.len() && key_of(out@[k]) == key_of(all[j]),
        decreases input.len(),
    {
        let ghost prev = input@;
        let x = input.remove(0);
        assert(x == all[i as int]);
        assert(input@ =~= all.skip(i + 1)) by {
            assert forall|k: int| 0 <= k < input@.len() implies input@[k] == all.skip(i + 1)[k] by {
                assert(input@[k] == prev[k + 1]);
            }
        }
        let ghost before = out@;
        if keeps(&x, opts) {
            let mut p: usize = out.len();
            while p > 0 && key_less(&x.key, &out[p - 1].key)
                invariant
                    p <= out.len(),
                    out@ == before,
                    forall|k: int| p <= k < out@.len() ==> key_lt(key_of(x), key_of(#[trigger] out@[k])),
                decreases p,
            {
                p = p - 1;
            }
            if p > 0 && key_equal(&x.key, &out[p - 1].key) {
                assert(key_of(out@[p - 1]) == key_of(x));
                assert forall|j: int| 0 <= j < i + 1 && kept(#[trigger] all[j], *opts) implies exists|k: int| 0 <= k < out@.len() && key_of(out@[k]) == key_of(all[j]) by {
                    if j == i {
                        assert(key_of(out@[p - 1]) == key_of(all[j]));
                    }
                }
            } else {
                proof {
                    if p > 0 {
                        lemma_key_lt_total(key_of(x), key_of(before[p - 1]));
                    }
                }
                out.insert(p, x);
                assert(out@ =~= before.insert(p as int, x));
                proof {
                    lemma_insert_rising(before, p as int, x);
                    assert forall|k: int| 0 <= k < out@.len() implies kept(#[trigger] out@[k], *opts) by {
                        if k < p {
                            assert(out@[k] == before[k]);
                        } else if k > p {
                            assert(out@[k] == before[k - 1]);
                        }
                    }
                    assert forall|k: int| 0 <= k < out@.len() implies all.contains(#[trigger] out@[k]) by {
                        if k < p {
                            assert(out@[k] == before[k]);
                        } else if k > p {
                            assert(out@[k] == before[k - 1]);
                        } else {
                            assert(all[i as int] == out@[k]);
                        }
                    }
                    assert forall|j: int| 0 <= j < i + 1 && kept(#[trigger] all[j], *opts) implies exists|k: int| 0 <= k < out@.len() && key_of(out@[k]) == key_of(all[j]) by {
                        if j == i {
                            assert(out@[p as int] == x);
                        } else {
                            let k0 = choose|k: int| 0 <= k < before.len() && key_of(before[k]) == key_of(all[j]);
                            if k0 < p {
                                assert(out@[k0] == before[k0]);
                            } else {
                                assert(out@[k0 + 1] == before[k0]);
                            }
                        }
                    }
                }
            }
        }
        i = i + 1;
    }
    out
}

} // verus!
