//! Test collection: which files are tested, how tests are described, and the
//! fail-fast bookkeeping of a test run. Paths are handled as plain strings;
//! the part after the last `/` is taken as the file name, and stem and
//! extension are split at the file name's last `.` (a dot in first position
//! starts a hidden file and begins no extension).

use vstd::prelude::*;

verus! {

/// How a file is tested.
#[derive(Debug, Clone, Eq, PartialEq, Structural)]
pub enum TestMode {
    /// As documentation, type-checking fenced code blocks.
    Documentation,
    /// As an executable module, running each test it defines.
    Executable,
    /// Both as documentation and as an executable module.
    Both,
}

/// Where a test sits in its file.
#[derive(Debug, Clone, PartialEq, Eq, Hash)]
pub struct TestLocation {
    pub file_name: String,
    pub line_number: u32,
    pub column_number: u32,
}

/// One registered test.
#[derive(Debug, Clone, PartialEq, Eq, Hash)]
pub struct TestDescription {
    pub id: usize,
    pub name: String,
    pub ignore: bool,
    pub only: bool,
    pub origin: String,
    pub location: TestLocation,
}

/// Captured output of a test.
#[derive(Debug, Clone, Eq, PartialEq)]
pub enum TestOutput {
    String(String),
    Bytes(Vec<u8>),
}

/// One registered test step, nested under a test.
#[derive(Debug, Clone, Eq, PartialEq)]
pub struct TestStepDescription {
    pub id: usize,
    pub name: String,
    pub origin: String,
    pub location: TestLocation,
    pub level: usize,
    pub parent_id: usize,
    pub root_id: usize,
    pub root_name: String,
}

/// What one origin contributes to a test run.
#[derive(Debug, Clone, Eq, PartialEq)]
pub struct TestPlan {
    pub origin: String,
    pub total: usize,
    pub filtered_out: usize,
    pub used_only: bool,
}

/// Tracks failures for the fail-fast switch, to tell when a run should stop:
/// with a maximum of `n`, the run stops once `n` failures are recorded; with
/// no maximum it never stops early.
#[derive(Debug, Clone)]
pub struct FailFastTracker {
    max_count: Option<usize>,
    failure_count: usize,
}

impl FailFastTracker {
    /// The configured maximum, if any.
    pub closed spec fn spec_max(self) -> Option<usize> {
        self.max_count
    }

    /// Failures recorded so far.
    pub closed spec fn spec_failures(self) -> usize {
        self.failure_count
    }

    /// A tracker stopping after `fail_fast` failures; `None` never stops. A
    /// maximum of zero is not meaningful (the run would stop before any
    /// failure).
    pub fn new(fail_fast: Option<usize>) -> (t: FailFastTracker)
        requires
            fail_fast matches Some(n) ==> n > 0,
        ensures
            t.spec_max() == fail_fast,
            t.spec_failures() == 0,
    {
        FailFastTracker { max_count: fail_fast, failure_count: 0 }
    }

    /// Record one failure; reports whether the maximum had already been
    /// reached before this failure.
    pub fn add_failure(&mut self) -> (r: bool)
        requires
            old(self).spec_failures() < usize::MAX,
        ensures
            final(self).spec_max() == old(self).spec_max(),
            old(self).spec_max() matches Some(m) ==> final(self).spec_failures() == old(
                self,
            ).spec_failures() + 1 && r == (old(self).spec_failures() >= m),
            old(self).spec_max() is None ==> *final(self) == *old(self) && !r,
    {
        match self.max_count {
            Some(m) => {
                let prev = self.failure_count;
                self.failure_count = self.failure_count + 1;
                prev >= m
            },
            None => false,
        }
    }

    /// Whether the run should stop: the maximum exists and has been reached.
    pub fn should_stop(&self) -> (r: bool)
        ensures
            r == match self.spec_max() {
                Some(m) => self.spec_failures() >= m,
                None => false,
            },
    {
        match self.max_count {
            Some(m) => self.failure_count >= m,
            None => false,
        }
    }
}

/// The position of the last occurrence of `c` in `s`, or `-1` when there is
/// none.
pub open spec fn last_index_of(s: Seq<char>, c: char) -> int
    decreases s.len(),
{
    if s.len() == 0 {
        -1
    } else if s.last() == c {
        s.len() - 1
    } else {
        last_index_of(s.drop_last(), c)
    }
}

/// The file name of path `p`: everything after the last `/` (all of `p` when
/// there is none).
pub open spec fn file_name_of(p: Seq<char>) -> Seq<char> {
    p.subrange(last_index_of(p, '/') + 1, p.len() as int)
}

/// The extension of path `p`: the part of the file name after its last `.`,
/// provided that dot is neither absent nor in first position (a leading dot
/// starts a hidden file and begins no extension).
pub open spec fn extension_of(p: Seq<char>) -> Option<Seq<char>> {
    let name = file_name_of(p);
    let d = last_index_of(name, '.');
    if d <= 0 {
        None
    } else {
        Some(name.subrange(d + 1, name.len() as int))
    }
}

/// The file stem of path `p`: the file name up to its last `.` when that dot
/// begins an extension, the whole file name otherwise; an empty file name has
/// none.
pub open spec fn file_stem_of(p: Seq<char>) -> Option<Seq<char>> {
    let name = file_name_of(p);
    let d = last_index_of(name, '.');
    if name.len() == 0 {
        None
    } else if d <= 0 {
        Some(name)
    } else {
        Some(name.subrange(0, d))
    }
}

/// `c` with an ASCII upper-case letter mapped to its lower-case counterpart,
/// anything else kept.
pub open spec fn lower_char(c: char) -> char {
    if c == 'A' {
        'a'
    } else if c == 'B' {
        'b'
    } else if c == 'C' {
        'c'
    } else if c == 'D' {
        'd'
    } else if c == 'E' {
        'e'
    } else if c == 'F' {
        'f'
    } else if c == 'G' {
        'g'
    } else if c == 'H' {
        'h'
    } else if c == 'I' {
        'i'
    } else if c == 'J' {
        'j'
    } else if c == 'K' {
        'k'
    } else if c == 'L' {
        'l'
    } else if c == 'M' {
        'm'
    } else if c == 'N' {
        'n'
    } else if c == 'O' {
        'o'
    } else if c == 'P' {
        'p'
    } else if c == 'Q' {
        'q'
    } else if c == 'R' {
        'r'
    } else if c == 'S' {
        's'
    } else if c == 'T' {
        't'
    } else if c == 'U' {
        'u'
    } else if c == 'V' {
        'v'
    } else if c == 'W' {
        'w'
    } else if c == 'X' {
        'x'
    } else if c == 'Y' {
        'y'
    } else if c == 'Z' {
        'z'
    } else {
        c
    }
}

/// `s` with every ASCII upper-case letter lowered.
pub open spec fn lower_seq(s: Seq<char>) -> Seq<char> {
    s.map_values(|c: char| lower_char(c))
}

/// `c` with an ASCII upper-case letter lowered.
fn lower_char_exec(c: char) -> (r: char)
    ensures
        r == lower_char(c),
{
    match c {
        'A' => 'a',
        'B' => 'b',
        'C' => 'c',
        'D' => 'd',
        'E' => 'e',
        'F' => 'f',
        'G' => 'g',
        'H' => 'h',
        'I' => 'i',
        'J' => 'j',
        'K' => 'k',
        'L' => 'l',
        'M' => 'm',
        'N' => 'n',
        'O' => 'o',
        'P' => 'p',
        'Q' => 'q',
        'R' => 'r',
        'S' => 's',
        'T' => 't',
        'U' => 'u',
        'V' => 'v',
        'W' => 'w',
        'X' => 'x',
        'Y' => 'y',
        'Z' => 'z',
        _ => c,
    }
}

/// Whether `a` and `b` are equal once ASCII case is folded away.
fn eq_ignore_ascii_case(a: &str, b: &str) -> (r: bool)
    ensures
        r == (lower_seq(a@) == lower_seq(b@)),
{
    let na = a.unicode_len();
    let nb = b.unicode_len();
    if na != nb {
        proof {
            assert(lower_seq(a@).len() != lower_seq(b@).len());
        }
        return false;
    }
    let mut i: usize = 0;
    while i < na
        invariant
            i <= na,
            na == a@.len(),
            na == b@.len(),
            forall|j: int| 0 <= j < i ==> lower_char(#[trigger] a@[j]) == lower_char(b@[j]),
        decreases na - i,
    {
        if lower_char_exec(a.get_char(i)) != lower_char_exec(b.get_char(i)) {
            proof {
                assert(lower_seq(a@)[i as int] != lower_seq(b@)[i as int]);
            }
            return false;
        }
        i = i + 1;
    }
    proof {
        assert(lower_seq(a@) =~= lower_seq(b@));
    }
    true
}

/// Whether `a` and `b` hold the same characters.
fn str_eq(a: &str, b: &str) -> (r: bool)
    ensures
        r == (a@ == b@),
{
    let sa = String::from_str(a);
    let sb = String::from_str(b);
    sa == sb
}

/// The position of the last occurrence of `c` in `s`, if any.
fn rfind_char(s: &str, c: char) -> (r: Option<usize>)
    ensures
        r matches Some(i) ==> i < s@.len() && last_index_of(s@, c) == i,
        r is None ==> last_index_of(s@, c) == -1,
{
    let n = s.unicode_len();
    let mut i: usize = n;
    proof {
        assert(s@.take(n as int) =~= s@);
    }
    loop
        invariant
            i <= n,
            n == s@.len(),
            last_index_of(s@, c) == last_index_of(s@.take(i as int), c),
        decreases i,
    {
        if i == 0 {
            return None;
        }
        i = i - 1;
        let ghost pre = s@.take(i + 1 as int);
        proof {
            assert(pre.drop_last() =~= s@.take(i as int));
            assert(pre.last() == s@[i as int]);
        }
        if s.get_char(i) == c {
            proof {
                assert(last_index_of(pre, c) == i);
            }
            return Some(i);
        }
    }
}

/// The lower-cased extensions accepted as test files beside the script
/// extensions: the markdown family.
pub open spec fn markdown_ext(e: Seq<char>) -> bool {
    e == "md"@ || e == "mkd"@ || e == "mkdn"@ || e == "mdwn"@ || e == "mdown"@ || e == "markdown"@
}

/// The lower-cased extensions of runnable script files.
pub open spec fn script_ext(e: Seq<char>) -> bool {
    e == "ts"@ || e == "tsx"@ || e == "js"@ || e == "jsx"@ || e == "mjs"@ || e == "mts"@ || e
        == "cjs"@ || e == "cts"@
}

/// The file name and extension split of `path`, as executable values: the
/// start of the file name and the dot position inside it.
fn split_path(path: &str) -> (r: (usize, Option<usize>))
    ensures
        r.0 as int == last_index_of(path@, '/') + 1,
        r.0 <= path@.len(),
        r.1 matches Some(d) ==> last_index_of(file_name_of(path@), '.') == d && r.0 + d
            < path@.len(),
        r.1 is None ==> last_index_of(file_name_of(path@), '.') == -1,
{
    let n = path.unicode_len();
    let name_start = match rfind_char(path, '/') {
        Some(i) => i + 1,
        None => 0,
    };
    let name = path.substring_char(name_start, n);
    let dot = rfind_char(name, '.');
    proof {
        assert(name@ =~= file_name_of(path@));
    }
    (name_start, dot)
}

/// Whether `path` names a file whose extension (case-folded) is testable:
/// a script extension or a markdown extension.
pub fn is_supported_test_ext(path: &str) -> (r: bool)
    ensures
        r == match extension_of(path@) {
            Some(e) => script_ext(lower_seq(e)) || markdown_ext(lower_seq(e)),
            None => false,
        },
{
    let n = path.unicode_len();
    let (name_start, dot) = split_path(path);
    let d = match dot {
        None => {
            return false;
        },
        Some(0) => {
            return false;
        },
        Some(d) => d,
    };
    let ext = path.substring_char(name_start + d + 1, n);
    proof {
        let name = file_name_of(path@);
        assert(ext@ =~= name.subrange(d + 1 as int, name.len() as int));
        reveal_strlit("ts");
        reveal_strlit("tsx");
        reveal_strlit("js");
        reveal_strlit("jsx");
        reveal_strlit("mjs");
        reveal_strlit("mts");
        reveal_strlit("cjs");
        reveal_strlit("cts");
        reveal_strlit("md");
        reveal_strlit("mkd");
        reveal_strlit("mkdn");
        reveal_strlit("mdwn");
        reveal_strlit("mdown");
        reveal_strlit("markdown");
        lemma_lower_fixed("ts"@);
        lemma_lower_fixed("tsx"@);
        lemma_lower_fixed("js"@);
        lemma_lower_fixed("jsx"@);
        lemma_lower_fixed("mjs"@);
        lemma_lower_fixed("mts"@);
        lemma_lower_fixed("cjs"@);
        lemma_lower_fixed("cts"@);
        lemma_lower_fixed("md"@);
        lemma_lower_fixed("mkd"@);
        lemma_lower_fixed("mkdn"@);
        lemma_lower_fixed("mdwn"@);
        lemma_lower_fixed("mdown"@);
        lemma_lower_fixed("markdown"@);
    }
    eq_ignore_ascii_case(ext, "ts") || eq_ignore_ascii_case(ext, "tsx") || eq_ignore_ascii_case(
        ext,
        "js",
    ) || eq_ignore_ascii_case(ext, "jsx") || eq_ignore_ascii_case(ext, "mjs")
        || eq_ignore_ascii_case(ext, "mts") || eq_ignore_ascii_case(ext, "cjs")
        || eq_ignore_ascii_case(ext, "cts") || eq_ignore_ascii_case(ext, "md")
        || eq_ignore_ascii_case(ext, "mkd") || eq_ignore_ascii_case(ext, "mkdn")
        || eq_ignore_ascii_case(ext, "mdwn") || eq_ignore_ascii_case(ext, "mdown")
        || eq_ignore_ascii_case(ext, "markdown")
}

/// A sequence without ASCII upper-case letters is its own case folding.
proof fn lemma_lower_fixed(s: Seq<char>)
    requires
        forall|i: int| 0 <= i < s.len() ==> lower_char(#[trigger] s[i]) == s[i],
    ensures
        lower_seq(s) == s,
{
    assert(lower_seq(s) =~= s);
}

/// Whether `path` names a runnable test module: its stem is `test`, or ends
/// in `_test` or `.test`, and its extension (case-folded) is a script
/// extension.
pub fn is_supported_test_path(path: &str) -> (r: bool)
    ensures
        r == match file_stem_of(path@) {
            Some(stem) => (stem == "test"@ || (stem.len() >= 5 && (stem.subrange(
                stem.len() - 5,
                stem.len() as int,
            ) == "_test"@ || stem.subrange(stem.len() - 5, stem.len() as int) == ".test"@)))
                && match extension_of(path@) {
                Some(e) => script_ext(lower_seq(e)),
                None => false,
            },
            None => false,
        },
{
    let n = path.unicode_len();
    let (name_start, dot) = split_path(path);
    if name_start == n {
        // empty file name: no stem
        return false;
    }
    let stem_end = match dot {
        None => n,
        Some(0) => n,
        Some(d) => name_start + d,
    };
    let stem = path.substring_char(name_start, stem_end);
    proof {
        let name = file_name_of(path@);
        let d = last_index_of(name, '.');
        if d <= 0 {
            assert(stem@ =~= name);
        } else {
            assert(stem@ =~= name.subrange(0, d));
        }
        assert(Some(stem@) == file_stem_of(path@));
    }
    let stem_len = stem.unicode_len();
    let named_test = if str_eq(stem, "test") {
        true
    } else if stem_len >= 5 {
        let tail = stem.substring_char(stem_len - 5, stem_len);
        str_eq(tail, "_test") || str_eq(tail, ".test")
    } else {
        false
    };
    if !named_test {
        return false;
    }
    let ext_ok = match dot {
        None => false,
        Some(0) => false,
        Some(d) => {
            let ext = path.substring_char(name_start + d + 1, n);
            proof {
                let name = file_name_of(path@);
                assert(ext@ =~= name.subrange(d + 1 as int, name.len() as int));
                reveal_strlit("ts");
                reveal_strlit("tsx");
                reveal_strlit("js");
                reveal_strlit("jsx");
                reveal_strlit("mjs");
                reveal_strlit("mts");
                reveal_strlit("cjs");
                reveal_strlit("cts");
                lemma_lower_fixed("ts"@);
                lemma_lower_fixed("tsx"@);
                lemma_lower_fixed("js"@);
                lemma_lower_fixed("jsx"@);
                lemma_lower_fixed("mjs"@);
                lemma_lower_fixed("mts"@);
                lemma_lower_fixed("cjs"@);
                lemma_lower_fixed("cts"@);
            }
            eq_ignore_ascii_case(ext, "ts") || eq_ignore_ascii_case(ext, "tsx")
                || eq_ignore_ascii_case(ext, "js") || eq_ignore_ascii_case(ext, "jsx")
                || eq_ignore_ascii_case(ext, "mjs") || eq_ignore_ascii_case(ext, "mts")
                || eq_ignore_ascii_case(ext, "cjs") || eq_ignore_ascii_case(ext, "cts")
        },
    };
    ext_ok
}

} // verus!
