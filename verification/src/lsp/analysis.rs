//! Code-analysis helpers of the language service.

use vstd::prelude::*;

verus! {

/// Category of a self-generated diagnostic message (one not coming from the
/// type checker).
#[derive(Debug, PartialEq, Eq)]
pub enum Category {
    /// A lint diagnostic.
    Lint { message: String, code: String, hint: Option<String> },
}

/// Whether `c` has the Unicode white-space property, written out over the
/// code points that carry it.
pub open spec fn is_ws_char(c: char) -> bool {
    let u = c as u32;
    ||| (0x0009 <= u && u <= 0x000D)
    ||| u == 0x0020
    ||| u == 0x0085
    ||| u == 0x00A0
    ||| u == 0x1680
    ||| (0x2000 <= u && u <= 0x200A)
    ||| u == 0x2028
    ||| u == 0x2029
    ||| u == 0x202F
    ||| u == 0x205F
    ||| u == 0x3000
}

/// Whether `c` is white space, per the Unicode white-space property.
fn is_whitespace_char(c: char) -> (r: bool)
    ensures
        r == is_ws_char(c),
{
    let u = c as u32;
    (0x0009 <= u && u <= 0x000D) || u == 0x0020 || u == 0x0085 || u == 0x00A0 || u == 0x1680 || (
    0x2000 <= u && u <= 0x200A) || u == 0x2028 || u == 0x2029 || u == 0x202F || u == 0x205F || u
        == 0x3000
}

/// The position of the first character that is not white space, or zero when
/// every character is white space (so an all-blank line contributes no
/// indentation).
pub open spec fn indent_len(s: Seq<char>) -> int {
    if forall|j: int| 0 <= j < s.len() ==> is_ws_char(#[trigger] s[j]) {
        0
    } else {
        choose|i: int|
            0 <= i < s.len() && !is_ws_char(s[i]) && (forall|j: int|
                0 <= j < i ==> is_ws_char(#[trigger] s[j]))
    }
}

/// The witness of `indent_len`: with the first `i` characters white space and
/// the character at `i` not, the indentation is exactly `i`.
proof fn lemma_indent_len(s: Seq<char>, i: int)
    requires
        0 <= i < s.len(),
        !is_ws_char(s[i]),
        forall|j: int| 0 <= j < i ==> is_ws_char(#[trigger] s[j]),
    ensures
        indent_len(s) == i,
{
    assert(!(forall|j: int| 0 <= j < s.len() ==> is_ws_char(#[trigger] s[j])));
    let w = choose|w: int|
        0 <= w < s.len() && !is_ws_char(s[w]) && (forall|j: int|
            0 <= j < w ==> is_ws_char(#[trigger] s[j]));
    if w < i {
        assert(is_ws_char(s[w]));
    }
    if i < w {
        assert(is_ws_char(s[i]));
    }
}

/// Prepend the white space found at the start of `line_content` to `content`,
/// so that an inserted line keeps the indentation of the line it lands on.
/// With no line given, or a line of nothing but white space, the content is
/// returned unchanged.
pub fn prepend_whitespace(content: String, line_content: Option<String>) -> (r: String)
    ensures
        line_content is None ==> r@ == content@,
        line_content matches Some(line) ==> r@ == line@.take(indent_len(line@)) + content@,
{
    match line_content {
        None => content,
        Some(line) => {
            let n = line.as_str().unicode_len();
            let mut i: usize = 0;
            loop
                invariant
                    i <= n,
                    n == line@.len(),
                    forall|j: int| 0 <= j < i ==> is_ws_char(#[trigger] line@[j]),
                ensures
                    i <= n,
                    forall|j: int| 0 <= j < i ==> is_ws_char(#[trigger] line@[j]),
                    i < n ==> !is_ws_char(line@[i as int]),
                    i == n ==> (forall|j: int|
                        0 <= j < line@.len() ==> is_ws_char(#[trigger] line@[j])),
                decreases n - i,
            {
                if i == n {
                    break;
                }
                if !is_whitespace_char(line.as_str().get_char(i)) {
                    break;
                }
                i = i + 1;
            }
            let k = if i == n {
                0
            } else {
                i
            };
            proof {
                if i < n {
                    lemma_indent_len(line@, i as int);
                } else {
                    assert(indent_len(line@) == 0);
                }
                assert(k as int == indent_len(line@));
            }
            let prefix = line.as_str().substring_char(0, k);
            let mut r = String::from_str(prefix);
            r.append(content.as_str());
            proof {
                assert(r@ =~= line@.take(indent_len(line@)) + content@);
            }
            r
        },
    }
}

} // verus!
