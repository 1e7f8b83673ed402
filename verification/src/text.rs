//! Text helpers on character sequences.
//!
//! A `String` is viewed as its sequence of characters; every position and
//! length in this crate counts characters, never bytes.

use vstd::prelude::*;
use vstd::string::*;

verus! {

/// `needle` occurs in `hay` as a contiguous run of characters.
pub open spec fn is_substring(needle: Seq<char>, hay: Seq<char>) -> bool {
    exists|i: int|
        0 <= i && i + needle.len() <= hay.len() && #[trigger] hay.subrange(i, i + needle.len())
            == needle
}

/// The lower-case form of a text, as the standard library computes it.
pub uninterp spec fn lowercase_of(text: Seq<char>) -> Seq<char>;

/// The characters that the standard library treats as white space.
pub open spec fn is_space(c: char) -> bool {
    let n = c as u32;
    (0x09 <= n <= 0x0D) || n == 0x20 || n == 0x85 || n == 0xA0 || n == 0x1680 || (0x2000 <= n
        <= 0x200A) || n == 0x2028 || n == 0x2029 || n == 0x202F || n == 0x205F || n == 0x3000
}

/// Number of white-space characters at the start of `s`.
pub open spec fn leading_spaces(s: Seq<char>) -> nat
    decreases s.len(),
{
    if s.len() > 0 && is_space(s.first()) {
        1 + leading_spaces(s.drop_first())
    } else {
        0
    }
}

/// Number of white-space characters at the end of `s`.
pub open spec fn trailing_spaces(s: Seq<char>) -> nat
    decreases s.len(),
{
    if s.len() > 0 && is_space(s.last()) {
        1 + trailing_spaces(s.drop_last())
    } else {
        0
    }
}

/// `s` without its leading and trailing white space.
pub open spec fn trimmed(s: Seq<char>) -> Seq<char> {
    let start = leading_spaces(s);
    if start == s.len() {
        Seq::empty()
    } else {
        s.subrange(start as int, s.len() - trailing_spaces(s))
    }
}

/// The view of an optional text.
pub open spec fn text_view(text: Option<String>) -> Option<Seq<char>> {
    match text {
        Some(s) => Some(s@),
        None => None,
    }
}

/// Wraps `str::contains` with a string pattern: true exactly when the
/// pattern occurs somewhere in the text.
#[verifier::external_body]
pub(crate) fn contains_text(hay: &str, needle: &str) -> (found: bool)
    ensures
        found == is_substring(needle@, hay@),
{
    hay.contains(needle)
}

/// Wraps `str::to_lowercase`; the result is only named, not described.
#[verifier::external_body]
pub(crate) fn to_lowercase(text: &str) -> (lower: String)
    ensures
        lower@ == lowercase_of(text@),
{
    text.to_lowercase()
}

/// Wraps `str::trim`, which strips the white space at both ends, white
/// space being the characters of [`is_space`].
#[verifier::external_body]
pub(crate) fn trim(text: &str) -> (inner: &str)
    ensures
        inner@ == trimmed(text@),
{
    text.trim()
}

/// Wraps `String::push`, which appends one character.
#[verifier::external_body]
pub(crate) fn push_char(text: &mut String, c: char)
    ensures
        final(text)@ == old(text)@.push(c),
{
    text.push(c)
}

/// Tells whether two texts are the same text.
pub fn same(a: &str, b: &str) -> (eq: bool)
    ensures
        eq == (a@ == b@),
{
    let x: String = String::from_str(a);
    let y: String = String::from_str(b);
    x == y
}

/// A copy of `text` with `c` inserted before position `index`.
pub fn insert_char(text: &str, index: usize, c: char) -> (out: String)
    requires
        index <= text@.len(),
    ensures
        out@ == text@.insert(index as int, c),
{
    let n: usize = text.unicode_len();
    let mut out: String = String::from_str(text.substring_char(0, index));
    push_char(&mut out, c);
    out.append(text.substring_char(index, n));
    assert(out@ =~= text@.insert(index as int, c));
    out
}

/// A copy of `text` with `piece` inserted before position `index`.
pub fn insert_text(text: &str, index: usize, piece: &str) -> (out: String)
    requires
        index <= text@.len(),
    ensures
        out@ == text@.subrange(0, index as int) + piece@ + text@.subrange(
            index as int,
            text@.len() as int,
        ),
{
    let n: usize = text.unicode_len();
    let mut out: String = String::from_str(text.substring_char(0, index));
    out.append(piece);
    out.append(text.substring_char(index, n));
    out
}

/// A copy of `text` without the character at position `index`.
pub fn remove_char(text: &str, index: usize) -> (out: String)
    requires
        index < text@.len(),
    ensures
        out@ == text@.remove(index as int),
{
    let n: usize = text.unicode_len();
    let mut out: String = String::from_str(text.substring_char(0, index));
    out.append(text.substring_char(index + 1, n));
    assert(out@ =~= text@.remove(index as int));
    out
}

/// The text that `shorten` yields: `text` itself when it has at most `max`
/// characters, else its first `max - 3` characters followed by three dots.
pub open spec fn shortened(text: Seq<char>, max: nat) -> Seq<char> {
    if text.len() > max {
        text.subrange(0, if max >= 3 { max - 3 } else { 0 }) + seq!['.', '.', '.']
    } else {
        text
    }
}

/// Cuts a text that is longer than `max` characters and marks the cut with
/// three dots.
pub fn shorten(text: &str, max: usize) -> (out: String)
    ensures
        out@ == shortened(text@, max as nat),
{
    let n: usize = text.unicode_len();
    if n > max {
        let keep: usize = max.saturating_sub(3);
        let mut out: String = String::from_str(text.substring_char(0, keep));
        proof {
            reveal_strlit("...");
        }
        out.append("...");
        assert(out@ =~= shortened(text@, max as nat));
        out
    } else {
        String::from_str(text)
    }
}

/// The decimal digits of `n`, most significant first.
pub open spec fn decimal(n: nat) -> Seq<char>
    decreases n,
{
    if n < 10 {
        seq![digit_char(n)]
    } else {
        decimal(n / 10).push(digit_char(n % 10))
    }
}

/// The character for a single decimal digit.
pub open spec fn digit_char(d: nat) -> char {
    if d == 0 {
        '0'
    } else if d == 1 {
        '1'
    } else if d == 2 {
        '2'
    } else if d == 3 {
        '3'
    } else if d == 4 {
        '4'
    } else if d == 5 {
        '5'
    } else if d == 6 {
        '6'
    } else if d == 7 {
        '7'
    } else if d == 8 {
        '8'
    } else {
        '9'
    }
}

fn digit(d: u64) -> (c: char)
    requires
        d < 10,
    ensures
        c == digit_char(d as nat),
{
    if d == 0 {
        '0'
    } else if d == 1 {
        '1'
    } else if d == 2 {
        '2'
    } else if d == 3 {
        '3'
    } else if d == 4 {
        '4'
    } else if d == 5 {
        '5'
    } else if d == 6 {
        '6'
    } else if d == 7 {
        '7'
    } else if d == 8 {
        '8'
    } else {
        '9'
    }
}

/// Writes `n` in decimal.
pub fn decimal_text(n: u64) -> (out: String)
    ensures
        out@ == decimal(n as nat),
    decreases n,
{
    if n < 10 {
        let mut out: String = String::new();
        push_char(&mut out, digit(n));
        assert(out@ =~= decimal(n as nat));
        out
    } else {
        let mut out: String = decimal_text(n / 10);
        push_char(&mut out, digit(n % 10));
        out
    }
}

} // verus!
