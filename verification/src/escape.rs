//! The cell escaping: a line feed is written `##`, a carriage return `%%`
//! and a comma `@@`.

use crate::text::{chars_of, string_of};
use vstd::prelude::*;

verus! {

/// Whether `c` is one of the three characters that a cell cannot hold as
/// they are.
pub open spec fn is_control(c: char) -> bool {
    c == '\n' || c == '\r' || c == ','
}

/// Whether `c` is one of the three characters that tokens are made of.
pub open spec fn is_marker(c: char) -> bool {
    c == '#' || c == '%' || c == '@'
}

/// The character whose doubling stands for the control character `c`.
pub open spec fn marker_of(c: char) -> char {
    if c == '\n' {
        '#'
    } else if c == '\r' {
        '%'
    } else {
        '@'
    }
}

/// The control character that the doubled marker `m` stands for.
pub open spec fn control_of(m: char) -> char {
    if m == '#' {
        '\n'
    } else if m == '%' {
        '\r'
    } else {
        ','
    }
}

/// The escaped form of `s`: every control character gives way to its token,
/// every other character stays.
pub open spec fn escape_chars(s: Seq<char>) -> Seq<char>
    decreases s.len(),
{
    if s.len() == 0 {
        s
    } else if is_control(s[0]) {
        seq![marker_of(s[0]), marker_of(s[0])] + escape_chars(s.skip(1))
    } else {
        seq![s[0]] + escape_chars(s.skip(1))
    }
}

/// The text that the cell `s` stands for: read from the left, every token
/// gives way to its control character, every other character stays.
pub open spec fn unescape_chars(s: Seq<char>) -> Seq<char>
    decreases s.len(),
{
    if s.len() == 0 {
        s
    } else if s.len() >= 2 && is_marker(s[0]) && s[1] == s[0] {
        seq![control_of(s[0])] + unescape_chars(s.skip(2))
    } else {
        seq![s[0]] + unescape_chars(s.skip(1))
    }
}

/// Whether a token occurs in `s`.
pub open spec fn has_token(s: Seq<char>) -> bool {
    exists|i: int| 0 <= i && i + 1 < s.len() && is_marker(#[trigger] s[i]) && s[i + 1] == s[i]
}

/// Whether somewhere in `s` a marker stands directly before the control
/// character that it encodes, so that escaping lengthens a run of markers
/// from the left.
pub open spec fn has_marker_before_control(s: Seq<char>) -> bool {
    exists|i: int|
        0 <= i && i + 1 < s.len() && is_control(s[i + 1]) && #[trigger] s[i] == marker_of(
            s[i + 1],
        )
}

/// Escapes `s` for a cell.
pub fn escape(s: &str) -> (r: String)
    ensures
        r@ == escape_chars(s@),
{
    let v = chars_of(s);
    let mut out: Vec<char> = Vec::new();
    let mut i: usize = 0;
    assert(v@.skip(0) == v@);
    while i < v.len()
        invariant
            i <= v.len(),
            out@ + escape_chars(v@.skip(i as int)) == escape_chars(v@),
        decreases v.len() - i,
    {
        let c = v[i];
        let ghost rest = v@.skip(i as int);
        assert(rest.skip(1) == v@.skip(i + 1));
        if c == '\n' {
            out.push('#');
            out.push('#');
        } else if c == '\r' {
            out.push('%');
            out.push('%');
        } else if c == ',' {
            out.push('@');
            out.push('@');
        } else {
            out.push(c);
        }
        i += 1;
    }
    string_of(&out)
}

/// Restores the text that the cell `s` stands for.
pub fn unescape(s: &str) -> (r: String)
    ensures
        r@ == unescape_chars(s@),
{
    let v = chars_of(s);
    let mut out: Vec<char> = Vec::new();
    let mut i: usize = 0;
    assert(v@.skip(0) == v@);
    while i < v.len()
        invariant
            i <= v.len(),
            out@ + unescape_chars(v@.skip(i as int)) == unescape_chars(v@),
        decreases v.len() - i,
    {
        let c = v[i];
        let ghost rest = v@.skip(i as int);
        if i + 1 < v.len() && (c == '#' || c == '%' || c == '@') && v[i + 1] == c {
            assert(rest.skip(2) == v@.skip(i + 2));
            if c == '#' {
                out.push('\n');
            } else if c == '%' {
                out.push('\r');
            } else {
                out.push(',');
            }
            i += 2;
        } else {
            assert(rest.skip(1) == v@.skip(i + 1));
            out.push(c);
            i += 1;
        }
    }
    string_of(&out)
}

/// Unescaping undoes escaping for every text that holds no token and in
/// which no marker stands directly before the control character it encodes.
pub proof fn lemma_unescape_escape(s: Seq<char>)
    requires
        !has_token(s),
        !has_marker_before_control(s),
    ensures
        unescape_chars(escape_chars(s)) == s,
    decreases s.len(),
{
    if s.len() > 0 {
        let rest = s.skip(1);
        lemma_unescape_escape(rest);
        let e = escape_chars(s);
        let er = escape_chars(rest);
        if is_control(s[0]) {
            assert(e.skip(2) == er);
        } else {
            assert(e.skip(1) == er);
            if is_marker(s[0]) && e.len() >= 2 && e[1] == e[0] {
                assert(false);
            }
        }
    }
}

/// Unescaping does not undo escaping for a text in which a marker stands
/// directly before the control character that it encodes; so the texts of
/// [`lemma_unescape_escape`] are all the texts without a token that escaping
/// and unescaping restore.
pub proof fn lemma_unescape_escape_needs(s: Seq<char>)
    requires
        !has_token(s),
        has_marker_before_control(s),
    ensures
        unescape_chars(escape_chars(s)) != s,
    decreases s.len(),
{
    let rest = s.skip(1);
    let e = escape_chars(s);
    let er = escape_chars(rest);
    if !(s.len() >= 2 && is_control(s[1]) && s[0] == marker_of(s[1])) {
        let at = choose|i: int|
            0 <= i && i + 1 < s.len() && is_control(s[i + 1]) && #[trigger] s[i] == marker_of(
                s[i + 1],
            );
        assert(has_marker_before_control(rest)) by {
            assert(is_control(rest[at]) && rest[at - 1] == marker_of(rest[at]));
        }
        lemma_unescape_escape_needs(rest);
        let back = unescape_chars(er);
        if is_control(s[0]) {
            assert(e.skip(2) == er);
            assert((seq![control_of(e[0])] + back).skip(1) == back);
        } else {
            assert(e.skip(1) == er);
            if is_marker(s[0]) && e.len() >= 2 && e[1] == e[0] {
                assert(false);
            }
            assert((seq![s[0]] + back).skip(1) == back);
        }
    }
}

} // verus!
