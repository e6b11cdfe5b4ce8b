//! Text primitives shared by the table parsers: conversions between strings
//! and character vectors, literal comparison, trimming, and the integer
//! literal grammar accepted in numeric cells.

use vstd::prelude::*;
use vstd::std_specs::iter::IteratorSpec;

verus! {

/// `String::push` appends the character to the end of the string.
pub assume_specification[ String::push ](s: &mut String, c: char)
    ensures
        final(s)@ == old(s)@.push(c),
;

/// `String::push_str` appends the characters of `other` to the end of the
/// string.
pub assume_specification[ String::push_str ](s: &mut String, other: &str)
    ensures
        final(s)@ == old(s)@ + other@,
;

/// The characters of `s`, in order.
pub fn chars_of(s: &str) -> (v: Vec<char>)
    ensures
        v@ == s@,
{
    let mut v: Vec<char> = Vec::new();
    let mut it = s.chars();
    loop
        invariant
            v@ + it.remaining() == s@,
            it.decrease() is Some,
        ensures
            v@ == s@,
        decreases it.decrease()->0,
    {
        match it.next() {
            Some(c) => {
                v.push(c);
            },
            None => {
                break ;
            },
        }
    }
    v
}

/// The string made of the characters `v[from..to]`.
pub(crate) fn string_of_range(v: &Vec<char>, from: usize, to: usize) -> (s: String)
    requires
        from <= to <= v.len(),
    ensures
        s@ == v@.subrange(from as int, to as int),
{
    let mut s = String::new();
    let mut i: usize = from;
    while i < to
        invariant
            from <= i <= to <= v.len(),
            s@ == v@.subrange(from as int, i as int),
        decreases to - i,
    {
        s.push(v[i]);
        i += 1;
    }
    s
}

/// A copy of the characters `v[from..to]`.
pub(crate) fn copy_range(v: &Vec<char>, from: usize, to: usize) -> (r: Vec<char>)
    requires
        from <= to <= v.len(),
    ensures
        r@ == v@.subrange(from as int, to as int),
{
    let mut r: Vec<char> = Vec::new();
    let mut i: usize = from;
    while i < to
        invariant
            from <= i <= to <= v.len(),
            r@ == v@.subrange(from as int, i as int),
        decreases to - i,
    {
        r.push(v[i]);
        i += 1;
    }
    r
}

/// The string made of all the characters of `v`.
pub fn string_of(v: &Vec<char>) -> (s: String)
    ensures
        s@ == v@,
{
    let s = string_of_range(v, 0, v.len());
    s
}

/// Whether two strings hold the same characters.
pub fn str_eq(a: &str, b: &str) -> (r: bool)
    ensures
        r == (a@ == b@),
{
    let x = chars_of(a);
    let y = chars_of(b);
    if x.len() != y.len() {
        return false;
    }
    let mut i: usize = 0;
    while i < x.len()
        invariant
            x.len() == y.len(),
            i <= x.len(),
            x@ == a@,
            y@ == b@,
            forall|j: int| 0 <= j < i ==> x@[j] == y@[j],
        decreases x.len() - i,
    {
        if x[i] != y[i] {
            return false;
        }
        i += 1;
    }
    assert(x@ =~= y@);
    true
}

/// The value of `c` as a digit in the given radix, if it is one.
pub open spec fn digit_value(c: char, radix: int) -> Option<int> {
    let v: int = if '0' <= c <= '9' {
        c as int - '0' as int
    } else if 'a' <= c <= 'z' {
        c as int - 'a' as int + 10
    } else if 'A' <= c <= 'Z' {
        c as int - 'A' as int + 10
    } else {
        radix
    };
    if v < radix {
        Some(v)
    } else {
        None
    }
}

/// Whether every character of `s` is a digit in the given radix.
pub open spec fn all_digits(s: Seq<char>, radix: int) -> bool {
    forall|i: int| 0 <= i < s.len() ==> (#[trigger] digit_value(s[i], radix)) is Some
}

/// The number that the digit string `s` denotes in the given radix.
pub open spec fn digits_value(s: Seq<char>, radix: int) -> int
    decreases s.len(),
{
    if s.len() == 0 {
        0
    } else {
        digits_value(s.drop_last(), radix) * radix + digit_value(s.last(), radix).unwrap()
    }
}

/// The magnitude that `s` denotes: `Some` when `s` is a non-empty digit
/// string whose value is at most `limit`.
pub open spec fn magnitude(s: Seq<char>, radix: int, limit: int) -> Option<int> {
    if s.len() > 0 && all_digits(s, radix) && digits_value(s, radix) <= limit {
        Some(digits_value(s, radix))
    } else {
        None
    }
}

/// An integer literal with an optional sign: `+` is always accepted, `-`
/// only when the range reaches below zero. The value must lie in
/// `min..=max`.
pub open spec fn signed_literal(s: Seq<char>, radix: int, min: int, max: int) -> Option<int> {
    if s.len() > 0 && s[0] == '-' && min < 0 {
        match magnitude(s.skip(1), radix, -min) {
            Some(m) => Some(-m),
            None => None,
        }
    } else if s.len() > 0 && s[0] == '+' {
        magnitude(s.skip(1), radix, max)
    } else {
        magnitude(s, radix, max)
    }
}

/// Whether `s` begins with the two characters `0x`.
pub open spec fn has_hex_prefix(s: Seq<char>) -> bool {
    s.len() >= 2 && s[0] == '0' && s[1] == 'x'
}

/// A numeric cell: hexadecimal after a `0x` prefix, decimal otherwise.
pub open spec fn number_literal(s: Seq<char>, min: int, max: int) -> Option<int> {
    if has_hex_prefix(s) {
        signed_literal(s.skip(2), 16, min, max)
    } else {
        signed_literal(s, 10, min, max)
    }
}

/// A literal that must carry the `0x` prefix.
pub open spec fn hex_literal(s: Seq<char>, min: int, max: int) -> Option<int> {
    if has_hex_prefix(s) {
        signed_literal(s.skip(2), 16, min, max)
    } else {
        None
    }
}

proof fn lemma_digits_value_bounds(s: Seq<char>, radix: int)
    requires
        radix > 0,
        all_digits(s, radix),
    ensures
        digits_value(s, radix) >= 0,
    decreases s.len(),
{
    if s.len() > 0 {
        lemma_digits_value_bounds(s.drop_last(), radix);
    }
}

proof fn lemma_digits_value_monotone(s: Seq<char>, k: int, radix: int)
    requires
        radix > 0,
        all_digits(s, radix),
        0 <= k <= s.len(),
    ensures
        0 <= digits_value(s.take(k), radix) <= digits_value(s, radix),
    decreases s.len() - k,
{
    if k == s.len() {
        assert(s.take(k) == s);
        lemma_digits_value_bounds(s, radix);
    } else {
        let t = s.drop_last();
        lemma_digits_value_monotone(t, k, radix);
        assert(t.take(k) == s.take(k));
        let a = digits_value(t, radix);
        assert(a * radix >= a) by (nonlinear_arith)
            requires
                a >= 0,
                radix > 0,
        ;
    }
}

/// The digit value of `c` in radix 10 or 16.
fn digit_of(c: char, radix: u32) -> (r: Option<u32>)
    requires
        radix == 10 || radix == 16,
    ensures
        match r {
            Some(d) => digit_value(c, radix as int) == Some(d as int) && d < radix,
            None => digit_value(c, radix as int) is None,
        },
{
    let n: u32 = c as u32;
    let v: u32 = if '0' <= c && c <= '9' {
        n - 0x30
    } else if 'a' <= c && c <= 'z' {
        n - 0x61 + 10
    } else if 'A' <= c && c <= 'Z' {
        n - 0x41 + 10
    } else {
        radix
    };
    if v < radix {
        Some(v)
    } else {
        None
    }
}

/// Reads `v[from..]` as a digit string in radix 10 or 16 whose value may
/// not exceed `limit`.
pub(crate) fn parse_magnitude(v: &Vec<char>, from: usize, radix: u32, limit: u64) -> (r: Option<u64>)
    requires
        from <= v.len(),
        radix == 10 || radix == 16,
    ensures
        match r {
            Some(m) => magnitude(v@.skip(from as int), radix as int, limit as int) == Some(
                m as int,
            ),
            None => magnitude(v@.skip(from as int), radix as int, limit as int) is None,
        },
{
    let ghost s = v@.skip(from as int);
    if from == v.len() {
        return None;
    }
    let mut acc: u64 = 0;
    let mut i: usize = from;
    while i < v.len()
        invariant
            from <= i <= v.len(),
            radix == 10 || radix == 16,
            s == v@.skip(from as int),
            all_digits(s.take(i - from), radix as int),
            acc as int == digits_value(s.take(i - from), radix as int),
            acc <= limit,
        decreases v.len() - i,
    {
        let ghost p = s.take(i - from);
        let ghost q = s.take(i - from + 1);
        assert(q.drop_last() == p);
        match digit_of(v[i], radix) {
            None => {
                assert(digit_value(s[i - from], radix as int) is None);
                return None;
            },
            Some(d) => {
                let wide: u128 = (acc as u128) * (radix as u128) + (d as u128);
                if wide > limit as u128 {
                    proof {
                        if all_digits(s, radix as int) {
                            lemma_digits_value_monotone(s, i - from + 1, radix as int);
                        }
                    }
                    return None;
                }
                acc = wide as u64;
            },
        }
        i += 1;
    }
    assert(s.take(i - from) == s);
    Some(acc)
}

/// The characters of an optional string.
pub open spec fn option_text(o: Option<String>) -> Option<Seq<char>> {
    match o {
        Some(s) => Some(s@),
        None => None,
    }
}

/// A cell that may be left empty: nothing when it is, its text otherwise.
pub open spec fn optional_cell(cell: Seq<char>) -> Option<Seq<char>> {
    if cell.len() == 0 {
        None
    } else {
        Some(cell)
    }
}

/// Reads `v[from..]` as an integer literal in radix 10 or 16 with an
/// optional sign.
pub(crate) fn parse_signed(v: &Vec<char>, from: usize, radix: u32, min: i128, max: i128) -> (r: Option<
    i128,
>)
    requires
        from <= v.len(),
        radix == 10 || radix == 16,
        -0xffff_ffff_ffff_ffff <= min <= 0 <= max <= 0xffff_ffff_ffff_ffff,
    ensures
        match r {
            Some(x) => signed_literal(v@.skip(from as int), radix as int, min as int, max as int)
                == Some(x as int),
            None => signed_literal(v@.skip(from as int), radix as int, min as int, max as int)
                is None,
        },
{
    let ghost s = v@.skip(from as int);
    if from < v.len() {
        assert(s.skip(1) == v@.skip(from + 1));
    }
    if from < v.len() && v[from] == '-' && min < 0 {
        match parse_magnitude(v, from + 1, radix, (-min) as u64) {
            Some(m) => Some(-(m as i128)),
            None => None,
        }
    } else if from < v.len() && v[from] == '+' {
        match parse_magnitude(v, from + 1, radix, max as u64) {
            Some(m) => Some(m as i128),
            None => None,
        }
    } else {
        match parse_magnitude(v, from, radix, max as u64) {
            Some(m) => Some(m as i128),
            None => None,
        }
    }
}

/// Reads `v` as a numeric cell: hexadecimal after `0x`, decimal otherwise.
pub(crate) fn parse_number(v: &Vec<char>, min: i128, max: i128) -> (r: Option<i128>)
    requires
        -0xffff_ffff_ffff_ffff <= min <= 0 <= max <= 0xffff_ffff_ffff_ffff,
    ensures
        match r {
            Some(x) => number_literal(v@, min as int, max as int) == Some(x as int),
            None => number_literal(v@, min as int, max as int) is None,
        },
{
    if v.len() >= 2 && v[0] == '0' && v[1] == 'x' {
        parse_signed(v, 2, 16, min, max)
    } else {
        assert(v@.skip(0) == v@);
        parse_signed(v, 0, 10, min, max)
    }
}

/// Reads `v` as a number that must carry the `0x` prefix.
pub(crate) fn parse_hex(v: &Vec<char>, min: i128, max: i128) -> (r: Option<i128>)
    requires
        -0xffff_ffff_ffff_ffff <= min <= 0 <= max <= 0xffff_ffff_ffff_ffff,
    ensures
        match r {
            Some(x) => hex_literal(v@, min as int, max as int) == Some(x as int),
            None => hex_literal(v@, min as int, max as int) is None,
        },
{
    if v.len() >= 2 && v[0] == '0' && v[1] == 'x' {
        parse_signed(v, 2, 16, min, max)
    } else {
        None
    }
}

/// The index of the first element of `s` that meets `p`, or the length of
/// `s` if none does.
pub open spec fn first_where<A>(s: Seq<A>, p: spec_fn(A) -> bool) -> int
    decreases s.len(),
{
    if s.len() == 0 || p(s[0]) {
        0
    } else {
        1 + first_where(s.skip(1), p)
    }
}

/// `first_where` is the one index with nothing that meets `p` before it and
/// something that does, or the end, at it.
pub proof fn lemma_first_where<A>(s: Seq<A>, p: spec_fn(A) -> bool, k: int)
    requires
        0 <= k <= s.len(),
        forall|i: int| 0 <= i < k ==> !p(#[trigger] s[i]),
        k == s.len() || p(s[k]),
    ensures
        first_where(s, p) == k,
    decreases s.len(),
{
    if k > 0 {
        let t = s.skip(1);
        lemma_first_where(t, p, k - 1);
    }
}

/// `first_where` lies within the sequence and has the two properties that
/// define it.
pub proof fn lemma_first_where_is_first<A>(s: Seq<A>, p: spec_fn(A) -> bool)
    ensures
        0 <= first_where(s, p) <= s.len(),
        forall|i: int| 0 <= i < first_where(s, p) ==> !p(#[trigger] s[i]),
        first_where(s, p) < s.len() ==> p(s[first_where(s, p)]),
    decreases s.len(),
{
    if s.len() > 0 && !p(s[0]) {
        let t = s.skip(1);
        lemma_first_where_is_first(t, p);
        assert forall|i: int| 0 <= i < first_where(s, p) implies !p(#[trigger] s[i]) by {
            if i > 0 {
                assert(s[i] == t[i - 1]);
            }
        }
    }
}

/// The property of being the character `c`.
pub open spec fn is_char(c: char) -> spec_fn(char) -> bool {
    |x: char| x == c
}

/// The index of the first `c` in `s`, or the length of `s` if there is none.
pub open spec fn index_of(s: Seq<char>, c: char) -> int {
    first_where(s, is_char(c))
}

/// The index of the first `c` in `v[from..to]`, or `to` if there is none.
pub(crate) fn find_char(v: &Vec<char>, from: usize, to: usize, c: char) -> (k: usize)
    requires
        from <= to <= v.len(),
    ensures
        from <= k <= to,
        k - from == index_of(v@.subrange(from as int, to as int), c),
        k < to ==> v@[k as int] == c,
{
    let ghost s = v@.subrange(from as int, to as int);
    let mut k: usize = from;
    while k < to && v[k] != c
        invariant
            from <= k <= to <= v.len(),
            s == v@.subrange(from as int, to as int),
            forall|i: int| 0 <= i < k - from ==> (#[trigger] s[i]) != c,
        decreases to - k,
    {
        k += 1;
    }
    proof {
        lemma_first_where(s, is_char(c), k - from);
    }
    k
}

/// Whether `c` is white space: a character with the Unicode property
/// `White_Space`.
pub open spec fn is_whitespace(c: char) -> bool {
    let n = c as u32;
    ||| 0x09 <= n <= 0x0d
    ||| n == 0x20
    ||| n == 0x85
    ||| n == 0xa0
    ||| n == 0x1680
    ||| 0x2000 <= n <= 0x200a
    ||| n == 0x2028
    ||| n == 0x2029
    ||| n == 0x202f
    ||| n == 0x205f
    ||| n == 0x3000
}

/// Whether `c` is white space.
pub fn char_is_whitespace(c: char) -> (r: bool)
    ensures
        r == is_whitespace(c),
{
    let n: u32 = c as u32;
    (0x09 <= n && n <= 0x0d) || n == 0x20 || n == 0x85 || n == 0xa0 || n == 0x1680 || (0x2000 <= n
        && n <= 0x200a) || n == 0x2028 || n == 0x2029 || n == 0x202f || n == 0x205f || n == 0x3000
}

/// `s` without the white space at its start.
pub open spec fn trim_start(s: Seq<char>) -> Seq<char>
    decreases s.len(),
{
    if s.len() > 0 && is_whitespace(s[0]) {
        trim_start(s.skip(1))
    } else {
        s
    }
}

/// `s` without the white space at its end.
pub open spec fn trim_end(s: Seq<char>) -> Seq<char>
    decreases s.len(),
{
    if s.len() > 0 && is_whitespace(s.last()) {
        trim_end(s.drop_last())
    } else {
        s
    }
}

/// `s` without the white space at its start and at its end.
pub open spec fn trim(s: Seq<char>) -> Seq<char> {
    trim_end(trim_start(s))
}

/// The bounds of `v[from..to]` without the white space around it.
pub(crate) fn trim_range(v: &Vec<char>, from: usize, to: usize) -> (r: (usize, usize))
    requires
        from <= to <= v.len(),
    ensures
        from <= r.0 <= r.1 <= to,
        v@.subrange(r.0 as int, r.1 as int) == trim(v@.subrange(from as int, to as int)),
{
    let mut a: usize = from;
    while a < to && char_is_whitespace(v[a])
        invariant
            from <= a <= to <= v.len(),
            trim_start(v@.subrange(from as int, to as int)) == trim_start(
                v@.subrange(a as int, to as int),
            ),
        decreases to - a,
    {
        assert(v@.subrange(a as int, to as int).skip(1) == v@.subrange(a + 1, to as int));
        a += 1;
    }
    let mut b: usize = to;
    while b > a && char_is_whitespace(v[b - 1])
        invariant
            a <= b <= to <= v.len(),
            trim_end(v@.subrange(a as int, to as int)) == trim_end(
                v@.subrange(a as int, b as int),
            ),
        decreases b,
    {
        assert(v@.subrange(a as int, b as int).drop_last() == v@.subrange(a as int, b - 1));
        b -= 1;
    }
    (a, b)
}

/// Whether `c` is a decimal digit.
pub open spec fn is_decimal_digit(c: char) -> bool {
    '0' <= c <= '9'
}

/// The property of being no decimal digit.
pub open spec fn is_no_digit() -> spec_fn(char) -> bool {
    |c: char| !is_decimal_digit(c)
}

/// The end of the run of decimal digits that starts at the head of `s`.
pub open spec fn digit_run(s: Seq<char>) -> int {
    first_where(s, is_no_digit())
}

/// Whether `s` is an exponent: `e` or `E`, an optional sign, and digits.
pub open spec fn is_exponent(s: Seq<char>) -> bool {
    &&& s.len() >= 2
    &&& (s[0] == 'e' || s[0] == 'E')
    &&& {
        let digits = if s[1] == '+' || s[1] == '-' {
            s.skip(2)
        } else {
            s.skip(1)
        };
        digits.len() > 0 && digit_run(digits) == digits.len()
    }
}

/// Whether `s` is an unsigned decimal number: digits with at most one point
/// among them, at least one digit in all, and an optional exponent.
pub open spec fn is_decimal_number(s: Seq<char>) -> bool {
    let whole = digit_run(s);
    let after_whole = s.skip(whole);
    let fraction = if after_whole.len() > 0 && after_whole[0] == '.' {
        digit_run(after_whole.skip(1))
    } else {
        0
    };
    let rest = if after_whole.len() > 0 && after_whole[0] == '.' {
        after_whole.skip(1 + fraction)
    } else {
        after_whole
    };
    whole + fraction > 0 && (rest.len() == 0 || is_exponent(rest))
}

/// Whether `s` is `lower` but for the case of its letters, of which `upper`
/// holds the capitals.
pub open spec fn is_word(s: Seq<char>, lower: Seq<char>, upper: Seq<char>) -> bool {
    s.len() == lower.len() && forall|i: int|
        0 <= i < s.len() ==> (#[trigger] s[i]) == lower[i] || s[i] == upper[i]
}

/// Whether `s` names an infinity or a value that is no number.
pub open spec fn is_special_number(s: Seq<char>) -> bool {
    ||| is_word(s, seq!['i', 'n', 'f'], seq!['I', 'N', 'F'])
    ||| is_word(
        s,
        seq!['i', 'n', 'f', 'i', 'n', 'i', 't', 'y'],
        seq!['I', 'N', 'F', 'I', 'N', 'I', 'T', 'Y'],
    )
    ||| is_word(s, seq!['n', 'a', 'n'], seq!['N', 'A', 'N'])
}

/// Whether `s` is a floating-point literal: an optional sign before a
/// decimal number, an infinity, or a value that is no number.
pub open spec fn is_float_literal(s: Seq<char>) -> bool {
    let body = if s.len() > 0 && (s[0] == '+' || s[0] == '-') {
        s.skip(1)
    } else {
        s
    };
    is_decimal_number(body) || is_special_number(body)
}

/// The end of the run of decimal digits that starts at `v[from]`.
fn skip_digits(v: &Vec<char>, from: usize) -> (k: usize)
    requires
        from <= v.len(),
    ensures
        from <= k <= v.len(),
        k - from == digit_run(v@.skip(from as int)),
{
    let ghost s = v@.skip(from as int);
    let mut k: usize = from;
    while k < v.len() && '0' <= v[k] && v[k] <= '9'
        invariant
            from <= k <= v.len(),
            s == v@.skip(from as int),
            forall|i: int| 0 <= i < k - from ==> is_decimal_digit(#[trigger] s[i]),
        decreases v.len() - k,
    {
        k += 1;
    }
    proof {
        lemma_first_where(s, is_no_digit(), k - from);
    }
    k
}

/// Whether `v[from..]` is `lower` but for the case of its letters.
fn matches_word(v: &Vec<char>, from: usize, lower: &Vec<char>, upper: &Vec<char>) -> (r: bool)
    requires
        from <= v.len(),
        lower.len() == upper.len(),
    ensures
        r == is_word(v@.skip(from as int), lower@, upper@),
{
    let ghost s = v@.skip(from as int);
    if v.len() - from != lower.len() {
        return false;
    }
    let mut i: usize = 0;
    while i < lower.len()
        invariant
            from <= v.len(),
            v.len() - from == lower.len(),
            lower.len() == upper.len(),
            i <= lower.len(),
            s == v@.skip(from as int),
            forall|j: int| 0 <= j < i ==> (#[trigger] s[j]) == lower@[j] || s[j] == upper@[j],
        decreases lower.len() - i,
    {
        let c = v[from + i];
        assert(s[i as int] == c);
        if c != lower[i] && c != upper[i] {
            return false;
        }
        i += 1;
    }
    true
}

/// Whether `v[from..]` names an infinity or a value that is no number.
fn is_special_at(v: &Vec<char>, from: usize) -> (r: bool)
    requires
        from <= v.len(),
    ensures
        r == is_special_number(v@.skip(from as int)),
{
    let inf: Vec<char> = vec!['i', 'n', 'f'];
    let inf_upper: Vec<char> = vec!['I', 'N', 'F'];
    if matches_word(v, from, &inf, &inf_upper) {
        return true;
    }
    let nan: Vec<char> = vec!['n', 'a', 'n'];
    let nan_upper: Vec<char> = vec!['N', 'A', 'N'];
    if matches_word(v, from, &nan, &nan_upper) {
        return true;
    }
    let infinity: Vec<char> = vec!['i', 'n', 'f', 'i', 'n', 'i', 't', 'y'];
    let infinity_upper: Vec<char> = vec!['I', 'N', 'F', 'I', 'N', 'I', 'T', 'Y'];
    matches_word(v, from, &infinity, &infinity_upper)
}

/// Whether `v[from..]` is an exponent.
fn is_exponent_at(v: &Vec<char>, from: usize) -> (r: bool)
    requires
        from <= v.len(),
    ensures
        r == is_exponent(v@.skip(from as int)),
{
    let ghost s = v@.skip(from as int);
    if v.len() - from < 2 {
        return false;
    }
    if !(v[from] == 'e' || v[from] == 'E') {
        return false;
    }
    let digits_start = if v[from + 1] == '+' || v[from + 1] == '-' {
        from + 2
    } else {
        from + 1
    };
    assert(s.skip(digits_start - from) == v@.skip(digits_start as int));
    let digits_end = skip_digits(v, digits_start);
    digits_start < v.len() && digits_end == v.len()
}

/// Whether `v[from..]` is an unsigned decimal number.
fn is_decimal_at(v: &Vec<char>, from: usize) -> (r: bool)
    requires
        from <= v.len(),
    ensures
        r == is_decimal_number(v@.skip(from as int)),
{
    let ghost s = v@.skip(from as int);
    let whole_end = skip_digits(v, from);
    let ghost after_whole = s.skip(whole_end - from);
    assert(after_whole == v@.skip(whole_end as int));
    if whole_end < v.len() && v[whole_end] == '.' {
        assert(after_whole.skip(1) == v@.skip(whole_end + 1));
        let fraction_end = skip_digits(v, whole_end + 1);
        assert(after_whole.skip(1 + (fraction_end - (whole_end + 1))) == v@.skip(
            fraction_end as int,
        ));
        if (whole_end - from) + (fraction_end - (whole_end + 1)) == 0 {
            return false;
        }
        fraction_end == v.len() || is_exponent_at(v, fraction_end)
    } else {
        if whole_end - from == 0 {
            return false;
        }
        whole_end == v.len() || is_exponent_at(v, whole_end)
    }
}

/// Whether `v` is a floating-point literal.
pub fn is_float(v: &Vec<char>) -> (r: bool)
    ensures
        r == is_float_literal(v@),
{
    let start: usize = if v.len() > 0 && (v[0] == '+' || v[0] == '-') {
        1
    } else {
        0
    };
    assert(v@.skip(0) == v@);
    is_decimal_at(v, start) || is_special_at(v, start)
}

/// Whether `a` comes before `b` in the order of strings: at the first
/// place where they differ `a` has the lesser character, or `a` ends there.
pub open spec fn text_less(a: Seq<char>, b: Seq<char>) -> bool
    decreases a.len(),
{
    if b.len() == 0 {
        false
    } else if a.len() == 0 {
        true
    } else if a[0] != b[0] {
        a[0] < b[0]
    } else {
        text_less(a.skip(1), b.skip(1))
    }
}

/// No string comes before itself.
pub proof fn lemma_text_less_irreflexive(a: Seq<char>)
    ensures
        !text_less(a, a),
    decreases a.len(),
{
    if a.len() > 0 {
        lemma_text_less_irreflexive(a.skip(1));
    }
}

/// Of two strings that differ, one comes before the other.
pub proof fn lemma_text_less_total(a: Seq<char>, b: Seq<char>)
    ensures
        text_less(a, b) || text_less(b, a) || a == b,
        !(text_less(a, b) && text_less(b, a)),
    decreases a.len(),
{
    if a.len() > 0 && b.len() > 0 {
        if a[0] == b[0] {
            lemma_text_less_total(a.skip(1), b.skip(1));
            if a.skip(1) == b.skip(1) {
                assert(b =~= seq![b[0]] + b.skip(1));
            }
        }
    }
}

/// The order of strings is transitive.
pub proof fn lemma_text_less_transitive(a: Seq<char>, b: Seq<char>, c: Seq<char>)
    requires
        text_less(a, b),
        text_less(b, c),
    ensures
        text_less(a, c),
    decreases a.len(),
{
    if a.len() > 0 && b.len() > 0 && c.len() > 0 {
        if a[0] == b[0] && b[0] == c[0] {
            lemma_text_less_transitive(a.skip(1), b.skip(1), c.skip(1));
        }
    }
}

/// How two strings stand to each other in the order of strings.
#[derive(Debug, Clone, Copy, PartialEq, Eq, Structural)]
pub enum Order {
    Before,
    Same,
    After,
}

/// Tells how `a` stands to `b` in the order of strings.
pub fn compare_text(a: &str, b: &str) -> (r: Order)
    ensures
        r == Order::Before <==> text_less(a@, b@),
        r == Order::Same <==> a@ == b@,
        r == Order::After <==> text_less(b@, a@),
{
    let x = chars_of(a);
    let y = chars_of(b);
    let mut i: usize = 0;
    proof {
        lemma_text_less_total(a@, b@);
        assert(x@.skip(0) == x@);
        assert(y@.skip(0) == y@);
    }
    while i < x.len() && i < y.len()
        invariant
            i <= x.len(),
            i <= y.len(),
            x@ == a@,
            y@ == b@,
            text_less(x@.skip(i as int), y@.skip(i as int)) == text_less(x@, y@),
            text_less(y@.skip(i as int), x@.skip(i as int)) == text_less(y@, x@),
        decreases x.len() - i,
    {
        let ghost p = x@.skip(i as int);
        let ghost q = y@.skip(i as int);
        assert(p.skip(1) == x@.skip(i + 1));
        assert(q.skip(1) == y@.skip(i + 1));
        if x[i] < y[i] {
            return Order::Before;
        }
        if y[i] < x[i] {
            return Order::After;
        }
        i += 1;
    }
    if i < y.len() {
        Order::Before
    } else if i < x.len() {
        Order::After
    } else {
        Order::Same
    }
}

} // verus!
