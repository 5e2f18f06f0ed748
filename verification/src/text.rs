//! Text helpers shared by the configuration loader and the row preparation:
//! decimal integers in both directions, and a few operations on characters.

use vstd::prelude::*;
use vstd::string::{StrSliceExecFns, StringExecFns};

verus! {

/// The characters of `s`, in order.
pub fn chars_of(s: &str) -> (v: Vec<char>)
    ensures
        v@ == s@,
{
    let mut v: Vec<char> = Vec::new();
    for c in it: s.chars()
        invariant
            v@ == it.seq().take(it.index() as int),
            it.seq() == s@,
    {
        v.push(c);
    }
    v
}

/// Whether `c` is one of the ASCII digits `0` to `9`.
pub open spec fn is_digit(c: char) -> bool {
    '0' as int <= c as int <= '9' as int
}

/// Whether every character of `s` is an ASCII digit.
pub open spec fn all_digits(s: Seq<char>) -> bool {
    forall|i: int| 0 <= i < s.len() ==> is_digit(#[trigger] s[i])
}

/// The number that a run of ASCII digits denotes, read in base ten.
pub open spec fn decimal_value(digits: Seq<char>) -> nat
    decreases digits.len(),
{
    if digits.len() == 0 {
        0
    } else {
        decimal_value(digits.drop_last()) * 10 + (digits.last() as int - '0' as int) as nat
    }
}

/// The integer that `text` denotes: an optional sign, then one or more ASCII
/// digits and nothing else. `+` is always a sign; `-` is one only where
/// `signed` holds. Leading zeros are accepted, white space is not.
pub open spec fn integer_of(text: Seq<char>, signed: bool) -> Option<int> {
    if text.len() == 0 {
        None
    } else {
        let negative = signed && text[0] == '-';
        let digits = if negative || text[0] == '+' {
            text.subrange(1, text.len() as int)
        } else {
            text
        };
        if digits.len() == 0 || !all_digits(digits) {
            None
        } else if negative {
            Some(-(decimal_value(digits) as int))
        } else {
            Some(decimal_value(digits) as int)
        }
    }
}

/// `integer_of`, kept only where the number lies between `lo` and `hi`.
pub open spec fn integer_within(text: Seq<char>, signed: bool, lo: int, hi: int) -> Option<int> {
    match integer_of(text, signed) {
        Some(v) => if lo <= v <= hi {
            Some(v)
        } else {
            None
        },
        None => None,
    }
}

/// The number that the digit `c` stands for.
fn digit_of(c: char) -> (d: u8)
    requires
        is_digit(c),
    ensures
        d == c as int - '0' as int,
{
    (c as u32 - 48) as u8
}

/// A longer run of digits never denotes less than one of its prefixes.
pub proof fn lemma_decimal_value_grows(digits: Seq<char>, k: int)
    requires
        0 <= k <= digits.len(),
    ensures
        decimal_value(digits.take(k)) <= decimal_value(digits),
    decreases digits.len(),
{
    if k == digits.len() {
        assert(digits.take(k) =~= digits);
    } else {
        assert(digits.drop_last().take(k) =~= digits.take(k));
        lemma_decimal_value_grows(digits.drop_last(), k);
    }
}

/// Reads a decimal integer between `lo` and `hi`. The text is rejected where
/// it is empty, holds anything but a sign and digits, or denotes a number
/// outside the range.
#[verifier::loop_isolation(false)]
pub fn parse_integer(text: &str, signed: bool, lo: i128, hi: i128) -> (out: Option<i128>)
    requires
        -0x8000_0000_0000_0000 <= lo <= 0,
        0 <= hi <= 0xffff_ffff_ffff_ffff,
    ensures
        out is Some <==> integer_within(text@, signed, lo as int, hi as int) is Some,
        out matches Some(v) ==> integer_within(text@, signed, lo as int, hi as int) == Some(
            v as int,
        ),
{
    let chars = chars_of(text);
    let n = chars.len();
    if n == 0 {
        return None;
    }
    let negative = signed && chars[0] == '-';
    let start: usize = if negative || chars[0] == '+' {
        1
    } else {
        0
    };
    if start == n {
        return None;
    }
    let bound: i128 = if negative {
        -lo
    } else {
        hi
    };
    let ghost digits = text@.subrange(start as int, n as int);
    assert(start == 0 ==> digits =~= text@);
    let mut acc: i128 = 0;
    let mut i: usize = start;
    while i < n
        invariant
            start <= i <= n,
            n == chars.len(),
            chars@ == text@,
            digits == text@.subrange(start as int, n as int),
            all_digits(digits.take(i - start)),
            acc == decimal_value(digits.take(i - start)),
            0 <= acc <= bound <= 0xffff_ffff_ffff_ffff,
        decreases n - i,
    {
        let c = chars[i];
        assert(digits[i - start] == c);
        if c < '0' || c > '9' {
            assert(!is_digit(digits[i - start]));
            return None;
        }
        let ghost longer = digits.take(i - start + 1);
        assert(longer.drop_last() =~= digits.take(i - start));
        assert(longer.last() == c);
        acc = acc * 10 + digit_of(c) as i128;
        assert(acc == decimal_value(longer));
        if acc > bound {
            proof {
                lemma_decimal_value_grows(digits, i - start + 1);
                if all_digits(digits) {
                    assert(decimal_value(digits) > bound);
                }
            }
            return None;
        }
        assert forall|j: int| 0 <= j < longer.len() implies is_digit(#[trigger] longer[j]) by {
            if j < i - start {
                assert(digits.take(i - start)[j] == longer[j]);
            }
        }
        i = i + 1;
    }
    assert(digits.take(n - start) =~= digits);
    if negative {
        Some(-acc)
    } else {
        Some(acc)
    }
}

/// The 64-bit signed integer that `text` denotes, where it denotes one.
pub open spec fn i64_of(text: Seq<char>) -> Option<i64> {
    match integer_within(text, true, i64::MIN as int, i64::MAX as int) {
        Some(v) => Some(v as i64),
        None => None,
    }
}

/// The 32-bit signed integer that `text` denotes, where it denotes one.
pub open spec fn i32_of(text: Seq<char>) -> Option<i32> {
    match integer_within(text, true, i32::MIN as int, i32::MAX as int) {
        Some(v) => Some(v as i32),
        None => None,
    }
}

/// Reads a 64-bit signed integer; `None` where the text denotes none.
pub fn parse_i64(text: &str) -> (out: Option<i64>)
    ensures
        out == i64_of(text@),
{
    match parse_integer(text, true, i64::MIN as i128, i64::MAX as i128) {
        Some(v) => Some(v as i64),
        None => None,
    }
}

/// Reads a 32-bit signed integer; `None` where the text denotes none.
pub fn parse_i32(text: &str) -> (out: Option<i32>)
    ensures
        out == i32_of(text@),
{
    match parse_integer(text, true, i32::MIN as i128, i32::MAX as i128) {
        Some(v) => Some(v as i32),
        None => None,
    }
}

/// The character that stands for the digit `d`.
pub open spec fn digit_char(d: nat) -> char {
    if d == 0 {
        '0'
    } else if d == 1 {
        '1'
    } else if d == 2 {
        '2'
    } else if d == 3 {
        '3'
    } else if d == 4 {
        '4'
    } else if d == 5 {
        '5'
    } else if d == 6 {
        '6'
    } else if d == 7 {
        '7'
    } else if d == 8 {
        '8'
    } else {
        '9'
    }
}

/// The decimal digits of `n`, most significant first, without leading zeros.
pub open spec fn decimal_digits(n: nat) -> Seq<char>
    decreases n,
{
    if n < 10 {
        seq![digit_char(n)]
    } else {
        decimal_digits(n / 10).push(digit_char(n % 10))
    }
}

/// The one-character text of a digit.
fn digit_text(d: u64) -> (text: &'static str)
    requires
        d < 10,
    ensures
        text@ == seq![digit_char(d as nat)],
{
    proof {
        reveal_strlit("0");
        reveal_strlit("1");
        reveal_strlit("2");
        reveal_strlit("3");
        reveal_strlit("4");
        reveal_strlit("5");
        reveal_strlit("6");
        reveal_strlit("7");
        reveal_strlit("8");
        reveal_strlit("9");
    }
    let text = if d == 0 {
        "0"
    } else if d == 1 {
        "1"
    } else if d == 2 {
        "2"
    } else if d == 3 {
        "3"
    } else if d == 4 {
        "4"
    } else if d == 5 {
        "5"
    } else if d == 6 {
        "6"
    } else if d == 7 {
        "7"
    } else if d == 8 {
        "8"
    } else {
        "9"
    };
    assert(text@ =~= seq![digit_char(d as nat)]);
    text
}

/// Writes a number in base ten.
pub fn format_decimal(n: u64) -> (text: String)
    ensures
        text@ == decimal_digits(n as nat),
    decreases n,
{
    if n < 10 {
        String::from_str(digit_text(n))
    } else {
        let mut text = format_decimal(n / 10);
        text.append(digit_text(n % 10));
        assert(text@ =~= decimal_digits((n / 10) as nat).push(digit_char((n % 10) as nat)));
        text
    }
}

/// The first `n` characters of `s`, or all of `s` where it has fewer.
pub fn prefix(s: &str, n: usize) -> (head: &str)
    ensures
        head@ == s@.take(if n <= s@.len() { n as int } else { s@.len() as int }),
{
    let len = s.unicode_len();
    let end = if n <= len {
        n
    } else {
        len
    };
    s.substring_char(0, end)
}

/// Whether two texts hold the same characters.
pub fn same_text(a: &str, b: &str) -> (same: bool)
    ensures
        same == (a@ == b@),
{
    String::from_str(a) == String::from_str(b)
}

/// The texts of `parts` in a row, with `separator` between each two.
pub open spec fn joined(parts: Seq<Seq<char>>, separator: Seq<char>) -> Seq<char>
    decreases parts.len(),
{
    if parts.len() == 0 {
        Seq::empty()
    } else if parts.len() == 1 {
        parts[0]
    } else {
        joined(parts.drop_last(), separator) + separator + parts.last()
    }
}

/// Joins texts with a separator.
pub fn join(parts: &Vec<String>, separator: &str) -> (text: String)
    ensures
        text@ == joined(parts.deep_view(), separator@),
{
    let mut text = String::new();
    let mut i: usize = 0;
    while i < parts.len()
        invariant
            i <= parts.len(),
            text@ == joined(parts.deep_view().take(i as int), separator@),
        decreases parts.len() - i,
    {
        let ghost before = parts.deep_view().take(i as int);
        let ghost after = parts.deep_view().take(i + 1);
        assert(after.drop_last() =~= before);
        assert(after.last() == parts[i as int]@);
        if i > 0 {
            text.append(separator);
        }
        text.append(parts[i].as_str());
        assert(text@ =~= joined(after, separator@));
        i = i + 1;
    }
    assert(parts.deep_view().take(i as int) =~= parts.deep_view());
    text
}

/// Whether `c` is white space: the characters that Unicode gives the
/// property `White_Space`.
pub open spec fn is_whitespace(c: char) -> bool {
    let n = c as int;
    ||| 0x09 <= n <= 0x0d
    ||| n == 0x20
    ||| n == 0x85
    ||| n == 0xa0
    ||| n == 0x1680
    ||| 0x2000 <= n <= 0x200a
    ||| n == 0x2028
    ||| n == 0x2029
    ||| n == 0x202f
    ||| n == 0x205f
    ||| n == 0x3000
}

/// Tells whether a character is white space.
pub fn char_is_whitespace(c: char) -> (white: bool)
    ensures
        white == is_whitespace(c),
{
    let n: u32 = c as u32;
    (0x09 <= n && n <= 0x0d) || n == 0x20 || n == 0x85 || n == 0xa0 || n == 0x1680 || (0x2000 <= n
        && n <= 0x200a) || n == 0x2028 || n == 0x2029 || n == 0x202f || n == 0x205f || n
        == 0x3000
}

/// `s` without the white space at its start.
pub open spec fn trimmed_start(s: Seq<char>) -> Seq<char>
    decreases s.len(),
{
    if s.len() > 0 && is_whitespace(s.first()) {
        trimmed_start(s.drop_first())
    } else {
        s
    }
}

/// `s` without the white space at its end.
pub open spec fn trimmed_end(s: Seq<char>) -> Seq<char>
    decreases s.len(),
{
    if s.len() > 0 && is_whitespace(s.last()) {
        trimmed_end(s.drop_last())
    } else {
        s
    }
}

/// `s` without the white space at its start and at its end.
pub open spec fn trimmed(s: Seq<char>) -> Seq<char> {
    trimmed_end(trimmed_start(s))
}

/// Takes the white space off both ends of a text.
pub fn trim(s: &str) -> (out: &str)
    ensures
        out@ == trimmed(s@),
{
    let chars = chars_of(s);
    let n = chars.len();
    let mut a: usize = 0;
    assert(s@.subrange(0, n as int) =~= s@);
    while a < n && char_is_whitespace(chars[a])
        invariant
            a <= n,
            n == chars.len(),
            chars@ == s@,
            trimmed_start(s@) == trimmed_start(s@.subrange(a as int, n as int)),
        decreases n - a,
    {
        assert(s@.subrange(a as int, n as int).drop_first() =~= s@.subrange(a + 1, n as int));
        a = a + 1;
    }
    let mut b: usize = n;
    while b > a && char_is_whitespace(chars[b - 1])
        invariant
            a <= b <= n,
            n == chars.len(),
            chars@ == s@,
            trimmed_start(s@) == s@.subrange(a as int, n as int),
            trimmed(s@) == trimmed_end(s@.subrange(a as int, b as int)),
        decreases b,
    {
        assert(s@.subrange(a as int, b as int).drop_last() =~= s@.subrange(a as int, b - 1));
        b = b - 1;
    }
    s.substring_char(a, b)
}

/// The place of the first `c` in `s`, or the length of `s` where it holds
/// none.
pub open spec fn first_index_of(s: Seq<char>, c: char) -> int
    decreases s.len(),
{
    if s.len() == 0 {
        0
    } else if s.first() == c {
        0
    } else {
        1 + first_index_of(s.drop_first(), c)
    }
}

/// The two parts of `s` around its first `c`, where it holds one.
pub open spec fn split_at_first(s: Seq<char>, c: char) -> Option<(Seq<char>, Seq<char>)> {
    let at = first_index_of(s, c);
    if at < s.len() {
        Some((s.take(at), s.skip(at + 1)))
    } else {
        None
    }
}

/// The first index at which `c` stands is `first_index_of`.
pub proof fn lemma_first_index_is(s: Seq<char>, c: char, at: int)
    requires
        0 <= at <= s.len(),
        at < s.len() ==> s[at] == c,
        forall|i: int| 0 <= i < at ==> s[i] != c,
    ensures
        first_index_of(s, c) == at,
    decreases s.len(),
{
    if s.len() > 0 && at > 0 {
        let rest = s.drop_first();
        assert(s.first() == s[0]);
        assert forall|i: int| 0 <= i < at - 1 implies rest[i] != c by {
            assert(rest[i] == s[i + 1]);
        }
        lemma_first_index_is(rest, c, at - 1);
    }
}

/// Splits a text at its first `c`: what stands before it and what stands
/// behind it. A text without `c` is not split.
pub fn split_once(s: &str, c: char) -> (out: Option<(&str, &str)>)
    ensures
        match out {
            Some((head, tail)) => split_at_first(s@, c) == Some((head@, tail@)),
            None => split_at_first(s@, c) is None,
        },
{
    let chars = chars_of(s);
    let n = chars.len();
    let mut at: usize = 0;
    while at < n && chars[at] != c
        invariant
            at <= n,
            n == chars.len(),
            chars@ == s@,
            forall|i: int| 0 <= i < at ==> s@[i] != c,
        decreases n - at,
    {
        at = at + 1;
    }
    proof {
        lemma_first_index_is(s@, c, at as int);
    }
    if at < n {
        Some((s.substring_char(0, at), s.substring_char(at + 1, n)))
    } else {
        None
    }
}

/// The pieces of `s` between the occurrences of `separator`. A text without
/// the separator is one piece, the empty text too.
pub open spec fn pieces(s: Seq<char>, separator: char) -> Seq<Seq<char>>
    decreases s.len(),
{
    if s.len() == 0 {
        seq![Seq::empty()]
    } else {
        let before = pieces(s.drop_last(), separator);
        if s.last() == separator {
            before.push(Seq::empty())
        } else {
            before.drop_last().push(before.last().push(s.last()))
        }
    }
}

/// Splits a text at every `separator` and takes the white space off both
/// ends of each piece.
pub fn split_trimmed(s: &str, separator: char) -> (out: Vec<String>)
    ensures
        out.deep_view() == pieces(s@, separator).map_values(|piece: Seq<char>| trimmed(piece)),
{
    let chars = chars_of(s);
    let n = chars.len();
    let mut out: Vec<String> = Vec::new();
    let mut start: usize = 0;
    let mut i: usize = 0;
    let ghost mut done: Seq<Seq<char>> = Seq::empty();
    assert(s@.take(0) =~= Seq::<char>::empty());
    assert(s@.subrange(0, 0) =~= Seq::<char>::empty());
    assert(pieces(s@.take(0), separator) =~= done.push(s@.subrange(0, 0)));
    assert(out.deep_view() =~= done.map_values(|piece: Seq<char>| trimmed(piece)));
    while i < n
        invariant
            start <= i <= n,
            n == chars.len(),
            chars@ == s@,
            pieces(s@.take(i as int), separator) == done.push(s@.subrange(start as int, i as int)),
            out.deep_view() == done.map_values(|piece: Seq<char>| trimmed(piece)),
        decreases n - i,
    {
        let ghost seen = s@.take(i as int);
        let ghost more = s@.take(i + 1);
        assert(more.drop_last() =~= seen);
        assert(more.last() == chars[i as int]);
        if chars[i] == separator {
            let piece = String::from_str(trim(s.substring_char(start, i)));
            let ghost held = out.deep_view();
            out.push(piece);
            proof {
                let closed = s@.subrange(start as int, i as int);
                assert(out.deep_view() =~= held.push(trimmed(closed)));
                done = done.push(closed);
                assert(out.deep_view() =~= done.map_values(|piece: Seq<char>| trimmed(piece)));
                assert(s@.subrange(i + 1, i + 1) =~= Seq::<char>::empty());
            }
            start = i + 1;
        } else {
            proof {
                let open = s@.subrange(start as int, i as int);
                assert(done.push(open).drop_last() =~= done);
                assert(open.push(chars[i as int]) =~= s@.subrange(start as int, i + 1));
            }
        }
        i = i + 1;
    }
    let piece = String::from_str(trim(s.substring_char(start, n)));
    let ghost held = out.deep_view();
    out.push(piece);
    proof {
        let last = s@.subrange(start as int, n as int);
        assert(s@.take(n as int) =~= s@);
        assert(out.deep_view() =~= held.push(trimmed(last)));
        assert(out.deep_view() =~= done.push(last).map_values(|piece: Seq<char>| trimmed(piece)));
    }
    out
}

/// The truth value that `text` names: `true` or `false`, spelled exactly so.
pub open spec fn bool_of(text: Seq<char>) -> Option<bool> {
    if text == "true"@ {
        Some(true)
    } else if text == "false"@ {
        Some(false)
    } else {
        None
    }
}

/// Reads a truth value; `None` where the text is neither `true` nor `false`.
pub fn parse_bool(text: &str) -> (out: Option<bool>)
    ensures
        out == bool_of(text@),
{
    if same_text(text, "true") {
        Some(true)
    } else if same_text(text, "false") {
        Some(false)
    } else {
        None
    }
}

/// The decimal text of an integer: its digits, behind a `-` where it is
/// negative.
pub open spec fn signed_digits(n: int) -> Seq<char> {
    if n < 0 {
        "-"@ + decimal_digits((-n) as nat)
    } else {
        decimal_digits(n as nat)
    }
}

/// Writes a signed number in base ten.
pub fn format_signed(n: i64) -> (text: String)
    ensures
        text@ == signed_digits(n as int),
{
    if n < 0 {
        let magnitude: u64 = if n == i64::MIN {
            0x8000_0000_0000_0000
        } else {
            (-n) as u64
        };
        let mut text = String::from_str("-");
        text.append(format_decimal(magnitude).as_str());
        text
    } else {
        format_decimal(n as u64)
    }
}

} // verus!
