//! Number text: which values count as numeric literals, how an unsigned number
//! is written in decimal, and how one is read back.

use vstd::prelude::*;
use vstd::string::*;
use crate::text::to_chars;

verus! {

/// An ASCII decimal digit.
pub open spec fn is_digit(c: char) -> bool {
    '0' <= c && c <= '9'
}

/// Every character is a decimal digit.
pub open spec fn all_digits(s: Seq<char>) -> bool {
    forall|i: int| 0 <= i < s.len() ==> is_digit(#[trigger] s[i])
}

/// The number of digits that `s` starts with.
pub open spec fn digit_run(s: Seq<char>) -> nat
    decreases s.len(),
{
    if s.len() > 0 && is_digit(s.first()) {
        1 + digit_run(s.drop_first())
    } else {
        0
    }
}

/// `s` without one leading `+` or `-`.
pub open spec fn without_sign(s: Seq<char>) -> Seq<char> {
    if s.len() > 0 && (s[0] == '+' || s[0] == '-') {
        s.drop_first()
    } else {
        s
    }
}

/// An exponent: `e` or `E`, an optional sign, and at least one digit.
pub open spec fn is_exponent(s: Seq<char>) -> bool {
    &&& s.len() > 0
    &&& (s[0] == 'e' || s[0] == 'E')
    &&& without_sign(s.drop_first()).len() > 0
    &&& all_digits(without_sign(s.drop_first()))
}

/// A mantissa with its decimal point at `point`: digits, of which there is at
/// least one, with the point before, among or after them.
pub open spec fn is_mantissa_with_point(s: Seq<char>, point: int) -> bool {
    &&& 0 <= point < s.len()
    &&& s[point] == '.'
    &&& all_digits(s.take(point))
    &&& all_digits(s.skip(point + 1))
    &&& s.len() > 1
}

/// A mantissa: one or more digits, with at most one decimal point before,
/// among or after them.
pub open spec fn is_mantissa(s: Seq<char>) -> bool {
    ||| (s.len() > 0 && all_digits(s))
    ||| exists|point: int| is_mantissa_with_point(s, point)
}

/// `s` is a mantissa of `end` characters, followed by nothing or by an
/// exponent.
pub open spec fn is_number_with_mantissa(s: Seq<char>, end: int) -> bool {
    &&& 0 <= end <= s.len()
    &&& is_mantissa(s.take(end))
    &&& (end == s.len() || is_exponent(s.skip(end)))
}

/// An unsigned decimal number: a mantissa, and optionally an exponent.
pub open spec fn is_decimal_number(s: Seq<char>) -> bool {
    exists|end: int| is_number_with_mantissa(s, end)
}

/// What follows the whole part of a number: the text after the longest run of
/// leading digits.
pub open spec fn after_whole(s: Seq<char>) -> Seq<char> {
    s.skip(digit_run(s) as int)
}

/// A decimal point follows the whole part.
pub open spec fn has_point(s: Seq<char>) -> bool {
    after_whole(s).len() > 0 && after_whole(s)[0] == '.'
}

/// The number of digits of the fractional part (0 without a decimal point).
pub open spec fn fraction_digits(s: Seq<char>) -> nat {
    if has_point(s) {
        digit_run(after_whole(s).drop_first())
    } else {
        0
    }
}

/// What follows the whole part, the point and the fractional part.
pub open spec fn after_mantissa(s: Seq<char>) -> Seq<char> {
    if has_point(s) {
        after_whole(s).skip(1 + fraction_digits(s) as int)
    } else {
        after_whole(s)
    }
}

/// How a decimal number is recognised in one pass from the left: the longest
/// run of digits, a point and the longest run of digits after it if a point
/// follows, at least one digit in all, and then nothing or an exponent.
pub open spec fn scans_as_number(s: Seq<char>) -> bool {
    &&& digit_run(s) + fraction_digits(s) > 0
    &&& (after_mantissa(s).len() == 0 || is_exponent(after_mantissa(s)))
}

/// The leading digits of a text: how many there are at most, that they are
/// digits, and that no digit follows them.
pub proof fn lemma_digit_run_is_longest(s: Seq<char>)
    ensures
        digit_run(s) <= s.len(),
        all_digits(s.take(digit_run(s) as int)),
        digit_run(s) < s.len() ==> !is_digit(s[digit_run(s) as int]),
    decreases s.len(),
{
    if s.len() > 0 && is_digit(s.first()) {
        let rest = s.drop_first();
        lemma_digit_run_is_longest(rest);
        let n = digit_run(rest) as int;
        assert forall|i: int| 0 <= i < n + 1 implies is_digit(#[trigger] s.take(n + 1)[i]) by {
            if i > 0 {
                assert(s.take(n + 1)[i] == rest.take(n)[i - 1]);
            }
        }
        if n + 1 < s.len() {
            assert(s[n + 1] == rest[n]);
        }
    }
}

/// The one-pass recognition accepts exactly the decimal numbers.
pub proof fn lemma_scan_recognises_numbers(s: Seq<char>)
    ensures
        scans_as_number(s) == is_decimal_number(s),
{
    let whole = digit_run(s) as int;
    lemma_digit_run_is_longest(s);
    if scans_as_number(s) {
        if has_point(s) {
            let after_point = after_whole(s).drop_first();
            let fraction = digit_run(after_point) as int;
            lemma_digit_run_is_longest(after_point);
            let end = whole + 1 + fraction;
            let mantissa = s.take(end);
            assert(after_whole(s)[0] == s[whole]);
            assert(mantissa.take(whole) =~= s.take(whole));
            assert(mantissa.skip(whole + 1) =~= after_point.take(fraction));
            assert(is_mantissa_with_point(mantissa, whole));
            assert(after_mantissa(s) =~= s.skip(end));
            assert(is_number_with_mantissa(s, end));
        } else {
            assert(is_number_with_mantissa(s, whole));
        }
    }
    if is_decimal_number(s) {
        let end = choose|end: int| is_number_with_mantissa(s, end);
        let mantissa = s.take(end);
        if end < s.len() {
            assert(s.skip(end)[0] == s[end]);
        }
        if mantissa.len() > 0 && all_digits(mantissa) {
            assert forall|i: int| 0 <= i < end implies is_digit(#[trigger] s[i]) by {
                assert(s[i] == mantissa[i]);
            }
            lemma_digit_run(s, 0, end);
            assert(s.skip(0) =~= s);
            assert(whole == end);
        } else {
            let point = choose|point: int| is_mantissa_with_point(mantissa, point);
            assert(s[point] == mantissa[point]);
            assert forall|i: int| 0 <= i < point implies is_digit(#[trigger] s[i]) by {
                assert(s[i] == mantissa.take(point)[i]);
            }
            lemma_digit_run(s, 0, point);
            assert(s.skip(0) =~= s);
            assert(whole == point);
            assert(after_whole(s)[0] == s[point]);
            assert forall|i: int| point + 1 <= i < end implies is_digit(#[trigger] s[i]) by {
                assert(s[i] == mantissa.skip(point + 1)[i - point - 1]);
            }
            lemma_digit_run(s, point + 1, end);
            assert(after_whole(s).drop_first() =~= s.skip(point + 1));
            assert(after_mantissa(s) =~= s.skip(end));
        }
    }
}

/// `c` is the lower-case ASCII letter `lower` or its upper-case form `upper`.
pub open spec fn is_letter(c: char, lower: char, upper: char) -> bool {
    c == lower || c == upper
}

/// One of the words `inf`, `infinity` and `nan`, in any mix of ASCII cases.
pub open spec fn is_special_number(s: Seq<char>) -> bool {
    ||| (s.len() == 3 && is_letter(s[0], 'i', 'I') && is_letter(s[1], 'n', 'N') && is_letter(
        s[2],
        'f',
        'F',
    ))
    ||| (s.len() == 3 && is_letter(s[0], 'n', 'N') && is_letter(s[1], 'a', 'A') && is_letter(
        s[2],
        'n',
        'N',
    ))
    ||| (s.len() == 8 && is_letter(s[0], 'i', 'I') && is_letter(s[1], 'n', 'N') && is_letter(
        s[2],
        'f',
        'F',
    ) && is_letter(s[3], 'i', 'I') && is_letter(s[4], 'n', 'N') && is_letter(s[5], 'i', 'I')
        && is_letter(s[6], 't', 'T') && is_letter(s[7], 'y', 'Y'))
}

/// The values that are rendered bare in numeric-sniffing mode: the texts that
/// read as a floating-point number. That is an optional sign followed by
/// either a decimal number or one of the words `inf`, `infinity`, `nan`.
/// Nothing else is accepted: no surrounding whitespace, no digit separators,
/// no digits other than the ASCII ones.
pub open spec fn is_numeric(s: Seq<char>) -> bool {
    is_special_number(without_sign(s)) || is_decimal_number(without_sign(s))
}

fn char_is_digit(c: char) -> (b: bool)
    ensures
        b == is_digit(c),
{
    '0' <= c && c <= '9'
}

fn char_is_letter(c: char, lower: char, upper: char) -> (b: bool)
    ensures
        b == is_letter(c, lower, upper),
{
    c == lower || c == upper
}

/// `digit_run` of the text from `from` on, given where its digits end.
proof fn lemma_digit_run(s: Seq<char>, from: int, to: int)
    requires
        0 <= from <= to <= s.len(),
        forall|i: int| from <= i < to ==> is_digit(#[trigger] s[i]),
        to < s.len() ==> !is_digit(s[to]),
    ensures
        digit_run(s.skip(from)) == to - from,
    decreases to - from,
{
    let t = s.skip(from);
    if from < to {
        assert(t.first() == s[from]);
        lemma_digit_run(s, from + 1, to);
        assert(t.drop_first() =~= s.skip(from + 1));
    } else if to < s.len() {
        assert(t.first() == s[to]);
    }
}

/// Skips the digits from `from` on and returns where they end.
fn skip_digits(chars: &Vec<char>, from: usize) -> (to: usize)
    requires
        from <= chars.len(),
    ensures
        from <= to <= chars.len(),
        to - from == digit_run(chars@.skip(from as int)),
        forall|i: int| from <= i < to ==> is_digit(#[trigger] chars@[i]),
        to < chars.len() ==> !is_digit(chars@[to as int]),
{
    let mut to: usize = from;
    while to < chars.len() && char_is_digit(chars[to])
        invariant
            from <= to <= chars.len(),
            forall|i: int| from <= i < to ==> is_digit(#[trigger] chars@[i]),
        decreases chars.len() - to,
    {
        to = to + 1;
    }
    proof {
        lemma_digit_run(chars@, from as int, to as int);
    }
    to
}

fn special_number_at(chars: &Vec<char>, from: usize) -> (b: bool)
    requires
        from <= chars.len(),
    ensures
        b == is_special_number(chars@.skip(from as int)),
{
    let n = chars.len() - from;
    let ghost s = chars@.skip(from as int);
    if n == 3 {
        let c0 = chars[from];
        let c1 = chars[from + 1];
        let c2 = chars[from + 2];
        assert(s[0] == c0 && s[1] == c1 && s[2] == c2);
        (char_is_letter(c0, 'i', 'I') && char_is_letter(c1, 'n', 'N') && char_is_letter(
            c2,
            'f',
            'F',
        )) || (char_is_letter(c0, 'n', 'N') && char_is_letter(c1, 'a', 'A') && char_is_letter(
            c2,
            'n',
            'N',
        ))
    } else if n == 8 {
        assert(s[0] == chars[from as int] && s[1] == chars[from + 1] && s[2] == chars[from + 2]
            && s[3] == chars[from + 3] && s[4] == chars[from + 4] && s[5] == chars[from + 5]
            && s[6] == chars[from + 6] && s[7] == chars[from + 7]);
        char_is_letter(chars[from], 'i', 'I') && char_is_letter(chars[from + 1], 'n', 'N')
            && char_is_letter(chars[from + 2], 'f', 'F') && char_is_letter(
            chars[from + 3],
            'i',
            'I',
        ) && char_is_letter(chars[from + 4], 'n', 'N') && char_is_letter(
            chars[from + 5],
            'i',
            'I',
        ) && char_is_letter(chars[from + 6], 't', 'T') && char_is_letter(
            chars[from + 7],
            'y',
            'Y',
        )
    } else {
        false
    }
}

fn exponent_at(chars: &Vec<char>, from: usize) -> (b: bool)
    requires
        from < chars.len(),
    ensures
        b == is_exponent(chars@.skip(from as int)),
{
    let ghost s = chars@.skip(from as int);
    let n = chars.len();
    assert(s[0] == chars@[from as int]);
    if !(chars[from] == 'e' || chars[from] == 'E') {
        return false;
    }
    let mut at: usize = from + 1;
    assert(s.drop_first() =~= chars@.skip(at as int));
    if at < n && (chars[at] == '+' || chars[at] == '-') {
        assert(chars@.skip(at as int)[0] == chars@[at as int]);
        assert(chars@.skip(at as int).drop_first() =~= chars@.skip(at + 1));
        at = at + 1;
    } else if at < n {
        assert(chars@.skip(at as int)[0] == chars@[at as int]);
    }
    let ghost digits = chars@.skip(at as int);
    assert(digits == without_sign(s.drop_first()));
    let end = skip_digits(chars, at);
    proof {
        if end == n {
            assert forall|i: int| 0 <= i < digits.len() implies is_digit(
                #[trigger] digits[i],
            ) by {
                assert(digits[i] == chars@[at + i]);
            }
        } else {
            assert(digits[end - at] == chars@[end as int]);
        }
    }
    at < n && end == n
}

/// Tells whether a value reads as a number, and is therefore rendered bare in
/// numeric-sniffing mode.
pub fn value_is_numeric(value: &str) -> (b: bool)
    ensures
        b == is_numeric(value@),
{
    let chars = to_chars(value);
    let n = chars.len();
    let mut at: usize = 0;
    if n > 0 && (chars[0] == '+' || chars[0] == '-') {
        at = 1;
        assert(chars@.drop_first() =~= chars@.skip(1));
    } else {
        assert(chars@ =~= chars@.skip(0));
    }
    let ghost body = chars@.skip(at as int);
    assert(body == without_sign(value@));
    if special_number_at(&chars, at) {
        return true;
    }
    let whole_end = skip_digits(&chars, at);
    let ghost rest = after_whole(body);
    assert(rest =~= chars@.skip(whole_end as int));
    let mut mantissa_end = whole_end;
    if whole_end < n && chars[whole_end] == '.' {
        assert(rest[0] == chars@[whole_end as int]);
        assert(rest.drop_first() =~= chars@.skip(whole_end + 1));
        mantissa_end = skip_digits(&chars, whole_end + 1);
        assert(rest.skip(1 + fraction_digits(body) as int) =~= chars@.skip(mantissa_end as int));
    } else if whole_end < n {
        assert(rest[0] == chars@[whole_end as int]);
    }
    assert(after_mantissa(body) =~= chars@.skip(mantissa_end as int));
    let digits = (whole_end - at) + (mantissa_end - whole_end);
    let has_point = mantissa_end > whole_end;
    let digit_count = if has_point {
        digits - 1
    } else {
        digits
    };
    assert(digit_count == digit_run(body) + fraction_digits(body));
    proof {
        lemma_scan_recognises_numbers(body);
    }
    if digit_count == 0 {
        return false;
    }
    if mantissa_end == n {
        return true;
    }
    exponent_at(&chars, mantissa_end)
}

/// The character that stands for a digit value below ten.
pub open spec fn digit_char(d: nat) -> char {
    (('0' as nat) + d) as char
}

/// A number written in decimal, without sign, padding or leading zeros.
pub open spec fn decimal(n: nat) -> Seq<char>
    decreases n,
{
    if n < 10 {
        seq![digit_char(n)]
    } else {
        decimal(n / 10).push(digit_char(n % 10))
    }
}

/// A decimal rendering is never empty and holds digits only.
pub proof fn lemma_decimal_digits(n: nat)
    ensures
        decimal(n).len() > 0,
        all_digits(decimal(n)),
    decreases n,
{
    if n >= 10 {
        lemma_decimal_digits(n / 10);
    }
}

fn digit_str(d: u32) -> (s: &'static str)
    requires
        d < 10,
    ensures
        s@ == seq![digit_char(d as nat)],
{
    proof {
        reveal_strlit("0");
        reveal_strlit("1");
        reveal_strlit("2");
        reveal_strlit("3");
        reveal_strlit("4");
        reveal_strlit("5");
        reveal_strlit("6");
        reveal_strlit("7");
        reveal_strlit("8");
        reveal_strlit("9");
    }
    let s = if d == 0 {
        "0"
    } else if d == 1 {
        "1"
    } else if d == 2 {
        "2"
    } else if d == 3 {
        "3"
    } else if d == 4 {
        "4"
    } else if d == 5 {
        "5"
    } else if d == 6 {
        "6"
    } else if d == 7 {
        "7"
    } else if d == 8 {
        "8"
    } else {
        "9"
    };
    assert(s@ =~= seq![digit_char(d as nat)]);
    s
}

/// Writes a number in decimal.
pub fn decimal_string(n: u32) -> (out: String)
    ensures
        out@ == decimal(n as nat),
    decreases n,
{
    if n < 10 {
        String::from_str(digit_str(n))
    } else {
        let mut out = decimal_string(n / 10);
        out.append(digit_str(n % 10));
        assert(out@ =~= decimal(n as nat));
        out
    }
}

/// The value of a decimal digit.
pub open spec fn digit_value(c: char) -> nat {
    (c as nat - '0' as nat) as nat
}

/// The value of a run of decimal digits; the empty run has value 0.
pub open spec fn digits_value(s: Seq<char>) -> nat
    decreases s.len(),
{
    if s.len() == 0 {
        0
    } else {
        digits_value(s.drop_last()) * 10 + digit_value(s.last())
    }
}

/// `s` without one leading `+`.
pub open spec fn without_plus(s: Seq<char>) -> Seq<char> {
    if s.len() > 0 && s[0] == '+' {
        s.drop_first()
    } else {
        s
    }
}

/// The unsigned 32-bit number that a text stands for: an optional `+`, then
/// one or more decimal digits whose value fits in 32 bits. Any other text
/// stands for no number.
pub open spec fn parsed_u32(s: Seq<char>) -> Option<u32> {
    let digits = without_plus(s);
    if digits.len() > 0 && all_digits(digits) && digits_value(digits) <= u32::MAX {
        Some(digits_value(digits) as u32)
    } else {
        None
    }
}

/// The value of a run of digits is at least the value of each of its prefixes.
proof fn lemma_digits_value_grows(s: Seq<char>, k: int)
    requires
        0 <= k <= s.len(),
    ensures
        digits_value(s.take(k)) <= digits_value(s),
    decreases s.len() - k,
{
    if k == s.len() {
        assert(s.take(k) =~= s);
    } else {
        lemma_digits_value_grows(s.drop_last(), k);
        assert(s.drop_last().take(k) =~= s.take(k));
    }
}

fn digit_of(c: char) -> (d: u64)
    requires
        is_digit(c),
    ensures
        d == digit_value(c),
        d < 10,
{
    (c as u64) - ('0' as u64)
}

/// Reads an unsigned 32-bit number.
pub fn parse_u32(s: &str) -> (r: Option<u32>)
    ensures
        r == parsed_u32(s@),
{
    let chars = to_chars(s);
    let n = chars.len();
    let mut i: usize = 0;
    if n > 0 && chars[0] == '+' {
        i = 1;
        assert(chars@.drop_first() =~= chars@.skip(1));
    } else {
        assert(chars@ =~= chars@.skip(0));
    }
    let start = i;
    let ghost digits = chars@.skip(start as int);
    assert(digits == without_plus(s@));
    if start == n {
        return None;
    }
    let mut value: u64 = 0;
    assert(digits.take(0) =~= Seq::<char>::empty());
    while i < n
        invariant
            start <= i <= n,
            n == chars.len(),
            digits == chars@.skip(start as int),
            digits == without_plus(s@),
            value == digits_value(digits.take(i - start)),
            value <= u32::MAX,
            forall|j: int| 0 <= j < i - start ==> is_digit(#[trigger] digits[j]),
        decreases n - i,
    {
        let c = chars[i];
        assert(digits[i - start] == c);
        if !char_is_digit(c) {
            return None;
        }
        let ghost next = digits.take(i - start + 1);
        assert(next.drop_last() =~= digits.take(i - start));
        assert(next.last() == c);
        value = value * 10 + digit_of(c);
        if value > 0xffff_ffff {
            proof {
                lemma_digits_value_grows(digits, i - start + 1);
            }
            return None;
        }
        i = i + 1;
    }
    assert(digits.take(i - start) =~= digits);
    Some(value as u32)
}

} // verus!
