//! Integers as text: rendering in a base, zero padding, and decimal parsing.
use vstd::prelude::*;

use crate::text;

verus! {

/// The character that stands for the digit `d`, in lower case beyond nine.
pub open spec fn digit_char(d: nat) -> char {
    if d < 10 {
        (48 + d) as char
    } else {
        (87 + d) as char
    }
}

/// The digits of `n` in the given base, without leading zeros.
pub open spec fn digits(n: nat, base: nat) -> Seq<char>
    decreases n,
{
    if base < 2 || n < base {
        seq![digit_char(n)]
    } else {
        proof {
            vstd::arithmetic::div_mod::lemma_div_decreases(n as int, base as int);
        }
        digits(n / base, base).push(digit_char(n % base))
    }
}

/// The decimal digits of `n`.
pub open spec fn decimal(n: nat) -> Seq<char> {
    digits(n, 10)
}

/// Puts zeros in front of `s` up to the given width; a longer text is kept whole.
pub open spec fn zero_padded(s: Seq<char>, width: nat) -> Seq<char> {
    if s.len() < width {
        Seq::new((width - s.len()) as nat, |i: int| '0') + s
    } else {
        s
    }
}

/// The ASCII decimal digits.
pub open spec fn is_digit(c: char) -> bool {
    '0' <= c <= '9'
}

/// One ASCII decimal digit or more, and nothing else.
pub open spec fn all_digits(s: Seq<char>) -> bool {
    &&& s.len() > 0
    &&& forall|i: int| 0 <= i < s.len() ==> is_digit(#[trigger] s[i])
}

/// The number that a run of decimal digits stands for.
pub open spec fn decimal_value(s: Seq<char>) -> nat
    decreases s.len(),
{
    if s.len() == 0 {
        0
    } else {
        decimal_value(s.drop_last()) * 10 + (s.last() as nat - 48) as nat
    }
}

/// The text behind an optional leading `sign`.
pub open spec fn without_sign(s: Seq<char>, sign: char) -> Seq<char> {
    if s.len() > 0 && s[0] == sign {
        s.skip(1)
    } else {
        s
    }
}

/// The number that `s` stands for as a non-negative integer of at most `max`: an optional
/// plus sign, then decimal digits only.
pub open spec fn parsed_unsigned(s: Seq<char>, max: nat) -> Option<nat> {
    let body = without_sign(s, '+');
    if all_digits(body) && decimal_value(body) <= max {
        Some(decimal_value(body))
    } else {
        None
    }
}

/// The number that `s` stands for as a signed 32-bit integer: an optional sign, then decimal
/// digits only.
pub open spec fn parsed_i32(s: Seq<char>) -> Option<int> {
    if s.len() > 0 && s[0] == '-' {
        let body = s.skip(1);
        if all_digits(body) && decimal_value(body) <= 0x8000_0000 {
            Some(-(decimal_value(body) as int))
        } else {
            None
        }
    } else {
        match parsed_unsigned(s, 0x7fff_ffff) {
            Some(n) => Some(n as int),
            None => None,
        }
    }
}

/// Renders a digit below sixteen.
pub fn digit(d: u8) -> (c: char)
    requires
        d < 16,
    ensures
        c == digit_char(d as nat),
{
    if d < 10 {
        (48 + d) as char
    } else {
        (87 + d) as char
    }
}

/// Appends the digits of `n` in the given base.
pub fn push_digits(out: &mut String, n: u64, base: u64)
    requires
        2 <= base <= 16,
    ensures
        final(out)@ == old(out)@ + digits(n as nat, base as nat),
    decreases n,
{
    if n < base {
        out.push(digit(n as u8));
    } else {
        proof {
            vstd::arithmetic::div_mod::lemma_div_decreases(n as int, base as int);
        }
        push_digits(out, n / base, base);
        out.push(digit((n % base) as u8));
    }
}

/// Appends the decimal digits of `n`, with zeros in front up to the given width.
pub fn push_padded(out: &mut String, n: u64, width: usize)
    ensures
        final(out)@ == old(out)@ + zero_padded(decimal(n as nat), width as nat),
{
    let mut body = String::new();
    push_digits(&mut body, n, 10);
    let len = body.as_str().unicode_len();
    let mut i: usize = len;
    let ghost before = out@;
    while i < width
        invariant
            len <= i,
            i <= width || i == len,
            out@ == before + Seq::new((i - len) as nat, |k: int| '0'),
        decreases width - i,
    {
        out.push('0');
        i += 1;
    }
    out.append(body.as_str());
}

/// Parses a run of decimal digits into a number of at most `max`.
fn parse_digits(v: &[char], max: u64) -> (r: Option<u64>)
    requires
        max <= 0xffff_ffff,
    ensures
        r == if all_digits(v@) && decimal_value(v@) <= max {
            Some(decimal_value(v@) as u64)
        } else {
            None
        },
{
    if v.len() == 0 {
        return None;
    }
    let mut acc: u64 = 0;
    for i in 0..v.len()
        invariant
            max <= 0xffff_ffff,
            acc <= max,
            acc == decimal_value(v@.take(i as int)),
            forall|k: int| 0 <= k < i ==> is_digit(#[trigger] v@[k]),
    {
        let c = v[i];
        assert(v@.take(i + 1).drop_last() == v@.take(i as int));
        if c < '0' || c > '9' {
            return None;
        }
        acc = acc * 10 + (c as u64 - 48);
        if acc > max {
            proof {
                lemma_decimal_value_grows(v@, i + 1);
            }
            return None;
        }
    }
    assert(v@.take(v@.len() as int) == v@);
    Some(acc)
}

/// Parses a 32-bit unsigned integer: an optional plus sign, then decimal digits only.
pub fn parse_u32(s: &str) -> (r: Option<u32>)
    ensures
        r == match parsed_unsigned(s@, 0xffff_ffff) {
            Some(n) => Some(n as u32),
            None => None,
        },
{
    let v = text::chars_of(s);
    let body = if v.len() > 0 && v[0] == '+' {
        vstd::slice::slice_subrange(v.as_slice(), 1, v.len())
    } else {
        v.as_slice()
    };
    assert(v@.skip(1) == v@.subrange(1, v@.len() as int) || v@.len() == 0);
    match parse_digits(body, 0xffff_ffff) {
        Some(n) => Some(n as u32),
        None => None,
    }
}

/// Parses a 32-bit signed integer: an optional sign, then decimal digits only.
pub fn parse_i32(s: &str) -> (r: Option<i32>)
    ensures
        r == match parsed_i32(s@) {
            Some(n) => Some(n as i32),
            None => None,
        },
{
    let v = text::chars_of(s);
    if v.len() > 0 && v[0] == '-' {
        let body = vstd::slice::slice_subrange(v.as_slice(), 1, v.len());
        assert(body@ == v@.skip(1));
        match parse_digits(body, 0x8000_0000) {
            Some(n) => Some((0 - n as i64) as i32),
            None => None,
        }
    } else {
        let body = if v.len() > 0 && v[0] == '+' {
            vstd::slice::slice_subrange(v.as_slice(), 1, v.len())
        } else {
            v.as_slice()
        };
        assert(v@.skip(1) == v@.subrange(1, v@.len() as int) || v@.len() == 0);
        match parse_digits(body, 0x7fff_ffff) {
            Some(n) => Some(n as i32),
            None => None,
        }
    }
}

proof fn lemma_decimal_value_grows(s: Seq<char>, n: int)
    requires
        0 <= n <= s.len(),
    ensures
        decimal_value(s.take(n)) <= decimal_value(s),
    decreases s.len() - n,
{
    if n < s.len() {
        lemma_decimal_value_grows(s, n + 1);
        assert(s.take(n + 1).drop_last() == s.take(n));
    } else {
        assert(s.take(n) == s);
    }
}

/// Decimal rendering is digits only, and parsing them gives the number back.
pub proof fn law_decimal_round_trip(n: nat)
    ensures
        all_digits(decimal(n)),
        decimal_value(decimal(n)) == n,
    decreases n,
{
    if n >= 10 {
        law_decimal_round_trip(n / 10);
        assert(decimal(n).drop_last() == decimal(n / 10));
        assert(decimal(n).last() == digit_char(n % 10));
    } else {
        assert(decimal(n).drop_last() == Seq::<char>::empty());
        assert(decimal(n).last() == digit_char(n));
        assert(decimal_value(Seq::<char>::empty()) == 0);
    }
}

/// Every 32-bit unsigned integer parses back from its decimal rendering.
pub proof fn law_parse_inverts_decimal(n: u32)
    ensures
        parsed_unsigned(decimal(n as nat), 0xffff_ffff) == Some(n as nat),
{
    law_decimal_round_trip(n as nat);
    assert(is_digit(decimal(n as nat)[0]));
}

/// Two numbers with the same decimal rendering are equal.
pub proof fn law_decimal_injective(a: nat, b: nat)
    requires
        decimal(a) == decimal(b),
    ensures
        a == b,
{
    law_decimal_round_trip(a);
    law_decimal_round_trip(b);
}

/// The digits below sixteen.
pub proof fn law_digit_char(d: nat)
    requires
        d < 16,
    ensures
        digit_char(d) == "0123456789abcdef"@[d as int],
{
    reveal_strlit("0123456789abcdef");
}

/// A number below the base is one digit; with one more digit behind it, a number is as many
/// times itself as the base says, plus that digit.
pub proof fn law_digits_grow(n: nat, base: nat, d: nat)
    requires
        2 <= base <= 16,
        d < base,
    ensures
        digits(d, base) == seq!["0123456789abcdef"@[d as int]],
        n > 0 ==> digits(n * base + d, base) == digits(n, base).push(
            "0123456789abcdef"@[d as int],
        ),
{
    law_digit_char(d);
    if n > 0 {
        let m = n * base + d;
        vstd::arithmetic::div_mod::lemma_fundamental_div_mod_converse(
            m as int,
            base as int,
            n as int,
            d as int,
        );
        assert(m >= base) by (nonlinear_arith)
            requires
                m == n * base + d,
                n >= 1,
        ;
    }
}

/// No text stands for nothing, and one more decimal digit makes ten times the number plus
/// that digit.
pub proof fn law_decimal_value_grows(s: Seq<char>, d: nat)
    requires
        d < 10,
    ensures
        decimal_value(Seq::empty()) == 0,
        decimal_value(s.push("0123456789"@[d as int])) == 10 * decimal_value(s) + d,
{
    reveal_strlit("0123456789");
    assert(s.push("0123456789"@[d as int]).drop_last() == s);
}

/// A number is rendered without leading zeros.
pub proof fn law_decimal_has_no_leading_zero(n: nat)
    ensures
        n > 0 ==> decimal(n)[0] != '0',
        n == 0 ==> decimal(n) == seq!['0'],
    decreases n,
{
    if n >= 10 {
        law_decimal_has_no_leading_zero(n / 10);
        law_decimal_round_trip(n / 10);
        assert(decimal(n)[0] == decimal(n / 10)[0]);
    }
}

/// Padding puts zeros in front until the width is reached, and changes nothing else.
pub proof fn law_zero_padded(s: Seq<char>, width: nat)
    ensures
        ({
            let r = zero_padded(s, width);
            &&& s.len() >= width ==> r == s
            &&& s.len() < width ==> r.len() == width && r.skip(width - s.len()) == s
            &&& forall|i: int| 0 <= i < width - s.len() ==> #[trigger] r[i] == '0'
        }),
{
}

/// A text is a non-negative number exactly if it is one decimal digit or more, with a plus sign
/// in front or none, and stands for no more than the bound.
pub proof fn law_parsed_unsigned(s: Seq<char>, max: nat)
    ensures
        ({
            let plain = s.len() > 0 && forall|i: int|
                0 <= i < s.len() ==> '0' <= #[trigger] s[i] <= '9';
            let signed = s.len() > 1 && s[0] == '+' && forall|i: int|
                1 <= i < s.len() ==> '0' <= #[trigger] s[i] <= '9';
            &&& plain && decimal_value(s) <= max ==> parsed_unsigned(s, max) == Some(
                decimal_value(s),
            )
            &&& plain && decimal_value(s) > max ==> parsed_unsigned(s, max) is None
            &&& plain ==> parsed_unsigned(seq!['+'] + s, max) == parsed_unsigned(s, max)
            &&& !plain && !signed ==> parsed_unsigned(s, max) is None
        }),
{
    let t = seq!['+'] + s;
    assert(t.skip(1) == s);
    assert(t[0] == '+');
    if s.len() > 0 && s[0] == '+' {
        let body = s.skip(1);
        if all_digits(body) {
            assert forall|i: int| 1 <= i < s.len() implies '0' <= #[trigger] s[i] <= '9' by {
                assert(is_digit(body[i - 1]));
            }
        }
    } else if all_digits(s) {
        assert forall|i: int| 0 <= i < s.len() implies '0' <= #[trigger] s[i] <= '9' by {
            assert(is_digit(s[i]));
        }
    }
}

/// A text is a signed 32-bit number exactly if it is a non-negative one up to the largest, or
/// a minus sign with decimal digits behind it that stand for no more than the smallest.
pub proof fn law_parsed_i32(s: Seq<char>)
    ensures
        s.len() == 0 || s[0] != '-' ==> parsed_i32(s) == match parsed_unsigned(s, 2147483647) {
            Some(n) => Some(n as int),
            None => None,
        },
        ({
            let plain = s.len() > 0 && forall|i: int|
                0 <= i < s.len() ==> '0' <= #[trigger] s[i] <= '9';
            &&& plain && decimal_value(s) <= 2147483648 ==> parsed_i32(seq!['-'] + s) == Some(
                0 - decimal_value(s),
            )
            &&& !plain || decimal_value(s) > 2147483648 ==> parsed_i32(seq!['-'] + s) is None
        }),
{
    let t = seq!['-'] + s;
    assert(t.skip(1) == s);
    assert(t[0] == '-');
    if all_digits(s) {
        assert forall|i: int| 0 <= i < s.len() implies '0' <= #[trigger] s[i] <= '9' by {
            assert(is_digit(s[i]));
        }
    }
}

} // verus!
