//! Text helpers: cutting labels to a byte count, padding, and decimal
//! notation of integers and of fixed-point values.
use vstd::prelude::*;
use vstd::string::*;
use vstd::utf8::*;

verus! {

/// The decimal digit `d` as a character.
pub open spec fn digit_char(d: nat) -> char {
    (48 + d) as char
}

/// The decimal notation of `n`, most significant digit first.
pub open spec fn decimal_digits(n: nat) -> Seq<char>
    decreases n,
{
    if n < 10 {
        seq![digit_char(n)]
    } else {
        decimal_digits(n / 10).push(digit_char(n % 10))
    }
}

/// `a / b` rounded to the nearest integer, ties to the even one.
pub open spec fn rounded_quotient(a: nat, b: nat) -> nat
    recommends
        b > 0,
{
    let q = a / b;
    let r = a % b;
    if r + r > b || (r + r == b && q % 2 == 1) {
        q + 1
    } else {
        q
    }
}

/// `value / unit` written with no decimal or with one (`one_decimal`),
/// rounded half to even, with a minus sign whenever `value` is negative.
pub open spec fn fixed_text(value: int, unit: nat, one_decimal: bool) -> Seq<char>
    recommends
        unit > 0,
{
    let magnitude = if value < 0 {
        -value
    } else {
        value
    };
    let q = rounded_quotient(magnitude as nat, unit);
    let sign = if value < 0 {
        seq!['-']
    } else {
        Seq::<char>::empty()
    };
    if one_decimal {
        sign + decimal_digits(q / 10) + seq!['.', digit_char(q % 10)]
    } else {
        sign + decimal_digits(q)
    }
}

/// `s` preceded by as many spaces as make it `width` characters long.
pub open spec fn padded_left(s: Seq<char>, width: nat) -> Seq<char> {
    if s.len() < width {
        Seq::new((width - s.len()) as nat, |i: int| ' ') + s
    } else {
        s
    }
}

/// `s` when it takes at most `max` bytes; else its first `max - 1` bytes
/// followed by an ellipsis.
pub open spec fn truncated(s: Seq<char>, max: nat) -> Seq<char> {
    let bytes = encode_utf8(s);
    if bytes.len() <= max {
        s
    } else {
        decode_utf8(bytes.subrange(0, max - 1)).push('…')
    }
}

/// Whether `trunc(s, max)` can cut `s`: when `s` is longer than `max`
/// bytes, `max - 1` must be a positive count that ends on a character.
pub open spec fn can_truncate(s: Seq<char>, max: nat) -> bool {
    let bytes = encode_utf8(s);
    bytes.len() > max ==> max >= 1 && is_char_boundary(bytes, max - 1)
}

/// Appends a character (std's `String::push`).
#[verifier::external_body]
pub(crate) fn push_char(s: &mut String, c: char)
    ensures
        final(s)@ == old(s)@.push(c),
{
    s.push(c);
}

fn digit(d: u64) -> (c: char)
    requires
        d < 10,
    ensures
        c == digit_char(d as nat),
{
    (48u8 + d as u8) as char
}

/// Appends the decimal notation of `n`.
pub fn push_decimal(out: &mut String, n: u64)
    ensures
        final(out)@ == old(out)@ + decimal_digits(n as nat),
    decreases n,
{
    if n >= 10 {
        push_decimal(out, n / 10);
    }
    push_char(out, digit(n % 10));
    proof {
        if n >= 10 {
            assert(decimal_digits(n as nat) == decimal_digits((n / 10) as nat).push(
                digit_char((n % 10) as nat),
            ));
        }
    }
}

/// `a / b` rounded to the nearest integer, ties to the even one.
pub fn rounded_div(a: u64, b: u64) -> (r: u64)
    requires
        b > 0,
    ensures
        r == rounded_quotient(a as nat, b as nat),
{
    let q = a / b;
    let r = a % b;
    proof {
        vstd::arithmetic::div_mod::lemma_fundamental_div_mod(a as int, b as int);
    }
    if r > b - r || (r == b - r && q % 2 == 1) {
        assert(q < u64::MAX) by (nonlinear_arith)
            requires
                a == b * q + r,
                r + r >= b,
                b > 0,
                0 <= r < b,
                a <= u64::MAX,
        ;
        q + 1
    } else {
        q
    }
}

/// Appends `value / unit` with no decimal or one, rounded half to even.
pub fn push_fixed(out: &mut String, value: i64, unit: u64, one_decimal: bool)
    requires
        unit > 0,
    ensures
        final(out)@ == old(out)@ + fixed_text(value as int, unit as nat, one_decimal),
{
    let magnitude: u64 = if value < 0 {
        (-(value + 1)) as u64 + 1
    } else {
        value as u64
    };
    let q = rounded_div(magnitude, unit);
    let ghost start = out@;
    if value < 0 {
        push_char(out, '-');
    }
    let ghost signed = out@;
    if one_decimal {
        push_decimal(out, q / 10);
        push_char(out, '.');
        push_char(out, digit(q % 10));
    } else {
        push_decimal(out, q);
    }
    assert(out@ =~= start + fixed_text(value as int, unit as nat, one_decimal));
}

/// `s` preceded by as many spaces as make it `width` characters long.
pub fn pad_left(s: &str, width: usize) -> (r: String)
    ensures
        r@ == padded_left(s@, width as nat),
{
    let len = s.unicode_len();
    let mut r = String::new();
    if len < width {
        let mut i: usize = 0;
        while i < width - len
            invariant
                len < width,
                i <= width - len,
                r@ == Seq::new(i as nat, |k: int| ' '),
            decreases width - len - i,
        {
            push_char(&mut r, ' ');
            i = i + 1;
            assert(r@ =~= Seq::new(i as nat, |k: int| ' '));
        }
    }
    r.append(s);
    assert(r@ =~= padded_left(s@, width as nat));
    r
}

/// Shortens `s` to at most `max` bytes: a longer string keeps its first
/// `max - 1` bytes and gets an ellipsis.
pub fn trunc(s: &str, max: usize) -> (r: String)
    requires
        can_truncate(s@, max as nat),
    ensures
        r@ == truncated(s@, max as nat),
{
    // The byte view is a slice, so its length is known to fit in `usize`.
    let byte_len = s.as_bytes().len();
    if byte_len <= max {
        s.to_owned()
    } else {
        let (head, _) = s.split_at(max - 1);
        proof {
            broadcast use encode_utf8_decode_utf8, encode_utf8_valid_utf8;

            assert(head.spec_bytes() == s.spec_bytes().subrange(0, max - 1));
            assert(head@ == decode_utf8(head.spec_bytes()));
        }
        let mut r = head.to_owned();
        push_char(&mut r, '…');
        r
    }
}

} // verus!
