//! Rendering numbers as decimal and hexadecimal text, with exact contracts.

use vstd::prelude::*;

verus! {

/// The decimal digit character for a value below ten.
pub open spec fn dec_digit(d: int) -> char
    recommends
        0 <= d < 10,
{
    if d == 0 {
        '0'
    } else if d == 1 {
        '1'
    } else if d == 2 {
        '2'
    } else if d == 3 {
        '3'
    } else if d == 4 {
        '4'
    } else if d == 5 {
        '5'
    } else if d == 6 {
        '6'
    } else if d == 7 {
        '7'
    } else if d == 8 {
        '8'
    } else {
        '9'
    }
}

/// The decimal text of an unsigned value, without leading zeroes.
pub open spec fn spec_dec(n: int) -> Seq<char>
    recommends
        n >= 0,
    decreases n,
{
    if n < 10 {
        seq![dec_digit(n)]
    } else {
        spec_dec(n / 10) + seq![dec_digit(n % 10)]
    }
}

/// The decimal text of a signed value: a minus sign where negative.
pub open spec fn spec_dec_signed(n: int) -> Seq<char> {
    if n >= 0 {
        spec_dec(n)
    } else {
        seq!['-'] + spec_dec(-n)
    }
}

/// The decimal text of `n`, zero-padded on the left to at least `w` digits.
pub open spec fn spec_dec_pad(n: int, w: int) -> Seq<char>
    recommends
        n >= 0,
    decreases w,
{
    if w <= spec_dec(n).len() {
        spec_dec(n)
    } else {
        seq!['0'] + spec_dec_pad(n, w - 1)
    }
}

/// The lower-case hexadecimal digit character for a value below sixteen.
pub open spec fn hex_digit(d: int) -> char
    recommends
        0 <= d < 16,
{
    if d < 10 {
        dec_digit(d)
    } else if d == 10 {
        'a'
    } else if d == 11 {
        'b'
    } else if d == 12 {
        'c'
    } else if d == 13 {
        'd'
    } else if d == 14 {
        'e'
    } else {
        'f'
    }
}

/// Exactly `w` lower-case hexadecimal digits of `n`, most significant first.
pub open spec fn spec_hex_pad(n: int, w: int) -> Seq<char>
    recommends
        n >= 0,
    decreases w,
{
    if w <= 0 {
        Seq::empty()
    } else {
        spec_hex_pad(n / 16, w - 1) + seq![hex_digit(n % 16)]
    }
}

/// The lower-case hexadecimal text of a byte sequence, two digits per byte.
pub open spec fn spec_hex_bytes(b: Seq<u8>) -> Seq<char>
    decreases b.len(),
{
    if b.len() == 0 {
        Seq::empty()
    } else {
        spec_hex_pad(b[0] as int, 2) + spec_hex_bytes(b.skip(1))
    }
}

/// The one-character string of a decimal digit.
fn dec_digit_str(d: u64) -> (r: &'static str)
    requires
        d < 10,
    ensures
        r@ == seq![dec_digit(d as int)],
{
    proof {
        reveal_strlit("0");
        reveal_strlit("1");
        reveal_strlit("2");
        reveal_strlit("3");
        reveal_strlit("4");
        reveal_strlit("5");
        reveal_strlit("6");
        reveal_strlit("7");
        reveal_strlit("8");
        reveal_strlit("9");
    }
    if d == 0 {
        "0"
    } else if d == 1 {
        "1"
    } else if d == 2 {
        "2"
    } else if d == 3 {
        "3"
    } else if d == 4 {
        "4"
    } else if d == 5 {
        "5"
    } else if d == 6 {
        "6"
    } else if d == 7 {
        "7"
    } else if d == 8 {
        "8"
    } else {
        "9"
    }
}

/// The one-character string of a lower-case hexadecimal digit.
fn hex_digit_str(d: u64) -> (r: &'static str)
    requires
        d < 16,
    ensures
        r@ == seq![hex_digit(d as int)],
{
    proof {
        reveal_strlit("a");
        reveal_strlit("b");
        reveal_strlit("c");
        reveal_strlit("d");
        reveal_strlit("e");
        reveal_strlit("f");
    }
    if d < 10 {
        dec_digit_str(d)
    } else if d == 10 {
        "a"
    } else if d == 11 {
        "b"
    } else if d == 12 {
        "c"
    } else if d == 13 {
        "d"
    } else if d == 14 {
        "e"
    } else {
        "f"
    }
}

/// The decimal text of an unsigned value.
pub fn u64_to_string(n: u64) -> (r: String)
    ensures
        r@ == spec_dec(n as int),
    decreases n,
{
    if n < 10 {
        String::from_str(dec_digit_str(n))
    } else {
        let mut s = u64_to_string(n / 10);
        s.append(dec_digit_str(n % 10));
        s
    }
}

/// The decimal text of a signed value.
pub fn i32_to_string(n: i32) -> (r: String)
    ensures
        r@ == spec_dec_signed(n as int),
{
    proof {
        reveal_strlit("-");
    }
    if n >= 0 {
        u64_to_string(n as u64)
    } else {
        let mut s = String::from_str("-");
        let magnitude = (-(n as i64)) as u64;
        s.append(u64_to_string(magnitude).as_str());
        s
    }
}

/// The decimal text of `n`, zero-padded on the left to at least `w` digits.
pub fn u64_to_string_pad(n: u64, w: usize) -> (r: String)
    ensures
        r@ == spec_dec_pad(n as int, w as int),
    decreases w,
{
    proof {
        reveal_strlit("0");
    }
    let plain_len = dec_len(n);
    if w <= plain_len {
        proof {
            assert(spec_dec_pad(n as int, w as int) == spec_dec(n as int)) by {
                lemma_dec_pad_noop(n as int, w as int);
            }
        }
        u64_to_string(n)
    } else {
        let mut s = String::from_str("0");
        s.append(u64_to_string_pad(n, w - 1).as_str());
        s
    }
}

/// Zero padding below the text's own width changes nothing.
proof fn lemma_dec_pad_noop(n: int, w: int)
    requires
        n >= 0,
        w <= spec_dec(n).len(),
    ensures
        spec_dec_pad(n, w) == spec_dec(n),
    decreases w,
{
}

/// Ten to the `k`-th power.
pub open spec fn pow10(k: int) -> int
    decreases k,
{
    if k <= 0 {
        1
    } else {
        10 * pow10(k - 1)
    }
}

/// Ten to a lower power is no larger.
pub proof fn lemma_pow10_mono(a: int, b: int)
    requires
        a <= b,
    ensures
        pow10(a) <= pow10(b),
    decreases b - a,
{
    if a < b {
        lemma_pow10_mono(a, b - 1);
        if b >= 1 {
            assert(pow10(b) == 10 * pow10(b - 1));
            assert(pow10(b - 1) >= 1) by {
                lemma_pow10_pos(b - 1);
            }
        }
    }
}

/// Ten to any power is positive.
pub proof fn lemma_pow10_pos(k: int)
    ensures
        pow10(k) >= 1,
    decreases k,
{
    if k > 0 {
        lemma_pow10_pos(k - 1);
    }
}

/// A value below ten to the `k`-th has at most `k` decimal digits.
proof fn lemma_dec_len_le(n: int, k: int)
    requires
        k >= 1,
        0 <= n < pow10(k),
    ensures
        spec_dec(n).len() <= k,
    decreases k,
{
    if n >= 10 {
        assert(pow10(k) == 10 * pow10(k - 1));
        lemma_dec_len_le(n / 10, k - 1);
    }
}

/// How many decimal digits `n` has.
fn dec_len(n: u64) -> (r: usize)
    ensures
        r == spec_dec(n as int).len(),
        r <= 20,
    decreases n,
{
    proof {
        reveal_with_fuel(pow10, 21);
        assert(pow10(20) == 100000000000000000000);
        lemma_dec_len_le(n as int, 20);
    }
    if n < 10 {
        1
    } else {
        1 + dec_len(n / 10)
    }
}

/// Exactly `w` lower-case hexadecimal digits of `n`, most significant first.
pub fn u64_to_hex_pad(n: u64, w: usize) -> (r: String)
    ensures
        r@ == spec_hex_pad(n as int, w as int),
    decreases w,
{
    if w == 0 {
        let s = String::new();
        proof {
            assert(spec_hex_pad(n as int, 0) == Seq::<char>::empty());
        }
        s
    } else {
        let mut s = u64_to_hex_pad(n / 16, w - 1);
        s.append(hex_digit_str(n % 16));
        s
    }
}

} // verus!
