//! The radix converter: the digit encoder and the general
//! digit-extraction loop, which fills a fixed-capacity stack buffer
//! from its end backward and then emits the populated suffix.

use vstd::prelude::*;

use crate::digits::digit_char;
use crate::digits::digits_of;
use crate::digits::lemma_digits_len_bound;
use crate::digits::render_chars;

verus! {

/// Number of digit slots in the conversion buffer: enough for the
/// widest supported magnitude (128 bits) in the smallest supported
/// base (2), as [`lemma_buffer_suffices`] proves.
pub const BUF_SIZE: usize = 128;

/// No supported magnitude ever needs more than [`BUF_SIZE`] digits,
/// in any supported base: the buffer never truncates.
pub proof fn lemma_buffer_suffices(n: nat, base: nat)
    requires
        2 <= base,
        n < 0x1_0000_0000_0000_0000_0000_0000_0000_0000,
    ensures
        digits_of(n, base).len() <= BUF_SIZE,
{
    vstd::arithmetic::power2::lemma2_to64();
    vstd::arithmetic::power2::lemma_pow2_adds(64, 64);
    lemma_digits_len_bound(n, base, 128);
}

/// The character for the digit value `d` in `[0, 61]`.
pub fn digit(d: u8, alternate: bool) -> (c: char)
    requires
        d < 62,
    ensures
        c == digit_char(d as nat, alternate),
{
    if d < 10 {
        (d + 48) as char
    } else if d < 36 {
        if alternate {
            (d - 10 + 65) as char
        } else {
            (d - 10 + 97) as char
        }
    } else {
        if alternate {
            (d - 36 + 97) as char
        } else {
            (d - 36 + 65) as char
        }
    }
}

/// One digit-extraction step of the model: splitting off the least
/// significant digit of `n` shortens its rendering by one character.
proof fn lemma_render_unfold(n: nat, base: nat, alternate: bool)
    requires
        2 <= base,
        n >= base,
    ensures
        render_chars(n, base, alternate) == render_chars(n / base, base, alternate).push(
            digit_char(n % base, alternate),
        ),
{
    assert(render_chars(n, base, alternate) =~= render_chars(n / base, base, alternate).push(
        digit_char(n % base, alternate),
    ));
}

/// The rendering of a magnitude below its base is that one digit.
proof fn lemma_render_single(n: nat, base: nat, alternate: bool)
    requires
        2 <= base,
        n < base,
    ensures
        render_chars(n, base, alternate) == seq![digit_char(n, alternate)],
{
    assert(render_chars(n, base, alternate) =~= seq![digit_char(n, alternate)]);
}

/// The general radix conversion: the digit characters of `mag` in base
/// `base`, most significant first, with no leading zeros and exactly
/// `"0"` for zero.  Digits are produced least significant first by
/// repeated division and written into the buffer from its end backward;
/// the populated suffix is then emitted in order.
pub fn convert(mag: u128, base: u8, alternate: bool) -> (s: String)
    requires
        2 <= base <= 62,
    ensures
        s@ == render_chars(mag as nat, base as nat, alternate),
{
    let ghost m: nat = mag as nat;
    let ghost b: nat = base as nat;
    proof {
        lemma_buffer_suffices(m, b);
    }
    let mut buf: [char; BUF_SIZE] = ['0'; BUF_SIZE];
    let mut n: u128 = mag;
    let mut i: usize = BUF_SIZE;
    let divisor: u128 = base as u128;

    // The first digit is written unconditionally, so the value zero
    // yields a single '0' rather than nothing.
    let d0: u8 = (n % divisor) as u8;
    i = i - 1;
    buf[i] = digit(d0, alternate);
    proof {
        if m >= b {
            lemma_render_unfold(m, b, alternate);
            vstd::arithmetic::div_mod::lemma_div_non_zero(m as int, b as int);
        } else {
            lemma_render_single(m, b, alternate);
            vstd::arithmetic::div_mod::lemma_small_mod(m, b);
            vstd::arithmetic::div_mod::lemma_basic_div(m as int, b as int);
        }
        assert(buf@.subrange(i as int, BUF_SIZE as int) =~= seq![
            digit_char(m % b, alternate),
        ]);
        if m >= b {
            assert(render_chars(m, b, alternate) =~= render_chars(m / b, b, alternate)
                + buf@.subrange(i as int, BUF_SIZE as int));
        }
    }
    n = n / divisor;

    while n != 0
        invariant
            2 <= base <= 62,
            b == base as nat,
            divisor == base as u128,
            0 <= i < BUF_SIZE,
            n != 0 ==> digits_of(n as nat, b).len() <= i,
            n != 0 ==> render_chars(m, b, alternate) == render_chars(n as nat, b, alternate)
                + buf@.subrange(i as int, BUF_SIZE as int),
            n == 0 ==> buf@.subrange(i as int, BUF_SIZE as int) == render_chars(m, b, alternate),
        decreases n,
    {
        let ghost prev_n: nat = n as nat;
        let ghost prev_buf: Seq<char> = buf@;
        let ghost prev_i: int = i as int;
        let d: u8 = (n % divisor) as u8;
        i = i - 1;
        buf[i] = digit(d, alternate);
        proof {
            assert(buf@.subrange(i as int, BUF_SIZE as int) =~= seq![
                digit_char(prev_n % b, alternate),
            ] + prev_buf.subrange(prev_i, BUF_SIZE as int));
            if prev_n >= b {
                lemma_render_unfold(prev_n, b, alternate);
                vstd::arithmetic::div_mod::lemma_div_non_zero(prev_n as int, b as int);
                assert(digits_of(prev_n, b).len() == digits_of(prev_n / b, b).len() + 1);
                assert(render_chars(m, b, alternate) =~= render_chars(prev_n / b, b, alternate)
                    + buf@.subrange(i as int, BUF_SIZE as int));
            } else {
                lemma_render_single(prev_n, b, alternate);
                vstd::arithmetic::div_mod::lemma_small_mod(prev_n, b);
                vstd::arithmetic::div_mod::lemma_basic_div(prev_n as int, b as int);
                assert(buf@.subrange(i as int, BUF_SIZE as int) =~= render_chars(
                    m,
                    b,
                    alternate,
                ));
            }
        }
        n = n / divisor;
        proof {
            vstd::arithmetic::div_mod::lemma_div_is_strictly_smaller(
                prev_n as int,
                b as int,
            );
        }
    }

    let mut out = String::new();
    let mut j: usize = i;
    while j < BUF_SIZE
        invariant
            2 <= b <= 62,
            i <= j <= BUF_SIZE,
            buf@.subrange(i as int, BUF_SIZE as int) == render_chars(m, b, alternate),
            out@ == buf@.subrange(i as int, j as int),
        decreases BUF_SIZE - j,
    {
        let c = buf[j];
        out.push(c);
        j = j + 1;
        proof {
            assert(buf@.subrange(i as int, j as int) =~= buf@.subrange(i as int, j - 1).push(c));
        }
    }
    out
}

} // verus!
