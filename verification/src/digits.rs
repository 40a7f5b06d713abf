//! The mathematical model of radix rendering: digit values, digit
//! characters, and the digit sequence of a magnitude in a base.

use vstd::prelude::*;

verus! {

/// The character for a single digit value `d` in `[0, 61]`.
///
/// Digit values 0 to 9 map to `'0'`-`'9'`.  In the normal mode
/// (`alternate == false`), values 10 to 35 map to `'a'`-`'z'` and values
/// 36 to 61 map to `'A'`-`'Z'`.  The alternate mode transposes the two
/// letter ranges, so every letter changes case and the 62 digit symbols
/// stay pairwise distinct.
pub open spec fn digit_char(d: nat, alternate: bool) -> char
    recommends
        d < 62,
{
    if d < 10 {
        ((d + 48) as u8) as char
    } else if d < 36 {
        if alternate {
            ((d - 10 + 65) as u8) as char
        } else {
            ((d - 10 + 97) as u8) as char
        }
    } else {
        if alternate {
            ((d - 36 + 97) as u8) as char
        } else {
            ((d - 36 + 65) as u8) as char
        }
    }
}

/// The digit value denoted by the character `c`, inverse to
/// [`digit_char`] for the same mode; 62 for a character that is no digit.
pub open spec fn digit_val(c: char, alternate: bool) -> nat {
    let u = c as u32;
    if 48 <= u <= 57 {
        (u - 48) as nat
    } else if 97 <= u <= 122 {
        if alternate {
            (u - 97 + 36) as nat
        } else {
            (u - 97 + 10) as nat
        }
    } else if 65 <= u <= 90 {
        if alternate {
            (u - 65 + 10) as nat
        } else {
            (u - 65 + 36) as nat
        }
    } else {
        62
    }
}

/// The digit values of `n` written in base `base`, most significant
/// first: exactly `seq![n]` when `n < base`, so the sequence is never
/// empty, has no leading zero except for `n == 0`, and is as short as a
/// positional notation for `n` can be.
pub open spec fn digits_of(n: nat, base: nat) -> Seq<nat>
    recommends
        2 <= base,
    decreases n,
{
    if n < base || base < 2 {
        seq![n]
    } else {
        proof {
            vstd::arithmetic::div_mod::lemma_div_is_strictly_smaller(n as int, base as int);
        }
        digits_of(n / base, base).push(n % base)
    }
}

/// The value denoted by a digit sequence in base `base`, most
/// significant digit first.
pub open spec fn value_of(digits: Seq<nat>, base: nat) -> nat
    decreases digits.len(),
{
    if digits.len() == 0 {
        0
    } else {
        value_of(digits.drop_last(), base) * base + digits.last()
    }
}

/// The full rendering of magnitude `n` in base `base`: its digit
/// sequence, each digit written as its character.
pub open spec fn render_chars(n: nat, base: nat, alternate: bool) -> Seq<char>
    recommends
        2 <= base <= 62,
{
    digits_of(n, base).map_values(|d: nat| digit_char(d, alternate))
}

/// The value a rendered character sequence denotes, reading each
/// character back as a digit value in the same mode.
pub open spec fn parse_chars(s: Seq<char>, base: nat, alternate: bool) -> nat {
    value_of(s.map_values(|c: char| digit_val(c, alternate)), base)
}

/// A letter turned into the other case; any other character unchanged.
pub open spec fn swap_case(c: char) -> char {
    let u = c as u32;
    if 97 <= u <= 122 {
        ((u - 32) as u8) as char
    } else if 65 <= u <= 90 {
        ((u + 32) as u8) as char
    } else {
        c
    }
}

/// Every digit of `n` in base `base` is below `base`.
pub proof fn lemma_digits_in_range(n: nat, base: nat)
    requires
        2 <= base,
    ensures
        forall|i: int|
            0 <= i < digits_of(n, base).len() ==> #[trigger] digits_of(n, base)[i] < base,
    decreases n,
{
    if n < base {
    } else {
        vstd::arithmetic::div_mod::lemma_div_is_strictly_smaller(n as int, base as int);
        lemma_digits_in_range(n / base, base);
        assert(digits_of(n, base) == digits_of(n / base, base).push(n % base));
        assert(n % base < base) by {
            vstd::arithmetic::div_mod::lemma_mod_bound(n as int, base as int);
        }
    }
}

/// A magnitude below `2^k` takes at most `k` digits in any base from 2
/// up, so a buffer of `k` slots never overflows.
pub proof fn lemma_digits_len_bound(n: nat, base: nat, k: nat)
    requires
        2 <= base,
        1 <= k,
        n < vstd::arithmetic::power2::pow2(k),
    ensures
        digits_of(n, base).len() <= k,
    decreases n,
{
    if n < base {
    } else {
        vstd::arithmetic::power2::lemma_pow2_unfold(k);
        vstd::arithmetic::power2::lemma_pow2_pos((k - 1) as nat);
        assert(k >= 2) by {
            vstd::arithmetic::power2::lemma2_to64();
        }
        vstd::arithmetic::div_mod::lemma_div_is_strictly_smaller(n as int, base as int);
        vstd::arithmetic::div_mod::lemma_div_is_ordered_by_denominator(
            n as int,
            2,
            base as int,
        );
        vstd::arithmetic::div_mod::lemma_multiply_divide_lt(
            n as int,
            2,
            vstd::arithmetic::power2::pow2((k - 1) as nat) as int,
        );
        lemma_digits_len_bound(n / base, base, (k - 1) as nat);
    }
}

/// A digit character read back in the same mode denotes the digit value
/// it was written from.
pub proof fn lemma_digit_roundtrip(d: nat, alternate: bool)
    requires
        d < 62,
    ensures
        digit_val(digit_char(d, alternate), alternate) == d,
{
}

/// Reading the digit sequence of `n` back as a positional numeral gives
/// `n` again.
pub proof fn lemma_value_of_digits(n: nat, base: nat)
    requires
        2 <= base,
    ensures
        value_of(digits_of(n, base), base) == n,
    decreases n,
{
    if n < base {
        assert(seq![n].drop_last() =~= Seq::<nat>::empty());
        assert(value_of(Seq::<nat>::empty(), base) == 0);
        assert(value_of(seq![n], base) == 0 * base + n);
    } else {
        vstd::arithmetic::div_mod::lemma_div_is_strictly_smaller(n as int, base as int);
        lemma_value_of_digits(n / base, base);
        let s = digits_of(n / base, base);
        assert(s.push(n % base).drop_last() =~= s);
        assert(value_of(s.push(n % base), base) == (n / base) * base + (n % base));
        vstd::arithmetic::div_mod::lemma_fundamental_div_mod(n as int, base as int);
        vstd::arithmetic::mul::lemma_mul_is_commutative(n as int / base as int, base as int);
    }
}

/// The digit sequence is the standard positional-notation expansion:
/// counting places from the least significant end, the digit at place
/// `j` is `(n / base^j) % base`.
pub proof fn lemma_digits_positional(n: nat, base: nat, j: nat)
    requires
        2 <= base,
        j < digits_of(n, base).len(),
    ensures
        digits_of(n, base)[digits_of(n, base).len() - 1 - j] == (n as int / vstd::arithmetic::power::pow(base as int, j)) % (base as int),
    decreases j,
{
    reveal(vstd::arithmetic::power::pow);
    vstd::arithmetic::power::lemma_pow_positive(base as int, j);
    if j == 0 {
        assert(vstd::arithmetic::power::pow(base as int, 0) == 1);
        if n < base {
            vstd::arithmetic::div_mod::lemma_small_mod(n, base);
        }
    } else {
        assert(n >= base) by {
            if n < base {
                assert(digits_of(n, base).len() == 1);
            }
        }
        vstd::arithmetic::div_mod::lemma_div_is_strictly_smaller(n as int, base as int);
        lemma_digits_positional(n / base, base, (j - 1) as nat);
        vstd::arithmetic::power::lemma_pow_positive(base as int, (j - 1) as nat);
        vstd::arithmetic::div_mod::lemma_div_denominator(
            n as int,
            base as int,
            vstd::arithmetic::power::pow(base as int, (j - 1) as nat),
        );
        assert(vstd::arithmetic::power::pow(base as int, j) == base * vstd::arithmetic::power::pow(
            base as int,
            (j - 1) as nat,
        ));
    }
}

/// Parsing the rendered digit string of `n` with the same base and mode
/// reproduces `n` exactly.
pub proof fn lemma_round_trip(n: nat, base: nat, alternate: bool)
    requires
        2 <= base <= 62,
    ensures
        parse_chars(render_chars(n, base, alternate), base, alternate) == n,
{
    let ds = digits_of(n, base);
    let back = render_chars(n, base, alternate).map_values(
        |c: char| digit_val(c, alternate),
    );
    lemma_digits_in_range(n, base);
    assert forall|i: int| 0 <= i < back.len() implies back[i] == ds[i] by {
        lemma_digit_roundtrip(ds[i], alternate);
    }
    assert(back =~= ds);
    lemma_value_of_digits(n, base);
}

/// Rendering zero gives exactly the one-character string `0`, in every
/// base and in either mode.
pub proof fn lemma_render_zero(base: nat, alternate: bool)
    requires
        2 <= base <= 62,
    ensures
        render_chars(0, base, alternate) =~= seq!['0'],
{
    assert(digits_of(0, base) =~= seq![0nat]);
}

/// A rendered digit string never starts with a zero digit unless the
/// value itself is zero: the digit sequence has minimal length.
pub proof fn lemma_no_leading_zero(n: nat, base: nat)
    requires
        2 <= base,
        n > 0,
    ensures
        digits_of(n, base).first() != 0,
    decreases n,
{
    if n < base {
    } else {
        vstd::arithmetic::div_mod::lemma_div_is_strictly_smaller(n as int, base as int);
        vstd::arithmetic::div_mod::lemma_div_non_zero(n as int, base as int);
        lemma_no_leading_zero(n / base, base);
    }
}

/// The alternate mode changes exactly the case of every letter digit:
/// each rendered character is the case-swapped image of its normal-mode
/// counterpart, and digits below ten do not change at all.
pub proof fn lemma_alternate_swaps_case(d: nat)
    requires
        d < 62,
    ensures
        digit_char(d, true) == swap_case(digit_char(d, false)),
        d < 10 ==> digit_char(d, true) == digit_char(d, false),
{
}

/// In a base with no letter digits the mode is irrelevant: both modes
/// render every value identically.
pub proof fn lemma_mode_irrelevant_low_base(n: nat, base: nat)
    requires
        2 <= base <= 10,
    ensures
        render_chars(n, base, true) =~= render_chars(n, base, false),
{
    lemma_digits_in_range(n, base);
}

} // verus!
