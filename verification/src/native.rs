//! What the library takes on trust from the host: the native
//! fixed-base formatters for bases 2, 8, 10 and 16, and the primitive
//! that appends one character to a `String`.

use vstd::prelude::*;

use crate::digits::render_chars;

verus! {

/// Relies on `String::push`: it appends exactly the given character.
pub assume_specification[ String::push ](s: &mut String, ch: char)
    ensures
        final(s)@ == old(s)@.push(ch),
;

/// Relies on the host's `Binary` formatting of `u128`: `{:b}` writes
/// the base-2 digits of the value, most significant first, with no
/// leading zeros and a single `0` for zero.
#[verifier::external_body]
pub(crate) fn native_binary(n: u128) -> (s: String)
    ensures
        s@ == render_chars(n as nat, 2, false),
{
    format!("{:b}", n)
}

/// Relies on the host's `Octal` formatting of `u128`: `{:o}` writes
/// the base-8 digits of the value, most significant first, with no
/// leading zeros and a single `0` for zero.
#[verifier::external_body]
pub(crate) fn native_octal(n: u128) -> (s: String)
    ensures
        s@ == render_chars(n as nat, 8, false),
{
    format!("{:o}", n)
}

/// Relies on the host's `Display` formatting of `u128`: `{}` writes
/// the decimal digits of the value, most significant first, with no
/// leading zeros and a single `0` for zero.
#[verifier::external_body]
pub(crate) fn native_decimal(n: u128) -> (s: String)
    ensures
        s@ == render_chars(n as nat, 10, false),
{
    format!("{}", n)
}

/// Relies on the host's `LowerHex` formatting of `u128`: `{:x}` writes
/// the base-16 digits of the value with lowercase letters, most
/// significant first, with no leading zeros and a single `0` for zero.
#[verifier::external_body]
pub(crate) fn native_lower_hex(n: u128) -> (s: String)
    ensures
        s@ == render_chars(n as nat, 16, false),
{
    format!("{:x}", n)
}

/// Relies on the host's `UpperHex` formatting of `u128`: `{:X}` writes
/// the base-16 digits of the value with uppercase letters, most
/// significant first, with no leading zeros and a single `0` for zero.
#[verifier::external_body]
pub(crate) fn native_upper_hex(n: u128) -> (s: String)
    ensures
        s@ == render_chars(n as nat, 16, true),
{
    format!("{:X}", n)
}

} // verus!
