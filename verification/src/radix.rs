//! The sign/width adapter: the magnitude capability of each supported
//! integer type, the [`Radix`] wrapper, and the dispatch between the
//! native fast paths and the general converter.
//!
//! Sign policy: a negative value is reinterpreted as the unsigned value
//! of the same bit width (two's complement), and no minus sign is
//! emitted.  The magnitude is extracted at the value's own width and
//! only then widened, so no bits are lost or fabricated.

use vstd::prelude::*;

use crate::convert::convert;
use crate::digits::lemma_mode_irrelevant_low_base;
use crate::digits::render_chars;
use crate::native::native_binary;
use crate::native::native_decimal;
use crate::native::native_lower_hex;
use crate::native::native_octal;
use crate::native::native_upper_hex;

verus! {

/// The unsigned-magnitude capability of a fixed-width integer: the
/// two's-complement reinterpretation of the value at its own bit
/// width, handed over as the widest supported unsigned type.
pub trait Magnitude: Sized {
    /// The magnitude as a mathematical number: the value itself when it
    /// is non-negative, else the value plus two to the bit width.
    spec fn mag_spec(&self) -> nat;

    /// The magnitude, extracted at the value's own width and widened
    /// without truncation.
    fn magnitude(&self) -> (m: u128)
        ensures
            m as nat == self.mag_spec(),
    ;
}

impl Magnitude for u8 {
    open spec fn mag_spec(&self) -> nat {
        *self as nat
    }

    fn magnitude(&self) -> (m: u128) {
        *self as u128
    }
}

impl Magnitude for u16 {
    open spec fn mag_spec(&self) -> nat {
        *self as nat
    }

    fn magnitude(&self) -> (m: u128) {
        *self as u128
    }
}

impl Magnitude for u32 {
    open spec fn mag_spec(&self) -> nat {
        *self as nat
    }

    fn magnitude(&self) -> (m: u128) {
        *self as u128
    }
}

impl Magnitude for u64 {
    open spec fn mag_spec(&self) -> nat {
        *self as nat
    }

    fn magnitude(&self) -> (m: u128) {
        *self as u128
    }
}

impl Magnitude for u128 {
    open spec fn mag_spec(&self) -> nat {
        *self as nat
    }

    fn magnitude(&self) -> (m: u128) {
        *self
    }
}

impl Magnitude for usize {
    open spec fn mag_spec(&self) -> nat {
        *self as nat
    }

    fn magnitude(&self) -> (m: u128) {
        *self as u128
    }
}

impl Magnitude for i8 {
    open spec fn mag_spec(&self) -> nat {
        if *self >= 0 {
            *self as nat
        } else {
            (*self + 0x100) as nat
        }
    }

    fn magnitude(&self) -> (m: u128) {
        let x: i8 = *self;
        if x >= 0 {
            x as u128
        } else {
            (u8::MAX - ((-(x + 1)) as u8)) as u128
        }
    }
}

impl Magnitude for i16 {
    open spec fn mag_spec(&self) -> nat {
        if *self >= 0 {
            *self as nat
        } else {
            (*self + 0x1_0000) as nat
        }
    }

    fn magnitude(&self) -> (m: u128) {
        let x: i16 = *self;
        if x >= 0 {
            x as u128
        } else {
            (u16::MAX - ((-(x + 1)) as u16)) as u128
        }
    }
}

impl Magnitude for i32 {
    open spec fn mag_spec(&self) -> nat {
        if *self >= 0 {
            *self as nat
        } else {
            (*self + 0x1_0000_0000) as nat
        }
    }

    fn magnitude(&self) -> (m: u128) {
        let x: i32 = *self;
        if x >= 0 {
            x as u128
        } else {
            (u32::MAX - ((-(x + 1)) as u32)) as u128
        }
    }
}

impl Magnitude for i64 {
    open spec fn mag_spec(&self) -> nat {
        if *self >= 0 {
            *self as nat
        } else {
            (*self + 0x1_0000_0000_0000_0000) as nat
        }
    }

    fn magnitude(&self) -> (m: u128) {
        let x: i64 = *self;
        if x >= 0 {
            x as u128
        } else {
            (u64::MAX - ((-(x + 1)) as u64)) as u128
        }
    }
}

impl Magnitude for i128 {
    open spec fn mag_spec(&self) -> nat {
        if *self >= 0 {
            *self as nat
        } else {
            (*self + 0x1_0000_0000_0000_0000_0000_0000_0000_0000) as nat
        }
    }

    fn magnitude(&self) -> (m: u128) {
        let x: i128 = *self;
        if x >= 0 {
            x as u128
        } else {
            (u128::MAX - ((-(x + 1)) as u128)) as u128
        }
    }
}

impl Magnitude for isize {
    open spec fn mag_spec(&self) -> nat {
        if *self >= 0 {
            *self as nat
        } else {
            (*self + usize::MAX + 1) as nat
        }
    }

    fn magnitude(&self) -> (m: u128) {
        let x: isize = *self;
        if x >= 0 {
            x as u128
        } else {
            (usize::MAX - ((-(x + 1)) as usize)) as u128
        }
    }
}

/// A number paired with the base, from 2 to 62, to format it in.
#[derive(Clone, Copy, Debug)]
pub struct Radix<T> {
    n: T,
    base: u8,
}

impl<T> Radix<T> {
    /// Well-formedness: the base lies in the supported range.  `new`
    /// establishes it and it is all that rendering needs.
    pub open spec fn wf(&self) -> bool {
        2 <= self.base_spec() <= 62
    }

    /// The wrapped number.
    pub closed spec fn value_spec(&self) -> T {
        self.n
    }

    /// The base the number will be rendered in.
    pub closed spec fn base_spec(&self) -> u8 {
        self.base
    }
}

impl<T: Magnitude> Radix<T> {
    /// Create a new displayable number from number and base.
    /// The base must be in the range [2, 62].
    pub fn new(n: T, base: u8) -> (r: Self)
        requires
            2 <= base <= 62,
        ensures
            r.value_spec() == n,
            r.base_spec() == base,
            r.wf(),
    {
        Radix { n, base }
    }

    /// The digit string of the wrapped number in the wrapped base:
    /// its two's-complement magnitude rendered most significant digit
    /// first, with no leading zeros and exactly `"0"` for zero, with
    /// the two letter ranges of the alphabet transposed when
    /// `alternate` is set.
    ///
    /// Bases 2, 8, 10 and 16 delegate to the host's native formatting;
    /// every other base runs the general converter.  Both produce the
    /// same characters for the same magnitude, base and mode.
    pub fn render(&self, alternate: bool) -> (s: String)
        requires
            self.wf(),
        ensures
            s@ == render_chars(
                self.value_spec().mag_spec(),
                self.base_spec() as nat,
                alternate,
            ),
    {
        let mag: u128 = self.n.magnitude();
        match (self.base, alternate) {
            (2, _) => {
                proof {
                    lemma_mode_irrelevant_low_base(mag as nat, 2);
                }
                native_binary(mag)
            },
            (8, _) => {
                proof {
                    lemma_mode_irrelevant_low_base(mag as nat, 8);
                }
                native_octal(mag)
            },
            (10, _) => {
                proof {
                    lemma_mode_irrelevant_low_base(mag as nat, 10);
                }
                native_decimal(mag)
            },
            (16, false) => native_lower_hex(mag),
            (16, true) => native_upper_hex(mag),
            (b, _) => convert(mag, b, alternate),
        }
    }
}

/// A helper for creating a new formatter from [`Radix::new`].
pub fn radix<T: Magnitude>(n: T, base: u8) -> (r: Radix<T>)
    requires
        2 <= base <= 62,
    ensures
        r.value_spec() == n,
        r.base_spec() == base,
        r.wf(),
{
    Radix::new(n, base)
}

/// Two formatters wrapping the same number and base render identically
/// in either mode: what a formatter prints depends on nothing but its
/// number's magnitude, its base, and the mode.  In particular every
/// fixed-base shortcut constructor agrees with [`radix`] called with
/// the same value and base.
pub proof fn lemma_render_depends_on_specs_alone<T: Magnitude>(
    a: Radix<T>,
    b: Radix<T>,
    alternate: bool,
)
    requires
        a.value_spec() == b.value_spec(),
        a.base_spec() == b.base_spec(),
    ensures
        render_chars(a.value_spec().mag_spec(), a.base_spec() as nat, alternate)
            == render_chars(b.value_spec().mag_spec(), b.base_spec() as nat, alternate),
{
}

} // verus!

