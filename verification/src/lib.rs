//! Format an integer in an arbitrary radix from 2 to 62.
//!
//! The digit alphabet has 62 symbols: `0`-`9`, then `a`-`z` for digit
//! values 10 to 35, then `A`-`Z` for digit values 36 to 61.  An
//! "alternate" rendering mode transposes the two letter ranges, so that
//! for bases up to 36 the alternate mode yields uppercase digits, while
//! every base keeps 62 distinct digit symbols in either mode.
//!
//! Signed values follow a two's-complement policy: a negative number is
//! reinterpreted as the unsigned value of the same bit width (for
//! example, `-1i8` renders like `255u8`), and no minus sign is ever
//! emitted.

pub mod convert;
pub mod digits;
mod native;
pub mod radix;
pub mod shortcuts;

pub use convert::convert;
pub use convert::digit;
pub use radix::radix;
pub use radix::Magnitude;
pub use radix::Radix;
