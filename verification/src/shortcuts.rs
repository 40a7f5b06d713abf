//! Fixed-base convenience constructors: one per base that the native
//! fast paths of [`crate::radix::Radix::render`] do not already cover.
//! Each is plain argument-forwarding sugar over [`crate::radix::radix`]
//! and renders exactly as the general constructor does with the same
//! value and base.

use vstd::prelude::*;

use crate::radix::radix;
use crate::radix::Magnitude;
use crate::radix::Radix;

verus! {

/// `radix_3(n)` is `radix(n, 3)`.
pub fn radix_3<T: Magnitude>(n: T) -> (r: Radix<T>)
    ensures
        r.value_spec() == n,
        r.base_spec() == 3,
        r.wf(),
{
    radix(n, 3)
}

/// `radix_4(n)` is `radix(n, 4)`.
pub fn radix_4<T: Magnitude>(n: T) -> (r: Radix<T>)
    ensures
        r.value_spec() == n,
        r.base_spec() == 4,
        r.wf(),
{
    radix(n, 4)
}

/// `radix_5(n)` is `radix(n, 5)`.
pub fn radix_5<T: Magnitude>(n: T) -> (r: Radix<T>)
    ensures
        r.value_spec() == n,
        r.base_spec() == 5,
        r.wf(),
{
    radix(n, 5)
}

/// `radix_6(n)` is `radix(n, 6)`.
pub fn radix_6<T: Magnitude>(n: T) -> (r: Radix<T>)
    ensures
        r.value_spec() == n,
        r.base_spec() == 6,
        r.wf(),
{
    radix(n, 6)
}

/// `radix_7(n)` is `radix(n, 7)`.
pub fn radix_7<T: Magnitude>(n: T) -> (r: Radix<T>)
    ensures
        r.value_spec() == n,
        r.base_spec() == 7,
        r.wf(),
{
    radix(n, 7)
}

/// `radix_9(n)` is `radix(n, 9)`.
pub fn radix_9<T: Magnitude>(n: T) -> (r: Radix<T>)
    ensures
        r.value_spec() == n,
        r.base_spec() == 9,
        r.wf(),
{
    radix(n, 9)
}

/// `radix_11(n)` is `radix(n, 11)`.
pub fn radix_11<T: Magnitude>(n: T) -> (r: Radix<T>)
    ensures
        r.value_spec() == n,
        r.base_spec() == 11,
        r.wf(),
{
    radix(n, 11)
}

/// `radix_12(n)` is `radix(n, 12)`.
pub fn radix_12<T: Magnitude>(n: T) -> (r: Radix<T>)
    ensures
        r.value_spec() == n,
        r.base_spec() == 12,
        r.wf(),
{
    radix(n, 12)
}

/// `radix_13(n)` is `radix(n, 13)`.
pub fn radix_13<T: Magnitude>(n: T) -> (r: Radix<T>)
    ensures
        r.value_spec() == n,
        r.base_spec() == 13,
        r.wf(),
{
    radix(n, 13)
}

/// `radix_14(n)` is `radix(n, 14)`.
pub fn radix_14<T: Magnitude>(n: T) -> (r: Radix<T>)
    ensures
        r.value_spec() == n,
        r.base_spec() == 14,
        r.wf(),
{
    radix(n, 14)
}

/// `radix_15(n)` is `radix(n, 15)`.
pub fn radix_15<T: Magnitude>(n: T) -> (r: Radix<T>)
    ensures
        r.value_spec() == n,
        r.base_spec() == 15,
        r.wf(),
{
    radix(n, 15)
}

/// `radix_17(n)` is `radix(n, 17)`.
pub fn radix_17<T: Magnitude>(n: T) -> (r: Radix<T>)
    ensures
        r.value_spec() == n,
        r.base_spec() == 17,
        r.wf(),
{
    radix(n, 17)
}

/// `radix_18(n)` is `radix(n, 18)`.
pub fn radix_18<T: Magnitude>(n: T) -> (r: Radix<T>)
    ensures
        r.value_spec() == n,
        r.base_spec() == 18,
        r.wf(),
{
    radix(n, 18)
}

/// `radix_19(n)` is `radix(n, 19)`.
pub fn radix_19<T: Magnitude>(n: T) -> (r: Radix<T>)
    ensures
        r.value_spec() == n,
        r.base_spec() == 19,
        r.wf(),
{
    radix(n, 19)
}

/// `radix_20(n)` is `radix(n, 20)`.
pub fn radix_20<T: Magnitude>(n: T) -> (r: Radix<T>)
    ensures
        r.value_spec() == n,
        r.base_spec() == 20,
        r.wf(),
{
    radix(n, 20)
}

/// `radix_21(n)` is `radix(n, 21)`.
pub fn radix_21<T: Magnitude>(n: T) -> (r: Radix<T>)
    ensures
        r.value_spec() == n,
        r.base_spec() == 21,
        r.wf(),
{
    radix(n, 21)
}

/// `radix_22(n)` is `radix(n, 22)`.
pub fn radix_22<T: Magnitude>(n: T) -> (r: Radix<T>)
    ensures
        r.value_spec() == n,
        r.base_spec() == 22,
        r.wf(),
{
    radix(n, 22)
}

/// `radix_23(n)` is `radix(n, 23)`.
pub fn radix_23<T: Magnitude>(n: T) -> (r: Radix<T>)
    ensures
        r.value_spec() == n,
        r.base_spec() == 23,
        r.wf(),
{
    radix(n, 23)
}

/// `radix_24(n)` is `radix(n, 24)`.
pub fn radix_24<T: Magnitude>(n: T) -> (r: Radix<T>)
    ensures
        r.value_spec() == n,
        r.base_spec() == 24,
        r.wf(),
{
    radix(n, 24)
}

/// `radix_25(n)` is `radix(n, 25)`.
pub fn radix_25<T: Magnitude>(n: T) -> (r: Radix<T>)
    ensures
        r.value_spec() == n,
        r.base_spec() == 25,
        r.wf(),
{
    radix(n, 25)
}

/// `radix_26(n)` is `radix(n, 26)`.
pub fn radix_26<T: Magnitude>(n: T) -> (r: Radix<T>)
    ensures
        r.value_spec() == n,
        r.base_spec() == 26,
        r.wf(),
{
    radix(n, 26)
}

/// `radix_27(n)` is `radix(n, 27)`.
pub fn radix_27<T: Magnitude>(n: T) -> (r: Radix<T>)
    ensures
        r.value_spec() == n,
        r.base_spec() == 27,
        r.wf(),
{
    radix(n, 27)
}

/// `radix_28(n)` is `radix(n, 28)`.
pub fn radix_28<T: Magnitude>(n: T) -> (r: Radix<T>)
    ensures
        r.value_spec() == n,
        r.base_spec() == 28,
        r.wf(),
{
    radix(n, 28)
}

/// `radix_29(n)` is `radix(n, 29)`.
pub fn radix_29<T: Magnitude>(n: T) -> (r: Radix<T>)
    ensures
        r.value_spec() == n,
        r.base_spec() == 29,
        r.wf(),
{
    radix(n, 29)
}

/// `radix_30(n)` is `radix(n, 30)`.
pub fn radix_30<T: Magnitude>(n: T) -> (r: Radix<T>)
    ensures
        r.value_spec() == n,
        r.base_spec() == 30,
        r.wf(),
{
    radix(n, 30)
}

/// `radix_31(n)` is `radix(n, 31)`.
pub fn radix_31<T: Magnitude>(n: T) -> (r: Radix<T>)
    ensures
        r.value_spec() == n,
        r.base_spec() == 31,
        r.wf(),
{
    radix(n, 31)
}

/// `radix_32(n)` is `radix(n, 32)`.
pub fn radix_32<T: Magnitude>(n: T) -> (r: Radix<T>)
    ensures
        r.value_spec() == n,
        r.base_spec() == 32,
        r.wf(),
{
    radix(n, 32)
}

/// `radix_33(n)` is `radix(n, 33)`.
pub fn radix_33<T: Magnitude>(n: T) -> (r: Radix<T>)
    ensures
        r.value_spec() == n,
        r.base_spec() == 33,
        r.wf(),
{
    radix(n, 33)
}

/// `radix_34(n)` is `radix(n, 34)`.
pub fn radix_34<T: Magnitude>(n: T) -> (r: Radix<T>)
    ensures
        r.value_spec() == n,
        r.base_spec() == 34,
        r.wf(),
{
    radix(n, 34)
}

/// `radix_35(n)` is `radix(n, 35)`.
pub fn radix_35<T: Magnitude>(n: T) -> (r: Radix<T>)
    ensures
        r.value_spec() == n,
        r.base_spec() == 35,
        r.wf(),
{
    radix(n, 35)
}

/// `radix_36(n)` is `radix(n, 36)`.
pub fn radix_36<T: Magnitude>(n: T) -> (r: Radix<T>)
    ensures
        r.value_spec() == n,
        r.base_spec() == 36,
        r.wf(),
{
    radix(n, 36)
}

/// `radix_37(n)` is `radix(n, 37)`.
pub fn radix_37<T: Magnitude>(n: T) -> (r: Radix<T>)
    ensures
        r.value_spec() == n,
        r.base_spec() == 37,
        r.wf(),
{
    radix(n, 37)
}

/// `radix_38(n)` is `radix(n, 38)`.
pub fn radix_38<T: Magnitude>(n: T) -> (r: Radix<T>)
    ensures
        r.value_spec() == n,
        r.base_spec() == 38,
        r.wf(),
{
    radix(n, 38)
}

/// `radix_39(n)` is `radix(n, 39)`.
pub fn radix_39<T: Magnitude>(n: T) -> (r: Radix<T>)
    ensures
        r.value_spec() == n,
        r.base_spec() == 39,
        r.wf(),
{
    radix(n, 39)
}

/// `radix_40(n)` is `radix(n, 40)`.
pub fn radix_40<T: Magnitude>(n: T) -> (r: Radix<T>)
    ensures
        r.value_spec() == n,
        r.base_spec() == 40,
        r.wf(),
{
    radix(n, 40)
}

/// `radix_41(n)` is `radix(n, 41)`.
pub fn radix_41<T: Magnitude>(n: T) -> (r: Radix<T>)
    ensures
        r.value_spec() == n,
        r.base_spec() == 41,
        r.wf(),
{
    radix(n, 41)
}

/// `radix_42(n)` is `radix(n, 42)`.
pub fn radix_42<T: Magnitude>(n: T) -> (r: Radix<T>)
    ensures
        r.value_spec() == n,
        r.base_spec() == 42,
        r.wf(),
{
    radix(n, 42)
}

/// `radix_43(n)` is `radix(n, 43)`.
pub fn radix_43<T: Magnitude>(n: T) -> (r: Radix<T>)
    ensures
        r.value_spec() == n,
        r.base_spec() == 43,
        r.wf(),
{
    radix(n, 43)
}

/// `radix_44(n)` is `radix(n, 44)`.
pub fn radix_44<T: Magnitude>(n: T) -> (r: Radix<T>)
    ensures
        r.value_spec() == n,
        r.base_spec() == 44,
        r.wf(),
{
    radix(n, 44)
}

/// `radix_45(n)` is `radix(n, 45)`.
pub fn radix_45<T: Magnitude>(n: T) -> (r: Radix<T>)
    ensures
        r.value_spec() == n,
        r.base_spec() == 45,
        r.wf(),
{
    radix(n, 45)
}

/// `radix_46(n)` is `radix(n, 46)`.
pub fn radix_46<T: Magnitude>(n: T) -> (r: Radix<T>)
    ensures
        r.value_spec() == n,
        r.base_spec() == 46,
        r.wf(),
{
    radix(n, 46)
}

/// `radix_47(n)` is `radix(n, 47)`.
pub fn radix_47<T: Magnitude>(n: T) -> (r: Radix<T>)
    ensures
        r.value_spec() == n,
        r.base_spec() == 47,
        r.wf(),
{
    radix(n, 47)
}

/// `radix_48(n)` is `radix(n, 48)`.
pub fn radix_48<T: Magnitude>(n: T) -> (r: Radix<T>)
    ensures
        r.value_spec() == n,
        r.base_spec() == 48,
        r.wf(),
{
    radix(n, 48)
}

/// `radix_49(n)` is `radix(n, 49)`.
pub fn radix_49<T: Magnitude>(n: T) -> (r: Radix<T>)
    ensures
        r.value_spec() == n,
        r.base_spec() == 49,
        r.wf(),
{
    radix(n, 49)
}

/// `radix_50(n)` is `radix(n, 50)`.
pub fn radix_50<T: Magnitude>(n: T) -> (r: Radix<T>)
    ensures
        r.value_spec() == n,
        r.base_spec() == 50,
        r.wf(),
{
    radix(n, 50)
}

/// `radix_51(n)` is `radix(n, 51)`.
pub fn radix_51<T: Magnitude>(n: T) -> (r: Radix<T>)
    ensures
        r.value_spec() == n,
        r.base_spec() == 51,
        r.wf(),
{
    radix(n, 51)
}

/// `radix_52(n)` is `radix(n, 52)`.
pub fn radix_52<T: Magnitude>(n: T) -> (r: Radix<T>)
    ensures
        r.value_spec() == n,
        r.base_spec() == 52,
        r.wf(),
{
    radix(n, 52)
}

/// `radix_53(n)` is `radix(n, 53)`.
pub fn radix_53<T: Magnitude>(n: T) -> (r: Radix<T>)
    ensures
        r.value_spec() == n,
        r.base_spec() == 53,
        r.wf(),
{
    radix(n, 53)
}

/// `radix_54(n)` is `radix(n, 54)`.
pub fn radix_54<T: Magnitude>(n: T) -> (r: Radix<T>)
    ensures
        r.value_spec() == n,
        r.base_spec() == 54,
        r.wf(),
{
    radix(n, 54)
}

/// `radix_55(n)` is `radix(n, 55)`.
pub fn radix_55<T: Magnitude>(n: T) -> (r: Radix<T>)
    ensures
        r.value_spec() == n,
        r.base_spec() == 55,
        r.wf(),
{
    radix(n, 55)
}

/// `radix_56(n)` is `radix(n, 56)`.
pub fn radix_56<T: Magnitude>(n: T) -> (r: Radix<T>)
    ensures
        r.value_spec() == n,
        r.base_spec() == 56,
        r.wf(),
{
    radix(n, 56)
}

/// `radix_57(n)` is `radix(n, 57)`.
pub fn radix_57<T: Magnitude>(n: T) -> (r: Radix<T>)
    ensures
        r.value_spec() == n,
        r.base_spec() == 57,
        r.wf(),
{
    radix(n, 57)
}

/// `radix_58(n)` is `radix(n, 58)`.
pub fn radix_58<T: Magnitude>(n: T) -> (r: Radix<T>)
    ensures
        r.value_spec() == n,
        r.base_spec() == 58,
        r.wf(),
{
    radix(n, 58)
}

/// `radix_59(n)` is `radix(n, 59)`.
pub fn radix_59<T: Magnitude>(n: T) -> (r: Radix<T>)
    ensures
        r.value_spec() == n,
        r.base_spec() == 59,
        r.wf(),
{
    radix(n, 59)
}

/// `radix_60(n)` is `radix(n, 60)`.
pub fn radix_60<T: Magnitude>(n: T) -> (r: Radix<T>)
    ensures
        r.value_spec() == n,
        r.base_spec() == 60,
        r.wf(),
{
    radix(n, 60)
}

/// `radix_61(n)` is `radix(n, 61)`.
pub fn radix_61<T: Magnitude>(n: T) -> (r: Radix<T>)
    ensures
        r.value_spec() == n,
        r.base_spec() == 61,
        r.wf(),
{
    radix(n, 61)
}

/// `radix_62(n)` is `radix(n, 62)`.
pub fn radix_62<T: Magnitude>(n: T) -> (r: Radix<T>)
    ensures
        r.value_spec() == n,
        r.base_spec() == 62,
        r.wf(),
{
    radix(n, 62)
}

} // verus!
