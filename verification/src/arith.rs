//! The numeric capabilities that the modules rely on, as provided by the `num`
//! crate for the concrete scalar types of this runtime.

use vstd::prelude::*;

verus! {

/// `num::traits::Zero::zero` at `u32`. Trusted: the additive identity of `u32`
/// is the number 0.
#[verifier::external_body]
pub(crate) fn zero_u32() -> (z: u32)
    ensures
        z == 0,
{
    num::traits::Zero::zero()
}

/// `num::traits::One::one` at `u32`. Trusted: the multiplicative identity of
/// `u32` is the number 1.
#[verifier::external_body]
pub(crate) fn one_u32() -> (n: u32)
    ensures
        n == 1,
{
    num::traits::One::one()
}

/// `num::traits::Zero::zero` at `u128`. Trusted: the additive identity of
/// `u128` is the number 0.
#[verifier::external_body]
pub(crate) fn zero_u128() -> (z: u128)
    ensures
        z == 0,
{
    num::traits::Zero::zero()
}

/// `num::traits::CheckedAdd::checked_add` at `u128`. Trusted: the result is the
/// exact sum when it fits in a `u128`, and `None` when it does not.
#[verifier::external_body]
pub(crate) fn checked_add_u128(a: u128, b: u128) -> (sum: Option<u128>)
    ensures
        a + b <= u128::MAX ==> sum == Some((a + b) as u128),
        a + b > u128::MAX ==> sum.is_none(),
{
    num::traits::CheckedAdd::checked_add(&a, &b)
}

/// `num::traits::CheckedSub::checked_sub` at `u128`. Trusted: the result is the
/// exact difference when the subtrahend does not exceed the minuend, and
/// `None` when it does.
#[verifier::external_body]
pub(crate) fn checked_sub_u128(a: u128, b: u128) -> (diff: Option<u128>)
    ensures
        b <= a ==> diff == Some((a - b) as u128),
        b > a ==> diff.is_none(),
{
    num::traits::CheckedSub::checked_sub(&a, &b)
}

} // verus!
