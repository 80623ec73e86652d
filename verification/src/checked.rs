//! Conversions between integer types that say when a value does not fit.

use vstd::prelude::*;
use cast::Error as Unfit;

verus! {

/// `cast::Error`, read as the crate defines it: why a value could not be
/// converted.
#[verifier::external_type_specification]
pub struct ExUnfit(Unfit);

/// `cast::u16` on a `u32`. The crate compares the value with `u16::MAX`: a
/// greater one gives `Err(Overflow)`, any other is returned unchanged in
/// the narrower type.
#[verifier::external_body]
pub(crate) fn to_u16(x: u32) -> (r: Result<u16, Unfit>)
    ensures
        r == (if x <= u16::MAX {
            Ok(x as u16)
        } else {
            Err(Unfit::Overflow)
        }),
{
    cast::u16(x)
}

/// `cast::u32` on a `u16`: the same value in the wider type.
#[verifier::external_body]
pub(crate) fn to_u32(x: u16) -> (r: u32)
    ensures
        r == x,
{
    cast::u32(x)
}

/// The value of `x` as a `u16`, for an `x` that fits.
pub fn narrow(x: u32) -> (r: u16)
    requires
        x <= u16::MAX,
    ensures
        r == x,
{
    match to_u16(x) {
        Ok(r) => r,
        Err(_) => vstd::pervasive::unreached(),
    }
}

/// The value of `x` as a `u16`, or `None` for an `x` that does not fit.
pub fn try_narrow(x: u32) -> (r: Option<u16>)
    ensures
        r == (if x <= u16::MAX {
            Some(x as u16)
        } else {
            None
        }),
{
    match to_u16(x) {
        Ok(r) => Some(r),
        Err(_) => None,
    }
}

/// The value of `x` as a `u32`.
pub fn widen(x: u16) -> (r: u32)
    ensures
        r == x,
{
    to_u32(x)
}

} // verus!
