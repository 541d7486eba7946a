//! The size of the main screen.

use vstd::prelude::*;

use crate::redev::DisplayError;

verus! {

/// Relies on `<u64 as TryFrom<i32>>::try_from`: it succeeds exactly on values that are not
/// negative, and keeps them.
#[verifier::external_body]
fn u64_from_i32(v: i32) -> (r: Result<u64, core::num::TryFromIntError>)
    ensures
        r is Ok <==> v >= 0,
        r is Ok ==> r->Ok_0 == v,
{
    u64::try_from(v)
}

/// The size in pixels of the main screen, width first, from the metrics the OS reported
/// (`None` where it has no display). Fails with `NoDisplay` where there is none, and with
/// `ConversionError` where a metric is negative.
pub fn display_size(metrics: Option<(i32, i32)>) -> (r: Result<(u64, u64), DisplayError>)
    ensures
        match metrics {
            None => r matches Err(DisplayError::NoDisplay),
            Some((w, h)) => if w >= 0 && h >= 0 {
                r == Ok::<(u64, u64), DisplayError>((w as u64, h as u64))
            } else {
                r matches Err(DisplayError::ConversionError(_))
            },
        },
{
    match metrics {
        None => Err(DisplayError::NoDisplay),
        Some((w, h)) => {
            let width = match u64_from_i32(w) {
                Ok(v) => v,
                Err(e) => {
                    return Err(DisplayError::ConversionError(e));
                },
            };
            let height = match u64_from_i32(h) {
                Ok(v) => v,
                Err(e) => {
                    return Err(DisplayError::ConversionError(e));
                },
            };
            Ok((width, height))
        },
    }
}

} // verus!
