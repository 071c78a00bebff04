//! Fixed-point numbers scaled by `ONE`, as spl-math's `PreciseNumber` holds
//! them: a `U256` whose value is the number times 10^12.

use crate::wide::{U256, opt_view};
use vstd::prelude::*;

verus! {

/// The fixed-point scale: the number one.
pub const ONE: u64 = 1_000_000_000_000;

/// What spl-math's fixed-point square root gives for a scaled `value`.
pub uninterp spec fn precise_sqrt(value: nat) -> Option<nat>;

/// Relies on spl-math's `PreciseNumber::sqrt` (Newton's method on the
/// scaled value): its result depends on the value alone, and the root of
/// zero is zero.
#[verifier::external_body]
pub(crate) fn sqrt(value: U256) -> (r: Option<U256>)
    ensures
        opt_view(r) == precise_sqrt(value@),
        value@ == 0 ==> opt_view(r) == Some(0nat),
{
    let n = spl_math::precise_number::PreciseNumber { value: spl_math::uint::U256(value.limbs) };
    n.sqrt().map(|x| U256 { limbs: x.value.0 })
}

} // verus!
