//! Unsigned 256-bit integers, held as four little-endian 64-bit limbs.
//! The arithmetic itself is done by the `uint` type that spl-math exports.

use vstd::prelude::*;

verus! {

/// 2^64, the weight of one limb.
pub open spec fn limb_base() -> nat {
    0x1_0000_0000_0000_0000
}

/// 2^256: every value of a `U256` lies below it.
pub open spec fn u256_limit() -> nat {
    limb_base() * limb_base() * limb_base() * limb_base()
}

/// `Some(x)` when `x` fits in 256 bits.
pub open spec fn fit(x: nat) -> Option<nat> {
    if x < u256_limit() {
        Some(x)
    } else {
        None
    }
}

/// Subtraction that fails below zero.
pub open spec fn sub_opt(a: nat, b: nat) -> Option<nat> {
    if a >= b {
        Some((a - b) as nat)
    } else {
        None
    }
}

/// Division that fails on a zero divisor.
pub open spec fn div_opt(a: nat, b: nat) -> Option<nat> {
    if b > 0 {
        Some(a / b)
    } else {
        None
    }
}

/// An unsigned 256-bit integer; `limbs[0]` is the least significant limb.
#[derive(Clone, Copy, Debug, PartialEq, Eq)]
pub struct U256 {
    pub limbs: [u64; 4],
}

impl View for U256 {
    type V = nat;

    open spec fn view(&self) -> nat {
        self.limbs@[0] as nat + limb_base() * (self.limbs@[1] as nat + limb_base() * (
        self.limbs@[2] as nat + limb_base() * (self.limbs@[3] as nat)))
    }
}

/// The value inside an optional `U256`.
pub open spec fn opt_view(r: Option<U256>) -> Option<nat> {
    match r {
        Some(x) => Some(x@),
        None => None,
    }
}

impl U256 {
    /// Zero.
    pub fn zero() -> (r: U256)
        ensures
            r@ == 0,
    {
        U256 { limbs: [0, 0, 0, 0] }
    }

    /// The value of a `u64`.
    pub fn from_u64(v: u64) -> (r: U256)
        ensures
            r@ == v as nat,
    {
        U256 { limbs: [v, 0, 0, 0] }
    }

    /// The value as a `u64`, or `None` when it does not fit in 64 bits.
    pub fn to_u64(&self) -> (r: Option<u64>)
        ensures
            r == (if self@ < limb_base() {
                Some(self@ as u64)
            } else {
                None
            }),
    {
        let l1 = self.limbs[1];
        let l2 = self.limbs[2];
        let l3 = self.limbs[3];
        proof {
            let b = limb_base();
            let h = l1 as nat + b * (l2 as nat + b * (l3 as nat));
            assert(self@ == self.limbs@[0] as nat + b * h);
            assert(h == 0 ==> b * h == 0) by (nonlinear_arith);
            assert(h > 0 ==> b * h >= b) by (nonlinear_arith);
        }
        if l1 == 0 && l2 == 0 && l3 == 0 {
            Some(self.limbs[0])
        } else {
            None
        }
    }

    /// Relies on uint's `U256::checked_add`: `None` exactly when the sum
    /// does not fit in 256 bits.
    #[verifier::external_body]
    pub(crate) fn checked_add(self, other: U256) -> (r: Option<U256>)
        ensures
            opt_view(r) == fit(self@ + other@),
    {
        spl_math::uint::U256(self.limbs).checked_add(spl_math::uint::U256(other.limbs)).map(
            |x| U256 { limbs: x.0 },
        )
    }

    /// Relies on uint's `U256::checked_sub`: `None` exactly when `other`
    /// exceeds `self`.
    #[verifier::external_body]
    pub(crate) fn checked_sub(self, other: U256) -> (r: Option<U256>)
        ensures
            opt_view(r) == sub_opt(self@, other@),
    {
        spl_math::uint::U256(self.limbs).checked_sub(spl_math::uint::U256(other.limbs)).map(
            |x| U256 { limbs: x.0 },
        )
    }

    /// Relies on uint's `U256::checked_mul`: `None` exactly when the product
    /// does not fit in 256 bits.
    #[verifier::external_body]
    pub(crate) fn checked_mul(self, other: U256) -> (r: Option<U256>)
        ensures
            opt_view(r) == fit(self@ * other@),
    {
        spl_math::uint::U256(self.limbs).checked_mul(spl_math::uint::U256(other.limbs)).map(
            |x| U256 { limbs: x.0 },
        )
    }

    /// Relies on uint's `U256::checked_div`: the floor of the quotient,
    /// `None` exactly when `other` is zero.
    #[verifier::external_body]
    pub(crate) fn checked_div(self, other: U256) -> (r: Option<U256>)
        ensures
            opt_view(r) == div_opt(self@, other@),
    {
        spl_math::uint::U256(self.limbs).checked_div(spl_math::uint::U256(other.limbs)).map(
            |x| U256 { limbs: x.0 },
        )
    }

    /// Relies on uint's `Ord` for `U256`, which compares the limbs from the
    /// most significant down, that is, the values.
    #[verifier::external_body]
    pub(crate) fn lt(&self, other: &U256) -> (r: bool)
        ensures
            r == (self@ < other@),
    {
        spl_math::uint::U256(self.limbs) < spl_math::uint::U256(other.limbs)
    }
}

} // verus!
