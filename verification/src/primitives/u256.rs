//! 256-bit unsigned amounts.

use vstd::prelude::*;

verus! {

/// Two to the power 64: the weight of the second limb.
pub open spec fn pow2_64() -> nat {
    0x1_0000_0000_0000_0000nat
}

/// Two to the power 128: the weight of the third limb.
pub open spec fn pow2_128() -> nat {
    0x1_0000_0000_0000_0000_0000_0000_0000_0000nat
}

/// Two to the power 192: the weight of the fourth limb.
pub open spec fn pow2_192() -> nat {
    0x1_0000_0000_0000_0000_0000_0000_0000_0000_0000_0000_0000_0000nat
}

/// Two to the power 256: one more than the largest amount.
pub open spec fn pow2_256() -> nat {
    0x1_0000_0000_0000_0000_0000_0000_0000_0000_0000_0000_0000_0000_0000_0000_0000_0000nat
}

/// The number that four 64-bit limbs spell, least significant limb first.
pub open spec fn limbs_value(limbs: Seq<u64>) -> nat
    recommends
        limbs.len() == 4,
{
    (limbs[0] as nat) + (limbs[1] as nat) * pow2_64() + (limbs[2] as nat) * pow2_128() + (
    limbs[3] as nat) * pow2_192()
}

/// Adds two 256-bit numbers with `alloy_primitives::U256::checked_add`, moving
/// the limbs in with `from_limbs` and out with `into_limbs`.
///
/// Trusted: the limbs are little-endian, and the sum is returned when it fits
/// in 256 bits and `None` when it does not.
#[verifier::external_body]
fn limbs_checked_add(a: [u64; 4], b: [u64; 4]) -> (sum: Option<[u64; 4]>)
    ensures
        (match sum {
            Some(s) => limbs_value(s@) == limbs_value(a@) + limbs_value(b@),
            None => limbs_value(a@) + limbs_value(b@) >= pow2_256(),
        }),
{
    let x = alloy_primitives::U256::from_limbs(a);
    let y = alloy_primitives::U256::from_limbs(b);
    match x.checked_add(y) {
        Some(s) => Some(s.into_limbs()),
        None => None,
    }
}

/// Subtracts two 256-bit numbers with `alloy_primitives::U256::checked_sub`,
/// moving the limbs in with `from_limbs` and out with `into_limbs`.
///
/// Trusted: the limbs are little-endian, and the difference is returned when
/// it is not negative and `None` when it is.
#[verifier::external_body]
fn limbs_checked_sub(a: [u64; 4], b: [u64; 4]) -> (difference: Option<[u64; 4]>)
    ensures
        (match difference {
            Some(d) => limbs_value(d@) + limbs_value(b@) == limbs_value(a@),
            None => limbs_value(a@) < limbs_value(b@),
        }),
{
    let x = alloy_primitives::U256::from_limbs(a);
    let y = alloy_primitives::U256::from_limbs(b);
    match x.checked_sub(y) {
        Some(d) => Some(d.into_limbs()),
        None => None,
    }
}

/// An unsigned 256-bit amount, held as four 64-bit limbs, least significant
/// first. Its view is the number it stands for.
#[derive(Clone, Copy, Debug, PartialEq, Eq)]
pub struct U256 {
    limbs: [u64; 4],
}

impl View for U256 {
    type V = nat;

    closed spec fn view(&self) -> nat {
        limbs_value(self.limbs@)
    }
}

impl U256 {
    /// The largest amount, two to the power 256 less one.
    pub open spec fn max_value() -> nat {
        (pow2_256() - 1) as nat
    }

    /// Every amount lies below two to the power 256.
    pub proof fn lemma_in_range(self)
        ensures
            self@ <= U256::max_value(),
    {
    }

    /// Two amounts that stand for the same number are the same amount.
    pub proof fn lemma_same_number(self, other: U256)
        requires
            self@ == other@,
        ensures
            self == other,
    {
        let a = self.limbs@;
        let b = other.limbs@;
        assert(a[3] == b[3]);
        assert(a[2] == b[2]);
        assert(a[1] == b[1]);
        assert(a[0] == b[0]);
        assert(self.limbs =~= other.limbs);
    }

    /// The amount zero.
    pub fn zero() -> (z: U256)
        ensures
            z@ == 0,
    {
        U256 { limbs: [0, 0, 0, 0] }
    }

    /// The amount `value`.
    pub fn from_u64(value: u64) -> (x: U256)
        ensures
            x@ == value,
    {
        U256 { limbs: [value, 0, 0, 0] }
    }

    /// The amount that the limbs spell, least significant limb first.
    pub fn from_limbs(limbs: [u64; 4]) -> (x: U256)
        ensures
            x@ == limbs_value(limbs@),
    {
        U256 { limbs }
    }

    /// The limbs of the amount, least significant first.
    pub fn into_limbs(self) -> (limbs: [u64; 4])
        ensures
            limbs_value(limbs@) == self@,
    {
        self.limbs
    }

    /// The sum of two amounts, or `None` when it exceeds 256 bits.
    pub fn checked_add(self, rhs: U256) -> (sum: Option<U256>)
        ensures
            (match sum {
                Some(s) => s@ == self@ + rhs@,
                None => self@ + rhs@ > U256::max_value(),
            }),
    {
        match limbs_checked_add(self.limbs, rhs.limbs) {
            Some(limbs) => Some(U256 { limbs }),
            None => None,
        }
    }

    /// The difference of two amounts, or `None` when `rhs` is the larger.
    pub fn checked_sub(self, rhs: U256) -> (difference: Option<U256>)
        ensures
            (match difference {
                Some(d) => rhs@ <= self@ && d@ == self@ - rhs@,
                None => self@ < rhs@,
            }),
    {
        match limbs_checked_sub(self.limbs, rhs.limbs) {
            Some(limbs) => Some(U256 { limbs }),
            None => None,
        }
    }
}

} // verus!
