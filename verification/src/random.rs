//! Random starting parameters, drawn from a generator that the caller
//! supplies and seeds.

use vstd::prelude::*;
use rand::rngs::StdRng;
use rand::Rng;
use rand::RngCore;
use crate::scalar::Scalar;

verus! {

/// The generator of the `rand` crate that callers hand in. Nothing is known
/// of its state here.
#[verifier::external_type_specification]
#[verifier::external_body]
pub struct ExStdRng(StdRng);

/// Draws the next 64 bits from the generator by `RngCore::next_u64`.
/// Nothing is claimed of the bits.
#[verifier::external_body]
pub(crate) fn next_bits(rng: &mut StdRng) -> (bits: u64) {
    rng.next_u64()
}

/// Draws a whole number from `low..high` by `Rng::gen_range`, which panics
/// on an empty range and otherwise returns a member of the range.
#[verifier::external_body]
pub(crate) fn next_in_range(rng: &mut StdRng, low: u64, high: u64) -> (n: u64)
    requires
        low < high,
    ensures
        low <= n < high,
{
    rng.gen_range(low..high)
}

/// Two to the power 27: one more than the largest value of the upper part
/// of a draw.
pub const UPPER_STEPS: u64 = 0x800_0000;

/// Two to the power 26: one more than the largest value of the lower part
/// of a draw.
pub const LOWER_STEPS: u64 = 0x400_0000;

/// The upper 27 of the 64 bits, as a whole number.
pub open spec fn upper_part(bits: u64) -> u64 {
    bits / 0x20_0000_0000
}

/// The 26 bits below the upper 27, as a whole number. The lowest 11 bits
/// of a draw are not used.
pub open spec fn lower_part(bits: u64) -> u64 {
    (bits / 0x800) % 0x400_0000
}

/// The scalar that the upper 53 of the 64 bits stand for when they are
/// read as a fraction of two to the power 53:
/// `(upper + lower / 2^26) / 2^27`.
///
/// No count in this formula is above two to the power 27, so that a scalar
/// with a narrow range can hold all of them. In IEEE double precision each
/// of the three operations is exact, and the result is the 53 bits times
/// two to the power minus 53.
pub open spec fn unit_interval_spec<S: Scalar>(bits: u64) -> S {
    S::from_count_spec(upper_part(bits)).plus_spec(
        S::from_count_spec(lower_part(bits)).over_spec(S::from_count_spec(LOWER_STEPS)),
    ).over_spec(S::from_count_spec(UPPER_STEPS))
}

/// Whether `x` is what `unit_interval` makes of some 64 bits.
pub open spec fn drawn<S: Scalar>(x: S) -> bool {
    exists|bits: u64| x == #[trigger] unit_interval_spec::<S>(bits)
}

/// Turns 64 bits into the scalar that their upper 53 bits stand for as a
/// fraction of two to the power 53.
pub fn unit_interval<S: Scalar>(bits: u64) -> (r: S)
    ensures
        r == unit_interval_spec::<S>(bits),
        drawn(r),
{
    let upper: u64 = bits / 0x20_0000_0000;
    let lower: u64 = (bits / 0x800) % 0x400_0000;
    let r = S::from_count(upper).plus(S::from_count(lower).over(S::from_count(LOWER_STEPS))).over(
        S::from_count(UPPER_STEPS),
    );
    proof {
        assert(r == unit_interval_spec::<S>(bits));
    }
    r
}

/// Draws 64 bits from the generator and turns them into a scalar as
/// `unit_interval` does.
pub fn random_scalar<S: Scalar>(rng: &mut StdRng) -> (r: S)
    ensures
        drawn(r),
{
    unit_interval(next_bits(rng))
}

/// Draws `count` times 64 bits from the generator.
pub fn random_bits(rng: &mut StdRng, count: usize) -> (bits: Vec<u64>)
    ensures
        bits@.len() == count,
{
    let mut bits: Vec<u64> = Vec::with_capacity(count);
    let mut k: usize = 0;
    while k < count
        invariant
            k <= count,
            bits@.len() == k,
        decreases count - k,
    {
        bits.push(next_bits(rng));
        k += 1;
    }
    bits
}

/// Draws a whole number from `low..high` where there is one, and returns
/// `None` where the range is empty.
pub fn random_count(rng: &mut StdRng, low: u64, high: u64) -> (r: Option<u64>)
    ensures
        low >= high <==> r is None,
        r is Some ==> low <= r.unwrap() < high,
{
    if low < high {
        Some(next_in_range(rng, low, high))
    } else {
        None
    }
}

} // verus!
