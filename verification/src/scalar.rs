//! The arithmetic that every model in this crate is built on.

use vstd::prelude::*;

verus! {

/// A number type with the operations that the models need.
///
/// Each operation comes in two parts: a specification function that names
/// its result, and an executable method that returns exactly that result.
/// Nothing else is asked of an implementation: no algebraic law is assumed,
/// so rounding, saturating and wrapping arithmetic all qualify. The few
/// results that need laws ask for them through
/// [`Lawful`](crate::laws::Lawful).
///
/// What the library proves of its results holds of a scalar type as far as
/// its methods do return what its specification functions name. For
/// [`Fixed`](crate::fixed::Fixed) that is proved here. An implementation
/// in plain Rust, such as one for IEEE doubles, is not read by the verifier;
/// there each specification function is an ordinary function and is given
/// the body of the operation it names.
pub trait Scalar: Copy {
    /// The scalar that stands for the whole number `n`.
    spec fn from_count_spec(n: u64) -> Self;

    /// `self + rhs`.
    spec fn plus_spec(self, rhs: Self) -> Self;

    /// `self - rhs`.
    spec fn minus_spec(self, rhs: Self) -> Self;

    /// `self * rhs`.
    spec fn times_spec(self, rhs: Self) -> Self;

    /// `self / rhs`.
    spec fn over_spec(self, rhs: Self) -> Self;

    /// `-self`.
    spec fn negated_spec(self) -> Self;

    /// `e` raised to `self`.
    spec fn exp_spec(self) -> Self;

    /// `self < rhs`.
    spec fn less_than_spec(self, rhs: Self) -> bool;

    fn from_count(n: u64) -> (r: Self)
        ensures
            r == Self::from_count_spec(n),
    ;

    fn plus(self, rhs: Self) -> (r: Self)
        ensures
            r == self.plus_spec(rhs),
    ;

    fn minus(self, rhs: Self) -> (r: Self)
        ensures
            r == self.minus_spec(rhs),
    ;

    fn times(self, rhs: Self) -> (r: Self)
        ensures
            r == self.times_spec(rhs),
    ;

    fn over(self, rhs: Self) -> (r: Self)
        ensures
            r == self.over_spec(rhs),
    ;

    fn negated(self) -> (r: Self)
        ensures
            r == self.negated_spec(),
    ;

    fn exp(self) -> (r: Self)
        ensures
            r == self.exp_spec(),
    ;

    fn less_than(self, rhs: Self) -> (r: bool)
        ensures
            r == self.less_than_spec(rhs),
    ;
}

/// The scalar zero.
pub open spec fn zero<S: Scalar>() -> S {
    S::from_count_spec(0)
}

/// The scalar one.
pub open spec fn one<S: Scalar>() -> S {
    S::from_count_spec(1)
}

/// The logistic function `1 / (1 + e^-x)`.
pub open spec fn sigmoid_spec<S: Scalar>(x: S) -> S {
    one::<S>().over_spec(one::<S>().plus_spec(x.negated_spec().exp_spec()))
}

/// Whether `x` is strictly greater than zero.
pub open spec fn is_positive<S: Scalar>(x: S) -> bool {
    zero::<S>().less_than_spec(x)
}

/// Computes the logistic function of `x`.
pub fn sigmoid<S: Scalar>(x: S) -> (r: S)
    ensures
        r == sigmoid_spec(x),
{
    let unit = S::from_count(1);
    unit.over(unit.plus(x.negated().exp()))
}

/// Tells whether `x` is strictly greater than zero.
pub fn positive<S: Scalar>(x: S) -> (r: bool)
    ensures
        r == is_positive(x),
{
    S::from_count(0).less_than(x)
}

} // verus!
