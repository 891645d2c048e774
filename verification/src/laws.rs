//! What holds of the models over every scalar type whose arithmetic keeps
//! a few laws.

use vstd::prelude::*;
use crate::cost::{expected_of, mean_squared_error_spec, squared_error_sum};
use crate::dataset::uniform;
use crate::fixed::Fixed;
use crate::scalar::{zero, Scalar};
use crate::trainer::{descend, gradient_spec, partial, perturbed, step_spec};
use crate::unit::{cost_spec, forward_with, predictions_with, weighted_sum, Unit};

verus! {

/// Whether `x` is not below zero.
pub open spec fn not_negative<S: Scalar>(x: S) -> bool {
    !x.less_than_spec(zero::<S>())
}

/// A scalar type whose arithmetic keeps the laws that the proofs of this
/// module rest on. An implementation proves each of them.
pub trait Lawful: Scalar {
    /// Zero added to a number from the left leaves the number.
    proof fn zero_plus(a: Self)
        ensures
            zero::<Self>().plus_spec(a) == a,
    ;

    /// A sum does not depend on the order of its two terms.
    proof fn plus_commutes(a: Self, b: Self)
        ensures
            a.plus_spec(b) == b.plus_spec(a),
    ;

    /// A number less itself is zero.
    proof fn minus_self(a: Self)
        ensures
            a.minus_spec(a) == zero::<Self>(),
    ;

    /// The square of zero is zero.
    proof fn zero_squared()
        ensures
            zero::<Self>().times_spec(zero::<Self>()) == zero::<Self>(),
    ;

    /// Zero divided by a count is zero, also by the count zero.
    proof fn zero_share(n: u64)
        ensures
            zero::<Self>().over_spec(Self::from_count_spec(n)) == zero::<Self>(),
    ;

    /// Zero is not below zero.
    proof fn zero_not_negative()
        ensures
            not_negative(zero::<Self>()),
    ;

    /// No square is below zero.
    proof fn square_not_negative(a: Self)
        ensures
            not_negative(a.times_spec(a)),
    ;

    /// The sum of two numbers that are not below zero is not below zero.
    proof fn sum_not_negative(a: Self, b: Self)
        requires
            not_negative(a),
            not_negative(b),
        ensures
            not_negative(a.plus_spec(b)),
    ;

    /// A number that is not below zero, divided by a count, is not below
    /// zero.
    proof fn share_not_negative(a: Self, n: u64)
        requires
            not_negative(a),
        ensures
            not_negative(a.over_spec(Self::from_count_spec(n))),
    ;
}

impl Lawful for Fixed {
    proof fn zero_plus(a: Fixed) {
    }

    proof fn plus_commutes(a: Fixed, b: Fixed) {
    }

    proof fn minus_self(a: Fixed) {
    }

    proof fn zero_squared() {
        assert((0int * 0int) / 65536 == 0) by (nonlinear_arith);
    }

    proof fn zero_share(n: u64) {
        let count = Fixed::from_count_spec(n).raw as int;
        if count != 0 {
            assert((0int * 65536int) / count == 0) by (nonlinear_arith)
                requires
                    count != 0,
            ;
        }
    }

    proof fn zero_not_negative() {
    }

    proof fn square_not_negative(a: Fixed) {
        assert((a.raw * a.raw) / 65536 >= 0) by (nonlinear_arith);
    }

    proof fn sum_not_negative(a: Fixed, b: Fixed) {
    }

    proof fn share_not_negative(a: Fixed, n: u64) {
        let count = Fixed::from_count_spec(n).raw as int;
        let total = a.raw as int;
        if count != 0 {
            assert((total * 65536) / count >= 0) by (nonlinear_arith)
                requires
                    total >= 0,
                    count > 0,
            ;
        }
    }
}

proof fn lemma_sum_of_squares_not_negative<S: Lawful>(
    predicted: Seq<S>,
    expected: Seq<S>,
    k: nat,
)
    ensures
        not_negative(squared_error_sum(predicted, expected, k)),
    decreases k,
{
    if k == 0 {
        S::zero_not_negative();
    } else {
        lemma_sum_of_squares_not_negative(predicted, expected, (k - 1) as nat);
        let d = predicted[k - 1].minus_spec(expected[k - 1]);
        S::square_not_negative(d);
        S::sum_not_negative(
            squared_error_sum(predicted, expected, (k - 1) as nat),
            d.times_spec(d),
        );
    }
}

/// The mean squared error is never below zero, whatever the predictions
/// and the expected values are.
pub proof fn lemma_mean_squared_error_not_negative<S: Lawful>(
    predicted: Seq<S>,
    expected: Seq<S>,
)
    ensures
        not_negative(mean_squared_error_spec(predicted, expected)),
{
    lemma_sum_of_squares_not_negative(predicted, expected, expected.len());
    S::share_not_negative(
        squared_error_sum(predicted, expected, expected.len()),
        expected.len() as u64,
    );
}

/// The cost of a sigmoid unit is never below zero, whatever its weights,
/// its bias and the table are.
pub proof fn lemma_cost_not_negative<S: Lawful>(weights: Seq<S>, bias: S, rows: Seq<(Seq<S>, S)>)
    ensures
        not_negative(cost_spec(weights, bias, rows)),
{
    lemma_mean_squared_error_not_negative(
        predictions_with(weights, bias, rows),
        expected_of(rows),
    );
}

proof fn lemma_sum_of_squares_exact<S: Lawful>(predicted: Seq<S>, expected: Seq<S>, k: nat)
    requires
        k <= expected.len(),
        predicted.len() == expected.len(),
        forall|i: int| 0 <= i < k ==> predicted[i] == expected[i],
    ensures
        squared_error_sum(predicted, expected, k) == zero::<S>(),
    decreases k,
{
    if k > 0 {
        lemma_sum_of_squares_exact(predicted, expected, (k - 1) as nat);
        S::minus_self(expected[k - 1]);
        S::zero_squared();
        S::zero_plus(zero::<S>());
    }
}

/// The mean squared error is zero where every prediction equals its
/// expected value.
pub proof fn lemma_mean_squared_error_zero_when_exact<S: Lawful>(
    predicted: Seq<S>,
    expected: Seq<S>,
)
    requires
        predicted.len() == expected.len(),
        forall|i: int| 0 <= i < expected.len() ==> predicted[i] == expected[i],
    ensures
        mean_squared_error_spec(predicted, expected) == zero::<S>(),
{
    lemma_sum_of_squares_exact(predicted, expected, expected.len());
    S::zero_share(expected.len() as u64);
}

/// The cost of a sigmoid unit is zero where it answers every row of the
/// table with the value that the row expects.
pub proof fn lemma_cost_zero_when_exact<S: Lawful>(weights: Seq<S>, bias: S, rows: Seq<(Seq<S>, S)>)
    requires
        forall|i: int| 0 <= i < rows.len() ==> forward_with(weights, bias, rows[i].0) == rows[i].1,
    ensures
        cost_spec(weights, bias, rows) == zero::<S>(),
{
    lemma_mean_squared_error_zero_when_exact(
        predictions_with(weights, bias, rows),
        expected_of(rows),
    );
}

/// The rows with their two inputs in the other order.
pub open spec fn swapped<S>(rows: Seq<(Seq<S>, S)>) -> Seq<(Seq<S>, S)> {
    Seq::new(rows.len(), |i: int| (seq![rows[i].0[1], rows[i].0[0]], rows[i].1))
}

proof fn lemma_forward_swaps<S: Lawful>(u: S, v: S, bias: S, x: Seq<S>)
    requires
        x.len() == 2,
    ensures
        forward_with(seq![u, v], bias, x) == forward_with(seq![v, u], bias, seq![x[1], x[0]]),
{
    let first = u.times_spec(x[0]);
    let second = v.times_spec(x[1]);
    reveal_with_fuel(weighted_sum, 3);
    assert(weighted_sum(seq![u, v], x, 2) == zero::<S>().plus_spec(first).plus_spec(second));
    assert(weighted_sum(seq![v, u], seq![x[1], x[0]], 2) == zero::<S>().plus_spec(
        second,
    ).plus_spec(first));
    S::zero_plus(first);
    S::zero_plus(second);
    S::plus_commutes(first, second);
}

/// A unit with two weights has on a table the cost that the unit with the
/// weights exchanged has on the table with the inputs exchanged.
pub proof fn lemma_cost_swaps<S: Lawful>(u: S, v: S, bias: S, rows: Seq<(Seq<S>, S)>)
    requires
        uniform(rows, 2),
    ensures
        cost_spec(seq![u, v], bias, rows) == cost_spec(seq![v, u], bias, swapped(rows)),
{
    let mirror = swapped(rows);
    assert forall|i: int| 0 <= i < rows.len() implies predictions_with(seq![u, v], bias, rows)[i]
        == predictions_with(seq![v, u], bias, mirror)[i] by {
        lemma_forward_swaps(u, v, bias, rows[i].0);
    }
    assert(predictions_with(seq![u, v], bias, rows) =~= predictions_with(
        seq![v, u],
        bias,
        mirror,
    ));
    assert(expected_of(rows) =~= expected_of(mirror));
}

/// One iteration does not depend on the order in which a unit holds its
/// two inputs: a unit with the weights `(u, v)` on a table, and the unit
/// with the weights `(v, u)` on the table with the inputs exchanged, come
/// out of one iteration with their weights exchanged and with the same
/// bias.
pub proof fn lemma_step_swaps<S: Lawful>(
    u: S,
    v: S,
    bias: S,
    rows: Seq<(Seq<S>, S)>,
    eps: S,
    rate: S,
)
    requires
        uniform(rows, 2),
    ensures
        ({
            let one = step_spec::<S, Unit<S>>(seq![u, v, bias], rows, eps, rate);
            let other = step_spec::<S, Unit<S>>(seq![v, u, bias], swapped(rows), eps, rate);
            &&& one[0] == other[1]
            &&& one[1] == other[0]
            &&& one[2] == other[2]
        }),
{
    let p = seq![u, v, bias];
    let q = seq![v, u, bias];
    let mirror = swapped(rows);
    let raised_u = u.plus_spec(eps);
    let raised_v = v.plus_spec(eps);
    let raised_bias = bias.plus_spec(eps);
    assert(p.drop_last() =~= seq![u, v]);
    assert(q.drop_last() =~= seq![v, u]);
    assert(perturbed(p, 0, eps).drop_last() =~= seq![raised_u, v]);
    assert(perturbed(q, 1, eps).drop_last() =~= seq![v, raised_u]);
    assert(perturbed(p, 1, eps).drop_last() =~= seq![u, raised_v]);
    assert(perturbed(q, 0, eps).drop_last() =~= seq![raised_v, u]);
    assert(perturbed(p, 2, eps).drop_last() =~= seq![u, v]);
    assert(perturbed(q, 2, eps).drop_last() =~= seq![v, u]);
    lemma_cost_swaps(u, v, bias, rows);
    lemma_cost_swaps(raised_u, v, bias, rows);
    lemma_cost_swaps(u, raised_v, bias, rows);
    lemma_cost_swaps(u, v, raised_bias, rows);
    assert(partial::<S, Unit<S>>(p, rows, eps, 0) == partial::<S, Unit<S>>(q, mirror, eps, 1));
    assert(partial::<S, Unit<S>>(p, rows, eps, 1) == partial::<S, Unit<S>>(q, mirror, eps, 0));
    assert(partial::<S, Unit<S>>(p, rows, eps, 2) == partial::<S, Unit<S>>(q, mirror, eps, 2));
    let g = gradient_spec::<S, Unit<S>>(p, rows, eps);
    let h = gradient_spec::<S, Unit<S>>(q, mirror, eps);
    assert(g[0] == h[1] && g[1] == h[0] && g[2] == h[2]);
    assert(descend(p, g, rate)[0] == descend(q, h, rate)[1]);
    assert(descend(p, g, rate)[1] == descend(q, h, rate)[0]);
    assert(descend(p, g, rate)[2] == descend(q, h, rate)[2]);
}

} // verus!
