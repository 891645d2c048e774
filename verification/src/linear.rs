//! The smallest model: one weight and a bias, with no activation.

use vstd::prelude::*;
use rand::rngs::StdRng;
use crate::cost::{expected_of, squared_error_sum, sum_on};
use crate::dataset::TrainingDataSet;
use crate::error::Error;
use crate::random::next_in_range;
use crate::scalar::Scalar;
use crate::trainer::Model;

verus! {

/// What a cell with the given weight and bias answers to `x`:
/// `x * weight + bias`.
pub open spec fn line<S: Scalar>(weight: S, bias: S, x: S) -> S {
    x.times_spec(weight).plus_spec(bias)
}

/// The answers of such a cell to the first input of each row, in order.
pub open spec fn line_predictions<S: Scalar>(
    weight: S,
    bias: S,
    rows: Seq<(Seq<S>, S)>,
) -> Seq<S> {
    Seq::new(rows.len(), |i: int| line(weight, bias, rows[i].0[0]))
}

/// The sum of the squared errors of such a cell on the rows of a table.
/// Unlike the cost of a sigmoid unit, it is not divided by the number of
/// rows.
pub open spec fn linear_cost_spec<S: Scalar>(weight: S, bias: S, rows: Seq<(Seq<S>, S)>) -> S {
    squared_error_sum(line_predictions(weight, bias, rows), expected_of(rows), rows.len())
}

/// The sum of the squared errors that a cell with the given weight and
/// bias has on `dataset`, or `DimensionMismatch` where the rows of
/// `dataset` have not one input.
pub fn linear_cost<S: Scalar>(weight: S, bias: S, dataset: &TrainingDataSet<S>) -> (r: Result<
    S,
    Error,
>)
    ensures
        dataset.arity_spec() == 1 ==> r == Ok::<S, Error>(
            linear_cost_spec(weight, bias, dataset@),
        ),
        dataset.arity_spec() != 1 ==> r == Err::<S, Error>(Error::DimensionMismatch),
{
    if dataset.arity() != 1 {
        return Err(Error::DimensionMismatch);
    }
    Ok(cost_on(weight, bias, dataset))
}

/// The sum of the squared errors on a table whose rows have one input.
fn cost_on<S: Scalar>(weight: S, bias: S, dataset: &TrainingDataSet<S>) -> (c: S)
    requires
        dataset.arity_spec() == 1,
    ensures
        c == linear_cost_spec(weight, bias, dataset@),
{
    let n: usize = dataset.len();
    let mut predicted: Vec<S> = Vec::with_capacity(n);
    let mut k: usize = 0;
    while k < n
        invariant
            k <= n,
            n == dataset@.len(),
            dataset.arity_spec() == 1,
            predicted@.len() == k,
            forall|t: int|
                0 <= t < k ==> #[trigger] predicted@[t] == line(weight, bias, dataset@[t].0[0]),
        decreases n - k,
    {
        let example = dataset.at(k);
        predicted.push(example.inputs[0].times(weight).plus(bias));
        k += 1;
    }
    proof {
        assert(predicted@ =~= line_predictions(weight, bias, dataset@));
    }
    sum_on(&predicted, dataset)
}

/// A cell that answers `x * weight + bias`.
#[derive(Clone, Copy, Debug, PartialEq)]
pub struct LinearCell<S: Scalar> {
    pub weight: S,
    pub bias: S,
}

/// Whether `cell` has a whole weight from `1..5` and a whole bias from
/// `0..5`.
pub open spec fn small_whole_cell<S: Scalar>(cell: LinearCell<S>) -> bool {
    exists|w: u64, b: u64|
        1 <= w < 5 && b < 5 && cell == #[trigger] LinearCell::<S>::of_counts(w, b)
}

impl<S: Scalar> LinearCell<S> {
    /// The cell with the whole weight `weight` and the whole bias `bias`.
    pub open spec fn of_counts(weight: u64, bias: u64) -> LinearCell<S> {
        LinearCell { weight: S::from_count_spec(weight), bias: S::from_count_spec(bias) }
    }

    /// Makes the cell with the whole weight `weight` and the whole bias
    /// `bias`.
    pub fn from_counts(weight: u64, bias: u64) -> (cell: LinearCell<S>)
        ensures
            cell == Self::of_counts(weight, bias),
    {
        LinearCell { weight: S::from_count(weight), bias: S::from_count(bias) }
    }

    /// Makes a cell with a whole weight drawn from `1..5` and a whole bias
    /// drawn from `0..5`, in this order.
    pub fn new_random(rng: &mut StdRng) -> (cell: LinearCell<S>)
        ensures
            small_whole_cell(cell),
    {
        let weight = next_in_range(rng, 1, 5);
        let bias = next_in_range(rng, 0, 5);
        Self::from_counts(weight, bias)
    }

    /// Answers `x`.
    pub fn forward(&self, x: S) -> (r: S)
        ensures
            r == line(self.weight, self.bias, x),
    {
        x.times(self.weight).plus(self.bias)
    }
}

impl<S: Scalar> Model<S> for LinearCell<S> {
    open spec fn valid(&self) -> bool {
        true
    }

    open spec fn arity(&self) -> nat {
        1
    }

    /// The weight, then the bias.
    open spec fn params(&self) -> Seq<S> {
        seq![self.weight, self.bias]
    }

    open spec fn answer_of(params: Seq<S>, inputs: Seq<S>) -> S {
        line(params[0], params[1], inputs[0])
    }

    open spec fn cost_of(params: Seq<S>, rows: Seq<(Seq<S>, S)>) -> S {
        linear_cost_spec(params[0], params[1], rows)
    }

    fn input_count(&self) -> (n: usize) {
        1
    }

    fn param_count(&self) -> (n: usize) {
        2
    }

    fn param(&self, index: usize) -> (v: S) {
        if index == 0 {
            self.weight
        } else {
            self.bias
        }
    }

    fn set_param(&mut self, index: usize, value: S) {
        if index == 0 {
            self.weight = value;
        } else {
            self.bias = value;
        }
        proof {
            assert(self.params() =~= old(self).params().update(index as int, value));
        }
    }

    fn answer(&self, inputs: &Vec<S>) -> (r: S) {
        self.forward(inputs[0])
    }

    fn cost(&self, data: &TrainingDataSet<S>) -> (c: S) {
        cost_on(self.weight, self.bias, data)
    }
}

} // verus!
