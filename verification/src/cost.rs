//! How far a model's predictions are from what a table asks for.

use vstd::prelude::*;
use crate::dataset::TrainingDataSet;
use crate::error::Error;
use crate::scalar::{zero, Scalar};

verus! {

/// The expected outputs of the rows, in order.
pub open spec fn expected_of<S>(rows: Seq<(Seq<S>, S)>) -> Seq<S> {
    Seq::new(rows.len(), |i: int| rows[i].1)
}

/// The squares of the first `k` differences `predicted[i] - expected[i]`,
/// added up from the left, starting at zero.
pub open spec fn squared_error_sum<S: Scalar>(predicted: Seq<S>, expected: Seq<S>, k: nat) -> S
    decreases k,
{
    if k == 0 {
        zero::<S>()
    } else {
        let d = predicted[k - 1].minus_spec(expected[k - 1]);
        squared_error_sum(predicted, expected, (k - 1) as nat).plus_spec(d.times_spec(d))
    }
}

/// The sum of all squared differences, divided by their number.
pub open spec fn mean_squared_error_spec<S: Scalar>(predicted: Seq<S>, expected: Seq<S>) -> S {
    squared_error_sum(predicted, expected, expected.len()).over_spec(
        S::from_count_spec(expected.len() as u64),
    )
}

/// Adds up the squared differences between the predictions and the
/// expected outputs of the rows of `data`, or reports `DimensionMismatch`
/// where there is not one prediction for each row.
pub fn sum_squared_errors<S: Scalar>(predicted: &Vec<S>, data: &TrainingDataSet<S>) -> (r: Result<
    S,
    Error,
>)
    ensures
        predicted@.len() == data@.len() ==> r == Ok::<S, Error>(
            squared_error_sum(predicted@, expected_of(data@), data@.len()),
        ),
        predicted@.len() != data@.len() ==> r == Err::<S, Error>(Error::DimensionMismatch),
{
    if predicted.len() != data.len() {
        return Err(Error::DimensionMismatch);
    }
    Ok(sum_on(predicted, data))
}

/// The mean squared error of the predictions against the rows of `data`,
/// or `DimensionMismatch` where there is not one prediction for each row.
pub fn mean_squared_error<S: Scalar>(predicted: &Vec<S>, data: &TrainingDataSet<S>) -> (r: Result<
    S,
    Error,
>)
    ensures
        predicted@.len() == data@.len() ==> r == Ok::<S, Error>(
            mean_squared_error_spec(predicted@, expected_of(data@)),
        ),
        predicted@.len() != data@.len() ==> r == Err::<S, Error>(Error::DimensionMismatch),
{
    if predicted.len() != data.len() {
        return Err(Error::DimensionMismatch);
    }
    Ok(mean_on(predicted, data))
}

/// The sum of the squared differences where there is one prediction for
/// each row.
pub(crate) fn sum_on<S: Scalar>(predicted: &Vec<S>, data: &TrainingDataSet<S>) -> (c: S)
    requires
        predicted@.len() == data@.len(),
    ensures
        c == squared_error_sum(predicted@, expected_of(data@), data@.len()),
{
    let n: usize = data.len();
    let mut total = S::from_count(0);
    let mut k: usize = 0;
    while k < n
        invariant
            k <= n,
            n == data@.len(),
            n == predicted@.len(),
            total == squared_error_sum(predicted@, expected_of(data@), k as nat),
        decreases n - k,
    {
        let d = predicted[k].minus(data.at(k).expected);
        total = total.plus(d.times(d));
        k += 1;
    }
    total
}

/// The mean squared error where there is one prediction for each row.
pub(crate) fn mean_on<S: Scalar>(predicted: &Vec<S>, data: &TrainingDataSet<S>) -> (c: S)
    requires
        predicted@.len() == data@.len(),
    ensures
        c == mean_squared_error_spec(predicted@, expected_of(data@)),
{
    let total = sum_on(predicted, data);
    let n: usize = data.len();
    total.over(S::from_count(n as u64))
}

} // verus!
