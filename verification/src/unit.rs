//! A single sigmoid unit: a weighted sum of the inputs plus a bias, passed
//! through the logistic function.

use vstd::prelude::*;
use rand::rngs::StdRng;
use crate::cost::{expected_of, mean_on, mean_squared_error_spec};
use crate::dataset::TrainingDataSet;
use crate::error::Error;
use crate::random::{drawn, next_bits, random_bits, unit_interval, unit_interval_spec};
use crate::scalar::{sigmoid, sigmoid_spec, zero, Scalar};
use crate::trainer::{
    config_ok, gradient_spec, partial, perturbed, refusal, step_spec, train_one_iteration, Model,
};

verus! {

/// The first `k` products `weights[i] * inputs[i]`, added up from the left,
/// starting at zero.
pub open spec fn weighted_sum<S: Scalar>(weights: Seq<S>, inputs: Seq<S>, k: nat) -> S
    decreases k,
{
    if k == 0 {
        zero::<S>()
    } else {
        weighted_sum(weights, inputs, (k - 1) as nat).plus_spec(
            weights[k - 1].times_spec(inputs[k - 1]),
        )
    }
}

/// What a unit with the given weights and bias answers to `inputs`:
/// `sigmoid(sum of weights[i] * inputs[i] + bias)`.
pub open spec fn forward_with<S: Scalar>(weights: Seq<S>, bias: S, inputs: Seq<S>) -> S {
    sigmoid_spec(weighted_sum(weights, inputs, weights.len()).plus_spec(bias))
}

/// The answers of such a unit to the rows of a table, in order.
pub open spec fn predictions_with<S: Scalar>(
    weights: Seq<S>,
    bias: S,
    rows: Seq<(Seq<S>, S)>,
) -> Seq<S> {
    Seq::new(rows.len(), |i: int| forward_with(weights, bias, rows[i].0))
}

/// The mean squared error of such a unit on the rows of a table.
pub open spec fn cost_spec<S: Scalar>(weights: Seq<S>, bias: S, rows: Seq<(Seq<S>, S)>) -> S {
    mean_squared_error_spec(predictions_with(weights, bias, rows), expected_of(rows))
}

/// The difference quotient of the cost in weight `index`.
pub open spec fn weight_partial<S: Scalar>(
    weights: Seq<S>,
    bias: S,
    rows: Seq<(Seq<S>, S)>,
    eps: S,
    index: int,
) -> S {
    cost_spec(weights.update(index, weights[index].plus_spec(eps)), bias, rows).minus_spec(
        cost_spec(weights, bias, rows),
    ).over_spec(eps)
}

/// The difference quotient of the cost in the bias.
pub open spec fn bias_partial<S: Scalar>(
    weights: Seq<S>,
    bias: S,
    rows: Seq<(Seq<S>, S)>,
    eps: S,
) -> S {
    cost_spec(weights, bias.plus_spec(eps), rows).minus_spec(
        cost_spec(weights, bias, rows),
    ).over_spec(eps)
}

fn forward_on<S: Scalar>(weights: &Vec<S>, bias: S, inputs: &Vec<S>) -> (r: S)
    requires
        inputs@.len() == weights@.len(),
    ensures
        r == forward_with(weights@, bias, inputs@),
{
    let n: usize = weights.len();
    let mut total = S::from_count(0);
    let mut k: usize = 0;
    while k < n
        invariant
            k <= n,
            n == weights@.len(),
            n == inputs@.len(),
            total == weighted_sum(weights@, inputs@, k as nat),
        decreases n - k,
    {
        total = total.plus(weights[k].times(inputs[k]));
        k += 1;
    }
    sigmoid(total.plus(bias))
}

/// The mean squared error that a unit with the given weights and bias has
/// on `dataset`, or `DimensionMismatch` where the rows of `dataset` have
/// not one input for each weight. It reads no unit: the parameters are the
/// arguments.
pub fn cost<S: Scalar>(weights: &Vec<S>, bias: S, dataset: &TrainingDataSet<S>) -> (r: Result<
    S,
    Error,
>)
    ensures
        dataset.arity_spec() == weights@.len() ==> r == Ok::<S, Error>(
            cost_spec(weights@, bias, dataset@),
        ),
        dataset.arity_spec() != weights@.len() ==> r == Err::<S, Error>(Error::DimensionMismatch),
{
    if dataset.arity() != weights.len() {
        return Err(Error::DimensionMismatch);
    }
    Ok(cost_on(weights, bias, dataset))
}

/// The mean squared error on a table whose rows fit the weights.
fn cost_on<S: Scalar>(weights: &Vec<S>, bias: S, dataset: &TrainingDataSet<S>) -> (c: S)
    requires
        dataset.arity_spec() == weights@.len(),
    ensures
        c == cost_spec(weights@, bias, dataset@),
{
    let n: usize = dataset.len();
    let mut predicted: Vec<S> = Vec::with_capacity(n);
    let mut k: usize = 0;
    while k < n
        invariant
            k <= n,
            n == dataset@.len(),
            dataset.arity_spec() == weights@.len(),
            predicted@.len() == k,
            forall|t: int|
                0 <= t < k ==> #[trigger] predicted@[t] == forward_with(
                    weights@,
                    bias,
                    dataset@[t].0,
                ),
        decreases n - k,
    {
        let example = dataset.at(k);
        predicted.push(forward_on(weights, bias, &example.inputs));
        k += 1;
    }
    proof {
        assert(predicted@ =~= predictions_with(weights@, bias, dataset@));
    }
    mean_on(&predicted, dataset)
}

/// A sigmoid unit. The number of its weights is fixed when it is made.
#[derive(Debug, PartialEq)]
pub struct Unit<S: Scalar> {
    weights: Vec<S>,
    bias: S,
}

impl<S: Scalar> Unit<S> {
    /// The weights.
    pub closed spec fn weights_spec(self) -> Seq<S> {
        self.weights@
    }

    /// The bias.
    pub closed spec fn bias_spec(self) -> S {
        self.bias
    }

    /// Makes the unit with the given weights and bias.
    pub fn new(weights: Vec<S>, bias: S) -> (unit: Unit<S>)
        ensures
            unit.weights_spec() == weights@,
            unit.bias_spec() == bias,
    {
        Unit { weights, bias }
    }

    /// Borrows the weights.
    pub fn weights(&self) -> (r: &Vec<S>)
        ensures
            r@ == self.weights_spec(),
    {
        &self.weights
    }

    /// Returns the bias.
    pub fn bias(&self) -> (r: S)
        ensures
            r == self.bias_spec(),
    {
        self.bias
    }

    /// Writes `value` over weight `index`, or over the bias where `index`
    /// is the number of weights.
    pub(crate) fn put(&mut self, index: usize, value: S)
        requires
            index <= old(self).weights_spec().len(),
        ensures
            final(self).weights_spec().len() == old(self).weights_spec().len(),
            final(self).params() == old(self).params().update(index as int, value),
        no_unwind
    {
        if index < self.weights.len() {
            self.weights[index] = value;
        } else {
            self.bias = value;
        }
        proof {
            assert(self.params() =~= old(self).params().update(index as int, value));
        }
    }

    /// Answers `inputs`, of which there must be one for each weight.
    pub fn forward(&self, inputs: &Vec<S>) -> (r: S)
        requires
            inputs@.len() == self.weights_spec().len(),
        ensures
            r == forward_with(self.weights_spec(), self.bias_spec(), inputs@),
    {
        forward_on(&self.weights, self.bias, inputs)
    }
}

/// The parameters of a unit as one list: the weights, then the bias.
pub open spec fn flat<S: Scalar>(weights: Seq<S>, bias: S) -> Seq<S> {
    weights.push(bias)
}

impl<S: Scalar> Model<S> for Unit<S> {
    /// The weights and the bias are together few enough to be counted.
    open spec fn valid(&self) -> bool {
        self.weights_spec().len() < usize::MAX
    }

    open spec fn arity(&self) -> nat {
        self.weights_spec().len()
    }

    /// The weights, then the bias.
    open spec fn params(&self) -> Seq<S> {
        flat(self.weights_spec(), self.bias_spec())
    }

    open spec fn answer_of(params: Seq<S>, inputs: Seq<S>) -> S {
        forward_with(params.drop_last(), params.last(), inputs)
    }

    /// The mean squared error of the unit whose weights are all of `params`
    /// but the last, and whose bias is the last.
    open spec fn cost_of(params: Seq<S>, rows: Seq<(Seq<S>, S)>) -> S {
        cost_spec(params.drop_last(), params.last(), rows)
    }

    fn input_count(&self) -> (n: usize) {
        self.weights.len()
    }

    fn param_count(&self) -> (n: usize) {
        self.weights.len() + 1
    }

    fn param(&self, index: usize) -> (v: S) {
        if index < self.weights.len() {
            self.weights[index]
        } else {
            self.bias
        }
    }

    fn set_param(&mut self, index: usize, value: S) {
        self.put(index, value);
    }

    fn answer(&self, inputs: &Vec<S>) -> (r: S) {
        proof {
            assert(self.params().drop_last() =~= self.weights@);
        }
        self.forward(inputs)
    }

    fn cost(&self, data: &TrainingDataSet<S>) -> (c: S) {
        proof {
            assert(self.params().drop_last() =~= self.weights@);
        }
        cost_on(&self.weights, self.bias, data)
    }
}

/// The flat difference quotients of a unit are those of its weights,
/// followed by that of its bias.
pub proof fn lemma_unit_gradient<S: Scalar>(
    weights: Seq<S>,
    bias: S,
    rows: Seq<(Seq<S>, S)>,
    eps: S,
)
    ensures
        forall|i: int|
            0 <= i < weights.len() ==> #[trigger] gradient_spec::<S, Unit<S>>(
                flat(weights, bias),
                rows,
                eps,
            )[i] == weight_partial(weights, bias, rows, eps, i),
        gradient_spec::<S, Unit<S>>(flat(weights, bias), rows, eps)[weights.len() as int]
            == bias_partial(weights, bias, rows, eps),
{
    let p = flat(weights, bias);
    assert(p.drop_last() =~= weights);
    assert forall|i: int| 0 <= i < weights.len() implies #[trigger] gradient_spec::<S, Unit<S>>(
        p,
        rows,
        eps,
    )[i] == weight_partial(weights, bias, rows, eps, i) by {
        let q = perturbed(p, i, eps);
        assert(q.drop_last() =~= weights.update(i, weights[i].plus_spec(eps)));
        assert(q.last() == bias);
        assert(gradient_spec::<S, Unit<S>>(p, rows, eps)[i] == partial::<S, Unit<S>>(
            p,
            rows,
            eps,
            i,
        ));
    }
    let k = weights.len() as int;
    let q = perturbed(p, k, eps);
    assert(q.drop_last() =~= weights);
    assert(q.last() == bias.plus_spec(eps));
    assert(gradient_spec::<S, Unit<S>>(p, rows, eps)[k] == partial::<S, Unit<S>>(p, rows, eps, k));
}

impl<S: Scalar> Unit<S> {
    /// Whether `self` is what one iteration on `rows` makes of `before`:
    /// every weight and the bias lowered by `rate` times its own difference
    /// quotient, all quotients taken at the parameters of `before`.
    pub open spec fn is_step_from(
        self,
        before: Unit<S>,
        rows: Seq<(Seq<S>, S)>,
        eps: S,
        rate: S,
    ) -> bool {
        let w = before.weights_spec();
        let b = before.bias_spec();
        &&& self.weights_spec().len() == w.len()
        &&& forall|i: int|
            0 <= i < w.len() ==> #[trigger] self.weights_spec()[i] == w[i].minus_spec(
                rate.times_spec(weight_partial(w, b, rows, eps, i)),
            )
        &&& self.bias_spec() == b.minus_spec(rate.times_spec(bias_partial(w, b, rows, eps)))
    }

    /// Makes one iteration of gradient descent on `dataset`.
    ///
    /// The cost at the current weights and bias is the baseline. For each
    /// weight, and then for the bias, the cost with that one parameter
    /// raised by `eps` gives the quotient `(raised - baseline) / eps`. Then
    /// every parameter is lowered by `rate` times its quotient.
    ///
    /// Refuses an `eps` or a `rate` that is not strictly positive with
    /// `InvalidConfig`, and a table whose rows have not one input for each
    /// weight with `DimensionMismatch`; the unit then stays as it was.
    pub fn train_one_iteration(&mut self, dataset: &TrainingDataSet<S>, eps: S, rate: S) -> (r:
        Result<(), Error>)
        requires
            old(self).valid(),
        ensures
            final(self).valid(),
            match refusal(
                config_ok(eps, rate),
                dataset.arity_spec() == old(self).weights_spec().len(),
            ) {
                Some(e) => {
                    &&& r == Err::<(), Error>(e)
                    &&& final(self).weights_spec() == old(self).weights_spec()
                    &&& final(self).bias_spec() == old(self).bias_spec()
                },
                None => {
                    &&& r == Ok::<(), Error>(())
                    &&& final(self).is_step_from(*old(self), dataset@, eps, rate)
                    &&& final(self).params() == step_spec::<S, Unit<S>>(
                        old(self).params(),
                        dataset@,
                        eps,
                        rate,
                    )
                },
            },
    {
        let r = train_one_iteration(self, dataset, eps, rate);
        proof {
            let w = old(self).weights_spec();
            let b = old(self).bias_spec();
            if r is Ok {
                lemma_unit_gradient(w, b, dataset@, eps);
                let g = gradient_spec::<S, Unit<S>>(flat(w, b), dataset@, eps);
                assert forall|i: int| 0 <= i < w.len() implies #[trigger] self.weights_spec()[i]
                    == w[i].minus_spec(
                    rate.times_spec(weight_partial(w, b, dataset@, eps, i)),
                ) by {
                    assert(self.params()[i] == self.weights_spec()[i]);
                    assert(g[i] == weight_partial(w, b, dataset@, eps, i));
                }
                assert(self.params()[w.len() as int] == self.bias_spec());
            } else {
                assert(self.params().drop_last() =~= self.weights_spec());
                assert(old(self).params().drop_last() =~= w);
                assert(self.params().last() == self.bias_spec());
            }
        }
        r
    }
}

impl<S: Scalar> Unit<S> {
    /// Makes the unit whose weights and bias are what `unit_interval`
    /// makes of the given bits.
    pub fn from_bits(weight_bits: &Vec<u64>, bias_bits: u64) -> (unit: Unit<S>)
        ensures
            unit.weights_spec().len() == weight_bits@.len(),
            forall|i: int|
                0 <= i < weight_bits@.len() ==> #[trigger] unit.weights_spec()[i]
                    == unit_interval_spec::<S>(weight_bits@[i]),
            unit.bias_spec() == unit_interval_spec::<S>(bias_bits),
    {
        let n: usize = weight_bits.len();
        let mut weights: Vec<S> = Vec::with_capacity(n);
        let mut k: usize = 0;
        while k < n
            invariant
                k <= n,
                n == weight_bits@.len(),
                weights@.len() == k,
                forall|i: int|
                    0 <= i < k ==> #[trigger] weights@[i] == unit_interval_spec::<S>(
                        weight_bits@[i],
                    ),
            decreases n - k,
        {
            weights.push(unit_interval(weight_bits[k]));
            k += 1;
        }
        Unit { weights, bias: unit_interval(bias_bits) }
    }

    /// Makes a unit with `arity` weights out of draws from the generator:
    /// first the weights in order, then the bias, each made of 64 bits as
    /// `unit_interval` does.
    pub fn new_random(rng: &mut StdRng, arity: usize) -> (unit: Unit<S>)
        ensures
            unit.weights_spec().len() == arity,
            forall|i: int| 0 <= i < arity ==> drawn(#[trigger] unit.weights_spec()[i]),
            drawn(unit.bias_spec()),
    {
        let weight_bits = random_bits(rng, arity);
        let bias_bits = next_bits(rng);
        let unit = Unit::from_bits(&weight_bits, bias_bits);
        proof {
            assert forall|i: int| 0 <= i < arity implies drawn(
                #[trigger] unit.weights_spec()[i],
            ) by {
                assert(unit.weights_spec()[i] == unit_interval_spec::<S>(weight_bits@[i]));
            }
        }
        unit
    }
}

impl<S: Scalar> Clone for Unit<S> {
    /// Makes a second unit with the same weights and the same bias.
    fn clone(&self) -> (copy: Unit<S>)
        ensures
            copy.weights_spec() == self.weights_spec(),
            copy.bias_spec() == self.bias_spec(),
    {
        let n: usize = self.weights.len();
        let mut weights: Vec<S> = Vec::with_capacity(n);
        let mut k: usize = 0;
        while k < n
            invariant
                k <= n,
                n == self.weights@.len(),
                weights@ == self.weights@.take(k as int),
            decreases n - k,
        {
            weights.push(self.weights[k]);
            proof {
                assert(weights@ =~= self.weights@.take(k + 1));
            }
            k += 1;
        }
        proof {
            assert(self.weights@.take(n as int) =~= self.weights@);
        }
        Unit { weights, bias: self.bias }
    }
}

} // verus!
