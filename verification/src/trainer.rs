//! Gradient descent on finite-difference estimates of the gradient.
//!
//! Every estimate of one iteration is measured against the same baseline:
//! one parameter is raised by the step, the cost is read, and the parameter
//! is put back before the next one is touched. The update is then made from
//! the baseline parameters all at once.

use vstd::prelude::*;
use crate::dataset::TrainingDataSet;
use crate::error::Error;
use crate::scalar::{is_positive, positive, Scalar};

verus! {

/// Something with a flat list of scalar parameters and a cost on a table.
pub trait Model<S: Scalar>: Sized {
    /// Whether the value is one that the operations below accept.
    spec fn valid(&self) -> bool;

    /// The number of inputs that the model takes.
    spec fn arity(&self) -> nat;

    /// The parameters, in the model's own fixed order.
    spec fn params(&self) -> Seq<S>;

    /// What a model with the parameters `params` answers to `inputs`.
    spec fn answer_of(params: Seq<S>, inputs: Seq<S>) -> S;

    /// The cost that a model with the parameters `params` has on `rows`.
    spec fn cost_of(params: Seq<S>, rows: Seq<(Seq<S>, S)>) -> S;

    fn input_count(&self) -> (n: usize)
        requires
            self.valid(),
        ensures
            n == self.arity(),
    ;

    fn param_count(&self) -> (n: usize)
        requires
            self.valid(),
        ensures
            n == self.params().len(),
    ;

    fn param(&self, index: usize) -> (v: S)
        requires
            self.valid(),
            index < self.params().len(),
        ensures
            v == self.params()[index as int],
    ;

    fn set_param(&mut self, index: usize, value: S)
        requires
            old(self).valid(),
            index < old(self).params().len(),
        ensures
            final(self).valid(),
            final(self).arity() == old(self).arity(),
            final(self).params() == old(self).params().update(index as int, value),
    ;

    fn answer(&self, inputs: &Vec<S>) -> (r: S)
        requires
            self.valid(),
            inputs@.len() == self.arity(),
        ensures
            r == Self::answer_of(self.params(), inputs@),
    ;

    fn cost(&self, data: &TrainingDataSet<S>) -> (c: S)
        requires
            self.valid(),
            data.arity_spec() == self.arity(),
        ensures
            c == Self::cost_of(self.params(), data@),
    ;
}

/// The parameters `params` with parameter `index` raised by `eps`.
pub open spec fn perturbed<S: Scalar>(params: Seq<S>, index: int, eps: S) -> Seq<S> {
    params.update(index, params[index].plus_spec(eps))
}

/// The forward difference quotient of the cost in parameter `index`:
/// `(cost(perturbed) - cost(baseline)) / eps`.
pub open spec fn partial<S: Scalar, M: Model<S>>(
    params: Seq<S>,
    rows: Seq<(Seq<S>, S)>,
    eps: S,
    index: int,
) -> S {
    M::cost_of(perturbed(params, index, eps), rows).minus_spec(
        M::cost_of(params, rows),
    ).over_spec(eps)
}

/// The difference quotients of all parameters, each taken from the one
/// baseline `params`.
pub open spec fn gradient_spec<S: Scalar, M: Model<S>>(
    params: Seq<S>,
    rows: Seq<(Seq<S>, S)>,
    eps: S,
) -> Seq<S> {
    Seq::new(params.len(), |i: int| partial::<S, M>(params, rows, eps, i))
}

/// Every parameter lowered by `rate` times its entry of `gradient`.
pub open spec fn descend<S: Scalar>(params: Seq<S>, gradient: Seq<S>, rate: S) -> Seq<S> {
    Seq::new(params.len(), |i: int| params[i].minus_spec(rate.times_spec(gradient[i])))
}

/// The parameters after one iteration from `params`.
pub open spec fn step_spec<S: Scalar, M: Model<S>>(
    params: Seq<S>,
    rows: Seq<(Seq<S>, S)>,
    eps: S,
    rate: S,
) -> Seq<S> {
    descend(params, gradient_spec::<S, M>(params, rows, eps), rate)
}

/// The parameters after `n` iterations from `params`.
pub open spec fn iterate<S: Scalar, M: Model<S>>(
    params: Seq<S>,
    rows: Seq<(Seq<S>, S)>,
    eps: S,
    rate: S,
    n: nat,
) -> Seq<S>
    decreases n,
{
    if n == 0 {
        params
    } else {
        step_spec::<S, M>(iterate::<S, M>(params, rows, eps, rate, (n - 1) as nat), rows, eps, rate)
    }
}

/// Whether a step size and a learning rate are both strictly positive.
pub open spec fn config_ok<S: Scalar>(eps: S, rate: S) -> bool {
    is_positive(eps) && is_positive(rate)
}

/// Why a call is refused before it touches the model, if it is: with
/// `InvalidConfig` where its settings are not sound, and else with
/// `DimensionMismatch` where what it is given does not fit the model.
pub open spec fn refusal(settings_ok: bool, fits: bool) -> Option<Error> {
    if !settings_ok {
        Some(Error::InvalidConfig)
    } else if !fits {
        Some(Error::DimensionMismatch)
    } else {
        None
    }
}

/// Whether the rows of `data` have as many inputs as `model` takes.
pub open spec fn fits<S: Scalar, M: Model<S>>(model: M, data: TrainingDataSet<S>) -> bool {
    data.arity_spec() == model.arity()
}

/// Estimates the gradient of the cost on `data` at the model's parameters.
///
/// Each parameter in turn is raised by `eps`, the cost is read, and the
/// parameter is put back; the model ends with the parameters it began
/// with. Refuses a step size that is not strictly positive with
/// `InvalidConfig`, and a table whose rows have not as many inputs as the
/// model takes with `DimensionMismatch`.
pub fn finite_difference_gradient<S: Scalar, M: Model<S>>(
    model: &mut M,
    eps: S,
    data: &TrainingDataSet<S>,
) -> (r: Result<Vec<S>, Error>)
    requires
        old(model).valid(),
    ensures
        final(model).valid(),
        final(model).arity() == old(model).arity(),
        final(model).params() == old(model).params(),
        match refusal(is_positive(eps), fits(*old(model), *data)) {
            Some(e) => r == Err::<Vec<S>, Error>(e),
            None => r is Ok && r.unwrap()@ == gradient_spec::<S, M>(
                old(model).params(),
                data@,
                eps,
            ),
        },
{
    if !positive(eps) {
        return Err(Error::InvalidConfig);
    }
    if data.arity() != model.input_count() {
        return Err(Error::DimensionMismatch);
    }
    let n: usize = model.param_count();
    let baseline = model.cost(data);
    let mut gradient: Vec<S> = Vec::with_capacity(n);
    let mut i: usize = 0;
    while i < n
        invariant
            i <= n,
            n == old(model).params().len(),
            model.valid(),
            model.arity() == old(model).arity(),
            model.params() == old(model).params(),
            data.arity_spec() == model.arity(),
            baseline == M::cost_of(old(model).params(), data@),
            gradient@.len() == i,
            forall|t: int|
                0 <= t < i ==> #[trigger] gradient@[t] == partial::<S, M>(
                    old(model).params(),
                    data@,
                    eps,
                    t,
                ),
        decreases n - i,
    {
        let saved = model.param(i);
        model.set_param(i, saved.plus(eps));
        let raised = model.cost(data);
        model.set_param(i, saved);
        proof {
            assert(model.params() =~= old(model).params());
        }
        gradient.push(raised.minus(baseline).over(eps));
        i += 1;
    }
    proof {
        assert(gradient@ =~= gradient_spec::<S, M>(old(model).params(), data@, eps));
    }
    Ok(gradient)
}

/// Lowers every parameter by `rate` times its entry of `gradient`.
/// Refuses a rate that is not strictly positive with `InvalidConfig`, and
/// a gradient that has not one entry for each parameter with
/// `DimensionMismatch`; the model then stays as it was.
pub fn apply_gradient<S: Scalar, M: Model<S>>(model: &mut M, gradient: &Vec<S>, rate: S) -> (r:
    Result<(), Error>)
    requires
        old(model).valid(),
    ensures
        final(model).valid(),
        final(model).arity() == old(model).arity(),
        match refusal(is_positive(rate), gradient@.len() == old(model).params().len()) {
            Some(e) => r == Err::<(), Error>(e) && final(model).params() == old(model).params(),
            None => r == Ok::<(), Error>(()) && final(model).params() == descend(
                old(model).params(),
                gradient@,
                rate,
            ),
        },
{
    if !positive(rate) {
        return Err(Error::InvalidConfig);
    }
    let n: usize = model.param_count();
    if gradient.len() != n {
        return Err(Error::DimensionMismatch);
    }
    let mut i: usize = 0;
    while i < n
        invariant
            i <= n,
            n == old(model).params().len(),
            n == gradient@.len(),
            model.valid(),
            model.arity() == old(model).arity(),
            model.params().len() == n,
            forall|t: int|
                0 <= t < i ==> #[trigger] model.params()[t] == old(model).params()[t].minus_spec(
                    rate.times_spec(gradient@[t]),
                ),
            forall|t: int| i <= t < n ==> #[trigger] model.params()[t] == old(model).params()[t],
        decreases n - i,
    {
        let lowered = model.param(i).minus(rate.times(gradient[i]));
        model.set_param(i, lowered);
        i += 1;
    }
    proof {
        assert(model.params() =~= descend(old(model).params(), gradient@, rate));
    }
    Ok(())
}

/// Tells why training on `data` with these settings is refused, if it is.
pub fn check_training<S: Scalar, M: Model<S>>(
    model: &M,
    data: &TrainingDataSet<S>,
    eps: S,
    rate: S,
) -> (r: Option<Error>)
    requires
        model.valid(),
    ensures
        r == refusal(config_ok(eps, rate), fits(*model, *data)),
{
    if !positive(eps) || !positive(rate) {
        Some(Error::InvalidConfig)
    } else if data.arity() != model.input_count() {
        Some(Error::DimensionMismatch)
    } else {
        None
    }
}

/// One iteration on a model that the table and the settings fit.
pub(crate) fn step<S: Scalar, M: Model<S>>(model: &mut M, data: &TrainingDataSet<S>, eps: S, rate: S)
    requires
        old(model).valid(),
        config_ok(eps, rate),
        fits(*old(model), *data),
    ensures
        final(model).valid(),
        final(model).arity() == old(model).arity(),
        final(model).params() == step_spec::<S, M>(old(model).params(), data@, eps, rate),
{
    let ghost before = model.params();
    match finite_difference_gradient(model, eps, data) {
        Ok(gradient) => {
            let moved = apply_gradient(model, &gradient, rate);
            assert(moved is Ok);
        },
        Err(_) => {
            assert(false);
        },
    }
}

/// Makes one iteration: estimates the gradient at the current parameters
/// and moves every parameter against it.
///
/// Refuses a step size or a rate that is not strictly positive with
/// `InvalidConfig`, and a table whose rows have not as many inputs as the
/// model takes with `DimensionMismatch`; the model then stays as it was.
pub fn train_one_iteration<S: Scalar, M: Model<S>>(
    model: &mut M,
    data: &TrainingDataSet<S>,
    eps: S,
    rate: S,
) -> (r: Result<(), Error>)
    requires
        old(model).valid(),
    ensures
        final(model).valid(),
        final(model).arity() == old(model).arity(),
        match refusal(config_ok(eps, rate), fits(*old(model), *data)) {
            Some(e) => r == Err::<(), Error>(e) && final(model).params() == old(model).params(),
            None => r == Ok::<(), Error>(()) && final(model).params() == step_spec::<S, M>(
                old(model).params(),
                data@,
                eps,
                rate,
            ),
        },
{
    match check_training(model, data, eps, rate) {
        Some(e) => Err(e),
        None => {
            step(model, data, eps, rate);
            Ok(())
        },
    }
}

/// Makes `iterations` iterations, one after the other.
///
/// Refuses a step size or a rate that is not strictly positive with
/// `InvalidConfig`, and a table whose rows have not as many inputs as the
/// model takes with `DimensionMismatch`; the model then stays as it was.
pub fn train<S: Scalar, M: Model<S>>(
    model: &mut M,
    data: &TrainingDataSet<S>,
    eps: S,
    rate: S,
    iterations: usize,
) -> (r: Result<(), Error>)
    requires
        old(model).valid(),
    ensures
        final(model).valid(),
        final(model).arity() == old(model).arity(),
        match refusal(config_ok(eps, rate), fits(*old(model), *data)) {
            Some(e) => r == Err::<(), Error>(e) && final(model).params() == old(model).params(),
            None => r == Ok::<(), Error>(()) && final(model).params() == iterate::<S, M>(
                old(model).params(),
                data@,
                eps,
                rate,
                iterations as nat,
            ),
        },
{
    match check_training(model, data, eps, rate) {
        Some(e) => {
            return Err(e);
        },
        None => {},
    }
    let mut done: usize = 0;
    while done < iterations
        invariant
            done <= iterations,
            config_ok(eps, rate),
            model.valid(),
            model.arity() == old(model).arity(),
            data.arity_spec() == model.arity(),
            model.params() == iterate::<S, M>(old(model).params(), data@, eps, rate, done as nat),
        decreases iterations - done,
    {
        step(model, data, eps, rate);
        done += 1;
    }
    Ok(())
}

/// Whether the cost at `params` is still above `threshold`.
pub open spec fn above<S: Scalar, M: Model<S>>(
    params: Seq<S>,
    rows: Seq<(Seq<S>, S)>,
    threshold: S,
) -> bool {
    threshold.less_than_spec(M::cost_of(params, rows))
}

/// Whether `n` is the number of iterations that threshold-driven training
/// makes from `params`: the cost is above `threshold` before each of them,
/// and after the last one it either is no longer above it or `limit`
/// iterations have been made.
pub open spec fn stops_after<S: Scalar, M: Model<S>>(
    params: Seq<S>,
    rows: Seq<(Seq<S>, S)>,
    eps: S,
    rate: S,
    threshold: S,
    limit: nat,
    n: nat,
) -> bool {
    &&& n <= limit
    &&& forall|m: nat|
        m < n ==> above::<S, M>(
            #[trigger] iterate::<S, M>(params, rows, eps, rate, m),
            rows,
            threshold,
        )
    &&& n < limit ==> !above::<S, M>(iterate::<S, M>(params, rows, eps, rate, n), rows, threshold)
}

/// Iterates for as long as the cost on `data` is above `threshold`, but
/// makes no more than `max_iterations` iterations, and returns how many it
/// made. The cost is read anew before every iteration.
///
/// With an unsuitable step size or rate the cost may never come down to the
/// threshold; the limit is what ends the training then, and choosing all
/// three is the caller's part. Refuses a step size or a rate that is not
/// strictly positive with `InvalidConfig`, and a table whose rows have not
/// as many inputs as the model takes with `DimensionMismatch`; the model
/// then stays as it was.
pub fn train_until<S: Scalar, M: Model<S>>(
    model: &mut M,
    data: &TrainingDataSet<S>,
    eps: S,
    rate: S,
    threshold: S,
    max_iterations: usize,
) -> (r: Result<usize, Error>)
    requires
        old(model).valid(),
    ensures
        final(model).valid(),
        final(model).arity() == old(model).arity(),
        match refusal(config_ok(eps, rate), fits(*old(model), *data)) {
            Some(e) => r == Err::<usize, Error>(e) && final(model).params() == old(model).params(),
            None => {
                &&& r is Ok
                &&& stops_after::<S, M>(
                    old(model).params(),
                    data@,
                    eps,
                    rate,
                    threshold,
                    max_iterations as nat,
                    r.unwrap() as nat,
                )
                &&& final(model).params() == iterate::<S, M>(
                    old(model).params(),
                    data@,
                    eps,
                    rate,
                    r.unwrap() as nat,
                )
            },
        },
{
    match check_training(model, data, eps, rate) {
        Some(e) => {
            return Err(e);
        },
        None => {},
    }
    let mut done: usize = 0;
    while done < max_iterations
        invariant
            done <= max_iterations,
            config_ok(eps, rate),
            model.valid(),
            model.arity() == old(model).arity(),
            data.arity_spec() == model.arity(),
            model.params() == iterate::<S, M>(old(model).params(), data@, eps, rate, done as nat),
            forall|m: nat|
                m < done ==> above::<S, M>(
                    #[trigger] iterate::<S, M>(old(model).params(), data@, eps, rate, m),
                    data@,
                    threshold,
                ),
        decreases max_iterations - done,
    {
        let current = model.cost(data);
        if !threshold.less_than(current) {
            return Ok(done);
        }
        step(model, data, eps, rate);
        done += 1;
    }
    Ok(done)
}

/// The parameters and the gradient entries after the parameters named by
/// the first `k` entries of `order` have been visited, starting from the
/// baseline `params` and the entries `start`. A visit raises its parameter
/// by `eps`, writes the difference quotient of the cost against the cost at
/// the baseline, and puts the parameter back.
pub open spec fn visit_in_order<S: Scalar, M: Model<S>>(
    params: Seq<S>,
    rows: Seq<(Seq<S>, S)>,
    eps: S,
    start: Seq<S>,
    order: Seq<int>,
    k: nat,
) -> (Seq<S>, Seq<S>)
    decreases k,
{
    if k == 0 {
        (params, start)
    } else {
        let (current, entries) = visit_in_order::<S, M>(
            params,
            rows,
            eps,
            start,
            order,
            (k - 1) as nat,
        );
        let index = order[k - 1];
        let raised = perturbed(current, index, eps);
        let quotient = M::cost_of(raised, rows).minus_spec(M::cost_of(params, rows)).over_spec(
            eps,
        );
        (raised.update(index, current[index]), entries.update(index, quotient))
    }
}

/// Whether `index` occurs in `order`.
pub open spec fn visits(order: Seq<int>, index: int) -> bool {
    exists|t: int| 0 <= t < order.len() && #[trigger] order[t] == index
}

/// Whether `order` names parameters of `0..n` only, and each of them at
/// least once.
pub open spec fn visits_all(order: Seq<int>, n: nat) -> bool {
    &&& forall|t: int| 0 <= t < order.len() ==> 0 <= #[trigger] order[t] < n
    &&& forall|i: int| 0 <= i < n ==> #[trigger] visits(order, i)
}

proof fn lemma_visit_prefix<S: Scalar, M: Model<S>>(
    params: Seq<S>,
    rows: Seq<(Seq<S>, S)>,
    eps: S,
    start: Seq<S>,
    order: Seq<int>,
    k: nat,
)
    requires
        start.len() == params.len(),
        k <= order.len(),
        forall|t: int| 0 <= t < order.len() ==> 0 <= #[trigger] order[t] < params.len(),
    ensures
        visit_in_order::<S, M>(params, rows, eps, start, order, k).0 == params,
        visit_in_order::<S, M>(params, rows, eps, start, order, k).1.len() == params.len(),
        forall|t: int|
            0 <= t < k ==> visit_in_order::<S, M>(params, rows, eps, start, order, k).1[
                #[trigger] order[t]
            ] == partial::<S, M>(params, rows, eps, order[t]),
    decreases k,
{
    if k > 0 {
        lemma_visit_prefix::<S, M>(params, rows, eps, start, order, (k - 1) as nat);
        let before = visit_in_order::<S, M>(params, rows, eps, start, order, (k - 1) as nat);
        let after = visit_in_order::<S, M>(params, rows, eps, start, order, k);
        let index = order[k - 1];
        assert(perturbed(params, index, eps).update(index, params[index]) =~= params);
        assert(after.0 == params);
        assert forall|t: int| 0 <= t < k implies after.1[#[trigger] order[t]] == partial::<S, M>(
            params,
            rows,
            eps,
            order[t],
        ) by {
            if order[t] != index {
                assert(t < k - 1);
                assert(before.1[order[t]] == partial::<S, M>(params, rows, eps, order[t]));
            }
        }
    }
}

/// The estimated gradient does not depend on the order in which the
/// parameters are visited: whatever order names every parameter, with or
/// without repeats, and whatever the entries held before, visiting in that
/// order leaves the parameters at the baseline and yields the gradient that
/// `finite_difference_gradient` returns.
pub proof fn lemma_gradient_order_independent<S: Scalar, M: Model<S>>(
    params: Seq<S>,
    rows: Seq<(Seq<S>, S)>,
    eps: S,
    start: Seq<S>,
    order: Seq<int>,
)
    requires
        start.len() == params.len(),
        visits_all(order, params.len()),
    ensures
        visit_in_order::<S, M>(params, rows, eps, start, order, order.len()) == (
            params,
            gradient_spec::<S, M>(params, rows, eps),
        ),
{
    lemma_visit_prefix::<S, M>(params, rows, eps, start, order, order.len());
    let end = visit_in_order::<S, M>(params, rows, eps, start, order, order.len());
    let gradient = gradient_spec::<S, M>(params, rows, eps);
    assert forall|i: int| 0 <= i < params.len() implies end.1[i] == gradient[i] by {
        assert(visits(order, i));
        let t = choose|t: int| 0 <= t < order.len() && #[trigger] order[t] == i;
        assert(end.1[order[t]] == partial::<S, M>(params, rows, eps, order[t]));
    }
    assert(end.1 =~= gradient);
}

} // verus!
