//! The three experiments: single units on the truth tables of OR, NAND and
//! AND, the linear cell on the doubling table, and the network of three
//! units on XOR. Each
//! returns what there is to report; printing is left to the caller.

use vstd::prelude::*;
use rand::rngs::StdRng;
use crate::dataset::{
    and_table, doubling_table, nand_table, or_table, xor_table, TrainingDataSet,
};
use crate::error::Error;
use crate::linear::{small_whole_cell, LinearCell};
use crate::network::{CompositeNetwork, PARAMETERS};
use crate::random::drawn;
use crate::scalar::{positive, Scalar};
use crate::trainer::{
    check_training, config_ok, fits, iterate, refusal, step, stops_after, train_until, Model,
};
use crate::unit::Unit;

verus! {

/// How many iterations a unit is given on a truth table.
pub const GATE_ITERATIONS: usize = 10000;

/// How many iterations the network is given on the XOR table.
pub const XOR_ITERATIONS: usize = 100000;

/// The scalar `1 / n`.
pub open spec fn one_in_spec<S: Scalar>(n: u64) -> S {
    S::from_count_spec(1).over_spec(S::from_count_spec(n))
}

/// The threshold under which the linear cell counts as trained: `5 / 100000`.
pub open spec fn cell_threshold_spec<S: Scalar>() -> S {
    S::from_count_spec(5).over_spec(S::from_count_spec(100000))
}

/// Computes the scalar `1 / n`.
pub fn one_in<S: Scalar>(n: u64) -> (r: S)
    ensures
        r == one_in_spec::<S>(n),
{
    S::from_count(1).over(S::from_count(n))
}

/// One line of a truth-table comparison: the inputs of a row, what the
/// model answers to them, and what the row expects.
#[derive(Clone, Debug, PartialEq)]
pub struct Comparison<S: Scalar> {
    pub inputs: Vec<S>,
    pub predicted: S,
    pub expected: S,
}

/// Whether `lines` compares a model with the parameters `params` to
/// `rows`, row by row.
pub open spec fn is_truth_table<S: Scalar, M: Model<S>>(
    lines: Seq<Comparison<S>>,
    params: Seq<S>,
    rows: Seq<(Seq<S>, S)>,
) -> bool {
    &&& lines.len() == rows.len()
    &&& forall|i: int|
        0 <= i < rows.len() ==> {
            &&& (#[trigger] lines[i]).inputs@ == rows[i].0
            &&& lines[i].predicted == M::answer_of(params, rows[i].0)
            &&& lines[i].expected == rows[i].1
        }
}

fn copy_of<S: Scalar>(values: &Vec<S>) -> (r: Vec<S>)
    ensures
        r@ == values@,
{
    let n: usize = values.len();
    let mut r: Vec<S> = Vec::with_capacity(n);
    let mut k: usize = 0;
    while k < n
        invariant
            k <= n,
            n == values@.len(),
            r@ == values@.take(k as int),
        decreases n - k,
    {
        r.push(values[k]);
        proof {
            assert(r@ =~= values@.take(k + 1));
        }
        k += 1;
    }
    proof {
        assert(values@.take(n as int) =~= values@);
    }
    r
}

/// Compares what the model answers to what each row of `data` expects, or
/// reports `DimensionMismatch` where the rows have not as many inputs as
/// the model takes.
pub fn truth_table<S: Scalar, M: Model<S>>(model: &M, data: &TrainingDataSet<S>) -> (r: Result<
    Vec<Comparison<S>>,
    Error,
>)
    requires
        model.valid(),
    ensures
        fits(*model, *data) ==> r is Ok && is_truth_table::<S, M>(
            r.unwrap()@,
            model.params(),
            data@,
        ),
        !fits(*model, *data) ==> r == Err::<Vec<Comparison<S>>, Error>(Error::DimensionMismatch),
{
    if data.arity() != model.input_count() {
        return Err(Error::DimensionMismatch);
    }
    Ok(compare(model, data))
}

/// The comparison on a table whose rows fit the model.
fn compare<S: Scalar, M: Model<S>>(model: &M, data: &TrainingDataSet<S>) -> (lines: Vec<
    Comparison<S>,
>)
    requires
        model.valid(),
        fits(*model, *data),
    ensures
        is_truth_table::<S, M>(lines@, model.params(), data@),
{
    let n: usize = data.len();
    let mut lines: Vec<Comparison<S>> = Vec::with_capacity(n);
    let mut k: usize = 0;
    while k < n
        invariant
            k <= n,
            n == data@.len(),
            model.valid(),
            data.arity_spec() == model.arity(),
            lines@.len() == k,
            forall|i: int|
                0 <= i < k ==> {
                    &&& (#[trigger] lines@[i]).inputs@ == data@[i].0
                    &&& lines@[i].predicted == M::answer_of(model.params(), data@[i].0)
                    &&& lines@[i].expected == data@[i].1
                },
        decreases n - k,
    {
        let example = data.at(k);
        let predicted = model.answer(&example.inputs);
        lines.push(
            Comparison { inputs: copy_of(&example.inputs), predicted, expected: example.expected },
        );
        k += 1;
    }
    lines
}

/// Where a training stands after one of its iterations: the parameters
/// that the iteration left, and their cost.
#[derive(Clone, Debug, PartialEq)]
pub struct Status<S: Scalar> {
    pub params: Vec<S>,
    pub cost: S,
}

/// Whether `trace` holds one status for each of `iterations` iterations on
/// `rows`, begun at the parameters `start`: entry `k` has the parameters
/// after `k + 1` iterations, and their cost.
pub open spec fn is_trace<S: Scalar, M: Model<S>>(
    trace: Seq<Status<S>>,
    start: Seq<S>,
    rows: Seq<(Seq<S>, S)>,
    eps: S,
    rate: S,
    iterations: nat,
) -> bool {
    &&& trace.len() == iterations
    &&& forall|k: int|
        0 <= k < iterations ==> {
            &&& (#[trigger] trace[k]).params@ == iterate::<S, M>(
                start,
                rows,
                eps,
                rate,
                (k + 1) as nat,
            )
            &&& trace[k].cost == M::cost_of(trace[k].params@, rows)
        }
}

/// What there is to say of a model on a table: the model, its cost, the
/// comparison of its answers with the rows, and, where the model was
/// trained for the report, the status after each iteration.
#[derive(Clone, Debug, PartialEq)]
pub struct Report<S: Scalar, M: Model<S>> {
    pub model: M,
    pub cost: S,
    pub table: Vec<Comparison<S>>,
    pub trace: Vec<Status<S>>,
}

/// Whether `report` describes a model with the parameters `params` on
/// `rows`.
pub open spec fn reports<S: Scalar, M: Model<S>>(
    report: Report<S, M>,
    params: Seq<S>,
    rows: Seq<(Seq<S>, S)>,
) -> bool {
    &&& report.model.valid()
    &&& report.model.params() == params
    &&& report.cost == M::cost_of(params, rows)
    &&& is_truth_table::<S, M>(report.table@, params, rows)
}

/// Reports on `model` as it stands, with an empty trace, or reports
/// `DimensionMismatch` where the rows of `data` have not as many inputs as
/// the model takes.
pub fn report_on<S: Scalar, M: Model<S>>(model: M, data: &TrainingDataSet<S>) -> (r: Result<
    Report<S, M>,
    Error,
>)
    requires
        model.valid(),
    ensures
        fits(model, *data) ==> {
            &&& r is Ok
            &&& r.unwrap().model == model
            &&& r.unwrap().trace@.len() == 0
            &&& reports(r.unwrap(), model.params(), data@)
        },
        !fits(model, *data) ==> r == Err::<Report<S, M>, Error>(Error::DimensionMismatch),
{
    if data.arity() != model.input_count() {
        return Err(Error::DimensionMismatch);
    }
    Ok(describe(model, data, Vec::new()))
}

/// The report on a model that the table fits, with the given trace.
fn describe<S: Scalar, M: Model<S>>(model: M, data: &TrainingDataSet<S>, trace: Vec<Status<S>>) -> (r:
    Report<S, M>)
    requires
        model.valid(),
        fits(model, *data),
    ensures
        r.model == model,
        r.trace == trace,
        reports(r, model.params(), data@),
{
    let cost = model.cost(data);
    let table = compare(&model, data);
    Report { model, cost, table, trace }
}

/// The parameters of `model` and their cost on a table that fits it.
fn status_of<S: Scalar, M: Model<S>>(model: &M, data: &TrainingDataSet<S>) -> (status: Status<S>)
    requires
        model.valid(),
        fits(*model, *data),
    ensures
        status.params@ == model.params(),
        status.cost == M::cost_of(model.params(), data@),
{
    let n: usize = model.param_count();
    let mut params: Vec<S> = Vec::with_capacity(n);
    let mut k: usize = 0;
    while k < n
        invariant
            k <= n,
            n == model.params().len(),
            model.valid(),
            params@ == model.params().take(k as int),
        decreases n - k,
    {
        params.push(model.param(k));
        proof {
            assert(params@ =~= model.params().take(k + 1));
        }
        k += 1;
    }
    proof {
        assert(model.params().take(n as int) =~= model.params());
    }
    Status { params, cost: model.cost(data) }
}

/// Whether `report` describes what `iterations` iterations on `rows` make
/// of a model that starts with the parameters `start`, and traces each of
/// them.
pub open spec fn reports_training<S: Scalar, M: Model<S>>(
    report: Report<S, M>,
    start: Seq<S>,
    rows: Seq<(Seq<S>, S)>,
    eps: S,
    rate: S,
    iterations: nat,
) -> bool {
    &&& reports(report, iterate::<S, M>(start, rows, eps, rate, iterations), rows)
    &&& is_trace::<S, M>(report.trace@, start, rows, eps, rate, iterations)
}

/// Trains `model` for `iterations` iterations on `data`, notes the
/// parameters and the cost after each of them, and reports on what came
/// of it.
///
/// Refuses a step size or a rate that is not strictly positive with
/// `InvalidConfig`, and a table whose rows have not as many inputs as the
/// model takes with `DimensionMismatch`.
pub fn train_and_report<S: Scalar, M: Model<S>>(
    model: M,
    data: &TrainingDataSet<S>,
    eps: S,
    rate: S,
    iterations: usize,
) -> (r: Result<Report<S, M>, Error>)
    requires
        model.valid(),
    ensures
        match refusal(config_ok(eps, rate), fits(model, *data)) {
            Some(e) => r == Err::<Report<S, M>, Error>(e),
            None => r is Ok && reports_training(
                r.unwrap(),
                model.params(),
                data@,
                eps,
                rate,
                iterations as nat,
            ),
        },
{
    match check_training(&model, data, eps, rate) {
        Some(e) => {
            return Err(e);
        },
        None => {},
    }
    let ghost start = model.params();
    let mut model = model;
    let mut trace: Vec<Status<S>> = Vec::with_capacity(iterations);
    let mut done: usize = 0;
    while done < iterations
        invariant
            done <= iterations,
            config_ok(eps, rate),
            model.valid(),
            fits(model, *data),
            model.params() == iterate::<S, M>(start, data@, eps, rate, done as nat),
            is_trace::<S, M>(trace@, start, data@, eps, rate, done as nat),
        decreases iterations - done,
    {
        step(&mut model, data, eps, rate);
        let status = status_of(&model, data);
        trace.push(status);
        done += 1;
    }
    Ok(describe(model, data, trace))
}

/// Whether every entry of `values` is what `unit_interval` makes of some
/// 64 bits.
pub open spec fn all_drawn<S: Scalar>(values: Seq<S>) -> bool {
    forall|i: int| 0 <= i < values.len() ==> drawn(#[trigger] values[i])
}

/// Whether `report` describes the network after its iterations on the
/// XOR table, begun at the parameters `start`.
pub open spec fn reports_xor<S: Scalar>(
    report: Report<S, CompositeNetwork<S>>,
    start: Seq<S>,
) -> bool {
    reports_training(
        report,
        start,
        xor_table::<S>(),
        one_in_spec::<S>(1000),
        one_in_spec::<S>(10),
        XOR_ITERATIONS as nat,
    )
}

/// Trains the given network on the XOR table, with the step `1/1000` and
/// the rate `1/10`, for `XOR_ITERATIONS` iterations, and reports on it.
/// Fails with `InvalidConfig` where the scalars do not count these two
/// numbers as positive.
pub fn xor_model_from<S: Scalar>(start: CompositeNetwork<S>) -> (r: Result<
    Report<S, CompositeNetwork<S>>,
    Error,
>)
    ensures
        config_ok(one_in_spec::<S>(1000), one_in_spec::<S>(10)) ==> r is Ok && reports_xor(
            r.unwrap(),
            start.params(),
        ),
        !config_ok(one_in_spec::<S>(1000), one_in_spec::<S>(10)) ==> r == Err::<
            Report<S, CompositeNetwork<S>>,
            Error,
        >(Error::InvalidConfig),
{
    proof {
        use_type_invariant(&start);
    }
    let data = TrainingDataSet::xor_gate();
    train_and_report(start, &data, one_in(1000), one_in(10), XOR_ITERATIONS)
}

/// Draws a network from the generator and trains it as `xor_model_from`
/// does.
pub fn xor_model<S: Scalar>(rng: &mut StdRng) -> (r: Result<Report<S, CompositeNetwork<S>>, Error>)
    ensures
        config_ok(one_in_spec::<S>(1000), one_in_spec::<S>(10)) ==> r is Ok && exists|
            start: Seq<S>,
        |
            start.len() == PARAMETERS && all_drawn(start) && #[trigger] reports_xor(
                r.unwrap(),
                start,
            ),
        !config_ok(one_in_spec::<S>(1000), one_in_spec::<S>(10)) ==> r == Err::<
            Report<S, CompositeNetwork<S>>,
            Error,
        >(Error::InvalidConfig),
{
    let start = CompositeNetwork::new_random(rng);
    let ghost begun = start.params();
    let r = xor_model_from(start);
    proof {
        if r is Ok {
            assert(reports_xor(r.unwrap(), begun));
        }
    }
    r
}

/// The reports on the three units that learn OR, NAND and AND.
#[derive(Clone, Debug, PartialEq)]
pub struct GatesReport<S: Scalar> {
    pub or_gate: Report<S, Unit<S>>,
    pub nand_gate: Report<S, Unit<S>>,
    pub and_gate: Report<S, Unit<S>>,
}

/// Whether `report` describes a unit after its iterations on the truth
/// table `rows`, begun at the parameters `start`.
pub open spec fn reports_gate<S: Scalar>(
    report: Report<S, Unit<S>>,
    start: Seq<S>,
    rows: Seq<(Seq<S>, S)>,
) -> bool {
    reports_training(
        report,
        start,
        rows,
        one_in_spec::<S>(10),
        one_in_spec::<S>(10),
        GATE_ITERATIONS as nat,
    )
}

/// Trains the three given units, the first on the OR table, the second on
/// the NAND table and the third on the AND table, each with the step
/// `1/10` and the rate `1/10` for `GATE_ITERATIONS` iterations, and
/// reports on them, with the status after every iteration.
///
/// Fails with `InvalidConfig` where the scalars do not count `1/10` as
/// positive, and else with `DimensionMismatch` where one of the units has
/// not two weights.
pub fn gates_from<S: Scalar>(or_unit: Unit<S>, nand_unit: Unit<S>, and_unit: Unit<S>) -> (r: Result<
    GatesReport<S>,
    Error,
>)
    requires
        or_unit.valid(),
        nand_unit.valid(),
        and_unit.valid(),
    ensures
        match refusal(
            config_ok(one_in_spec::<S>(10), one_in_spec::<S>(10)),
            or_unit.weights_spec().len() == 2 && nand_unit.weights_spec().len() == 2
                && and_unit.weights_spec().len() == 2,
        ) {
            Some(e) => r == Err::<GatesReport<S>, Error>(e),
            None => {
                &&& r is Ok
                &&& reports_gate(r.unwrap().or_gate, or_unit.params(), or_table::<S>())
                &&& reports_gate(r.unwrap().nand_gate, nand_unit.params(), nand_table::<S>())
                &&& reports_gate(r.unwrap().and_gate, and_unit.params(), and_table::<S>())
            },
        },
{
    let eps: S = one_in(10);
    let rate: S = one_in(10);
    if !positive(eps) || !positive(rate) {
        return Err(Error::InvalidConfig);
    }
    if or_unit.weights().len() != 2 || nand_unit.weights().len() != 2 || and_unit.weights().len()
        != 2 {
        return Err(Error::DimensionMismatch);
    }
    let or_data = TrainingDataSet::or_gate();
    let nand_data = TrainingDataSet::nand_gate();
    let and_data = TrainingDataSet::and_gate();
    let or_gate = match train_and_report(or_unit, &or_data, eps, rate, GATE_ITERATIONS) {
        Ok(report) => report,
        Err(e) => {
            return Err(e);
        },
    };
    let nand_gate = match train_and_report(nand_unit, &nand_data, eps, rate, GATE_ITERATIONS) {
        Ok(report) => report,
        Err(e) => {
            return Err(e);
        },
    };
    let and_gate = match train_and_report(and_unit, &and_data, eps, rate, GATE_ITERATIONS) {
        Ok(report) => report,
        Err(e) => {
            return Err(e);
        },
    };
    Ok(GatesReport { or_gate, nand_gate, and_gate })
}

/// Whether `unit` has two weights, and they and its bias are each what
/// `unit_interval` makes of some 64 bits.
pub open spec fn drawn_pair_unit<S: Scalar>(unit: Unit<S>) -> bool {
    unit.weights_spec().len() == 2 && all_drawn(unit.params())
}

/// Draws three units from the generator, for OR, for NAND and for AND in
/// this order, and trains them as `gates_from` does.
pub fn gates<S: Scalar>(rng: &mut StdRng) -> (r: Result<GatesReport<S>, Error>)
    ensures
        config_ok(one_in_spec::<S>(10), one_in_spec::<S>(10)) ==> r is Ok && exists|
            or_unit: Unit<S>,
            nand_unit: Unit<S>,
            and_unit: Unit<S>,
        |
            {
                &&& drawn_pair_unit(or_unit)
                &&& drawn_pair_unit(nand_unit)
                &&& drawn_pair_unit(and_unit)
                &&& #[trigger] reports_gate(r.unwrap().or_gate, or_unit.params(), or_table::<S>())
                &&& #[trigger] reports_gate(
                    r.unwrap().nand_gate,
                    nand_unit.params(),
                    nand_table::<S>(),
                )
                &&& #[trigger] reports_gate(
                    r.unwrap().and_gate,
                    and_unit.params(),
                    and_table::<S>(),
                )
            },
        !config_ok(one_in_spec::<S>(10), one_in_spec::<S>(10)) ==> r == Err::<
            GatesReport<S>,
            Error,
        >(Error::InvalidConfig),
{
    let or_unit: Unit<S> = Unit::new_random(rng, 2);
    let nand_unit: Unit<S> = Unit::new_random(rng, 2);
    let and_unit: Unit<S> = Unit::new_random(rng, 2);
    let ghost units = (or_unit, nand_unit, and_unit);
    proof {
        lemma_drawn_unit(or_unit);
        lemma_drawn_unit(nand_unit);
        lemma_drawn_unit(and_unit);
    }
    let r = gates_from(or_unit, nand_unit, and_unit);
    proof {
        if r is Ok {
            assert(reports_gate(r.unwrap().or_gate, units.0.params(), or_table::<S>()));
            assert(reports_gate(r.unwrap().nand_gate, units.1.params(), nand_table::<S>()));
            assert(reports_gate(r.unwrap().and_gate, units.2.params(), and_table::<S>()));
        }
    }
    r
}

proof fn lemma_drawn_unit<S: Scalar>(unit: Unit<S>)
    requires
        forall|i: int| 0 <= i < unit.weights_spec().len() ==> drawn(#[trigger] unit.weights_spec()[i]),
        drawn(unit.bias_spec()),
    ensures
        all_drawn(unit.params()),
{
    assert forall|i: int| 0 <= i < unit.params().len() implies drawn(
        #[trigger] unit.params()[i],
    ) by {
        if i < unit.weights_spec().len() {
            assert(unit.params()[i] == unit.weights_spec()[i]);
        }
    }
}

/// What the experiment with the linear cell has to report.
#[derive(Clone, Copy, Debug, PartialEq)]
pub struct CellReport<S: Scalar> {
    /// The cell before training, and its cost.
    pub before: LinearCell<S>,
    pub cost_before: S,
    /// The cell after training, and its cost.
    pub after: LinearCell<S>,
    pub cost_after: S,
    /// How many iterations were made.
    pub iterations: usize,
}

/// Whether `report` describes the training of the cell `start` on the
/// doubling table, with the step `1/1000` and the rate `1/100`, for as long
/// as the cost is above `5/100000` and for no more than `limit`
/// iterations.
pub open spec fn reports_cell<S: Scalar>(
    report: CellReport<S>,
    start: LinearCell<S>,
    limit: nat,
) -> bool {
    let rows = doubling_table::<S>();
    let eps = one_in_spec::<S>(1000);
    let rate = one_in_spec::<S>(100);
    &&& report.before == start
    &&& report.cost_before == LinearCell::<S>::cost_of(start.params(), rows)
    &&& stops_after::<S, LinearCell<S>>(
        start.params(),
        rows,
        eps,
        rate,
        cell_threshold_spec::<S>(),
        limit,
        report.iterations as nat,
    )
    &&& report.after.params() == iterate::<S, LinearCell<S>>(
        start.params(),
        rows,
        eps,
        rate,
        report.iterations as nat,
    )
    &&& report.cost_after == LinearCell::<S>::cost_of(report.after.params(), rows)
}

/// Trains the given cell on the doubling table until its cost is no longer
/// above the threshold, or until `max_iterations` iterations are made, and
/// reports on it. With a step or a rate that makes the cost grow, only the
/// limit ends the training. Fails with `InvalidConfig` where the scalars
/// do not count `1/1000` and `1/100` as positive.
pub fn one_brain_cell_from<S: Scalar>(start: LinearCell<S>, max_iterations: usize) -> (r: Result<
    CellReport<S>,
    Error,
>)
    ensures
        config_ok(one_in_spec::<S>(1000), one_in_spec::<S>(100)) ==> r is Ok && reports_cell(
            r.unwrap(),
            start,
            max_iterations as nat,
        ),
        !config_ok(one_in_spec::<S>(1000), one_in_spec::<S>(100)) ==> r == Err::<
            CellReport<S>,
            Error,
        >(Error::InvalidConfig),
{
    let data = TrainingDataSet::doubling();
    let eps: S = one_in(1000);
    let rate: S = one_in(100);
    let threshold: S = S::from_count(5).over(S::from_count(100000));
    let cost_before = start.cost(&data);
    let mut cell = start;
    match train_until(&mut cell, &data, eps, rate, threshold, max_iterations) {
        Ok(iterations) => {
            let cost_after = cell.cost(&data);
            Ok(CellReport { before: start, cost_before, after: cell, cost_after, iterations })
        },
        Err(e) => Err(e),
    }
}

/// Draws a cell from the generator and trains it as `one_brain_cell_from`
/// does.
pub fn one_brain_cell<S: Scalar>(rng: &mut StdRng, max_iterations: usize) -> (r: Result<
    CellReport<S>,
    Error,
>)
    ensures
        config_ok(one_in_spec::<S>(1000), one_in_spec::<S>(100)) ==> {
            &&& r is Ok
            &&& small_whole_cell(r.unwrap().before)
            &&& reports_cell(r.unwrap(), r.unwrap().before, max_iterations as nat)
        },
        !config_ok(one_in_spec::<S>(1000), one_in_spec::<S>(100)) ==> r == Err::<
            CellReport<S>,
            Error,
        >(Error::InvalidConfig),
{
    let start = LinearCell::new_random(rng);
    one_brain_cell_from(start, max_iterations)
}

} // verus!
