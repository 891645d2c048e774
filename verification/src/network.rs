//! A network of three sigmoid units: two that read the two inputs, and a
//! third that reads what the first two answer.

use vstd::prelude::*;
use rand::rngs::StdRng;
use crate::cost::{expected_of, mean_on, mean_squared_error_spec};
use crate::dataset::TrainingDataSet;
use crate::error::Error;
use crate::random::{drawn, random_bits, unit_interval, unit_interval_spec};
use crate::scalar::{is_positive, Scalar};
use crate::trainer::{
    apply_gradient, config_ok, descend, finite_difference_gradient, gradient_spec, iterate,
    refusal, train, Model,
};
use crate::unit::{forward_with, Unit};

verus! {

/// How many scalar parameters the network has: two weights and a bias for
/// each of its three units.
pub const PARAMETERS: usize = 9;

/// What the network with the parameters `p` answers to `(x1, x2)`.
///
/// The parameters are those of the first unit (two weights, then the bias),
/// then those of the second, then those of the third. The third unit reads
/// the answer of the first and the answer of the second, in this order.
pub open spec fn network_forward_with<S: Scalar>(p: Seq<S>, x1: S, x2: S) -> S {
    let a = forward_with(p.subrange(0, 2), p[2], seq![x1, x2]);
    let b = forward_with(p.subrange(3, 5), p[5], seq![x1, x2]);
    forward_with(p.subrange(6, 8), p[8], seq![a, b])
}

/// The answers of such a network to the rows of a table, in order.
pub open spec fn network_predictions<S: Scalar>(p: Seq<S>, rows: Seq<(Seq<S>, S)>) -> Seq<S> {
    Seq::new(rows.len(), |i: int| network_forward_with(p, rows[i].0[0], rows[i].0[1]))
}

/// The mean squared error of such a network on the rows of a table.
pub open spec fn network_cost_spec<S: Scalar>(p: Seq<S>, rows: Seq<(Seq<S>, S)>) -> S {
    mean_squared_error_spec(network_predictions(p, rows), expected_of(rows))
}

/// Three units in a fixed wiring: `gate_a` and `gate_b` read the two
/// inputs, `gate_c` reads their two answers.
#[derive(Debug, PartialEq)]
pub struct CompositeNetwork<S: Scalar> {
    gate_a: Unit<S>,
    gate_b: Unit<S>,
    gate_c: Unit<S>,
}

fn pair<S: Scalar>(first: S, second: S) -> (v: Vec<S>)
    ensures
        v@ == seq![first, second],
{
    let mut v: Vec<S> = Vec::with_capacity(2);
    v.push(first);
    v.push(second);
    proof {
        assert(v@ =~= seq![first, second]);
    }
    v
}

impl<S: Scalar> CompositeNetwork<S> {
    /// The first unit that reads the inputs.
    pub closed spec fn gate_a_spec(self) -> Unit<S> {
        self.gate_a
    }

    /// The second unit that reads the inputs.
    pub closed spec fn gate_b_spec(self) -> Unit<S> {
        self.gate_b
    }

    /// The unit that reads the answers of the other two.
    pub closed spec fn gate_c_spec(self) -> Unit<S> {
        self.gate_c
    }

    /// Each of the three units has two weights. This holds of every network
    /// at all times.
    #[verifier::type_invariant]
    pub open spec fn wired(self) -> bool {
        &&& self.gate_a_spec().weights_spec().len() == 2
        &&& self.gate_b_spec().weights_spec().len() == 2
        &&& self.gate_c_spec().weights_spec().len() == 2
    }

    /// Wires three units into a network, or returns `None` where one of
    /// them has not exactly two weights.
    pub fn new(gate_a: Unit<S>, gate_b: Unit<S>, gate_c: Unit<S>) -> (r: Option<
        CompositeNetwork<S>,
    >)
        ensures
            r is Some <==> {
                &&& gate_a.weights_spec().len() == 2
                &&& gate_b.weights_spec().len() == 2
                &&& gate_c.weights_spec().len() == 2
            },
            r is Some ==> {
                &&& r.unwrap().valid()
                &&& r.unwrap().gate_a_spec() == gate_a
                &&& r.unwrap().gate_b_spec() == gate_b
                &&& r.unwrap().gate_c_spec() == gate_c
            },
    {
        if gate_a.weights().len() != 2 || gate_b.weights().len() != 2 || gate_c.weights().len()
            != 2 {
            return None;
        }
        Some(CompositeNetwork { gate_a, gate_b, gate_c })
    }

    /// Borrows the first unit that reads the inputs.
    pub fn gate_a(&self) -> (r: &Unit<S>)
        ensures
            *r == self.gate_a_spec(),
    {
        &self.gate_a
    }

    /// Borrows the second unit that reads the inputs.
    pub fn gate_b(&self) -> (r: &Unit<S>)
        ensures
            *r == self.gate_b_spec(),
    {
        &self.gate_b
    }

    /// Borrows the unit that reads the answers of the other two.
    pub fn gate_c(&self) -> (r: &Unit<S>)
        ensures
            *r == self.gate_c_spec(),
    {
        &self.gate_c
    }

    /// What the network answers to `(x1, x2)`, unit by unit.
    pub open spec fn forward_spec(self, x1: S, x2: S) -> S {
        let a = forward_with(
            self.gate_a_spec().weights_spec(),
            self.gate_a_spec().bias_spec(),
            seq![x1, x2],
        );
        let b = forward_with(
            self.gate_b_spec().weights_spec(),
            self.gate_b_spec().bias_spec(),
            seq![x1, x2],
        );
        forward_with(self.gate_c_spec().weights_spec(), self.gate_c_spec().bias_spec(), seq![a, b])
    }

    /// Reading the network's answer off its flat parameters gives what its
    /// units answer.
    pub proof fn lemma_forward_flat(self, x1: S, x2: S)
        requires
            self.valid(),
        ensures
            network_forward_with(self.params(), x1, x2) == self.forward_spec(x1, x2),
    {
        let p = self.params();
        assert(p.subrange(0, 2) =~= self.gate_a_spec().weights_spec());
        assert(p.subrange(3, 5) =~= self.gate_b_spec().weights_spec());
        assert(p.subrange(6, 8) =~= self.gate_c_spec().weights_spec());
    }

    /// Answers the inputs `(x1, x2)`: the third unit's answer to what the
    /// first two units answer to them.
    pub fn forward(&self, x1: S, x2: S) -> (r: S)
        ensures
            r == self.forward_spec(x1, x2),
            r == network_forward_with(self.params(), x1, x2),
    {
        proof {
            use_type_invariant(self);
            self.lemma_forward_flat(x1, x2);
        }
        let inputs = pair(x1, x2);
        let a = self.gate_a.forward(&inputs);
        let b = self.gate_b.forward(&inputs);
        let hidden = pair(a, b);
        self.gate_c.forward(&hidden)
    }

    /// The mean squared error of the network's answers on `dataset`, or
    /// `DimensionMismatch` where the rows of `dataset` have not two inputs.
    pub fn network_cost(&self, dataset: &TrainingDataSet<S>) -> (r: Result<S, Error>)
        ensures
            dataset.arity_spec() == 2 ==> r == Ok::<S, Error>(
                network_cost_spec(self.params(), dataset@),
            ),
            dataset.arity_spec() != 2 ==> r == Err::<S, Error>(Error::DimensionMismatch),
    {
        if dataset.arity() != 2 {
            return Err(Error::DimensionMismatch);
        }
        Ok(self.cost_on(dataset))
    }

    /// The mean squared error on a table whose rows have two inputs.
    fn cost_on(&self, dataset: &TrainingDataSet<S>) -> (c: S)
        requires
            dataset.arity_spec() == 2,
        ensures
            c == network_cost_spec(self.params(), dataset@),
    {
        let n: usize = dataset.len();
        let mut predicted: Vec<S> = Vec::with_capacity(n);
        let mut k: usize = 0;
        while k < n
            invariant
                k <= n,
                n == dataset@.len(),
                dataset.arity_spec() == 2,
                predicted@.len() == k,
                forall|t: int|
                    0 <= t < k ==> #[trigger] predicted@[t] == network_forward_with(
                        self.params(),
                        dataset@[t].0[0],
                        dataset@[t].0[1],
                    ),
            decreases n - k,
        {
            let example = dataset.at(k);
            predicted.push(self.forward(example.inputs[0], example.inputs[1]));
            k += 1;
        }
        proof {
            assert(predicted@ =~= network_predictions(self.params(), dataset@));
        }
        mean_on(&predicted, dataset)
    }
}

impl<S: Scalar> Model<S> for CompositeNetwork<S> {
    /// Each of the three units has two weights, as `wired` says of every
    /// network.
    open spec fn valid(&self) -> bool {
        self.wired()
    }

    open spec fn arity(&self) -> nat {
        2
    }

    /// The parameters of `gate_a`, then of `gate_b`, then of `gate_c`; of
    /// each unit the two weights, then the bias.
    open spec fn params(&self) -> Seq<S> {
        self.gate_a_spec().params() + self.gate_b_spec().params() + self.gate_c_spec().params()
    }

    open spec fn answer_of(params: Seq<S>, inputs: Seq<S>) -> S {
        network_forward_with(params, inputs[0], inputs[1])
    }

    open spec fn cost_of(params: Seq<S>, rows: Seq<(Seq<S>, S)>) -> S {
        network_cost_spec(params, rows)
    }

    fn input_count(&self) -> (n: usize) {
        2
    }

    fn param_count(&self) -> (n: usize) {
        PARAMETERS
    }

    fn param(&self, index: usize) -> (v: S) {
        if index < 3 {
            self.gate_a.param(index)
        } else if index < 6 {
            self.gate_b.param(index - 3)
        } else {
            self.gate_c.param(index - 6)
        }
    }

    fn set_param(&mut self, index: usize, value: S) {
        if index < 3 {
            self.gate_a.put(index, value);
        } else if index < 6 {
            self.gate_b.put(index - 3, value);
        } else {
            self.gate_c.put(index - 6, value);
        }
        proof {
            assert(self.params() =~= old(self).params().update(index as int, value));
        }
    }

    fn answer(&self, inputs: &Vec<S>) -> (r: S) {
        self.forward(inputs[0], inputs[1])
    }

    fn cost(&self, data: &TrainingDataSet<S>) -> (c: S) {
        self.cost_on(data)
    }
}

impl<S: Scalar> CompositeNetwork<S> {
    /// Estimates the gradient of the cost on `dataset` in all nine
    /// parameters, in the order of `params()`.
    ///
    /// The cost at the current parameters is the baseline. Each parameter
    /// in turn is raised by `eps`, the cost is read, the quotient
    /// `(raised - baseline) / eps` is noted, and the parameter is put back.
    /// The network ends with the parameters it began with.
    ///
    /// Refuses an `eps` that is not strictly positive with `InvalidConfig`,
    /// and a table whose rows have not two inputs with `DimensionMismatch`.
    pub fn finite_difference_gradient(&mut self, eps: S, dataset: &TrainingDataSet<S>) -> (r:
        Result<Vec<S>, Error>)
        ensures
            final(self).params() == old(self).params(),
            match refusal(is_positive(eps), dataset.arity_spec() == 2) {
                Some(e) => r == Err::<Vec<S>, Error>(e),
                None => {
                    &&& r is Ok
                    &&& r.unwrap()@.len() == PARAMETERS
                    &&& r.unwrap()@ == gradient_spec::<S, CompositeNetwork<S>>(
                        old(self).params(),
                        dataset@,
                        eps,
                    )
                },
            },
    {
        proof {
            use_type_invariant(&*self);
        }
        finite_difference_gradient(self, eps, dataset)
    }

    /// Lowers each of the nine parameters by `rate` times its entry of
    /// `gradient`. Every parameter is lowered from its own value before the
    /// call, so the order of the updates is of no account.
    ///
    /// Refuses a `rate` that is not strictly positive with `InvalidConfig`,
    /// and a gradient that has not nine entries with `DimensionMismatch`;
    /// the network then stays as it was.
    pub fn apply_gradient(&mut self, gradient: &Vec<S>, rate: S) -> (r: Result<(), Error>)
        ensures
            match refusal(is_positive(rate), gradient@.len() == PARAMETERS) {
                Some(e) => r == Err::<(), Error>(e) && final(self).params() == old(self).params(),
                None => r == Ok::<(), Error>(()) && final(self).params() == descend(
                    old(self).params(),
                    gradient@,
                    rate,
                ),
            },
    {
        proof {
            use_type_invariant(&*self);
        }
        apply_gradient(self, gradient, rate)
    }

    /// Makes `iterations` iterations of gradient descent on `dataset`, each
    /// an estimate of the gradient followed by its application.
    ///
    /// Refuses an `eps` or a `rate` that is not strictly positive with
    /// `InvalidConfig`, and a table whose rows have not two inputs with
    /// `DimensionMismatch`; the network then stays as it was.
    pub fn train(&mut self, dataset: &TrainingDataSet<S>, eps: S, rate: S, iterations: usize) -> (r:
        Result<(), Error>)
        ensures
            match refusal(config_ok(eps, rate), dataset.arity_spec() == 2) {
                Some(e) => r == Err::<(), Error>(e) && final(self).params() == old(self).params(),
                None => r == Ok::<(), Error>(()) && final(self).params() == iterate::<
                    S,
                    CompositeNetwork<S>,
                >(old(self).params(), dataset@, eps, rate, iterations as nat),
            },
    {
        proof {
            use_type_invariant(&*self);
        }
        train(self, dataset, eps, rate, iterations)
    }
}

/// The nine parameters, in the order of `params()`, that nine draws make
/// in the order drawn: the draws go to the third unit first, then to the
/// second, then to the first, and within each unit to the bias first and
/// then to the two weights.
pub open spec fn params_of_draws<S: Scalar>(bits: Seq<u64>) -> Seq<S> {
    seq![
        unit_interval_spec::<S>(bits[7]),
        unit_interval_spec::<S>(bits[8]),
        unit_interval_spec::<S>(bits[6]),
        unit_interval_spec::<S>(bits[4]),
        unit_interval_spec::<S>(bits[5]),
        unit_interval_spec::<S>(bits[3]),
        unit_interval_spec::<S>(bits[1]),
        unit_interval_spec::<S>(bits[2]),
        unit_interval_spec::<S>(bits[0]),
    ]
}

impl<S: Scalar> CompositeNetwork<S> {
    /// Makes the unit whose bias is draw `first` and whose weights are the
    /// two draws after it.
    fn unit_from(bits: &Vec<u64>, first: usize) -> (unit: Unit<S>)
        requires
            first + 3 <= bits@.len(),
        ensures
            unit.params() == seq![
                unit_interval_spec::<S>(bits@[first + 1]),
                unit_interval_spec::<S>(bits@[first + 2]),
                unit_interval_spec::<S>(bits@[first as int]),
            ],
    {
        proof {
            assert(bits@.len() == bits.len());
        }
        let bias = unit_interval(bits[first]);
        let weights = pair(unit_interval(bits[first + 1]), unit_interval(bits[first + 2]));
        let unit = Unit::new(weights, bias);
        proof {
            assert(unit.params() =~= seq![
                unit_interval_spec::<S>(bits@[first + 1]),
                unit_interval_spec::<S>(bits@[first + 2]),
                unit_interval_spec::<S>(bits@[first as int]),
            ]);
        }
        unit
    }

    /// Makes the network out of nine draws, taken in the order drawn, or
    /// returns `None` where `bits` has not nine entries.
    ///
    /// The first three draws become the bias and the two weights of
    /// `gate_c`, the next three those of `gate_b`, the last three those of
    /// `gate_a`.
    pub fn from_bits(bits: &Vec<u64>) -> (r: Option<CompositeNetwork<S>>)
        ensures
            r is Some <==> bits@.len() == PARAMETERS,
            r is Some ==> r.unwrap().valid() && r.unwrap().params() == params_of_draws::<S>(
                bits@,
            ),
    {
        if bits.len() != PARAMETERS {
            return None;
        }
        let gate_c = Self::unit_from(bits, 0);
        let gate_b = Self::unit_from(bits, 3);
        let gate_a = Self::unit_from(bits, 6);
        proof {
            assert(gate_a.weights_spec() =~= gate_a.params().drop_last());
            assert(gate_b.weights_spec() =~= gate_b.params().drop_last());
            assert(gate_c.weights_spec() =~= gate_c.params().drop_last());
        }
        let network = CompositeNetwork { gate_a, gate_b, gate_c };
        proof {
            assert(network.params() =~= params_of_draws::<S>(bits@));
        }
        Some(network)
    }

    /// Draws nine times from the generator and makes the network of the
    /// draws as `from_bits` does.
    pub fn new_random(rng: &mut StdRng) -> (network: CompositeNetwork<S>)
        ensures
            network.valid(),
            network.params().len() == PARAMETERS,
            exists|bits: Seq<u64>|
                bits.len() == PARAMETERS && network.params() == #[trigger] params_of_draws::<S>(
                    bits,
                ),
            forall|i: int| 0 <= i < PARAMETERS ==> drawn(#[trigger] network.params()[i]),
    {
        let bits = random_bits(rng, PARAMETERS);
        let network = Self::from_bits(&bits).unwrap();
        proof {
            assert(network.params() == params_of_draws::<S>(bits@));
        }
        network
    }
}

impl<S: Scalar> Clone for CompositeNetwork<S> {
    /// Makes a second network with the same parameters.
    fn clone(&self) -> (copy: CompositeNetwork<S>)
        ensures
            copy.valid(),
            copy.params() == self.params(),
    {
        proof {
            use_type_invariant(self);
        }
        CompositeNetwork {
            gate_a: self.gate_a.clone(),
            gate_b: self.gate_b.clone(),
            gate_c: self.gate_c.clone(),
        }
    }
}

} // verus!
