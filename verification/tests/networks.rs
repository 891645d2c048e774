use fdgrad::network::PARAMETERS;
use fdgrad::random::{
    random_bits, random_count, random_scalar, unit_interval, LOWER_STEPS, UPPER_STEPS,
};
use fdgrad::trainer::{apply_gradient, finite_difference_gradient, train_one_iteration};
use fdgrad::{CompositeNetwork, Error, Model, Scalar, TrainingDataSet, Unit};
use rand::rngs::StdRng;
use rand::{Rng, RngCore, SeedableRng};

#[derive(Clone, Copy, Debug, PartialEq)]
struct Real(f64);

impl Scalar for Real {
    fn from_count_spec(n: u64) -> Real {
        Real(n as f64)
    }
    fn plus_spec(self, rhs: Real) -> Real {
        Real(self.0 + rhs.0)
    }
    fn minus_spec(self, rhs: Real) -> Real {
        Real(self.0 - rhs.0)
    }
    fn times_spec(self, rhs: Real) -> Real {
        Real(self.0 * rhs.0)
    }
    fn over_spec(self, rhs: Real) -> Real {
        Real(self.0 / rhs.0)
    }
    fn negated_spec(self) -> Real {
        Real(-self.0)
    }
    fn exp_spec(self) -> Real {
        Real(self.0.exp())
    }
    fn less_than_spec(self, rhs: Real) -> bool {
        self.0 < rhs.0
    }
    fn from_count(n: u64) -> Real {
        Real(n as f64)
    }
    fn plus(self, rhs: Real) -> Real {
        Real(self.0 + rhs.0)
    }
    fn minus(self, rhs: Real) -> Real {
        Real(self.0 - rhs.0)
    }
    fn times(self, rhs: Real) -> Real {
        Real(self.0 * rhs.0)
    }
    fn over(self, rhs: Real) -> Real {
        Real(self.0 / rhs.0)
    }
    fn negated(self) -> Real {
        Real(-self.0)
    }
    fn exp(self) -> Real {
        Real(self.0.exp())
    }
    fn less_than(self, rhs: Real) -> bool {
        self.0 < rhs.0
    }
}

fn cost(weights: &Vec<Real>, bias: Real, data: &TrainingDataSet<Real>) -> Real {
    fdgrad::unit::cost(weights, bias, data).unwrap()
}

fn unit(w1: f64, w2: f64, b: f64) -> Unit<Real> {
    Unit::new(vec![Real(w1), Real(w2)], Real(b))
}

fn network(p: [f64; 9]) -> CompositeNetwork<Real> {
    CompositeNetwork::new(unit(p[0], p[1], p[2]), unit(p[3], p[4], p[5]), unit(p[6], p[7], p[8]))
        .unwrap()
}

fn params(n: &CompositeNetwork<Real>) -> Vec<f64> {
    (0..n.param_count()).map(|i| n.param(i).0).collect()
}

fn logistic(x: f64) -> f64 {
    1.0 / (1.0 + (-x).exp())
}

fn answer(w1: f64, w2: f64, b: f64, x: f64, y: f64) -> f64 {
    logistic(((0.0 + w1 * x) + w2 * y) + b)
}

fn net_answer(p: &[f64], x: f64, y: f64) -> f64 {
    let a = answer(p[0], p[1], p[2], x, y);
    let b = answer(p[3], p[4], p[5], x, y);
    answer(p[6], p[7], p[8], a, b)
}

fn net_cost(p: &[f64], rows: &[(f64, f64, f64)]) -> f64 {
    let mut total = 0.0;
    for r in rows {
        let d = net_answer(p, r.0, r.1) - r.2;
        total = total + d * d;
    }
    total / (rows.len() as f64)
}

const XOR_ROWS: [(f64, f64, f64); 4] =
    [(0.0, 0.0, 0.0), (1.0, 0.0, 1.0), (0.0, 1.0, 1.0), (1.0, 1.0, 0.0)];

const START: [f64; 9] = [0.5, -0.25, 0.125, 1.5, 2.5, -0.75, -1.0, 0.75, 0.3];

#[test]
fn network_has_nine_parameters_in_gate_order() {
    let n = network(START);
    assert_eq!(PARAMETERS, 9);
    assert_eq!(n.param_count(), 9);
    assert_eq!(params(&n), START.to_vec());
    assert_eq!(n.gate_a(), &unit(0.5, -0.25, 0.125));
    assert_eq!(n.gate_b(), &unit(1.5, 2.5, -0.75));
    assert_eq!(n.gate_c(), &unit(-1.0, 0.75, 0.3));
}

#[test]
fn network_needs_gates_with_two_weights() {
    let three: Unit<Real> = Unit::new(vec![Real(1.0), Real(2.0), Real(3.0)], Real(0.0));
    let one: Unit<Real> = Unit::new(vec![Real(1.0)], Real(0.0));
    assert!(CompositeNetwork::new(three.clone(), unit(0.0, 0.0, 0.0), unit(0.0, 0.0, 0.0))
        .is_none());
    assert!(CompositeNetwork::new(unit(0.0, 0.0, 0.0), one.clone(), unit(0.0, 0.0, 0.0))
        .is_none());
    assert!(CompositeNetwork::new(unit(0.0, 0.0, 0.0), unit(0.0, 0.0, 0.0), three).is_none());
    assert!(CompositeNetwork::new(unit(0.0, 0.0, 0.0), unit(0.0, 0.0, 0.0), unit(0.0, 0.0, 0.0))
        .is_some());
}

#[test]
fn network_forward_feeds_two_units_into_the_third() {
    let n = network(START);
    for (x, y) in [(0.0, 0.0), (1.0, 0.0), (0.0, 1.0), (1.0, 1.0), (0.3, 5.0)] {
        assert_eq!(n.forward(Real(x), Real(y)), Real(net_answer(&START, x, y)));
        let a = n.gate_a().forward(&vec![Real(x), Real(y)]);
        let b = n.gate_b().forward(&vec![Real(x), Real(y)]);
        assert_eq!(n.forward(Real(x), Real(y)), n.gate_c().forward(&vec![a, b]));
    }
}

#[test]
fn network_forward_reads_the_second_weight_of_the_second_gate() {
    let low = network([0.0, 0.0, 0.0, 1.0, 0.0, 0.0, 0.0, 1.0, 0.0]);
    let high = network([0.0, 0.0, 0.0, 1.0, 4.0, 0.0, 0.0, 1.0, 0.0]);
    assert_eq!(low.forward(Real(1.0), Real(0.0)), high.forward(Real(1.0), Real(0.0)));
    assert_ne!(low.forward(Real(0.0), Real(1.0)), high.forward(Real(0.0), Real(1.0)));
    assert_eq!(high.forward(Real(0.0), Real(1.0)), Real(logistic(logistic(4.0))));
}

#[test]
fn network_cost_is_the_mean_of_the_squared_errors() {
    let data: TrainingDataSet<Real> = TrainingDataSet::xor_gate();
    let n = network(START);
    assert_eq!(n.network_cost(&data).unwrap(), Real(net_cost(&START, &XOR_ROWS)));
    assert_eq!(Model::cost(&n, &data), n.network_cost(&data).unwrap());
    assert!(n.network_cost(&data).unwrap().0 >= 0.0);
}

#[test]
fn gradient_holds_one_difference_quotient_for_each_parameter() {
    let data: TrainingDataSet<Real> = TrainingDataSet::xor_gate();
    let mut n = network(START);
    let eps = 0.001;
    let gradient = n.finite_difference_gradient(Real(eps), &data).unwrap();
    assert_eq!(gradient.len(), 9);
    let base = net_cost(&START, &XOR_ROWS);
    for i in 0..9 {
        let mut raised = START;
        raised[i] = raised[i] + eps;
        assert_eq!(gradient[i], Real((net_cost(&raised, &XOR_ROWS) - base) / eps));
    }
}

#[test]
fn gradient_leaves_the_network_as_it_was() {
    let data: TrainingDataSet<Real> = TrainingDataSet::xor_gate();
    let mut n = network(START);
    let _ = n.finite_difference_gradient(Real(0.001), &data).unwrap();
    assert_eq!(n, network(START));
}

#[test]
fn gradient_is_the_same_in_any_order_of_the_parameters() {
    let data: TrainingDataSet<Real> = TrainingDataSet::xor_gate();
    let eps = Real(0.001);
    let mut n = network(START);
    let forward_order = n.finite_difference_gradient(eps, &data).unwrap();
    let base = n.network_cost(&data).unwrap();
    for order in [[8, 7, 6, 5, 4, 3, 2, 1, 0], [4, 0, 8, 2, 6, 1, 7, 3, 5]] {
        let mut other = network(START);
        let mut entries = vec![Real(0.0); 9];
        for i in order {
            let saved = other.param(i);
            other.set_param(i, saved.plus(eps));
            entries[i] = other.network_cost(&data).unwrap().minus(base).over(eps);
            other.set_param(i, saved);
        }
        assert_eq!(entries, forward_order);
        assert_eq!(other, network(START));
    }
}

#[test]
fn generic_gradient_of_a_unit_has_weights_then_bias() {
    let data: TrainingDataSet<Real> = TrainingDataSet::or_gate();
    let mut u = unit(0.3, -0.7, 0.2);
    let gradient = finite_difference_gradient(&mut u, Real(0.1), &data).unwrap();
    assert_eq!(gradient.len(), 3);
    let base = cost(&vec![Real(0.3), Real(-0.7)], Real(0.2), &data);
    let raised = cost(&vec![Real(0.3), Real(-0.7)], Real(0.2 + 0.1), &data);
    assert_eq!(gradient[2], Real((raised.0 - base.0) / 0.1));
    assert_eq!(u, unit(0.3, -0.7, 0.2));
}

#[test]
fn apply_gradient_lowers_every_parameter_by_rate_times_its_entry() {
    let mut n = network(START);
    let g: Vec<Real> = (1..10).map(|k| Real(k as f64)).collect();
    assert_eq!(n.apply_gradient(&g, Real(0.5)), Ok(()));
    let expected: Vec<f64> = (0..9).map(|i| START[i] - 0.5 * ((i + 1) as f64)).collect();
    assert_eq!(params(&n), expected);
}

#[test]
fn generic_apply_gradient_works_on_a_unit() {
    let mut u = unit(1.0, 2.0, 3.0);
    let g = vec![Real(1.0), Real(-1.0), Real(4.0)];
    assert_eq!(apply_gradient(&mut u, &g, Real(0.25)), Ok(()));
    assert_eq!(u, unit(0.75, 2.25, 2.0));
}

#[test]
fn network_training_is_gradient_then_update_again_and_again() {
    let data: TrainingDataSet<Real> = TrainingDataSet::xor_gate();
    let (eps, rate) = (Real(0.001), Real(0.1));
    let mut by_hand = network(START);
    for _ in 0..20 {
        let g = by_hand.finite_difference_gradient(eps, &data).unwrap();
        by_hand.apply_gradient(&g, rate).unwrap();
    }
    let mut trained = network(START);
    assert_eq!(trained.train(&data, eps, rate, 20), Ok(()));
    assert_eq!(trained, by_hand);
    let mut p = START.to_vec();
    for _ in 0..20 {
        let base = net_cost(&p, &XOR_ROWS);
        let mut g = vec![0.0; 9];
        for i in 0..9 {
            let mut raised = p.clone();
            raised[i] = raised[i] + 0.001;
            g[i] = (net_cost(&raised, &XOR_ROWS) - base) / 0.001;
        }
        for i in 0..9 {
            p[i] = p[i] - 0.1 * g[i];
        }
    }
    assert_eq!(params(&trained), p);
}

#[test]
fn network_training_without_iterations_changes_nothing() {
    let data: TrainingDataSet<Real> = TrainingDataSet::xor_gate();
    let mut n = network(START);
    assert_eq!(n.train(&data, Real(0.001), Real(0.1), 0), Ok(()));
    assert_eq!(n, network(START));
}

#[test]
fn network_training_refuses_a_bad_configuration() {
    let data: TrainingDataSet<Real> = TrainingDataSet::xor_gate();
    let mut n = network(START);
    assert_eq!(n.train(&data, Real(0.0), Real(0.1), 5), Err(Error::InvalidConfig));
    assert_eq!(n.train(&data, Real(-0.001), Real(0.1), 5), Err(Error::InvalidConfig));
    assert_eq!(n.train(&data, Real(0.001), Real(0.0), 5), Err(Error::InvalidConfig));
    assert_eq!(n.train(&data, Real(0.001), Real(f64::NAN), 5), Err(Error::InvalidConfig));
    assert_eq!(n, network(START));
    assert_eq!(
        train_one_iteration(&mut n, &data, Real(0.0), Real(0.1)),
        Err(Error::InvalidConfig)
    );
    assert_eq!(n, network(START));
}

#[test]
fn a_network_learns_xor() {
    let data: TrainingDataSet<Real> = TrainingDataSet::xor_gate();
    let mut n = network([
        0.8444218515250481,
        0.7579544029403025,
        0.420571580830845,
        0.25891675029296335,
        0.5112747213686085,
        0.4049341374504143,
        0.7837985890347726,
        0.30331272607892745,
        0.4765969541523558,
    ]);
    let eps: Real = Real::from_count(1).over(Real::from_count(1000));
    let rate: Real = Real::from_count(1).over(Real::from_count(10));
    assert_eq!(eps, Real(1e-3));
    assert_eq!(rate, Real(1e-1));
    assert_eq!(n.train(&data, eps, rate, 100000), Ok(()));
    assert!(n.network_cost(&data).unwrap().0 < 0.05);
    assert!(n.forward(Real(0.0), Real(1.0)).0 > 0.8);
    assert!(n.forward(Real(1.0), Real(0.0)).0 > 0.8);
    assert!(n.forward(Real(0.0), Real(0.0)).0 < 0.2);
    assert!(n.forward(Real(1.0), Real(1.0)).0 < 0.2);
}

#[test]
fn unit_interval_is_the_upper_bits_times_two_to_the_minus_fifty_three() {
    let mut rng = StdRng::seed_from_u64(77);
    for _ in 0..500 {
        let bits = rng.next_u64();
        let expected = ((bits >> 11) as f64) * (1.0 / 9007199254740992.0);
        assert_eq!(unit_interval::<Real>(bits), Real(expected));
    }
}

#[test]
fn unit_interval_keeps_the_upper_fifty_three_bits() {
    assert_eq!(UPPER_STEPS, 1u64 << 27);
    assert_eq!(LOWER_STEPS, 1u64 << 26);
    assert_eq!(unit_interval::<Real>(0), Real(0.0));
    assert_eq!(unit_interval::<Real>(2047), Real(0.0));
    assert_eq!(unit_interval::<Real>(1u64 << 63), Real(0.5));
    assert_eq!(unit_interval::<Real>(1u64 << 11), Real(1.0 / 9007199254740992.0));
    assert_eq!(unit_interval::<Real>(u64::MAX), Real(1.0 - 1.0 / 9007199254740992.0));
    assert!(unit_interval::<Real>(u64::MAX).0 < 1.0);
}

#[test]
fn random_scalars_are_the_generator_s_own_unit_floats() {
    let mut ours = StdRng::seed_from_u64(2024);
    let mut theirs = StdRng::seed_from_u64(2024);
    for _ in 0..200 {
        let x: Real = random_scalar(&mut ours);
        let y: f64 = theirs.gen();
        assert_eq!(x, Real(y));
        assert!(x.0 >= 0.0 && x.0 < 1.0);
    }
}

#[test]
fn random_bits_are_the_generator_s_next_words() {
    let mut ours = StdRng::seed_from_u64(5);
    let mut theirs = StdRng::seed_from_u64(5);
    let bits = random_bits(&mut ours, 6);
    assert_eq!(bits.len(), 6);
    for b in bits {
        assert_eq!(b, theirs.next_u64());
    }
    assert_eq!(random_bits(&mut ours, 0), Vec::<u64>::new());
    assert_eq!(ours.next_u64(), theirs.next_u64());
}

#[test]
fn random_counts_lie_in_their_range() {
    let mut rng = StdRng::seed_from_u64(11);
    let mut seen = [false; 5];
    for _ in 0..200 {
        let n = random_count(&mut rng, 1, 5).unwrap();
        assert!(n >= 1 && n < 5);
        seen[n as usize] = true;
    }
    assert_eq!(seen, [false, true, true, true, true]);
    assert_eq!(random_count(&mut rng, 7, 8), Some(7));
}

#[test]
fn random_count_of_an_empty_range_is_none() {
    let mut rng = StdRng::seed_from_u64(11);
    let mut twin = StdRng::seed_from_u64(11);
    assert_eq!(random_count(&mut rng, 5, 5), None);
    assert_eq!(random_count(&mut rng, 6, 5), None);
    assert_eq!(rng.next_u64(), twin.next_u64());
}

#[test]
fn a_random_unit_draws_its_weights_and_then_its_bias() {
    let mut ours = StdRng::seed_from_u64(99);
    let mut theirs = StdRng::seed_from_u64(99);
    let u: Unit<Real> = Unit::new_random(&mut ours, 2);
    let w1: f64 = theirs.gen();
    let w2: f64 = theirs.gen();
    let b: f64 = theirs.gen();
    assert_eq!(u, unit(w1, w2, b));
}

#[test]
fn a_random_unit_has_the_arity_it_was_asked_for() {
    let mut rng = StdRng::seed_from_u64(3);
    let u: Unit<Real> = Unit::new_random(&mut rng, 5);
    assert_eq!(u.weights().len(), 5);
    let none: Unit<Real> = Unit::new_random(&mut rng, 0);
    assert_eq!(none.weights().len(), 0);
}

#[test]
fn a_unit_from_bits_reads_each_word() {
    let u: Unit<Real> = Unit::from_bits(&vec![1u64 << 63, 1u64 << 62], 3u64 << 62);
    assert_eq!(u, unit(0.5, 0.25, 0.75));
}

#[test]
fn a_random_network_gives_its_draws_to_the_last_unit_first() {
    let mut ours = StdRng::seed_from_u64(7);
    let mut theirs = StdRng::seed_from_u64(7);
    let n: CompositeNetwork<Real> = CompositeNetwork::new_random(&mut ours);
    let r: Vec<f64> = (0..9).map(|_| theirs.gen::<f64>()).collect();
    assert_eq!(n.gate_c(), &unit(r[1], r[2], r[0]));
    assert_eq!(n.gate_b(), &unit(r[4], r[5], r[3]));
    assert_eq!(n.gate_a(), &unit(r[7], r[8], r[6]));
    assert_eq!(params(&n), vec![r[7], r[8], r[6], r[4], r[5], r[3], r[1], r[2], r[0]]);
    for p in params(&n) {
        assert!(p >= 0.0 && p < 1.0);
    }
    assert_eq!(ours.next_u64(), theirs.next_u64());
}

#[test]
fn equal_seeds_give_equal_networks() {
    let mut first = StdRng::seed_from_u64(12);
    let mut second = StdRng::seed_from_u64(12);
    let a: CompositeNetwork<Real> = CompositeNetwork::new_random(&mut first);
    let b: CompositeNetwork<Real> = CompositeNetwork::new_random(&mut second);
    assert_eq!(a, b);
    let c: CompositeNetwork<Real> = CompositeNetwork::new_random(&mut first);
    assert_ne!(a, c);
}

#[test]
fn a_random_network_is_the_network_of_its_draws() {
    let mut ours = StdRng::seed_from_u64(8);
    let mut theirs = StdRng::seed_from_u64(8);
    let n: CompositeNetwork<Real> = CompositeNetwork::new_random(&mut ours);
    let bits = random_bits(&mut theirs, 9);
    assert_eq!(Some(n), CompositeNetwork::from_bits(&bits));
}

#[test]
fn a_network_from_bits_needs_nine_words() {
    let eight = vec![0u64; 8];
    let ten = vec![0u64; 10];
    assert!(CompositeNetwork::<Real>::from_bits(&eight).is_none());
    assert!(CompositeNetwork::<Real>::from_bits(&ten).is_none());
    let mut nine = vec![0u64; 9];
    nine[4] = 1u64 << 63;
    nine[8] = 1u64 << 62;
    let n = CompositeNetwork::<Real>::from_bits(&nine).unwrap();
    assert_eq!(params(&n), vec![0.0, 0.25, 0.0, 0.5, 0.0, 0.0, 0.0, 0.0, 0.0]);
    let each: Vec<u64> = (1..10).map(|k| (k as u64) << 60).collect();
    let m = CompositeNetwork::<Real>::from_bits(&each).unwrap();
    let sixteenth = 0.0625;
    assert_eq!(m.gate_c().bias(), Real(1.0 * sixteenth));
    assert_eq!(m.gate_c().weights(), &vec![Real(2.0 * sixteenth), Real(3.0 * sixteenth)]);
    assert_eq!(m.gate_b().bias(), Real(4.0 * sixteenth));
    assert_eq!(m.gate_b().weights(), &vec![Real(5.0 * sixteenth), Real(6.0 * sixteenth)]);
    assert_eq!(m.gate_a().bias(), Real(7.0 * sixteenth));
    assert_eq!(m.gate_a().weights(), &vec![Real(8.0 * sixteenth), Real(9.0 * sixteenth)]);
}

#[test]
fn a_cloned_network_is_equal_and_apart() {
    let n = network(START);
    let mut copy = n.clone();
    assert_eq!(copy, n);
    copy.set_param(4, Real(9.0));
    assert_eq!(n, network(START));
    assert_eq!(copy.param(4), Real(9.0));
    assert_eq!(copy.param(3), Real(START[3]));
}

#[test]
fn gradient_refuses_a_step_size_that_is_not_positive() {
    let data: TrainingDataSet<Real> = TrainingDataSet::xor_gate();
    for eps in [0.0, -0.0, -0.001, f64::NAN, f64::NEG_INFINITY] {
        let mut n = network(START);
        assert_eq!(n.finite_difference_gradient(Real(eps), &data), Err(Error::InvalidConfig));
        assert_eq!(n, network(START));
        let mut u = unit(0.3, -0.7, 0.2);
        assert_eq!(
            finite_difference_gradient(&mut u, Real(eps), &data),
            Err(Error::InvalidConfig)
        );
        assert_eq!(u, unit(0.3, -0.7, 0.2));
    }
}

#[test]
fn gradient_refuses_a_table_that_does_not_fit() {
    let single: TrainingDataSet<Real> = TrainingDataSet::doubling();
    let mut n = network(START);
    assert_eq!(n.finite_difference_gradient(Real(0.001), &single), Err(Error::DimensionMismatch));
    assert_eq!(n.finite_difference_gradient(Real(0.0), &single), Err(Error::InvalidConfig));
    assert_eq!(n, network(START));
    let mut u = unit(0.3, -0.7, 0.2);
    assert_eq!(
        finite_difference_gradient(&mut u, Real(0.001), &single),
        Err(Error::DimensionMismatch)
    );
}

#[test]
fn apply_gradient_refuses_a_rate_that_is_not_positive() {
    let g: Vec<Real> = (1..10).map(|k| Real(k as f64)).collect();
    for rate in [0.0, -0.5, f64::NAN, f64::NEG_INFINITY] {
        let mut n = network(START);
        assert_eq!(n.apply_gradient(&g, Real(rate)), Err(Error::InvalidConfig));
        assert_eq!(n, network(START));
        let mut u = unit(1.0, 2.0, 3.0);
        assert_eq!(apply_gradient(&mut u, &g, Real(rate)), Err(Error::InvalidConfig));
        assert_eq!(u, unit(1.0, 2.0, 3.0));
    }
}

#[test]
fn apply_gradient_refuses_a_gradient_of_another_length() {
    let eight = vec![Real(1.0); 8];
    let ten = vec![Real(1.0); 10];
    let mut n = network(START);
    assert_eq!(n.apply_gradient(&eight, Real(0.5)), Err(Error::DimensionMismatch));
    assert_eq!(n.apply_gradient(&ten, Real(0.5)), Err(Error::DimensionMismatch));
    assert_eq!(n.apply_gradient(&Vec::new(), Real(0.5)), Err(Error::DimensionMismatch));
    assert_eq!(n.apply_gradient(&eight, Real(0.0)), Err(Error::InvalidConfig));
    assert_eq!(n, network(START));
    let mut u = unit(1.0, 2.0, 3.0);
    assert_eq!(apply_gradient(&mut u, &eight, Real(0.5)), Err(Error::DimensionMismatch));
    assert_eq!(u, unit(1.0, 2.0, 3.0));
}

#[test]
fn network_cost_of_a_table_that_does_not_fit_is_a_dimension_mismatch() {
    let single: TrainingDataSet<Real> = TrainingDataSet::doubling();
    let n = network(START);
    assert_eq!(n.network_cost(&single), Err(Error::DimensionMismatch));
    let three: TrainingDataSet<Real> = TrainingDataSet::new(3, Vec::new()).unwrap();
    assert_eq!(n.network_cost(&three), Err(Error::DimensionMismatch));
}

#[test]
fn network_training_refuses_a_table_that_does_not_fit() {
    let single: TrainingDataSet<Real> = TrainingDataSet::doubling();
    let mut n = network(START);
    assert_eq!(n.train(&single, Real(0.001), Real(0.1), 5), Err(Error::DimensionMismatch));
    assert_eq!(n.train(&single, Real(0.0), Real(0.1), 5), Err(Error::InvalidConfig));
    assert_eq!(
        train_one_iteration(&mut n, &single, Real(0.001), Real(0.1)),
        Err(Error::DimensionMismatch)
    );
    assert_eq!(n, network(START));
}
