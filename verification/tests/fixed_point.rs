use fdgrad::dataset::decimal;
use fdgrad::fixed::SCALE;
use fdgrad::linear::linear_cost;
use fdgrad::random::{random_scalar, unit_interval};
use fdgrad::scalar::{positive, sigmoid};
use fdgrad::{
    CompositeNetwork, Error, Fixed, LinearCell, Model, Scalar, TrainingDataSet, Unit,
};
use rand::rngs::StdRng;
use rand::{RngCore, SeedableRng};

fn cost(weights: &Vec<Fixed>, bias: Fixed, data: &TrainingDataSet<Fixed>) -> Fixed {
    fdgrad::unit::cost(weights, bias, data).unwrap()
}

fn raw(raw: i64) -> Fixed {
    Fixed { raw }
}

fn whole(n: i64) -> Fixed {
    Fixed { raw: n * 65536 }
}

#[test]
fn fixed_scale_is_two_to_the_sixteenth() {
    assert_eq!(SCALE, 65536);
    assert_eq!(Fixed::from_count(1), raw(65536));
}

#[test]
fn fixed_from_count_scales_and_saturates() {
    assert_eq!(Fixed::from_count(0), raw(0));
    assert_eq!(Fixed::from_count(3), raw(196608));
    assert_eq!(Fixed::from_count(140737488355327), raw(9223372036854710272));
    assert_eq!(Fixed::from_count(140737488355328), raw(i64::MAX));
    assert_eq!(Fixed::from_count(u64::MAX), raw(i64::MAX));
}

#[test]
fn fixed_plus_and_minus_saturate() {
    assert_eq!(whole(2).plus(whole(3)), whole(5));
    assert_eq!(whole(2).minus(whole(3)), whole(-1));
    assert_eq!(raw(i64::MAX).plus(raw(1)), raw(i64::MAX));
    assert_eq!(raw(i64::MIN).plus(raw(-1)), raw(i64::MIN));
    assert_eq!(raw(i64::MIN).minus(raw(1)), raw(i64::MIN));
    assert_eq!(raw(i64::MAX).minus(raw(-1)), raw(i64::MAX));
    assert_eq!(raw(0).minus(raw(i64::MIN)), raw(i64::MAX));
}

#[test]
fn fixed_times_rescales_and_saturates() {
    assert_eq!(raw(98304).times(raw(32768)), raw(49152));
    assert_eq!(raw(-98304).times(raw(32768)), raw(-49152));
    assert_eq!(raw(-1).times(raw(1)), raw(-1));
    assert_eq!(raw(1).times(raw(1)), raw(0));
    assert_eq!(raw(i64::MAX).times(raw(i64::MAX)), raw(i64::MAX));
    assert_eq!(raw(i64::MIN).times(raw(i64::MAX)), raw(i64::MIN));
    assert_eq!(raw(i64::MIN).times(raw(i64::MIN)), raw(i64::MAX));
}

#[test]
fn fixed_over_is_euclidean_and_saturates() {
    assert_eq!(whole(1).over(whole(3)), raw(21845));
    assert_eq!(whole(-1).over(whole(3)), raw(-21846));
    assert_eq!(whole(1).over(whole(-3)), raw(-21845));
    assert_eq!(whole(-1).over(whole(-3)), raw(21846));
    assert_eq!(whole(6).over(whole(2)), whole(3));
    assert_eq!(raw(i64::MIN).over(raw(-1)), raw(i64::MAX));
    assert_eq!(raw(i64::MIN).over(raw(1)), raw(i64::MIN));
    assert_eq!(raw(i64::MAX).over(raw(1)), raw(i64::MAX));
}

#[test]
fn fixed_over_zero_is_zero() {
    assert_eq!(whole(1).over(raw(0)), raw(0));
    assert_eq!(raw(0).over(raw(0)), raw(0));
    assert_eq!(raw(i64::MIN).over(raw(0)), raw(0));
}

#[test]
fn fixed_negated_saturates() {
    assert_eq!(whole(5).negated(), whole(-5));
    assert_eq!(raw(0).negated(), raw(0));
    assert_eq!(raw(i64::MIN).negated(), raw(i64::MAX));
    assert_eq!(raw(i64::MAX).negated(), raw(-i64::MAX));
}

#[test]
fn fixed_less_than_is_strict() {
    assert!(raw(1).less_than(raw(2)));
    assert!(!raw(2).less_than(raw(2)));
    assert!(!raw(3).less_than(raw(2)));
    assert!(raw(-1).less_than(raw(0)));
    assert!(positive(raw(1)));
    assert!(!positive(raw(0)));
    assert!(!positive(raw(-1)));
}

#[test]
fn fixed_exp_is_the_sixty_fourth_power() {
    assert_eq!(raw(0).exp(), whole(1));
    assert_eq!(whole(1).exp(), raw(176761));
    assert_eq!(whole(-1).exp(), raw(23917));
    assert_eq!(whole(2).exp(), raw(469615));
    assert_eq!(whole(30).exp(), raw(3170597141465294));
    assert_eq!(whole(40).exp(), raw(2046893092245467254));
}

#[test]
fn fixed_exp_is_zero_from_minus_sixty_four_down() {
    assert_eq!(whole(-64).exp(), raw(0));
    assert_eq!(raw(-64 * 65536 + 32768).exp(), raw(0));
    assert_eq!(whole(-1000).exp(), raw(0));
    assert_eq!(raw(i64::MIN).exp(), raw(0));
}

#[test]
fn fixed_exp_saturates() {
    assert_eq!(whole(44).exp(), raw(i64::MAX));
    assert_eq!(whole(100).exp(), raw(i64::MAX));
    assert_eq!(raw(i64::MAX).exp(), raw(i64::MAX));
}

#[test]
fn fixed_sigmoid_of_zero_is_one_half() {
    assert_eq!(sigmoid(raw(0)), raw(32768));
}

#[test]
fn fixed_sigmoid_on_samples() {
    assert_eq!(sigmoid(whole(1)), raw(48013));
    assert_eq!(sigmoid(whole(-1)), raw(17726));
    assert_eq!(sigmoid(whole(8)), raw(65524));
    assert_eq!(sigmoid(whole(-8)), raw(34));
}

#[test]
fn fixed_decimals_are_cut_off() {
    assert_eq!(decimal::<Fixed>(3), raw(19660));
    assert_eq!(decimal::<Fixed>(1), raw(6553));
    assert_eq!(decimal::<Fixed>(10), whole(1));
    assert_eq!(decimal::<Fixed>(50), whole(5));
}

#[test]
fn fixed_unit_cost_on_the_or_table() {
    let data: TrainingDataSet<Fixed> = TrainingDataSet::or_gate();
    let weights = vec![raw(19660), raw(-45875)];
    assert_eq!(cost(&weights, raw(13107), &data), raw(18570));
}

#[test]
fn fixed_unit_makes_one_iteration() {
    let data: TrainingDataSet<Fixed> = TrainingDataSet::or_gate();
    let mut u = Unit::new(vec![raw(19660), raw(-45875)], raw(13107));
    let tenth: Fixed = decimal(1);
    let gradient = fdgrad::trainer::finite_difference_gradient(&mut u, tenth, &data).unwrap();
    assert_eq!(gradient, vec![raw(-7171), raw(-9101), raw(-7341)]);
    assert_eq!(u.train_one_iteration(&data, tenth, tenth), Ok(()));
    assert_eq!(u, Unit::new(vec![raw(20378), raw(-44964)], raw(13842)));
}

#[test]
fn fixed_unit_learns_or() {
    let data: TrainingDataSet<Fixed> = TrainingDataSet::or_gate();
    let mut u = Unit::new(vec![raw(19660), raw(-45875)], raw(13107));
    let tenth: Fixed = decimal(1);
    for _ in 0..2000 {
        assert_eq!(u.train_one_iteration(&data, tenth, whole(1)), Ok(()));
    }
    assert_eq!(u, Unit::new(vec![raw(404620), raw(404615)], raw(-192245)));
    assert_eq!(Model::cost(&u, &data), raw(86));
    assert_eq!(u.forward(&vec![whole(1), whole(1)]), raw(65534));
    assert_eq!(u.forward(&vec![whole(0), whole(0)]), raw(3526));
}

#[test]
fn fixed_linear_cost_is_a_sum_not_a_mean() {
    let data: TrainingDataSet<Fixed> = TrainingDataSet::doubling();
    assert_eq!(linear_cost(whole(1), whole(0), &data), Ok(whole(30)));
    assert_eq!(linear_cost(whole(2), whole(0), &data), Ok(whole(0)));
    assert_eq!(linear_cost(whole(3), whole(1), &data), Ok(whole(55)));
    let cell = LinearCell { weight: whole(3), bias: whole(1) };
    assert_eq!(Model::cost(&cell, &data), whole(55));
}

#[test]
fn fixed_unit_interval_never_reaches_one() {
    assert_eq!(unit_interval::<Fixed>(0), raw(0));
    assert_eq!(unit_interval::<Fixed>(u64::MAX), raw(65535));
    assert_eq!(unit_interval::<Fixed>(1u64 << 63), raw(32768));
    assert_eq!(unit_interval::<Fixed>(1u64 << 62), raw(16384));
    assert_eq!(unit_interval::<Fixed>(1u64 << 58), raw(1024));
    assert_eq!(unit_interval::<Fixed>(3u64 << 47), raw(1));
    assert_eq!(unit_interval::<Fixed>((1u64 << 48) - 1), raw(0));
}

#[test]
fn fixed_unit_interval_is_the_upper_sixteen_bits() {
    let mut rng = StdRng::seed_from_u64(5);
    for _ in 0..500 {
        let bits = rng.next_u64();
        assert_eq!(unit_interval::<Fixed>(bits), raw((bits >> 48) as i64));
    }
}

#[test]
fn fixed_random_scalars_lie_in_the_unit_interval() {
    let mut rng = StdRng::seed_from_u64(6);
    let mut above_half = 0;
    for _ in 0..1000 {
        let x: Fixed = random_scalar(&mut rng);
        assert!(x.raw >= 0 && x.raw < 65536);
        if x.raw >= 32768 {
            above_half += 1;
        }
    }
    assert!(above_half > 300 && above_half < 700);
}

#[test]
fn fixed_random_models_have_parameters_in_the_unit_interval() {
    let mut rng = StdRng::seed_from_u64(9);
    let u: Unit<Fixed> = Unit::new_random(&mut rng, 4);
    for i in 0..u.param_count() {
        assert!(u.param(i).raw >= 0 && u.param(i).raw < 65536);
    }
    let n: CompositeNetwork<Fixed> = CompositeNetwork::new_random(&mut rng);
    for i in 0..n.param_count() {
        assert!(n.param(i).raw >= 0 && n.param(i).raw < 65536);
    }
}

#[test]
fn fixed_sigmoid_reaches_both_ends() {
    assert_eq!(sigmoid(whole(64)), whole(1));
    assert_eq!(sigmoid(whole(-64)), raw(0));
    assert_eq!(sigmoid(raw(i64::MAX)), whole(1));
    assert_eq!(sigmoid(raw(i64::MIN)), raw(0));
}

#[test]
fn fixed_sigmoid_never_falls() {
    let mut previous = sigmoid(whole(-70));
    let mut x = -70 * 65536;
    while x <= 70 * 65536 {
        let current = sigmoid(raw(x));
        assert!(current.raw >= previous.raw, "falls at {}", x);
        assert!(current.raw >= 0 && current.raw <= 65536);
        previous = current;
        x += 4099;
    }
}

#[test]
fn fixed_one_iteration_does_not_depend_on_the_order_of_the_inputs() {
    let data: TrainingDataSet<Fixed> = TrainingDataSet::noisy_and_gate();
    let mut rows = Vec::new();
    for i in 0..data.len() {
        let e = data.example(i).unwrap();
        rows.push(fdgrad::TrainingExample {
            inputs: vec![e.inputs[1], e.inputs[0]],
            expected: e.expected,
        });
    }
    let mirror = TrainingDataSet::new(2, rows).unwrap();
    let tenth: Fixed = decimal(1);
    let mut one = Unit::new(vec![raw(19660), raw(-45875)], raw(13107));
    let mut other = Unit::new(vec![raw(-45875), raw(19660)], raw(13107));
    for _ in 0..50 {
        one.train_one_iteration(&data, tenth, whole(1)).unwrap();
        other.train_one_iteration(&mirror, tenth, whole(1)).unwrap();
        assert_eq!(one.param(0), other.param(1));
        assert_eq!(one.param(1), other.param(0));
        assert_eq!(one.param(2), other.param(2));
    }
}

#[test]
fn fixed_cost_is_never_negative_on_samples() {
    let data: TrainingDataSet<Fixed> = TrainingDataSet::xor_gate();
    for w in [-400000i64, -3, 0, 7, 65536, 9000000] {
        for b in [-70000i64, 0, 12345] {
            let c = cost(&vec![raw(w), raw(-w)], raw(b), &data);
            assert!(c.raw >= 0);
        }
    }
}

#[test]
fn fixed_gradient_refuses_a_step_size_that_is_not_positive() {
    let data: TrainingDataSet<Fixed> = TrainingDataSet::or_gate();
    for eps in [0i64, -1, -6553, i64::MIN] {
        let mut u = Unit::new(vec![raw(19660), raw(-45875)], raw(13107));
        assert_eq!(
            fdgrad::trainer::finite_difference_gradient(&mut u, raw(eps), &data),
            Err(Error::InvalidConfig)
        );
        let mut n: CompositeNetwork<Fixed> = CompositeNetwork::from_bits(&vec![1u64 << 62; 9]).unwrap();
        let before = n.clone();
        assert_eq!(n.finite_difference_gradient(raw(eps), &data), Err(Error::InvalidConfig));
        assert_eq!(n.apply_gradient(&vec![raw(1); 9], raw(eps)), Err(Error::InvalidConfig));
        assert_eq!(n, before);
    }
    let mut u = Unit::new(vec![raw(19660), raw(-45875)], raw(13107));
    assert!(fdgrad::trainer::finite_difference_gradient(&mut u, raw(1), &data).is_ok());
}
