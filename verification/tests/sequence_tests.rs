use bessel::binary64::Binary64;
use bessel::family::{check_domain, FunctionFamily, Order};
use bessel::sequence::{check_ascending_positive, sequence, sequence_plan, SequenceCall};
use bessel::status::{Mode, StatusCode};

fn pattern(x: f64) -> Binary64 {
    Binary64::from_bits(x.to_bits())
}

fn patterns(xs: &[f64]) -> Vec<Binary64> {
    xs.iter().map(|x| pattern(*x)).collect()
}

#[test]
fn strictly_increasing_positive_arguments_pass() {
    assert!(check_ascending_positive(&patterns(&[0.5, 1.0, 1.5, 2.0e10])));
    assert!(check_ascending_positive(&patterns(&[5.0e-324, 1.0e-320, f64::MIN_POSITIVE, f64::MAX])));
    assert!(check_ascending_positive(&patterns(&[3.0])));
}

#[test]
fn the_empty_sequence_passes() {
    assert!(check_ascending_positive(&[]));
}

#[test]
fn a_repeated_argument_fails() {
    assert!(!check_ascending_positive(&patterns(&[0.5, 1.0, 1.0, 2.0])));
}

#[test]
fn a_step_down_fails() {
    assert!(!check_ascending_positive(&patterns(&[0.5, 1.0, 0.75, 2.0])));
    assert!(!check_ascending_positive(&patterns(&[2.0, 1.0])));
}

#[test]
fn zero_and_negative_arguments_fail() {
    assert!(!check_ascending_positive(&patterns(&[0.0, 1.0])));
    assert!(!check_ascending_positive(&patterns(&[-0.0, 1.0])));
    assert!(!check_ascending_positive(&patterns(&[-2.0, -1.0])));
    assert!(!check_ascending_positive(&patterns(&[-1.0, 1.0])));
}

#[test]
fn arguments_that_are_not_finite_fail() {
    assert!(!check_ascending_positive(&patterns(&[1.0, f64::INFINITY])));
    assert!(!check_ascending_positive(&patterns(&[1.0, f64::NAN, 3.0])));
    assert!(!check_ascending_positive(&patterns(&[f64::NAN])));
}

#[test]
fn the_plan_hands_out_the_mode_word_and_the_size_inside_the_domain() {
    let xs = patterns(&[0.1, 0.2, 0.3]);
    assert_eq!(
        sequence_plan(pattern(0.75), Mode::Double, &xs),
        Some(SequenceCall { mode_word: 0, size: 3 })
    );
    assert_eq!(
        sequence_plan(pattern(0.75), Mode::Single, &xs),
        Some(SequenceCall { mode_word: 1, size: 3 })
    );
    assert_eq!(
        sequence_plan(pattern(0.75), Mode::ApproximatePrecision, &xs[..2]),
        Some(SequenceCall { mode_word: 2, size: 2 })
    );
    assert_eq!(
        sequence_plan(pattern(0.75), Mode::Double, &[]),
        Some(SequenceCall { mode_word: 0, size: 0 })
    );
}

#[test]
fn the_plan_calls_for_no_run_outside_the_domain() {
    let good = patterns(&[0.1, 0.2, 0.3]);
    let bad = patterns(&[0.1, 0.3, 0.2]);
    assert_eq!(sequence_plan(pattern(0.75), Mode::Double, &bad), None);
    assert_eq!(sequence_plan(pattern(f64::NAN), Mode::Double, &good), None);
    assert_eq!(sequence_plan(pattern(f64::INFINITY), Mode::Double, &good), None);
}

#[test]
fn a_sequence_ends_with_the_status_of_the_kernel() {
    let xs = patterns(&[0.1, 0.2, 0.3]);
    assert_eq!(sequence(pattern(0.75), &xs, 0), StatusCode::Success);
    assert_eq!(sequence(pattern(0.75), &xs, 15), StatusCode::UnderflowError);
    assert_eq!(sequence(pattern(0.75), &xs, 17), StatusCode::PrecisionLoss);
    assert_eq!(sequence(pattern(0.75), &xs, 4), StatusCode::ArithmeticFailure);
}

#[test]
fn an_unordered_sequence_is_a_domain_error_whatever_the_kernel_says() {
    let bad = patterns(&[0.1, 0.3, 0.2]);
    for code in [0, 1, 11, 16] {
        assert_eq!(sequence(pattern(0.75), &bad, code), StatusCode::DomainError);
        assert_eq!(sequence(pattern(f64::NAN), &patterns(&[1.0]), code), StatusCode::DomainError);
    }
}

#[test]
fn each_argument_of_a_sequence_in_the_domain_is_in_the_scalar_domain() {
    let nu = pattern(2.5);
    let xs = patterns(&[1.0e-300, 0.25, 7.0, 1.0e200]);
    assert!(sequence_plan(nu, Mode::Double, &xs).is_some());
    for x in xs {
        assert!(check_domain(FunctionFamily::FractionalCylindricalRegular, Order::Fractional(nu), x));
    }
}
