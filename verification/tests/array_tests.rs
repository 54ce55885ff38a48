use bessel::array::{
    array, array_plan, check_range, scaled_array, scaled_array_plan, steed_array, steed_array_plan,
    ContractViolation,
};
use bessel::binary64::Binary64;
use bessel::family::{check_domain, FunctionFamily, Order};
use bessel::routine::{ArrayRoutine, ScalarRoutine};
use bessel::status::StatusCode;

fn pattern(x: f64) -> Binary64 {
    Binary64::from_bits(x.to_bits())
}

#[test]
fn a_fitting_range_violates_nothing() {
    assert_eq!(check_range(0, 0, 1), None);
    assert_eq!(check_range(0, 9, 10), None);
    assert_eq!(check_range(3, 7, 5), None);
    assert_eq!(check_range(i32::MAX, i32::MAX, 1), None);
}

#[test]
fn a_negative_start_is_a_violation() {
    assert_eq!(check_range(-1, 3, 5), Some(ContractViolation::NegativeStart));
    assert_eq!(check_range(i32::MIN, i32::MAX, 0), Some(ContractViolation::NegativeStart));
}

#[test]
fn a_reversed_range_is_a_violation() {
    assert_eq!(check_range(4, 3, 0), Some(ContractViolation::ReversedRange));
    assert_eq!(check_range(1, 0, 0), Some(ContractViolation::ReversedRange));
    assert_eq!(check_range(0, -1, 0), Some(ContractViolation::ReversedRange));
}

#[test]
fn a_length_that_differs_from_the_number_of_orders_is_a_violation() {
    assert_eq!(check_range(0, 9, 9), Some(ContractViolation::LengthMismatch));
    assert_eq!(check_range(0, 9, 11), Some(ContractViolation::LengthMismatch));
    assert_eq!(check_range(5, 5, 0), Some(ContractViolation::LengthMismatch));
    assert_eq!(check_range(0, i32::MAX, 0), Some(ContractViolation::LengthMismatch));
    assert_eq!(check_range(0, i32::MAX, usize::MAX), Some(ContractViolation::LengthMismatch));
}

#[test]
fn the_first_violation_is_named() {
    assert_eq!(check_range(-2, -5, 77), Some(ContractViolation::NegativeStart));
    assert_eq!(check_range(2, 1, 77), Some(ContractViolation::ReversedRange));
}

#[test]
fn the_full_range_of_orders_is_counted_without_overflow() {
    let whole: u64 = 1 << 31;
    if let Ok(len) = usize::try_from(whole) {
        assert_eq!(check_range(0, i32::MAX, len), None);
        assert_eq!(check_range(0, i32::MAX, len - 1), Some(ContractViolation::LengthMismatch));
    }
}

#[test]
fn cylindrical_families_get_their_array_routines() {
    let x = pattern(1.5);
    assert_eq!(
        array_plan(FunctionFamily::IntegerCylindricalRegular, 0, 4, x, 5),
        Ok(Some(ArrayRoutine::BesselJnArray))
    );
    assert_eq!(
        array_plan(FunctionFamily::IntegerCylindricalModified, 2, 4, x, 3),
        Ok(Some(ArrayRoutine::BesselInArray))
    );
    assert_eq!(
        array_plan(FunctionFamily::ScaledCylindricalModified, 7, 7, x, 1),
        Ok(Some(ArrayRoutine::BesselInScaledArray))
    );
}

#[test]
fn other_families_have_no_cylindrical_array() {
    let x = pattern(1.5);
    for family in [
        FunctionFamily::FractionalCylindricalRegular,
        FunctionFamily::FractionalModifiedRegular,
        FunctionFamily::SphericalRegular,
        FunctionFamily::ScaledSphericalModified,
    ] {
        assert_eq!(array_plan(family, 0, 4, x, 5), Ok(None));
        assert_eq!(array(family, 0, 4, x, 5, 0), Ok(StatusCode::DomainError));
    }
}

#[test]
fn an_array_at_an_argument_that_is_not_finite_is_a_domain_error() {
    for x in [f64::NAN, f64::INFINITY, f64::NEG_INFINITY] {
        let family = FunctionFamily::IntegerCylindricalRegular;
        assert_eq!(array_plan(family, 0, 4, pattern(x), 5), Ok(None));
        assert_eq!(array(family, 0, 4, pattern(x), 5, 0), Ok(StatusCode::DomainError));
    }
}

#[test]
fn an_array_ends_with_the_status_of_the_kernel() {
    let family = FunctionFamily::IntegerCylindricalModified;
    let x = pattern(-2.0);
    assert_eq!(array(family, 0, 4, x, 5, 0), Ok(StatusCode::Success));
    assert_eq!(array(family, 0, 4, x, 5, 15), Ok(StatusCode::UnderflowError));
    assert_eq!(array(family, 0, 4, x, 5, 16), Ok(StatusCode::OverflowError));
    assert_eq!(array(family, 0, 4, x, 5, 17), Ok(StatusCode::PrecisionLoss));
    assert_eq!(array(family, 0, 4, x, 5, 1), Ok(StatusCode::DomainError));
    assert_eq!(array(family, 0, 4, x, 5, 11), Ok(StatusCode::ArithmeticFailure));
}

#[test]
fn a_buffer_that_does_not_fit_is_a_violation_before_anything_else() {
    let bad = pattern(f64::NAN);
    for family in [FunctionFamily::IntegerCylindricalRegular, FunctionFamily::SphericalRegular] {
        for code in [0, 1, 16] {
            assert_eq!(array_plan(family, 0, 4, bad, 4), Err(ContractViolation::LengthMismatch));
            assert_eq!(array(family, 0, 4, bad, 4, code), Err(ContractViolation::LengthMismatch));
            assert_eq!(array(family, 0, 4, bad, 6, code), Err(ContractViolation::LengthMismatch));
            assert_eq!(array(family, -1, 4, bad, 6, code), Err(ContractViolation::NegativeStart));
            assert_eq!(array(family, 5, 4, bad, 0, code), Err(ContractViolation::ReversedRange));
        }
    }
}

#[test]
fn spherical_families_get_their_array_routines() {
    assert_eq!(
        scaled_array_plan(FunctionFamily::SphericalRegular, 4, pattern(0.0), 5),
        Ok(Some(ArrayRoutine::SphericalJlArray))
    );
    assert_eq!(
        scaled_array_plan(FunctionFamily::ScaledSphericalModified, 0, pattern(-3.0), 1),
        Ok(Some(ArrayRoutine::SphericalIlScaledArray))
    );
    assert_eq!(
        steed_array_plan(4, pattern(2.5), 5),
        Ok(Some(ArrayRoutine::SphericalJlSteedArray))
    );
}

#[test]
fn other_families_have_no_spherical_array() {
    for family in [
        FunctionFamily::IntegerCylindricalRegular,
        FunctionFamily::IntegerCylindricalModified,
        FunctionFamily::FractionalCylindricalRegular,
        FunctionFamily::FractionalModifiedRegular,
        FunctionFamily::ScaledCylindricalModified,
    ] {
        assert_eq!(scaled_array_plan(family, 4, pattern(1.0), 5), Ok(None));
        assert_eq!(scaled_array(family, 4, pattern(1.0), 5, 0), Ok(StatusCode::DomainError));
    }
}

#[test]
fn regular_spherical_arrays_need_an_argument_of_zero_or_more() {
    let family = FunctionFamily::SphericalRegular;
    assert_eq!(scaled_array_plan(family, 4, pattern(-1.0), 5), Ok(None));
    assert_eq!(scaled_array(family, 4, pattern(-1.0), 5, 0), Ok(StatusCode::DomainError));
    assert_eq!(steed_array_plan(4, pattern(-1.0), 5), Ok(None));
    assert_eq!(steed_array(4, pattern(-1.0), 5, 0), Ok(StatusCode::DomainError));
    assert_eq!(scaled_array(family, 4, pattern(-0.0), 5, 0), Ok(StatusCode::Success));
    assert_eq!(steed_array(4, pattern(0.0), 5, 0), Ok(StatusCode::Success));
    assert_eq!(
        scaled_array(FunctionFamily::ScaledSphericalModified, 4, pattern(-1.0), 5, 0),
        Ok(StatusCode::Success)
    );
}

#[test]
fn a_negative_highest_order_is_a_reversed_range() {
    let family = FunctionFamily::SphericalRegular;
    assert_eq!(scaled_array_plan(family, -1, pattern(1.0), 0), Err(ContractViolation::ReversedRange));
    assert_eq!(scaled_array(family, -1, pattern(1.0), 0, 0), Err(ContractViolation::ReversedRange));
    assert_eq!(steed_array_plan(-1, pattern(1.0), 0), Err(ContractViolation::ReversedRange));
    assert_eq!(steed_array(-1, pattern(1.0), 0, 0), Err(ContractViolation::ReversedRange));
}

#[test]
fn a_spherical_buffer_needs_one_slot_more_than_the_highest_order() {
    let family = FunctionFamily::ScaledSphericalModified;
    assert_eq!(scaled_array(family, 4, pattern(1.0), 4, 0), Err(ContractViolation::LengthMismatch));
    assert_eq!(scaled_array(family, 4, pattern(1.0), 5, 0), Ok(StatusCode::Success));
    assert_eq!(scaled_array(family, 4, pattern(1.0), 6, 0), Err(ContractViolation::LengthMismatch));
    assert_eq!(steed_array(4, pattern(1.0), 4, 0), Err(ContractViolation::LengthMismatch));
    assert_eq!(steed_array(4, pattern(1.0), 5, 16), Ok(StatusCode::OverflowError));
    assert_eq!(
        scaled_array_plan(family, 4, pattern(f64::NAN), 4),
        Err(ContractViolation::LengthMismatch)
    );
    assert_eq!(steed_array_plan(4, pattern(f64::NAN), 6), Err(ContractViolation::LengthMismatch));
}

#[test]
fn a_range_of_one_order_is_planned_only_where_the_single_request_is_in_the_domain() {
    let families = [
        FunctionFamily::IntegerCylindricalRegular,
        FunctionFamily::IntegerCylindricalModified,
        FunctionFamily::FractionalCylindricalRegular,
        FunctionFamily::FractionalModifiedRegular,
        FunctionFamily::SphericalRegular,
        FunctionFamily::ScaledSphericalModified,
        FunctionFamily::ScaledCylindricalModified,
    ];
    for family in families {
        for n in [0, 1, 2, 9] {
            for x in [-1.0, 0.0, 2.0, f64::NAN] {
                let single = check_domain(family, Order::Integer(n), pattern(x));
                let planned = array_plan(family, n, n, pattern(x), 1).expect("fits");
                assert_eq!(planned.is_some(), family.is_cylindrical_integer() && single);
                if n == 0 {
                    let planned = scaled_array_plan(family, 0, pattern(x), 1).expect("fits");
                    if planned.is_some() {
                        assert!(family.is_spherical() && single);
                    }
                }
            }
        }
    }
}

#[test]
fn a_spherical_range_has_the_domain_of_the_general_routine() {
    for n in [0, 1, 2, 9] {
        for x in [-1.0, -0.0, 0.0, 2.0, f64::NAN, f64::INFINITY] {
            let regular =
                scaled_array_plan(FunctionFamily::SphericalRegular, n, pattern(x), (n + 1) as usize);
            let general = ScalarRoutine::SphericalJl.check_admits(Order::Integer(n), pattern(x));
            assert_eq!(regular.expect("fits").is_some(), general);
            let steed = steed_array_plan(n, pattern(x), (n + 1) as usize);
            assert_eq!(steed.expect("fits").is_some(), general);
            let scaled = scaled_array_plan(
                FunctionFamily::ScaledSphericalModified,
                n,
                pattern(x),
                (n + 1) as usize,
            );
            let general =
                ScalarRoutine::SphericalIlScaled.check_admits(Order::Integer(n), pattern(x));
            assert_eq!(scaled.expect("fits").is_some(), general);
        }
    }
    // The closed form of order zero takes a negative argument; the range does not.
    assert!(check_domain(FunctionFamily::SphericalRegular, Order::Integer(0), pattern(-1.0)));
    assert_eq!(scaled_array_plan(FunctionFamily::SphericalRegular, 0, pattern(-1.0), 1), Ok(None));
}
