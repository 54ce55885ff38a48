use bessel::status::{Mode, StatusCode};

#[test]
fn kernel_codes_classify() {
    assert_eq!(StatusCode::from_native(0), StatusCode::Success);
    assert_eq!(StatusCode::from_native(1), StatusCode::DomainError);
    assert_eq!(StatusCode::from_native(16), StatusCode::OverflowError);
    assert_eq!(StatusCode::from_native(15), StatusCode::UnderflowError);
    assert_eq!(StatusCode::from_native(17), StatusCode::PrecisionLoss);
    assert_eq!(StatusCode::from_native(11), StatusCode::ArithmeticFailure);
}

#[test]
fn unknown_kernel_codes_are_failures() {
    for code in [-2, -1, 2, 3, 4, 5, 12, 14, 18, 19, 32, 1000, i32::MAX, i32::MIN] {
        assert_eq!(StatusCode::from_native(code), StatusCode::ArithmeticFailure, "code {code}");
    }
}

#[test]
fn every_status_survives_its_kernel_code() {
    for status in [
        StatusCode::Success,
        StatusCode::DomainError,
        StatusCode::OverflowError,
        StatusCode::UnderflowError,
        StatusCode::PrecisionLoss,
        StatusCode::ArithmeticFailure,
    ] {
        assert_eq!(StatusCode::from_native(status.to_native()), status);
    }
}

#[test]
fn kernel_codes_of_the_statuses() {
    assert_eq!(StatusCode::Success.to_native(), 0);
    assert_eq!(StatusCode::DomainError.to_native(), 1);
    assert_eq!(StatusCode::ArithmeticFailure.to_native(), 11);
    assert_eq!(StatusCode::UnderflowError.to_native(), 15);
    assert_eq!(StatusCode::OverflowError.to_native(), 16);
    assert_eq!(StatusCode::PrecisionLoss.to_native(), 17);
}

#[test]
fn only_success_is_success() {
    assert!(StatusCode::Success.is_success());
    assert!(!StatusCode::DomainError.is_success());
    assert!(!StatusCode::OverflowError.is_success());
    assert!(!StatusCode::UnderflowError.is_success());
    assert!(!StatusCode::PrecisionLoss.is_success());
    assert!(!StatusCode::ArithmeticFailure.is_success());
    for code in -5..40 {
        assert_eq!(StatusCode::from_native(code).is_success(), code == 0);
    }
}

#[test]
fn mode_words() {
    assert_eq!(Mode::Double.to_word(), 0);
    assert_eq!(Mode::Single.to_word(), 1);
    assert_eq!(Mode::ApproximatePrecision.to_word(), 2);
}

#[test]
fn mode_words_round_trip() {
    for mode in [Mode::Double, Mode::Single, Mode::ApproximatePrecision] {
        assert_eq!(Mode::from_word(mode.to_word()), Some(mode));
    }
    assert_eq!(Mode::from_word(3), None);
    assert_eq!(Mode::from_word(u32::MAX), None);
}
