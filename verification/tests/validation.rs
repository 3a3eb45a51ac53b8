use imageforge_lib::errors::AppError;
use imageforge_lib::models::OutputMode;
use imageforge_lib::validation::{calculate_savings, verify_dimensions};

fn percent(micros: u64) -> f64 {
    micros as f64 / 1_000_000.0
}

#[test]
fn test_dimension_verification_success() {
    assert!(verify_dimensions(1920, 1080, 1920, 1080).is_ok());
}

#[test]
fn test_dimension_verification_failure() {
    let res = verify_dimensions(1920, 1080, 1280, 720);
    assert!(res.is_err());
    match res.unwrap_err() {
        AppError::DimensionMismatch {
            expected_w,
            expected_h,
            actual_w,
            actual_h,
        } => {
            assert_eq!(expected_w, 1920);
            assert_eq!(expected_h, 1080);
            assert_eq!(actual_w, 1280);
            assert_eq!(actual_h, 720);
        }
        _ => panic!("Expected DimensionMismatch error"),
    }
}

#[test]
fn test_savings_calculation() {
    let (saved, pct, keep) = calculate_savings(1000, 400, OutputMode::SameFormat);
    assert_eq!(saved, 600);
    assert!((percent(pct) - 60.0).abs() < 0.001);
    assert!(keep);

    let (saved, pct, keep) = calculate_savings(1000, 1200, OutputMode::SameFormat);
    assert_eq!(saved, 0);
    assert_eq!(percent(pct), 0.0);
    assert!(!keep);

    // Conversion allows size increase
    let (_, _, keep) = calculate_savings(1000, 1200, OutputMode::ConvertToJpg);
    assert!(keep);
}

#[test]
fn dimension_mismatch_in_height_only_is_reported() {
    match verify_dimensions(10, 20, 10, 21) {
        Err(AppError::DimensionMismatch { expected_w, expected_h, actual_w, actual_h }) => {
            assert_eq!((expected_w, expected_h, actual_w, actual_h), (10, 20, 10, 21));
        }
        _ => panic!("expected a mismatch"),
    }
}

#[test]
fn equal_sizes_save_nothing_and_are_discarded_in_same_format() {
    assert_eq!(calculate_savings(500, 500, OutputMode::SameFormat), (0, 0, false));
    assert_eq!(calculate_savings(500, 500, OutputMode::ConvertToJpg), (0, 0, true));
}

#[test]
fn saved_share_is_rounded_down_in_millionths_of_a_percent() {
    // 1 of 3 bytes saved: 33.333333...%
    let (saved, micros, keep) = calculate_savings(3, 2, OutputMode::SameFormat);
    assert_eq!(saved, 1);
    assert_eq!(micros, 33_333_333);
    assert!(keep);
    // everything saved
    assert_eq!(calculate_savings(7, 0, OutputMode::ConvertToJpg), (7, 100_000_000, true));
    // huge inputs do not overflow
    let (saved, micros, _) = calculate_savings(u64::MAX, u64::MAX / 2, OutputMode::SameFormat);
    assert_eq!(saved, u64::MAX - u64::MAX / 2);
    assert_eq!(micros, 50_000_000);
}

#[test]
fn empty_input_saves_nothing() {
    assert_eq!(calculate_savings(0, 0, OutputMode::SameFormat), (0, 0, false));
}
