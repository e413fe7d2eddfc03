use tonsuu_core::repo::standard_spec;
use tonsuu_core::validation::{validate_params, clamp_params, clamp_to_range, EstimationParams};

fn f(x: i64) -> f64 {
    x as f64 / 1e6
}

fn valid_params() -> EstimationParams {
    EstimationParams {
        upper_area: Some(400_000),
        height: Some(450_000),
        slope: Some(100_000),
        fill_ratio_l: Some(900_000),
        fill_ratio_w: Some(900_000),
        fill_ratio_z: Some(850_000),
        packing_density: Some(700_000),
    }
}

#[test]
fn test_valid_params_no_errors() {
    let repo = standard_spec();
    let errors = validate_params(&repo, &valid_params());
    assert!(errors.is_empty(), "Expected no errors, got: {:?}", errors);
}

#[test]
fn test_out_of_range_height() {
    let repo = standard_spec();
    let mut params = valid_params();
    params.height = Some(1_500_000); // max is 0.8
    let errors = validate_params(&repo, &params);
    assert_eq!(errors.len(), 1);
    assert_eq!(errors[0].field, "height");
}

#[test]
fn test_out_of_range_packing_density() {
    let repo = standard_spec();
    let mut params = valid_params();
    params.packing_density = Some(300_000); // min is 0.5
    let errors = validate_params(&repo, &params);
    assert_eq!(errors.len(), 1);
    assert_eq!(errors[0].field, "packingDensity");
}

#[test]
fn test_multiple_errors() {
    let repo = standard_spec();
    let mut params = valid_params();
    params.height = Some(-100_000); // below min
    params.slope = Some(500_000); // above max 0.3
    let errors = validate_params(&repo, &params);
    assert_eq!(errors.len(), 2);
}

#[test]
fn test_none_params_skip_validation() {
    let repo = standard_spec();
    let params = EstimationParams {
        upper_area: None,
        height: None,
        slope: None,
        fill_ratio_l: None,
        fill_ratio_w: None,
        fill_ratio_z: None,
        packing_density: None,
    };
    let errors = validate_params(&repo, &params);
    assert!(errors.is_empty());
}

#[test]
fn test_clamp_params() {
    let repo = standard_spec();
    let params = EstimationParams {
        upper_area: Some(100_000),      // below min 0.2
        height: Some(1_000_000),        // above max 0.8
        slope: Some(500_000),           // above max 0.3
        fill_ratio_l: Some(-100_000),   // below min 0.0
        fill_ratio_w: Some(1_500_000),  // above max 0.9
        fill_ratio_z: Some(500_000),    // below min 0.75
        packing_density: Some(300_000), // below min 0.5
    };
    let clamped = clamp_params(&repo, &params);
    assert!((f(clamped.upper_area.unwrap()) - 0.2).abs() < f64::EPSILON);
    assert!((f(clamped.height.unwrap()) - 0.8).abs() < f64::EPSILON);
    assert!((f(clamped.slope.unwrap()) - 0.3).abs() < f64::EPSILON);
    assert!((f(clamped.fill_ratio_l.unwrap()) - 0.0).abs() < f64::EPSILON);
    assert!((f(clamped.fill_ratio_w.unwrap()) - 0.9).abs() < f64::EPSILON);
    assert!((f(clamped.fill_ratio_z.unwrap()) - 0.75).abs() < f64::EPSILON);
    assert!((f(clamped.packing_density.unwrap()) - 0.5).abs() < f64::EPSILON);
}

#[test]
fn test_boundary_values_valid() {
    let repo = standard_spec();
    let params = EstimationParams {
        upper_area: Some(200_000),      // exact min
        height: Some(800_000),          // exact max
        slope: Some(0),                 // exact min
        fill_ratio_l: Some(900_000),    // exact max
        fill_ratio_w: Some(0),          // exact min
        fill_ratio_z: Some(750_000),    // exact min
        packing_density: Some(900_000), // exact max
    };
    let errors = validate_params(&repo, &params);
    assert!(errors.is_empty(), "Boundary values should be valid: {:?}", errors);
}

#[test]
fn test_clamp_to_range_basic() {
    assert_eq!(clamp_to_range(1_200_000, 0, 800_000), 800_000);
    assert_eq!(clamp_to_range(-5, 0, 800_000), 0);
    assert_eq!(clamp_to_range(400_000, 0, 800_000), 400_000);
}

#[test]
fn test_validate_after_clamp_is_clean() {
    let repo = standard_spec();
    // wildly out-of-range everywhere
    let params = EstimationParams {
        upper_area: Some(99_000_000),
        height: Some(-99_000_000),
        slope: Some(99_000_000),
        fill_ratio_l: Some(-99_000_000),
        fill_ratio_w: Some(99_000_000),
        fill_ratio_z: Some(0),
        packing_density: Some(99_000_000),
    };
    let clamped = clamp_params(&repo, &params);
    let errors = validate_params(&repo, &clamped);
    assert!(errors.is_empty(), "clamped params must validate: {:?}", errors);
}
