use tonsuu_core::calculation::{calculate_tonnage, CoreParams};
use tonsuu_core::parse::{parse_geometry, parse_fill};
use tonsuu_core::pipeline::{analyze_box_overlay, AiBackend, BoxOverlayConfig, PipelineError};
use tonsuu_core::repo::standard_spec;

fn f(x: i64) -> f64 {
    x as f64 / 1e6
}

/// Verify the geometry and fill prompts are non-empty and carry the keys
/// the responses are expected to use.
#[test]
fn test_prompts_from_spec() {
    let spec = standard_spec();
    let geo_prompt = &spec.geometry_prompt;
    let fill_prompt = &spec.fill_prompt;

    assert!(!geo_prompt.is_empty(), "geometry_prompt must not be empty");
    assert!(!fill_prompt.is_empty(), "fill_prompt must not be empty");

    // Geometry prompt should mention key terms
    assert!(geo_prompt.contains("tailgateTopY"), "geometry_prompt missing tailgateTopY");
    assert!(geo_prompt.contains("cargoTopY"), "geometry_prompt missing cargoTopY");
    assert!(geo_prompt.contains("plateBox"), "geometry_prompt missing plateBox");

    // Fill prompt should mention key terms
    assert!(fill_prompt.contains("fillRatioL"), "fill_prompt missing fillRatioL");
    assert!(fill_prompt.contains("taperRatio"), "fill_prompt missing taperRatio");
    assert!(fill_prompt.contains("packingDensity"), "fill_prompt missing packingDensity");
}

/// Verify both front-ends produce identical calculation results for the
/// same input.
#[test]
fn test_calculation_consistency() {
    let repo = standard_spec();
    // Fixed input matching a typical box-overlay analysis
    let params = CoreParams {
        height: 400_000,
        fill_ratio_l: 800_000,
        fill_ratio_w: 850_000,
        taper_ratio: 900_000,
        packing_density: 800_000,
        material_type: "As殻".to_string(),
    };

    let result = calculate_tonnage(&repo, &params, Some("4t"));

    assert!(f(result.volume) > 0.0);
    assert!(f(result.tonnage) > 0.0);

    // Verify determinism: same input -> same output
    let result2 = calculate_tonnage(&repo, &params, Some("4t"));
    assert!((f(result.volume) - f(result2.volume)).abs() < f64::EPSILON);
    assert!((f(result.tonnage) - f(result2.tonnage)).abs() < f64::EPSILON);
}

/// Verify full pipeline with a fixed backend produces consistent results.
#[test]
fn test_pipeline_end_to_end_consistency() {
    struct FixedBackend;

    impl AiBackend for FixedBackend {
        fn send_prompt(&self, prompt: &str, _images: &[Vec<u8>]) -> Result<String, PipelineError> {
            if prompt.contains("tailgateTopY") {
                Ok(r#"{"plateBox":[0.4,0.7,0.6,0.84],"tailgateTopY":0.3,"tailgateBottomY":0.5,"cargoTopY":0.2}"#.to_string())
            } else {
                Ok(r#"{"fillRatioL":0.8,"fillRatioW":0.85,"taperRatio":0.9,"packingDensity":0.8,"reasoning":"Integration test"}"#.to_string())
            }
        }
    }

    let repo = standard_spec();
    let config = BoxOverlayConfig {
        truck_class: "4t".to_string(),
        material_type: "As殻".to_string(),
        ensemble_count: 1,
    };

    let r1 = analyze_box_overlay(&repo, &FixedBackend, &[], &config).unwrap();
    let r2 = analyze_box_overlay(&repo, &FixedBackend, &[], &config).unwrap();

    // Determinism: same fixed input -> same output
    assert!((f(r1.height_m) - f(r2.height_m)).abs() < f64::EPSILON, "height_m mismatch");
    assert!((f(r1.volume) - f(r2.volume)).abs() < f64::EPSILON, "volume mismatch");
    assert!((f(r1.tonnage) - f(r2.tonnage)).abs() < f64::EPSILON, "tonnage mismatch");
    assert!((f(r1.fill_ratio_l) - f(r2.fill_ratio_l)).abs() < f64::EPSILON, "fill_ratio_l mismatch");
    assert!((f(r1.fill_ratio_w) - f(r2.fill_ratio_w)).abs() < f64::EPSILON, "fill_ratio_w mismatch");
    assert!((f(r1.taper_ratio) - f(r2.taper_ratio)).abs() < f64::EPSILON, "taper_ratio mismatch");

    // Sanity checks on actual values
    assert!((f(r1.height_m) - 0.48).abs() < 0.01, "height ~0.48m expected, got {}", f(r1.height_m));
    assert!(f(r1.tonnage) > 3.0 && f(r1.tonnage) < 5.0, "tonnage in 3-5t range, got {}", f(r1.tonnage));
    assert!((f(r1.density) - 2.5).abs() < f64::EPSILON, "As殻 density 2.5, got {}", f(r1.density));
}

/// Verify parse functions produce consistent results for the same input.
#[test]
fn test_parse_consistency() {
    let geo_json = r#"{"plateBox":[0.4,0.7,0.6,0.84],"tailgateTopY":0.3,"tailgateBottomY":0.5,"cargoTopY":0.2}"#;
    let fill_json = r#"{"fillRatioL":0.8,"fillRatioW":0.85,"taperRatio":0.9,"packingDensity":0.8,"reasoning":"Test"}"#;

    let geo1 = parse_geometry(geo_json).unwrap();
    let geo2 = parse_geometry(geo_json).unwrap();
    assert!((f(geo1.tailgate_top_y) - f(geo2.tailgate_top_y)).abs() < f64::EPSILON);
    assert!((f(geo1.cargo_top_y) - f(geo2.cargo_top_y)).abs() < f64::EPSILON);

    let fill1 = parse_fill(fill_json).unwrap();
    let fill2 = parse_fill(fill_json).unwrap();
    assert!((f(fill1.fill_ratio_l) - f(fill2.fill_ratio_l)).abs() < f64::EPSILON);
    assert!((f(fill1.taper_ratio) - f(fill2.taper_ratio)).abs() < f64::EPSILON);
}
