use std::cell::Cell;
use tonsuu_core::pipeline::{analyze_box_overlay, AiBackend, BoxOverlayConfig, PipelineError};
use tonsuu_core::repo::standard_spec;
use tonsuu_core::stats::{median, average};

fn f(x: i64) -> f64 {
    x as f64 / 1e6
}

/// Mock AI backend that returns predefined responses
struct MockBackend {
    geometry_responses: Vec<String>,
    fill_responses: Vec<String>,
    geo_call: Cell<usize>,
    fill_call: Cell<usize>,
}

impl MockBackend {
    fn new(geo: Vec<&str>, fill: Vec<&str>) -> Self {
        Self {
            geometry_responses: geo.into_iter().map(String::from).collect(),
            fill_responses: fill.into_iter().map(String::from).collect(),
            geo_call: Cell::new(0),
            fill_call: Cell::new(0),
        }
    }
}

impl AiBackend for MockBackend {
    fn send_prompt(&self, prompt: &str, _images: &[Vec<u8>]) -> Result<String, PipelineError> {
        // Distinguish geometry vs fill by checking prompt content
        if prompt.contains("tailgateTopY") {
            let idx = self.geo_call.get();
            self.geo_call.set(idx + 1);
            if idx < self.geometry_responses.len() {
                Ok(self.geometry_responses[idx].clone())
            } else {
                // Cycle last response
                Ok(self.geometry_responses.last().unwrap().clone())
            }
        } else {
            let idx = self.fill_call.get();
            self.fill_call.set(idx + 1);
            if idx < self.fill_responses.len() {
                Ok(self.fill_responses[idx].clone())
            } else {
                Ok(self.fill_responses.last().unwrap().clone())
            }
        }
    }
}

#[test]
fn test_full_pipeline_mock() {
    let repo = standard_spec();
    let geo_json = r#"{"plateBox":[0.4,0.7,0.6,0.84],"tailgateTopY":0.3,"tailgateBottomY":0.5,"cargoTopY":0.2}"#;
    let fill_json = r#"{"fillRatioL":0.8,"fillRatioW":0.85,"taperRatio":0.9,"packingDensity":0.8,"reasoning":"Well packed"}"#;

    let backend = MockBackend::new(vec![geo_json, geo_json], vec![fill_json, fill_json]);
    let config = BoxOverlayConfig {
        truck_class: "4t".to_string(),
        material_type: "As殻".to_string(),
        ensemble_count: 2,
    };

    let result = analyze_box_overlay(&repo, &backend, &[vec![1, 2, 3]], &config).unwrap();

    assert!(f(result.height_m) > 0.0, "height should be > 0");
    assert!(f(result.tonnage) > 0.0, "tonnage should be > 0");
    assert!(f(result.volume) > 0.0, "volume should be > 0");
    assert_eq!(result.geometry_runs.len(), 2);
    assert_eq!(result.fill_runs.len(), 2);
    assert_eq!(result.reasoning, "Well packed");
    assert!((f(result.density) - 2.5).abs() < f64::EPSILON, "As殻 density = 2.5");
}

#[test]
fn test_pipeline_geometry_all_fail() {
    let repo = standard_spec();
    let backend = MockBackend::new(
        vec!["not json at all", "also bad"],
        vec![r#"{"fillRatioL":0.8,"fillRatioW":0.85,"taperRatio":0.9,"packingDensity":0.8}"#],
    );
    let config = BoxOverlayConfig {
        truck_class: "4t".to_string(),
        material_type: "As殻".to_string(),
        ensemble_count: 2,
    };

    let result = analyze_box_overlay(&repo, &backend, &[], &config);
    assert!(matches!(result, Err(PipelineError::NoValidGeometry)));
}

#[test]
fn test_pipeline_fill_all_fail() {
    let repo = standard_spec();
    let geo_json = r#"{"tailgateTopY":0.3,"tailgateBottomY":0.5,"cargoTopY":0.2}"#;
    let backend = MockBackend::new(vec![geo_json], vec!["bad fill"]);
    let config = BoxOverlayConfig {
        truck_class: "4t".to_string(),
        material_type: "As殻".to_string(),
        ensemble_count: 1,
    };

    let result = analyze_box_overlay(&repo, &backend, &[], &config);
    assert!(matches!(result, Err(PipelineError::NoValidFill)));
}

#[test]
fn test_pipeline_partial_geometry_success() {
    // First run fails, second succeeds
    let repo = standard_spec();
    let good_geo = r#"{"tailgateTopY":0.3,"tailgateBottomY":0.5,"cargoTopY":0.2}"#;
    let fill_json = r#"{"fillRatioL":0.8,"fillRatioW":0.85,"taperRatio":0.9,"packingDensity":0.8}"#;

    let backend = MockBackend::new(vec!["bad json", good_geo], vec![fill_json, fill_json]);
    let config = BoxOverlayConfig {
        truck_class: "4t".to_string(),
        material_type: "As殻".to_string(),
        ensemble_count: 2,
    };

    let result = analyze_box_overlay(&repo, &backend, &[], &config).unwrap();
    assert!(f(result.height_m) > 0.0);
    // One failed, one succeeded
    assert!(result.geometry_runs[0].parsed.is_none());
    assert!(result.geometry_runs[1].parsed.is_some());
}

#[test]
fn test_pipeline_clamps_fill_to_spec_ranges() {
    let repo = standard_spec();
    let geo_json = r#"{"tailgateTopY":0.3,"tailgateBottomY":0.5,"cargoTopY":0.2}"#;
    // AI returns out-of-range fill values
    let fill_json = r#"{"fillRatioL":0.1,"fillRatioW":0.99,"taperRatio":0.2,"packingDensity":0.99}"#;

    let backend = MockBackend::new(vec![geo_json], vec![fill_json]);
    let config = BoxOverlayConfig {
        truck_class: "4t".to_string(),
        material_type: "As殻".to_string(),
        ensemble_count: 1,
    };

    let result = analyze_box_overlay(&repo, &backend, &[], &config).unwrap();
    let r = &repo.ranges;
    assert!(result.fill_ratio_l >= r.fill_ratio_l.min);
    assert!(result.fill_ratio_w <= r.fill_ratio_w.max);
    assert!(result.taper_ratio >= r.taper_ratio.min);
}

#[test]
fn test_pipeline_result_matches_ts_calculation() {
    // Use known geometry: tailgate top=0.3, bot=0.5, cargo_top=0.2, bed_height=0.32
    // height_from_geometry: tg_height_norm=0.2, m_per_norm=1.6, h=(0.5-0.2)*1.6=0.48
    let repo = standard_spec();
    let geo_json = r#"{"tailgateTopY":0.3,"tailgateBottomY":0.5,"cargoTopY":0.2}"#;
    let fill_json = r#"{"fillRatioL":0.8,"fillRatioW":0.85,"taperRatio":0.9,"packingDensity":0.8}"#;

    let backend = MockBackend::new(vec![geo_json], vec![fill_json]);
    let config = BoxOverlayConfig {
        truck_class: "4t".to_string(),
        material_type: "As殻".to_string(),
        ensemble_count: 1,
    };

    let result = analyze_box_overlay(&repo, &backend, &[], &config).unwrap();

    // height should be 0.48
    assert!(
        (f(result.height_m) - 0.48).abs() < 0.01,
        "height={}, expected ~0.48",
        f(result.height_m)
    );

    // Manual: bedL=3.4, bedW=2.06
    // effectiveL = 0.8 * 0.9 = 0.72
    // effectiveW = (0.9 + 0.85) / 2 = 0.875
    // volume = 3.4 * 2.06 * 0.48 * 0.72 * 0.875 = ~2.117
    assert!(f(result.volume) > 2.0 && f(result.volume) < 2.3, "volume={}", f(result.volume));
    // tonnage should be in a reasonable range
    assert!(f(result.tonnage) > 3.0 && f(result.tonnage) < 5.0, "tonnage={}", f(result.tonnage));
}

#[test]
fn test_median_odd() {
    assert!((f(median(&[3_000_000, 1_000_000, 2_000_000])) - 2.0).abs() < f64::EPSILON);
}

#[test]
fn test_median_even() {
    // The median takes sorted[len/2], so for [1,2,3,4] -> sorted[2] = 3
    assert!((f(median(&[4_000_000, 1_000_000, 3_000_000, 2_000_000])) - 3.0).abs() < f64::EPSILON);
}

#[test]
fn test_average() {
    assert!((f(average(&[1_000_000, 2_000_000, 3_000_000])) - 2.0).abs() < f64::EPSILON);
}

#[test]
fn test_pipeline_invalid_tailgate_top_skipped() {
    // tailgateTopY = 0 should be skipped (invalid)
    let repo = standard_spec();
    let bad_geo = r#"{"tailgateTopY":0.0,"tailgateBottomY":0.5,"cargoTopY":0.2}"#;
    let good_geo = r#"{"tailgateTopY":0.3,"tailgateBottomY":0.5,"cargoTopY":0.2}"#;
    let fill_json = r#"{"fillRatioL":0.8,"fillRatioW":0.85,"taperRatio":0.9,"packingDensity":0.8}"#;

    let backend = MockBackend::new(vec![bad_geo, good_geo], vec![fill_json, fill_json]);
    let config = BoxOverlayConfig {
        truck_class: "4t".to_string(),
        material_type: "As殻".to_string(),
        ensemble_count: 2,
    };

    let result = analyze_box_overlay(&repo, &backend, &[], &config).unwrap();
    assert!(f(result.height_m) > 0.0);
    assert_eq!(result.geometry_runs[0].scale_method.as_str(), "none");
    assert_ne!(result.geometry_runs[1].scale_method.as_str(), "none");
}
