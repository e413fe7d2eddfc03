//! Scenario tests for the documented behavioural properties: extraction
//! idempotence and robustness, the resolver examples, ensemble
//! partial-failure tolerance, monotonicity, and clamp correctness.

use std::cell::Cell;
use tonsuu_core::calculation::{calculate_tonnage, height_from_geometry, CoreParams};
use tonsuu_core::parse::{parse_geometry, parse_fill, PlateBox};
use tonsuu_core::pipeline::{analyze_box_overlay, AiBackend, BoxOverlayConfig, PipelineError};
use tonsuu_core::repo::standard_spec;
use tonsuu_core::serial::{serialize_geometry, serialize_fill};
use tonsuu_core::stats::mode_string;

fn f(x: i64) -> f64 {
    x as f64 / 1e6
}

// ── Extraction idempotence ───────────────────────────────────────────

#[test]
fn test_extraction_idempotent_geometry() {
    let text = "Result:\n```json\n{\"plateBox\":[0.4,0.7,0.6,0.84],\"tailgateTopY\":0.3,\"tailgateBottomY\":0.5,\"cargoTopY\":0.2}\n```";
    let g1 = parse_geometry(text).unwrap();
    let round = serialize_geometry(&g1);
    let g2 = parse_geometry(&round).unwrap();
    assert_eq!(g1, g2);
}

#[test]
fn test_extraction_idempotent_fill() {
    let text = "note {\"fillRatioL\":0.82,\"fillRatioW\":0.78,\"taperRatio\":0.88,\"packingDensity\":0.75,\"materialType\":\"土砂\",\"reasoning\":\"piled {high}\"} end";
    let f1 = parse_fill(text).unwrap();
    let round = serialize_fill(&f1);
    let f2 = parse_fill(&round).unwrap();
    assert_eq!(f1.fill_ratio_l, f2.fill_ratio_l);
    assert_eq!(f1.fill_ratio_w, f2.fill_ratio_w);
    assert_eq!(f1.taper_ratio, f2.taper_ratio);
    assert_eq!(f1.packing_density, f2.packing_density);
    assert_eq!(f1.material_type, f2.material_type);
    assert_eq!(f1.reasoning, f2.reasoning);
}

// ── Extraction robustness ────────────────────────────────────────────

#[test]
fn test_extraction_prose_wrapped() {
    let text = "The analysis gives {\"tailgateTopY\":0.31,\"tailgateBottomY\":0.52,\"cargoTopY\":0.21} as requested.";
    let g = parse_geometry(text).unwrap();
    assert_eq!(g.tailgate_top_y, 310_000);
    assert_eq!(g.tailgate_bottom_y, 520_000);
}

#[test]
fn test_extraction_braces_in_string_value() {
    let text = "{\"fillRatioL\":0.8,\"reasoning\":\"a{b}c\"}";
    let fill = parse_fill(text).unwrap();
    assert_eq!(fill.reasoning.as_deref(), Some("a{b}c"));
    assert_eq!(fill.fill_ratio_l, 800_000);
}

#[test]
fn test_extraction_empty_and_no_brace_fail_descriptively() {
    let e1 = parse_geometry("").unwrap_err();
    assert!(!e1.message.is_empty());
    let e2 = parse_geometry("no braces anywhere").unwrap_err();
    assert!(!e2.message.is_empty());
    assert_eq!(e1.message, e2.message);
}

#[test]
fn test_extraction_unknown_fields_skipped() {
    let text = "{\"note\":{\"deep\":[1,2,{\"x\":true}]},\"tailgateTopY\":0.3,\"tailgateBottomY\":0.5,\"cargoTopY\":0.2,\"extra\":null}";
    let g = parse_geometry(text).unwrap();
    assert_eq!(g.tailgate_top_y, 300_000);
    assert_eq!(g.cargo_top_y, 200_000);
}

#[test]
fn test_extraction_escapes_and_exponent() {
    let text = "{\"fillRatioL\":8e-1,\"reasoning\":\"line\\none \\\"q\\\" \\u0041\"}";
    let fill = parse_fill(text).unwrap();
    assert_eq!(fill.fill_ratio_l, 800_000);
    assert_eq!(fill.reasoning.as_deref(), Some("line\none \"q\" A"));
}

// ── Geometry resolver examples ───────────────────────────────────────

#[test]
fn test_resolver_example_tailgate() {
    // resolve(tgTop=0.3, tgBot=0.5, cargoTop=0.2, plateBox=None, bedHeight=0.32)
    let repo = standard_spec();
    let (h, method) = height_from_geometry(&repo, 300_000, 500_000, 200_000, None, 320_000);
    assert_eq!(method.as_str(), "tailgate");
    assert!((f(h) - 0.48).abs() < 1e-9, "exact fixed-point height 0.48, got {}", f(h));
}

#[test]
fn test_resolver_example_plate_fallback() {
    // resolve(tgTop=0.3, tgBot=0.0, cargoTop=0.15, plateBox=[0.4,0.7,0.6,0.84], bedHeight=0.32)
    let repo = standard_spec();
    let pb = PlateBox { x0: 400_000, y0: 700_000, x1: 600_000, y1: 840_000 };
    let (h, method) = height_from_geometry(&repo, 300_000, 0, 150_000, Some(pb), 320_000);
    assert_eq!(method.as_str(), "plate");
    assert!(f(h) > 0.4 && f(h) < 0.8, "height strictly between 0.4 and 0.8, got {}", f(h));
}

// ── Monotonicity on concrete values ──────────────────────────────────

#[test]
fn test_density_monotone() {
    let repo = standard_spec();
    let mk = |material: &str| CoreParams {
        height: 400_000,
        fill_ratio_l: 800_000,
        fill_ratio_w: 850_000,
        taper_ratio: 900_000,
        packing_density: 800_000,
        material_type: material.to_string(),
    };
    let heavy = calculate_tonnage(&repo, &mk("As殻"), Some("4t")); // 2.5
    let light = calculate_tonnage(&repo, &mk("土砂"), Some("4t")); // 1.8
    assert!(heavy.tonnage > light.tonnage);
}

#[test]
fn test_height_monotone() {
    let repo = standard_spec();
    let mk = |height: i64| CoreParams {
        height,
        fill_ratio_l: 800_000,
        fill_ratio_w: 850_000,
        taper_ratio: 900_000,
        packing_density: 800_000,
        material_type: "As殻".to_string(),
    };
    let low = calculate_tonnage(&repo, &mk(300_000), Some("4t"));
    let high = calculate_tonnage(&repo, &mk(500_000), Some("4t"));
    assert!(high.volume > low.volume);
    assert!(high.tonnage > low.tonnage);
}

// ── Clamp correctness ────────────────────────────────────────────────

#[test]
fn test_effective_packing_always_in_band() {
    let repo = standard_spec();
    let lo = repo.constants.effective_packing_min;
    let hi = repo.constants.effective_packing_max;
    for packing in [0i64, 100_000, 700_000, 900_000, 10_000_000] {
        for height in [0i64, 100_000, 800_000] {
            let params = CoreParams {
                height,
                fill_ratio_l: 900_000,
                fill_ratio_w: 900_000,
                taper_ratio: 1_000_000,
                packing_density: packing,
                material_type: "As殻".to_string(),
            };
            let r = calculate_tonnage(&repo, &params, Some("10t"));
            assert!(r.effective_packing >= lo - 500 && r.effective_packing <= hi + 500,
                "effective packing {} outside [{}, {}]", r.effective_packing, lo, hi);
        }
    }
}

// ── Ensemble partial failure and termination ─────────────────────────

struct ScriptedBackend {
    geo: Vec<Result<String, ()>>,
    fill: Vec<Result<String, ()>>,
    geo_call: Cell<usize>,
    fill_call: Cell<usize>,
    fill_sends: Cell<usize>,
}

impl AiBackend for ScriptedBackend {
    fn send_prompt(&self, prompt: &str, _images: &[Vec<u8>]) -> Result<String, PipelineError> {
        if prompt.contains("tailgateTopY") {
            let idx = self.geo_call.get().min(self.geo.len() - 1);
            self.geo_call.set(self.geo_call.get() + 1);
            self.geo[idx]
                .clone()
                .map_err(|_| PipelineError::AiError("transport".to_string()))
        } else {
            self.fill_sends.set(self.fill_sends.get() + 1);
            let idx = self.fill_call.get().min(self.fill.len() - 1);
            self.fill_call.set(self.fill_call.get() + 1);
            self.fill[idx]
                .clone()
                .map_err(|_| PipelineError::AiError("transport".to_string()))
        }
    }
}

#[test]
fn test_ensemble_partial_failure_still_succeeds() {
    // Two geometry trials: one malformed, one valid. The pipeline still
    // succeeds with the valid trial's height; the malformed trial's audit
    // entry carries no parsed structure.
    let repo = standard_spec();
    let backend = ScriptedBackend {
        geo: vec![
            Ok("garbage %% not json".to_string()),
            Ok("{\"tailgateTopY\":0.3,\"tailgateBottomY\":0.5,\"cargoTopY\":0.2}".to_string()),
        ],
        fill: vec![Ok(
            "{\"fillRatioL\":0.8,\"fillRatioW\":0.85,\"taperRatio\":0.9,\"packingDensity\":0.8}"
                .to_string(),
        )],
        geo_call: Cell::new(0),
        fill_call: Cell::new(0),
        fill_sends: Cell::new(0),
    };
    let config = BoxOverlayConfig {
        truck_class: "4t".to_string(),
        material_type: "As殻".to_string(),
        ensemble_count: 2,
    };
    let result = analyze_box_overlay(&repo, &backend, &[], &config).unwrap();
    assert!(result.geometry_runs[0].parsed.is_none());
    assert_eq!(result.geometry_runs[0].scale_method.as_str(), "parse_error");
    assert!(result.geometry_runs[1].parsed.is_some());
    assert!((f(result.height_m) - 0.48).abs() < 0.01);
}

#[test]
fn test_all_geometry_failures_terminate_pipeline() {
    // Every geometry trial returns non-JSON text: the pipeline fails with
    // NoValidGeometry even though the fill round's sends still occur.
    let repo = standard_spec();
    let backend = ScriptedBackend {
        geo: vec![Ok("not json".to_string()), Ok("still not json".to_string())],
        fill: vec![Ok(
            "{\"fillRatioL\":0.8,\"fillRatioW\":0.85,\"taperRatio\":0.9,\"packingDensity\":0.8}"
                .to_string(),
        )],
        geo_call: Cell::new(0),
        fill_call: Cell::new(0),
        fill_sends: Cell::new(0),
    };
    let config = BoxOverlayConfig {
        truck_class: "4t".to_string(),
        material_type: "As殻".to_string(),
        ensemble_count: 2,
    };
    let result = analyze_box_overlay(&repo, &backend, &[], &config);
    assert!(matches!(result, Err(PipelineError::NoValidGeometry)));
    assert_eq!(backend.fill_sends.get(), 2, "fill sends still occur");
}

#[test]
fn test_transport_failures_are_logged_as_error() {
    let repo = standard_spec();
    let backend = ScriptedBackend {
        geo: vec![
            Err(()),
            Ok("{\"tailgateTopY\":0.3,\"tailgateBottomY\":0.5,\"cargoTopY\":0.2}".to_string()),
        ],
        fill: vec![Ok(
            "{\"fillRatioL\":0.8,\"fillRatioW\":0.85,\"taperRatio\":0.9,\"packingDensity\":0.8}"
                .to_string(),
        )],
        geo_call: Cell::new(0),
        fill_call: Cell::new(0),
        fill_sends: Cell::new(0),
    };
    let config = BoxOverlayConfig {
        truck_class: "4t".to_string(),
        material_type: "As殻".to_string(),
        ensemble_count: 2,
    };
    let result = analyze_box_overlay(&repo, &backend, &[], &config).unwrap();
    assert_eq!(result.geometry_runs[0].scale_method.as_str(), "error");
    assert_eq!(result.geometry_runs[0].raw_response, "");
    assert!(result.geometry_runs[1].parsed.is_some());
}

// ── Material vote and reasoning aggregation ──────────────────────────

#[test]
fn test_material_mode_first_max_wins() {
    let votes = vec![
        "土砂".to_string(),
        "As殻".to_string(),
        "土砂".to_string(),
        "As殻".to_string(),
    ];
    // tie: the first value to reach the maximal count wins
    assert_eq!(mode_string(&votes).as_deref(), Some("土砂"));
    assert_eq!(mode_string(&[]), None);
}

#[test]
fn test_material_vote_and_last_reasoning() {
    let repo = standard_spec();
    let backend = ScriptedBackend {
        geo: vec![Ok(
            "{\"tailgateTopY\":0.3,\"tailgateBottomY\":0.5,\"cargoTopY\":0.2}".to_string()
        )],
        fill: vec![
            Ok("{\"fillRatioL\":0.8,\"materialType\":\"土砂\",\"reasoning\":\"first\"}".to_string()),
            Ok("{\"fillRatioL\":0.8,\"materialType\":\"?\",\"reasoning\":\"second\"}".to_string()),
            Ok("{\"fillRatioL\":0.8,\"materialType\":\"\"}".to_string()),
        ],
        geo_call: Cell::new(0),
        fill_call: Cell::new(0),
        fill_sends: Cell::new(0),
    };
    let config = BoxOverlayConfig {
        truck_class: "4t".to_string(),
        material_type: "As殻".to_string(),
        ensemble_count: 3,
    };
    let result = analyze_box_overlay(&repo, &backend, &[], &config).unwrap();
    // "?" and "" are not votes: the only vote wins over the configured default
    assert_eq!(result.material_type, "土砂");
    // last write wins, and a trial without reasoning keeps the previous one
    assert_eq!(result.reasoning, "second");
    assert!((f(result.density) - 1.8).abs() < f64::EPSILON);
}

#[test]
fn test_no_votes_fall_back_to_configured_material() {
    let repo = standard_spec();
    let backend = ScriptedBackend {
        geo: vec![Ok(
            "{\"tailgateTopY\":0.3,\"tailgateBottomY\":0.5,\"cargoTopY\":0.2}".to_string()
        )],
        fill: vec![Ok("{\"fillRatioL\":0.8}".to_string())],
        geo_call: Cell::new(0),
        fill_call: Cell::new(0),
        fill_sends: Cell::new(0),
    };
    let config = BoxOverlayConfig {
        truck_class: "4t".to_string(),
        material_type: "As殻".to_string(),
        ensemble_count: 1,
    };
    let result = analyze_box_overlay(&repo, &backend, &[], &config).unwrap();
    assert_eq!(result.material_type, "As殻");
}

// ── Saturation of absurd numeric replies ─────────────────────────────

#[test]
fn test_huge_numbers_saturate() {
    let g = parse_geometry(
        "{\"tailgateTopY\":123456789123456789.0,\"tailgateBottomY\":-1e30,\"cargoTopY\":0.5e1}",
    )
    .unwrap();
    assert_eq!(g.tailgate_top_y, 1_000_000_000_000);
    assert_eq!(g.tailgate_bottom_y, -1_000_000_000_000);
    assert_eq!(g.cargo_top_y, 5_000_000);
}

#[test]
fn test_duplicate_known_field_rejected() {
    let r = parse_geometry("{\"tailgateTopY\":0.3,\"tailgateTopY\":0.4}");
    assert!(r.is_err());
}
