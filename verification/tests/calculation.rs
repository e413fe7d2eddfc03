use tonsuu_core::calculation::{calculate_tonnage, height_from_geometry, CoreParams};
use tonsuu_core::repo::standard_spec;

fn f(x: i64) -> f64 {
    x as f64 / 1e6
}

fn default_params() -> CoreParams {
    CoreParams {
        height: 400_000,
        fill_ratio_l: 800_000,
        fill_ratio_w: 850_000,
        taper_ratio: 850_000,
        packing_density: 800_000,
        material_type: "As殻".to_string(),
    }
}

#[test]
fn test_calculate_basic() {
    let repo = standard_spec();
    let result = calculate_tonnage(&repo, &default_params(), Some("4t"));
    assert!(f(result.volume) > 0.0);
    assert!(f(result.tonnage) > 0.0);
    assert!(f(result.effective_packing) > 0.0);
}

#[test]
fn test_zero_height_gives_zero() {
    let repo = standard_spec();
    let mut params = default_params();
    params.height = 0;
    let result = calculate_tonnage(&repo, &params, Some("4t"));
    assert!(f(result.volume).abs() < f64::EPSILON);
    assert!(f(result.tonnage).abs() < f64::EPSILON);
}

#[test]
fn test_material_density_affects_tonnage() {
    let repo = standard_spec();
    let mut params_as = default_params();
    params_as.material_type = "As殻".to_string(); // density 2.5

    let mut params_soil = default_params();
    params_soil.material_type = "土砂".to_string(); // density 1.8

    let result_as = calculate_tonnage(&repo, &params_as, Some("4t"));
    let result_soil = calculate_tonnage(&repo, &params_soil, Some("4t"));

    assert!(result_as.tonnage > result_soil.tonnage);
    // Same volume
    assert!((f(result_as.volume) - f(result_soil.volume)).abs() < 0.001);
}

#[test]
fn test_formula_matches_ts() {
    // Match the box-overlay formula exactly
    let repo = standard_spec();
    let params = CoreParams {
        height: 400_000,
        fill_ratio_l: 800_000,
        fill_ratio_w: 850_000,
        taper_ratio: 900_000,
        packing_density: 800_000,
        material_type: "As殻".to_string(),
    };
    let result = calculate_tonnage(&repo, &params, Some("4t"));

    // Manual calculation:
    // bedL=3.4, bedW=2.06
    // effectiveL = 0.8 * 0.9 = 0.72
    // effectiveW = (0.9 + 0.85) / 2 = 0.875
    // volume = 3.4 * 2.06 * 0.40 * 0.72 * 0.875 = 1.765...
    // compressionFactor = 1.0 + 0.15 * (1.765 - 2.0) = 0.9648
    // effectivePacking = clamp(0.80 * 0.9648, 0.7, 0.95) = 0.7718
    // tonnage = 1.765 * 2.5 * 0.772 = 3.40...
    assert!((f(result.volume) - 1.764).abs() < 0.01);
    assert!(f(result.tonnage) > 3.0 && f(result.tonnage) < 4.0);
}

#[test]
fn test_compression_clamp() {
    // Very large volume should cap effective_packing at 0.95
    let repo = standard_spec();
    let params = CoreParams {
        height: 700_000,
        fill_ratio_l: 900_000,
        fill_ratio_w: 900_000,
        taper_ratio: 1_000_000,
        packing_density: 900_000,
        material_type: "As殻".to_string(),
    };
    let result = calculate_tonnage(&repo, &params, Some("10t"));
    assert!(f(result.effective_packing) <= 0.95);
}

#[test]
fn test_height_from_geometry_tailgate() {
    // tailgate top=0.3, bot=0.5, cargo_top=0.2, bed_height=0.32
    // tg_height_norm = 0.2, m_per_norm = 0.32/0.2 = 1.6
    // cargo_h = (0.5 - 0.2) * 1.6 = 0.48
    let repo = standard_spec();
    let (h, method) = height_from_geometry(&repo, 300_000, 500_000, 200_000, None, 320_000);
    assert_eq!(method.as_str(), "tailgate");
    assert!((f(h) - 0.48).abs() < 0.01);
}

#[test]
fn test_height_from_geometry_plate_fallback() {
    // tg_bot invalid (0), plate_box = [0.4, 0.7, 0.6, 0.84]
    // plate_h_norm = 0.84 - 0.7 = 0.14, m_per_norm = 0.22 / 0.14 = 1.571
    // cargo_h = 0.32 + (0.3 - 0.15) * 1.571 = 0.32 + 0.236 = 0.556
    let repo = standard_spec();
    let pb = tonsuu_core::parse::PlateBox { x0: 400_000, y0: 700_000, x1: 600_000, y1: 840_000 };
    let (h, method) = height_from_geometry(&repo, 300_000, 0, 150_000, Some(pb), 320_000);
    assert_eq!(method.as_str(), "plate");
    assert!(f(h) > 0.4 && f(h) < 0.8);
}

#[test]
fn test_height_from_geometry_no_reference() {
    let repo = standard_spec();
    let (h, method) = height_from_geometry(&repo, 300_000, 0, 200_000, None, 320_000);
    assert_eq!(method.as_str(), "none");
    assert!(f(h).abs() < f64::EPSILON);
}

#[test]
fn test_height_clamped_to_08() {
    // Very high cargo should clamp to 0.8
    let repo = standard_spec();
    let (h, _) = height_from_geometry(&repo, 500_000, 900_000, 0, None, 500_000);
    assert!(f(h) <= 0.8);
}
