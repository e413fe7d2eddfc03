use tonsuu_core::repo::{
    standard_spec, get_material_density, get_truck_bed_area, default_bed_area, back_panel_height,
    hinge_height,
};

fn f(x: i64) -> f64 {
    x as f64 / 1e6
}

#[test]
fn test_spec_parses() {
    let spec = standard_spec();
    assert_eq!(spec.version, "2.1.0");
    assert!(!spec.materials.is_empty());
    assert!(!spec.truck_specs.is_empty());
}

#[test]
fn test_material_density() {
    let spec = standard_spec();
    assert!((f(get_material_density(&spec, "As殻")) - 2.5).abs() < f64::EPSILON);
    assert!((f(get_material_density(&spec, "土砂")) - 1.8).abs() < f64::EPSILON);
    // Unknown defaults to As殻
    assert!((f(get_material_density(&spec, "unknown")) - 2.5).abs() < f64::EPSILON);
}

#[test]
fn test_truck_bed_area() {
    let spec = standard_spec();
    let area_4t = get_truck_bed_area(&spec, "4t");
    assert!((f(area_4t) - 3.4 * 2.06).abs() < 0.01);
    // Unknown defaults to 4t bed area
    let default = default_bed_area(&spec);
    assert!((f(get_truck_bed_area(&spec, "unknown")) - f(default)).abs() < f64::EPSILON);
}

#[test]
fn test_calibration_values() {
    let spec = standard_spec();
    assert!((f(back_panel_height(&spec)) - 0.30).abs() < f64::EPSILON);
    assert!((f(hinge_height(&spec)) - 0.60).abs() < f64::EPSILON);
}

#[test]
fn test_ranges() {
    let spec = standard_spec();
    let r = &spec.ranges;
    assert!(r.height.max > r.height.min);
    assert!((f(r.height.step) - 0.05).abs() < f64::EPSILON);
    assert!((f(r.height.max) - 0.8).abs() < f64::EPSILON);
    assert!(f(r.packing_density.min) >= 0.0);
    assert!(f(r.packing_density.max) <= 1.0);
    // New: taperRatio
    assert!((f(r.taper_ratio.min) - 0.5).abs() < f64::EPSILON);
    assert!((f(r.taper_ratio.max) - 1.0).abs() < f64::EPSILON);
}

#[test]
fn test_constants() {
    let spec = standard_spec();
    let c = &spec.constants;
    assert!((f(c.plate_height_m) - 0.22).abs() < f64::EPSILON);
    assert!((f(c.bottom_fill) - 0.9).abs() < f64::EPSILON);
    assert!((f(c.compression_ref_volume) - 2.0).abs() < f64::EPSILON);
}
