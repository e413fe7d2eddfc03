use tonsuu_core::parse::{parse_geometry, parse_fill, parse_json_safe, FillResponse};

fn f(x: i64) -> f64 {
    x as f64 / 1e6
}

#[test]
fn test_parse_geometry_clean_json() {
    let json = r#"{"plateBox":[0.4,0.7,0.6,0.84],"tailgateTopY":0.3,"tailgateBottomY":0.5,"cargoTopY":0.2}"#;
    let geo = parse_geometry(json).unwrap();
    assert!((f(geo.tailgate_top_y) - 0.3).abs() < f64::EPSILON);
    assert!((f(geo.tailgate_bottom_y) - 0.5).abs() < f64::EPSILON);
    assert!((f(geo.cargo_top_y) - 0.2).abs() < f64::EPSILON);
    let pb = geo.plate_box.unwrap();
    assert!((f(pb.x0) - 0.4).abs() < f64::EPSILON);
}

#[test]
fn test_parse_geometry_with_extra_text() {
    let text = r#"Here is the JSON result:
{"plateBox":null,"tailgateTopY":0.35,"tailgateBottomY":0.55,"cargoTopY":0.25}
Some trailing text"#;
    let geo = parse_geometry(text).unwrap();
    assert!((f(geo.tailgate_top_y) - 0.35).abs() < f64::EPSILON);
    assert!(geo.plate_box.is_none());
}

#[test]
fn test_parse_geometry_empty_response() {
    let result = parse_geometry("");
    assert!(result.is_err());
}

#[test]
fn test_parse_geometry_no_json() {
    let result = parse_geometry("This is not JSON at all");
    assert!(result.is_err());
}

#[test]
fn test_parse_fill_clean_json() {
    let json = r#"{"fillRatioL":0.8,"fillRatioW":0.85,"taperRatio":0.9,"packingDensity":0.8,"reasoning":"Cargo is well packed"}"#;
    let fill = parse_fill(json).unwrap();
    assert!((f(fill.fill_ratio_l) - 0.8).abs() < f64::EPSILON);
    assert!((f(fill.fill_ratio_w) - 0.85).abs() < f64::EPSILON);
    assert!((f(fill.taper_ratio) - 0.9).abs() < f64::EPSILON);
    assert!((f(fill.packing_density) - 0.8).abs() < f64::EPSILON);
    assert_eq!(fill.reasoning.as_deref(), Some("Cargo is well packed"));
}

#[test]
fn test_parse_fill_missing_fields_use_defaults() {
    let json = r#"{"fillRatioL":0.75}"#;
    let fill = parse_fill(json).unwrap();
    assert!((f(fill.fill_ratio_l) - 0.75).abs() < f64::EPSILON);
    // Defaults
    assert!((f(fill.fill_ratio_w) - 0.7).abs() < f64::EPSILON);
    assert!((f(fill.taper_ratio) - 0.85).abs() < f64::EPSILON);
    assert!((f(fill.packing_density) - 0.7).abs() < f64::EPSILON);
}

#[test]
fn test_parse_fill_with_extra_text() {
    let text = "```json\n{\"fillRatioL\":0.82,\"fillRatioW\":0.78,\"taperRatio\":0.88,\"packingDensity\":0.75,\"reasoning\":\"test\"}\n```";
    let fill = parse_fill(text).unwrap();
    assert!((f(fill.fill_ratio_l) - 0.82).abs() < f64::EPSILON);
}

#[test]
fn test_parse_json_safe_nested_braces_in_string() {
    // JSON with braces inside string values should be handled correctly
    let text = r#"{"fillRatioL":0.8,"fillRatioW":0.85,"taperRatio":0.9,"packingDensity":0.8,"reasoning":"cargo {heavy} and {packed}"}"#;
    let fill: FillResponse = parse_fill(text).unwrap();
    assert_eq!(fill.reasoning.as_deref(), Some("cargo {heavy} and {packed}"));
}

#[test]
fn test_parse_incomplete_json() {
    let text = r#"{"fillRatioL":0.8,"fillRatioW":0.85"#;
    let result = parse_fill(text);
    assert!(result.is_err());
}

#[test]
fn test_parse_json_safe_extracts_object_text() {
    let text = "prose before {\"a\":1} prose after";
    let extracted = parse_json_safe(text).unwrap();
    assert_eq!(extracted, "{\"a\":1}");
}

#[test]
fn test_parse_json_safe_whole_document() {
    let text = "  {\"x\": [1, 2, {\"y\": null}]}  ";
    let extracted = parse_json_safe(text).unwrap();
    assert_eq!(extracted, text);
}

#[test]
fn test_parse_json_safe_no_object() {
    assert!(parse_json_safe("nothing here").is_err());
    assert!(parse_json_safe("").is_err());
}

#[test]
fn test_parse_json_safe_incomplete() {
    let r = parse_json_safe("{\"a\": {\"b\": 1}");
    assert!(r.is_err());
    assert_eq!(r.unwrap_err().message, "不完全なJSONオブジェクト");
}
