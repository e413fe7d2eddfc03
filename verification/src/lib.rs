//! Core estimation pipeline for dump-truck cargo tonnage: robust
//! extraction of structured data from free-form model replies, the
//! geometric and volumetric calculation model, and the ensemble
//! aggregation that combines repeated estimation rounds into one stable,
//! bounds-checked result.  All scalars are micro-unit fixed-point values.

use vstd::prelude::*;

verus! {

pub mod fixed;
pub mod text;
pub mod scan;
pub mod number;
pub mod json;
pub mod parse;
pub mod repo;
pub mod calculation;
pub mod validation;
pub mod stats;
pub mod pipeline;
pub mod serial;

} // verus!

pub use repo::{
    PromptSpec, TruckSpec, MaterialEntry, Range, HeightRange, HeightCalibration, Constants,
    standard_spec, get_material_density, get_truck_spec, get_truck_bed_area, default_bed_area,
    back_panel_height, hinge_height,
};
pub use calculation::{
    calculate_tonnage, height_from_geometry, TonnageResult, CoreParams, ScaleMethod,
};
pub use parse::{
    parse_geometry, parse_fill, parse_json_safe, GeometryResponse, FillResponse, PlateBox,
    ParseError,
};
pub use pipeline::{
    analyze_box_overlay, AiBackend, BoxOverlayConfig, BoxOverlayResult, PipelineError,
    GeometryRunLog, FillRunLog, RunTag,
};
pub use validation::{validate_params, clamp_params, clamp_to_range, ValidationError, EstimationParams};
pub use stats::{median, average, mode_string};
pub use serial::{serialize_geometry, serialize_fill};
