//! The specification repository: material densities, truck-bed geometry,
//! parameter ranges and calculation constants, all in micro-units.
//!
//! The repository is an explicitly constructed, read-only value handed to
//! every component; `standard_spec` builds the standard table.

use vstd::prelude::*;
use crate::text::{chars_of, chars_eq_str};

verus! {

/// Per-parameter closed range.
#[derive(Debug, Clone, Copy, PartialEq, Eq)]
pub struct Range {
    pub min: i64,
    pub max: i64,
}

/// Calibration landmarks for cargo height: the back panel and the hinge.
#[derive(Debug, Clone, Copy, PartialEq, Eq)]
pub struct HeightCalibration {
    pub back_panel: i64,
    pub hinge: i64,
}

/// Height range with its step and calibration landmarks.
#[derive(Debug, Clone, Copy, PartialEq, Eq)]
pub struct HeightRange {
    pub min: i64,
    pub max: i64,
    pub step: i64,
    pub calibration: HeightCalibration,
}

/// Ranges for every validated parameter.
#[derive(Debug, Clone, Copy, PartialEq, Eq)]
pub struct Ranges {
    pub upper_area: Range,
    pub height: HeightRange,
    pub slope: Range,
    pub fill_ratio_l: Range,
    pub fill_ratio_w: Range,
    pub fill_ratio_z: Range,
    pub taper_ratio: Range,
    pub packing_density: Range,
}

/// Calculation constants.
#[derive(Debug, Clone, Copy, PartialEq, Eq)]
pub struct Constants {
    pub plate_height_m: i64,
    pub plate_min_norm: i64,
    pub bottom_fill: i64,
    pub compression_ref_volume: i64,
    pub compression_factor: i64,
    pub effective_packing_min: i64,
    pub effective_packing_max: i64,
}

/// Material density entry.
#[derive(Debug, Clone, Copy, PartialEq, Eq)]
pub struct MaterialEntry {
    pub density: i64,
}

/// Truck bed specification.
#[derive(Debug, Clone, Copy, PartialEq, Eq)]
pub struct TruckSpec {
    pub bed_length: i64,
    pub bed_width: i64,
    pub bed_height: i64,
    pub level_volume: i64,
    pub heap_volume: i64,
    pub max_capacity: i64,
}

/// The whole repository.
#[derive(Debug, Clone)]
pub struct PromptSpec {
    pub version: String,
    pub materials: Vec<(String, MaterialEntry)>,
    pub truck_specs: Vec<(String, TruckSpec)>,
    pub ranges: Ranges,
    pub constants: Constants,
    pub geometry_prompt: String,
    pub fill_prompt: String,
}

/// Density used when a material name is unknown and no default entry exists.
pub const FALLBACK_DENSITY: i64 = 2_500_000;

/// Well-formedness of a range.
pub open spec fn spec_range_wf(r: Range) -> bool {
    &&& r.min <= r.max
    &&& -10_000_000 <= r.min
    &&& r.max <= 10_000_000
}

/// Well-formedness of the whole repository: every density and dimension
/// strictly positive and within the band the calculation model needs,
/// every range ordered.
pub open spec fn spec_wf(repo: PromptSpec) -> bool {
    &&& forall|i: int|
        0 <= i < repo.materials@.len() ==> 0 < (#[trigger] repo.materials@[i]).1.density
            <= 1_000_000_000
    &&& forall|i: int|
        0 <= i < repo.truck_specs@.len() ==> {
            let t = (#[trigger] repo.truck_specs@[i]).1;
            &&& 0 < t.bed_length <= 100_000_000
            &&& 0 < t.bed_width <= 100_000_000
            &&& 0 < t.bed_height <= 10_000_000
        }
    &&& spec_range_wf(repo.ranges.upper_area)
    &&& spec_range_wf(repo.ranges.slope)
    &&& spec_range_wf(repo.ranges.fill_ratio_l)
    &&& spec_range_wf(repo.ranges.fill_ratio_w)
    &&& spec_range_wf(repo.ranges.fill_ratio_z)
    &&& spec_range_wf(repo.ranges.taper_ratio)
    &&& spec_range_wf(repo.ranges.packing_density)
    &&& repo.ranges.height.min <= repo.ranges.height.max
    &&& -10_000_000 <= repo.ranges.height.min
    &&& repo.ranges.height.max <= 10_000_000
    &&& 0 < repo.constants.plate_height_m <= 10_000_000
    &&& 0 <= repo.constants.plate_min_norm <= 10_000_000
    &&& -10_000_000 <= repo.constants.bottom_fill <= 10_000_000
    &&& -1_000_000_000_000 <= repo.constants.compression_ref_volume <= 1_000_000_000_000
    &&& 0 <= repo.constants.compression_factor <= 10_000_000
    &&& 0 <= repo.constants.effective_packing_min <= repo.constants.effective_packing_max
    &&& repo.constants.effective_packing_max <= 2_000_000
}

/// First entry whose key spells `name`.
pub open spec fn spec_find_material(ms: Seq<(String, MaterialEntry)>, name: Seq<char>) -> Option<
    MaterialEntry,
>
    decreases ms.len(),
{
    if ms.len() == 0 {
        None
    } else if ms[0].0@ == name {
        Some(ms[0].1)
    } else {
        spec_find_material(ms.drop_first(), name)
    }
}

/// First truck entry whose key spells `name`.
pub open spec fn spec_find_truck(ts: Seq<(String, TruckSpec)>, name: Seq<char>) -> Option<TruckSpec>
    decreases ts.len(),
{
    if ts.len() == 0 {
        None
    } else if ts[0].0@ == name {
        Some(ts[0].1)
    } else {
        spec_find_truck(ts.drop_first(), name)
    }
}

/// Density of a material: the named entry, else the default material's
/// entry, else the fixed fallback.
pub open spec fn spec_material_density(repo: PromptSpec, name: Seq<char>) -> i64 {
    match spec_find_material(repo.materials@, name) {
        Option::Some(m) => m.density,
        Option::None => match spec_find_material(repo.materials@, "As殻"@) {
            Option::Some(m) => m.density,
            Option::None => FALLBACK_DENSITY,
        },
    }
}

pub proof fn lemma_find_material_wf(repo: PromptSpec, ms: Seq<(String, MaterialEntry)>, name: Seq<char>)
    requires
        forall|i: int| 0 <= i < ms.len() ==> 0 < (#[trigger] ms[i]).1.density <= 1_000_000_000,
    ensures
        match spec_find_material(ms, name) {
            Option::Some(m) => 0 < m.density <= 1_000_000_000,
            Option::None => true,
        },
    decreases ms.len(),
{
    if ms.len() > 0 && !(ms[0].0@ == name) {
        lemma_find_material_wf(repo, ms.drop_first(), name);
    }
}

/// The density the repository gives is always positive and bounded.
pub proof fn lemma_material_density_wf(repo: PromptSpec, name: Seq<char>)
    requires
        spec_wf(repo),
    ensures
        0 < spec_material_density(repo, name) <= 1_000_000_000,
{
    lemma_find_material_wf(repo, repo.materials@, name);
    lemma_find_material_wf(repo, repo.materials@, "As殻"@);
}

pub proof fn lemma_find_truck_wf(ts: Seq<(String, TruckSpec)>, name: Seq<char>)
    requires
        forall|i: int|
            0 <= i < ts.len() ==> {
                let t = (#[trigger] ts[i]).1;
                &&& 0 < t.bed_length <= 100_000_000
                &&& 0 < t.bed_width <= 100_000_000
                &&& 0 < t.bed_height <= 10_000_000
            },
    ensures
        match spec_find_truck(ts, name) {
            Option::Some(t) => 0 < t.bed_length <= 100_000_000 && 0 < t.bed_width <= 100_000_000
                && 0 < t.bed_height <= 10_000_000,
            Option::None => true,
        },
    decreases ts.len(),
{
    if ts.len() > 0 && !(ts[0].0@ == name) {
        lemma_find_truck_wf(ts.drop_first(), name);
    }
}

/// Look a material up by name; unknown names fall back to the default
/// material's density.
pub fn get_material_density(repo: &PromptSpec, name: &str) -> (r: i64)
    ensures
        r == spec_material_density(*repo, name@),
        spec_wf(*repo) ==> 0 < r <= 1_000_000_000,
{
    proof {
        if spec_wf(*repo) {
            lemma_material_density_wf(*repo, name@);
        }
    }
    let nv = chars_of(name);
    match find_material(&repo.materials, &nv) {
        Option::Some(m) => m.density,
        Option::None => {
            let dv = chars_of("As殻");
            match find_material(&repo.materials, &dv) {
                Option::Some(m) => m.density,
                Option::None => FALLBACK_DENSITY,
            }
        },
    }
}

/// Scan the material table for a key.
fn find_material(ms: &Vec<(String, MaterialEntry)>, name: &Vec<char>) -> (r: Option<MaterialEntry>)
    ensures
        r == spec_find_material(ms@, name@),
{
    let n = ms.len();
    let mut i: usize = 0;
    proof {
        assert(ms@.skip(0) =~= ms@);
    }
    while i < n
        invariant
            i <= n,
            n == ms@.len(),
            spec_find_material(ms@, name@) == spec_find_material(ms@.skip(i as int), name@),
        decreases n - i,
    {
        proof {
            assert(ms@.skip(i as int)[0] == ms@[i as int]);
            assert(ms@.skip(i as int).drop_first() =~= ms@.skip(i as int + 1));
        }
        if chars_eq_str(name, ms[i].0.as_str()) {
            return Some(ms[i].1);
        }
        i = i + 1;
    }
    proof {
        assert(ms@.skip(n as int).len() == 0);
    }
    None
}

/// Scan the truck table for a class.
fn find_truck(ts: &Vec<(String, TruckSpec)>, name: &Vec<char>) -> (r: Option<TruckSpec>)
    ensures
        r == spec_find_truck(ts@, name@),
{
    let n = ts.len();
    let mut i: usize = 0;
    proof {
        assert(ts@.skip(0) =~= ts@);
    }
    while i < n
        invariant
            i <= n,
            n == ts@.len(),
            spec_find_truck(ts@, name@) == spec_find_truck(ts@.skip(i as int), name@),
        decreases n - i,
    {
        proof {
            assert(ts@.skip(i as int)[0] == ts@[i as int]);
            assert(ts@.skip(i as int).drop_first() =~= ts@.skip(i as int + 1));
        }
        if chars_eq_str(name, ts[i].0.as_str()) {
            return Some(ts[i].1);
        }
        i = i + 1;
    }
    proof {
        assert(ts@.skip(n as int).len() == 0);
    }
    None
}

/// Truck bed specification for a class, if the class is known.
pub fn get_truck_spec(repo: &PromptSpec, truck_class: &str) -> (r: Option<TruckSpec>)
    ensures
        r == spec_find_truck(repo.truck_specs@, truck_class@),
{
    let cv = chars_of(truck_class);
    find_truck(&repo.truck_specs, &cv)
}

/// Bed area of a truck class: length times width, in micro-units.
pub open spec fn spec_truck_bed_area(repo: PromptSpec, truck_class: Seq<char>) -> i64 {
    match spec_find_truck(repo.truck_specs@, truck_class) {
        Option::Some(t) => ((t.bed_length * t.bed_width) / 1_000_000) as i64,
        Option::None => spec_default_bed_area(repo),
    }
}

/// Default bed area: the four-tonne class entry, else a fixed figure.
pub open spec fn spec_default_bed_area(repo: PromptSpec) -> i64 {
    match spec_find_truck(repo.truck_specs@, "4t"@) {
        Option::Some(t) => ((t.bed_length * t.bed_width) / 1_000_000) as i64,
        Option::None => 6_800_000,
    }
}

/// Bed area of a truck class, unknown classes falling back to the default.
pub fn get_truck_bed_area(repo: &PromptSpec, truck_class: &str) -> (r: i64)
    requires
        spec_wf(*repo),
    ensures
        r == spec_truck_bed_area(*repo, truck_class@),
        0 <= r <= 10_000_000_000,
{
    let cv = chars_of(truck_class);
    proof {
        lemma_find_truck_wf(repo.truck_specs@, cv@);
    }
    match find_truck(&repo.truck_specs, &cv) {
        Option::Some(t) => {
            proof {
                assert(t.bed_length * t.bed_width <= 100_000_000 * 100_000_000int)
                    by (nonlinear_arith)
                    requires
                        0 < t.bed_length <= 100_000_000 && 0 < t.bed_width <= 100_000_000,
                ;
                assert(t.bed_length * t.bed_width >= 0) by (nonlinear_arith)
                    requires
                        t.bed_length > 0 && t.bed_width > 0,
                ;
            }
            let area = ((t.bed_length as i128) * (t.bed_width as i128)) / 1_000_000;
            area as i64
        },
        Option::None => default_bed_area(repo),
    }
}

/// Default bed area, executable.
pub fn default_bed_area(repo: &PromptSpec) -> (r: i64)
    requires
        spec_wf(*repo),
    ensures
        r == spec_default_bed_area(*repo),
        0 <= r <= 10_000_000_000,
{
    let cv = chars_of("4t");
    proof {
        lemma_find_truck_wf(repo.truck_specs@, cv@);
    }
    match find_truck(&repo.truck_specs, &cv) {
        Option::Some(t) => {
            proof {
                assert(t.bed_length * t.bed_width <= 100_000_000 * 100_000_000int)
                    by (nonlinear_arith)
                    requires
                        0 < t.bed_length <= 100_000_000 && 0 < t.bed_width <= 100_000_000,
                ;
                assert(t.bed_length * t.bed_width >= 0) by (nonlinear_arith)
                    requires
                        t.bed_length > 0 && t.bed_width > 0,
                ;
            }
            let area = ((t.bed_length as i128) * (t.bed_width as i128)) / 1_000_000;
            area as i64
        },
        Option::None => 6_800_000,
    }
}

/// Back-panel calibration height.
pub fn back_panel_height(repo: &PromptSpec) -> (r: i64)
    ensures
        r == repo.ranges.height.calibration.back_panel,
{
    repo.ranges.height.calibration.back_panel
}

/// Hinge calibration height.
pub fn hinge_height(repo: &PromptSpec) -> (r: i64)
    ensures
        r == repo.ranges.height.calibration.hinge,
{
    repo.ranges.height.calibration.hinge
}

/// Build the standard repository: the material, truck, range and constant
/// tables both front-ends share.
pub fn standard_spec() -> (r: PromptSpec)
    ensures
        spec_wf(r),
        r.version@ == "2.1.0"@,
{
    let mut materials: Vec<(String, MaterialEntry)> = Vec::new();
    materials.push((String::from_str("As殻"), MaterialEntry { density: 2_500_000 }));
    materials.push((String::from_str("土砂"), MaterialEntry { density: 1_800_000 }));
    let mut truck_specs: Vec<(String, TruckSpec)> = Vec::new();
    truck_specs.push(
        (
            String::from_str("4t"),
            TruckSpec {
                bed_length: 3_400_000,
                bed_width: 2_060_000,
                bed_height: 320_000,
                level_volume: 2_240_000,
                heap_volume: 2_800_000,
                max_capacity: 4_000_000,
            },
        ),
    );
    truck_specs.push(
        (
            String::from_str("10t"),
            TruckSpec {
                bed_length: 5_100_000,
                bed_width: 2_200_000,
                bed_height: 500_000,
                level_volume: 5_610_000,
                heap_volume: 7_000_000,
                max_capacity: 10_000_000,
            },
        ),
    );
    let ranges = Ranges {
        upper_area: Range { min: 200_000, max: 900_000 },
        height: HeightRange {
            min: 0,
            max: 800_000,
            step: 50_000,
            calibration: HeightCalibration { back_panel: 300_000, hinge: 600_000 },
        },
        slope: Range { min: 0, max: 300_000 },
        fill_ratio_l: Range { min: 0, max: 900_000 },
        fill_ratio_w: Range { min: 0, max: 900_000 },
        fill_ratio_z: Range { min: 750_000, max: 950_000 },
        taper_ratio: Range { min: 500_000, max: 1_000_000 },
        packing_density: Range { min: 500_000, max: 900_000 },
    };
    let constants = Constants {
        plate_height_m: 220_000,
        plate_min_norm: 20_000,
        bottom_fill: 900_000,
        compression_ref_volume: 2_000_000,
        compression_factor: 150_000,
        effective_packing_min: 700_000,
        effective_packing_max: 950_000,
    };
    let geometry_prompt = String::from_str(
        "この画像のダンプトラック荷台を解析し、正規化座標を JSON で返してください。キー: tailgateTopY (あおり上端のY), tailgateBottomY (あおり下端のY), cargoTopY (積荷上端のY), plateBox ([x0,y0,x1,y1] のナンバープレート枠、無ければ null)。JSONのみを出力。",
    );
    let fill_prompt = String::from_str(
        "この画像の積荷の充填状態を解析し、JSON で返してください。キー: fillRatioL (長さ方向充填率), fillRatioW (幅方向充填率), taperRatio (山なり補正), packingDensity (実容積率), materialType (材質名、不明なら \"?\"), reasoning (根拠)。JSONのみを出力。",
    );
    PromptSpec {
        version: String::from_str("2.1.0"),
        materials,
        truck_specs,
        ranges,
        constants,
        geometry_prompt,
        fill_prompt,
    }
}

} // verus!
