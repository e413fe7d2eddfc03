//! Tonnage calculation from geometric parameters, and the geometry height
//! resolver.
//!
//! Box-overlay formula:
//!   effectiveL = fillRatioL * taperRatio
//!   effectiveW = (bottomFill + fillRatioW) / 2
//!   volume = bedL * bedW * height * effectiveL * effectiveW
//!   compressionFactor = 1 + compressionCoefficient * (volume - referenceVolume)
//!   effectivePacking = clamp(packing * compressionFactor, packingMin, packingMax)
//!   tonnage = volume * density * effectivePacking
//! All scalars are micro-unit fixed-point values; products are rescaled
//! with truncating division, and results rounded half away from zero.

use vstd::prelude::*;
use crate::fixed::{
    MICRO, spec_tdiv, spec_clamp, spec_fixmul, spec_round_to, clamp_i64, clamp_i128_to_i64,
    round_to, tdiv_i128, lemma_tdiv_bound,
};
use crate::repo::{
    PromptSpec, spec_wf, spec_find_truck, spec_default_bed_area, spec_material_density,
    get_truck_spec, default_bed_area, get_material_density,
};
use crate::parse::PlateBox;

verus! {

/// The largest magnitude the calculator accepts for each of its scalar
/// inputs: ten units, far beyond any physical fill ratio or cargo height,
/// and small enough that every intermediate product fits the machine.
pub const PARAM_LIMIT: i64 = 10_000_000;

/// Cargo height ceiling in meters: no supported vehicle carries higher.
pub const HEIGHT_CEILING: i64 = 800_000;

/// Bed length assumed when the truck class is unknown.
pub const FALLBACK_BED_LENGTH: i64 = 3_400_000;

/// Input parameters for the box-overlay tonnage calculation.
#[derive(Debug, Clone)]
pub struct CoreParams {
    pub height: i64,
    pub fill_ratio_l: i64,
    pub fill_ratio_w: i64,
    pub taper_ratio: i64,
    pub packing_density: i64,
    pub material_type: String,
}

/// Calculation result: volume rounded to three decimals, tonnage to two.
#[derive(Debug, Clone, Copy, PartialEq, Eq)]
pub struct TonnageResult {
    pub volume: i64,
    pub tonnage: i64,
    pub effective_packing: i64,
    pub density: i64,
}

/// Bed length and width used for a truck class: the class entry, or the
/// fallback proportions derived from the default bed area.
pub open spec fn spec_bed_dims(repo: PromptSpec, truck_class: Option<Seq<char>>) -> (i64, i64) {
    let found = match truck_class {
        Option::Some(cls) => spec_find_truck(repo.truck_specs@, cls),
        Option::None => None,
    };
    match found {
        Option::Some(t) => (t.bed_length, t.bed_width),
        Option::None => (
            FALLBACK_BED_LENGTH,
            spec_tdiv(spec_default_bed_area(repo) * (MICRO as int), FALLBACK_BED_LENGTH as int) as i64,
        ),
    }
}

/// Volume before rounding, given resolved bed dimensions.
pub open spec fn spec_raw_volume(
    bed_l: int,
    bed_w: int,
    height: int,
    fill_l: int,
    fill_w: int,
    taper: int,
    bottom_fill: int,
) -> int {
    let eff_l = spec_fixmul(fill_l, taper);
    let eff_w = spec_tdiv(bottom_fill + fill_w, 2);
    spec_fixmul(spec_fixmul(spec_fixmul(spec_fixmul(bed_l, bed_w), height), eff_l), eff_w)
}

/// Effective packing before rounding: the compression-corrected packing
/// density, clamped into the configured band.
pub open spec fn spec_raw_effective_packing(
    volume: int,
    packing: int,
    compression_factor: int,
    ref_volume: int,
    pack_min: int,
    pack_max: int,
) -> int {
    let cf = MICRO + spec_fixmul(compression_factor, volume - ref_volume);
    spec_clamp(spec_fixmul(packing, cf), pack_min, pack_max)
}

/// The whole calculation, as a function of repository, scalar parameters,
/// material name and truck class.
pub open spec fn spec_calculate_core(
    repo: PromptSpec,
    height: i64,
    fill_ratio_l: i64,
    fill_ratio_w: i64,
    taper_ratio: i64,
    packing_density: i64,
    material: Seq<char>,
    truck_class: Option<Seq<char>>,
) -> TonnageResult {
    let dims = spec_bed_dims(repo, truck_class);
    let c = repo.constants;
    let volume = spec_raw_volume(
        dims.0 as int,
        dims.1 as int,
        height as int,
        fill_ratio_l as int,
        fill_ratio_w as int,
        taper_ratio as int,
        c.bottom_fill as int,
    );
    let eff_packing = spec_raw_effective_packing(
        volume,
        packing_density as int,
        c.compression_factor as int,
        c.compression_ref_volume as int,
        c.effective_packing_min as int,
        c.effective_packing_max as int,
    );
    let density = spec_material_density(repo, material);
    let tonnage = spec_fixmul(spec_fixmul(volume, density as int), eff_packing);
    TonnageResult {
        volume: spec_round_to(volume, 1_000) as i64,
        tonnage: spec_round_to(tonnage, 10_000) as i64,
        effective_packing: spec_round_to(eff_packing, 1_000) as i64,
        density,
    }
}

/// The calculation on a `CoreParams` value.
pub open spec fn spec_calculate_tonnage(
    repo: PromptSpec,
    params: CoreParams,
    truck_class: Option<Seq<char>>,
) -> TonnageResult {
    spec_calculate_core(
        repo,
        params.height,
        params.fill_ratio_l,
        params.fill_ratio_w,
        params.taper_ratio,
        params.packing_density,
        params.material_type@,
        truck_class,
    )
}

/// Whether every scalar field lies within the calculator's machine band.
pub open spec fn spec_params_in_band(params: CoreParams) -> bool {
    &&& -PARAM_LIMIT <= params.height <= PARAM_LIMIT
    &&& -PARAM_LIMIT <= params.fill_ratio_l <= PARAM_LIMIT
    &&& -PARAM_LIMIT <= params.fill_ratio_w <= PARAM_LIMIT
    &&& -PARAM_LIMIT <= params.taper_ratio <= PARAM_LIMIT
    &&& -PARAM_LIMIT <= params.packing_density <= PARAM_LIMIT
}

/// Fixed-point product of two micro-unit values, rescaled.
fn fixmul(a: i64, b: i64) -> (r: i64)
    requires
        a * b < 9_000_000_000_000_000_000_000_000,
        a * b > -9_000_000_000_000_000_000_000_000,
    ensures
        r == spec_fixmul(a as int, b as int),
        a * b >= 0 ==> 0 <= r <= spec_tdiv(a * b, MICRO as int),
        a * b < 0 ==> spec_tdiv(a * b, MICRO as int) <= r <= 0,
{
    let p = (a as i128) * (b as i128);
    let q = tdiv_i128(p, 1_000_000);
    proof {
        if p >= 0 {
            vstd::arithmetic::div_mod::lemma_div_pos_is_pos(p as int, 1_000_000);
            vstd::arithmetic::div_mod::lemma_div_nonincreasing(p as int, 1_000_000);
        } else {
            vstd::arithmetic::div_mod::lemma_div_pos_is_pos(-p as int, 1_000_000);
            vstd::arithmetic::div_mod::lemma_div_nonincreasing(-p as int, 1_000_000);
        }
    }
    q as i64
}

/// Calculate volume, tonnage and effective packing from resolved
/// parameters, per `spec_calculate_tonnage`.
///
/// Never fails: unknown truck classes fall back to default bed
/// proportions, unknown materials to the default material's density.
/// A zero height yields exactly zero volume and zero tonnage.
#[verifier::rlimit(100)]
pub fn calculate_tonnage(repo: &PromptSpec, params: &CoreParams, truck_class: Option<&str>) -> (r:
    TonnageResult)
    requires
        spec_wf(*repo),
        spec_params_in_band(*params),
    ensures
        r == spec_calculate_tonnage(
            *repo,
            *params,
            match truck_class {
                Option::Some(cls) => Some(cls@),
                Option::None => None::<Seq<char>>,
            },
        ),
        r.effective_packing == spec_round_to(
            spec_clamp(
                spec_raw_effective_packing(
                    spec_raw_volume(
                        spec_bed_dims(
                            *repo,
                            match truck_class {
                                Option::Some(cls) => Some(cls@),
                                Option::None => None::<Seq<char>>,
                            },
                        ).0 as int,
                        spec_bed_dims(
                            *repo,
                            match truck_class {
                                Option::Some(cls) => Some(cls@),
                                Option::None => None::<Seq<char>>,
                            },
                        ).1 as int,
                        params.height as int,
                        params.fill_ratio_l as int,
                        params.fill_ratio_w as int,
                        params.taper_ratio as int,
                        repo.constants.bottom_fill as int,
                    ),
                    params.packing_density as int,
                    repo.constants.compression_factor as int,
                    repo.constants.compression_ref_volume as int,
                    repo.constants.effective_packing_min as int,
                    repo.constants.effective_packing_max as int,
                ),
                repo.constants.effective_packing_min as int,
                repo.constants.effective_packing_max as int,
            ),
            1_000,
        ),
        params.height == 0 ==> r.volume == 0 && r.tonnage == 0,
        -4_000_000_000_000_000 <= r.volume <= 4_000_000_000_000_000,
        -7_000_000_000_000_000_000 <= r.tonnage <= 7_000_000_000_000_000_000,
        0 <= r.effective_packing <= 2_001_000,
        0 < r.density <= 1_000_000_000,
{
    let c = repo.constants;
    let found = match truck_class {
        Option::Some(cls) => get_truck_spec(repo, cls),
        Option::None => None,
    };
    let ghost gcls: Option<Seq<char>> = match truck_class {
        Option::Some(cls) => Some(cls@),
        Option::None => None,
    };
    let (bed_l, bed_w): (i64, i64) = match found {
        Option::Some(t) => {
            proof {
                crate::repo::lemma_find_truck_wf(repo.truck_specs@, gcls->Some_0);
            }
            (t.bed_length, t.bed_width)
        },
        Option::None => {
            let area = default_bed_area(repo);
            let w = tdiv_i128((area as i128) * 1_000_000, FALLBACK_BED_LENGTH as i128);
            proof {
                vstd::arithmetic::div_mod::lemma_div_pos_is_pos(
                    area * 1_000_000,
                    FALLBACK_BED_LENGTH as int,
                );
                vstd::arithmetic::div_mod::lemma_div_is_ordered(
                    area * 1_000_000,
                    10_000_000_000_000_000,
                    FALLBACK_BED_LENGTH as int,
                );
                assert(10_000_000_000_000_000int / 3_400_000int <= 3_000_000_000);
            }
            (FALLBACK_BED_LENGTH, w as i64)
        },
    };
    proof {
        assert((bed_l, bed_w) == spec_bed_dims(*repo, gcls));
        assert(0 <= bed_l <= 100_000_000);
        assert(0 <= bed_w <= 3_000_000_000);
    }
    proof {
        assert(params.fill_ratio_l * params.taper_ratio <= 100_000_000_000_000
            && params.fill_ratio_l * params.taper_ratio >= -100_000_000_000_000)
            by (nonlinear_arith)
            requires
                -10_000_000 <= params.fill_ratio_l <= 10_000_000 && -10_000_000
                    <= params.taper_ratio <= 10_000_000,
        ;
        lemma_tdiv_bound(
            params.fill_ratio_l * params.taper_ratio,
            100_000_000_000_000,
            1_000_000,
        );
    }
    let eff_l = fixmul(params.fill_ratio_l, params.taper_ratio);
    proof {
        assert(-100_000_000 <= eff_l <= 100_000_000);
    }
    let eff_w = (c.bottom_fill + params.fill_ratio_w) / 2;
    proof {
        assert(eff_w == spec_tdiv(c.bottom_fill + params.fill_ratio_w, 2));
        assert(-10_000_000 <= eff_w <= 10_000_000);
    }
    proof {
        assert(bed_l * bed_w <= 100_000_000 * 3_000_000_000int && bed_l * bed_w >= 0)
            by (nonlinear_arith)
            requires
                0 <= bed_l <= 100_000_000 && 0 <= bed_w <= 3_000_000_000,
        ;
        lemma_tdiv_bound(bed_l * bed_w, 300_000_000_000_000_000, 1_000_000);
    }
    let v1 = fixmul(bed_l, bed_w);
    proof {
        assert(0 <= v1 <= 300_000_000_000);
    }
    proof {
        assert(v1 * params.height <= 300_000_000_000 * 10_000_000int && v1 * params.height
            >= -(300_000_000_000 * 10_000_000int)) by (nonlinear_arith)
            requires
                0 <= v1 <= 300_000_000_000 && -10_000_000 <= params.height <= 10_000_000,
        ;
        lemma_tdiv_bound(v1 * params.height, 3_000_000_000_000_000_000, 1_000_000);
    }
    let v2 = fixmul(v1, params.height);
    proof {
        assert(-3_000_000_000_000 <= v2 <= 3_000_000_000_000);
    }
    proof {
        assert(v2 * eff_l <= 300_000_000_000_000_000_000int && v2 * eff_l
            >= -300_000_000_000_000_000_000int) by (nonlinear_arith)
            requires
                -3_000_000_000_000 <= v2 <= 3_000_000_000_000 && -100_000_000 <= eff_l
                    <= 100_000_000,
        ;
        lemma_tdiv_bound(v2 * eff_l, 300_000_000_000_000_000_000, 1_000_000);
    }
    let v3 = fixmul(v2, eff_l);
    proof {
        assert(-300_000_000_000_000 <= v3 <= 300_000_000_000_000);
    }
    proof {
        assert(v3 * eff_w <= 3_000_000_000_000_000_000_000int && v3 * eff_w
            >= -3_000_000_000_000_000_000_000int) by (nonlinear_arith)
            requires
                -300_000_000_000_000 <= v3 <= 300_000_000_000_000 && -10_000_000 <= eff_w
                    <= 10_000_000,
        ;
        lemma_tdiv_bound(v3 * eff_w, 3_000_000_000_000_000_000_000, 1_000_000);
    }
    let volume = fixmul(v3, eff_w);
    proof {
        assert(-3_000_000_000_000_000 <= volume <= 3_000_000_000_000_000);
    }
    let dv = volume - c.compression_ref_volume;
    proof {
        assert(c.compression_factor * dv <= 10_000_000 * 4_000_000_000_000_000int
            && c.compression_factor * dv >= -(10_000_000 * 4_000_000_000_000_000int))
            by (nonlinear_arith)
            requires
                0 <= c.compression_factor <= 10_000_000 && -4_000_000_000_000_000 <= dv
                    <= 4_000_000_000_000_000,
        ;
        lemma_tdiv_bound(c.compression_factor * dv, 40_000_000_000_000_000_000_000, 1_000_000);
    }
    let cfm = fixmul(c.compression_factor, dv);
    proof {
        assert(-40_000_000_000_000_000 <= cfm <= 40_000_000_000_000_000);
    }
    let cf = MICRO + cfm;
    proof {
        assert(params.packing_density * cf <= 10_000_000 * 41_000_000_000_000_000int
            && params.packing_density * cf >= -(10_000_000 * 41_000_000_000_000_000int))
            by (nonlinear_arith)
            requires
                -10_000_000 <= params.packing_density <= 10_000_000 && -41_000_000_000_000_000
                    <= cf <= 41_000_000_000_000_000,
        ;
    }
    let pc = fixmul(params.packing_density, cf);
    let eff_packing = clamp_i64(pc, c.effective_packing_min, c.effective_packing_max);
    let density = get_material_density(repo, params.material_type.as_str());
    proof {
        assert(volume * density <= 3_000_000_000_000_000 * 1_000_000_000int && volume * density
            >= -(3_000_000_000_000_000 * 1_000_000_000int)) by (nonlinear_arith)
            requires
                -3_000_000_000_000_000 <= volume <= 3_000_000_000_000_000 && 0 <= density
                    <= 1_000_000_000,
        ;
        lemma_tdiv_bound(volume * density, 3_000_000_000_000_000_000_000_000, 1_000_000);
    }
    let t1 = fixmul(volume, density);
    proof {
        assert(-3_000_000_000_000_000_000 <= t1 <= 3_000_000_000_000_000_000);
    }
    proof {
        assert(t1 * eff_packing <= 3_000_000_000_000_000_000 * 2_000_000int && t1 * eff_packing
            >= -(3_000_000_000_000_000_000 * 2_000_000int)) by (nonlinear_arith)
            requires
                -3_000_000_000_000_000_000 <= t1 <= 3_000_000_000_000_000_000 && 0
                    <= eff_packing <= 2_000_000,
        ;
        lemma_tdiv_bound(t1 * eff_packing, 6_000_000_000_000_000_000_000_000, 1_000_000);
    }
    let tonnage = fixmul(t1, eff_packing);
    proof {
        assert(-6_000_000_000_000_000_000 <= tonnage <= 6_000_000_000_000_000_000);
    }
    let r = TonnageResult {
        volume: round_to(volume, 1_000),
        tonnage: round_to(tonnage, 10_000),
        effective_packing: round_to(eff_packing, 1_000),
        density,
    };
    proof {
        crate::fixed::lemma_round_bound(volume as int, 1_000, 3_000_000_000_000_000);
        crate::fixed::lemma_round_bound(tonnage as int, 10_000, 6_000_000_000_000_000_000);
        crate::fixed::lemma_round_bound(eff_packing as int, 1_000, 2_000_000);
        vstd::arithmetic::div_mod::lemma_div_pos_is_pos(
            (eff_packing + 500) as int,
            1_000,
        );
        assert(((eff_packing + 500) / 1_000) * 1_000 >= 0) by (nonlinear_arith)
            requires
                ((eff_packing + 500) as int) / 1_000 >= 0,
        ;
    }
    proof {
        if params.height == 0 {
            vstd::arithmetic::div_mod::lemma_div_of0(1_000_000);
            assert(v1 * 0 == 0);
            assert(v2 == 0);
            assert(0 * eff_l == 0);
            assert(v3 == 0);
            assert(0 * eff_w == 0);
            assert(volume == 0);
            assert(0 * density == 0);
            assert(t1 == 0);
            assert(0 * (eff_packing as int) == 0) by (nonlinear_arith);
            assert(tonnage == 0);
            assert(spec_round_to(0, 1_000) == 0);
            assert(spec_round_to(0, 10_000) == 0);
        }
    }
    r
}

/// How the image scale was established.
#[derive(Debug, Clone, Copy, PartialEq, Eq)]
pub enum ScaleMethod {
    /// Tailgate top and bottom span the known bed height.
    Tailgate,
    /// License plate of known physical height, anchored at the tailgate top.
    Plate,
    /// No usable reference: the trial carries no height.
    NoReference,
}

impl ScaleMethod {
    /// The tag recorded in audit logs for this method.
    pub fn as_str(&self) -> (r: &'static str)
        ensures
            (*self == ScaleMethod::Tailgate ==> r@ == "tailgate"@),
            (*self == ScaleMethod::Plate ==> r@ == "plate"@),
            (*self == ScaleMethod::NoReference ==> r@ == "none"@),
    {
        match self {
            ScaleMethod::Tailgate => "tailgate",
            ScaleMethod::Plate => "plate",
            ScaleMethod::NoReference => "none",
        }
    }
}

/// Height resolution from normalized image coordinates.
///
/// A tailgate observation is usable only if its bottom is positive and
/// below its top; a plate only if its normalized height exceeds the
/// configured minimum.  The tailgate is preferred; the result is clamped
/// into `[0, HEIGHT_CEILING]`.
pub open spec fn spec_height_from_geometry(
    repo: PromptSpec,
    tg_top: i64,
    tg_bot: i64,
    cargo_top: i64,
    plate_box: Option<PlateBox>,
    bed_height: i64,
) -> (int, ScaleMethod) {
    let c = repo.constants;
    let has_tailgate = tg_bot > 0 && tg_bot > tg_top;
    let plate_norm = match plate_box {
        Option::Some(pb) => pb.y1 - pb.y0,
        Option::None => 0,
    };
    let has_plate = plate_norm > c.plate_min_norm;
    if !has_plate && !has_tailgate {
        (0, ScaleMethod::NoReference)
    } else if has_tailgate {
        let h = spec_tdiv((tg_bot - cargo_top) * bed_height, tg_bot - tg_top);
        (spec_clamp(h, 0, HEIGHT_CEILING as int), ScaleMethod::Tailgate)
    } else {
        let h = bed_height + spec_tdiv((tg_top - cargo_top) * (c.plate_height_m as int), plate_norm);
        (spec_clamp(h, 0, HEIGHT_CEILING as int), ScaleMethod::Plate)
    }
}

/// Resolve a cargo height in meters from normalized observations, per
/// `spec_height_from_geometry`.  The returned height always lies in
/// `[0, HEIGHT_CEILING]`, and is zero when no reference was usable.
pub fn height_from_geometry(
    repo: &PromptSpec,
    tg_top: i64,
    tg_bot: i64,
    cargo_top: i64,
    plate_box: Option<PlateBox>,
    bed_height: i64,
) -> (r: (i64, ScaleMethod))
    requires
        spec_wf(*repo),
        -1_000_000_000_000 <= tg_top <= 1_000_000_000_000,
        -1_000_000_000_000 <= tg_bot <= 1_000_000_000_000,
        -1_000_000_000_000 <= cargo_top <= 1_000_000_000_000,
        -1_000_000_000_000 <= bed_height <= 1_000_000_000_000,
        (match plate_box {
            Option::Some(pb) => -1_000_000_000_000 <= pb.y0 <= 1_000_000_000_000
                && -1_000_000_000_000 <= pb.y1 <= 1_000_000_000_000,
            Option::None => true,
        }),
    ensures
        (r.0 as int, r.1) == spec_height_from_geometry(
            *repo,
            tg_top,
            tg_bot,
            cargo_top,
            plate_box,
            bed_height,
        ),
        0 <= r.0 <= HEIGHT_CEILING,
        r.1 == ScaleMethod::NoReference ==> r.0 == 0,
{
    let c = repo.constants;
    let has_tailgate = tg_bot > 0 && tg_bot > tg_top;
    let plate_norm: i64 = match plate_box {
        Option::Some(pb) => pb.y1 - pb.y0,
        Option::None => 0,
    };
    let has_plate = plate_norm > c.plate_min_norm;
    if !has_plate && !has_tailgate {
        (0, ScaleMethod::NoReference)
    } else if has_tailgate {
        proof {
            assert((tg_bot - cargo_top) * bed_height <= 2_000_000_000_000
                * 1_000_000_000_000int && (tg_bot - cargo_top) * bed_height >= -(2_000_000_000_000
                * 1_000_000_000_000int)) by (nonlinear_arith)
                requires
                    -2_000_000_000_000 <= tg_bot - cargo_top <= 2_000_000_000_000
                        && -1_000_000_000_000 <= bed_height <= 1_000_000_000_000,
            ;
        }
        let num = ((tg_bot - cargo_top) as i128) * (bed_height as i128);
        let h = tdiv_i128(num, (tg_bot - tg_top) as i128);
        (clamp_i128_to_i64(h, 0, HEIGHT_CEILING), ScaleMethod::Tailgate)
    } else {
        proof {
            assert((tg_top - cargo_top) * c.plate_height_m <= 2_000_000_000_000
                * 10_000_000int && (tg_top - cargo_top) * c.plate_height_m >= -(2_000_000_000_000
                * 10_000_000int)) by (nonlinear_arith)
                requires
                    -2_000_000_000_000 <= tg_top - cargo_top <= 2_000_000_000_000 && 0
                        <= c.plate_height_m <= 10_000_000,
            ;
        }
        let num = ((tg_top - cargo_top) as i128) * (c.plate_height_m as i128);
        let h = (bed_height as i128) + tdiv_i128(num, plate_norm as i128);
        (clamp_i128_to_i64(h, 0, HEIGHT_CEILING), ScaleMethod::Plate)
    }
}


/// Bed dimensions are nonnegative and bounded for a well-formed
/// repository.
pub proof fn lemma_bed_dims_bounds(repo: PromptSpec, truck_class: Option<Seq<char>>)
    requires
        spec_wf(repo),
    ensures
        0 < spec_bed_dims(repo, truck_class).0 <= 100_000_000,
        0 <= spec_bed_dims(repo, truck_class).1 <= 3_000_000_000,
{
    let found = match truck_class {
        Option::Some(cls) => spec_find_truck(repo.truck_specs@, cls),
        Option::None => None::<crate::repo::TruckSpec>,
    };
    match truck_class {
        Option::Some(cls) => {
            crate::repo::lemma_find_truck_wf(repo.truck_specs@, cls);
        },
        Option::None => {},
    }
    if found is None {
        crate::repo::lemma_find_truck_wf(repo.truck_specs@, "4t"@);
        let area0 = match spec_find_truck(repo.truck_specs@, "4t"@) {
            Option::Some(t) => (t.bed_length * t.bed_width) / 1_000_000,
            Option::None => 6_800_000int,
        };
        assert(0 <= area0 <= 10_000_000_000) by {
            match spec_find_truck(repo.truck_specs@, "4t"@) {
                Option::Some(t) => {
                    assert(0 <= t.bed_length * t.bed_width <= 10_000_000_000_000_000int)
                        by (nonlinear_arith)
                        requires
                            0 < t.bed_length <= 100_000_000 && 0 < t.bed_width <= 100_000_000,
                    ;
                    vstd::arithmetic::div_mod::lemma_div_pos_is_pos(
                        t.bed_length * t.bed_width,
                        1_000_000,
                    );
                    vstd::arithmetic::div_mod::lemma_div_is_ordered(
                        t.bed_length * t.bed_width,
                        10_000_000_000_000_000,
                        1_000_000,
                    );
                },
                Option::None => {},
            }
        }
        let area = spec_default_bed_area(repo) as int;
        assert(area == area0);
        vstd::arithmetic::div_mod::lemma_div_pos_is_pos(
            area * 1_000_000,
            FALLBACK_BED_LENGTH as int,
        );
        vstd::arithmetic::div_mod::lemma_div_is_ordered(
            area * 1_000_000,
            10_000_000_000_000_000,
            FALLBACK_BED_LENGTH as int,
        );
        assert(10_000_000_000_000_000int / 3_400_000int <= 3_000_000_000);
    }
}

/// Band for the raw volume, effective packing and tonnage of the
/// calculation, for in-band parameters over a well-formed repository.
pub proof fn lemma_core_raw_bounds(
    repo: PromptSpec,
    height: i64,
    fill_ratio_l: i64,
    fill_ratio_w: i64,
    taper_ratio: i64,
    packing_density: i64,
    material: Seq<char>,
    truck_class: Option<Seq<char>>,
)
    requires
        spec_wf(repo),
        -PARAM_LIMIT <= height <= PARAM_LIMIT,
        -PARAM_LIMIT <= fill_ratio_l <= PARAM_LIMIT,
        -PARAM_LIMIT <= fill_ratio_w <= PARAM_LIMIT,
        -PARAM_LIMIT <= taper_ratio <= PARAM_LIMIT,
        -PARAM_LIMIT <= packing_density <= PARAM_LIMIT,
    ensures
        ({
            let dims = spec_bed_dims(repo, truck_class);
            let c = repo.constants;
            let volume = spec_raw_volume(
                dims.0 as int,
                dims.1 as int,
                height as int,
                fill_ratio_l as int,
                fill_ratio_w as int,
                taper_ratio as int,
                c.bottom_fill as int,
            );
            let eff_packing = spec_raw_effective_packing(
                volume,
                packing_density as int,
                c.compression_factor as int,
                c.compression_ref_volume as int,
                c.effective_packing_min as int,
                c.effective_packing_max as int,
            );
            let d = spec_material_density(repo, material) as int;
            let tonnage = spec_fixmul(spec_fixmul(volume, d), eff_packing);
            &&& -3_000_000_000_000_000 <= volume <= 3_000_000_000_000_000
            &&& 0 <= eff_packing <= 2_000_000
            &&& -6_000_000_000_000_000_000 <= tonnage <= 6_000_000_000_000_000_000
        }),
{
    lemma_bed_dims_bounds(repo, truck_class);
    crate::repo::lemma_material_density_wf(repo, material);
    let dims = spec_bed_dims(repo, truck_class);
    let c = repo.constants;
    let bed_l = dims.0 as int;
    let bed_w = dims.1 as int;
    assert(fill_ratio_l * taper_ratio <= 100_000_000_000_000 && fill_ratio_l * taper_ratio
        >= -100_000_000_000_000) by (nonlinear_arith)
        requires
            -10_000_000 <= fill_ratio_l <= 10_000_000 && -10_000_000 <= taper_ratio <= 10_000_000,
    ;
    lemma_tdiv_bound(fill_ratio_l as int * taper_ratio as int, 100_000_000_000_000, 1_000_000);
    let eff_l = spec_fixmul(fill_ratio_l as int, taper_ratio as int);
    let eff_w = spec_tdiv(c.bottom_fill + fill_ratio_w, 2);
    lemma_tdiv_bound(c.bottom_fill + fill_ratio_w, 20_000_000, 2);
    assert(bed_l * bed_w <= 100_000_000 * 3_000_000_000int && bed_l * bed_w >= 0)
        by (nonlinear_arith)
        requires
            0 <= bed_l <= 100_000_000 && 0 <= bed_w <= 3_000_000_000,
    ;
    lemma_tdiv_bound(bed_l * bed_w, 300_000_000_000_000_000, 1_000_000);
    let v1 = spec_fixmul(bed_l, bed_w);
    assert(v1 * height <= 300_000_000_000 * 10_000_000int && v1 * height >= -(300_000_000_000
        * 10_000_000int)) by (nonlinear_arith)
        requires
            0 <= v1 <= 300_000_000_000 && -10_000_000 <= height <= 10_000_000,
    ;
    lemma_tdiv_bound(v1 * height as int, 3_000_000_000_000_000_000, 1_000_000);
    let v2 = spec_fixmul(v1, height as int);
    assert(v2 * eff_l <= 300_000_000_000_000_000_000int && v2 * eff_l
        >= -300_000_000_000_000_000_000int) by (nonlinear_arith)
        requires
            -3_000_000_000_000 <= v2 <= 3_000_000_000_000 && -100_000_000 <= eff_l <= 100_000_000,
    ;
    lemma_tdiv_bound(v2 * eff_l, 300_000_000_000_000_000_000, 1_000_000);
    let v3 = spec_fixmul(v2, eff_l);
    assert(v3 * eff_w <= 3_000_000_000_000_000_000_000int && v3 * eff_w
        >= -3_000_000_000_000_000_000_000int) by (nonlinear_arith)
        requires
            -300_000_000_000_000 <= v3 <= 300_000_000_000_000 && -10_000_000 <= eff_w <= 10_000_000,
    ;
    lemma_tdiv_bound(v3 * eff_w, 3_000_000_000_000_000_000_000, 1_000_000);
    let volume = spec_fixmul(v3, eff_w);
    let eff_packing = spec_raw_effective_packing(
        volume,
        packing_density as int,
        c.compression_factor as int,
        c.compression_ref_volume as int,
        c.effective_packing_min as int,
        c.effective_packing_max as int,
    );
    assert(0 <= eff_packing <= 2_000_000);
    let d = spec_material_density(repo, material) as int;
    assert(volume * d <= 3_000_000_000_000_000 * 1_000_000_000int && volume * d
        >= -(3_000_000_000_000_000 * 1_000_000_000int)) by (nonlinear_arith)
        requires
            -3_000_000_000_000_000 <= volume <= 3_000_000_000_000_000 && 0 <= d <= 1_000_000_000,
    ;
    lemma_tdiv_bound(volume * d, 3_000_000_000_000_000_000_000_000, 1_000_000);
    let t1 = spec_fixmul(volume, d);
    assert(t1 * eff_packing <= 3_000_000_000_000_000_000 * 2_000_000int && t1 * eff_packing >= -(
    3_000_000_000_000_000_000 * 2_000_000int)) by (nonlinear_arith)
        requires
            -3_000_000_000_000_000_000 <= t1 <= 3_000_000_000_000_000_000 && 0 <= eff_packing
                <= 2_000_000,
    ;
    lemma_tdiv_bound(t1 * eff_packing, 6_000_000_000_000_000_000_000_000, 1_000_000);
}

/// Monotonicity in material density: with everything else fixed, a
/// denser material never yields a lower tonnage, and volume and
/// effective packing do not change.  (The rounded tonnage is weakly
/// monotone: a density difference too small to survive the fixed-point
/// truncation and the final rounding leaves the output unchanged.)
pub proof fn lemma_tonnage_monotone_density(
    repo: PromptSpec,
    height: i64,
    fill_ratio_l: i64,
    fill_ratio_w: i64,
    taper_ratio: i64,
    packing_density: i64,
    m1: Seq<char>,
    m2: Seq<char>,
    truck_class: Option<Seq<char>>,
)
    requires
        spec_wf(repo),
        -PARAM_LIMIT <= height <= PARAM_LIMIT,
        -PARAM_LIMIT <= fill_ratio_l <= PARAM_LIMIT,
        -PARAM_LIMIT <= fill_ratio_w <= PARAM_LIMIT,
        -PARAM_LIMIT <= taper_ratio <= PARAM_LIMIT,
        -PARAM_LIMIT <= packing_density <= PARAM_LIMIT,
        spec_material_density(repo, m1) <= spec_material_density(repo, m2),
        spec_raw_volume(
            spec_bed_dims(repo, truck_class).0 as int,
            spec_bed_dims(repo, truck_class).1 as int,
            height as int,
            fill_ratio_l as int,
            fill_ratio_w as int,
            taper_ratio as int,
            repo.constants.bottom_fill as int,
        ) >= 0,
    ensures
        spec_calculate_core(
            repo,
            height,
            fill_ratio_l,
            fill_ratio_w,
            taper_ratio,
            packing_density,
            m1,
            truck_class,
        ).tonnage <= spec_calculate_core(
            repo,
            height,
            fill_ratio_l,
            fill_ratio_w,
            taper_ratio,
            packing_density,
            m2,
            truck_class,
        ).tonnage,
        spec_calculate_core(
            repo,
            height,
            fill_ratio_l,
            fill_ratio_w,
            taper_ratio,
            packing_density,
            m1,
            truck_class,
        ).volume == spec_calculate_core(
            repo,
            height,
            fill_ratio_l,
            fill_ratio_w,
            taper_ratio,
            packing_density,
            m2,
            truck_class,
        ).volume,
        spec_calculate_core(
            repo,
            height,
            fill_ratio_l,
            fill_ratio_w,
            taper_ratio,
            packing_density,
            m1,
            truck_class,
        ).effective_packing == spec_calculate_core(
            repo,
            height,
            fill_ratio_l,
            fill_ratio_w,
            taper_ratio,
            packing_density,
            m2,
            truck_class,
        ).effective_packing,
{
    let dims = spec_bed_dims(repo, truck_class);
    let c = repo.constants;
    let volume = spec_raw_volume(
        dims.0 as int,
        dims.1 as int,
        height as int,
        fill_ratio_l as int,
        fill_ratio_w as int,
        taper_ratio as int,
        c.bottom_fill as int,
    );
    let eff_packing = spec_raw_effective_packing(
        volume,
        packing_density as int,
        c.compression_factor as int,
        c.compression_ref_volume as int,
        c.effective_packing_min as int,
        c.effective_packing_max as int,
    );
    lemma_core_raw_bounds(
        repo,
        height,
        fill_ratio_l,
        fill_ratio_w,
        taper_ratio,
        packing_density,
        m1,
        truck_class,
    );
    lemma_core_raw_bounds(
        repo,
        height,
        fill_ratio_l,
        fill_ratio_w,
        taper_ratio,
        packing_density,
        m2,
        truck_class,
    );
    crate::fixed::lemma_round_bound(
        spec_fixmul(spec_fixmul(volume, spec_material_density(repo, m1) as int), eff_packing),
        10_000,
        6_000_000_000_000_000_000,
    );
    crate::fixed::lemma_round_bound(
        spec_fixmul(spec_fixmul(volume, spec_material_density(repo, m2) as int), eff_packing),
        10_000,
        6_000_000_000_000_000_000,
    );
    crate::repo::lemma_material_density_wf(repo, m1);
    crate::repo::lemma_material_density_wf(repo, m2);
    let d1 = spec_material_density(repo, m1) as int;
    let d2 = spec_material_density(repo, m2) as int;
    crate::fixed::lemma_fixmul_monotone_both(volume, volume, d1, d2);
    assert(0 <= eff_packing);
    crate::fixed::lemma_fixmul_monotone_both(
        spec_fixmul(volume, d1),
        spec_fixmul(volume, d2),
        eff_packing,
        eff_packing,
    );
    crate::fixed::lemma_round_monotone(
        spec_fixmul(spec_fixmul(volume, d1), eff_packing),
        spec_fixmul(spec_fixmul(volume, d2), eff_packing),
        10_000,
    );
}

/// Monotonicity in cargo height: with nonnegative fill terms and
/// everything else fixed, a greater height never yields a smaller
/// volume or a smaller tonnage.  (Weak monotonicity: a height
/// difference may vanish in truncation and rounding.)
pub proof fn lemma_tonnage_monotone_height(
    repo: PromptSpec,
    h1: i64,
    h2: i64,
    fill_ratio_l: i64,
    fill_ratio_w: i64,
    taper_ratio: i64,
    packing_density: i64,
    material: Seq<char>,
    truck_class: Option<Seq<char>>,
)
    requires
        spec_wf(repo),
        0 <= h1 <= h2 <= PARAM_LIMIT,
        0 <= fill_ratio_l <= PARAM_LIMIT,
        0 <= taper_ratio <= PARAM_LIMIT,
        -PARAM_LIMIT <= fill_ratio_w <= PARAM_LIMIT,
        0 <= repo.constants.bottom_fill + fill_ratio_w,
        0 <= packing_density <= PARAM_LIMIT,
    ensures
        spec_calculate_core(
            repo,
            h1,
            fill_ratio_l,
            fill_ratio_w,
            taper_ratio,
            packing_density,
            material,
            truck_class,
        ).volume <= spec_calculate_core(
            repo,
            h2,
            fill_ratio_l,
            fill_ratio_w,
            taper_ratio,
            packing_density,
            material,
            truck_class,
        ).volume,
        spec_calculate_core(
            repo,
            h1,
            fill_ratio_l,
            fill_ratio_w,
            taper_ratio,
            packing_density,
            material,
            truck_class,
        ).tonnage <= spec_calculate_core(
            repo,
            h2,
            fill_ratio_l,
            fill_ratio_w,
            taper_ratio,
            packing_density,
            material,
            truck_class,
        ).tonnage,
{
    lemma_core_raw_bounds(
        repo,
        h1,
        fill_ratio_l,
        fill_ratio_w,
        taper_ratio,
        packing_density,
        material,
        truck_class,
    );
    lemma_core_raw_bounds(
        repo,
        h2,
        fill_ratio_l,
        fill_ratio_w,
        taper_ratio,
        packing_density,
        material,
        truck_class,
    );
    lemma_bed_dims_bounds(repo, truck_class);
    let dims = spec_bed_dims(repo, truck_class);
    let c = repo.constants;
    let bed_l = dims.0 as int;
    let bed_w = dims.1 as int;
    let eff_l = spec_fixmul(fill_ratio_l as int, taper_ratio as int);
    let eff_w = spec_tdiv(c.bottom_fill + fill_ratio_w, 2);
    crate::fixed::lemma_fixmul_monotone_both(
        fill_ratio_l as int,
        fill_ratio_l as int,
        taper_ratio as int,
        taper_ratio as int,
    );
    vstd::arithmetic::div_mod::lemma_div_pos_is_pos(c.bottom_fill + fill_ratio_w, 2);
    let base = spec_fixmul(bed_l, bed_w);
    fixmul_nonneg(bed_l, bed_w);
    crate::fixed::lemma_fixmul_monotone_both(base, base, h1 as int, h2 as int);
    let v2a = spec_fixmul(base, h1 as int);
    let v2b = spec_fixmul(base, h2 as int);
    crate::fixed::lemma_fixmul_monotone_both(v2a, v2b, eff_l, eff_l);
    let v3a = spec_fixmul(v2a, eff_l);
    let v3b = spec_fixmul(v2b, eff_l);
    crate::fixed::lemma_fixmul_monotone_both(v3a, v3b, eff_w, eff_w);
    let va = spec_fixmul(v3a, eff_w);
    let vb = spec_fixmul(v3b, eff_w);
    crate::fixed::lemma_round_bound(va, 1_000, 3_000_000_000_000_000);
    crate::fixed::lemma_round_bound(vb, 1_000, 3_000_000_000_000_000);
    crate::fixed::lemma_round_monotone(va, vb, 1_000);
    // compression correction grows with volume, so effective packing does too
    crate::fixed::lemma_fixmul_monotone(va - c.compression_ref_volume, vb - c.compression_ref_volume, c.compression_factor as int);
    let cfa = 1_000_000 + spec_fixmul(c.compression_factor as int, va - c.compression_ref_volume);
    let cfb = 1_000_000 + spec_fixmul(c.compression_factor as int, vb - c.compression_ref_volume);
    crate::fixed::lemma_fixmul_monotone(cfa, cfb, packing_density as int);
    crate::fixed::lemma_clamp_monotone(
        spec_fixmul(packing_density as int, cfa),
        spec_fixmul(packing_density as int, cfb),
        c.effective_packing_min as int,
        c.effective_packing_max as int,
    );
    let pea = spec_raw_effective_packing(
        va,
        packing_density as int,
        c.compression_factor as int,
        c.compression_ref_volume as int,
        c.effective_packing_min as int,
        c.effective_packing_max as int,
    );
    let peb = spec_raw_effective_packing(
        vb,
        packing_density as int,
        c.compression_factor as int,
        c.compression_ref_volume as int,
        c.effective_packing_min as int,
        c.effective_packing_max as int,
    );
    assert(0 <= pea <= peb);
    crate::repo::lemma_material_density_wf(repo, material);
    let d = spec_material_density(repo, material) as int;
    crate::fixed::lemma_fixmul_monotone_both(va, vb, d, d);
    crate::fixed::lemma_fixmul_monotone_both(spec_fixmul(va, d), spec_fixmul(vb, d), pea, peb);
    crate::fixed::lemma_round_bound(
        spec_fixmul(spec_fixmul(va, d), pea),
        10_000,
        6_000_000_000_000_000_000,
    );
    crate::fixed::lemma_round_bound(
        spec_fixmul(spec_fixmul(vb, d), peb),
        10_000,
        6_000_000_000_000_000_000,
    );
    crate::fixed::lemma_round_monotone(
        spec_fixmul(spec_fixmul(va, d), pea),
        spec_fixmul(spec_fixmul(vb, d), peb),
        10_000,
    );
}

/// A fixed-point product of nonnegative values is nonnegative.
pub proof fn fixmul_nonneg(a: int, b: int)
    requires
        0 <= a,
        0 <= b,
    ensures
        0 <= spec_fixmul(a, b),
{
    assert(0 <= a * b) by (nonlinear_arith)
        requires
            a >= 0 && b >= 0,
    ;
    vstd::arithmetic::div_mod::lemma_div_pos_is_pos(a * b, MICRO as int);
}


/// Strict monotonicity in material density: when the density gap is
/// large enough that the pre-rounding tonnages differ by more than one
/// rounding grain, the reported tonnage strictly increases.  (For
/// smaller gaps the fixed-point truncation and the two-decimal rounding
/// can collapse the difference, so those inputs are excluded here.)
pub proof fn lemma_tonnage_strict_density(
    repo: PromptSpec,
    height: i64,
    fill_ratio_l: i64,
    fill_ratio_w: i64,
    taper_ratio: i64,
    packing_density: i64,
    m1: Seq<char>,
    m2: Seq<char>,
    truck_class: Option<Seq<char>>,
)
    requires
        spec_wf(repo),
        -PARAM_LIMIT <= height <= PARAM_LIMIT,
        -PARAM_LIMIT <= fill_ratio_l <= PARAM_LIMIT,
        -PARAM_LIMIT <= fill_ratio_w <= PARAM_LIMIT,
        -PARAM_LIMIT <= taper_ratio <= PARAM_LIMIT,
        -PARAM_LIMIT <= packing_density <= PARAM_LIMIT,
        ({
            let dims = spec_bed_dims(repo, truck_class);
            let c = repo.constants;
            let volume = spec_raw_volume(
                dims.0 as int,
                dims.1 as int,
                height as int,
                fill_ratio_l as int,
                fill_ratio_w as int,
                taper_ratio as int,
                c.bottom_fill as int,
            );
            let eff_packing = spec_raw_effective_packing(
                volume,
                packing_density as int,
                c.compression_factor as int,
                c.compression_ref_volume as int,
                c.effective_packing_min as int,
                c.effective_packing_max as int,
            );
            let d1 = spec_material_density(repo, m1) as int;
            let d2 = spec_material_density(repo, m2) as int;
            spec_fixmul(spec_fixmul(volume, d1), eff_packing) + 10_000 < spec_fixmul(
                spec_fixmul(volume, d2),
                eff_packing,
            )
        }),
    ensures
        spec_calculate_core(
            repo,
            height,
            fill_ratio_l,
            fill_ratio_w,
            taper_ratio,
            packing_density,
            m1,
            truck_class,
        ).tonnage < spec_calculate_core(
            repo,
            height,
            fill_ratio_l,
            fill_ratio_w,
            taper_ratio,
            packing_density,
            m2,
            truck_class,
        ).tonnage,
{
    let dims = spec_bed_dims(repo, truck_class);
    let c = repo.constants;
    let volume = spec_raw_volume(
        dims.0 as int,
        dims.1 as int,
        height as int,
        fill_ratio_l as int,
        fill_ratio_w as int,
        taper_ratio as int,
        c.bottom_fill as int,
    );
    let eff_packing = spec_raw_effective_packing(
        volume,
        packing_density as int,
        c.compression_factor as int,
        c.compression_ref_volume as int,
        c.effective_packing_min as int,
        c.effective_packing_max as int,
    );
    let d1 = spec_material_density(repo, m1) as int;
    let d2 = spec_material_density(repo, m2) as int;
    let t1 = spec_fixmul(spec_fixmul(volume, d1), eff_packing);
    let t2 = spec_fixmul(spec_fixmul(volume, d2), eff_packing);
    lemma_core_raw_bounds(
        repo,
        height,
        fill_ratio_l,
        fill_ratio_w,
        taper_ratio,
        packing_density,
        m1,
        truck_class,
    );
    lemma_core_raw_bounds(
        repo,
        height,
        fill_ratio_l,
        fill_ratio_w,
        taper_ratio,
        packing_density,
        m2,
        truck_class,
    );
    crate::fixed::lemma_round_close(t1, 10_000);
    crate::fixed::lemma_round_close(t2, 10_000);
    crate::fixed::lemma_round_bound(t1, 10_000, 6_000_000_000_000_000_000);
    crate::fixed::lemma_round_bound(t2, 10_000, 6_000_000_000_000_000_000);
}


/// Monotonicity of the resolver in the cargo-top observation: with a
/// usable tailgate reference, raising the cargo-top line (a larger
/// normalized coordinate is lower in the image) never increases the
/// resolved height.  (Weak monotonicity: truncation can collapse a
/// difference of less than one micro-unit per normalized unit.)
pub proof fn lemma_height_antitone_cargo_top(
    repo: PromptSpec,
    tg_top: i64,
    tg_bot: i64,
    c1: i64,
    c2: i64,
    plate_box: Option<PlateBox>,
    bed_height: i64,
)
    requires
        spec_wf(repo),
        tg_bot > 0 && tg_bot > tg_top,
        c1 <= c2,
        bed_height >= 0,
    ensures
        spec_height_from_geometry(repo, tg_top, tg_bot, c1, plate_box, bed_height).0
            >= spec_height_from_geometry(repo, tg_top, tg_bot, c2, plate_box, bed_height).0,
        spec_height_from_geometry(repo, tg_top, tg_bot, c1, plate_box, bed_height).1
            == ScaleMethod::Tailgate,
{
    let n1 = (tg_bot - c1) * bed_height;
    let n2 = (tg_bot - c2) * bed_height;
    assert((tg_bot - c2) * bed_height <= (tg_bot - c1) * bed_height) by (nonlinear_arith)
        requires
            c1 <= c2 && bed_height >= 0,
    ;
    crate::fixed::lemma_tdiv_monotone(n2, n1, tg_bot - tg_top);
    crate::fixed::lemma_clamp_monotone(
        spec_tdiv(n2, tg_bot - tg_top),
        spec_tdiv(n1, tg_bot - tg_top),
        0,
        HEIGHT_CEILING as int,
    );
}

} // verus!
