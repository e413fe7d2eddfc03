//! Parameter validation against the repository's declared ranges.
//!
//! Validation reports are advisory; clamping is always safe to apply, and
//! a clamped parameter set validates cleanly.

use vstd::prelude::*;
use crate::fixed::{spec_clamp, clamp_i64};
use crate::repo::{PromptSpec, Ranges, spec_wf};

verus! {

/// A validation error: the parameter name, the offending value and the
/// range it missed.
#[derive(Debug, Clone, PartialEq)]
pub struct ValidationError {
    pub field: String,
    pub value: i64,
    pub min: i64,
    pub max: i64,
    pub message: String,
}

/// Parameters to validate; a field that is not provided is skipped.
#[derive(Debug, Clone, PartialEq, Eq)]
pub struct EstimationParams {
    pub upper_area: Option<i64>,
    pub height: Option<i64>,
    pub slope: Option<i64>,
    pub fill_ratio_l: Option<i64>,
    pub fill_ratio_w: Option<i64>,
    pub fill_ratio_z: Option<i64>,
    pub packing_density: Option<i64>,
}

/// Whether a provided value misses `[min, max]`; boundary values are valid.
pub open spec fn spec_violates(v: Option<i64>, min: i64, max: i64) -> bool {
    match v {
        Option::Some(x) => x < min || x > max,
        Option::None => false,
    }
}

/// The violation summaries `validate_params` reports, in field order:
/// name, value, and the missed range.
pub open spec fn spec_violations(ranges: Ranges, p: EstimationParams) -> Seq<(Seq<char>, i64, i64, i64)> {
    let r0 = Seq::<(Seq<char>, i64, i64, i64)>::empty();
    let r1 = if spec_violates(p.upper_area, ranges.upper_area.min, ranges.upper_area.max) {
        r0 + seq![("upperArea"@, p.upper_area->Some_0, ranges.upper_area.min, ranges.upper_area.max)]
    } else {
        r0
    };
    let r2 = if spec_violates(p.height, ranges.height.min, ranges.height.max) {
        r1 + seq![("height"@, p.height->Some_0, ranges.height.min, ranges.height.max)]
    } else {
        r1
    };
    let r3 = if spec_violates(p.slope, ranges.slope.min, ranges.slope.max) {
        r2 + seq![("slope"@, p.slope->Some_0, ranges.slope.min, ranges.slope.max)]
    } else {
        r2
    };
    let r4 = if spec_violates(p.fill_ratio_l, ranges.fill_ratio_l.min, ranges.fill_ratio_l.max) {
        r3 + seq![("fillRatioL"@, p.fill_ratio_l->Some_0, ranges.fill_ratio_l.min, ranges.fill_ratio_l.max)]
    } else {
        r3
    };
    let r5 = if spec_violates(p.fill_ratio_w, ranges.fill_ratio_w.min, ranges.fill_ratio_w.max) {
        r4 + seq![("fillRatioW"@, p.fill_ratio_w->Some_0, ranges.fill_ratio_w.min, ranges.fill_ratio_w.max)]
    } else {
        r4
    };
    let r6 = if spec_violates(p.fill_ratio_z, ranges.fill_ratio_z.min, ranges.fill_ratio_z.max) {
        r5 + seq![("fillRatioZ"@, p.fill_ratio_z->Some_0, ranges.fill_ratio_z.min, ranges.fill_ratio_z.max)]
    } else {
        r5
    };
    let r7 = if spec_violates(p.packing_density, ranges.packing_density.min, ranges.packing_density.max) {
        r6 + seq![("packingDensity"@, p.packing_density->Some_0, ranges.packing_density.min, ranges.packing_density.max)]
    } else {
        r6
    };
    r7
}

/// The summary a `ValidationError` carries.
pub open spec fn spec_error_summary(e: ValidationError) -> (Seq<char>, i64, i64, i64) {
    (e.field@, e.value, e.min, e.max)
}

/// Push one violation entry.
fn push_violation(errors: &mut Vec<ValidationError>, field: &str, value: i64, min: i64, max: i64)
    ensures
        final(errors)@.len() == old(errors)@.len() + 1,
        final(errors)@.map_values(|e: ValidationError| spec_error_summary(e)) == old(
            errors,
        )@.map_values(|e: ValidationError| spec_error_summary(e)) + seq![(field@, value, min, max)],
{
    let e = ValidationError {
        field: String::from_str(field),
        value,
        min,
        max,
        message: String::from_str("範囲外"),
    };
    errors.push(e);
    proof {
        assert(errors@.map_values(|e2: ValidationError| spec_error_summary(e2)) =~= old(
            errors,
        )@.map_values(|e2: ValidationError| spec_error_summary(e2)) + seq![(field@, value, min, max)]);
    }
}

/// Validate every provided parameter against its declared range.
/// The returned list is empty exactly when every provided value lies in
/// its range; each entry names the field and carries value, min and max.
pub fn validate_params(repo: &PromptSpec, params: &EstimationParams) -> (r: Vec<ValidationError>)
    ensures
        r@.map_values(|e: ValidationError| spec_error_summary(e)) == spec_violations(
            repo.ranges,
            *params,
        ),
        r@.len() == spec_violations(repo.ranges, *params).len(),
{
    let ranges = &repo.ranges;
    let mut errors: Vec<ValidationError> = Vec::new();
    proof {
        assert(errors@.map_values(|e: ValidationError| spec_error_summary(e)) =~= Seq::<
            (Seq<char>, i64, i64, i64),
        >::empty());
    }
    if let Option::Some(v) = params.upper_area {
        if v < ranges.upper_area.min || v > ranges.upper_area.max {
            push_violation(&mut errors, "upperArea", v, ranges.upper_area.min, ranges.upper_area.max);
        }
    }
    if let Option::Some(v) = params.height {
        if v < ranges.height.min || v > ranges.height.max {
            push_violation(&mut errors, "height", v, ranges.height.min, ranges.height.max);
        }
    }
    if let Option::Some(v) = params.slope {
        if v < ranges.slope.min || v > ranges.slope.max {
            push_violation(&mut errors, "slope", v, ranges.slope.min, ranges.slope.max);
        }
    }
    if let Option::Some(v) = params.fill_ratio_l {
        if v < ranges.fill_ratio_l.min || v > ranges.fill_ratio_l.max {
            push_violation(
                &mut errors,
                "fillRatioL",
                v,
                ranges.fill_ratio_l.min,
                ranges.fill_ratio_l.max,
            );
        }
    }
    if let Option::Some(v) = params.fill_ratio_w {
        if v < ranges.fill_ratio_w.min || v > ranges.fill_ratio_w.max {
            push_violation(
                &mut errors,
                "fillRatioW",
                v,
                ranges.fill_ratio_w.min,
                ranges.fill_ratio_w.max,
            );
        }
    }
    if let Option::Some(v) = params.fill_ratio_z {
        if v < ranges.fill_ratio_z.min || v > ranges.fill_ratio_z.max {
            push_violation(
                &mut errors,
                "fillRatioZ",
                v,
                ranges.fill_ratio_z.min,
                ranges.fill_ratio_z.max,
            );
        }
    }
    if let Option::Some(v) = params.packing_density {
        if v < ranges.packing_density.min || v > ranges.packing_density.max {
            push_violation(
                &mut errors,
                "packingDensity",
                v,
                ranges.packing_density.min,
                ranges.packing_density.max,
            );
        }
    }
    errors
}

/// Clamp a value to a range.
pub fn clamp_to_range(value: i64, min: i64, max: i64) -> (r: i64)
    requires
        min <= max,
    ensures
        r == spec_clamp(value as int, min as int, max as int),
{
    clamp_i64(value, min, max)
}

/// A provided field clamped into a range; an absent field stays absent.
pub open spec fn spec_clamp_opt(v: Option<i64>, min: i64, max: i64) -> Option<i64> {
    match v {
        Option::Some(x) => Some(spec_clamp(x as int, min as int, max as int) as i64),
        Option::None => None,
    }
}

/// The fully clamped parameter set.
pub open spec fn spec_clamp_params(ranges: Ranges, p: EstimationParams) -> EstimationParams {
    EstimationParams {
        upper_area: spec_clamp_opt(p.upper_area, ranges.upper_area.min, ranges.upper_area.max),
        height: spec_clamp_opt(p.height, ranges.height.min, ranges.height.max),
        slope: spec_clamp_opt(p.slope, ranges.slope.min, ranges.slope.max),
        fill_ratio_l: spec_clamp_opt(p.fill_ratio_l, ranges.fill_ratio_l.min, ranges.fill_ratio_l.max),
        fill_ratio_w: spec_clamp_opt(p.fill_ratio_w, ranges.fill_ratio_w.min, ranges.fill_ratio_w.max),
        fill_ratio_z: spec_clamp_opt(p.fill_ratio_z, ranges.fill_ratio_z.min, ranges.fill_ratio_z.max),
        packing_density: spec_clamp_opt(
            p.packing_density,
            ranges.packing_density.min,
            ranges.packing_density.max,
        ),
    }
}

/// Clamp one optional field.
fn clamp_opt(v: Option<i64>, min: i64, max: i64) -> (r: Option<i64>)
    requires
        min <= max,
    ensures
        r == spec_clamp_opt(v, min, max),
{
    match v {
        Option::Some(x) => Some(clamp_i64(x, min, max)),
        Option::None => None,
    }
}

/// Clamp every provided parameter into its declared range.
pub fn clamp_params(repo: &PromptSpec, params: &EstimationParams) -> (r: EstimationParams)
    requires
        spec_wf(*repo),
    ensures
        r == spec_clamp_params(repo.ranges, *params),
{
    let ranges = &repo.ranges;
    EstimationParams {
        upper_area: clamp_opt(params.upper_area, ranges.upper_area.min, ranges.upper_area.max),
        height: clamp_opt(params.height, ranges.height.min, ranges.height.max),
        slope: clamp_opt(params.slope, ranges.slope.min, ranges.slope.max),
        fill_ratio_l: clamp_opt(params.fill_ratio_l, ranges.fill_ratio_l.min, ranges.fill_ratio_l.max),
        fill_ratio_w: clamp_opt(params.fill_ratio_w, ranges.fill_ratio_w.min, ranges.fill_ratio_w.max),
        fill_ratio_z: clamp_opt(params.fill_ratio_z, ranges.fill_ratio_z.min, ranges.fill_ratio_z.max),
        packing_density: clamp_opt(
            params.packing_density,
            ranges.packing_density.min,
            ranges.packing_density.max,
        ),
    }
}

/// Clamp correctness: a clamped parameter set reports no violations,
/// whatever the input was.
pub proof fn lemma_clamp_validates(ranges: Ranges, p: EstimationParams)
    requires
        ranges.upper_area.min <= ranges.upper_area.max,
        ranges.height.min <= ranges.height.max,
        ranges.slope.min <= ranges.slope.max,
        ranges.fill_ratio_l.min <= ranges.fill_ratio_l.max,
        ranges.fill_ratio_w.min <= ranges.fill_ratio_w.max,
        ranges.fill_ratio_z.min <= ranges.fill_ratio_z.max,
        ranges.packing_density.min <= ranges.packing_density.max,
    ensures
        spec_violations(ranges, spec_clamp_params(ranges, p)) =~= Seq::<
            (Seq<char>, i64, i64, i64),
        >::empty(),
{
}

} // verus!
