//! AI response extraction and parsing.
//!
//! Recovers a single JSON object from free-form model output that may
//! carry surrounding prose or fenced code blocks, and reads it as a
//! geometry or fill response.  Missing optional fields take their
//! documented defaults; numbers are read as micro-unit fixed-point values.

use vstd::prelude::*;
use crate::fixed::FIXED_SAT;
use crate::text::{chars_of, chars_eq_str, chars_to_string};
use crate::scan::{spec_find_open, spec_scan_close, spec_candidate, find_open, scan_close};
use crate::number::{spec_parse_number, parse_number};
use crate::json::{
    spec_skip_ws, spec_str_body, spec_skip_value, spec_lit_null, skip_ws, parse_str_body,
    skip_value,
};

verus! {

/// Parse error, carrying a descriptive message.
#[derive(Debug, Clone)]
pub struct ParseError {
    pub message: String,
}

/// Why extraction of a JSON object from a reply failed.
#[derive(Debug, Clone, Copy, PartialEq, Eq)]
pub enum ExtractErr {
    /// The text holds no `{` at all.
    NoJson,
    /// Brace depth never returned to zero before the text ended.
    Incomplete,
    /// A candidate object was found but did not parse as the target.
    Unparsable,
}

/// License-plate bounding box in normalized image coordinates:
/// left, top, right, bottom.
#[derive(Debug, Clone, Copy, PartialEq, Eq)]
pub struct PlateBox {
    pub x0: i64,
    pub y0: i64,
    pub x1: i64,
    pub y1: i64,
}

/// Geometry detection response; all scalars in micro-units.
/// Fields absent from the reply default to zero (no plate box).
#[derive(Debug, Clone, PartialEq)]
pub struct GeometryResponse {
    pub plate_box: Option<PlateBox>,
    pub tailgate_top_y: i64,
    pub tailgate_bottom_y: i64,
    pub cargo_top_y: i64,
}

/// Fill estimation response; ratios in micro-units.
#[derive(Debug, Clone)]
pub struct FillResponse {
    pub fill_ratio_l: i64,
    pub fill_ratio_w: i64,
    pub taper_ratio: i64,
    pub packing_density: i64,
    pub material_type: Option<String>,
    pub reasoning: Option<String>,
}

/// Mathematical image of a `FillResponse`.
pub ghost struct FillView {
    pub fill_ratio_l: i64,
    pub fill_ratio_w: i64,
    pub taper_ratio: i64,
    pub packing_density: i64,
    pub material_type: Option<Seq<char>>,
    pub reasoning: Option<Seq<char>>,
}

impl View for FillResponse {
    type V = FillView;

    open spec fn view(&self) -> FillView {
        FillView {
            fill_ratio_l: self.fill_ratio_l,
            fill_ratio_w: self.fill_ratio_w,
            taper_ratio: self.taper_ratio,
            packing_density: self.packing_density,
            material_type: match self.material_type {
                Option::Some(ref m) => Some(m@),
                Option::None => None,
            },
            reasoning: match self.reasoning {
                Option::Some(ref r) => Some(r@),
                Option::None => None,
            },
        }
    }
}

/// Default longitudinal fill ratio.
pub const DEFAULT_FILL_L: i64 = 800_000;

/// Default width fill ratio.
pub const DEFAULT_FILL_W: i64 = 700_000;

/// Default taper ratio.
pub const DEFAULT_TAPER: i64 = 850_000;

/// Default packing density.
pub const DEFAULT_PACKING: i64 = 700_000;

/// Whether every scalar of a geometry response lies in the saturated
/// fixed-point band; true of everything the parser returns.
pub open spec fn spec_geo_bounded(g: GeometryResponse) -> bool {
    &&& -FIXED_SAT <= g.tailgate_top_y <= FIXED_SAT
    &&& -FIXED_SAT <= g.tailgate_bottom_y <= FIXED_SAT
    &&& -FIXED_SAT <= g.cargo_top_y <= FIXED_SAT
    &&& match g.plate_box {
        Option::Some(pb) => {
            &&& -FIXED_SAT <= pb.x0 <= FIXED_SAT
            &&& -FIXED_SAT <= pb.y0 <= FIXED_SAT
            &&& -FIXED_SAT <= pb.x1 <= FIXED_SAT
            &&& -FIXED_SAT <= pb.y1 <= FIXED_SAT
        },
        Option::None => true,
    }
}

/// Whether every scalar of a fill response lies in the saturated
/// fixed-point band; true of everything the parser returns.
pub open spec fn spec_fill_bounded(f: FillView) -> bool {
    &&& -FIXED_SAT <= f.fill_ratio_l <= FIXED_SAT
    &&& -FIXED_SAT <= f.fill_ratio_w <= FIXED_SAT
    &&& -FIXED_SAT <= f.taper_ratio <= FIXED_SAT
    &&& -FIXED_SAT <= f.packing_density <= FIXED_SAT
}

/// A scalar option within the band.
pub open spec fn spec_opt_bounded(v: Option<i64>) -> bool {
    match v {
        Option::Some(x) => -FIXED_SAT <= x <= FIXED_SAT,
        Option::None => true,
    }
}

/// Fields of a geometry object seen so far; `None` means not yet seen.
pub struct GeoAcc {
    pub plate_box: Option<Option<PlateBox>>,
    pub tailgate_top_y: Option<i64>,
    pub tailgate_bottom_y: Option<i64>,
    pub cargo_top_y: Option<i64>,
}

/// Fields of a fill object seen so far, at the specification level.
pub ghost struct FillAcc {
    pub fill_ratio_l: Option<i64>,
    pub fill_ratio_w: Option<i64>,
    pub taper_ratio: Option<i64>,
    pub packing_density: Option<i64>,
    pub material_type: Option<Option<Seq<char>>>,
    pub reasoning: Option<Option<Seq<char>>>,
}

/// Parse a plate box value: `null`, or an array of exactly four numbers.
pub open spec fn spec_parse_platebox(s: Seq<char>, k: int) -> Option<(Option<PlateBox>, int)> {
    if spec_lit_null(s, k) {
        Some((None::<PlateBox>, k + 4))
    } else if 0 <= k < s.len() && s[k] == '[' {
        let a0 = spec_skip_ws(s, k + 1);
        match spec_parse_number(s, a0) {
            Option::None => None,
            Option::Some((v0, e0)) => {
                let c0 = spec_skip_ws(s, e0);
                if !(c0 < s.len() && s[c0] == ',') {
                    None
                } else {
                    let a1 = spec_skip_ws(s, c0 + 1);
                    match spec_parse_number(s, a1) {
                        Option::None => None,
                        Option::Some((v1, e1)) => {
                            let c1 = spec_skip_ws(s, e1);
                            if !(c1 < s.len() && s[c1] == ',') {
                                None
                            } else {
                                let a2 = spec_skip_ws(s, c1 + 1);
                                match spec_parse_number(s, a2) {
                                    Option::None => None,
                                    Option::Some((v2, e2)) => {
                                        let c2 = spec_skip_ws(s, e2);
                                        if !(c2 < s.len() && s[c2] == ',') {
                                            None
                                        } else {
                                            let a3 = spec_skip_ws(s, c2 + 1);
                                            match spec_parse_number(s, a3) {
                                                Option::None => None,
                                                Option::Some((v3, e3)) => {
                                                    let c3 = spec_skip_ws(s, e3);
                                                    if !(c3 < s.len() && s[c3] == ']') {
                                                        None
                                                    } else {
                                                        Some(
                                                            (
                                                                Some(
                                                                    (PlateBox {
                                                                        x0: v0 as i64,
                                                                        y0: v1 as i64,
                                                                        x1: v2 as i64,
                                                                        y1: v3 as i64,
                                                                    }),
                                                                ),
                                                                c3 + 1,
                                                            ),
                                                        )
                                                    }
                                                },
                                            }
                                        }
                                    },
                                }
                            }
                        },
                    }
                }
            },
        }
    } else {
        None
    }
}

/// Run of geometry members starting at a key, ending at `}`.
pub open spec fn spec_geo_members(s: Seq<char>, i: int, acc: GeoAcc, fuel: nat) -> Option<
    (GeoAcc, int),
>
    decreases fuel,
{
    if fuel == 0 {
        None
    } else if !(0 <= i < s.len() && s[i] == '"') {
        None
    } else {
        match spec_str_body(s, i + 1) {
            Option::None => None,
            Option::Some((key, e1)) => {
                let j = spec_skip_ws(s, e1);
                if !(j < s.len() && s[j] == ':') {
                    None
                } else {
                    let k = spec_skip_ws(s, j + 1);
                    let parsed: Option<(GeoAcc, int)> = if key == "plateBox"@ {
                        if acc.plate_box is Some {
                            None
                        } else {
                            match spec_parse_platebox(s, k) {
                                Option::None => None,
                                Option::Some((pb, e2)) => Some(
                                    (GeoAcc { plate_box: Some(pb), ..acc }, e2),
                                ),
                            }
                        }
                    } else if key == "tailgateTopY"@ {
                        if acc.tailgate_top_y is Some {
                            None
                        } else {
                            match spec_parse_number(s, k) {
                                Option::None => None,
                                Option::Some((val, e2)) => Some(
                                    (GeoAcc { tailgate_top_y: Some(val as i64), ..acc }, e2),
                                ),
                            }
                        }
                    } else if key == "tailgateBottomY"@ {
                        if acc.tailgate_bottom_y is Some {
                            None
                        } else {
                            match spec_parse_number(s, k) {
                                Option::None => None,
                                Option::Some((val, e2)) => Some(
                                    (GeoAcc { tailgate_bottom_y: Some(val as i64), ..acc }, e2),
                                ),
                            }
                        }
                    } else if key == "cargoTopY"@ {
                        if acc.cargo_top_y is Some {
                            None
                        } else {
                            match spec_parse_number(s, k) {
                                Option::None => None,
                                Option::Some((val, e2)) => Some(
                                    (GeoAcc { cargo_top_y: Some(val as i64), ..acc }, e2),
                                ),
                            }
                        }
                    } else {
                        match spec_skip_value(s, k, (fuel - 1) as nat) {
                            Option::None => None,
                            Option::Some(e2) => Some((acc, e2)),
                        }
                    };
                    match parsed {
                        Option::None => None,
                        Option::Some((acc2, e2)) => {
                            let l = spec_skip_ws(s, e2);
                            if l < s.len() && s[l] == ',' {
                                spec_geo_members(s, spec_skip_ws(s, l + 1), acc2, (fuel - 1) as nat)
                            } else if l < s.len() && s[l] == '}' {
                                Some((acc2, l + 1))
                            } else {
                                None
                            }
                        },
                    }
                }
            },
        }
    }
}

/// Apply the documented defaults to unseen geometry fields.
pub open spec fn spec_geo_finish(acc: GeoAcc) -> GeometryResponse {
    GeometryResponse {
        plate_box: match acc.plate_box {
            Option::Some(pb) => pb,
            Option::None => None,
        },
        tailgate_top_y: match acc.tailgate_top_y {
            Option::Some(x) => x,
            Option::None => 0,
        },
        tailgate_bottom_y: match acc.tailgate_bottom_y {
            Option::Some(x) => x,
            Option::None => 0,
        },
        cargo_top_y: match acc.cargo_top_y {
            Option::Some(x) => x,
            Option::None => 0,
        },
    }
}

/// The empty geometry accumulator.
pub open spec fn spec_geo_acc0() -> GeoAcc {
    GeoAcc { plate_box: None, tailgate_top_y: None, tailgate_bottom_y: None, cargo_top_y: None }
}

/// Parse a whole text as a geometry object document: optional whitespace,
/// the object, optional whitespace, end of text.
pub open spec fn spec_geo_doc(s: Seq<char>) -> Option<GeometryResponse> {
    let j = spec_skip_ws(s, 0);
    if !(j < s.len() && s[j] == '{') {
        None
    } else {
        let st = spec_skip_ws(s, j + 1);
        if st < s.len() && s[st] == '}' {
            if spec_skip_ws(s, st + 1) == s.len() {
                Some(spec_geo_finish(spec_geo_acc0()))
            } else {
                None
            }
        } else {
            match spec_geo_members(s, st, spec_geo_acc0(), s.len() as nat) {
                Option::None => None,
                Option::Some((acc, e)) => {
                    if spec_skip_ws(s, e) == s.len() {
                        Some(spec_geo_finish(acc))
                    } else {
                        None
                    }
                },
            }
        }
    }
}

/// Extraction pipeline for a geometry reply: direct parse, then the
/// brace-scanned candidate.
pub open spec fn spec_geo_extract(s: Seq<char>) -> Result<GeometryResponse, ExtractErr> {
    match spec_geo_doc(s) {
        Option::Some(g) => Ok(g),
        Option::None => match spec_find_open(s, 0) {
            Option::None => Err(ExtractErr::NoJson),
            Option::Some(st) => match spec_scan_close(s, st, 0, false, false) {
                Option::None => Err(ExtractErr::Incomplete),
                Option::Some(e) => match spec_geo_doc(s.subrange(st, e + 1)) {
                    Option::Some(g) => Ok(g),
                    Option::None => Err(ExtractErr::Unparsable),
                },
            },
        },
    }
}

/// Parse the members of a geometry object, per `spec_geo_members`.
fn geo_members(v: &Vec<char>, i: usize, fuel: usize) -> (r: Option<(GeoAcc, usize)>)
    requires
        i <= v@.len(),
    ensures
        match r {
            Option::Some((acc, e)) => {
                &&& spec_geo_members(v@, i as int, spec_geo_acc0(), fuel as nat) == Some(
                    (acc, e as int),
                )
                &&& e <= v@.len()
                &&& spec_opt_bounded(acc.tailgate_top_y)
                &&& spec_opt_bounded(acc.tailgate_bottom_y)
                &&& spec_opt_bounded(acc.cargo_top_y)
                &&& match acc.plate_box {
                    Option::Some(Option::Some(pb)) => -FIXED_SAT <= pb.x0 <= FIXED_SAT && -FIXED_SAT
                        <= pb.y0 <= FIXED_SAT && -FIXED_SAT <= pb.x1 <= FIXED_SAT && -FIXED_SAT
                        <= pb.y1 <= FIXED_SAT,
                    _ => true,
                }
            },
            Option::None => spec_geo_members(v@, i as int, spec_geo_acc0(), fuel as nat).is_none(),
        },
{
    let ghost s = v@;
    let n = v.len();
    let mut acc = GeoAcc {
        plate_box: None,
        tailgate_top_y: None,
        tailgate_bottom_y: None,
        cargo_top_y: None,
    };
    let mut k: usize = i;
    let mut fl: usize = fuel;
    proof {
        assert(acc == spec_geo_acc0());
    }
    loop
        invariant
            k <= n,
            n == s.len(),
            s == v@,
            (match spec_geo_members(s, k as int, acc, fl as nat) {
                Option::Some((a2, e2)) => spec_geo_members(s, i as int, spec_geo_acc0(), fuel as nat)
                    == Some((a2, e2)),
                Option::None => spec_geo_members(s, i as int, spec_geo_acc0(), fuel as nat).is_none(),
            }),
            spec_opt_bounded(acc.tailgate_top_y),
            spec_opt_bounded(acc.tailgate_bottom_y),
            spec_opt_bounded(acc.cargo_top_y),
            (match acc.plate_box {
                Option::Some(Option::Some(pb)) => -FIXED_SAT <= pb.x0 <= FIXED_SAT && -FIXED_SAT
                    <= pb.y0 <= FIXED_SAT && -FIXED_SAT <= pb.x1 <= FIXED_SAT && -FIXED_SAT <= pb.y1
                    <= FIXED_SAT,
                _ => true,
            }),
        decreases fl,
    {
        if fl == 0 {
            return None;
        }
        if !(k < n && v[k] == '"') {
            return None;
        }
        let kb = match parse_str_body(v, k + 1) {
            Option::Some(p) => p,
            Option::None => {
                return None;
            },
        };
        let key = kb.0;
        let e1 = kb.1;
        let j = skip_ws(v, e1);
        if !(j < n && v[j] == ':') {
            return None;
        }
        let kk = skip_ws(v, j + 1);
        let step: (GeoAcc, usize);
        if chars_eq_str(&key, "plateBox") {
            if acc.plate_box.is_some() {
                return None;
            }
            match parse_platebox(v, kk) {
                Option::Some((pb, e2)) => {
                    step = (
                        GeoAcc {
                            plate_box: Some(pb),
                            tailgate_top_y: acc.tailgate_top_y,
                            tailgate_bottom_y: acc.tailgate_bottom_y,
                            cargo_top_y: acc.cargo_top_y,
                        },
                        e2,
                    );
                },
                Option::None => {
                    return None;
                },
            }
        } else if chars_eq_str(&key, "tailgateTopY") {
            if acc.tailgate_top_y.is_some() {
                return None;
            }
            match parse_number(v, kk) {
                Option::Some((val, e2)) => {
                    step = (
                        GeoAcc {
                            plate_box: acc.plate_box,
                            tailgate_top_y: Some(val),
                            tailgate_bottom_y: acc.tailgate_bottom_y,
                            cargo_top_y: acc.cargo_top_y,
                        },
                        e2,
                    );
                },
                Option::None => {
                    return None;
                },
            }
        } else if chars_eq_str(&key, "tailgateBottomY") {
            if acc.tailgate_bottom_y.is_some() {
                return None;
            }
            match parse_number(v, kk) {
                Option::Some((val, e2)) => {
                    step = (
                        GeoAcc {
                            plate_box: acc.plate_box,
                            tailgate_top_y: acc.tailgate_top_y,
                            tailgate_bottom_y: Some(val),
                            cargo_top_y: acc.cargo_top_y,
                        },
                        e2,
                    );
                },
                Option::None => {
                    return None;
                },
            }
        } else if chars_eq_str(&key, "cargoTopY") {
            if acc.cargo_top_y.is_some() {
                return None;
            }
            match parse_number(v, kk) {
                Option::Some((val, e2)) => {
                    step = (
                        GeoAcc {
                            plate_box: acc.plate_box,
                            tailgate_top_y: acc.tailgate_top_y,
                            tailgate_bottom_y: acc.tailgate_bottom_y,
                            cargo_top_y: Some(val),
                        },
                        e2,
                    );
                },
                Option::None => {
                    return None;
                },
            }
        } else {
            match skip_value(v, kk, fl - 1) {
                Option::Some(e2) => {
                    step = (
                        GeoAcc {
                            plate_box: acc.plate_box,
                            tailgate_top_y: acc.tailgate_top_y,
                            tailgate_bottom_y: acc.tailgate_bottom_y,
                            cargo_top_y: acc.cargo_top_y,
                        },
                        e2,
                    );
                },
                Option::None => {
                    return None;
                },
            }
        }
        let acc2 = step.0;
        let e2 = step.1;
        let l = skip_ws(v, e2);
        if l < n && v[l] == ',' {
            let m = skip_ws(v, l + 1);
            acc = acc2;
            k = m;
            fl = fl - 1;
        } else if l < n && v[l] == '}' {
            return Some((acc2, l + 1));
        } else {
            return None;
        }
    }
}

/// Parse a plate box value, per `spec_parse_platebox`.
fn parse_platebox(v: &Vec<char>, k: usize) -> (r: Option<(Option<PlateBox>, usize)>)
    requires
        k <= v@.len(),
    ensures
        match r {
            Option::Some((pb, e)) => {
                &&& spec_parse_platebox(v@, k as int) == Some((pb, e as int))
                &&& k < e <= v@.len()
                &&& match pb {
                    Option::Some(b) => -FIXED_SAT <= b.x0 <= FIXED_SAT && -FIXED_SAT <= b.y0
                        <= FIXED_SAT && -FIXED_SAT <= b.x1 <= FIXED_SAT && -FIXED_SAT <= b.y1
                        <= FIXED_SAT,
                    Option::None => true,
                }
            },
            Option::None => spec_parse_platebox(v@, k as int).is_none(),
        },
{
    let n = v.len();
    if k < n && v[k] == 'n' && n - k >= 4 && v[k + 1] == 'u' && v[k + 2] == 'l' && v[k + 3] == 'l' {
        return Some((None, k + 4));
    }
    proof {
        assert(!spec_lit_null(v@, k as int));
    }
    if !(k < n && v[k] == '[') {
        return None;
    }
    let a0 = skip_ws(v, k + 1);
    let (v0, e0) = match parse_number(v, a0) {
        Option::Some(p) => p,
        Option::None => {
            return None;
        },
    };
    let c0 = skip_ws(v, e0);
    if !(c0 < n && v[c0] == ',') {
        return None;
    }
    let a1 = skip_ws(v, c0 + 1);
    let (v1, e1) = match parse_number(v, a1) {
        Option::Some(p) => p,
        Option::None => {
            return None;
        },
    };
    let c1 = skip_ws(v, e1);
    if !(c1 < n && v[c1] == ',') {
        return None;
    }
    let a2 = skip_ws(v, c1 + 1);
    let (v2, e2) = match parse_number(v, a2) {
        Option::Some(p) => p,
        Option::None => {
            return None;
        },
    };
    let c2 = skip_ws(v, e2);
    if !(c2 < n && v[c2] == ',') {
        return None;
    }
    let a3 = skip_ws(v, c2 + 1);
    let (v3, e3) = match parse_number(v, a3) {
        Option::Some(p) => p,
        Option::None => {
            return None;
        },
    };
    let c3 = skip_ws(v, e3);
    if !(c3 < n && v[c3] == ']') {
        return None;
    }
    Some((Some(PlateBox { x0: v0, y0: v1, x1: v2, y1: v3 }), c3 + 1))
}

/// Parse a whole character vector as a geometry document, per `spec_geo_doc`.
fn geo_doc(v: &Vec<char>) -> (r: Option<GeometryResponse>)
    ensures
        match r {
            Option::Some(g) => spec_geo_doc(v@) == Some(g) && spec_geo_bounded(g),
            Option::None => spec_geo_doc(v@).is_none(),
        },
{
    let n = v.len();
    let j = skip_ws(v, 0);
    if !(j < n && v[j] == '{') {
        return None;
    }
    let st = skip_ws(v, j + 1);
    if st < n && v[st] == '}' {
        if skip_ws(v, st + 1) == n {
            return Some(
                GeometryResponse {
                    plate_box: None,
                    tailgate_top_y: 0,
                    tailgate_bottom_y: 0,
                    cargo_top_y: 0,
                },
            );
        } else {
            return None;
        }
    }
    match geo_members(v, st, n) {
        Option::None => None,
        Option::Some((acc, e)) => {
            if skip_ws(v, e) == n {
                Some(
                    GeometryResponse {
                        plate_box: match acc.plate_box {
                            Option::Some(pb) => pb,
                            Option::None => None,
                        },
                        tailgate_top_y: match acc.tailgate_top_y {
                            Option::Some(x) => x,
                            Option::None => 0,
                        },
                        tailgate_bottom_y: match acc.tailgate_bottom_y {
                            Option::Some(x) => x,
                            Option::None => 0,
                        },
                        cargo_top_y: match acc.cargo_top_y {
                            Option::Some(x) => x,
                            Option::None => 0,
                        },
                    },
                )
            } else {
                None
            }
        },
    }
}

/// The candidate object span of `v`: the characters from the first `{`
/// through the brace that closes it.
fn candidate_span(v: &Vec<char>) -> (r: Result<Vec<char>, ExtractErr>)
    ensures
        match r {
            Result::Ok(c) => exists|st: int, e: int|
                spec_candidate(v@) == Some((st, e)) && c@ == v@.subrange(st, e + 1),
            Result::Err(k) => {
                &&& spec_candidate(v@).is_none()
                &&& (k == ExtractErr::NoJson <==> spec_find_open(v@, 0).is_none())
                &&& (k == ExtractErr::NoJson || k == ExtractErr::Incomplete)
            },
        },
{
    let st = match find_open(v, 0) {
        Option::Some(st) => st,
        Option::None => {
            return Err(ExtractErr::NoJson);
        },
    };
    let e = match scan_close(v, st) {
        Option::Some(e) => e,
        Option::None => {
            return Err(ExtractErr::Incomplete);
        },
    };
    let n = v.len();
    let mut c: Vec<char> = Vec::new();
    let mut t: usize = st;
    while t <= e
        invariant
            st <= t <= e + 1,
            e < n,
            n == v@.len(),
            c@ == v@.subrange(st as int, t as int),
        decreases e + 1 - t,
    {
        c.push(v[t]);
        proof {
            assert(c@ =~= v@.subrange(st as int, t + 1 as int));
        }
        t = t + 1;
    }
    proof {
        assert(c@ == v@.subrange(st as int, e + 1 as int));
    }
    Ok(c)
}

/// Message for a failed direct parse where no `{` exists in the text.
pub open spec fn msg_no_json() -> Seq<char> {
    "JSONオブジェクトが見つかりません"@
}

/// Message for a brace depth that never returned to zero.
pub open spec fn msg_incomplete() -> Seq<char> {
    "不完全なJSONオブジェクト"@
}

/// Message for a candidate that still failed to parse.
pub open spec fn msg_unparsable() -> Seq<char> {
    "JSON抽出後もパース失敗"@
}

/// The message a failed extraction reports.
pub open spec fn spec_err_message(k: ExtractErr) -> Seq<char> {
    match k {
        ExtractErr::NoJson => msg_no_json(),
        ExtractErr::Incomplete => msg_incomplete(),
        ExtractErr::Unparsable => msg_unparsable(),
    }
}

/// Build the `ParseError` for an extraction failure.
fn make_err(k: ExtractErr) -> (r: ParseError)
    ensures
        r.message@ == spec_err_message(k),
{
    match k {
        ExtractErr::NoJson => ParseError {
            message: String::from_str("JSONオブジェクトが見つかりません"),
        },
        ExtractErr::Incomplete => ParseError {
            message: String::from_str("不完全なJSONオブジェクト"),
        },
        ExtractErr::Unparsable => ParseError {
            message: String::from_str("JSON抽出後もパース失敗"),
        },
    }
}

/// Parse a geometry detection reply.
///
/// The whole text is tried first; on failure the first brace-balanced
/// object is extracted and parsed.  Missing fields default to zero.
pub fn parse_geometry(text: &str) -> (r: Result<GeometryResponse, ParseError>)
    ensures
        match r {
            Result::Ok(g) => spec_geo_extract(text@) == Ok::<GeometryResponse, ExtractErr>(g)
                && spec_geo_bounded(g),
            Result::Err(pe) => {
                &&& spec_geo_extract(text@).is_err()
                &&& pe.message@ == spec_err_message(spec_geo_extract(text@)->Err_0)
            },
        },
{
    let v = chars_of(text);
    if let Option::Some(g) = geo_doc(&v) {
        return Ok(g);
    }
    match candidate_span(&v) {
        Result::Err(k) => Err(make_err(k)),
        Result::Ok(c) => match geo_doc(&c) {
            Option::Some(g) => Ok(g),
            Option::None => Err(make_err(ExtractErr::Unparsable)),
        },
    }
}

/// Parse a string-or-null member value: `Some(chars)` for a string,
/// `None` for `null`.
pub open spec fn spec_parse_strval(s: Seq<char>, k: int) -> Option<(Option<Seq<char>>, int)> {
    if spec_lit_null(s, k) {
        Some((None::<Seq<char>>, k + 4))
    } else if 0 <= k < s.len() && s[k] == '"' {
        match spec_str_body(s, k + 1) {
            Option::Some((t, e)) => Some((Some(t), e)),
            Option::None => None,
        }
    } else {
        None
    }
}

/// Run of fill members starting at a key, ending at `}`.
pub open spec fn spec_fill_members(s: Seq<char>, i: int, acc: FillAcc, fuel: nat) -> Option<
    (FillAcc, int),
>
    decreases fuel,
{
    if fuel == 0 {
        None
    } else if !(0 <= i < s.len() && s[i] == '"') {
        None
    } else {
        match spec_str_body(s, i + 1) {
            Option::None => None,
            Option::Some((key, e1)) => {
                let j = spec_skip_ws(s, e1);
                if !(j < s.len() && s[j] == ':') {
                    None
                } else {
                    let k = spec_skip_ws(s, j + 1);
                    let parsed: Option<(FillAcc, int)> = if key == "fillRatioL"@ {
                        if acc.fill_ratio_l is Some {
                            None
                        } else {
                            match spec_parse_number(s, k) {
                                Option::None => None,
                                Option::Some((val, e2)) => Some(
                                    (FillAcc { fill_ratio_l: Some(val as i64), ..acc }, e2),
                                ),
                            }
                        }
                    } else if key == "fillRatioW"@ {
                        if acc.fill_ratio_w is Some {
                            None
                        } else {
                            match spec_parse_number(s, k) {
                                Option::None => None,
                                Option::Some((val, e2)) => Some(
                                    (FillAcc { fill_ratio_w: Some(val as i64), ..acc }, e2),
                                ),
                            }
                        }
                    } else if key == "taperRatio"@ {
                        if acc.taper_ratio is Some {
                            None
                        } else {
                            match spec_parse_number(s, k) {
                                Option::None => None,
                                Option::Some((val, e2)) => Some(
                                    (FillAcc { taper_ratio: Some(val as i64), ..acc }, e2),
                                ),
                            }
                        }
                    } else if key == "packingDensity"@ {
                        if acc.packing_density is Some {
                            None
                        } else {
                            match spec_parse_number(s, k) {
                                Option::None => None,
                                Option::Some((val, e2)) => Some(
                                    (FillAcc { packing_density: Some(val as i64), ..acc }, e2),
                                ),
                            }
                        }
                    } else if key == "materialType"@ {
                        if acc.material_type is Some {
                            None
                        } else {
                            match spec_parse_strval(s, k) {
                                Option::None => None,
                                Option::Some((sv, e2)) => Some(
                                    (FillAcc { material_type: Some(sv), ..acc }, e2),
                                ),
                            }
                        }
                    } else if key == "reasoning"@ {
                        if acc.reasoning is Some {
                            None
                        } else {
                            match spec_parse_strval(s, k) {
                                Option::None => None,
                                Option::Some((sv, e2)) => Some(
                                    (FillAcc { reasoning: Some(sv), ..acc }, e2),
                                ),
                            }
                        }
                    } else {
                        match spec_skip_value(s, k, (fuel - 1) as nat) {
                            Option::None => None,
                            Option::Some(e2) => Some((acc, e2)),
                        }
                    };
                    match parsed {
                        Option::None => None,
                        Option::Some((acc2, e2)) => {
                            let l = spec_skip_ws(s, e2);
                            if l < s.len() && s[l] == ',' {
                                spec_fill_members(s, spec_skip_ws(s, l + 1), acc2, (fuel - 1) as nat)
                            } else if l < s.len() && s[l] == '}' {
                                Some((acc2, l + 1))
                            } else {
                                None
                            }
                        },
                    }
                }
            },
        }
    }
}

/// The empty fill accumulator.
pub open spec fn spec_fill_acc0() -> FillAcc {
    FillAcc {
        fill_ratio_l: None,
        fill_ratio_w: None,
        taper_ratio: None,
        packing_density: None,
        material_type: None,
        reasoning: None,
    }
}

/// Apply the documented defaults to unseen fill fields.
pub open spec fn spec_fill_finish(acc: FillAcc) -> FillView {
    FillView {
        fill_ratio_l: match acc.fill_ratio_l {
            Option::Some(x) => x,
            Option::None => DEFAULT_FILL_L,
        },
        fill_ratio_w: match acc.fill_ratio_w {
            Option::Some(x) => x,
            Option::None => DEFAULT_FILL_W,
        },
        taper_ratio: match acc.taper_ratio {
            Option::Some(x) => x,
            Option::None => DEFAULT_TAPER,
        },
        packing_density: match acc.packing_density {
            Option::Some(x) => x,
            Option::None => DEFAULT_PACKING,
        },
        material_type: match acc.material_type {
            Option::Some(sv) => sv,
            Option::None => None,
        },
        reasoning: match acc.reasoning {
            Option::Some(sv) => sv,
            Option::None => None,
        },
    }
}

/// Parse a whole text as a fill object document.
pub open spec fn spec_fill_doc(s: Seq<char>) -> Option<FillView> {
    let j = spec_skip_ws(s, 0);
    if !(j < s.len() && s[j] == '{') {
        None
    } else {
        let st = spec_skip_ws(s, j + 1);
        if st < s.len() && s[st] == '}' {
            if spec_skip_ws(s, st + 1) == s.len() {
                Some(spec_fill_finish(spec_fill_acc0()))
            } else {
                None
            }
        } else {
            match spec_fill_members(s, st, spec_fill_acc0(), s.len() as nat) {
                Option::None => None,
                Option::Some((acc, e)) => {
                    if spec_skip_ws(s, e) == s.len() {
                        Some(spec_fill_finish(acc))
                    } else {
                        None
                    }
                },
            }
        }
    }
}

/// Extraction pipeline for a fill reply.
pub open spec fn spec_fill_extract(s: Seq<char>) -> Result<FillView, ExtractErr> {
    match spec_fill_doc(s) {
        Option::Some(f) => Ok(f),
        Option::None => match spec_find_open(s, 0) {
            Option::None => Err(ExtractErr::NoJson),
            Option::Some(st) => match spec_scan_close(s, st, 0, false, false) {
                Option::None => Err(ExtractErr::Incomplete),
                Option::Some(e) => match spec_fill_doc(s.subrange(st, e + 1)) {
                    Option::Some(f) => Ok(f),
                    Option::None => Err(ExtractErr::Unparsable),
                },
            },
        },
    }
}

/// Fill accumulator carried by the executable member loop.
struct FillAccE {
    fill_ratio_l: Option<i64>,
    fill_ratio_w: Option<i64>,
    taper_ratio: Option<i64>,
    packing_density: Option<i64>,
    material_type: Option<Option<Vec<char>>>,
    reasoning: Option<Option<Vec<char>>>,
}

impl FillAccE {
    spec fn view_acc(&self) -> FillAcc {
        FillAcc {
            fill_ratio_l: self.fill_ratio_l,
            fill_ratio_w: self.fill_ratio_w,
            taper_ratio: self.taper_ratio,
            packing_density: self.packing_density,
            material_type: match self.material_type {
                Option::Some(Option::Some(ref v)) => Some(Some(v@)),
                Option::Some(Option::None) => Some(None),
                Option::None => None,
            },
            reasoning: match self.reasoning {
                Option::Some(Option::Some(ref v)) => Some(Some(v@)),
                Option::Some(Option::None) => Some(None),
                Option::None => None,
            },
        }
    }
}

/// Parse a string-or-null member value, per `spec_parse_strval`.
fn parse_strval(v: &Vec<char>, k: usize) -> (r: Option<(Option<Vec<char>>, usize)>)
    requires
        k <= v@.len(),
    ensures
        match r {
            Option::Some((sv, e)) => {
                &&& spec_parse_strval(v@, k as int) == Some(
                    (
                        match sv {
                            Option::Some(ref t) => Some(t@),
                            Option::None => None::<Seq<char>>,
                        },
                        e as int,
                    ),
                )
                &&& k < e <= v@.len()
            },
            Option::None => spec_parse_strval(v@, k as int).is_none(),
        },
{
    let n = v.len();
    if k < n && v[k] == 'n' && n - k >= 4 && v[k + 1] == 'u' && v[k + 2] == 'l' && v[k + 3] == 'l' {
        return Some((None, k + 4));
    }
    proof {
        assert(!spec_lit_null(v@, k as int));
    }
    if !(k < n && v[k] == '"') {
        return None;
    }
    match parse_str_body(v, k + 1) {
        Option::Some((t, e)) => Some((Some(t), e)),
        Option::None => None,
    }
}

/// Parse the members of a fill object, per `spec_fill_members`.
fn fill_members(v: &Vec<char>, i: usize, fuel: usize) -> (r: Option<(FillAccE, usize)>)
    requires
        i <= v@.len(),
    ensures
        match r {
            Option::Some((acc, e)) => {
                &&& spec_fill_members(v@, i as int, spec_fill_acc0(), fuel as nat) == Some(
                    (acc.view_acc(), e as int),
                )
                &&& e <= v@.len()
                &&& spec_opt_bounded(acc.fill_ratio_l)
                &&& spec_opt_bounded(acc.fill_ratio_w)
                &&& spec_opt_bounded(acc.taper_ratio)
                &&& spec_opt_bounded(acc.packing_density)
            },
            Option::None => spec_fill_members(v@, i as int, spec_fill_acc0(), fuel as nat).is_none(),
        },
{
    let ghost s = v@;
    let n = v.len();
    let mut acc = FillAccE {
        fill_ratio_l: None,
        fill_ratio_w: None,
        taper_ratio: None,
        packing_density: None,
        material_type: None,
        reasoning: None,
    };
    let mut k: usize = i;
    let mut fl: usize = fuel;
    proof {
        assert(acc.view_acc() == spec_fill_acc0());
    }
    loop
        invariant
            k <= n,
            n == s.len(),
            s == v@,
            (match spec_fill_members(s, k as int, acc.view_acc(), fl as nat) {
                Option::Some((a2, e2)) => spec_fill_members(
                    s,
                    i as int,
                    spec_fill_acc0(),
                    fuel as nat,
                ) == Some((a2, e2)),
                Option::None => spec_fill_members(
                    s,
                    i as int,
                    spec_fill_acc0(),
                    fuel as nat,
                ).is_none(),
            }),
            spec_opt_bounded(acc.fill_ratio_l),
            spec_opt_bounded(acc.fill_ratio_w),
            spec_opt_bounded(acc.taper_ratio),
            spec_opt_bounded(acc.packing_density),
        decreases fl,
    {
        if fl == 0 {
            return None;
        }
        if !(k < n && v[k] == '"') {
            return None;
        }
        let kb = match parse_str_body(v, k + 1) {
            Option::Some(p) => p,
            Option::None => {
                return None;
            },
        };
        let key = kb.0;
        let e1 = kb.1;
        let j = skip_ws(v, e1);
        if !(j < n && v[j] == ':') {
            return None;
        }
        let kk = skip_ws(v, j + 1);
        let e2: usize;
        if chars_eq_str(&key, "fillRatioL") {
            if acc.fill_ratio_l.is_some() {
                return None;
            }
            match parse_number(v, kk) {
                Option::Some((val, e)) => {
                    acc.fill_ratio_l = Some(val);
                    e2 = e;
                },
                Option::None => {
                    return None;
                },
            }
        } else if chars_eq_str(&key, "fillRatioW") {
            if acc.fill_ratio_w.is_some() {
                return None;
            }
            match parse_number(v, kk) {
                Option::Some((val, e)) => {
                    acc.fill_ratio_w = Some(val);
                    e2 = e;
                },
                Option::None => {
                    return None;
                },
            }
        } else if chars_eq_str(&key, "taperRatio") {
            if acc.taper_ratio.is_some() {
                return None;
            }
            match parse_number(v, kk) {
                Option::Some((val, e)) => {
                    acc.taper_ratio = Some(val);
                    e2 = e;
                },
                Option::None => {
                    return None;
                },
            }
        } else if chars_eq_str(&key, "packingDensity") {
            if acc.packing_density.is_some() {
                return None;
            }
            match parse_number(v, kk) {
                Option::Some((val, e)) => {
                    acc.packing_density = Some(val);
                    e2 = e;
                },
                Option::None => {
                    return None;
                },
            }
        } else if chars_eq_str(&key, "materialType") {
            if acc.material_type.is_some() {
                return None;
            }
            match parse_strval(v, kk) {
                Option::Some((sv, e)) => {
                    acc.material_type = Some(sv);
                    e2 = e;
                },
                Option::None => {
                    return None;
                },
            }
        } else if chars_eq_str(&key, "reasoning") {
            if acc.reasoning.is_some() {
                return None;
            }
            match parse_strval(v, kk) {
                Option::Some((sv, e)) => {
                    acc.reasoning = Some(sv);
                    e2 = e;
                },
                Option::None => {
                    return None;
                },
            }
        } else {
            match skip_value(v, kk, fl - 1) {
                Option::Some(e) => {
                    e2 = e;
                },
                Option::None => {
                    return None;
                },
            }
        }
        let l = skip_ws(v, e2);
        if l < n && v[l] == ',' {
            let m = skip_ws(v, l + 1);
            k = m;
            fl = fl - 1;
        } else if l < n && v[l] == '}' {
            return Some((acc, l + 1));
        } else {
            return None;
        }
    }
}

/// Turn the decoded optional characters of a string member into a `String`.
fn strval_to_string(sv: Option<Vec<char>>) -> (r: Option<String>)
    ensures
        (match r {
            Option::Some(ref t) => Some(t@),
            Option::None => None::<Seq<char>>,
        }) == (match sv {
            Option::Some(ref v) => Some(v@),
            Option::None => None::<Seq<char>>,
        }),
{
    match sv {
        Option::Some(v) => Some(chars_to_string(&v)),
        Option::None => None,
    }
}

/// Parse a whole character vector as a fill document, per `spec_fill_doc`.
fn fill_doc(v: &Vec<char>) -> (r: Option<FillResponse>)
    ensures
        match r {
            Option::Some(ref f) => spec_fill_doc(v@) == Some(f@) && spec_fill_bounded(f@),
            Option::None => spec_fill_doc(v@).is_none(),
        },
{
    let n = v.len();
    let j = skip_ws(v, 0);
    if !(j < n && v[j] == '{') {
        return None;
    }
    let st = skip_ws(v, j + 1);
    if st < n && v[st] == '}' {
        if skip_ws(v, st + 1) == n {
            return Some(
                FillResponse {
                    fill_ratio_l: DEFAULT_FILL_L,
                    fill_ratio_w: DEFAULT_FILL_W,
                    taper_ratio: DEFAULT_TAPER,
                    packing_density: DEFAULT_PACKING,
                    material_type: None,
                    reasoning: None,
                },
            );
        } else {
            return None;
        }
    }
    match fill_members(v, st, n) {
        Option::None => None,
        Option::Some((acc, e)) => {
            if skip_ws(v, e) == n {
                Some(
                    FillResponse {
                        fill_ratio_l: match acc.fill_ratio_l {
                            Option::Some(x) => x,
                            Option::None => DEFAULT_FILL_L,
                        },
                        fill_ratio_w: match acc.fill_ratio_w {
                            Option::Some(x) => x,
                            Option::None => DEFAULT_FILL_W,
                        },
                        taper_ratio: match acc.taper_ratio {
                            Option::Some(x) => x,
                            Option::None => DEFAULT_TAPER,
                        },
                        packing_density: match acc.packing_density {
                            Option::Some(x) => x,
                            Option::None => DEFAULT_PACKING,
                        },
                        material_type: match acc.material_type {
                            Option::Some(sv) => strval_to_string(sv),
                            Option::None => None,
                        },
                        reasoning: match acc.reasoning {
                            Option::Some(sv) => strval_to_string(sv),
                            Option::None => None,
                        },
                    },
                )
            } else {
                None
            }
        },
    }
}

/// Parse a fill estimation reply, with the same extraction pipeline as
/// `parse_geometry`.
pub fn parse_fill(text: &str) -> (r: Result<FillResponse, ParseError>)
    ensures
        match r {
            Result::Ok(ref f) => spec_fill_extract(text@) == Ok::<FillView, ExtractErr>(f@)
                && spec_fill_bounded(f@),
            Result::Err(ref pe) => {
                &&& spec_fill_extract(text@).is_err()
                &&& pe.message@ == spec_err_message(spec_fill_extract(text@)->Err_0)
            },
        },
{
    let v = chars_of(text);
    if let Option::Some(f) = fill_doc(&v) {
        return Ok(f);
    }
    match candidate_span(&v) {
        Result::Err(k) => Err(make_err(k)),
        Result::Ok(c) => match fill_doc(&c) {
            Option::Some(f) => Ok(f),
            Option::None => Err(make_err(ExtractErr::Unparsable)),
        },
    }
}

/// Whether a whole text is a JSON object document: optional whitespace,
/// one object, optional whitespace, end of text.
pub open spec fn spec_obj_doc_ok(s: Seq<char>) -> bool {
    let j = spec_skip_ws(s, 0);
    &&& j < s.len()
    &&& s[j] == '{'
    &&& match spec_skip_value(s, j, s.len() as nat) {
        Option::Some(e) => spec_skip_ws(s, e) == s.len(),
        Option::None => false,
    }
}

/// The text of the JSON object a reply carries: the whole reply if it is
/// one object, else the first brace-balanced candidate, checked.
pub open spec fn spec_json_safe(s: Seq<char>) -> Result<Seq<char>, ExtractErr> {
    if spec_obj_doc_ok(s) {
        Ok(s)
    } else {
        match spec_find_open(s, 0) {
            Option::None => Err(ExtractErr::NoJson),
            Option::Some(st) => match spec_scan_close(s, st, 0, false, false) {
                Option::None => Err(ExtractErr::Incomplete),
                Option::Some(e) => {
                    if spec_obj_doc_ok(s.subrange(st, e + 1)) {
                        Ok(s.subrange(st, e + 1))
                    } else {
                        Err(ExtractErr::Unparsable)
                    }
                },
            },
        }
    }
}

/// Check a whole character vector as an object document.
fn obj_doc_ok(v: &Vec<char>) -> (r: bool)
    ensures
        r == spec_obj_doc_ok(v@),
{
    let n = v.len();
    let j = skip_ws(v, 0);
    if !(j < n && v[j] == '{') {
        return false;
    }
    match skip_value(v, j, n) {
        Option::Some(e) => skip_ws(v, e) == n,
        Option::None => false,
    }
}

/// Extract the JSON object text of a reply.
///
/// The whole reply is accepted if it is one JSON object; otherwise the
/// first `{`-to-matching-`}` span is taken and checked.  Fails with a
/// descriptive message when no object can be recovered.
pub fn parse_json_safe(text: &str) -> (r: Result<String, ParseError>)
    ensures
        match r {
            Result::Ok(ref t) => spec_json_safe(text@) == Ok::<Seq<char>, ExtractErr>(t@),
            Result::Err(ref pe) => {
                &&& spec_json_safe(text@).is_err()
                &&& pe.message@ == spec_err_message(spec_json_safe(text@)->Err_0)
            },
        },
{
    let v = chars_of(text);
    if obj_doc_ok(&v) {
        return Ok(chars_to_string(&v));
    }
    match candidate_span(&v) {
        Result::Err(k) => Err(make_err(k)),
        Result::Ok(c) => {
            if obj_doc_ok(&c) {
                Ok(chars_to_string(&c))
            } else {
                Err(make_err(ExtractErr::Unparsable))
            }
        },
    }
}

} // verus!
