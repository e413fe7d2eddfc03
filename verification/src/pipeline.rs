//! The box-overlay analysis pipeline: ensemble geometry and fill
//! estimation over an abstract prompt-sending backend, aggregation, and
//! one tonnage calculation.
//!
//! Each trial's outcome is recorded in an audit log.  Whatever the
//! backend returned, the final result is a fixed function of the logged
//! raw replies, the configuration and the repository: the contract below
//! pins each log entry to its raw reply and the result to the logs.

use vstd::prelude::*;
use crate::fixed::{FIXED_SAT, spec_clamp, spec_round_to, clamp_i64, round_to};
use crate::repo::{PromptSpec, spec_wf, spec_find_truck, get_truck_spec};
use crate::parse::{
    ParseError, GeometryResponse, FillResponse, FillView, spec_geo_extract, spec_fill_extract,
    parse_geometry, parse_fill,
};
use crate::calculation::{
    CoreParams, ScaleMethod, HEIGHT_CEILING, spec_calculate_core, spec_height_from_geometry,
    calculate_tonnage, height_from_geometry,
};
use crate::stats::{
    spec_median, spec_average, spec_mode, spec_views_of, median, average, mode_string,
    lemma_median_bounds,
};

verus! {

/// Pipeline error.
#[derive(Debug)]
pub enum PipelineError {
    /// The backend failed to deliver a reply.
    AiError(String),
    /// A reply could not be parsed.
    ParseError(String),
    /// Every geometry trial failed.
    NoValidGeometry,
    /// Every fill trial failed.
    NoValidFill,
}

impl From<ParseError> for PipelineError {
    fn from(e: ParseError) -> (r: Self) {
        PipelineError::ParseError(e.message)
    }
}

impl vstd::std_specs::convert::FromSpecImpl<ParseError> for PipelineError {
    open spec fn obeys_from_spec() -> bool {
        true
    }

    open spec fn from_spec(e: ParseError) -> Self {
        PipelineError::ParseError(e.message)
    }
}

/// Trait for sending prompts to an AI model; implemented differently by
/// each front-end.  Nothing is assumed of a reply: the pipeline states
/// what holds whatever comes back.
pub trait AiBackend {
    /// Send a text prompt with image data and return the raw reply text.
    fn send_prompt(&self, prompt: &str, images: &[Vec<u8>]) -> Result<String, PipelineError>;
}

/// Configuration for a box-overlay analysis.
#[derive(Debug, Clone)]
pub struct BoxOverlayConfig {
    pub truck_class: String,
    pub material_type: String,
    /// Number of ensemble trials per round.
    pub ensemble_count: usize,
}

/// Outcome tag of one geometry trial.
#[derive(Debug, Clone, Copy, PartialEq, Eq)]
pub enum RunTag {
    /// Height resolved from the tailgate reference.
    Tailgate,
    /// Height resolved from the plate reference.
    Plate,
    /// Parsed, but no usable scale reference: no height contributed.
    NoReference,
    /// The reply could not be parsed.
    ParseFailure,
    /// The backend reported a transport failure.
    SendFailure,
}

impl RunTag {
    /// The tag as the audit log spells it.
    pub fn as_str(&self) -> (r: &'static str)
        ensures
            (*self == RunTag::Tailgate ==> r@ == "tailgate"@),
            (*self == RunTag::Plate ==> r@ == "plate"@),
            (*self == RunTag::NoReference ==> r@ == "none"@),
            (*self == RunTag::ParseFailure ==> r@ == "parse_error"@),
            (*self == RunTag::SendFailure ==> r@ == "error"@),
    {
        match self {
            RunTag::Tailgate => "tailgate",
            RunTag::Plate => "plate",
            RunTag::NoReference => "none",
            RunTag::ParseFailure => "parse_error",
            RunTag::SendFailure => "error",
        }
    }
}

/// Log of a single geometry trial.
#[derive(Debug, Clone)]
pub struct GeometryRunLog {
    pub raw_response: String,
    pub parsed: Option<GeometryResponse>,
    pub scale_method: RunTag,
    pub height_m: i64,
}

/// Mathematical image of a geometry trial log.
pub ghost struct GeoRunView {
    pub raw: Seq<char>,
    pub parsed: Option<GeometryResponse>,
    pub method: RunTag,
    pub height: i64,
}

impl View for GeometryRunLog {
    type V = GeoRunView;

    open spec fn view(&self) -> GeoRunView {
        GeoRunView {
            raw: self.raw_response@,
            parsed: self.parsed,
            method: self.scale_method,
            height: self.height_m,
        }
    }
}

/// Log of a single fill trial.
#[derive(Debug, Clone)]
pub struct FillRunLog {
    pub raw_response: String,
    pub parsed: Option<FillResponse>,
}

/// Mathematical image of a fill trial log.
pub ghost struct FillRunView {
    pub raw: Seq<char>,
    pub parsed: Option<FillView>,
}

impl View for FillRunLog {
    type V = FillRunView;

    open spec fn view(&self) -> FillRunView {
        FillRunView {
            raw: self.raw_response@,
            parsed: match self.parsed {
                Option::Some(ref f) => Some(f@),
                Option::None => None,
            },
        }
    }
}

/// Full result of a box-overlay analysis.
#[derive(Debug, Clone)]
pub struct BoxOverlayResult {
    pub height_m: i64,
    pub fill_ratio_l: i64,
    pub fill_ratio_w: i64,
    pub taper_ratio: i64,
    pub packing_density: i64,
    pub effective_packing: i64,
    pub volume: i64,
    pub tonnage: i64,
    pub density: i64,
    pub material_type: String,
    pub reasoning: String,
    pub geometry_runs: Vec<GeometryRunLog>,
    pub fill_runs: Vec<FillRunLog>,
}

/// Mathematical image of a full result.
pub ghost struct BoxOverlayView {
    pub height_m: i64,
    pub fill_ratio_l: i64,
    pub fill_ratio_w: i64,
    pub taper_ratio: i64,
    pub packing_density: i64,
    pub effective_packing: i64,
    pub volume: i64,
    pub tonnage: i64,
    pub density: i64,
    pub material_type: Seq<char>,
    pub reasoning: Seq<char>,
    pub geometry_runs: Seq<GeoRunView>,
    pub fill_runs: Seq<FillRunView>,
}

impl View for BoxOverlayResult {
    type V = BoxOverlayView;

    open spec fn view(&self) -> BoxOverlayView {
        BoxOverlayView {
            height_m: self.height_m,
            fill_ratio_l: self.fill_ratio_l,
            fill_ratio_w: self.fill_ratio_w,
            taper_ratio: self.taper_ratio,
            packing_density: self.packing_density,
            effective_packing: self.effective_packing,
            volume: self.volume,
            tonnage: self.tonnage,
            density: self.density,
            material_type: self.material_type@,
            reasoning: self.reasoning@,
            geometry_runs: self.geometry_runs@.map_values(|l: GeometryRunLog| l@),
            fill_runs: self.fill_runs@.map_values(|l: FillRunLog| l@),
        }
    }
}

/// Bed height used for a truck class; unknown classes take the default.
pub open spec fn spec_bed_height(repo: PromptSpec, truck_class: Seq<char>) -> i64 {
    match spec_find_truck(repo.truck_specs@, truck_class) {
        Option::Some(t) => t.bed_height,
        Option::None => 320_000,
    }
}

/// The log entry one geometry trial produces, as a function of whether
/// the send succeeded and of the raw reply text.
pub open spec fn spec_geo_trial(repo: PromptSpec, bed_height: i64, sent_ok: bool, raw: Seq<char>) -> GeoRunView {
    if !sent_ok {
        GeoRunView { raw: Seq::empty(), parsed: None, method: RunTag::SendFailure, height: 0 }
    } else {
        match spec_geo_extract(raw) {
            Result::Err(_) => GeoRunView {
                raw: raw,
                parsed: None,
                method: RunTag::ParseFailure,
                height: 0,
            },
            Result::Ok(g) => {
                if g.tailgate_top_y <= 0 {
                    GeoRunView { raw: raw, parsed: Some(g), method: RunTag::NoReference, height: 0 }
                } else {
                    let hm = spec_height_from_geometry(
                        repo,
                        g.tailgate_top_y,
                        g.tailgate_bottom_y,
                        g.cargo_top_y,
                        g.plate_box,
                        bed_height,
                    );
                    if hm.1 == ScaleMethod::NoReference {
                        GeoRunView {
                            raw: raw,
                            parsed: Some(g),
                            method: RunTag::NoReference,
                            height: 0,
                        }
                    } else if hm.1 == ScaleMethod::Tailgate {
                        GeoRunView {
                            raw: raw,
                            parsed: Some(g),
                            method: RunTag::Tailgate,
                            height: hm.0 as i64,
                        }
                    } else {
                        GeoRunView {
                            raw: raw,
                            parsed: Some(g),
                            method: RunTag::Plate,
                            height: hm.0 as i64,
                        }
                    }
                }
            },
        }
    }
}

/// A geometry log entry is exactly what its raw reply dictates.
pub open spec fn spec_geo_log_valid(repo: PromptSpec, bed_height: i64, lv: GeoRunView) -> bool {
    lv == spec_geo_trial(repo, bed_height, !(lv.method is SendFailure), lv.raw)
}

/// The log entry one fill trial produces.
pub open spec fn spec_fill_trial(sent_ok: bool, raw: Seq<char>) -> FillRunView {
    if !sent_ok {
        FillRunView { raw: Seq::empty(), parsed: None }
    } else {
        match spec_fill_extract(raw) {
            Result::Err(_) => FillRunView { raw: raw, parsed: None },
            Result::Ok(f) => FillRunView { raw: raw, parsed: Some(f) },
        }
    }
}

/// A fill log entry is exactly what its raw reply dictates: an entry
/// with no reply text stands for a transport failure, any other is the
/// outcome of extracting its raw text.
pub open spec fn spec_fill_log_valid(lv: FillRunView) -> bool {
    lv == spec_fill_trial(!(lv.parsed is None && lv.raw == Seq::<char>::empty()), lv.raw)
}

/// The height sample: the heights of the trials that resolved a scale.
pub open spec fn spec_heights(logs: Seq<GeoRunView>) -> Seq<i64>
    decreases logs.len(),
{
    if logs.len() == 0 {
        Seq::empty()
    } else {
        spec_heights(logs.drop_last()) + (if logs.last().method == RunTag::Tailgate
            || logs.last().method == RunTag::Plate {
            seq![logs.last().height]
        } else {
            Seq::<i64>::empty()
        })
    }
}

/// One scalar sample of the fill round, drawn from the parsed trials.
pub open spec fn spec_fill_sample(logs: Seq<FillRunView>, f: spec_fn(FillView) -> i64) -> Seq<i64>
    decreases logs.len(),
{
    if logs.len() == 0 {
        Seq::empty()
    } else {
        spec_fill_sample(logs.drop_last(), f) + (match logs.last().parsed {
            Option::Some(fv) => seq![f(fv)],
            Option::None => Seq::<i64>::empty(),
        })
    }
}

/// The material votes: non-empty, non-placeholder material names of the
/// parsed trials, in trial order.
pub open spec fn spec_votes(logs: Seq<FillRunView>) -> Seq<Seq<char>>
    decreases logs.len(),
{
    if logs.len() == 0 {
        Seq::empty()
    } else {
        spec_votes(logs.drop_last()) + (match logs.last().parsed {
            Option::Some(fv) => match fv.material_type {
                Option::Some(m) => if m.len() > 0 && m != "?"@ {
                    seq![m]
                } else {
                    Seq::<Seq<char>>::empty()
                },
                Option::None => Seq::<Seq<char>>::empty(),
            },
            Option::None => Seq::<Seq<char>>::empty(),
        })
    }
}

/// The reasoning text of the latest parsed trial that carried one;
/// empty when none did (last write wins).
pub open spec fn spec_last_reasoning(logs: Seq<FillRunView>) -> Seq<char>
    decreases logs.len(),
{
    if logs.len() == 0 {
        Seq::empty()
    } else {
        match logs.last().parsed {
            Option::Some(fv) => match fv.reasoning {
                Option::Some(r) => r,
                Option::None => spec_last_reasoning(logs.drop_last()),
            },
            Option::None => spec_last_reasoning(logs.drop_last()),
        }
    }
}

/// The combined scalar outcome of a successful pipeline run.
pub ghost struct CombinedView {
    pub height_m: i64,
    pub fill_ratio_l: i64,
    pub fill_ratio_w: i64,
    pub taper_ratio: i64,
    pub packing_density: i64,
    pub effective_packing: i64,
    pub volume: i64,
    pub tonnage: i64,
    pub density: i64,
    pub material_type: Seq<char>,
    pub reasoning: Seq<char>,
}

/// Combination of the two rounds: median height, clamped mean fills,
/// material mode (configured material when no trial voted), one tonnage
/// calculation, and the documented output rounding.  Fails when a round
/// produced no valid sample.
pub open spec fn spec_combine(
    repo: PromptSpec,
    truck_class: Seq<char>,
    material_default: Seq<char>,
    geo_logs: Seq<GeoRunView>,
    fill_logs: Seq<FillRunView>,
) -> Result<CombinedView, PipelineError> {
    let hs = spec_heights(geo_logs);
    if hs.len() == 0 {
        Err(PipelineError::NoValidGeometry)
    } else {
        let fl = spec_fill_sample(fill_logs, |f: FillView| f.fill_ratio_l);
        if fl.len() == 0 {
            Err(PipelineError::NoValidFill)
        } else {
            let fw = spec_fill_sample(fill_logs, |f: FillView| f.fill_ratio_w);
            let tp = spec_fill_sample(fill_logs, |f: FillView| f.taper_ratio);
            let pk = spec_fill_sample(fill_logs, |f: FillView| f.packing_density);
            let ranges = repo.ranges;
            let height = spec_median(hs);
            let fill_l = spec_clamp(
                spec_average(fl),
                ranges.fill_ratio_l.min as int,
                ranges.fill_ratio_l.max as int,
            ) as i64;
            let fill_w = spec_clamp(
                spec_average(fw),
                ranges.fill_ratio_w.min as int,
                ranges.fill_ratio_w.max as int,
            ) as i64;
            let taper = spec_clamp(
                spec_average(tp),
                ranges.taper_ratio.min as int,
                ranges.taper_ratio.max as int,
            ) as i64;
            let packing = spec_clamp(
                spec_average(pk),
                ranges.packing_density.min as int,
                ranges.packing_density.max as int,
            ) as i64;
            let material = match spec_mode(spec_votes(fill_logs)) {
                Option::Some(m) => m,
                Option::None => material_default,
            };
            let calc = spec_calculate_core(
                repo,
                height,
                fill_l,
                fill_w,
                taper,
                packing,
                material,
                Some(truck_class),
            );
            Ok(
                CombinedView {
                    height_m: spec_round_to(height as int, 1_000) as i64,
                    fill_ratio_l: spec_round_to(fill_l as int, 1_000) as i64,
                    fill_ratio_w: spec_round_to(fill_w as int, 1_000) as i64,
                    taper_ratio: spec_round_to(taper as int, 1_000) as i64,
                    packing_density: spec_round_to(calc.effective_packing as int, 1_000) as i64,
                    effective_packing: spec_round_to(calc.effective_packing as int, 1_000) as i64,
                    volume: spec_round_to(calc.volume as int, 100) as i64,
                    tonnage: spec_round_to(calc.tonnage as int, 10_000) as i64,
                    density: calc.density,
                    material_type: material,
                    reasoning: spec_last_reasoning(fill_logs),
                },
            )
        }
    }
}

/// The geometry log views of a log vector.
pub open spec fn spec_geo_views(v: Seq<GeometryRunLog>) -> Seq<GeoRunView> {
    v.map_values(|l: GeometryRunLog| l@)
}

/// The fill log views of a log vector.
pub open spec fn spec_fill_views(v: Seq<FillRunLog>) -> Seq<FillRunView> {
    v.map_values(|l: FillRunLog| l@)
}

/// Determinism of the pipeline: two runs whose trials delivered the same
/// raw replies, with transport failures in the same places, carry equal
/// logs and hence combine to the same result.
pub proof fn lemma_pipeline_deterministic(
    repo: PromptSpec,
    bed_height: i64,
    truck_class: Seq<char>,
    material_default: Seq<char>,
    g1: Seq<GeoRunView>,
    g2: Seq<GeoRunView>,
    f1: Seq<FillRunView>,
    f2: Seq<FillRunView>,
)
    requires
        g1.len() == g2.len(),
        forall|i: int| 0 <= i < g1.len() ==> spec_geo_log_valid(repo, bed_height, #[trigger] g1[i]),
        forall|i: int| 0 <= i < g2.len() ==> spec_geo_log_valid(repo, bed_height, #[trigger] g2[i]),
        forall|i: int|
            0 <= i < g1.len() ==> (#[trigger] g1[i]).raw == g2[i].raw && (g1[i].method
                is SendFailure <==> g2[i].method is SendFailure),
        f1.len() == f2.len(),
        forall|i: int| 0 <= i < f1.len() ==> spec_fill_log_valid(#[trigger] f1[i]),
        forall|i: int| 0 <= i < f2.len() ==> spec_fill_log_valid(#[trigger] f2[i]),
        forall|i: int| 0 <= i < f1.len() ==> (#[trigger] f1[i]).raw == f2[i].raw,
    ensures
        g1 =~= g2,
        f1 =~= f2,
        spec_combine(repo, truck_class, material_default, g1, f1) == spec_combine(
            repo,
            truck_class,
            material_default,
            g2,
            f2,
        ),
{
    assert forall|i: int| 0 <= i < g1.len() implies g1[i] == g2[i] by {
        assert(g1[i] == spec_geo_trial(repo, bed_height, !(g1[i].method is SendFailure), g1[i].raw));
        assert(g2[i] == spec_geo_trial(repo, bed_height, !(g2[i].method is SendFailure), g2[i].raw));
    }
    assert(spec_fill_extract(Seq::<char>::empty()).is_err()) by {
        assert(crate::json::spec_skip_ws(Seq::<char>::empty(), 0) == 0);
        assert(crate::parse::spec_fill_doc(Seq::<char>::empty()) is None);
        assert(crate::scan::spec_find_open(Seq::<char>::empty(), 0) is None);
    }
    assert forall|i: int| 0 <= i < f1.len() implies f1[i] == f2[i] by {
        assert(spec_fill_log_valid(f1[i]));
        assert(spec_fill_log_valid(f2[i]));
        if f1[i].raw == Seq::<char>::empty() {
            assert(f1[i] == spec_fill_trial(false, f1[i].raw) || f1[i] == spec_fill_trial(
                true,
                f1[i].raw,
            ));
            assert(spec_fill_trial(true, Seq::<char>::empty()) == spec_fill_trial(
                false,
                Seq::<char>::empty(),
            ));
        }
    }
    assert(g1 =~= g2);
    assert(f1 =~= f2);
}


/// Run the full box-overlay analysis pipeline: an ensemble of geometry
/// trials (median height), an ensemble of fill trials (clamped mean
/// ratios, material vote, last reasoning), and one tonnage calculation.
///
/// Whatever the backend returns, every audit log entry is the exact
/// outcome of its logged raw reply, and the result carried beside the
/// logs is `spec_combine` of them: the pipeline is a deterministic
/// function of the replies received.  It fails only when a whole round
/// produced no valid sample.
#[verifier::rlimit(100)]
pub fn analyze_box_overlay<B: AiBackend + ?Sized>(
    repo: &PromptSpec,
    backend: &B,
    images: &[Vec<u8>],
    config: &BoxOverlayConfig,
) -> (r: Result<BoxOverlayResult, PipelineError>)
    requires
        spec_wf(*repo),
    ensures
        (match r {
            Result::Ok(ref res) => {
                &&& res@.geometry_runs.len() == config.ensemble_count
                &&& res@.fill_runs.len() == config.ensemble_count
                &&& forall|i: int|
                    0 <= i < res@.geometry_runs.len() ==> spec_geo_log_valid(
                        *repo,
                        spec_bed_height(*repo, config.truck_class@),
                        #[trigger] res@.geometry_runs[i],
                    )
                &&& forall|i: int|
                    0 <= i < res@.fill_runs.len() ==> spec_fill_log_valid(
                        #[trigger] res@.fill_runs[i],
                    )
                &&& spec_combine(
                    *repo,
                    config.truck_class@,
                    config.material_type@,
                    res@.geometry_runs,
                    res@.fill_runs,
                ).is_ok()
                &&& {
                    let cv = spec_combine(
                        *repo,
                        config.truck_class@,
                        config.material_type@,
                        res@.geometry_runs,
                        res@.fill_runs,
                    )->Ok_0;
                    &&& res@.height_m == cv.height_m
                    &&& res@.fill_ratio_l == cv.fill_ratio_l
                    &&& res@.fill_ratio_w == cv.fill_ratio_w
                    &&& res@.taper_ratio == cv.taper_ratio
                    &&& res@.packing_density == cv.packing_density
                    &&& res@.effective_packing == cv.effective_packing
                    &&& res@.volume == cv.volume
                    &&& res@.tonnage == cv.tonnage
                    &&& res@.density == cv.density
                    &&& res@.material_type == cv.material_type
                    &&& res@.reasoning == cv.reasoning
                }
            },
            Result::Err(ref e) => e is NoValidGeometry || e is NoValidFill,
        }),
{
    let n = config.ensemble_count;
    let ghost tcls = config.truck_class@;
    let bed_height: i64 = match get_truck_spec(repo, config.truck_class.as_str()) {
        Option::Some(t) => {
            proof {
                crate::repo::lemma_find_truck_wf(repo.truck_specs@, tcls);
            }
            t.bed_height
        },
        Option::None => 320_000,
    };
    proof {
        assert(bed_height == spec_bed_height(*repo, tcls));
        assert(0 < bed_height <= 10_000_000);
    }

    // Geometry round: one trial per ensemble slot, heights collected
    // from the trials that resolved a scale reference.
    let mut height_list: Vec<i64> = Vec::new();
    let mut geometry_runs: Vec<GeometryRunLog> = Vec::new();
    let mut t: usize = 0;
    proof {
        assert(spec_geo_views(geometry_runs@) =~= Seq::<GeoRunView>::empty());
    }
    while t < n
        invariant
            t <= n,
            spec_wf(*repo),
            bed_height == spec_bed_height(*repo, tcls),
            0 < bed_height <= 10_000_000,
            geometry_runs@.len() == t,
            forall|j: int|
                0 <= j < t ==> spec_geo_log_valid(
                    *repo,
                    bed_height,
                    #[trigger] spec_geo_views(geometry_runs@)[j],
                ),
            height_list@ == spec_heights(spec_geo_views(geometry_runs@)),
            forall|j: int|
                0 <= j < height_list@.len() ==> 0 <= #[trigger] height_list@[j] <= HEIGHT_CEILING,
        decreases n - t,
    {
        let ghost views0 = spec_geo_views(geometry_runs@);
        let log: GeometryRunLog;
        match backend.send_prompt(repo.geometry_prompt.as_str(), images) {
            Result::Ok(response) => {
                match parse_geometry(response.as_str()) {
                    Result::Ok(geo) => {
                        if geo.tailgate_top_y <= 0 {
                            log = GeometryRunLog {
                                raw_response: response,
                                parsed: Some(geo),
                                scale_method: RunTag::NoReference,
                                height_m: 0,
                            };
                        } else {
                            let hm = height_from_geometry(
                                repo,
                                geo.tailgate_top_y,
                                geo.tailgate_bottom_y,
                                geo.cargo_top_y,
                                geo.plate_box,
                                bed_height,
                            );
                            match hm.1 {
                                ScaleMethod::NoReference => {
                                    log = GeometryRunLog {
                                        raw_response: response,
                                        parsed: Some(geo),
                                        scale_method: RunTag::NoReference,
                                        height_m: 0,
                                    };
                                },
                                ScaleMethod::Tailgate => {
                                    height_list.push(hm.0);
                                    log = GeometryRunLog {
                                        raw_response: response,
                                        parsed: Some(geo),
                                        scale_method: RunTag::Tailgate,
                                        height_m: hm.0,
                                    };
                                },
                                ScaleMethod::Plate => {
                                    height_list.push(hm.0);
                                    log = GeometryRunLog {
                                        raw_response: response,
                                        parsed: Some(geo),
                                        scale_method: RunTag::Plate,
                                        height_m: hm.0,
                                    };
                                },
                            }
                        }
                    },
                    Result::Err(_e) => {
                        log = GeometryRunLog {
                            raw_response: response,
                            parsed: None,
                            scale_method: RunTag::ParseFailure,
                            height_m: 0,
                        };
                    },
                }
            },
            Result::Err(_e) => {
                log = GeometryRunLog {
                    raw_response: String::new(),
                    parsed: None,
                    scale_method: RunTag::SendFailure,
                    height_m: 0,
                };
            },
        }
        proof {
            assert(spec_geo_log_valid(*repo, bed_height, log@));
        }
        geometry_runs.push(log);
        proof {
            let views1 = spec_geo_views(geometry_runs@);
            assert(views1 =~= views0.push(geometry_runs@.last()@));
            assert(views1.drop_last() =~= views0);
            assert(height_list@ == spec_heights(views1));
        }
        t = t + 1;
    }

    // Fill round: one trial per slot; parsed trials feed four scalar
    // samples, the material votes and the last reasoning text.
    let mut fill_l_list: Vec<i64> = Vec::new();
    let mut fill_w_list: Vec<i64> = Vec::new();
    let mut taper_list: Vec<i64> = Vec::new();
    let mut packing_list: Vec<i64> = Vec::new();
    let mut last_reasoning: String = String::new();
    let mut detected_materials: Vec<String> = Vec::new();
    let mut fill_runs: Vec<FillRunLog> = Vec::new();
    let mut t2: usize = 0;
    proof {
        assert(spec_fill_views(fill_runs@) =~= Seq::<FillRunView>::empty());
        assert(spec_views_of(detected_materials@) =~= Seq::<Seq<char>>::empty());
    }
    while t2 < n
        invariant
            t2 <= n,
            fill_runs@.len() == t2,
            forall|j: int|
                0 <= j < t2 ==> spec_fill_log_valid(#[trigger] spec_fill_views(fill_runs@)[j]),
            fill_l_list@ == spec_fill_sample(
                spec_fill_views(fill_runs@),
                |f: FillView| f.fill_ratio_l,
            ),
            fill_w_list@ == spec_fill_sample(
                spec_fill_views(fill_runs@),
                |f: FillView| f.fill_ratio_w,
            ),
            taper_list@ == spec_fill_sample(
                spec_fill_views(fill_runs@),
                |f: FillView| f.taper_ratio,
            ),
            packing_list@ == spec_fill_sample(
                spec_fill_views(fill_runs@),
                |f: FillView| f.packing_density,
            ),
            fill_w_list@.len() == fill_l_list@.len(),
            taper_list@.len() == fill_l_list@.len(),
            packing_list@.len() == fill_l_list@.len(),
            forall|j: int|
                0 <= j < fill_l_list@.len() ==> -FIXED_SAT <= #[trigger] fill_l_list@[j]
                    <= FIXED_SAT,
            forall|j: int|
                0 <= j < fill_w_list@.len() ==> -FIXED_SAT <= #[trigger] fill_w_list@[j]
                    <= FIXED_SAT,
            forall|j: int|
                0 <= j < taper_list@.len() ==> -FIXED_SAT <= #[trigger] taper_list@[j] <= FIXED_SAT,
            forall|j: int|
                0 <= j < packing_list@.len() ==> -FIXED_SAT <= #[trigger] packing_list@[j]
                    <= FIXED_SAT,
            spec_views_of(detected_materials@) == spec_votes(spec_fill_views(fill_runs@)),
            last_reasoning@ == spec_last_reasoning(spec_fill_views(fill_runs@)),
        decreases n - t2,
    {
        let ghost views0 = spec_fill_views(fill_runs@);
        let log: FillRunLog;
        match backend.send_prompt(repo.fill_prompt.as_str(), images) {
            Result::Ok(response) => {
                match parse_fill(response.as_str()) {
                    Result::Ok(fill) => {
                        fill_l_list.push(fill.fill_ratio_l);
                        fill_w_list.push(fill.fill_ratio_w);
                        taper_list.push(fill.taper_ratio);
                        packing_list.push(fill.packing_density);
                        match fill.material_type {
                            Option::Some(ref m) => {
                                let placeholder = String::from_str("?");
                                if m.as_str().unicode_len() > 0 && !(*m == placeholder) {
                                    detected_materials.push(m.clone());
                                }
                            },
                            Option::None => {},
                        }
                        match fill.reasoning {
                            Option::Some(ref rr) => {
                                last_reasoning = rr.clone();
                            },
                            Option::None => {},
                        }
                        log = FillRunLog { raw_response: response, parsed: Some(fill) };
                    },
                    Result::Err(_e) => {
                        log = FillRunLog { raw_response: response, parsed: None };
                    },
                }
            },
            Result::Err(_e) => {
                log = FillRunLog { raw_response: String::new(), parsed: None };
            },
        }
        proof {
            assert(spec_fill_log_valid(log@));
        }
        fill_runs.push(log);
        proof {
            let views1 = spec_fill_views(fill_runs@);
            assert(views1 =~= views0.push(fill_runs@.last()@));
            assert(views1.drop_last() =~= views0);
            assert(fill_l_list@ == spec_fill_sample(views1, |f: FillView| f.fill_ratio_l));
            assert(fill_w_list@ == spec_fill_sample(views1, |f: FillView| f.fill_ratio_w));
            assert(taper_list@ == spec_fill_sample(views1, |f: FillView| f.taper_ratio));
            assert(packing_list@ == spec_fill_sample(views1, |f: FillView| f.packing_density));
            assert(spec_views_of(detected_materials@) =~= spec_votes(views1));
            assert(last_reasoning@ == spec_last_reasoning(views1));
        }
        t2 = t2 + 1;
    }

    // A single valid trial per round is enough; none at all is terminal.
    if height_list.len() == 0 {
        return Err(PipelineError::NoValidGeometry);
    }
    if fill_l_list.len() == 0 {
        return Err(PipelineError::NoValidFill);
    }
    proof {
        lemma_median_bounds(height_list@, 0, HEIGHT_CEILING);
    }
    let height_m = median(height_list.as_slice());
    let ranges = &repo.ranges;
    let fill_l = clamp_i64(
        average(fill_l_list.as_slice()),
        ranges.fill_ratio_l.min,
        ranges.fill_ratio_l.max,
    );
    let fill_w = clamp_i64(
        average(fill_w_list.as_slice()),
        ranges.fill_ratio_w.min,
        ranges.fill_ratio_w.max,
    );
    let taper = clamp_i64(
        average(taper_list.as_slice()),
        ranges.taper_ratio.min,
        ranges.taper_ratio.max,
    );
    let packing = clamp_i64(
        average(packing_list.as_slice()),
        ranges.packing_density.min,
        ranges.packing_density.max,
    );
    let material_type: String = match mode_string(detected_materials.as_slice()) {
        Option::Some(m) => m,
        Option::None => config.material_type.clone(),
    };
    let params = CoreParams {
        height: height_m,
        fill_ratio_l: fill_l,
        fill_ratio_w: fill_w,
        taper_ratio: taper,
        packing_density: packing,
        material_type,
    };
    let calc = calculate_tonnage(repo, &params, Some(config.truck_class.as_str()));
    let result = BoxOverlayResult {
        height_m: round_to(height_m, 1_000),
        fill_ratio_l: round_to(fill_l, 1_000),
        fill_ratio_w: round_to(fill_w, 1_000),
        taper_ratio: round_to(taper, 1_000),
        packing_density: round_to(calc.effective_packing, 1_000),
        effective_packing: round_to(calc.effective_packing, 1_000),
        volume: round_to(calc.volume, 100),
        tonnage: round_to(calc.tonnage, 10_000),
        density: calc.density,
        material_type: params.material_type,
        reasoning: last_reasoning,
        geometry_runs,
        fill_runs,
    };
    Ok(result)
}

} // verus!
