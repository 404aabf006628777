//! The capability-probing sweep.
//!
//! Given the decode service's answers — the codec identifiers it reports,
//! and per codec the surface formats it accepts — the sweep probes every
//! (codec, format, resolution) triple over a fixed resolution list, in
//! enumeration order, and records one outcome per triple.  The service
//! calls themselves happen outside the library; this module decides what
//! to probe, with which settings, and how the answers become outcomes.

use vstd::prelude::*;
use crate::config::DecoderConfig;
use crate::config::SURFACE_POOL_COUNT;
use crate::config::TILE_GRANULARITY;
use crate::config::accepts_raw_bitstream;
use crate::config::select_configuration;
use crate::config::surface_dimensions;
use crate::naming::CodecId;
use crate::naming::FormatCode;
use crate::naming::recognized_codec;
use crate::naming::codec_name;

verus! {

/// One (codec, format, resolution) triple to be probed; the width and
/// height are the requested sample size, not the rounded surface size.
#[derive(Clone, Copy, PartialEq, Eq, Structural, Debug)]
pub struct ProbeRequest {
    pub codec: CodecId,
    pub format: FormatCode,
    pub width: u32,
    pub height: u32,
}

/// A recognized codec together with the surface formats the decode service
/// reports as valid render targets for it.
pub struct CodecFormats {
    pub codec: CodecId,
    pub formats: Vec<FormatCode>,
}

/// How one probed triple ended.
#[derive(Clone, PartialEq, Eq, Debug)]
pub enum ProbeStatus {
    /// Decoder construction succeeded.
    Success,
    /// No enumerated decoder configuration had a usable raw-bitstream mode.
    NoUsableConfiguration,
    /// The driver rejected surface allocation or decoder construction, with
    /// its error's description.
    DriverRejected(String),
}

/// One recorded outcome: the probed triple and how it ended.  Outcomes are
/// append-only; the sweep never revises an earlier one.
#[derive(Clone, PartialEq, Eq, Debug)]
pub struct ProbeOutcome {
    pub codec: CodecId,
    pub format: FormatCode,
    pub width: u32,
    pub height: u32,
    pub status: ProbeStatus,
}

/// The settings a triple is attempted with once a configuration is
/// selected: the index of the chosen configuration, the tile-aligned
/// surface size, and the size of the decode-target pool.
#[derive(Clone, Copy, PartialEq, Eq, Structural, Debug)]
pub struct TripleSettings {
    pub selected_config: usize,
    pub surface_width: u32,
    pub surface_height: u32,
    pub surface_count: u32,
}

/// The fixed resolution list the sweep probes at: representative HD and
/// UHD working sizes.
pub fn probe_resolutions() -> (r: Vec<(u32, u32)>)
    ensures
        r@ == seq![(1920u32, 1080u32), (3840u32, 2160u32)],
{
    let mut r: Vec<(u32, u32)> = Vec::new();
    r.push((1920, 1080));
    r.push((3840, 2160));
    proof {
        assert(r@ =~= seq![(1920u32, 1080u32), (3840u32, 2160u32)]);
    }
    r
}

/// The reported codec identifiers that stand in the naming table, in
/// reported order; unknown identifiers are silently skipped.
pub open spec fn recognized_of(s: Seq<CodecId>) -> Seq<CodecId>
    decreases s.len(),
{
    if s.len() == 0 {
        Seq::empty()
    } else if recognized_codec(s.last()) {
        recognized_of(s.drop_last()).push(s.last())
    } else {
        recognized_of(s.drop_last())
    }
}

/// Filters the codec identifiers the service reported down to the
/// recognized ones, keeping the enumeration order.
pub fn recognized_codecs(reported: &Vec<CodecId>) -> (r: Vec<CodecId>)
    ensures
        r@ == recognized_of(reported@),
{
    let mut out: Vec<CodecId> = Vec::new();
    let mut i: usize = 0;
    while i < reported.len()
        invariant
            i <= reported@.len(),
            out@ == recognized_of(reported@.take(i as int)),
        decreases reported@.len() - i,
    {
        proof {
            assert(reported@.take(i + 1).drop_last() =~= reported@.take(i as int));
            assert(reported@.take(i + 1).last() == reported@[i as int]);
        }
        if codec_name(reported[i]).is_some() {
            out.push(reported[i]);
        }
        i += 1;
    }
    proof {
        assert(reported@.take(reported@.len() as int) =~= reported@);
    }
    out
}

/// The requests probing one (codec, format) pair over a resolution list, in
/// list order.
pub open spec fn resolution_requests(
    codec: CodecId,
    format: FormatCode,
    res: Seq<(u32, u32)>,
) -> Seq<ProbeRequest>
    decreases res.len(),
{
    if res.len() == 0 {
        Seq::empty()
    } else {
        resolution_requests(codec, format, res.drop_last()).push(
            ProbeRequest {
                codec,
                format,
                width: res.last().0,
                height: res.last().1,
            },
        )
    }
}

/// The requests probing one codec over its format list: formats in
/// enumeration order, each over the whole resolution list.
pub open spec fn format_requests(
    codec: CodecId,
    formats: Seq<FormatCode>,
    res: Seq<(u32, u32)>,
) -> Seq<ProbeRequest>
    decreases formats.len(),
{
    if formats.len() == 0 {
        Seq::empty()
    } else {
        format_requests(codec, formats.drop_last(), res) + resolution_requests(
            codec,
            formats.last(),
            res,
        )
    }
}

/// The whole sweep's requests: codecs in enumeration order, then formats,
/// then resolutions.
pub open spec fn plan_requests(menu: Seq<CodecFormats>, res: Seq<(u32, u32)>) -> Seq<ProbeRequest>
    decreases menu.len(),
{
    if menu.len() == 0 {
        Seq::empty()
    } else {
        plan_requests(menu.drop_last(), res) + format_requests(
            menu.last().codec,
            menu.last().formats@,
            res,
        )
    }
}

/// Builds the sweep's probe plan: the full cross product of each codec's
/// formats with the resolution list, in enumeration order.  A codec with no
/// formats contributes no request.
pub fn probe_plan(menu: &Vec<CodecFormats>, resolutions: &Vec<(u32, u32)>) -> (r: Vec<ProbeRequest>)
    ensures
        r@ == plan_requests(menu@, resolutions@),
{
    let mut out: Vec<ProbeRequest> = Vec::new();
    let mut i: usize = 0;
    while i < menu.len()
        invariant
            i <= menu@.len(),
            out@ == plan_requests(menu@.take(i as int), resolutions@),
        decreases menu@.len() - i,
    {
        let mut j: usize = 0;
        while j < menu[i].formats.len()
            invariant
                i < menu@.len(),
                j <= menu@[i as int].formats@.len(),
                out@ == plan_requests(menu@.take(i as int), resolutions@) + format_requests(
                    menu@[i as int].codec,
                    menu@[i as int].formats@.take(j as int),
                    resolutions@,
                ),
            decreases menu@[i as int].formats@.len() - j,
        {
            let mut k: usize = 0;
            while k < resolutions.len()
                invariant
                    i < menu@.len(),
                    j < menu@[i as int].formats@.len(),
                    k <= resolutions@.len(),
                    out@ == plan_requests(menu@.take(i as int), resolutions@) + format_requests(
                        menu@[i as int].codec,
                        menu@[i as int].formats@.take(j as int),
                        resolutions@,
                    ) + resolution_requests(
                        menu@[i as int].codec,
                        menu@[i as int].formats@[j as int],
                        resolutions@.take(k as int),
                    ),
                decreases resolutions@.len() - k,
            {
                let req = ProbeRequest {
                    codec: menu[i].codec,
                    format: menu[i].formats[j],
                    width: resolutions[k].0,
                    height: resolutions[k].1,
                };
                out.push(req);
                proof {
                    assert(resolutions@.take(k + 1).drop_last() =~= resolutions@.take(k as int));
                    assert(resolutions@.take(k + 1).last() == resolutions@[k as int]);
                    assert(out@ =~= plan_requests(menu@.take(i as int), resolutions@)
                        + format_requests(
                        menu@[i as int].codec,
                        menu@[i as int].formats@.take(j as int),
                        resolutions@,
                    ) + resolution_requests(
                        menu@[i as int].codec,
                        menu@[i as int].formats@[j as int],
                        resolutions@.take(k + 1),
                    ));
                }
                k += 1;
            }
            proof {
                let fmts = menu@[i as int].formats@;
                assert(resolutions@.take(resolutions@.len() as int) =~= resolutions@);
                assert(fmts.take(j + 1).drop_last() =~= fmts.take(j as int));
                assert(fmts.take(j + 1).last() == fmts[j as int]);
                assert(out@ =~= plan_requests(menu@.take(i as int), resolutions@)
                    + format_requests(menu@[i as int].codec, fmts.take(j + 1), resolutions@));
            }
            j += 1;
        }
        proof {
            let fmts = menu@[i as int].formats@;
            assert(fmts.take(fmts.len() as int) =~= fmts);
            assert(menu@.take(i + 1).drop_last() =~= menu@.take(i as int));
            assert(menu@.take(i + 1).last() == menu@[i as int]);
        }
        i += 1;
    }
    proof {
        assert(menu@.take(menu@.len() as int) =~= menu@);
    }
    out
}

/// Number of requests the plan owes an adapter: for each codec, its format
/// count times the resolution count.
pub open spec fn planned_count(menu: Seq<CodecFormats>, res_count: int) -> int
    decreases menu.len(),
{
    if menu.len() == 0 {
        0
    } else {
        planned_count(menu.drop_last(), res_count) + menu.last().formats@.len() * res_count
    }
}

proof fn lemma_resolution_requests_len(codec: CodecId, format: FormatCode, res: Seq<(u32, u32)>)
    ensures
        resolution_requests(codec, format, res).len() == res.len(),
    decreases res.len(),
{
    if res.len() > 0 {
        lemma_resolution_requests_len(codec, format, res.drop_last());
    }
}

proof fn lemma_format_requests_len(codec: CodecId, formats: Seq<FormatCode>, res: Seq<(u32, u32)>)
    ensures
        format_requests(codec, formats, res).len() == formats.len() * res.len(),
    decreases formats.len(),
{
    if formats.len() > 0 {
        lemma_format_requests_len(codec, formats.drop_last(), res);
        lemma_resolution_requests_len(codec, formats.last(), res);
        assert((formats.len() - 1) * res.len() + res.len() == formats.len() * res.len())
            by (nonlinear_arith);
    }
}

/// Law (completeness): the sweep plans exactly one request per triple — the
/// plan's length is the sum over the codecs of (format count × resolution
/// count); no triple is skipped or duplicated.
pub proof fn lemma_plan_complete(menu: Seq<CodecFormats>, res: Seq<(u32, u32)>)
    ensures
        plan_requests(menu, res).len() == planned_count(menu, res.len() as int),
    decreases menu.len(),
{
    if menu.len() > 0 {
        lemma_plan_complete(menu.drop_last(), res);
        lemma_format_requests_len(menu.last().codec, menu.last().formats@, res);
    }
}

/// Law (completeness, outcomes): with one status per planned request, an
/// adapter's recorded outcome count equals that same sum — every planned
/// triple is recorded exactly once.
pub proof fn lemma_outcome_count(
    menu: Seq<CodecFormats>,
    res: Seq<(u32, u32)>,
    statuses: Seq<ProbeStatus>,
)
    requires
        statuses.len() == plan_requests(menu, res).len(),
    ensures
        outcomes_of(plan_requests(menu, res), statuses).len() == planned_count(
            menu,
            res.len() as int,
        ),
{
    lemma_plan_complete(menu, res);
}

/// The outcome recorded for one request, given how its attempt ended.
pub open spec fn outcome_of(req: ProbeRequest, status: ProbeStatus) -> ProbeOutcome {
    ProbeOutcome {
        codec: req.codec,
        format: req.format,
        width: req.width,
        height: req.height,
        status,
    }
}

/// The outcomes of a whole sweep: the i-th outcome pairs the i-th request
/// with the i-th status.
pub open spec fn outcomes_of(plan: Seq<ProbeRequest>, statuses: Seq<ProbeStatus>) -> Seq<
    ProbeOutcome,
> {
    Seq::new(plan.len(), |i: int| outcome_of(plan[i], statuses[i]))
}

/// Pairs each planned request with the status its attempt ended in,
/// yielding the adapter's outcome sequence in plan order.
pub fn record_outcomes(plan: &Vec<ProbeRequest>, statuses: Vec<ProbeStatus>) -> (r: Vec<
    ProbeOutcome,
>)
    requires
        plan@.len() == statuses@.len(),
    ensures
        r@ == outcomes_of(plan@, statuses@),
{
    let ghost all = statuses@;
    let mut rest = statuses;
    let mut out: Vec<ProbeOutcome> = Vec::new();
    let mut i: usize = 0;
    while i < plan.len()
        invariant
            plan@.len() == all.len(),
            i <= plan@.len(),
            rest@ == all.subrange(i as int, all.len() as int),
            out@.len() == i,
            forall|t: int| 0 <= t < i ==> out@[t] == outcome_of(plan@[t], all[t]),
        decreases plan@.len() - i,
    {
        let status = rest.remove(0);
        proof {
            assert(status == all[i as int]);
            assert(rest@ =~= all.subrange(i + 1, all.len() as int));
        }
        let req = plan[i];
        out.push(
            ProbeOutcome {
                codec: req.codec,
                format: req.format,
                width: req.width,
                height: req.height,
                status,
            },
        );
        i += 1;
    }
    proof {
        assert(out@ =~= outcomes_of(plan@, all));
    }
    out
}

/// Law (determinism): the plan and its outcomes are functions of the
/// service's enumeration answers alone — probing the same adapter and
/// driver state twice, with the same answers, yields the identical request
/// and outcome sequences, in the same order.
pub proof fn lemma_probe_deterministic(
    menu1: Seq<CodecFormats>,
    menu2: Seq<CodecFormats>,
    res1: Seq<(u32, u32)>,
    res2: Seq<(u32, u32)>,
    statuses1: Seq<ProbeStatus>,
    statuses2: Seq<ProbeStatus>,
)
    requires
        menu1 == menu2,
        res1 == res2,
        statuses1 == statuses2,
    ensures
        plan_requests(menu1, res1) == plan_requests(menu2, res2),
        outcomes_of(plan_requests(menu1, res1), statuses1) == outcomes_of(
            plan_requests(menu2, res2),
            statuses2,
        ),
{
}

/// Law (isolation): how one triple's attempt ends never affects another
/// triple's outcome — two status sequences that differ at most at position
/// `j` record the same outcome at every other position.
pub proof fn lemma_outcome_isolation(
    plan: Seq<ProbeRequest>,
    statuses1: Seq<ProbeStatus>,
    statuses2: Seq<ProbeStatus>,
    j: int,
)
    requires
        statuses1.len() == plan.len(),
        statuses2.len() == plan.len(),
        forall|i: int| 0 <= i < plan.len() && i != j ==> statuses1[i] == statuses2[i],
    ensures
        forall|i: int|
            0 <= i < plan.len() && i != j ==> outcomes_of(plan, statuses1)[i] == outcomes_of(
                plan,
                statuses2,
            )[i],
{
}

/// Prepares one triple's attempt: selects the decoder configuration (the
/// last enumerated one with a usable raw-bitstream mode) and rounds the
/// sample size up to the tile-aligned surface size for the fixed-size
/// decode-target pool.  Fails exactly when no configuration qualifies.
pub fn prepare_triple(req: &ProbeRequest, configs: &Vec<DecoderConfig>) -> (r: Result<
    TripleSettings,
    ProbeStatus,
>)
    requires
        req.width + TILE_GRANULARITY - 1 <= u32::MAX,
        req.height + TILE_GRANULARITY - 1 <= u32::MAX,
    ensures
        match r {
            Ok(ts) => {
                &&& ts.selected_config < configs@.len()
                &&& accepts_raw_bitstream(configs@[ts.selected_config as int])
                &&& forall|j: int|
                    ts.selected_config < j < configs@.len() ==> !accepts_raw_bitstream(
                        #[trigger] configs@[j],
                    )
                &&& ts.surface_width % TILE_GRANULARITY == 0
                &&& req.width <= ts.surface_width < req.width + TILE_GRANULARITY
                &&& ts.surface_height % TILE_GRANULARITY == 0
                &&& req.height <= ts.surface_height < req.height + TILE_GRANULARITY
                &&& ts.surface_count == SURFACE_POOL_COUNT
            },
            Err(status) => {
                &&& status == ProbeStatus::NoUsableConfiguration
                &&& forall|j: int|
                    0 <= j < configs@.len() ==> !accepts_raw_bitstream(#[trigger] configs@[j])
            },
        },
{
    let selected = select_configuration(configs);
    match selected {
        Some(idx) => {
            let (surface_width, surface_height) = surface_dimensions(req.width, req.height);
            Ok(
                TripleSettings {
                    selected_config: idx,
                    surface_width,
                    surface_height,
                    surface_count: SURFACE_POOL_COUNT,
                },
            )
        },
        None => Err(ProbeStatus::NoUsableConfiguration),
    }
}

} // verus!
