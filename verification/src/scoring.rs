//! The rules of scoring. They say which figures go into a score and how they
//! are put together; the arithmetic on the figures is the caller's.

use vstd::prelude::*;
use crate::binary64::{
    exact_half, number_exceeds, Score, EIGHT_TENTHS, FIFTEEN_THOUSAND, FIVE_THOUSAND, SIX_TENTHS, TEN_THOUSAND,
};
use crate::json::{JsonNumber, JsonValue, JsonView};

verus! {

/// The parts of one GPU's score, each in hundredths.
#[derive(Debug, Clone, Copy, PartialEq, Eq, Structural)]
pub struct GpuScore {
    /// For having been measured.
    pub base: u32,
    /// For having run without a debugger.
    pub anti_debug: u32,
    /// For keeping its multiprocessors busy.
    pub sm_utilization: u32,
    /// For its memory bandwidth.
    pub memory_bandwidth: u32,
    /// For a plausible computation time.
    pub timing: u32,
}

impl GpuScore {
    /// The whole score, in hundredths.
    pub open spec fn points(self) -> int {
        self.base + self.anti_debug + self.sm_utilization + self.memory_bandwidth + self.timing
    }
}

/// Whether a member of an object is a number greater than a limit.
pub open spec fn member_exceeds(object: JsonView, key: Seq<char>, limit: u64) -> bool {
    match object.get(key) {
        Some(value) => match value.number() {
            Some(number) => crate::binary64::exceeds(number, limit),
            None => false,
        },
        None => false,
    }
}

/// Whether the measurement passed the check for debuggers.
pub open spec fn passed_anti_debug(measured: JsonView) -> bool {
    measured.get("anti_debug_passed"@) matches Some(v) && v.truth() == Some(true)
}

/// Whether the average utilization of the multiprocessors is greater than a
/// limit.
pub open spec fn utilization_exceeds(measured: JsonView, limit: u64) -> bool {
    measured.get("sm_utilization"@) matches Some(v) && member_exceeds(v, "avg"@, limit)
}

/// The computation time in whole milliseconds; zero if it was not measured.
pub open spec fn computation_millis(measured: JsonView) -> int {
    match measured.get("computation_time_ns"@) {
        Some(value) => match value.unsigned() {
            Some(nanos) => nanos as int / 1_000_000,
            None => 0,
        },
        None => 0,
    }
}

/// The score of one GPU, from what was measured of it.
pub open spec fn gpu_score(measured: JsonView) -> GpuScore {
    GpuScore {
        base: 30,
        anti_debug: if passed_anti_debug(measured) {
            20
        } else {
            0
        },
        sm_utilization: if utilization_exceeds(measured, EIGHT_TENTHS) {
            20
        } else if utilization_exceeds(measured, SIX_TENTHS) {
            10
        } else {
            0
        },
        memory_bandwidth: if member_exceeds(measured, "memory_bandwidth_gbps"@, FIFTEEN_THOUSAND) {
            15
        } else if member_exceeds(measured, "memory_bandwidth_gbps"@, TEN_THOUSAND) {
            10
        } else if member_exceeds(measured, "memory_bandwidth_gbps"@, FIVE_THOUSAND) {
            5
        } else {
            0
        },
        timing: if 10 < computation_millis(measured) < 5000 {
            5
        } else {
            0
        },
    }
}

/// The measurements of a validation run, one to a GPU.
pub open spec fn gpu_results(raw: JsonView) -> Option<Seq<JsonView>> {
    match raw.get("gpu_results"@) {
        Some(list) => list.items(),
        None => None,
    }
}

fn member_number(object: &JsonValue, key: &str) -> (r: Option<JsonNumber>)
    ensures
        r == (match object@.get(key@) {
            Some(value) => value.number(),
            None => None,
        }),
{
    match object.get(key) {
        Some(value) => value.as_number(),
        None => None,
    }
}

fn utilization_points(measured: &JsonValue) -> (r: u32)
    ensures
        r == gpu_score(measured@).sm_utilization,
{
    proof {
        crate::binary64::lemma_limits();
    }
    if let Some(utilization) = measured.get("sm_utilization") {
        if let Some(average) = member_number(utilization, "avg") {
            if number_exceeds(average, EIGHT_TENTHS, 0) {
                return 20;
            }
            if number_exceeds(average, SIX_TENTHS, 0) {
                return 10;
            }
        }
    }
    0
}

fn bandwidth_points(measured: &JsonValue) -> (r: u32)
    ensures
        r == gpu_score(measured@).memory_bandwidth,
{
    proof {
        crate::binary64::lemma_limits();
    }
    if let Some(bandwidth) = member_number(measured, "memory_bandwidth_gbps") {
        if number_exceeds(bandwidth, FIFTEEN_THOUSAND, 15000) {
            return 15;
        }
        if number_exceeds(bandwidth, TEN_THOUSAND, 10000) {
            return 10;
        }
        if number_exceeds(bandwidth, FIVE_THOUSAND, 5000) {
            return 5;
        }
    }
    0
}

fn timing_points(measured: &JsonValue) -> (r: u32)
    ensures
        r == gpu_score(measured@).timing,
{
    if let Some(value) = measured.get("computation_time_ns") {
        if let Some(nanos) = value.as_u64() {
            let millis: u64 = nanos / 1_000_000;
            if millis > 10 && millis < 5000 {
                return 5;
            }
        }
    }
    0
}

fn anti_debug_points(measured: &JsonValue) -> (r: u32)
    ensures
        r == gpu_score(measured@).anti_debug,
{
    if let Some(value) = measured.get("anti_debug_passed") {
        if let Some(passed) = value.as_bool() {
            if passed {
                return 20;
            }
        }
    }
    0
}

/// Scores one GPU.
pub fn score_gpu(measured: &JsonValue) -> (r: GpuScore)
    ensures
        r == gpu_score(measured@),
{
    GpuScore {
        base: 30,
        anti_debug: anti_debug_points(measured),
        sm_utilization: utilization_points(measured),
        memory_bandwidth: bandwidth_points(measured),
        timing: timing_points(measured),
    }
}

/// How the score of a validation run comes about.
#[derive(Debug)]
pub enum RunScore {
    /// No GPU was measured: the score is zero.
    Zero,
    /// The score is the average of the GPUs' scores.
    Average(Vec<GpuScore>),
}

/// Why a validation run has no score.
#[derive(Debug, Clone, Copy, PartialEq, Eq, Structural)]
pub enum ScoreError {
    /// The output lists no measurements.
    NoGpuResults,
}

impl ScoreError {
    /// What went wrong, in words.
    pub fn message(&self) -> (r: &'static str)
        ensures
            r@ == "No gpu_results found in output"@,
    {
        "No gpu_results found in output"
    }
}

/// Whether `outcome` is what the rules make of the output of a validation run.
pub open spec fn run_score(raw: JsonView, outcome: Result<RunScore, ScoreError>) -> bool {
    match gpu_results(raw) {
        Some(results) => if results.len() == 0 {
            outcome == Ok::<RunScore, ScoreError>(RunScore::Zero)
        } else {
            &&& outcome matches Ok(RunScore::Average(gpus))
            &&& gpus@ == results.map_values(|measured: JsonView| gpu_score(measured))
        },
        None => outcome == Err::<RunScore, ScoreError>(ScoreError::NoGpuResults),
    }
}

/// Scores the output of a validation run.
pub fn score_run(raw: &JsonValue) -> (r: Result<RunScore, ScoreError>)
    ensures
        run_score(raw@, r),
{
    let results = match raw.get("gpu_results") {
        Some(list) => match list.as_array() {
            Some(results) => results,
            None => {
                return Err(ScoreError::NoGpuResults);
            },
        },
        None => {
            return Err(ScoreError::NoGpuResults);
        },
    };
    let ghost measured = results@.map_values(|v: JsonValue| v@);
    if results.len() == 0 {
        return Ok(RunScore::Zero);
    }
    let mut gpus: Vec<GpuScore> = Vec::new();
    let mut i: usize = 0;
    while i < results.len()
        invariant
            i <= results@.len(),
            measured == results@.map_values(|v: JsonValue| v@),
            gpus@.len() == i,
            forall|k: int| 0 <= k < i ==> #[trigger] gpus@[k] == gpu_score(measured[k]),
        decreases results@.len() - i,
    {
        gpus.push(score_gpu(&results[i]));
        i += 1;
    }
    assert(gpus@ =~= measured.map_values(|m: JsonView| gpu_score(m)));
    Ok(RunScore::Average(gpus))
}

/// How the validation by a binary on the machine is to count.
#[derive(Debug, Clone, Copy, PartialEq, Eq, Structural)]
pub struct BinaryValidationConfig {
    /// Whether there is such a validation.
    pub enabled: bool,
    /// The weight of its score, against the rest of one for the connection.
    pub score_weight: Score,
}

/// How the score of a validation is put together.
#[derive(Debug, Clone, Copy, PartialEq, Eq, Structural)]
pub enum CombinedScore {
    /// Zero.
    Zero,
    /// The score of the connection.
    Ssh { ssh_score: Score },
    /// Half the score of the connection.
    HalfSsh { ssh_score: Score },
    /// The sum of both scores, the binary's weighted with `weight` and the
    /// connection's with the rest of one, brought into the range from zero to
    /// one.
    Weighted { ssh_score: Score, binary_score: Score, weight: Score },
}

/// How the scores of the connection and of the binary combine.
pub open spec fn combined_score(
    ssh_score: Score,
    binary_score: Score,
    ssh_successful: bool,
    binary_successful: bool,
    config: BinaryValidationConfig,
) -> CombinedScore {
    if !ssh_successful {
        CombinedScore::Zero
    } else if !config.enabled {
        CombinedScore::Ssh { ssh_score }
    } else if !binary_successful {
        CombinedScore::HalfSsh { ssh_score }
    } else {
        CombinedScore::Weighted { ssh_score, binary_score, weight: config.score_weight }
    }
}

/// Combines the scores of the connection and of the binary.
pub fn combine_scores(
    ssh_score: Score,
    binary_score: Score,
    ssh_successful: bool,
    binary_successful: bool,
    config: &BinaryValidationConfig,
) -> (r: CombinedScore)
    ensures
        r == combined_score(
            ssh_score,
            binary_score,
            ssh_successful,
            binary_successful,
            *config,
        ),
{
    if !ssh_successful {
        return CombinedScore::Zero;
    }
    if !config.enabled {
        return CombinedScore::Ssh { ssh_score };
    }
    if !binary_successful {
        return CombinedScore::HalfSsh { ssh_score };
    }
    CombinedScore::Weighted { ssh_score, binary_score, weight: config.score_weight }
}

/// A GPU scores between 30 and 90 hundredths, so no score has to be brought
/// into the range from zero to one.
pub proof fn law_gpu_points_in_range(measured: JsonView)
    ensures
        30 <= gpu_score(measured).points() <= 90,
{
}

/// The scores of several GPUs added up, in hundredths.
pub open spec fn total_points(gpus: Seq<GpuScore>) -> int
    decreases gpus.len(),
{
    if gpus.len() == 0 {
        0
    } else {
        total_points(gpus.drop_last()) + gpus.last().points()
    }
}

/// The scores of a run's GPUs average between 30 and 90 hundredths.
pub proof fn law_average_in_range(results: Seq<JsonView>)
    ensures
        30 * results.len() <= total_points(
            results.map_values(|measured: JsonView| gpu_score(measured)),
        ) <= 90 * results.len(),
    decreases results.len(),
{
    let score = |measured: JsonView| gpu_score(measured);
    if results.len() > 0 {
        law_average_in_range(results.drop_last());
        assert(results.map_values(score).drop_last() == results.drop_last().map_values(score));
        law_gpu_points_in_range(results.last());
    }
}

/// Of two GPUs, the one that is at least as good in every respect scores at
/// least as high.
pub proof fn law_better_never_scores_less(worse: JsonView, better: JsonView)
    requires
        passed_anti_debug(worse) ==> passed_anti_debug(better),
        forall|limit: u64| #[trigger]
            utilization_exceeds(worse, limit) ==> utilization_exceeds(better, limit),
        forall|limit: u64| #[trigger]
            member_exceeds(worse, "memory_bandwidth_gbps"@, limit) ==> member_exceeds(
                better,
                "memory_bandwidth_gbps"@,
                limit,
            ),
        10 < computation_millis(worse) < 5000 ==> 10 < computation_millis(better) < 5000,
    ensures
        gpu_score(worse).points() <= gpu_score(better).points(),
{
}

/// A number that exceeds a limit exceeds every lower one.
pub proof fn law_exceeding_covers_lower_limits(number: JsonNumber, limit: u64, lower: u64)
    requires
        crate::binary64::exceeds(number, limit),
        lower <= limit < crate::binary64::INFINITY,
    ensures
        crate::binary64::exceeds(number, lower),
{
    if lower < limit {
        crate::binary64::lemma_magnitude_increases(lower, limit);
    }
}

/// The score that a plan comes to, given what the caller worked out of it.
/// Where nothing has to be computed, or only a half that is exact, the plan
/// says the score, whatever was worked out.
pub open spec fn settled_score(plan: CombinedScore, worked_out: Score) -> Score {
    match plan {
        CombinedScore::Zero => Score { bits: 0 },
        CombinedScore::Ssh { ssh_score } => ssh_score,
        CombinedScore::HalfSsh { ssh_score } => if crate::binary64::halves_exactly(
            ssh_score.bits,
        ) {
            Score { bits: crate::binary64::half(ssh_score.bits) }
        } else {
            worked_out
        },
        CombinedScore::Weighted { .. } => worked_out,
    }
}

/// Settles the score of a plan.
pub fn settle_score(plan: CombinedScore, worked_out: Score) -> (r: Score)
    ensures
        r == settled_score(plan, worked_out),
{
    match plan {
        CombinedScore::Zero => Score { bits: 0 },
        CombinedScore::Ssh { ssh_score } => ssh_score,
        CombinedScore::HalfSsh { ssh_score } => match exact_half(ssh_score) {
            Some(half) => half,
            None => worked_out,
        },
        CombinedScore::Weighted { .. } => worked_out,
    }
}

/// The points of runs that are put together add up.
pub proof fn law_points_add_up(a: Seq<GpuScore>, b: Seq<GpuScore>)
    ensures
        total_points(a + b) == total_points(a) + total_points(b),
    decreases b.len(),
{
    if b.len() == 0 {
        assert(a + b == a);
    } else {
        law_points_add_up(a, b.drop_last());
        assert((a + b).drop_last() == a + b.drop_last());
    }
}

/// The points that an average utilization is worth: more than eight tenths
/// are worth 20, more than six tenths 10. Among integers that is one and
/// above; among binary64 numbers the bits of positive ones are in their order.
pub open spec fn worth_of_utilization(average: JsonNumber) -> u32 {
    match average {
        JsonNumber::Unsigned(u) => if u >= 1 {
            20
        } else {
            0
        },
        JsonNumber::Negative(_) => 0,
        JsonNumber::Binary64(bits) => if 0x3fe9_9999_9999_999a < bits <= 0x7ff0_0000_0000_0000 {
            20
        } else if 0x3fe3_3333_3333_3333 < bits <= 0x3fe9_9999_9999_999a {
            10
        } else {
            0
        },
    }
}

/// The points that a memory bandwidth is worth: 15 above 15000, 10 above
/// 10000, 5 above 5000.
pub open spec fn worth_of_bandwidth(bandwidth: JsonNumber) -> u32 {
    match bandwidth {
        JsonNumber::Unsigned(u) => if u > 15000 {
            15
        } else if u > 10000 {
            10
        } else if u > 5000 {
            5
        } else {
            0
        },
        JsonNumber::Negative(_) => 0,
        JsonNumber::Binary64(bits) => if 0x40cd_4c00_0000_0000 < bits <= 0x7ff0_0000_0000_0000 {
            15
        } else if 0x40c3_8800_0000_0000 < bits <= 0x40cd_4c00_0000_0000 {
            10
        } else if 0x40b3_8800_0000_0000 < bits <= 0x40c3_8800_0000_0000 {
            5
        } else {
            0
        },
    }
}

/// The points of a GPU for its utilization go by the number under
/// `sm_utilization`, `avg`, whatever else was measured; without one it has
/// none.
pub proof fn law_utilization_counts(
    measured: JsonValue,
    utilization: JsonView,
    average: JsonNumber,
    r: GpuScore,
)
    requires
        call_ensures(score_gpu, (&measured,), r),
    ensures
        crate::json::has_member(measured@, "sm_utilization"@, utilization)
            && crate::json::has_member(utilization, "avg"@, JsonView::Number(average))
            ==> r.sm_utilization == worth_of_utilization(average),
        crate::json::has_member(measured@, "sm_utilization"@, utilization) && (forall|n: JsonNumber|
            !#[trigger] crate::json::has_member(utilization, "avg"@, JsonView::Number(n)))
            ==> r.sm_utilization == 0,
        (forall|u: JsonView| !#[trigger] crate::json::has_member(measured@, "sm_utilization"@, u))
            ==> r.sm_utilization == 0,
{
    crate::binary64::lemma_limits();
    crate::binary64::lemma_exceeds_by_bits(average, EIGHT_TENTHS, 0);
    crate::binary64::lemma_exceeds_by_bits(average, SIX_TENTHS, 0);
    crate::json::law_lookup_gives_the_member(measured@, "sm_utilization"@, utilization);
    crate::json::law_lookup_gives_the_member(utilization, "avg"@, JsonView::Number(average));
    if let Some(JsonView::Number(n)) = utilization.get("avg"@) {
        crate::json::law_lookup_gives_the_member(utilization, "avg"@, JsonView::Number(n));
    }
}

/// The points of a GPU for its memory bandwidth go by the number under
/// `memory_bandwidth_gbps`, whatever else was measured; without one it has
/// none.
pub proof fn law_bandwidth_counts(measured: JsonValue, bandwidth: JsonNumber, r: GpuScore)
    requires
        call_ensures(score_gpu, (&measured,), r),
    ensures
        crate::json::has_member(
            measured@,
            "memory_bandwidth_gbps"@,
            JsonView::Number(bandwidth),
        ) ==> r.memory_bandwidth == worth_of_bandwidth(bandwidth),
        (forall|n: JsonNumber|
            !#[trigger] crate::json::has_member(
                measured@,
                "memory_bandwidth_gbps"@,
                JsonView::Number(n),
            )) ==> r.memory_bandwidth == 0,
{
    let key = "memory_bandwidth_gbps"@;
    crate::binary64::lemma_limits();
    crate::binary64::lemma_exceeds_by_bits(bandwidth, FIFTEEN_THOUSAND, 15000);
    crate::binary64::lemma_exceeds_by_bits(bandwidth, TEN_THOUSAND, 10000);
    crate::binary64::lemma_exceeds_by_bits(bandwidth, FIVE_THOUSAND, 5000);
    crate::json::law_lookup_gives_the_member(measured@, key, JsonView::Number(bandwidth));
    if let Some(JsonView::Number(n)) = measured@.get(key) {
        crate::json::law_lookup_gives_the_member(measured@, key, JsonView::Number(n));
    }
}

/// A GPU has five points for a computation of at least eleven milliseconds and
/// less than five seconds, and none for any other or for an unknown one; it
/// has twenty points for having run without a debugger; and it has thirty in
/// any case.
pub proof fn law_timing_and_honesty_count(measured: JsonValue, nanos: u64, r: GpuScore)
    requires
        call_ensures(score_gpu, (&measured,), r),
    ensures
        r.base == 30,
        r.anti_debug == (if crate::json::has_member(
            measured@,
            "anti_debug_passed"@,
            JsonView::Bool(true),
        ) {
            20u32
        } else {
            0u32
        }),
        crate::json::has_member(
            measured@,
            "computation_time_ns"@,
            JsonView::Number(JsonNumber::Unsigned(nanos)),
        ) ==> r.timing == (if 11_000_000 <= nanos < 5_000_000_000 {
            5u32
        } else {
            0u32
        }),
        (forall|n: u64|
            !#[trigger] crate::json::has_member(
                measured@,
                "computation_time_ns"@,
                JsonView::Number(JsonNumber::Unsigned(n)),
            )) ==> r.timing == 0,
{
    let key = "computation_time_ns"@;
    let time = JsonView::Number(JsonNumber::Unsigned(nanos));
    crate::json::law_lookup_gives_the_member(
        measured@,
        "anti_debug_passed"@,
        JsonView::Bool(true),
    );
    crate::json::law_lookup_gives_the_member(measured@, key, time);
    if let Some(JsonView::Number(JsonNumber::Unsigned(n))) = measured@.get(key) {
        crate::json::law_lookup_gives_the_member(
            measured@,
            key,
            JsonView::Number(JsonNumber::Unsigned(n)),
        );
    }
}

/// A run is scored by all its results, however many: the outcome is an average
/// over as many scores as there are results, the i-th that of the i-th result,
/// and it lies between 30 and 90 hundredths. It is zero only if the list is
/// empty.
pub proof fn law_every_result_counts(
    raw: JsonValue,
    results: Seq<JsonView>,
    r: Result<RunScore, ScoreError>,
    i: int,
    measured: JsonValue,
    alone: GpuScore,
)
    requires
        crate::json::has_member(raw@, "gpu_results"@, JsonView::Array(results)),
        call_ensures(score_run, (&raw,), r),
        0 <= i < results.len() ==> measured@ == results[i],
        call_ensures(score_gpu, (&measured,), alone),
    ensures
        r is Ok,
        r->Ok_0 is Zero <==> results.len() == 0,
        results.len() > 0 ==> {
            &&& r matches Ok(RunScore::Average(gpus))
            &&& gpus@.len() == results.len()
            &&& 30 * results.len() <= total_points(gpus@) <= 90 * results.len()
            &&& 0 <= i < results.len() ==> gpus@[i] == alone
        },
{
    crate::json::law_lookup_gives_the_member(raw@, "gpu_results"@, JsonView::Array(results));
    law_average_in_range(results);
}

/// A run whose output has no list of results has no score.
pub proof fn law_no_results_no_score(raw: JsonValue, r: Result<RunScore, ScoreError>)
    requires
        forall|results: Seq<JsonView>|
            !#[trigger] crate::json::has_member(
                raw@,
                "gpu_results"@,
                JsonView::Array(results),
            ),
        call_ensures(score_run, (&raw,), r),
    ensures
        r == Err::<RunScore, ScoreError>(ScoreError::NoGpuResults),
{
    if let Some(JsonView::Array(results)) = raw@.get("gpu_results"@) {
        crate::json::law_lookup_gives_the_member(raw@, "gpu_results"@, JsonView::Array(results));
    }
}

/// How many points a GPU has, part by part.
pub proof fn law_points_are_the_parts(gpu: GpuScore)
    ensures
        gpu.points() == gpu.base + gpu.anti_debug + gpu.sm_utilization + gpu.memory_bandwidth
            + gpu.timing,
        total_points(seq![gpu]) == gpu.points(),
        total_points(Seq::empty()) == 0,
{
    assert(seq![gpu].drop_last() == Seq::<GpuScore>::empty());
    reveal_with_fuel(total_points, 2);
}

/// Without a connection there is no score, with the binary switched off that of
/// the connection counts, a binary that failed halves it, and only one that
/// passed brings both scores in, with the configured weight.
pub proof fn law_scores_combine(
    ssh_score: Score,
    binary_score: Score,
    connected: bool,
    passed: bool,
    config: BinaryValidationConfig,
    r: CombinedScore,
)
    requires
        call_ensures(combine_scores, (ssh_score, binary_score, connected, passed, &config), r),
    ensures
        r is Zero <==> !connected,
        r is Ssh <==> connected && !config.enabled,
        r is HalfSsh <==> connected && config.enabled && !passed,
        r is Weighted <==> connected && config.enabled && passed,
        r is Ssh ==> r == (CombinedScore::Ssh { ssh_score }),
        r is HalfSsh ==> r == (CombinedScore::HalfSsh { ssh_score }),
        r is Weighted ==> r == (CombinedScore::Weighted {
            ssh_score,
            binary_score,
            weight: config.score_weight,
        }),
{
}

/// A score that has to be worked out counts as it was worked out, whatever it
/// is: so of two, the better one counts for more. One that needs no working
/// out is what the plan says, whatever was worked out.
pub proof fn law_worked_out_score_counts(
    plan: CombinedScore,
    worked_out: Score,
    r: Score,
    better: Score,
    of_better: Score,
)
    requires
        call_ensures(settle_score, (plan, worked_out), r),
        call_ensures(settle_score, (plan, better), of_better),
    ensures
        plan is Weighted ==> r == worked_out,
        worked_out.bits <= better.bits ==> r.bits <= of_better.bits,
        plan is Zero ==> r.bits == 0,
        plan matches CombinedScore::Ssh { ssh_score } ==> r == ssh_score,
        plan matches CombinedScore::HalfSsh { ssh_score } ==> {
            let exponent = (ssh_score.bits / 0x10_0000_0000_0000) % 2048;
            if 2 <= exponent <= 2046 {
                r.bits == ssh_score.bits - 0x10_0000_0000_0000
            } else {
                r == worked_out
            }
        },
{
}

/// A run without a score says why.
pub proof fn law_missing_results_are_named(error: ScoreError, r: &'static str)
    requires
        call_ensures(ScoreError::message, (&error,), r),
    ensures
        r@ == "No gpu_results found in output"@,
{
}

} // verus!
