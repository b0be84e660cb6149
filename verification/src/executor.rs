//! Carrying out a validation, lightweight or full.
//!
//! A lightweight validation asks the machine for its GPUs and is judged by the
//! answer alone. A full one is walked through step by step: a
//! [`FullValidation`] says what to do next; the caller does it, and hands the
//! reply to [`FullValidation::step`].

use std::sync::Arc;
use vstd::prelude::*;
use crate::binary64::{Score, EIGHT_TENTHS, ONE};
use crate::clock::Span;
use crate::collection::{HardwareCollection, ProfileRules};
use crate::json::JsonValue;
use crate::probe::count_gpus;
use crate::scoring::{
    combine_scores, score_run, settle_score, BinaryValidationConfig, CombinedScore, RunScore, ScoreError,
};

verus! {

/// An executor, as far as its validation goes.
#[derive(Debug)]
pub struct ExecutorInfoDetailed {
    pub id: String,
    pub grpc_endpoint: String,
}

/// Which validation a result comes from.
#[derive(Debug, Clone, Copy, PartialEq, Eq, Structural)]
pub enum ValidationType {
    Lightweight,
    Full,
}

/// How long the parts of a validation took and what they scored.
#[derive(Debug, Clone, Copy)]
pub struct ValidationDetails {
    pub ssh_test_duration: Span,
    pub binary_upload_duration: Span,
    pub binary_execution_duration: Span,
    pub total_validation_duration: Span,
    pub ssh_score: Score,
    pub binary_score: Score,
    pub combined_score: Score,
}

/// The result of a validation.
#[derive(Debug)]
pub struct ExecutorVerificationResult<R> {
    pub executor_id: String,
    pub grpc_endpoint: String,
    pub verification_score: Score,
    pub ssh_connection_successful: bool,
    pub binary_validation_successful: bool,
    pub executor_result: Option<R>,
    pub error: Option<String>,
    pub execution_time: Span,
    pub validation_details: ValidationDetails,
    pub gpu_count: u64,
    pub validation_type: ValidationType,
}

/// What the metrics are told of a validation.
#[derive(Debug)]
pub struct AttestationRecord {
    pub executor_id: String,
    pub attestation: &'static str,
    pub successful: bool,
    pub signature_valid: bool,
    pub hardware_attested: bool,
}

/// The score zero.
pub open spec fn zero_score() -> Score {
    Score { bits: 0 }
}

/// Whether a machine that was asked for its GPUs can be reached and has one.
/// Without an answer it cannot be reached.
pub open spec fn is_available(answer: Option<Seq<char>>) -> bool {
    answer matches Some(output) && crate::probe::gpus_named(output) > 0
}

/// Whether a text that may be missing holds these characters, or is missing
/// like them.
pub open spec fn says(text: Option<String>, expected: Option<Seq<char>>) -> bool {
    crate::hardware::optional_text(text) == expected
}

/// The characters of a text that may be missing.
pub open spec fn optional_chars(text: Option<&str>) -> Option<Seq<char>> {
    match text {
        Some(s) => Some(s@),
        None => None,
    }
}

/// Whether `result` is what a lightweight validation comes to: the previous
/// score of a machine that is available, else zero and an error.
pub open spec fn lightweight_result<R>(
    executor: ExecutorInfoDetailed,
    previous_score: Score,
    executor_result: Option<R>,
    gpu_count: u64,
    available: bool,
    elapsed: Span,
    result: ExecutorVerificationResult<R>,
) -> bool {
    let score = if available {
        previous_score
    } else {
        zero_score()
    };
    &&& result.executor_id@ == executor.id@
    &&& result.grpc_endpoint@ == executor.grpc_endpoint@
    &&& result.verification_score == score
    &&& result.ssh_connection_successful == available
    &&& !result.binary_validation_successful
    &&& result.executor_result == executor_result
    &&& says(
        result.error,
        if available {
            None
        } else {
            Some("Connectivity check failed"@)
        },
    )
    &&& result.execution_time == elapsed
    &&& result.validation_details.ssh_test_duration == elapsed
    &&& result.validation_details.binary_upload_duration.length() == 0
    &&& result.validation_details.binary_execution_duration.length() == 0
    &&& result.validation_details.total_validation_duration == elapsed
    &&& result.validation_details.ssh_score == (if available {
        Score { bits: ONE }
    } else {
        zero_score()
    })
    &&& result.validation_details.binary_score == zero_score()
    &&& result.validation_details.combined_score == score
    &&& result.gpu_count == gpu_count
    &&& result.validation_type == ValidationType::Lightweight
}

/// Whether `record` reports a check of this kind on an executor.
pub open spec fn attests(
    record: AttestationRecord,
    executor: ExecutorInfoDetailed,
    attestation: Seq<char>,
    successful: bool,
    signature_valid: bool,
    hardware_attested: bool,
) -> bool {
    &&& record.executor_id@ == executor.id@
    &&& record.attestation@ == attestation
    &&& record.successful == successful
    &&& record.signature_valid == signature_valid
    &&& record.hardware_attested == hardware_attested
}

/// What is known of the binary validation of a machine.
#[derive(Debug)]
pub struct BinaryFindings<R> {
    pub successful: bool,
    pub score: Score,
    pub executor_result: Option<R>,
    pub gpu_count: u64,
    pub execution_time_ms: u64,
}

/// What a validation by the binary on the machine came to.
#[derive(Debug)]
pub struct BinaryValidationResult<R> {
    pub success: bool,
    pub executor_result: Option<R>,
    pub validation_score: Score,
    pub gpu_count: u64,
    pub execution_time_ms: u64,
}

/// How far a full validation has come.
#[derive(Debug)]
pub enum FullPhase<R> {
    /// The connection has to be tested.
    Connect,
    /// The connection stands; the hardware profile has to be collected.
    Profile { ssh_test_duration: Span },
    /// The binary has to be run.
    Binary { ssh_test_duration: Span },
    /// The metrics have to be told of the binary's run; `executed` says
    /// whether it ran to an end.
    Attest { ssh_test_duration: Span, executed: bool, findings: BinaryFindings<R> },
    /// All is known; the scores have to be combined.
    Combine {
        ssh_test_duration: Span,
        ssh_connection_successful: bool,
        findings: BinaryFindings<R>,
    },
}

/// What a full validation asks for.
#[derive(Debug)]
pub enum FullRequest {
    /// Test the connection.
    TestConnection,
    /// Collect and store the hardware profile.
    CollectProfile,
    /// Validate the machine by the binary.
    RunBinary,
    /// Tell the metrics.
    RecordAttestation(AttestationRecord),
    /// Work out the score.
    CombineScores(CombinedScore),
}

/// What came of a request.
#[derive(Debug)]
pub enum FullReply<R> {
    /// Whether the connection stands, and how long the test took.
    Connected { successful: bool, elapsed: Span },
    /// Whether the profile was collected.
    Profiled { successful: bool },
    /// What the binary found; nothing if it failed.
    Binary(Option<BinaryValidationResult<R>>),
    /// The metrics were told.
    Attested,
}

/// A full validation under way.
#[derive(Debug)]
pub struct FullValidation<R> {
    pub executor: ExecutorInfoDetailed,
    pub config: BinaryValidationConfig,
    pub phase: FullPhase<R>,
}

/// The findings where the binary was not run: a machine passes if it need not
/// be.
pub open spec fn findings_without_run<R>(config: BinaryValidationConfig) -> BinaryFindings<R> {
    BinaryFindings {
        successful: !config.enabled,
        score: if config.enabled {
            zero_score()
        } else {
            Score { bits: EIGHT_TENTHS }
        },
        executor_result: None,
        gpu_count: 0,
        execution_time_ms: 0,
    }
}

/// The findings of a run of the binary; a failed one finds nothing.
pub open spec fn findings_of_run<R>(run: Option<BinaryValidationResult<R>>) -> BinaryFindings<R> {
    match run {
        Some(found) => BinaryFindings {
            successful: found.success,
            score: found.validation_score,
            executor_result: found.executor_result,
            gpu_count: found.gpu_count,
            execution_time_ms: found.execution_time_ms,
        },
        None => BinaryFindings {
            successful: false,
            score: zero_score(),
            executor_result: None,
            gpu_count: 0,
            execution_time_ms: 0,
        },
    }
}

/// Where a reply takes a full validation. A reply to no open request changes
/// nothing.
pub open spec fn next_full_phase<R>(
    config: BinaryValidationConfig,
    phase: FullPhase<R>,
    reply: FullReply<R>,
) -> FullPhase<R> {
    match (phase, reply) {
        (FullPhase::Connect, FullReply::Connected { successful, elapsed }) => if successful {
            FullPhase::Profile { ssh_test_duration: elapsed }
        } else {
            FullPhase::Combine {
                ssh_test_duration: elapsed,
                ssh_connection_successful: false,
                findings: findings_without_run(config),
            }
        },
        (FullPhase::Profile { ssh_test_duration }, FullReply::Profiled { .. }) => {
            if config.enabled {
                FullPhase::Binary { ssh_test_duration }
            } else {
                FullPhase::Combine {
                    ssh_test_duration,
                    ssh_connection_successful: true,
                    findings: findings_without_run(config),
                }
            }
        },
        (FullPhase::Binary { ssh_test_duration }, FullReply::Binary(run)) => FullPhase::Attest {
            ssh_test_duration,
            executed: run is Some,
            findings: findings_of_run(run),
        },
        (FullPhase::Attest { ssh_test_duration, executed, findings }, FullReply::Attested) => {
            FullPhase::Combine { ssh_test_duration, ssh_connection_successful: true, findings }
        },
        _ => phase,
    }
}

/// The score of the connection in a full validation.
pub open spec fn full_ssh_score(successful: bool) -> Score {
    if successful {
        Score { bits: EIGHT_TENTHS }
    } else {
        zero_score()
    }
}

/// How the score of a full validation is put together.
pub open spec fn full_score<R>(
    config: BinaryValidationConfig,
    ssh_connection_successful: bool,
    findings: BinaryFindings<R>,
) -> CombinedScore {
    crate::scoring::combined_score(
        full_ssh_score(ssh_connection_successful),
        findings.score,
        ssh_connection_successful,
        findings.successful,
        config,
    )
}

/// Whether `result` is what a full validation comes to, once its score is
/// worked out.
pub open spec fn full_result<R>(
    executor: ExecutorInfoDetailed,
    ssh_test_duration: Span,
    ssh_connection_successful: bool,
    findings: BinaryFindings<R>,
    score: Score,
    total: Span,
    execution_time: Span,
    result: ExecutorVerificationResult<R>,
) -> bool {
    &&& result.executor_id == executor.id
    &&& result.grpc_endpoint == executor.grpc_endpoint
    &&& result.verification_score == score
    &&& result.ssh_connection_successful == ssh_connection_successful
    &&& result.binary_validation_successful == findings.successful
    &&& result.executor_result == findings.executor_result
    &&& result.error is None
    &&& result.execution_time == execution_time
    &&& result.validation_details.ssh_test_duration == ssh_test_duration
    &&& result.validation_details.binary_upload_duration.length() == 0
    &&& result.validation_details.binary_execution_duration.length() == findings.execution_time_ms
        * 1_000_000
    &&& result.validation_details.total_validation_duration == total
    &&& result.validation_details.ssh_score == full_ssh_score(ssh_connection_successful)
    &&& result.validation_details.binary_score == findings.score
    &&& result.validation_details.combined_score == score
    &&& result.gpu_count == findings.gpu_count
    &&& result.validation_type == ValidationType::Full
}

fn connection_score(successful: bool) -> (r: Score)
    ensures
        r == full_ssh_score(successful),
{
    if successful {
        Score { bits: EIGHT_TENTHS }
    } else {
        Score { bits: 0 }
    }
}

fn nothing_run<R>(config: &BinaryValidationConfig) -> (r: BinaryFindings<R>)
    ensures
        r == findings_without_run::<R>(*config),
{
    BinaryFindings {
        successful: !config.enabled,
        score: if config.enabled {
            Score { bits: 0 }
        } else {
            Score { bits: EIGHT_TENTHS }
        },
        executor_result: None,
        gpu_count: 0,
        execution_time_ms: 0,
    }
}

fn after_run<R>(run: Option<BinaryValidationResult<R>>) -> (r: BinaryFindings<R>)
    ensures
        r == findings_of_run(run),
{
    match run {
        Some(found) => BinaryFindings {
            successful: found.success,
            score: found.validation_score,
            executor_result: found.executor_result,
            gpu_count: found.gpu_count,
            execution_time_ms: found.execution_time_ms,
        },
        None => BinaryFindings {
            successful: false,
            score: Score { bits: 0 },
            executor_result: None,
            gpu_count: 0,
            execution_time_ms: 0,
        },
    }
}

impl<R> FullValidation<R> {
    /// What has to be done next.
    pub fn request(&self) -> (r: FullRequest)
        ensures
            match self.phase {
                FullPhase::Connect => r is TestConnection,
                FullPhase::Profile { .. } => r is CollectProfile,
                FullPhase::Binary { .. } => r is RunBinary,
                FullPhase::Attest { executed, findings, .. } => {
                    &&& r matches FullRequest::RecordAttestation(record)
                    &&& attests(
                        record,
                        self.executor,
                        "hardware_attestation"@,
                        findings.successful,
                        executed,
                        findings.successful,
                    )
                },
                FullPhase::Combine { ssh_connection_successful, findings, .. } => r
                    == FullRequest::CombineScores(
                    full_score(self.config, ssh_connection_successful, findings),
                ),
            },
    {
        match &self.phase {
            FullPhase::Connect => FullRequest::TestConnection,
            FullPhase::Profile { .. } => FullRequest::CollectProfile,
            FullPhase::Binary { .. } => FullRequest::RunBinary,
            FullPhase::Attest { executed, findings, .. } => FullRequest::RecordAttestation(
                AttestationRecord {
                    executor_id: self.executor.id.clone(),
                    attestation: "hardware_attestation",
                    successful: findings.successful,
                    signature_valid: *executed,
                    hardware_attested: findings.successful,
                },
            ),
            FullPhase::Combine { ssh_connection_successful, findings, .. } => {
                FullRequest::CombineScores(
                    combine_scores(
                        connection_score(*ssh_connection_successful),
                        findings.score,
                        *ssh_connection_successful,
                        findings.successful,
                        &self.config,
                    ),
                )
            },
        }
    }

    /// Takes the reply to the open request.
    pub fn step(self, reply: FullReply<R>) -> (r: Self)
        ensures
            r.executor == self.executor,
            r.config == self.config,
            r.phase == next_full_phase(self.config, self.phase, reply),
    {
        let FullValidation { executor, config, phase } = self;
        let phase = match (phase, reply) {
            (FullPhase::Connect, FullReply::Connected { successful, elapsed }) => if successful {
                FullPhase::Profile { ssh_test_duration: elapsed }
            } else {
                FullPhase::Combine {
                    ssh_test_duration: elapsed,
                    ssh_connection_successful: false,
                    findings: nothing_run(&config),
                }
            },
            (FullPhase::Profile { ssh_test_duration }, FullReply::Profiled { .. }) => {
                if config.enabled {
                    FullPhase::Binary { ssh_test_duration }
                } else {
                    FullPhase::Combine {
                        ssh_test_duration,
                        ssh_connection_successful: true,
                        findings: nothing_run(&config),
                    }
                }
            },
            (FullPhase::Binary { ssh_test_duration }, FullReply::Binary(run)) => {
                FullPhase::Attest {
                    ssh_test_duration,
                    executed: run.is_some(),
                    findings: after_run(run),
                }
            },
            (FullPhase::Attest { ssh_test_duration, findings, .. }, FullReply::Attested) => {
                FullPhase::Combine { ssh_test_duration, ssh_connection_successful: true, findings }
            },
            (phase, _) => phase,
        };
        FullValidation { executor, config, phase }
    }

    /// Takes the score that was worked out and closes the validation; before
    /// all is known it stays as it is. The score counts only where the plan of
    /// [`FullValidation::request`] leaves it to arithmetic: with a binary that
    /// passed. Else the plan itself says the score.
    pub fn finish(self, score: Score, total: Span, execution_time: Span) -> (r: Result<
        ExecutorVerificationResult<R>,
        Self,
    >)
        ensures
            match self.phase {
                FullPhase::Combine { ssh_test_duration, ssh_connection_successful, findings } => {
                    &&& r matches Ok(result)
                    &&& full_result(
                        self.executor,
                        ssh_test_duration,
                        ssh_connection_successful,
                        findings,
                        crate::scoring::settled_score(
                            full_score(self.config, ssh_connection_successful, findings),
                            score,
                        ),
                        total,
                        execution_time,
                        result,
                    )
                },
                _ => r == Err::<ExecutorVerificationResult<R>, Self>(self),
            },
    {
        let FullValidation { executor, config, phase } = self;
        match phase {
            FullPhase::Combine { ssh_test_duration, ssh_connection_successful, findings } => {
                let ssh_score = connection_score(ssh_connection_successful);
                let plan = combine_scores(
                    ssh_score,
                    findings.score,
                    ssh_connection_successful,
                    findings.successful,
                    &config,
                );
                let score = settle_score(plan, score);
                let details = ValidationDetails {
                    ssh_test_duration,
                    binary_upload_duration: Span::zero(),
                    binary_execution_duration: Span::from_millis(findings.execution_time_ms),
                    total_validation_duration: total,
                    ssh_score,
                    binary_score: findings.score,
                    combined_score: score,
                };
                Ok(
                    ExecutorVerificationResult {
                        executor_id: executor.id,
                        grpc_endpoint: executor.grpc_endpoint,
                        verification_score: score,
                        ssh_connection_successful,
                        binary_validation_successful: findings.successful,
                        executor_result: findings.executor_result,
                        error: None,
                        execution_time,
                        validation_details: details,
                        gpu_count: findings.gpu_count,
                        validation_type: ValidationType::Full,
                    },
                )
            },
            phase => Err(FullValidation { executor, config, phase }),
        }
    }
}

/// Runs the binary that validates a machine, over a connection to it.
pub struct BinaryValidator<C> {
    pub ssh_client: Arc<C>,
}

impl<C> BinaryValidator<C> {
    /// Create a new binary validator.
    pub fn new(ssh_client: Arc<C>) -> (r: Self)
        ensures
            r.ssh_client == ssh_client,
    {
        BinaryValidator { ssh_client }
    }
}

/// Validation executor for running different validation strategies.
pub struct ValidationExecutor<C, M, P> {
    pub ssh_client: Arc<C>,
    pub binary_validator: BinaryValidator<C>,
    pub metrics: Option<Arc<M>>,
    pub persistence: Arc<P>,
}

impl<C, M, P> ValidationExecutor<C, M, P> {
    /// Create a new validation executor.
    pub fn new(ssh_client: Arc<C>, metrics: Option<Arc<M>>, persistence: Arc<P>) -> (r: Self)
        ensures
            r.ssh_client == ssh_client,
            r.binary_validator.ssh_client == ssh_client,
            r.metrics == metrics,
            r.persistence == persistence,
    {
        let binary_validator = BinaryValidator::new(ssh_client.clone());
        ValidationExecutor { ssh_client, binary_validator, metrics, persistence }
    }

    /// Execute lightweight validation (connectivity check only): its result,
    /// and what the metrics are told of it, from the answer of the machine
    /// when it was asked for its GPUs and the time that took.
    pub fn execute_lightweight_validation<R>(
        &self,
        executor_info: &ExecutorInfoDetailed,
        previous_score: Score,
        executor_result: Option<R>,
        gpu_count: u64,
        answer: Option<&str>,
        elapsed: Span,
    ) -> (r: (ExecutorVerificationResult<R>, AttestationRecord))
        ensures
            lightweight_result(
                *executor_info,
                previous_score,
                executor_result,
                gpu_count,
                is_available(optional_chars(answer)),
                elapsed,
                r.0,
            ),
            attests(
                r.1,
                *executor_info,
                "connectivity_check"@,
                is_available(optional_chars(answer)),
                is_available(optional_chars(answer)),
                false,
            ),
    {
        let available: bool = match answer {
            Some(output) => count_gpus(output) > 0,
            None => false,
        };
        let score = if available {
            previous_score
        } else {
            Score { bits: 0 }
        };
        let details = ValidationDetails {
            ssh_test_duration: elapsed,
            binary_upload_duration: Span::zero(),
            binary_execution_duration: Span::zero(),
            total_validation_duration: elapsed,
            ssh_score: if available {
                Score { bits: ONE }
            } else {
                Score { bits: 0 }
            },
            binary_score: Score { bits: 0 },
            combined_score: score,
        };
        let record = AttestationRecord {
            executor_id: executor_info.id.clone(),
            attestation: "connectivity_check",
            successful: available,
            signature_valid: available,
            hardware_attested: false,
        };
        let result = ExecutorVerificationResult {
            executor_id: executor_info.id.clone(),
            grpc_endpoint: executor_info.grpc_endpoint.clone(),
            verification_score: score,
            ssh_connection_successful: available,
            binary_validation_successful: false,
            executor_result,
            error: if available {
                None
            } else {
                Some("Connectivity check failed".to_owned())
            },
            execution_time: elapsed,
            validation_details: details,
            gpu_count,
            validation_type: ValidationType::Lightweight,
        };
        (result, record)
    }

    /// Execute full validation: the validation, at its beginning.
    pub fn execute_full_validation<R>(
        &self,
        executor_info: &ExecutorInfoDetailed,
        binary_config: &BinaryValidationConfig,
    ) -> (r: FullValidation<R>)
        ensures
            r.executor.id@ == executor_info.id@,
            r.executor.grpc_endpoint@ == executor_info.grpc_endpoint@,
            r.config == *binary_config,
            r.phase is Connect,
    {
        FullValidation {
            executor: ExecutorInfoDetailed {
                id: executor_info.id.clone(),
                grpc_endpoint: executor_info.grpc_endpoint.clone(),
            },
            config: *binary_config,
            phase: FullPhase::Connect,
        }
    }

    /// Calculate validation score from raw GPU results: how it comes about.
    pub fn calculate_validation_score_from_raw_results(&self, raw_json: &JsonValue) -> (r: Result<
        RunScore,
        ScoreError,
    >)
        ensures
            crate::scoring::run_score(raw_json@, r),
    {
        score_run(raw_json)
    }

    /// Calculate combined verification score from SSH and binary validation:
    /// how it is put together.
    pub fn calculate_combined_verification_score(
        &self,
        ssh_score: Score,
        binary_score: Score,
        ssh_successful: bool,
        binary_successful: bool,
        binary_config: &BinaryValidationConfig,
    ) -> (r: CombinedScore)
        ensures
            r == crate::scoring::combined_score(
                ssh_score,
                binary_score,
                ssh_successful,
                binary_successful,
                *binary_config,
            ),
    {
        combine_scores(ssh_score, binary_score, ssh_successful, binary_successful, binary_config)
    }

    /// Collect hardware profile from executor using lshw: the collection that
    /// does so, at its beginning.
    pub fn collect_hardware_profile<E>(
        &self,
        executor_info: &ExecutorInfoDetailed,
        miner_uid: u16,
    ) -> (r: HardwareCollection<E>)
        ensures
            r.executor_id@ == executor_info.id@,
            r.miner_uid == miner_uid,
            r.rules == ProfileRules::Parts,
            r.phase is Install,
    {
        HardwareCollection::start(executor_info.id.as_str(), miner_uid, ProfileRules::Parts)
    }
}

/// A full validation whose connection fails ends there: nothing is collected
/// and nothing is run, the score is zero, and the binary counts as passed only
/// if it is switched off.
pub proof fn law_failed_connection_ends_validation<R>(
    config: BinaryValidationConfig,
    elapsed: Span,
)
    ensures
        next_full_phase(
            config,
            FullPhase::<R>::Connect,
            FullReply::Connected { successful: false, elapsed },
        ) == (FullPhase::<R>::Combine {
            ssh_test_duration: elapsed,
            ssh_connection_successful: false,
            findings: findings_without_run(config),
        }),
        full_score(config, false, findings_without_run::<R>(config)) == CombinedScore::Zero,
        findings_without_run::<R>(config).successful <==> !config.enabled,
{
}

/// Whether the hardware profile could be collected makes no difference to a
/// full validation.
pub proof fn law_profile_does_not_matter<R>(
    config: BinaryValidationConfig,
    phase: FullPhase<R>,
    one: bool,
    other: bool,
)
    ensures
        next_full_phase(config, phase, FullReply::Profiled { successful: one }) == next_full_phase(
            config,
            phase,
            FullReply::Profiled { successful: other },
        ),
{
}

/// Where a row of replies takes a full validation from its beginning.
pub open spec fn full_phase_after<R>(
    config: BinaryValidationConfig,
    replies: Seq<FullReply<R>>,
) -> FullPhase<R>
    decreases replies.len(),
{
    if replies.len() == 0 {
        FullPhase::Connect
    } else {
        next_full_phase(config, full_phase_after(config, replies.drop_last()), replies.last())
    }
}

/// Whether some reply says that the connection stands.
pub open spec fn connection_reported<R>(replies: Seq<FullReply<R>>) -> bool {
    exists|i: int|
        0 <= i < replies.len() && (#[trigger] replies[i] matches FullReply::Connected {
            successful,
            ..
        } && successful)
}

/// Whatever is replied in whatever order, the profile is collected and the
/// binary is run only over a connection that was reported to stand, and the
/// binary is run only if it is switched on.
pub proof fn law_nothing_runs_unconnected<R>(
    config: BinaryValidationConfig,
    replies: Seq<FullReply<R>>,
)
    ensures
        match full_phase_after(config, replies) {
            FullPhase::Connect => true,
            FullPhase::Profile { .. } => connection_reported(replies),
            FullPhase::Binary { .. } => connection_reported(replies) && config.enabled,
            FullPhase::Attest { .. } => connection_reported(replies) && config.enabled,
            FullPhase::Combine { ssh_connection_successful, .. } => ssh_connection_successful
                ==> connection_reported(replies),
        },
    decreases replies.len(),
{
    if replies.len() > 0 {
        let before = replies.drop_last();
        law_nothing_runs_unconnected(config, before);
        if connection_reported(before) {
            let i = choose|i: int|
                0 <= i < before.len() && (#[trigger] before[i] matches FullReply::Connected {
                    successful,
                    ..
                } && successful);
            assert(replies[i] == before[i]);
        }
        assert(replies[replies.len() - 1] == replies.last());
    }
}

/// With the binary switched off, a machine that is connected passes with the
/// score of the connection.
pub proof fn law_switched_off_binary_passes<R>(
    config: BinaryValidationConfig,
    elapsed: Span,
    profiled: bool,
)
    requires
        !config.enabled,
    ensures
        full_phase_after(
            config,
            seq![
                FullReply::<R>::Connected { successful: true, elapsed },
                FullReply::Profiled { successful: profiled },
            ],
        ) == (FullPhase::<R>::Combine {
            ssh_test_duration: elapsed,
            ssh_connection_successful: true,
            findings: findings_without_run(config),
        }),
        findings_without_run::<R>(config).successful,
        full_score(config, true, findings_without_run::<R>(config)) == (CombinedScore::Ssh {
            ssh_score: full_ssh_score(true),
        }),
{
    reveal_with_fuel(full_phase_after, 3);
    let replies = seq![
        FullReply::<R>::Connected { successful: true, elapsed },
        FullReply::Profiled { successful: profiled },
    ];
    assert(replies.drop_last() == seq![FullReply::<R>::Connected { successful: true, elapsed }]);
    assert(replies.drop_last().drop_last() == Seq::<FullReply<R>>::empty());
}

/// With the binary switched on, a machine that is connected is judged by what
/// the binary found: by both scores if it passed, else by half the score of
/// the connection.
pub proof fn law_binary_decides<R>(
    config: BinaryValidationConfig,
    elapsed: Span,
    profiled: bool,
    run: Option<BinaryValidationResult<R>>,
)
    requires
        config.enabled,
    ensures
        full_phase_after(
            config,
            seq![
                FullReply::Connected { successful: true, elapsed },
                FullReply::Profiled { successful: profiled },
                FullReply::Binary(run),
                FullReply::Attested,
            ],
        ) == (FullPhase::Combine {
            ssh_test_duration: elapsed,
            ssh_connection_successful: true,
            findings: findings_of_run(run),
        }),
        full_score(config, true, findings_of_run(run)) == (match run {
            Some(found) => if found.success {
                CombinedScore::Weighted {
                    ssh_score: full_ssh_score(true),
                    binary_score: found.validation_score,
                    weight: config.score_weight,
                }
            } else {
                CombinedScore::HalfSsh { ssh_score: full_ssh_score(true) }
            },
            None => CombinedScore::HalfSsh { ssh_score: full_ssh_score(true) },
        }),
{
    reveal_with_fuel(full_phase_after, 5);
    let replies = seq![
        FullReply::Connected { successful: true, elapsed },
        FullReply::Profiled { successful: profiled },
        FullReply::Binary(run),
        FullReply::Attested,
    ];
    let three = replies.drop_last();
    assert(three == seq![
        FullReply::Connected { successful: true, elapsed },
        FullReply::Profiled { successful: profiled },
        FullReply::Binary(run),
    ]);
    let two = three.drop_last();
    assert(two == seq![
        FullReply::Connected { successful: true, elapsed },
        FullReply::<R>::Profiled { successful: profiled },
    ]);
    let one = two.drop_last();
    assert(one == seq![FullReply::<R>::Connected { successful: true, elapsed }]);
    assert(one.drop_last() == Seq::<FullReply<R>>::empty());
}

/// Whether a reply answers the request that is open in a phase.
pub open spec fn answers_full<R>(phase: FullPhase<R>, reply: FullReply<R>) -> bool {
    match phase {
        FullPhase::Connect => reply is Connected,
        FullPhase::Profile { .. } => reply is Profiled,
        FullPhase::Binary { .. } => reply is Binary,
        FullPhase::Attest { .. } => reply is Attested,
        FullPhase::Combine { .. } => false,
    }
}

/// How many requests can still be answered before all is known.
pub open spec fn requests_left<R>(phase: FullPhase<R>) -> nat {
    match phase {
        FullPhase::Connect => 4,
        FullPhase::Profile { .. } => 3,
        FullPhase::Binary { .. } => 2,
        FullPhase::Attest { .. } => 1,
        FullPhase::Combine { .. } => 0,
    }
}

/// Every answer brings a full validation nearer to its end: after four answers
/// at most all is known.
pub proof fn law_answers_end_a_full_validation<R>(
    config: BinaryValidationConfig,
    phase: FullPhase<R>,
    reply: FullReply<R>,
)
    requires
        answers_full(phase, reply),
    ensures
        requests_left(phase) <= 4,
        requests_left(next_full_phase(config, phase, reply)) < requests_left(phase),
        requests_left(next_full_phase(config, phase, reply)) == 0 <==> next_full_phase(
            config,
            phase,
            reply,
        ) is Combine,
{
}

/// Only a binary that passed leaves the score of a full validation to
/// arithmetic: without a connection it is zero, with the binary switched off
/// that of the connection, and with a binary that failed half of that.
pub proof fn law_score_is_settled_unless_weighted<R>(
    config: BinaryValidationConfig,
    connected: bool,
    findings: BinaryFindings<R>,
    worked_out: Score,
)
    requires
        !(connected && config.enabled && findings.successful),
    ensures
        crate::scoring::settled_score(full_score(config, connected, findings), worked_out) == (
        if !connected {
            zero_score()
        } else if !config.enabled {
            full_ssh_score(true)
        } else {
            Score { bits: crate::binary64::half(EIGHT_TENTHS) }
        }),
{
}

/// Whether a machine that was asked for its GPUs named one: it answered, and
/// some line of the answer begins, after white space, with `GPU-`.
pub open spec fn named_a_gpu(answer: Option<&str>) -> bool {
    answer matches Some(output) && crate::probe::some_gpu_at(output@)
}

/// A machine that answers with at least one line that names a GPU keeps its
/// previous score and has no error; any other scores zero, with an error. All
/// else is carried over as it was handed in.
pub proof fn law_named_gpu_keeps_the_score<C, M, P, R>(
    validator: ValidationExecutor<C, M, P>,
    executor: ExecutorInfoDetailed,
    previous_score: Score,
    executor_result: Option<R>,
    gpu_count: u64,
    answer: Option<&str>,
    elapsed: Span,
    r: (ExecutorVerificationResult<R>, AttestationRecord),
)
    requires
        call_ensures(
            ValidationExecutor::<C, M, P>::execute_lightweight_validation::<R>,
            (&validator, &executor, previous_score, executor_result, gpu_count, answer, elapsed),
            r,
        ),
    ensures
        named_a_gpu(answer) ==> {
            &&& r.0.verification_score == previous_score
            &&& r.0.validation_details.combined_score == previous_score
            &&& r.0.validation_details.ssh_score.bits == 0x3ff0_0000_0000_0000
            &&& r.0.ssh_connection_successful
            &&& r.0.error is None
            &&& r.1.successful
            &&& r.1.signature_valid
        },
        !named_a_gpu(answer) ==> {
            &&& r.0.verification_score.bits == 0
            &&& r.0.validation_details.combined_score.bits == 0
            &&& r.0.validation_details.ssh_score.bits == 0
            &&& !r.0.ssh_connection_successful
            &&& r.0.error matches Some(error) && error@ == "Connectivity check failed"@
            &&& !r.1.successful
            &&& !r.1.signature_valid
        },
        r.0.executor_id@ == executor.id@,
        r.0.grpc_endpoint@ == executor.grpc_endpoint@,
        !r.0.binary_validation_successful,
        r.0.executor_result == executor_result,
        r.0.gpu_count == gpu_count,
        r.0.execution_time == elapsed,
        r.0.validation_details.ssh_test_duration == elapsed,
        r.0.validation_details.total_validation_duration == elapsed,
        r.0.validation_details.binary_upload_duration.length() == 0,
        r.0.validation_details.binary_execution_duration.length() == 0,
        r.0.validation_details.binary_score.bits == 0,
        r.0.validation_type == ValidationType::Lightweight,
        r.1.executor_id@ == executor.id@,
        r.1.attestation@ == "connectivity_check"@,
        !r.1.hardware_attested,
{
    if let Some(output) = answer {
        crate::probe::law_gpus_are_counted_where_they_are_named(output@);
    }
}

/// An answer of a single line that names a GPU is enough, whatever white space
/// stands before the name and whatever follows it.
pub proof fn law_one_line_is_enough(blank: Seq<char>, rest: Seq<char>)
    requires
        forall|i: int|
            0 <= i < blank.len() ==> crate::text::is_white_space(#[trigger] blank[i]) && blank[i]
                != '\n',
    ensures
        is_available(Some(blank + seq!['G', 'P', 'U', '-'] + rest)),
{
    let output = blank + seq!['G', 'P', 'U', '-'] + rest;
    let n = blank.len() as int;
    assert forall|i: int| 0 <= i < n implies crate::text::is_white_space(#[trigger] output[i])
        && output[i] != '\n' by {
        assert(output[i] == blank[i]);
    }
    assert(crate::probe::gpu_at(output, 0, n));
    crate::probe::law_gpus_are_counted_where_they_are_named(output);
}

/// Lines beside one that names a GPU, before it or after it, take nothing away.
pub proof fn law_more_lines_take_nothing_away(before: Seq<char>, line: Seq<char>, after: Seq<char>)
    requires
        is_available(Some(line)),
    ensures
        is_available(Some(before + seq!['\n'] + line)),
        is_available(Some(line + seq!['\n'] + after)),
{
    crate::probe::law_answers_add_up(before, line);
    crate::probe::law_gpus_are_counted_where_they_are_named(line);
    let whole = line + seq!['\n'] + after;
    let (p, q) = choose|p: int, q: int| crate::probe::gpu_at(line, p, q);
    assert forall|i: int| p <= i < q implies crate::text::is_white_space(#[trigger] whole[i])
        && whole[i] != '\n' by {
        assert(whole[i] == line[i]);
    }
    assert(crate::probe::gpu_at(whole, p, q));
    crate::probe::law_gpus_are_counted_where_they_are_named(whole);
}

/// A full validation that has come to its end closes with these figures. With
/// the connection standing, the binary switched on and passed, the score is
/// exactly the one that was worked out; without a connection it is zero, with
/// the binary switched off eight tenths, and with a binary that failed four
/// tenths.
pub proof fn law_full_validation_closes<R>(
    validation: FullValidation<R>,
    worked_out: Score,
    total: Span,
    execution_time: Span,
    r: Result<ExecutorVerificationResult<R>, FullValidation<R>>,
)
    requires
        call_ensures(
            FullValidation::<R>::finish,
            (validation, worked_out, total, execution_time),
            r,
        ),
    ensures
        !(validation.phase is Combine) ==> r == Err::<
            ExecutorVerificationResult<R>,
            FullValidation<R>,
        >(validation),
        validation.phase matches FullPhase::Combine {
            ssh_test_duration,
            ssh_connection_successful,
            findings,
        } ==> {
            &&& r matches Ok(result)
            &&& result.validation_details.combined_score == result.verification_score
            &&& !ssh_connection_successful ==> result.verification_score.bits == 0
            &&& ssh_connection_successful && !validation.config.enabled
                ==> result.verification_score.bits == 0x3fe9_9999_9999_999a
            &&& ssh_connection_successful && validation.config.enabled && !findings.successful
                ==> result.verification_score.bits == 0x3fd9_9999_9999_999a
            &&& ssh_connection_successful && validation.config.enabled && findings.successful
                ==> result.verification_score == worked_out
            &&& result.validation_details.ssh_score.bits == (if ssh_connection_successful {
                0x3fe9_9999_9999_999au64
            } else {
                0u64
            })
            &&& result.validation_details.binary_score == findings.score
            &&& result.ssh_connection_successful == ssh_connection_successful
            &&& result.binary_validation_successful == findings.successful
            &&& result.executor_result == findings.executor_result
            &&& result.gpu_count == findings.gpu_count
            &&& result.error is None
            &&& result.executor_id@ == validation.executor.id@
            &&& result.grpc_endpoint@ == validation.executor.grpc_endpoint@
            &&& result.execution_time == execution_time
            &&& result.validation_details.total_validation_duration == total
            &&& result.validation_details.ssh_test_duration == ssh_test_duration
            &&& result.validation_details.binary_upload_duration.length() == 0
            &&& result.validation_details.binary_execution_duration.length()
                == findings.execution_time_ms * 1_000_000
            &&& result.validation_type == ValidationType::Full
        },
{
}

/// What a full validation asks for follows from how far it has come; the
/// metrics are told whether the binary ran to an end and whether it passed, and
/// the scores are to be combined with the configured weight only where a binary
/// passed.
pub proof fn law_full_validation_asks<R>(validation: FullValidation<R>, r: FullRequest)
    requires
        call_ensures(FullValidation::<R>::request, (&validation,), r),
    ensures
        r is TestConnection <==> validation.phase is Connect,
        r is CollectProfile <==> validation.phase is Profile,
        r is RunBinary <==> validation.phase is Binary,
        r is RecordAttestation <==> validation.phase is Attest,
        r is CombineScores <==> validation.phase is Combine,
        validation.phase matches FullPhase::Attest { executed, findings, .. } ==> {
            &&& r matches FullRequest::RecordAttestation(record)
            &&& record.executor_id@ == validation.executor.id@
            &&& record.attestation@ == "hardware_attestation"@
            &&& record.successful == findings.successful
            &&& record.signature_valid == executed
            &&& record.hardware_attested == findings.successful
        },
        validation.phase matches FullPhase::Combine { ssh_connection_successful, findings, .. }
            ==> {
            let ssh_score = Score { bits: 0x3fe9_9999_9999_999a };
            &&& !ssh_connection_successful ==> r == FullRequest::CombineScores(CombinedScore::Zero)
            &&& ssh_connection_successful && !validation.config.enabled ==> r
                == FullRequest::CombineScores(CombinedScore::Ssh { ssh_score })
            &&& ssh_connection_successful && validation.config.enabled && !findings.successful
                ==> r == FullRequest::CombineScores(CombinedScore::HalfSsh { ssh_score })
            &&& ssh_connection_successful && validation.config.enabled && findings.successful ==> r
                == FullRequest::CombineScores(
                CombinedScore::Weighted {
                    ssh_score,
                    binary_score: findings.score,
                    weight: validation.config.score_weight,
                },
            )
        },
{
}

/// Where no binary was run, nothing is known but that a machine passes, with
/// eight tenths, if none need be; a binary that failed to run found nothing;
/// and of any other all that it found counts.
pub proof fn law_findings_are_what_was_found<R>(
    config: BinaryValidationConfig,
    found: BinaryValidationResult<R>,
)
    ensures
        findings_without_run::<R>(config) == (BinaryFindings::<R> {
            successful: !config.enabled,
            score: Score {
                bits: if config.enabled {
                    0
                } else {
                    0x3fe9_9999_9999_999a
                },
            },
            executor_result: None,
            gpu_count: 0,
            execution_time_ms: 0,
        }),
        findings_of_run::<R>(None) == (BinaryFindings::<R> {
            successful: false,
            score: Score { bits: 0 },
            executor_result: None,
            gpu_count: 0,
            execution_time_ms: 0,
        }),
        findings_of_run(Some(found)) == (BinaryFindings {
            successful: found.success,
            score: found.validation_score,
            executor_result: found.executor_result,
            gpu_count: found.gpu_count,
            execution_time_ms: found.execution_time_ms,
        }),
{
}

/// A reply moves a full validation on only if it answers the open request, and
/// it changes nothing but how far the validation has come. A failed connection
/// ends it; whether a profile was collected makes no difference; the binary is
/// run exactly if it is switched on; and what it found is what counts.
pub proof fn law_replies_move_a_full_validation<R>(
    before: FullValidation<R>,
    reply: FullReply<R>,
    after: FullValidation<R>,
)
    requires
        call_ensures(FullValidation::<R>::step, (before, reply), after),
    ensures
        after.executor == before.executor,
        after.config == before.config,
        !answers_full(before.phase, reply) ==> after.phase == before.phase,
        before.phase is Connect ==> (reply matches FullReply::Connected { successful, elapsed }
            ==> {
            &&& successful ==> after.phase == (FullPhase::<R>::Profile {
                ssh_test_duration: elapsed,
            })
            &&& !successful ==> {
                &&& after.phase matches FullPhase::Combine {
                    ssh_test_duration,
                    ssh_connection_successful,
                    findings,
                }
                &&& ssh_test_duration == elapsed
                &&& !ssh_connection_successful
                &&& findings == findings_without_run::<R>(before.config)
            }
        }),
        before.phase matches FullPhase::Profile { ssh_test_duration: d } ==> (reply is Profiled
            ==> {
            &&& before.config.enabled ==> after.phase == (FullPhase::<R>::Binary {
                ssh_test_duration: d,
            })
            &&& !before.config.enabled ==> {
                &&& after.phase matches FullPhase::Combine {
                    ssh_test_duration,
                    ssh_connection_successful,
                    findings,
                }
                &&& ssh_test_duration == d
                &&& ssh_connection_successful
                &&& findings == findings_without_run::<R>(before.config)
            }
        }),
        before.phase matches FullPhase::Binary { ssh_test_duration: d } ==> (
        reply matches FullReply::Binary(run) ==> {
            &&& after.phase matches FullPhase::Attest { ssh_test_duration, executed, findings }
            &&& ssh_test_duration == d
            &&& executed == (run is Some)
            &&& findings == findings_of_run(run)
        }),
        before.phase matches FullPhase::Attest { ssh_test_duration: d, findings: known, .. } ==> (
        reply is Attested ==> {
            &&& after.phase matches FullPhase::Combine {
                ssh_test_duration,
                ssh_connection_successful,
                findings,
            }
            &&& ssh_test_duration == d
            &&& ssh_connection_successful
            &&& findings == known
        }),
{
}

/// From beginning to end: a machine whose connection stands and whose binary
/// passes is scored with exactly the score that was worked out, and its result
/// holds what the binary found, whatever that is and whether or not a profile
/// could be collected.
pub proof fn law_passed_binary_is_scored_as_worked_out<C, M, P, R>(
    validator: ValidationExecutor<C, M, P>,
    executor: ExecutorInfoDetailed,
    config: BinaryValidationConfig,
    start: FullValidation<R>,
    elapsed: Span,
    connected: FullValidation<R>,
    profile_collected: bool,
    profiled: FullValidation<R>,
    found: BinaryValidationResult<R>,
    run: FullValidation<R>,
    told: FullValidation<R>,
    worked_out: Score,
    total: Span,
    execution_time: Span,
    r: Result<ExecutorVerificationResult<R>, FullValidation<R>>,
)
    requires
        config.enabled,
        found.success,
        call_ensures(
            ValidationExecutor::<C, M, P>::execute_full_validation::<R>,
            (&validator, &executor, &config),
            start,
        ),
        call_ensures(
            FullValidation::<R>::step,
            (start, FullReply::Connected { successful: true, elapsed }),
            connected,
        ),
        call_ensures(
            FullValidation::<R>::step,
            (connected, FullReply::Profiled { successful: profile_collected }),
            profiled,
        ),
        call_ensures(
            FullValidation::<R>::step,
            (profiled, FullReply::Binary(Some(found))),
            run,
        ),
        call_ensures(FullValidation::<R>::step, (run, FullReply::Attested), told),
        call_ensures(
            FullValidation::<R>::finish,
            (told, worked_out, total, execution_time),
            r,
        ),
    ensures
        r matches Ok(result) && {
            &&& result.verification_score == worked_out
            &&& result.validation_details.combined_score == worked_out
            &&& result.validation_details.binary_score == found.validation_score
            &&& result.validation_details.ssh_score.bits == 0x3fe9_9999_9999_999a
            &&& result.validation_details.ssh_test_duration == elapsed
            &&& result.ssh_connection_successful
            &&& result.binary_validation_successful
            &&& result.executor_result == found.executor_result
            &&& result.gpu_count == found.gpu_count
            &&& result.error is None
            &&& result.executor_id@ == executor.id@
            &&& result.grpc_endpoint@ == executor.grpc_endpoint@
            &&& result.validation_type == ValidationType::Full
        },
{
}

/// From beginning to end: a machine whose binary fails, or could not be run, is
/// scored with half the score of its connection, whatever was worked out.
pub proof fn law_failed_binary_halves_the_score<C, M, P, R>(
    validator: ValidationExecutor<C, M, P>,
    executor: ExecutorInfoDetailed,
    config: BinaryValidationConfig,
    start: FullValidation<R>,
    elapsed: Span,
    connected: FullValidation<R>,
    profile_collected: bool,
    profiled: FullValidation<R>,
    found: Option<BinaryValidationResult<R>>,
    run: FullValidation<R>,
    told: FullValidation<R>,
    worked_out: Score,
    total: Span,
    execution_time: Span,
    r: Result<ExecutorVerificationResult<R>, FullValidation<R>>,
)
    requires
        config.enabled,
        found matches Some(f) ==> !f.success,
        call_ensures(
            ValidationExecutor::<C, M, P>::execute_full_validation::<R>,
            (&validator, &executor, &config),
            start,
        ),
        call_ensures(
            FullValidation::<R>::step,
            (start, FullReply::Connected { successful: true, elapsed }),
            connected,
        ),
        call_ensures(
            FullValidation::<R>::step,
            (connected, FullReply::Profiled { successful: profile_collected }),
            profiled,
        ),
        call_ensures(FullValidation::<R>::step, (profiled, FullReply::Binary(found)), run),
        call_ensures(FullValidation::<R>::step, (run, FullReply::Attested), told),
        call_ensures(
            FullValidation::<R>::finish,
            (told, worked_out, total, execution_time),
            r,
        ),
    ensures
        r matches Ok(result) && {
            &&& result.verification_score.bits == 0x3fd9_9999_9999_999a
            &&& result.validation_details.combined_score.bits == 0x3fd9_9999_9999_999a
            &&& result.ssh_connection_successful
            &&& !result.binary_validation_successful
            &&& found is None ==> result.executor_result is None && result.gpu_count == 0
                && result.validation_details.binary_score.bits == 0
            &&& found matches Some(f) ==> result.executor_result == f.executor_result
                && result.gpu_count == f.gpu_count && result.validation_details.binary_score
                == f.validation_score
        },
{
}

/// From beginning to end: a machine that cannot be connected to scores zero,
/// and one that is connected while the binary is switched off scores eight
/// tenths, whatever was worked out.
pub proof fn law_connection_alone_decides<C, M, P, R>(
    validator: ValidationExecutor<C, M, P>,
    executor: ExecutorInfoDetailed,
    config: BinaryValidationConfig,
    start: FullValidation<R>,
    successful: bool,
    elapsed: Span,
    connected: FullValidation<R>,
    profile_collected: bool,
    profiled: FullValidation<R>,
    worked_out: Score,
    total: Span,
    execution_time: Span,
    r: Result<ExecutorVerificationResult<R>, FullValidation<R>>,
)
    requires
        !successful || !config.enabled,
        call_ensures(
            ValidationExecutor::<C, M, P>::execute_full_validation::<R>,
            (&validator, &executor, &config),
            start,
        ),
        call_ensures(
            FullValidation::<R>::step,
            (start, FullReply::Connected { successful, elapsed }),
            connected,
        ),
        call_ensures(
            FullValidation::<R>::step,
            (connected, FullReply::Profiled { successful: profile_collected }),
            profiled,
        ),
        call_ensures(
            FullValidation::<R>::finish,
            (profiled, worked_out, total, execution_time),
            r,
        ),
    ensures
        r matches Ok(result) && {
            &&& result.verification_score.bits == (if successful {
                0x3fe9_9999_9999_999au64
            } else {
                0u64
            })
            &&& result.validation_details.combined_score == result.verification_score
            &&& result.ssh_connection_successful == successful
            &&& result.binary_validation_successful == !config.enabled
            &&& result.executor_result is None
            &&& result.gpu_count == 0
            &&& result.error is None
        },
{
}

/// The methods of a validation executor score and combine as the rules of
/// scoring do.
pub proof fn law_validation_executor_keeps_the_rules<C, M, P>(
    validator: ValidationExecutor<C, M, P>,
    raw: JsonValue,
    results: Seq<crate::json::JsonView>,
    scored: Result<RunScore, ScoreError>,
    ssh_score: Score,
    binary_score: Score,
    connected: bool,
    passed: bool,
    config: BinaryValidationConfig,
    combined: CombinedScore,
)
    requires
        call_ensures(
            ValidationExecutor::<C, M, P>::calculate_validation_score_from_raw_results,
            (&validator, &raw),
            scored,
        ),
        call_ensures(
            ValidationExecutor::<C, M, P>::calculate_combined_verification_score,
            (&validator, ssh_score, binary_score, connected, passed, &config),
            combined,
        ),
    ensures
        crate::json::has_member(raw@, "gpu_results"@, crate::json::JsonView::Array(results)) ==> {
            &&& scored matches Ok(outcome)
            &&& outcome is Zero <==> results.len() == 0
            &&& outcome matches RunScore::Average(gpus) ==> gpus@.len() == results.len() && 30
                * results.len() <= crate::scoring::total_points(gpus@) <= 90 * results.len()
        },
        combined is Zero <==> !connected,
        connected && !config.enabled ==> combined == (CombinedScore::Ssh { ssh_score }),
        connected && config.enabled && !passed ==> combined == (CombinedScore::HalfSsh {
            ssh_score,
        }),
        connected && config.enabled && passed ==> combined == (CombinedScore::Weighted {
            ssh_score,
            binary_score,
            weight: config.score_weight,
        }),
{
    crate::json::law_lookup_gives_the_member(
        raw@,
        "gpu_results"@,
        crate::json::JsonView::Array(results),
    );
    crate::scoring::law_average_in_range(results);
}

/// A validation executor collects the profile of its executor by parts, from
/// the beginning.
pub proof fn law_profile_is_collected_by_parts<C, M, P, E>(
    validator: ValidationExecutor<C, M, P>,
    executor: ExecutorInfoDetailed,
    miner_uid: u16,
    r: HardwareCollection<E>,
)
    requires
        call_ensures(
            ValidationExecutor::<C, M, P>::collect_hardware_profile::<E>,
            (&validator, &executor, miner_uid),
            r,
        ),
    ensures
        r.executor_id@ == executor.id@,
        r.miner_uid == miner_uid,
        r.rules == ProfileRules::Parts,
        r.phase is Install,
{
}

/// A full validation begins with the connection to its executor, under the
/// configuration that was handed in.
pub proof fn law_full_validation_begins<C, M, P, R>(
    validator: ValidationExecutor<C, M, P>,
    executor: ExecutorInfoDetailed,
    config: BinaryValidationConfig,
    r: FullValidation<R>,
)
    requires
        call_ensures(
            ValidationExecutor::<C, M, P>::execute_full_validation::<R>,
            (&validator, &executor, &config),
            r,
        ),
    ensures
        r.executor.id@ == executor.id@,
        r.executor.grpc_endpoint@ == executor.grpc_endpoint@,
        r.config.enabled == config.enabled,
        r.config.score_weight == config.score_weight,
        r.phase is Connect,
{
}

/// A validation executor works with what it was made of, and its binary
/// validator with the same connection.
pub proof fn law_validation_executor_is_made_of_its_parts<C, M, P>(
    ssh_client: Arc<C>,
    metrics: Option<Arc<M>>,
    persistence: Arc<P>,
    binary_validator: BinaryValidator<C>,
    r: ValidationExecutor<C, M, P>,
)
    requires
        call_ensures(BinaryValidator::<C>::new, (ssh_client,), binary_validator),
        call_ensures(
            ValidationExecutor::<C, M, P>::new,
            (ssh_client, metrics, persistence),
            r,
        ),
    ensures
        binary_validator.ssh_client == ssh_client,
        r.ssh_client == ssh_client,
        r.binary_validator == binary_validator,
        r.metrics == metrics,
        r.persistence == persistence,
{
}

} // verus!
