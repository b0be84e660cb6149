//! Choosing between a full and a lightweight validation of an executor.
//!
//! A [`StrategyDetermination`] asks what it has to know, one question after
//! the other; the caller looks the answers up and hands them to
//! [`StrategyDetermination::step`]. Whatever cannot be found out leads to a
//! full validation.

use std::sync::Arc;
use vstd::prelude::*;
use vstd::string::*;
use crate::binary64::Score;
use crate::clock::{passed, read_time, Span, UtcTime};
use crate::text::{decimal_text, same_text};

verus! {

/// Validation strategy to determine execution path.
#[derive(Debug, Clone)]
pub enum ValidationStrategy<R> {
    /// Full binary validation required.
    Full,
    /// Lightweight connectivity check only.
    Lightweight {
        previous_score: Score,
        executor_result: Option<R>,
        gpu_count: u64,
        binary_validation_successful: bool,
    },
}

/// What the choice of a strategy depends on beside the executor.
#[derive(Debug, Clone, Copy)]
pub struct VerificationConfig {
    /// How long a successful binary validation stands for the next ones.
    pub executor_validation_interval: Span,
}

/// The last successful binary validation on record.
#[derive(Debug)]
pub struct LastValidationRow {
    /// When it was, as RFC 3339 writes it.
    pub timestamp: String,
    pub score: Score,
}

/// The outcome of the last full validation on record.
#[derive(Debug)]
pub struct FullValidationData<R> {
    pub score: Score,
    pub executor_result: Option<R>,
    pub gpu_count: u64,
    pub binary_validation_successful: bool,
}

/// How far the choice has come.
#[derive(Debug)]
pub enum StrategyPhase<R> {
    /// The executor's status has to be looked up.
    Status,
    /// The last successful binary validation has to be looked up, for the
    /// first or for the second time.
    LastValidation { again: bool },
    /// The last full validation has to be looked up.
    History,
    /// The choice is made.
    Decided(ValidationStrategy<R>),
}

/// What has to be looked up.
#[derive(Debug)]
pub enum StrategyRequest<'a> {
    /// The status of an executor of a miner.
    Status { query: &'static str, executor_id: &'a str, miner_id: &'a str },
    /// The last successful binary validation of an executor.
    LastValidation { query: &'static str, executor_id: &'a str },
    /// The last full validation of an executor of a miner.
    History { executor_id: &'a str, miner_id: &'a str },
}

/// What a look-up found.
#[derive(Debug)]
pub enum StrategyReply<R> {
    /// The status of the executor, if it is known.
    Status(Option<String>),
    /// The last successful binary validation, if there was one, and the time
    /// at which the answer came.
    LastValidation { row: Option<LastValidationRow>, now: UtcTime },
    /// The last full validation, if there was one.
    History(Option<FullValidationData<R>>),
    /// The look-up failed.
    Failed,
}

/// A choice under way.
#[derive(Debug)]
pub struct StrategyDetermination<R> {
    pub executor_id: String,
    pub miner_id: String,
    pub interval: Span,
    pub phase: StrategyPhase<R>,
    /// Why the last validation on record could not be judged, if it could not.
    pub failure: Option<String>,
}

/// The query for the status of an executor; it takes the executor and the
/// miner.
pub const STATUS_QUERY: &'static str =
    "SELECT status FROM miner_executors WHERE executor_id = ? AND miner_id = ?";

/// The query for the last successful binary validation of an executor; it
/// takes the executor.
pub const LAST_VALIDATION_QUERY: &'static str =
    r#"
            SELECT timestamp, score
            FROM verification_logs
            WHERE executor_id = ?
              AND success = 1
              AND verification_type = 'ssh_automation'
              AND (
                json_extract(details, '$.binary_validation_successful') = 1
                OR json_extract(details, '$.binary_validation_successful') = 'true'
              )
            ORDER BY timestamp DESC
            LIMIT 1
        "#;

/// How a miner is called in the records.
pub open spec fn miner_name(miner_uid: u16) -> Seq<char> {
    "miner_"@ + crate::text::decimal(miner_uid as nat)
}

/// Whether an executor with this status can do without a full validation.
pub open spec fn is_trusted_status(status: Seq<char>) -> bool {
    status == "online"@ || status == "verified"@
}

/// Whether a validation at a time that a text writes is too old to stand for
/// another one, or cannot be told to be young enough.
pub open spec fn is_stale(timestamp: Seq<char>, now: UtcTime, interval: Span) -> bool {
    match crate::clock::rfc3339_time(timestamp) {
        Ok(then) => interval.length() > crate::clock::LONGEST_INTERVAL
            || crate::clock::nanos_between(
            now.second() as int,
            now.nanosecond() as int,
            then.0 as int,
            then.1 as int,
        ) > interval.length(),
        Err(_) => true,
    }
}

/// Why a validation at a time that a text writes cannot be judged: the text
/// writes no time, or the interval is too long to be compared.
pub open spec fn judging_failure(timestamp: Seq<char>, interval: Span) -> Option<Seq<char>> {
    match crate::clock::rfc3339_time(timestamp) {
        Ok(_) => if interval.length() > crate::clock::LONGEST_INTERVAL {
            Some(
                "Invalid validation interval: "@
                    + "Source duration value is out of range for the target type"@,
            )
        } else {
            None
        },
        Err(cause) => Some("Invalid timestamp format: "@ + cause),
    }
}

/// The failure that is known after a reply: that of judging a validation on
/// record where the reply brings one, else the one known before.
pub open spec fn failure_after<R>(
    interval: Span,
    phase: StrategyPhase<R>,
    row: Option<LastValidationRow>,
    before: Option<Seq<char>>,
) -> Option<Seq<char>> {
    match (phase, row) {
        (StrategyPhase::LastValidation { .. }, Some(last)) => judging_failure(
            last.timestamp@,
            interval,
        ),
        _ => before,
    }
}

/// The record of the last validation that a reply brings.
pub open spec fn row_of<R>(reply: StrategyReply<R>) -> Option<LastValidationRow> {
    match reply {
        StrategyReply::LastValidation { row, .. } => row,
        _ => None,
    }
}

/// Where a reply takes the choice. A reply to no open question changes
/// nothing.
pub open spec fn next_phase<R>(
    interval: Span,
    phase: StrategyPhase<R>,
    reply: StrategyReply<R>,
) -> StrategyPhase<R> {
    match (phase, reply) {
        (StrategyPhase::Status, StrategyReply::Status(status)) => match status {
            Some(s) => if is_trusted_status(s@) {
                StrategyPhase::LastValidation { again: false }
            } else {
                StrategyPhase::Decided(ValidationStrategy::Full)
            },
            None => StrategyPhase::Decided(ValidationStrategy::Full),
        },
        (StrategyPhase::LastValidation { again }, StrategyReply::LastValidation { row, now }) => {
            match row {
                Some(last) => if is_stale(last.timestamp@, now, interval) {
                    StrategyPhase::Decided(ValidationStrategy::Full)
                } else {
                    StrategyPhase::History
                },
                None => if again {
                    StrategyPhase::Decided(ValidationStrategy::Full)
                } else {
                    StrategyPhase::LastValidation { again: true }
                },
            }
        },
        (StrategyPhase::History, StrategyReply::History(history)) => match history {
            Some(data) => StrategyPhase::Decided(
                ValidationStrategy::Lightweight {
                    previous_score: data.score,
                    executor_result: data.executor_result,
                    gpu_count: data.gpu_count,
                    binary_validation_successful: data.binary_validation_successful,
                },
            ),
            None => StrategyPhase::Decided(ValidationStrategy::Full),
        },
        (StrategyPhase::Decided(strategy), _) => StrategyPhase::Decided(strategy),
        (_, StrategyReply::Failed) => StrategyPhase::Decided(ValidationStrategy::Full),
        _ => phase,
    }
}

/// Why it cannot be told whether a validation is needed.
#[derive(Debug)]
pub struct StrategyError {
    /// What went wrong, in words.
    pub message: String,
}

/// Reads the last successful binary validation on record.
pub fn read_last_validation(row: Option<LastValidationRow>) -> (r: Result<
    Option<(UtcTime, Score)>,
    StrategyError,
>)
    ensures
        match row {
            Some(last) => match crate::clock::rfc3339_time(last.timestamp@) {
                Ok(then) => {
                    &&& r matches Ok(Some((time, score)))
                    &&& (time.second(), time.nanosecond()) == then
                    &&& score == last.score
                },
                Err(cause) => {
                    &&& r matches Err(error)
                    &&& error.message@ == "Invalid timestamp format: "@ + cause
                },
            },
            None => r == Ok::<Option<(UtcTime, Score)>, StrategyError>(None),
        },
{
    match row {
        Some(last) => match read_time(last.timestamp.as_str()) {
            Ok(time) => Ok(Some((time, last.score))),
            Err(cause) => Err(
                StrategyError {
                    message: "Invalid timestamp format: ".to_owned().concat(cause.as_str()),
                },
            ),
        },
        None => Ok(None),
    }
}

/// Whether a binary validation is needed, given the last successful one: if
/// there was none, or if more than the interval has passed since.
pub fn is_validation_due(last: Option<(UtcTime, Score)>, now: UtcTime, interval: Span) -> (r: Result<
    bool,
    StrategyError,
>)
    ensures
        match last {
            None => r == Ok::<bool, StrategyError>(true),
            Some((then, _)) => if interval.length() <= crate::clock::LONGEST_INTERVAL {
                r == Ok::<bool, StrategyError>(
                    crate::clock::elapsed(now, then) > interval.length(),
                )
            } else {
                &&& r matches Err(error)
                &&& error.message@ == "Invalid validation interval: "@
                    + "Source duration value is out of range for the target type"@
            },
        },
{
    match last {
        None => Ok(true),
        Some((then, _)) => match passed(now, then, interval) {
            Ok(due) => Ok(due),
            Err(cause) => Err(
                StrategyError {
                    message: "Invalid validation interval: ".to_owned().concat(cause.as_str()),
                },
            ),
        },
    }
}

/// Judges a validation at a time that was read.
fn judge<R>(then: UtcTime, score: Score, now: UtcTime, interval: Span) -> (r: (
    StrategyPhase<R>,
    Option<String>,
))
    ensures
        r.0 == (if interval.length() > crate::clock::LONGEST_INTERVAL || crate::clock::elapsed(
            now,
            then,
        ) > interval.length() {
            StrategyPhase::<R>::Decided(ValidationStrategy::Full)
        } else {
            StrategyPhase::<R>::History
        }),
        crate::hardware::optional_text(r.1) == (if interval.length()
            > crate::clock::LONGEST_INTERVAL {
            Some(
                "Invalid validation interval: "@
                    + "Source duration value is out of range for the target type"@,
            )
        } else {
            None
        }),
{
    match is_validation_due(Some((then, score)), now, interval) {
        Ok(due) => if due {
            (StrategyPhase::Decided(ValidationStrategy::Full), None)
        } else {
            (StrategyPhase::History, None)
        },
        Err(error) => (StrategyPhase::Decided(ValidationStrategy::Full), Some(error.message)),
    }
}

/// Where the choice goes if no validation is on record.
fn phase_without_row<R>(again: bool) -> (r: StrategyPhase<R>)
    ensures
        r == (if again {
            StrategyPhase::<R>::Decided(ValidationStrategy::Full)
        } else {
            StrategyPhase::<R>::LastValidation { again: true }
        }),
{
    if again {
        StrategyPhase::Decided(ValidationStrategy::Full)
    } else {
        StrategyPhase::LastValidation { again: true }
    }
}

impl<R> StrategyDetermination<R> {
    /// What has to be looked up next; nothing once the choice is made.
    pub fn request(&self) -> (r: Option<StrategyRequest<'_>>)
        ensures
            match self.phase {
                StrategyPhase::Status => {
                    &&& r matches Some(StrategyRequest::Status { query, executor_id, miner_id })
                    &&& query@ == STATUS_QUERY@
                    &&& executor_id@ == self.executor_id@
                    &&& miner_id@ == self.miner_id@
                },
                StrategyPhase::LastValidation { .. } => {
                    &&& r matches Some(StrategyRequest::LastValidation { query, executor_id })
                    &&& query@ == LAST_VALIDATION_QUERY@
                    &&& executor_id@ == self.executor_id@
                },
                StrategyPhase::History => {
                    &&& r matches Some(StrategyRequest::History { executor_id, miner_id })
                    &&& executor_id@ == self.executor_id@
                    &&& miner_id@ == self.miner_id@
                },
                StrategyPhase::Decided(_) => r is None,
            },
    {
        match &self.phase {
            StrategyPhase::Status => Some(
                StrategyRequest::Status {
                    query: STATUS_QUERY,
                    executor_id: self.executor_id.as_str(),
                    miner_id: self.miner_id.as_str(),
                },
            ),
            StrategyPhase::LastValidation { .. } => Some(
                StrategyRequest::LastValidation {
                    query: LAST_VALIDATION_QUERY,
                    executor_id: self.executor_id.as_str(),
                },
            ),
            StrategyPhase::History => Some(
                StrategyRequest::History {
                    executor_id: self.executor_id.as_str(),
                    miner_id: self.miner_id.as_str(),
                },
            ),
            StrategyPhase::Decided(_) => None,
        }
    }

    /// Takes the reply to the open question.
    pub fn step(self, reply: StrategyReply<R>) -> (r: Self)
        ensures
            r.executor_id == self.executor_id,
            r.miner_id == self.miner_id,
            r.interval == self.interval,
            r.phase == next_phase(self.interval, self.phase, reply),
            crate::hardware::optional_text(r.failure) == failure_after(
                self.interval,
                self.phase,
                row_of(reply),
                crate::hardware::optional_text(self.failure),
            ),
    {
        let StrategyDetermination { executor_id, miner_id, interval, phase, failure } = self;
        let mut failure = failure;
        let phase = match (phase, reply) {
            (StrategyPhase::Status, StrategyReply::Status(status)) => match status {
                Some(s) => if same_text(s.as_str(), "online") || same_text(
                    s.as_str(),
                    "verified",
                ) {
                    StrategyPhase::LastValidation { again: false }
                } else {
                    StrategyPhase::Decided(ValidationStrategy::Full)
                },
                None => StrategyPhase::Decided(ValidationStrategy::Full),
            },
            (
                StrategyPhase::LastValidation { again },
                StrategyReply::LastValidation { row, now },
            ) => match read_last_validation(row) {
                Ok(Some((then, score))) => {
                    let (phase, cause) = judge(then, score, now, interval);
                    failure = cause;
                    phase
                },
                Ok(None) => phase_without_row(again),
                Err(error) => {
                    failure = Some(error.message);
                    StrategyPhase::Decided(ValidationStrategy::Full)
                },
            },
            (StrategyPhase::History, StrategyReply::History(history)) => match history {
                Some(data) => StrategyPhase::Decided(
                    ValidationStrategy::Lightweight {
                        previous_score: data.score,
                        executor_result: data.executor_result,
                        gpu_count: data.gpu_count,
                        binary_validation_successful: data.binary_validation_successful,
                    },
                ),
                None => StrategyPhase::Decided(ValidationStrategy::Full),
            },
            (StrategyPhase::Decided(strategy), _) => StrategyPhase::Decided(strategy),
            (_, StrategyReply::Failed) => StrategyPhase::Decided(ValidationStrategy::Full),
            (phase, _) => phase,
        };
        StrategyDetermination { executor_id, miner_id, interval, phase, failure }
    }

    /// Takes what a look-up of the last successful binary validation found.
    /// The machine's clock is read only where there is a record whose time can
    /// be told and has to be judged.
    pub fn step_with_last_validation(self, row: Option<LastValidationRow>) -> (r: Self)
        ensures
            r.executor_id == self.executor_id,
            r.miner_id == self.miner_id,
            r.interval == self.interval,
            match (self.phase, row) {
                (StrategyPhase::LastValidation { again }, Some(last)) => {
                    if crate::clock::rfc3339_time(last.timestamp@) is Ok {
                        exists|now: UtcTime|
                            {
                                &&& crate::clock::valid_time(now.second(), now.nanosecond())
                                &&& now.nanosecond() < crate::clock::NANOS_PER_SECOND
                                &&& r.phase == #[trigger] next_phase(
                                    self.interval,
                                    self.phase,
                                    StrategyReply::LastValidation { row, now },
                                )
                            }
                    } else {
                        r.phase == StrategyPhase::<R>::Decided(ValidationStrategy::Full)
                    }
                },
                (StrategyPhase::LastValidation { again }, None) => r.phase == (if again {
                    StrategyPhase::<R>::Decided(ValidationStrategy::Full)
                } else {
                    StrategyPhase::<R>::LastValidation { again: true }
                }),
                _ => r.phase == self.phase,
            },
            crate::hardware::optional_text(r.failure) == failure_after(
                self.interval,
                self.phase,
                row,
                crate::hardware::optional_text(self.failure),
            ),
    {
        let ghost before = self.phase;
        let StrategyDetermination { executor_id, miner_id, interval, phase, failure } = self;
        let mut failure = failure;
        let phase = match phase {
            StrategyPhase::LastValidation { again } => match read_last_validation(row) {
                Ok(Some((then, score))) => {
                    let now = UtcTime::now();
                    let (phase, cause) = judge(then, score, now, interval);
                    failure = cause;
                    assert(phase == next_phase(
                        interval,
                        before,
                        StrategyReply::LastValidation { row, now },
                    ));
                    phase
                },
                Ok(None) => phase_without_row(again),
                Err(error) => {
                    failure = Some(error.message);
                    StrategyPhase::Decided(ValidationStrategy::Full)
                },
            },
            phase => phase,
        };
        StrategyDetermination { executor_id, miner_id, interval, phase, failure }
    }

    /// The strategy, or the choice itself if it is not made yet.
    pub fn outcome(self) -> (r: Result<ValidationStrategy<R>, Self>)
        ensures
            match self.phase {
                StrategyPhase::Decided(strategy) => r == Ok::<ValidationStrategy<R>, Self>(
                    strategy,
                ),
                _ => r == Err::<ValidationStrategy<R>, Self>(self),
            },
    {
        let StrategyDetermination { executor_id, miner_id, interval, phase, failure } = self;
        match phase {
            StrategyPhase::Decided(strategy) => Ok(strategy),
            phase => Err(StrategyDetermination { executor_id, miner_id, interval, phase, failure }),
        }
    }
}

/// Validation strategy selector for determining appropriate validation
/// approach.
pub struct ValidationStrategySelector<P> {
    pub config: VerificationConfig,
    pub persistence: Arc<P>,
}

impl<P> ValidationStrategySelector<P> {
    /// Create new validation strategy selector.
    pub fn new(config: VerificationConfig, persistence: Arc<P>) -> (r: Self)
        ensures
            r.config == config,
            r.persistence == persistence,
    {
        ValidationStrategySelector { config, persistence }
    }

    /// Determine validation strategy based on executor status and validation
    /// history: the choice of it, at its beginning.
    pub fn determine_validation_strategy<R>(&self, executor_id: &str, miner_uid: u16) -> (r:
        StrategyDetermination<R>)
        ensures
            r.executor_id@ == executor_id@,
            r.miner_id@ == miner_name(miner_uid),
            r.interval == self.config.executor_validation_interval,
            r.phase is Status,
            r.failure is None,
    {
        StrategyDetermination {
            executor_id: executor_id.to_owned(),
            miner_id: "miner_".to_owned().concat(decimal_text(miner_uid as u64).as_str()),
            interval: self.config.executor_validation_interval,
            phase: StrategyPhase::Status,
            failure: None,
        }
    }
}

/// Where a row of replies takes a choice from its beginning.
pub open spec fn phase_after<R>(interval: Span, replies: Seq<StrategyReply<R>>) -> StrategyPhase<R>
    decreases replies.len(),
{
    if replies.len() == 0 {
        StrategyPhase::Status
    } else {
        next_phase(interval, phase_after(interval, replies.drop_last()), replies.last())
    }
}

/// Whether a reply says that the executor has a trusted status.
pub open spec fn reports_trust<R>(reply: StrategyReply<R>) -> bool {
    reply matches StrategyReply::Status(Some(status)) && is_trusted_status(status@)
}

/// Whether a reply reports a binary validation that is young enough.
pub open spec fn reports_recent_validation<R>(interval: Span, reply: StrategyReply<R>) -> bool {
    &&& reply matches StrategyReply::LastValidation { row: Some(last), now }
    &&& !is_stale(last.timestamp@, now, interval)
}

/// Whether a reply reports the full validation whose outcome a strategy
/// carries.
pub open spec fn reports_history<R>(
    reply: StrategyReply<R>,
    strategy: ValidationStrategy<R>,
) -> bool {
    &&& reply matches StrategyReply::History(Some(data))
    &&& strategy == ValidationStrategy::Lightweight {
        previous_score: data.score,
        executor_result: data.executor_result,
        gpu_count: data.gpu_count,
        binary_validation_successful: data.binary_validation_successful,
    }
}

/// Whether some reply says that the executor has a trusted status.
pub open spec fn trust_reported<R>(replies: Seq<StrategyReply<R>>) -> bool {
    exists|i: int| 0 <= i < replies.len() && reports_trust(#[trigger] replies[i])
}

/// Whether some reply reports a binary validation that is young enough.
pub open spec fn recent_validation_reported<R>(
    interval: Span,
    replies: Seq<StrategyReply<R>>,
) -> bool {
    exists|i: int|
        0 <= i < replies.len() && reports_recent_validation(interval, #[trigger] replies[i])
}

/// Whether some reply reports the full validation whose outcome a strategy
/// carries.
pub open spec fn history_reported<R>(
    replies: Seq<StrategyReply<R>>,
    strategy: ValidationStrategy<R>,
) -> bool {
    exists|i: int| 0 <= i < replies.len() && reports_history(#[trigger] replies[i], strategy)
}

proof fn lemma_reports_last<R>(interval: Span, replies: Seq<StrategyReply<R>>)
    requires
        replies.len() > 0,
    ensures
        trust_reported(replies.drop_last()) ==> trust_reported(replies),
        recent_validation_reported(interval, replies.drop_last()) ==> recent_validation_reported(
            interval,
            replies,
        ),
        forall|strategy: ValidationStrategy<R>| #[trigger]
            history_reported(replies.drop_last(), strategy) ==> history_reported(replies, strategy),
        reports_trust(replies.last()) ==> trust_reported(replies),
        reports_recent_validation(interval, replies.last()) ==> recent_validation_reported(
            interval,
            replies,
        ),
        forall|strategy: ValidationStrategy<R>| #[trigger]
            reports_history(replies.last(), strategy) ==> history_reported(replies, strategy),
{
    let before = replies.drop_last();
    let n = before.len() as int;
    assert(replies[n] == replies.last());
    if trust_reported(before) {
        let i = choose|i: int| 0 <= i < before.len() && reports_trust(#[trigger] before[i]);
        assert(replies[i] == before[i]);
    }
    if recent_validation_reported(interval, before) {
        let i = choose|i: int|
            0 <= i < before.len() && reports_recent_validation(interval, #[trigger] before[i]);
        assert(replies[i] == before[i]);
    }
    assert forall|strategy: ValidationStrategy<R>| #[trigger]
        history_reported(before, strategy) implies history_reported(replies, strategy) by {
        let i = choose|i: int|
            0 <= i < before.len() && reports_history(#[trigger] before[i], strategy);
        assert(replies[i] == before[i]);
    }
}

proof fn lemma_phase_evidence<R>(interval: Span, replies: Seq<StrategyReply<R>>)
    ensures
        match phase_after(interval, replies) {
            StrategyPhase::Status => true,
            StrategyPhase::LastValidation { .. } => trust_reported(replies),
            StrategyPhase::History => trust_reported(replies) && recent_validation_reported(
                interval,
                replies,
            ),
            StrategyPhase::Decided(strategy) => strategy is Lightweight ==> trust_reported(replies)
                && recent_validation_reported(interval, replies) && history_reported(
                replies,
                strategy,
            ),
        },
    decreases replies.len(),
{
    if replies.len() > 0 {
        lemma_phase_evidence(interval, replies.drop_last());
        lemma_reports_last(interval, replies);
        if let StrategyPhase::Decided(strategy) = phase_after(interval, replies) {
            if phase_after(interval, replies.drop_last()) is History && strategy is Lightweight {
                assert(reports_history(replies.last(), strategy));
            }
        }
    }
}

/// A lightweight validation is chosen only on evidence: whatever was replied
/// in whatever order, the executor was reported to have a trusted status, a
/// binary validation was reported that is young enough, and the strategy
/// carries the outcome of a full validation that was reported.
pub proof fn law_lightweight_rests_on_evidence<R>(
    interval: Span,
    replies: Seq<StrategyReply<R>>,
    strategy: ValidationStrategy<R>,
)
    requires
        phase_after(interval, replies) == StrategyPhase::Decided(strategy),
        strategy is Lightweight,
    ensures
        trust_reported(replies),
        recent_validation_reported(interval, replies),
        history_reported(replies, strategy),
{
    lemma_phase_evidence(interval, replies);
}

/// On that evidence, in the order in which it is asked for, a lightweight
/// validation is chosen, whether the binary validation is found at once or the
/// second time.
pub proof fn law_evidence_gives_lightweight<R>(
    interval: Span,
    status: StrategyReply<R>,
    nothing: StrategyReply<R>,
    validation: StrategyReply<R>,
    history: StrategyReply<R>,
    strategy: ValidationStrategy<R>,
)
    requires
        reports_trust(status),
        nothing matches StrategyReply::LastValidation { row: None, .. },
        reports_recent_validation(interval, validation),
        reports_history(history, strategy),
    ensures
        phase_after(interval, seq![status, validation, history]) == StrategyPhase::Decided(
            strategy,
        ),
        phase_after(interval, seq![status, nothing, validation, history])
            == StrategyPhase::Decided(strategy),
{
    reveal_with_fuel(phase_after, 5);
    let short = seq![status, validation, history];
    assert(short.drop_last() == seq![status, validation]);
    assert(short.drop_last().drop_last() == seq![status]);
    assert(short.drop_last().drop_last().drop_last() == Seq::<StrategyReply<R>>::empty());
    let long = seq![status, nothing, validation, history];
    assert(long.drop_last() == seq![status, nothing, validation]);
    assert(long.drop_last().drop_last() == seq![status, nothing]);
    assert(long.drop_last().drop_last().drop_last() == seq![status]);
    assert(long.drop_last().drop_last().drop_last().drop_last()
        == Seq::<StrategyReply<R>>::empty());
}

/// A choice once made stays as it is.
pub proof fn law_decision_is_final<R>(
    interval: Span,
    replies: Seq<StrategyReply<R>>,
    more: Seq<StrategyReply<R>>,
)
    requires
        phase_after(interval, replies) is Decided,
    ensures
        phase_after(interval, replies + more) == phase_after(interval, replies),
    decreases more.len(),
{
    if more.len() == 0 {
        assert(replies + more == replies);
    } else {
        law_decision_is_final(interval, replies, more.drop_last());
        assert((replies + more).drop_last() == replies + more.drop_last());
        assert((replies + more).last() == more.last());
    }
}

/// Whatever fails before the choice is made makes it a full validation, for
/// good.
pub proof fn law_failure_means_full<R>(
    interval: Span,
    replies: Seq<StrategyReply<R>>,
    more: Seq<StrategyReply<R>>,
)
    requires
        !(phase_after(interval, replies) is Decided),
    ensures
        phase_after(interval, replies.push(StrategyReply::Failed) + more)
            == StrategyPhase::<R>::Decided(ValidationStrategy::Full),
{
    let failed = replies.push(StrategyReply::<R>::Failed);
    assert(failed.drop_last() == replies);
    law_decision_is_final(interval, failed, more);
}

/// Whatever speaks against the executor, or is missing for it, makes the
/// choice a full validation: an unknown executor, a status that is not trusted,
/// no binary validation on either look-up, one that is too old, and no full
/// validation to go by.
pub proof fn law_doubt_means_full<R>(
    interval: Span,
    status: Option<String>,
    again: bool,
    last: LastValidationRow,
    now: UtcTime,
)
    ensures
        (status matches Some(s) ==> !is_trusted_status(s@)) ==> next_phase(
            interval,
            StrategyPhase::<R>::Status,
            StrategyReply::Status(status),
        ) == StrategyPhase::<R>::Decided(ValidationStrategy::Full),
        next_phase(
            interval,
            StrategyPhase::<R>::LastValidation { again: true },
            StrategyReply::LastValidation { row: None, now },
        ) == StrategyPhase::<R>::Decided(ValidationStrategy::Full),
        is_stale(last.timestamp@, now, interval) ==> next_phase(
            interval,
            StrategyPhase::<R>::LastValidation { again },
            StrategyReply::LastValidation { row: Some(last), now },
        ) == StrategyPhase::<R>::Decided(ValidationStrategy::Full),
        next_phase(interval, StrategyPhase::<R>::History, StrategyReply::History(None))
            == StrategyPhase::<R>::Decided(ValidationStrategy::Full),
{
}

/// Whether a reply answers the question that is open in a phase.
pub open spec fn answers<R>(phase: StrategyPhase<R>, reply: StrategyReply<R>) -> bool {
    match phase {
        StrategyPhase::Status => reply is Status || reply is Failed,
        StrategyPhase::LastValidation { .. } => reply is LastValidation || reply is Failed,
        StrategyPhase::History => reply is History || reply is Failed,
        StrategyPhase::Decided(_) => true,
    }
}

/// How many questions can still be asked in a phase.
pub open spec fn questions_left<R>(phase: StrategyPhase<R>) -> nat {
    match phase {
        StrategyPhase::Status => 4,
        StrategyPhase::LastValidation { again } => if again {
            2
        } else {
            3
        },
        StrategyPhase::History => 1,
        StrategyPhase::Decided(_) => 0,
    }
}

/// Every answer brings the choice nearer: after four answers at most it is
/// made.
pub proof fn law_answers_lead_to_a_decision<R>(
    interval: Span,
    phase: StrategyPhase<R>,
    reply: StrategyReply<R>,
)
    requires
        answers(phase, reply),
    ensures
        questions_left(phase) <= 4,
        questions_left(phase) == 0 <==> phase is Decided,
        !(phase is Decided) ==> questions_left(next_phase(interval, phase, reply))
            < questions_left(phase),
{
}

/// No two miners go by the same name.
pub proof fn law_miner_names_differ(a: u16, b: u16)
    requires
        miner_name(a) == miner_name(b),
    ensures
        a == b,
{
    let prefix = "miner_"@;
    let x = crate::text::decimal(a as nat);
    let y = crate::text::decimal(b as nat);
    assert(x == (prefix + x).skip(prefix.len() as int));
    assert(y == (prefix + y).skip(prefix.len() as int));
    crate::text::law_decimal_is_unambiguous(a as nat, b as nat);
}

/// A validation that is too old stays too old as time goes by, leap seconds
/// aside.
pub proof fn law_stale_stays_stale(
    timestamp: Seq<char>,
    now: UtcTime,
    later: UtcTime,
    interval: Span,
)
    requires
        is_stale(timestamp, now, interval),
        now.nanosecond() < crate::clock::NANOS_PER_SECOND,
        later.nanosecond() < crate::clock::NANOS_PER_SECOND,
        crate::clock::rfc3339_time(timestamp) matches Ok(then) ==> then.1
            < crate::clock::NANOS_PER_SECOND,
        now.second() < later.second() || (now.second() == later.second() && now.nanosecond()
            <= later.nanosecond()),
    ensures
        is_stale(timestamp, later, interval),
{
}

/// A validation that is young enough for an interval is young enough for any
/// longer one that can be compared at all.
pub proof fn law_longer_interval_keeps_fresh(
    timestamp: Seq<char>,
    now: UtcTime,
    interval: Span,
    longer: Span,
)
    requires
        !is_stale(timestamp, now, interval),
        interval.length() <= longer.length() <= crate::clock::LONGEST_INTERVAL,
    ensures
        !is_stale(timestamp, now, longer),
{
}

/// The nanoseconds of a point in time since 1970, leap seconds aside.
pub open spec fn nanos_since_1970(second: int, nanosecond: int) -> int {
    second * 1_000_000_000 + nanosecond
}

/// A validation on record whose time can be read is judged by the configured
/// interval and by nothing else: the choice goes to a full validation exactly
/// if more nanoseconds have passed than the interval is long, and to the record
/// of the last full validation otherwise. That holds for every interval that
/// can be compared, however short; a longer one gives a full validation.
pub proof fn law_interval_decides<R>(
    before: StrategyDetermination<R>,
    last: LastValidationRow,
    now: UtcTime,
    then: (i64, u32),
    after: StrategyDetermination<R>,
)
    requires
        before.phase is LastValidation,
        crate::clock::rfc3339_time(last.timestamp@) == Ok::<(i64, u32), Seq<char>>(then),
        now.nanosecond() < 1_000_000_000,
        then.1 < 1_000_000_000,
        call_ensures(
            StrategyDetermination::<R>::step,
            (before, StrategyReply::LastValidation { row: Some(last), now }),
            after,
        ),
    ensures
        ({
            let between = nanos_since_1970(now.second() as int, now.nanosecond() as int)
                - nanos_since_1970(then.0 as int, then.1 as int);
            let limit = before.interval.seconds() * 1_000_000_000 + before.interval.nanosecond();
            let comparable = limit <= 9_223_372_036_854_775_807 * 1_000_000;
            &&& after.phase == StrategyPhase::<R>::Decided(ValidationStrategy::Full) <==> between
                > limit || !comparable
            &&& after.phase == StrategyPhase::<R>::History <==> between <= limit && comparable
            &&& comparable ==> after.failure is None
        }),
{
}

/// A validation is young enough until exactly the interval has passed since,
/// and a nanosecond later it is too old, whatever the interval is.
pub proof fn law_border_is_the_interval<R>(
    before: StrategyDetermination<R>,
    last: LastValidationRow,
    then: (i64, u32),
    at_the_end: UtcTime,
    in_time: StrategyDetermination<R>,
    just_after: UtcTime,
    too_late: StrategyDetermination<R>,
)
    requires
        before.phase is LastValidation,
        crate::clock::rfc3339_time(last.timestamp@) == Ok::<(i64, u32), Seq<char>>(then),
        then.1 < 1_000_000_000,
        before.interval.length() <= 9_223_372_036_854_775_807 * 1_000_000,
        at_the_end.nanosecond() < 1_000_000_000,
        just_after.nanosecond() < 1_000_000_000,
        nanos_since_1970(at_the_end.second() as int, at_the_end.nanosecond() as int)
            == nanos_since_1970(then.0 as int, then.1 as int) + before.interval.seconds()
            * 1_000_000_000 + before.interval.nanosecond(),
        nanos_since_1970(just_after.second() as int, just_after.nanosecond() as int)
            == nanos_since_1970(at_the_end.second() as int, at_the_end.nanosecond() as int) + 1,
        call_ensures(
            StrategyDetermination::<R>::step,
            (before, StrategyReply::LastValidation { row: Some(last), now: at_the_end }),
            in_time,
        ),
        call_ensures(
            StrategyDetermination::<R>::step,
            (before, StrategyReply::LastValidation { row: Some(last), now: just_after }),
            too_late,
        ),
    ensures
        in_time.phase is History,
        too_late.phase == StrategyPhase::<R>::Decided(ValidationStrategy::Full),
{
}

/// With the machine's clock, too, the configured interval alone decides: there
/// is a reading by which the validation on record is younger or older than
/// that, as the choice has it.
pub proof fn law_interval_decides_by_the_clock<R>(
    before: StrategyDetermination<R>,
    last: LastValidationRow,
    then: (i64, u32),
    after: StrategyDetermination<R>,
)
    requires
        before.phase is LastValidation,
        crate::clock::rfc3339_time(last.timestamp@) == Ok::<(i64, u32), Seq<char>>(then),
        then.1 < 1_000_000_000,
        before.interval.length() <= 9_223_372_036_854_775_807 * 1_000_000,
        call_ensures(
            StrategyDetermination::<R>::step_with_last_validation,
            (before, Some(last)),
            after,
        ),
    ensures
        exists|now: UtcTime|
            {
                let between = #[trigger] nanos_since_1970(
                    now.second() as int,
                    now.nanosecond() as int,
                ) - nanos_since_1970(then.0 as int, then.1 as int);
                let limit = before.interval.seconds() * 1_000_000_000
                    + before.interval.nanosecond();
                &&& now.nanosecond() < 1_000_000_000
                &&& after.phase == StrategyPhase::<R>::Decided(ValidationStrategy::Full)
                    <==> between > limit
                &&& after.phase == StrategyPhase::<R>::History <==> between <= limit
            },
{
    let now = choose|now: UtcTime|
        {
            &&& crate::clock::valid_time(now.second(), now.nanosecond())
            &&& now.nanosecond() < crate::clock::NANOS_PER_SECOND
            &&& after.phase == #[trigger] next_phase(
                before.interval,
                before.phase,
                StrategyReply::LastValidation { row: Some(last), now },
            )
        };
    assert(nanos_since_1970(now.second() as int, now.nanosecond() as int) == now.second()
        * 1_000_000_000 + now.nanosecond());
}

/// A validation on record whose time cannot be read gives a full validation,
/// and the choice keeps the reason; so does an interval that cannot be
/// compared.
pub proof fn law_unjudged_validation_means_full<R>(
    before: StrategyDetermination<R>,
    last: LastValidationRow,
    now: UtcTime,
    after: StrategyDetermination<R>,
    by_the_clock: StrategyDetermination<R>,
)
    requires
        before.phase is LastValidation,
        call_ensures(
            StrategyDetermination::<R>::step,
            (before, StrategyReply::LastValidation { row: Some(last), now }),
            after,
        ),
        call_ensures(
            StrategyDetermination::<R>::step_with_last_validation,
            (before, Some(last)),
            by_the_clock,
        ),
    ensures
        crate::clock::rfc3339_time(last.timestamp@) matches Err(cause) ==> {
            &&& after.phase == StrategyPhase::<R>::Decided(ValidationStrategy::Full)
            &&& by_the_clock.phase == StrategyPhase::<R>::Decided(ValidationStrategy::Full)
            &&& after.failure matches Some(f) && f@ == "Invalid timestamp format: "@ + cause
            &&& by_the_clock.failure matches Some(f) && f@ == "Invalid timestamp format: "@ + cause
        },
        crate::clock::rfc3339_time(last.timestamp@) is Ok && before.interval.length()
            > 9_223_372_036_854_775_807 * 1_000_000 ==> {
            &&& after.phase == StrategyPhase::<R>::Decided(ValidationStrategy::Full)
            &&& by_the_clock.phase == StrategyPhase::<R>::Decided(ValidationStrategy::Full)
            &&& after.failure matches Some(f) && f@ == "Invalid validation interval: "@
                + "Source duration value is out of range for the target type"@
            &&& by_the_clock.failure matches Some(f) && f@ == "Invalid validation interval: "@
                + "Source duration value is out of range for the target type"@
        },
{
}

/// A reply moves a choice on only if it answers the open question, and it
/// changes neither the executor nor the miner nor the interval. A known status
/// leads on exactly if it is `online` or `verified`; a missing record of a
/// binary validation is looked up once more, and then gives a full validation;
/// a record of a full validation is what a lightweight one carries; and a
/// failure gives a full validation.
pub proof fn law_replies_move_a_choice<R>(
    before: StrategyDetermination<R>,
    reply: StrategyReply<R>,
    after: StrategyDetermination<R>,
)
    requires
        call_ensures(StrategyDetermination::<R>::step, (before, reply), after),
    ensures
        after.executor_id@ == before.executor_id@,
        after.miner_id@ == before.miner_id@,
        after.interval == before.interval,
        before.phase is Decided ==> after.phase == before.phase,
        !answers(before.phase, reply) ==> after.phase == before.phase,
        !(before.phase is Decided) && reply is Failed ==> after.phase
            == StrategyPhase::<R>::Decided(ValidationStrategy::Full),
        before.phase is Status ==> (reply matches StrategyReply::Status(status) ==> {
            let trusted = status matches Some(s) && (s@ == seq!['o', 'n', 'l', 'i', 'n', 'e'] || s@
                == seq!['v', 'e', 'r', 'i', 'f', 'i', 'e', 'd']);
            &&& trusted ==> after.phase == (StrategyPhase::<R>::LastValidation { again: false })
            &&& !trusted ==> after.phase == StrategyPhase::<R>::Decided(ValidationStrategy::Full)
        }),
        before.phase matches StrategyPhase::LastValidation { again } ==> (
        reply matches StrategyReply::LastValidation { row: None, .. } ==> {
            &&& again ==> after.phase == StrategyPhase::<R>::Decided(ValidationStrategy::Full)
            &&& !again ==> after.phase == (StrategyPhase::<R>::LastValidation { again: true })
        }),
        before.phase is History ==> (reply matches StrategyReply::History(history) ==> {
            &&& history is None ==> after.phase == StrategyPhase::<R>::Decided(
                ValidationStrategy::Full,
            )
            &&& history matches Some(data) ==> {
                &&& after.phase matches StrategyPhase::Decided(
                    ValidationStrategy::Lightweight {
                        previous_score,
                        executor_result,
                        gpu_count,
                        binary_validation_successful,
                    },
                )
                &&& previous_score == data.score
                &&& executor_result == data.executor_result
                &&& gpu_count == data.gpu_count
                &&& binary_validation_successful == data.binary_validation_successful
            }
        }),
        !(before.phase is LastValidation && reply is LastValidation) ==> {
            &&& after.failure is None <==> before.failure is None
            &&& before.failure matches Some(f) ==> after.failure matches Some(g) && g@ == f@
        },
{
    reveal_strlit("online");
    reveal_strlit("verified");
    assert("online"@ =~= seq!['o', 'n', 'l', 'i', 'n', 'e']);
    assert("verified"@ =~= seq!['v', 'e', 'r', 'i', 'f', 'i', 'e', 'd']);
}

/// Without a record to judge, a look-up by the clock moves a choice as one with
/// a given time does.
pub proof fn law_missing_record_needs_no_clock<R>(
    before: StrategyDetermination<R>,
    now: UtcTime,
    after: StrategyDetermination<R>,
    by_the_clock: StrategyDetermination<R>,
)
    requires
        call_ensures(
            StrategyDetermination::<R>::step,
            (before, StrategyReply::LastValidation { row: None, now }),
            after,
        ),
        call_ensures(
            StrategyDetermination::<R>::step_with_last_validation,
            (before, None),
            by_the_clock,
        ),
    ensures
        by_the_clock.phase == after.phase,
        by_the_clock.executor_id@ == after.executor_id@,
        by_the_clock.miner_id@ == after.miner_id@,
        by_the_clock.interval == after.interval,
        by_the_clock.failure is None <==> after.failure is None,
{
}

/// A choice begins with the status of the executor, under the miner's name,
/// which is `miner_` and the miner's number, and with the configured interval.
pub proof fn law_choice_begins_with_the_status<P, R>(
    selector: ValidationStrategySelector<P>,
    executor_id: &str,
    miner_uid: u16,
    r: StrategyDetermination<R>,
)
    requires
        call_ensures(
            ValidationStrategySelector::<P>::determine_validation_strategy::<R>,
            (&selector, executor_id, miner_uid),
            r,
        ),
    ensures
        r.executor_id@ == executor_id@,
        r.miner_id@ == seq!['m', 'i', 'n', 'e', 'r', '_'] + crate::text::decimal(miner_uid as nat),
        r.interval == selector.config.executor_validation_interval,
        r.phase is Status,
        r.failure is None,
{
    reveal_strlit("miner_");
    assert("miner_"@ =~= seq!['m', 'i', 'n', 'e', 'r', '_']);
}

/// A choice asks for what its phase names, of its own executor and miner, and
/// it has an outcome exactly if it asks for nothing more.
pub proof fn law_choice_asks_until_it_is_made<'a, R>(
    choice: &'a StrategyDetermination<R>,
    asked: Option<StrategyRequest<'a>>,
    outcome: Result<ValidationStrategy<R>, StrategyDetermination<R>>,
)
    requires
        call_ensures(StrategyDetermination::<R>::request, (choice,), asked),
        call_ensures(StrategyDetermination::<R>::outcome, (*choice,), outcome),
    ensures
        asked is None <==> outcome is Ok,
        outcome is Ok <==> choice.phase is Decided,
        outcome matches Ok(strategy) ==> choice.phase == StrategyPhase::Decided(strategy),
        outcome matches Err(same) ==> same == *choice,
        asked matches Some(StrategyRequest::Status { query, executor_id, miner_id }) ==> {
            &&& choice.phase is Status
            &&& query@
                == "SELECT status FROM miner_executors WHERE executor_id = ? AND miner_id = ?"@
            &&& executor_id@ == choice.executor_id@
            &&& miner_id@ == choice.miner_id@
        },
        asked matches Some(StrategyRequest::LastValidation { query, executor_id }) ==> {
            &&& choice.phase is LastValidation
            &&& query@ == r#"
            SELECT timestamp, score
            FROM verification_logs
            WHERE executor_id = ?
              AND success = 1
              AND verification_type = 'ssh_automation'
              AND (
                json_extract(details, '$.binary_validation_successful') = 1
                OR json_extract(details, '$.binary_validation_successful') = 'true'
              )
            ORDER BY timestamp DESC
            LIMIT 1
        "#@
            &&& executor_id@ == choice.executor_id@
        },
        asked matches Some(StrategyRequest::History { executor_id, miner_id }) ==> choice.phase
            is History && executor_id@ == choice.executor_id@ && miner_id@ == choice.miner_id@,
{
}

/// A binary validation is due if there was none, and else exactly if more than
/// the interval has passed since.
pub proof fn law_validation_is_due_after_the_interval(
    last: Option<(UtcTime, Score)>,
    now: UtcTime,
    interval: Span,
    r: Result<bool, StrategyError>,
)
    requires
        call_ensures(is_validation_due, (last, now, interval), r),
        now.nanosecond() < 1_000_000_000,
        last matches Some(l) ==> l.0.nanosecond() < 1_000_000_000,
        interval.length() <= 9_223_372_036_854_775_807 * 1_000_000,
    ensures
        r matches Ok(due) && (due <==> match last {
            None => true,
            Some((then, _)) => nanos_since_1970(now.second() as int, now.nanosecond() as int)
                - nanos_since_1970(then.second() as int, then.nanosecond() as int)
                > interval.seconds() * 1_000_000_000 + interval.nanosecond(),
        }),
{
}

/// A record is read as the time and the score that it holds; no record is read
/// as none; and one whose time cannot be read gives the reason.
pub proof fn law_records_are_read_as_they_stand(
    row: Option<LastValidationRow>,
    r: Result<Option<(UtcTime, Score)>, StrategyError>,
)
    requires
        call_ensures(read_last_validation, (row,), r),
    ensures
        row is None <==> (r matches Ok(None)),
        row matches Some(last) ==> {
            &&& crate::clock::rfc3339_time(last.timestamp@) matches Ok(then) ==> r matches Ok(
                Some((time, score)),
            ) && time.second() == then.0 && time.nanosecond() == then.1 && score == last.score
            &&& crate::clock::rfc3339_time(last.timestamp@) matches Err(cause) ==> r matches Err(
                error,
            ) && error.message@ == "Invalid timestamp format: "@ + cause
        },
{
}

/// The choice goes to a full validation exactly if the validation on record is
/// due again, or it cannot be told whether it is; leap seconds make no
/// exception, and neither does the score on record.
pub proof fn law_choice_follows_what_is_due<R>(
    before: StrategyDetermination<R>,
    last: LastValidationRow,
    score: Score,
    then: UtcTime,
    now: UtcTime,
    due: Result<bool, StrategyError>,
    after: StrategyDetermination<R>,
)
    requires
        before.phase is LastValidation,
        crate::clock::rfc3339_time(last.timestamp@) == Ok::<(i64, u32), Seq<char>>(
            (then.second(), then.nanosecond()),
        ),
        call_ensures(is_validation_due, (Some((then, score)), now, before.interval), due),
        call_ensures(
            StrategyDetermination::<R>::step,
            (before, StrategyReply::LastValidation { row: Some(last), now }),
            after,
        ),
    ensures
        due matches Ok(d) ==> (d <==> crate::clock::elapsed(now, then) > before.interval.length()),
        due == Ok::<bool, StrategyError>(false) <==> after.phase == StrategyPhase::<R>::History,
        due != Ok::<bool, StrategyError>(false) <==> after.phase == StrategyPhase::<R>::Decided(
            ValidationStrategy::Full,
        ),
{
}

/// A selector works with the configuration and the store that it was made of.
pub proof fn law_selector_is_made_of_its_parts<P>(
    config: VerificationConfig,
    persistence: Arc<P>,
    r: ValidationStrategySelector<P>,
)
    requires
        call_ensures(ValidationStrategySelector::<P>::new, (config, persistence), r),
    ensures
        r.config.executor_validation_interval == config.executor_validation_interval,
        r.persistence == persistence,
{
}

/// A look-up by the clock changes nothing but how far the choice has come and
/// why a record could not be judged, and it changes neither where no record was
/// asked for. A record that can be judged leaves no reason behind.
pub proof fn law_clock_changes_nothing_else<R>(
    before: StrategyDetermination<R>,
    row: Option<LastValidationRow>,
    after: StrategyDetermination<R>,
)
    requires
        call_ensures(
            StrategyDetermination::<R>::step_with_last_validation,
            (before, row),
            after,
        ),
    ensures
        after.executor_id@ == before.executor_id@,
        after.miner_id@ == before.miner_id@,
        after.interval == before.interval,
        !(before.phase is LastValidation) ==> after.phase == before.phase,
        !(before.phase is LastValidation) || row is None ==> {
            &&& after.failure is None <==> before.failure is None
            &&& before.failure matches Some(f) ==> after.failure matches Some(g) && g@ == f@
        },
        before.phase is LastValidation && before.interval.length() <= 9_223_372_036_854_775_807
            * 1_000_000 ==> (row matches Some(last) ==> (crate::clock::rfc3339_time(
            last.timestamp@,
        ) is Ok ==> after.failure is None)),
{
}

} // verus!
