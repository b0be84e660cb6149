use miner_prover::binary64::Score;
use miner_prover::clock::{
    passed, read_time, Span, UtcTime, FIRST_SECOND, LAST_SECOND,
};
use miner_prover::strategy::{
    is_validation_due, read_last_validation, FullValidationData, LastValidationRow,
    StrategyDetermination, StrategyPhase, StrategyReply, StrategyRequest, ValidationStrategy,
    ValidationStrategySelector, VerificationConfig,
};
use std::sync::Arc;

fn score(x: f64) -> Score {
    Score { bits: x.to_bits() }
}

fn at(secs: i64) -> UtcTime {
    UtcTime::new(secs, 0).unwrap()
}

fn hours(n: u64) -> Span {
    Span::new(n * 3600, 0).unwrap()
}

/// Noon of the first of January 2024.
const NOON: i64 = 1704110400;

fn noon_row() -> Option<LastValidationRow> {
    Some(LastValidationRow { timestamp: "2024-01-01T12:00:00Z".to_string(), score: score(0.9) })
}

fn begin(interval: Span) -> StrategyDetermination<u8> {
    let config = VerificationConfig { executor_validation_interval: interval };
    let selector = ValidationStrategySelector::new(config, Arc::new("store"));
    assert_eq!(*selector.persistence, "store");
    selector.determine_validation_strategy("executor-1", 42)
}

fn trusted(interval: Span) -> StrategyDetermination<u8> {
    begin(interval).step(StrategyReply::Status(Some("online".to_string())))
}

fn is_full(choice: StrategyDetermination<u8>) -> bool {
    matches!(choice.outcome(), Ok(ValidationStrategy::Full))
}

fn data() -> FullValidationData<u8> {
    FullValidationData {
        score: score(0.75),
        executor_result: Some(7),
        gpu_count: 8,
        binary_validation_successful: true,
    }
}

#[test]
fn evidence_gives_lightweight() {
    for status in ["online", "verified"] {
        for retry in [false, true] {
            let mut choice = begin(hours(6)).step(StrategyReply::Status(Some(status.to_string())));
            if retry {
                choice = choice.step(StrategyReply::LastValidation { row: None, now: at(NOON) });
                assert!(matches!(choice.phase, StrategyPhase::LastValidation { again: true }));
            }
            let now = at(NOON + 6 * 3600);
            let choice = choice.step(StrategyReply::LastValidation { row: noon_row(), now });
            assert!(matches!(choice.phase, StrategyPhase::History));
            match choice.step(StrategyReply::History(Some(data()))).outcome() {
                Ok(ValidationStrategy::Lightweight {
                    previous_score,
                    executor_result,
                    gpu_count,
                    binary_validation_successful,
                }) => {
                    assert_eq!(previous_score, score(0.75));
                    assert_eq!(executor_result, Some(7));
                    assert_eq!(gpu_count, 8);
                    assert!(binary_validation_successful);
                }
                other => panic!("{:?}", other),
            }
        }
    }
}

#[test]
fn doubt_means_full() {
    for status in [Some("offline"), Some("Online"), Some(""), Some("online "), None] {
        let reply = StrategyReply::Status(status.map(|s| s.to_string()));
        assert!(is_full(begin(hours(6)).step(reply)), "{:?}", status);
    }
    let nothing = || StrategyReply::LastValidation { row: None, now: at(NOON) };
    assert!(is_full(trusted(hours(6)).step(nothing()).step(nothing())));
    let late = at(NOON + 6 * 3600 + 1);
    let stale = StrategyReply::LastValidation { row: noon_row(), now: late };
    assert!(is_full(trusted(hours(6)).step(stale)));
    let garbled = LastValidationRow { timestamp: "yesterday".to_string(), score: score(1.0) };
    let garbled = StrategyReply::LastValidation { row: Some(garbled), now: at(NOON) };
    assert!(is_full(trusted(hours(6)).step(garbled)));
    let endless = Span::new(u64::MAX, 0).unwrap();
    let fresh = || StrategyReply::LastValidation { row: noon_row(), now: at(NOON) };
    assert!(is_full(trusted(endless).step(fresh())));
    assert!(is_full(trusted(hours(6)).step(fresh()).step(StrategyReply::History(None))));
}

#[test]
fn failure_means_full_for_good() {
    let fresh = || StrategyReply::LastValidation { row: noon_row(), now: at(NOON) };
    for choice in [begin(hours(1)), trusted(hours(1)), trusted(hours(1)).step(fresh())] {
        let failed = choice.step(StrategyReply::Failed);
        let more = failed
            .step(StrategyReply::Status(Some("online".to_string())))
            .step(fresh())
            .step(StrategyReply::History(Some(data())));
        assert!(is_full(more));
    }
}

#[test]
fn replies_to_no_question_change_nothing() {
    let choice = begin(hours(1)).step(StrategyReply::History(Some(data())));
    assert!(matches!(choice.phase, StrategyPhase::Status));
    let choice = choice.outcome().unwrap_err();
    assert_eq!(choice.executor_id, "executor-1");
    let choice = trusted(hours(1)).step(StrategyReply::Status(None));
    assert!(matches!(choice.phase, StrategyPhase::LastValidation { again: false }));
}

#[test]
fn questions_name_the_executor_and_the_miner() {
    let choice = begin(hours(1));
    match choice.request() {
        Some(StrategyRequest::Status { query, executor_id, miner_id }) => {
            assert_eq!(
                query,
                "SELECT status FROM miner_executors WHERE executor_id = ? AND miner_id = ?"
            );
            assert_eq!((executor_id, miner_id), ("executor-1", "miner_42"));
        }
        other => panic!("{:?}", other),
    }
    let choice = trusted(hours(1));
    match choice.request() {
        Some(StrategyRequest::LastValidation { query, executor_id }) => {
            assert!(query.contains("verification_type = 'ssh_automation'"));
            assert!(query.contains("ORDER BY timestamp DESC"));
            assert_eq!(executor_id, "executor-1");
        }
        other => panic!("{:?}", other),
    }
    let choice = choice.step(StrategyReply::LastValidation { row: noon_row(), now: at(NOON) });
    match choice.request() {
        Some(StrategyRequest::History { executor_id, miner_id }) => {
            assert_eq!((executor_id, miner_id), ("executor-1", "miner_42"));
        }
        other => panic!("{:?}", other),
    }
    assert!(choice.step(StrategyReply::Failed).request().is_none());
}

#[test]
fn clock_of_the_machine_is_read() {
    let now = UtcTime::now();
    assert_eq!(passed(now, at(NOON), hours(0)), Ok(true));
    let before = Span::new(3600 * 24 * 365 * 1000, 0).unwrap();
    assert_eq!(passed(now, at(NOON), before), Ok(false));
    assert!(is_full(trusted(hours(1)).step_with_last_validation(noon_row())));
    let choice = trusted(before).step_with_last_validation(noon_row());
    assert!(matches!(choice.phase, StrategyPhase::History));
    let choice = trusted(before).step_with_last_validation(None);
    assert!(matches!(choice.phase, StrategyPhase::LastValidation { again: true }));
}

#[test]
fn last_validation_is_read() {
    assert!(matches!(read_last_validation(None), Ok(None)));
    let (time, found) = read_last_validation(noon_row()).unwrap().unwrap();
    assert_eq!(time, at(NOON));
    assert_eq!(found, score(0.9));
    let garbled = LastValidationRow { timestamp: "2024-13-01".to_string(), score: score(0.0) };
    assert_eq!(
        read_last_validation(Some(garbled)).unwrap_err().message,
        "Invalid timestamp format: premature end of input"
    );
}

#[test]
fn validation_is_due_after_the_interval() {
    let last = Some((at(NOON), score(1.0)));
    assert!(matches!(is_validation_due(None, at(NOON), hours(1)), Ok(true)));
    assert!(matches!(is_validation_due(last, at(NOON + 3600), hours(1)), Ok(false)));
    let just_after = UtcTime::new(NOON + 3600, 1).unwrap();
    assert!(matches!(is_validation_due(last, just_after, hours(1)), Ok(true)));
    assert!(matches!(is_validation_due(last, at(NOON - 9999), hours(0)), Ok(false)));
    assert_eq!(
        is_validation_due(last, at(NOON), Span::new(u64::MAX, 0).unwrap()).unwrap_err().message,
        "Invalid validation interval: Source duration value is out of range for the target type"
    );
}

#[test]
fn times_are_read() {
    assert_eq!(read_time("2024-01-01T12:00:00Z"), Ok(at(NOON)));
    assert_eq!(read_time("2024-01-01T14:30:00+02:30"), Ok(at(NOON)));
    assert_eq!(
        read_time("2024-01-01T12:00:00.25Z"),
        Ok(UtcTime::new(NOON, 250_000_000).unwrap())
    );
    assert_eq!(
        read_time("2016-12-31T23:59:60.5Z"),
        Ok(UtcTime::new(1483228799, 1_500_000_000).unwrap())
    );
    assert!(read_time("").is_err());
    assert!(read_time("2024-02-30T00:00:00Z").is_err());
}

#[test]
fn borders_of_time() {
    assert_eq!(FIRST_SECOND, chrono::DateTime::<chrono::Utc>::MIN_UTC.timestamp());
    assert_eq!(LAST_SECOND, chrono::DateTime::<chrono::Utc>::MAX_UTC.timestamp());
    let cases = [
        (0, 0), (-1, 0), (-1, 1_000_000_000), (0, 1_000_000_000), (59, 1_999_999_999),
        (59, 2_000_000_000), (FIRST_SECOND, 0), (FIRST_SECOND - 1, 0), (LAST_SECOND, 1_500_000_000),
        (LAST_SECOND + 1, 0), (i64::MAX, 0), (i64::MIN, 0), (58, 999_999_999), (58, 1_000_000_000),
    ];
    for (secs, nanos) in cases {
        assert_eq!(
            UtcTime::new(secs, nanos).is_some(),
            chrono::DateTime::<chrono::Utc>::from_timestamp(secs, nanos).is_some(),
            "{} {}",
            secs,
            nanos
        );
    }
    assert_eq!(passed(at(LAST_SECOND), at(FIRST_SECOND), hours(1)), Ok(true));
    assert_eq!(passed(at(FIRST_SECOND), at(LAST_SECOND), hours(0)), Ok(false));
}

#[test]
fn leap_seconds_are_counted_where_the_points_lie() {
    // The subtraction of the leap second itself, on either side of midnight.
    let leap = UtcTime::new(1483228799, 1_500_000_000).unwrap();
    let half = Span::new(3600, 500_000_000).unwrap();
    let less = Span::new(3600, 499_999_999).unwrap();
    assert_eq!(passed(leap, at(1483228799 - 3599), half), Ok(false));
    assert_eq!(passed(leap, at(1483228799 - 3599), Span::new(3599, 0).unwrap()), Ok(true));
    for (later, earlier) in [
        ((1483228799 + 3600, 0), (1483228799, 1_500_000_000)),
        ((1483228799, 1_500_000_000), (1483228799 - 3600, 0)),
        ((1483228799, 1_500_000_000), (1483228799 - 86400, 1_200_000_000)),
        ((60, 0), (59, 1_999_999_999)),
        ((86399 + 30, 0), (59, 1_000_000_000)),
    ] {
        let a = chrono::DateTime::<chrono::Utc>::from_timestamp(later.0, later.1).unwrap();
        let b = chrono::DateTime::<chrono::Utc>::from_timestamp(earlier.0, earlier.1).unwrap();
        let between = (a - b).num_nanoseconds().unwrap();
        let whole = Span::new(between as u64 / 1_000_000_000, (between % 1_000_000_000) as u32).unwrap();
        let x = UtcTime::new(later.0, later.1).unwrap();
        let y = UtcTime::new(earlier.0, earlier.1).unwrap();
        assert_eq!(passed(x, y, whole), Ok(false));
        let shorter = between - 1;
        let shorter =
            Span::new(shorter as u64 / 1_000_000_000, (shorter % 1_000_000_000) as u32).unwrap();
        assert_eq!(passed(x, y, shorter), Ok(true));
    }
    assert_eq!(passed(leap, at(1483228799 - 3600), less), Ok(true));
}

#[test]
fn longest_interval() {
    let longest = Span::new(9223372036854775, 807_000_000).unwrap();
    assert_eq!(passed(at(0), at(0), longest), Ok(false));
    let longer = Span::new(9223372036854775, 807_000_001).unwrap();
    assert_eq!(
        passed(at(0), at(0), longer),
        Err("Source duration value is out of range for the target type".to_string())
    );
}

#[test]
fn spans() {
    let span = Span::from_millis(1234);
    assert_eq!((span.as_secs(), span.subsec_nanos()), (1, 234_000_000));
    assert_eq!(Span::from_millis(0), Span::zero());
    assert_eq!(Span::new(0, 1_000_000_000), None);
    assert_eq!(Span::from_millis(u64::MAX).as_secs(), u64::MAX / 1000);
}

#[test]
fn miner_names_differ() {
    let config = VerificationConfig { executor_validation_interval: hours(1) };
    let selector = ValidationStrategySelector::new(config, Arc::new(()));
    for (uid, name) in [(0u16, "miner_0"), (10, "miner_10"), (65535, "miner_65535")] {
        let choice: StrategyDetermination<()> = selector.determine_validation_strategy("e", uid);
        assert_eq!(choice.miner_id, name);
    }
}

#[test]
fn what_could_not_be_judged_says_why() {
    let garbled =
        || Some(LastValidationRow { timestamp: "2024-13-01".to_string(), score: score(1.0) });
    let endless = Span::new(u64::MAX, 0).unwrap();
    let choices = [
        trusted(hours(1)).step(StrategyReply::LastValidation { row: garbled(), now: at(NOON) }),
        trusted(hours(1)).step_with_last_validation(garbled()),
    ];
    for choice in choices {
        assert_eq!(
            choice.failure.as_deref(),
            Some("Invalid timestamp format: premature end of input")
        );
        assert!(is_full(choice));
    }
    let choice = trusted(endless).step_with_last_validation(noon_row());
    assert_eq!(
        choice.failure.as_deref(),
        Some(
            "Invalid validation interval: \
             Source duration value is out of range for the target type"
        )
    );
    assert!(is_full(choice));
    let fresh = StrategyReply::LastValidation { row: noon_row(), now: at(NOON) };
    assert_eq!(trusted(hours(1)).step(fresh).failure, None);
    assert_eq!(trusted(hours(1)).step_with_last_validation(None).failure, None);
    let unasked = begin(hours(1)).step_with_last_validation(garbled());
    assert!(matches!(unasked.phase, StrategyPhase::Status));
    assert_eq!(unasked.failure, None);
}

#[test]
fn nothing_found_twice_means_full() {
    let choice = trusted(hours(1)).step_with_last_validation(None);
    assert!(matches!(choice.phase, StrategyPhase::LastValidation { again: true }));
    assert!(is_full(choice.step_with_last_validation(None)));
    let strategy: ValidationStrategy<u8> = ValidationStrategy::Full;
    assert!(matches!(strategy.clone(), ValidationStrategy::Full));
}
