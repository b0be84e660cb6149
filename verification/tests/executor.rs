use miner_prover::binary64::{
    exact_half, Score, EIGHT_TENTHS, FIFTEEN_THOUSAND, FIVE_THOUSAND, ONE, SIX_TENTHS, TEN_THOUSAND,
};
use miner_prover::clock::Span;
use miner_prover::collection::{
    CollectionError, CollectionPhase, CollectionReply, CollectionRequest, HardwareCollection,
    HardwareCollector, ProfileRules,
};
use miner_prover::executor::{
    BinaryValidationResult, ExecutorInfoDetailed, FullPhase, FullReply, FullRequest,
    FullValidation, ValidationExecutor, ValidationType,
};
use miner_prover::json_source::read_json;
use miner_prover::scoring::{
    score_gpu, settle_score, BinaryValidationConfig, CombinedScore, GpuScore, RunScore, ScoreError,
};
use std::sync::Arc;

fn score(x: f64) -> Score {
    Score { bits: x.to_bits() }
}

fn executor() -> ValidationExecutor<&'static str, &'static str, &'static str> {
    ValidationExecutor::new(Arc::new("ssh"), Some(Arc::new("metrics")), Arc::new("store"))
}

fn info() -> ExecutorInfoDetailed {
    ExecutorInfoDetailed { id: "executor-1".to_string(), grpc_endpoint: "http://e:1".to_string() }
}

fn config(enabled: bool) -> BinaryValidationConfig {
    BinaryValidationConfig { enabled, score_weight: score(0.7) }
}

fn span(secs: u64) -> Span {
    Span::new(secs, 5).unwrap()
}

#[test]
fn parts_are_kept() {
    let executor = executor();
    assert_eq!(*executor.ssh_client, "ssh");
    assert!(Arc::ptr_eq(&executor.ssh_client, &executor.binary_validator.ssh_client));
    assert_eq!(executor.metrics.as_deref(), Some(&"metrics"));
    assert_eq!(*executor.persistence, "store");
    let collector = HardwareCollector::new(Arc::new("ssh"), Arc::new("store"));
    assert_eq!((*collector.ssh_client, *collector.persistence), ("ssh", "store"));
}

#[test]
fn constants_are_the_numbers_they_are_named_after() {
    assert_eq!(EIGHT_TENTHS, 0.8f64.to_bits());
    assert_eq!(SIX_TENTHS, 0.6f64.to_bits());
    assert_eq!(FIFTEEN_THOUSAND, 15000.0f64.to_bits());
    assert_eq!(TEN_THOUSAND, 10000.0f64.to_bits());
    assert_eq!(FIVE_THOUSAND, 5000.0f64.to_bits());
    assert_eq!(ONE, 1.0f64.to_bits());
}

#[test]
fn lightweight_validation_of_an_available_machine() {
    let (result, record) = executor().execute_lightweight_validation(
        &info(), score(0.66), Some(3u8), 8, Some("GPU-1\nGPU-2\n"), span(2),
    );
    assert_eq!(result.executor_id, "executor-1");
    assert_eq!(result.grpc_endpoint, "http://e:1");
    assert_eq!(result.verification_score, score(0.66));
    assert!(result.ssh_connection_successful);
    assert!(!result.binary_validation_successful);
    assert_eq!(result.executor_result, Some(3));
    assert_eq!(result.error, None);
    assert_eq!(result.execution_time, span(2));
    assert_eq!(result.gpu_count, 8);
    assert_eq!(result.validation_type, ValidationType::Lightweight);
    let details = result.validation_details;
    assert_eq!(details.ssh_test_duration, span(2));
    assert_eq!(details.binary_upload_duration, Span::zero());
    assert_eq!(details.binary_execution_duration, Span::zero());
    assert_eq!(details.total_validation_duration, span(2));
    assert_eq!(details.ssh_score, score(1.0));
    assert_eq!(details.binary_score, score(0.0));
    assert_eq!(details.combined_score, score(0.66));
    assert_eq!(record.executor_id, "executor-1");
    assert_eq!(record.attestation, "connectivity_check");
    assert!(record.successful && record.signature_valid && !record.hardware_attested);
}

#[test]
fn lightweight_validation_of_a_machine_without_gpus() {
    for answer in [None, Some(""), Some("No devices were found\n")] {
        let (result, record) = executor().execute_lightweight_validation(
            &info(), score(0.66), None::<u8>, 8, answer, span(1),
        );
        assert_eq!(result.verification_score, score(0.0));
        assert!(!result.ssh_connection_successful);
        assert_eq!(result.error.as_deref(), Some("Connectivity check failed"));
        assert_eq!(result.validation_details.ssh_score, score(0.0));
        assert_eq!(result.validation_details.combined_score, score(0.0));
        assert_eq!(result.gpu_count, 8);
        assert!(!record.successful && !record.signature_valid && !record.hardware_attested);
    }
}

fn full(enabled: bool) -> FullValidation<u8> {
    executor().execute_full_validation(&info(), &config(enabled))
}

fn connected(enabled: bool) -> FullValidation<u8> {
    let validation = full(enabled);
    assert!(matches!(validation.request(), FullRequest::TestConnection));
    let validation = validation.step(FullReply::Connected { successful: true, elapsed: span(3) });
    assert!(matches!(validation.request(), FullRequest::CollectProfile));
    validation
}

fn combined(validation: &FullValidation<u8>) -> CombinedScore {
    match validation.request() {
        FullRequest::CombineScores(combined) => combined,
        other => panic!("{:?}", other),
    }
}

#[test]
fn full_validation_without_connection() {
    for enabled in [false, true] {
        let validation =
            full(enabled).step(FullReply::Connected { successful: false, elapsed: span(3) });
        assert_eq!(combined(&validation), CombinedScore::Zero);
        let result = validation.finish(score(0.0), span(4), span(5)).unwrap();
        assert!(!result.ssh_connection_successful);
        assert_eq!(result.binary_validation_successful, !enabled);
        assert_eq!(
            result.validation_details.binary_score,
            if enabled { score(0.0) } else { score(0.8) }
        );
        assert_eq!(result.validation_details.ssh_score, score(0.0));
        assert_eq!(result.error, None);
        assert_eq!(result.gpu_count, 0);
    }
}

#[test]
fn full_validation_with_the_binary_switched_off() {
    for profiled in [false, true] {
        let validation = connected(false).step(FullReply::Profiled { successful: profiled });
        assert_eq!(combined(&validation), CombinedScore::Ssh { ssh_score: score(0.8) });
        let result = validation.finish(score(0.8), span(4), span(5)).unwrap();
        assert!(result.ssh_connection_successful && result.binary_validation_successful);
        assert_eq!(result.verification_score, score(0.8));
        assert_eq!(result.validation_details.binary_score, score(0.8));
    }
}

#[test]
fn full_validation_by_the_binary() {
    let validation = connected(true).step(FullReply::Profiled { successful: false });
    assert!(matches!(validation.request(), FullRequest::RunBinary));
    let validation = validation.step(FullReply::Binary(Some(BinaryValidationResult {
        success: true,
        executor_result: Some(9),
        validation_score: score(0.5),
        gpu_count: 4,
        execution_time_ms: 2500,
    })));
    match validation.request() {
        FullRequest::RecordAttestation(record) => {
            assert_eq!(record.executor_id, "executor-1");
            assert_eq!(record.attestation, "hardware_attestation");
            assert!(record.successful && record.signature_valid && record.hardware_attested);
        }
        other => panic!("{:?}", other),
    }
    let validation = validation.step(FullReply::Attested);
    assert_eq!(
        combined(&validation),
        CombinedScore::Weighted {
            ssh_score: score(0.8),
            binary_score: score(0.5),
            weight: score(0.7)
        }
    );
    let result = validation.finish(score(0.59), span(4), span(5)).unwrap();
    assert_eq!(result.executor_id, "executor-1");
    assert_eq!(result.grpc_endpoint, "http://e:1");
    assert_eq!(result.verification_score, score(0.59));
    assert!(result.ssh_connection_successful && result.binary_validation_successful);
    assert_eq!(result.executor_result, Some(9));
    assert_eq!(result.error, None);
    assert_eq!(result.execution_time, span(5));
    assert_eq!(result.gpu_count, 4);
    assert_eq!(result.validation_type, ValidationType::Full);
    let details = result.validation_details;
    assert_eq!(details.ssh_test_duration, span(3));
    assert_eq!(details.binary_upload_duration, Span::zero());
    assert_eq!(details.binary_execution_duration, Span::from_millis(2500));
    assert_eq!(details.total_validation_duration, span(4));
    assert_eq!(details.ssh_score, score(0.8));
    assert_eq!(details.binary_score, score(0.5));
    assert_eq!(details.combined_score, score(0.59));
}

#[test]
fn full_validation_that_the_binary_fails() {
    let failed_run = BinaryValidationResult {
        success: false,
        executor_result: None,
        validation_score: score(0.2),
        gpu_count: 1,
        execution_time_ms: 1,
    };
    for (run, executed) in [(Some(failed_run), true), (None, false)] {
        let validation = connected(true)
            .step(FullReply::Profiled { successful: true })
            .step(FullReply::Binary(run));
        match validation.request() {
            FullRequest::RecordAttestation(record) => {
                assert!(!record.successful && !record.hardware_attested);
                assert_eq!(record.signature_valid, executed);
            }
            other => panic!("{:?}", other),
        }
        let validation = validation.step(FullReply::Attested);
        assert_eq!(combined(&validation), CombinedScore::HalfSsh { ssh_score: score(0.8) });
        let result = validation.finish(score(0.4), span(4), span(5)).unwrap();
        assert!(!result.binary_validation_successful);
        assert_eq!(result.gpu_count, if executed { 1 } else { 0 });
    }
}

#[test]
fn full_validation_waits_for_its_replies() {
    let validation = full(true).step(FullReply::Attested).step(FullReply::Binary(None));
    assert!(matches!(validation.phase, FullPhase::Connect));
    let validation = validation.finish(score(1.0), span(1), span(1)).unwrap_err();
    assert!(matches!(validation.phase, FullPhase::Connect));
}

#[test]
fn scores_combine() {
    let combine = |ssh, binary, enabled| {
        executor().calculate_combined_verification_score(
            score(0.8), score(0.6), ssh, binary, &config(enabled),
        )
    };
    for binary in [false, true] {
        for enabled in [false, true] {
            assert_eq!(combine(false, binary, enabled), CombinedScore::Zero);
        }
        assert_eq!(combine(true, binary, false), CombinedScore::Ssh { ssh_score: score(0.8) });
    }
    assert_eq!(combine(true, false, true), CombinedScore::HalfSsh { ssh_score: score(0.8) });
    assert_eq!(
        combine(true, true, true),
        CombinedScore::Weighted {
            ssh_score: score(0.8),
            binary_score: score(0.6),
            weight: score(0.7)
        }
    );
}

fn gpu(text: &str) -> GpuScore {
    score_gpu(&read_json(text).unwrap())
}

#[test]
fn gpus_are_scored() {
    let best = gpu(
        r#"{ "anti_debug_passed": true, "sm_utilization": { "avg": 0.95 },
             "memory_bandwidth_gbps": 16000.5, "computation_time_ns": 50000000 }"#,
    );
    assert_eq!(
        best,
        GpuScore {
            base: 30,
            anti_debug: 20,
            sm_utilization: 20,
            memory_bandwidth: 15,
            timing: 5
        }
    );
    let worst = GpuScore {
        base: 30, anti_debug: 0, sm_utilization: 0, memory_bandwidth: 0, timing: 0,
    };
    for text in [
        "{}", "null", "[]",
        r#"{ "anti_debug_passed": false, "sm_utilization": 0.9, "memory_bandwidth_gbps": "20000",
             "computation_time_ns": -20000000 }"#,
        r#"{ "anti_debug_passed": 1, "sm_utilization": { "avg": "1" },
             "memory_bandwidth_gbps": -20000, "computation_time_ns": 20000000.0 }"#,
    ] {
        assert_eq!(gpu(text), worst, "{}", text);
    }
}

#[test]
fn limits_are_not_exceeded_by_themselves() {
    let utilization = |avg: &str| {
        gpu(&format!("{{\"sm_utilization\":{{\"avg\":{}}}}}", avg)).sm_utilization
    };
    for avg in ["0.8", "0.8000000000000002", "0.6", "0.6000000000000001", "0", "1", "-1", "0.0",
        "-0.0", "1e300", "-1e300", "5e-324", "0.79999999999999993", "18446744073709551615"]
    {
        let x: f64 = avg.parse().unwrap();
        let expected = if x > 0.8 { 20 } else if x > 0.6 { 10 } else { 0 };
        assert_eq!(utilization(avg), expected, "{}", avg);
    }
    let bandwidth = |gbps: &str| {
        gpu(&format!("{{\"memory_bandwidth_gbps\":{}}}", gbps)).memory_bandwidth
    };
    for gbps in ["15000", "15001", "15000.0", "15000.000000000002", "14999.9", "10000", "10001",
        "10000.5", "5000", "5001", "4999", "5000.0000000000009", "0", "-15001"]
    {
        let x: f64 = gbps.parse().unwrap();
        let expected =
            if x > 15000.0 { 15 } else if x > 10000.0 { 10 } else if x > 5000.0 { 5 } else { 0 };
        assert_eq!(bandwidth(gbps), expected, "{}", gbps);
    }
    let timing = |ns: u64| gpu(&format!("{{\"computation_time_ns\":{}}}", ns)).timing;
    assert_eq!(timing(10_999_999), 0);
    assert_eq!(timing(11_000_000), 5);
    assert_eq!(timing(4_999_999_999), 5);
    assert_eq!(timing(5_000_000_000), 0);
}

#[test]
fn runs_are_scored() {
    let run = |text: &str| {
        executor().calculate_validation_score_from_raw_results(&read_json(text).unwrap())
    };
    assert!(matches!(run("{}"), Err(ScoreError::NoGpuResults)));
    assert!(matches!(run(r#"{"gpu_results": {}}"#), Err(ScoreError::NoGpuResults)));
    assert_eq!(ScoreError::NoGpuResults.message(), "No gpu_results found in output");
    assert!(matches!(run(r#"{"gpu_results": []}"#), Ok(RunScore::Zero)));
    match run(r#"{"gpu_results": [{"anti_debug_passed": true}, {}]}"#) {
        Ok(RunScore::Average(gpus)) => {
            assert_eq!(gpus.len(), 2);
            assert_eq!((gpus[0].anti_debug, gpus[1].anti_debug), (20, 0));
        }
        other => panic!("{:?}", other),
    }
}

const REPORT: &str = r#"{ "class": "system", "children": [
    { "class": "processor", "product": "A", "configuration": { "cores": "4" } },
    { "class": "processor", "product": "B", "configuration": { "cores": "4" } }
] }"#;

#[test]
fn collections_run_to_their_end() {
    let collector = HardwareCollector::new(Arc::new(()), Arc::new(()));
    let whole: HardwareCollection<&str> = collector.collect_and_store("executor-1", 7);
    let parts: HardwareCollection<&str> = executor().collect_hardware_profile(&info(), 7);
    let expected = [
        (whole, ProfileRules::Machine, "sudo lshw -json -quiet -sanitize", 8),
        (parts, ProfileRules::Parts, "sudo lshw -json -quiet", 4),
    ];
    for (collection, rules, report, cores) in expected {
        assert_eq!(collection.rules, rules);
        match collection.request() {
            Some(CollectionRequest::EnsureInstalled { command, package }) => {
                assert_eq!((command, package), ("lshw", "lshw"));
            }
            other => panic!("{:?}", other),
        }
        let collection = collection.step(CollectionReply::Done);
        match collection.request() {
            Some(CollectionRequest::Execute { command }) => assert_eq!(command, report),
            other => panic!("{:?}", other),
        }
        let collection = collection.step(CollectionReply::Output(REPORT.to_string()));
        match collection.request() {
            Some(CollectionRequest::Store { miner_uid, executor_id, profile }) => {
                assert_eq!((miner_uid, executor_id), (7, "executor-1"));
                assert_eq!(profile.cpu_cores, Some(cores));
            }
            other => panic!("{:?}", other),
        }
        let collection = collection.step(CollectionReply::Done);
        assert!(collection.request().is_none());
        let collection = collection.step(CollectionReply::Failed("late"));
        let profile = collector.collect_with_fallback(collection.outcome().unwrap()).unwrap();
        assert_eq!(profile.full_json, REPORT);
        assert_eq!(profile.cpu_model.as_deref(), Some("A"));
    }
}

#[test]
fn collections_fail() {
    let start = || HardwareCollection::start("e", 1, ProfileRules::Machine);
    let installed = || start().step(CollectionReply::Done);
    let reported = || installed().step(CollectionReply::Output(REPORT.to_string()));
    for collection in [start(), installed(), reported()] {
        match collection.step(CollectionReply::Failed("down")).outcome() {
            Ok(Err(CollectionError::Outside("down"))) => {}
            other => panic!("{:?}", other),
        }
    }
    match installed().step(CollectionReply::Output("{".to_string())).outcome() {
        Ok(Err(CollectionError::Report(error))) => {
            assert!(error.message.starts_with("Failed to parse lshw JSON: "));
        }
        other => panic!("{:?}", other),
    }
    let large = r#"{ "children": [
        { "class": "disk", "size": 9223372036854775807 }, { "class": "disk", "size": 1 }
    ] }"#
    .to_string();
    match installed().step(CollectionReply::Output(large)).outcome() {
        Ok(Err(CollectionError::TotalsOutOfRange)) => {}
        other => panic!("{:?}", other),
    }
    let waiting = start().step(CollectionReply::Output(REPORT.to_string()));
    assert!(matches!(waiting.phase, CollectionPhase::Install));
    assert!(waiting.outcome().is_err());
    let collector = HardwareCollector::new(Arc::new(()), Arc::new(()));
    assert!(collector.collect_with_fallback(Err("down")).is_none());
}

#[test]
fn only_weighted_scores_are_taken_from_outside() {
    let worked_out = score(0.123);
    let settled = |plan| settle_score(plan, worked_out);
    assert_eq!(settled(CombinedScore::Zero), score(0.0));
    assert_eq!(settled(CombinedScore::Ssh { ssh_score: score(0.8) }), score(0.8));
    assert_eq!(settled(CombinedScore::HalfSsh { ssh_score: score(0.8) }), score(0.8 * 0.5));
    assert_eq!(settled(CombinedScore::HalfSsh { ssh_score: score(0.0) }), worked_out);
    let plan = CombinedScore::Weighted {
        ssh_score: score(0.8),
        binary_score: score(0.5),
        weight: score(0.7),
    };
    assert_eq!(settled(plan), worked_out);

    let down = full(true).step(FullReply::Connected { successful: false, elapsed: span(3) });
    let off = connected(false).step(FullReply::Profiled { successful: true });
    let failed = connected(true)
        .step(FullReply::Profiled { successful: true })
        .step(FullReply::Binary(None))
        .step(FullReply::Attested);
    for (validation, expected) in [(down, 0.0), (off, 0.8), (failed, 0.8 * 0.5)] {
        let result = validation.finish(worked_out, span(4), span(5)).unwrap();
        assert_eq!(result.verification_score, score(expected));
        assert_eq!(result.validation_details.combined_score, score(expected));
    }
}

#[test]
fn halves_are_those_of_floating_point() {
    for x in [0.8, 1.0, 3.5, -0.8, 1e300, f64::MAX, f64::MIN, f64::MIN_POSITIVE * 2.0, 1e-300] {
        assert_eq!(exact_half(score(x)), Some(score(x * 0.5)), "{}", x);
    }
    for x in [0.0, -0.0, f64::MIN_POSITIVE, 5e-324, f64::INFINITY, f64::NAN] {
        assert_eq!(exact_half(score(x)), None, "{}", x);
    }
}
