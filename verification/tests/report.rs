use policy_gateway::binary64::Binary64;
use policy_gateway::protocol::ProtocolDescriptor;
use policy_gateway::report::{
    is_registered_for, record_accepted, submit_report, validate_and_record, verdict_for,
    EnglishReport, RejectionReason, MIN_COVERAGE_BITS, MIN_SUMMARY_LENGTH,
};
use policy_gateway::store::ComplianceStore;

const SUMMARY: &str = "Agents exchanged tariff tables and confirmed the totals.";

fn b(x: f64) -> Binary64 {
    Binary64 { bits: x.to_bits() }
}

fn store_with(agent: &str, name: &str, version: &str) -> ComplianceStore {
    let mut store = ComplianceStore::new();
    store.register(
        agent,
        ProtocolDescriptor {
            name: name.to_string(),
            version: version.to_string(),
            purpose: "negotiation".to_string(),
            scope: "pricing".to_string(),
            risk_tier: "medium".to_string(),
            translation_method: "codebook".to_string(),
        },
    );
    store
}

fn report(agent: &str, coverage: f64, summary: &str) -> EnglishReport {
    EnglishReport {
        agent_id: agent.to_string(),
        protocol_name: "proto".to_string(),
        protocol_version: "1".to_string(),
        window_start_ts: b(1_700_000_000.0),
        window_end_ts: b(1_700_000_060.0),
        message_ids: vec!["m-1".to_string(), "m-2".to_string()],
        english_summary: summary.to_string(),
        coverage: b(coverage),
        self_confidence: b(0.9),
        notes: None,
    }
}

#[test]
fn valid_report_is_accepted_and_recorded() {
    let mut store = store_with("alice", "proto", "1");
    assert_eq!(validate_and_record(&mut store, &report("alice", 1.0, SUMMARY), 1_234), Ok(()));
    assert_eq!(store.last_report_time("alice", "proto:1"), Some(1_234));
    assert_eq!(store.violation_count("alice"), 0);
    assert!(store.is_registered("alice", "proto:1"));
}

#[test]
fn report_for_unregistered_protocol_is_rejected() {
    let mut store = ComplianceStore::new();
    assert_eq!(
        validate_and_record(&mut store, &report("alice", 1.0, SUMMARY), 1_234),
        Err(RejectionReason::ProtocolNotRegistered)
    );
    assert_eq!(store.last_report_time("alice", "proto:1"), None);
}

#[test]
fn unregistered_protocol_is_reported_before_any_other_fault() {
    let mut store = store_with("bob", "proto", "1");
    // Another agent's registration does not count, and neither coverage nor summary is
    // looked at.
    for coverage in [1.0, 0.95, 0.2, -1.0, f64::NAN] {
        for summary in [SUMMARY, "short", ""] {
            assert_eq!(
                validate_and_record(&mut store, &report("alice", coverage, summary), 9),
                Err(RejectionReason::ProtocolNotRegistered)
            );
        }
    }
    assert_eq!(store.last_report_time("alice", "proto:1"), None);
    assert_eq!(store.last_report_time("bob", "proto:1"), None);
    // Another version of a registered protocol is another protocol.
    let mut other = report("bob", 1.0, SUMMARY);
    other.protocol_version = "2".to_string();
    assert_eq!(
        validate_and_record(&mut store, &other, 9),
        Err(RejectionReason::ProtocolNotRegistered)
    );
}

#[test]
fn coverage_at_the_minimum_is_accepted() {
    let mut store = store_with("alice", "proto", "1");
    assert_eq!(validate_and_record(&mut store, &report("alice", 0.95, SUMMARY), 10), Ok(()));
    assert_eq!(store.last_report_time("alice", "proto:1"), Some(10));
}

#[test]
fn coverage_just_below_the_minimum_is_rejected() {
    let mut store = store_with("alice", "proto", "1");
    assert_eq!(
        validate_and_record(&mut store, &report("alice", 0.9499999, SUMMARY), 10),
        Err(RejectionReason::CoverageTooLow { actual: b(0.9499999), required: b(0.95) })
    );
    assert_eq!(store.last_report_time("alice", "proto:1"), None);
    // The very next number below the minimum.
    let below = f64::from_bits(MIN_COVERAGE_BITS - 1);
    assert_eq!(
        validate_and_record(&mut store, &report("alice", below, SUMMARY), 10),
        Err(RejectionReason::CoverageTooLow { actual: b(below), required: b(0.95) })
    );
    let above = f64::from_bits(MIN_COVERAGE_BITS + 1);
    assert_eq!(validate_and_record(&mut store, &report("alice", above, SUMMARY), 11), Ok(()));
}

#[test]
fn coverage_is_compared_as_a_number() {
    let mut store = store_with("alice", "proto", "1");
    for low in [0.0, -0.0, 0.5, -1.0, -0.96, f64::NEG_INFINITY, 5e-324, -1e300] {
        assert_eq!(
            validate_and_record(&mut store, &report("alice", low, SUMMARY), 10),
            Err(RejectionReason::CoverageTooLow { actual: b(low), required: b(0.95) }),
            "{:?}",
            low
        );
    }
    assert_eq!(store.last_report_time("alice", "proto:1"), None);
    for high in [1.0, 0.96, 7.5, f64::INFINITY] {
        assert_eq!(
            validate_and_record(&mut store, &report("alice", high, SUMMARY), 10),
            Ok(()),
            "{:?}",
            high
        );
    }
}

#[test]
fn coverage_that_is_no_number_is_too_low() {
    let mut store = store_with("alice", "proto", "1");
    let quiet = f64::from_bits(0x7FF8_0000_0000_0001);
    let signalling = f64::from_bits(0x7FF0_0000_0000_0001);
    for nan in [f64::NAN, -f64::NAN, quiet, signalling, f64::from_bits(u64::MAX)] {
        assert!(nan.is_nan());
        assert_eq!(
            validate_and_record(&mut store, &report("alice", nan, SUMMARY), 10),
            Err(RejectionReason::CoverageTooLow { actual: b(nan), required: b(0.95) })
        );
        assert_eq!(store.last_report_time("alice", "proto:1"), None);
        assert_eq!(
            submit_report(&mut store, &report("alice", nan, SUMMARY)),
            Err(RejectionReason::CoverageTooLow { actual: b(nan), required: b(0.95) })
        );
        assert_eq!(store.last_report_time("alice", "proto:1"), None);
    }
    // An earlier report stays on record.
    assert_eq!(validate_and_record(&mut store, &report("alice", 1.0, SUMMARY), 77), Ok(()));
    assert!(validate_and_record(&mut store, &report("alice", f64::NAN, SUMMARY), 99).is_err());
    assert_eq!(store.last_report_time("alice", "proto:1"), Some(77));
    assert!(store.is_registered("alice", "proto:1"));
    assert_eq!(store.violation_count("alice"), 0);
    // An unregistered protocol is still the first thing to be told.
    assert_eq!(
        validate_and_record(&mut store, &report("bob", f64::NAN, SUMMARY), 99),
        Err(RejectionReason::ProtocolNotRegistered)
    );
}

#[test]
fn validation_in_steps_reads_then_judges_then_writes() {
    let mut store = store_with("alice", "proto", "1");
    let good = report("alice", 0.95, SUMMARY);
    assert!(is_registered_for(&store, &good));
    assert!(!is_registered_for(&store, &report("bob", 0.95, SUMMARY)));
    assert_eq!(verdict_for(true, &good), Ok(()));
    assert_eq!(verdict_for(false, &good), Err(RejectionReason::ProtocolNotRegistered));
    assert_eq!(
        verdict_for(true, &report("alice", 0.5, "short")),
        Err(RejectionReason::CoverageTooLow { actual: b(0.5), required: b(0.95) })
    );
    assert_eq!(
        verdict_for(true, &report("alice", f64::NAN, SUMMARY)),
        Err(RejectionReason::CoverageTooLow { actual: b(f64::NAN), required: b(0.95) })
    );
    assert_eq!(
        verdict_for(true, &report("alice", 1.0, "short")),
        Err(RejectionReason::SummaryTooShort)
    );
    assert_eq!(verdict_for(false, &report("alice", 0.5, "short")), Err(RejectionReason::ProtocolNotRegistered));
    // Judging writes nothing; recording writes the time and nothing else.
    assert_eq!(store.last_report_time("alice", "proto:1"), None);
    record_accepted(&mut store, &good, 321);
    assert_eq!(store.last_report_time("alice", "proto:1"), Some(321));
    assert_eq!(store.last_report_time("alice", "proto:2"), None);
    assert_eq!(store.violation_count("alice"), 0);
}

#[test]
fn summary_of_thirty_characters_is_accepted() {
    let mut store = store_with("alice", "proto", "1");
    let thirty = "abcdefghij abcdefghij abcdefgh";
    assert_eq!(thirty.chars().count(), 30);
    assert_eq!(MIN_SUMMARY_LENGTH, 30);
    assert_eq!(validate_and_record(&mut store, &report("alice", 1.0, thirty), 10), Ok(()));
    // White space at the ends does not count, and does no harm.
    let padded = format!("  \t{}\n ", thirty);
    assert_eq!(validate_and_record(&mut store, &report("alice", 1.0, &padded), 20), Ok(()));
    assert_eq!(store.last_report_time("alice", "proto:1"), Some(20));
}

#[test]
fn summary_of_twenty_nine_characters_is_rejected() {
    let mut store = store_with("alice", "proto", "1");
    let twenty_nine = "abcdefghij abcdefghij abcdefg";
    assert_eq!(twenty_nine.chars().count(), 29);
    assert_eq!(
        validate_and_record(&mut store, &report("alice", 1.0, twenty_nine), 10),
        Err(RejectionReason::SummaryTooShort)
    );
    // Padding with white space does not help.
    let padded = format!("     {}          ", twenty_nine);
    assert_eq!(
        validate_and_record(&mut store, &report("alice", 1.0, &padded), 10),
        Err(RejectionReason::SummaryTooShort)
    );
    assert_eq!(
        validate_and_record(&mut store, &report("alice", 1.0, ""), 10),
        Err(RejectionReason::SummaryTooShort)
    );
    assert_eq!(
        validate_and_record(&mut store, &report("alice", 1.0, &" ".repeat(64)), 10),
        Err(RejectionReason::SummaryTooShort)
    );
    assert_eq!(store.last_report_time("alice", "proto:1"), None);
}

#[test]
fn summary_length_counts_characters() {
    let mut store = store_with("alice", "proto", "1");
    let thirty = "é".repeat(30);
    assert_eq!(validate_and_record(&mut store, &report("alice", 1.0, &thirty), 10), Ok(()));
    let twenty_nine = "é".repeat(29);
    assert_eq!(
        validate_and_record(&mut store, &report("alice", 1.0, &twenty_nine), 10),
        Err(RejectionReason::SummaryTooShort)
    );
}

#[test]
fn low_coverage_is_reported_before_a_short_summary() {
    let mut store = store_with("alice", "proto", "1");
    assert_eq!(
        validate_and_record(&mut store, &report("alice", 0.5, "short"), 10),
        Err(RejectionReason::CoverageTooLow { actual: b(0.5), required: b(0.95) })
    );
}

#[test]
fn rejected_report_leaves_the_last_report_time() {
    let mut store = store_with("alice", "proto", "1");
    assert_eq!(validate_and_record(&mut store, &report("alice", 1.0, SUMMARY), 100), Ok(()));
    assert!(validate_and_record(&mut store, &report("alice", 0.1, SUMMARY), 200).is_err());
    assert!(validate_and_record(&mut store, &report("alice", 1.0, "short"), 300).is_err());
    assert_eq!(store.last_report_time("alice", "proto:1"), Some(100));
    // An accepted report with an earlier time overwrites all the same.
    assert_eq!(validate_and_record(&mut store, &report("alice", 1.0, SUMMARY), 50), Ok(()));
    assert_eq!(store.last_report_time("alice", "proto:1"), Some(50));
}

#[test]
fn submitted_report_is_recorded_at_the_time_of_the_clock() {
    let mut store = store_with("alice", "proto", "1");
    let before = policy_gateway::clock::now_unix_sec();
    assert_eq!(submit_report(&mut store, &report("alice", 1.0, SUMMARY)), Ok(()));
    let after = policy_gateway::clock::now_unix_sec();
    let recorded = store.last_report_time("alice", "proto:1").unwrap();
    assert!(before <= recorded && recorded <= after);
    assert_eq!(
        submit_report(&mut store, &report("bob", 1.0, SUMMARY)),
        Err(RejectionReason::ProtocolNotRegistered)
    );
}
