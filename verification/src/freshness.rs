//! How the validator and the decision engine work together: an accepted report lets its
//! author's novel language pass, and goes on doing so for `REPORT_INTERVAL_SEC` seconds.

use vstd::prelude::*;
use crate::gate::{gate_decision, Decision, REPORT_INTERVAL_SEC};
use crate::protocol::ProtocolRefView;
use crate::report::{report_store, report_verdict, EnglishReportView};
use crate::store::StoreView;

verus! {

/// Once a report is accepted at `reported_at`, a message of its author under its protocol
/// passes, whatever its language, at any time `now` up to `REPORT_INTERVAL_SEC` seconds
/// later (and at any earlier time, should the clock have gone back).
pub proof fn lemma_fresh_report_allows(
    store: StoreView,
    report: EnglishReportView,
    reported_at: u64,
    english: bool,
    protocol: ProtocolRefView,
    now: u64,
)
    requires
        report_verdict(store, report) is Ok,
        protocol.name == report.protocol_name,
        protocol.version == report.protocol_version,
        now <= reported_at + REPORT_INTERVAL_SEC,
    ensures
        gate_decision(
            report_store(store, report, reported_at),
            english,
            report.agent_id,
            Some(protocol),
            now,
        ) == Decision::Allow,
{
}

/// Once more than `REPORT_INTERVAL_SEC` seconds have passed since a report was accepted at
/// `reported_at`, and no report has followed, a message of its author in a novel language
/// under its protocol is overdue.
pub proof fn lemma_stale_report_is_overdue(
    store: StoreView,
    report: EnglishReportView,
    reported_at: u64,
    protocol: ProtocolRefView,
    now: u64,
)
    requires
        report_verdict(store, report) is Ok,
        protocol.name == report.protocol_name,
        protocol.version == report.protocol_version,
        now > reported_at + REPORT_INTERVAL_SEC,
    ensures
        gate_decision(
            report_store(store, report, reported_at),
            false,
            report.agent_id,
            Some(protocol),
            now,
        ) == Decision::RejectOverdue,
{
}

/// An agent that never reported on a protocol which it has registered is overdue as soon
/// as the clock is more than `REPORT_INTERVAL_SEC` seconds past the epoch.
pub proof fn lemma_never_reported_is_overdue(
    store: StoreView,
    from: Seq<char>,
    protocol: ProtocolRefView,
    now: u64,
)
    requires
        store.is_registered(from, protocol.key()),
        store.last_report_time(from, protocol.key()) is None,
        now > REPORT_INTERVAL_SEC,
    ensures
        gate_decision(store, false, from, Some(protocol), now) == Decision::RejectOverdue,
{
}

} // verus!
