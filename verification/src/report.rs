//! The report validator: is this English report good enough to keep its author's novel
//! language flowing?
//!
//! A report is accepted when its protocol is registered for its author, it covers enough of
//! the traffic and its summary is long enough. The checks run in that order and the first
//! that fails decides. An accepted report renews the freshness of its author on the
//! protocol; a rejected one leaves the store as it was.

use vstd::prelude::*;
use crate::binary64::{Binary64, FRACTION_SPAN};
use crate::clock::now_unix_sec;
use crate::protocol::{protocol_key, protocol_key_of};
use crate::store::{ComplianceStore, StoreView};
use crate::text::{trimmed, trimmed_chars};

verus! {

/// The bits of the smallest coverage that is accepted, 0.95.
pub const MIN_COVERAGE_BITS: u64 = 0x3FEE_6666_6666_6666;

/// The smallest length of a trimmed summary that is accepted, in characters.
pub const MIN_SUMMARY_LENGTH: usize = 30;

/// The smallest coverage that is accepted.
pub open spec fn min_coverage() -> Binary64 {
    Binary64 { bits: MIN_COVERAGE_BITS }
}

/// An agent's English account of its traffic in a novel language.
#[derive(Debug, Clone)]
pub struct EnglishReport {
    pub agent_id: String,
    pub protocol_name: String,
    pub protocol_version: String,
    pub window_start_ts: Binary64,
    pub window_end_ts: Binary64,
    pub message_ids: Vec<String>,
    pub english_summary: String,
    pub coverage: Binary64,
    pub self_confidence: Binary64,
    pub notes: Option<String>,
}

/// A report as the contracts see it.
pub struct EnglishReportView {
    pub agent_id: Seq<char>,
    pub protocol_name: Seq<char>,
    pub protocol_version: Seq<char>,
    pub window_start_ts: Binary64,
    pub window_end_ts: Binary64,
    pub message_ids: Seq<Seq<char>>,
    pub english_summary: Seq<char>,
    pub coverage: Binary64,
    pub self_confidence: Binary64,
    pub notes: Option<Seq<char>>,
}

impl EnglishReportView {
    /// The key of the protocol that the report is about.
    pub open spec fn protocol_key(self) -> Seq<char> {
        protocol_key_of(self.protocol_name, self.protocol_version)
    }
}

impl View for EnglishReport {
    type V = EnglishReportView;

    open spec fn view(&self) -> EnglishReportView {
        EnglishReportView {
            agent_id: self.agent_id@,
            protocol_name: self.protocol_name@,
            protocol_version: self.protocol_version@,
            window_start_ts: self.window_start_ts,
            window_end_ts: self.window_end_ts,
            message_ids: self.message_ids@.map_values(|id: String| id@),
            english_summary: self.english_summary@,
            coverage: self.coverage,
            self_confidence: self.self_confidence,
            notes: match self.notes {
                Some(notes) => Some(notes@),
                None => None,
            },
        }
    }
}

/// Why a report was turned down.
#[derive(Debug, Clone, Copy, PartialEq, Eq, Structural)]
pub enum RejectionReason {
    /// The author has not registered the protocol.
    ProtocolNotRegistered,
    /// The report covers less of the traffic than is required, or its coverage is no
    /// number.
    CoverageTooLow { actual: Binary64, required: Binary64 },
    /// The summary, once trimmed, is shorter than `MIN_SUMMARY_LENGTH`.
    SummaryTooShort,
}

/// Whether `coverage` is enough: a number that is not below the minimum. What is no number
/// is never enough.
pub open spec fn coverage_suffices(coverage: Binary64) -> bool {
    !coverage.is_nan() && coverage.value() >= min_coverage().value()
}

/// The verdict on `report`, where `registered` says whether its author has registered its
/// protocol. The checks run in this order, and the first that fails decides.
pub open spec fn verdict_given(registered: bool, report: EnglishReportView) -> Result<
    (),
    RejectionReason,
> {
    if !registered {
        Err(RejectionReason::ProtocolNotRegistered)
    } else if !coverage_suffices(report.coverage) {
        Err(RejectionReason::CoverageTooLow { actual: report.coverage, required: min_coverage() })
    } else if trimmed(report.english_summary).len() < MIN_SUMMARY_LENGTH {
        Err(RejectionReason::SummaryTooShort)
    } else {
        Ok(())
    }
}

/// The verdict on `report` against `store`.
pub open spec fn report_verdict(store: StoreView, report: EnglishReportView) -> Result<
    (),
    RejectionReason,
> {
    verdict_given(store.is_registered(report.agent_id, report.protocol_key()), report)
}

/// The store after the verdict on `report` at `now`: an accepted report sets the freshness
/// of its author on its protocol to `now`, and nothing else changes.
pub open spec fn report_store(store: StoreView, report: EnglishReportView, now: u64) -> StoreView {
    if report_verdict(store, report) is Ok {
        store.record_report(report.agent_id, report.protocol_key(), now)
    } else {
        store
    }
}

/// A report on a protocol that its author has not registered is turned down for that,
/// whatever its coverage and its summary, and leaves the store as it was.
pub proof fn lemma_unregistered_report_rejected(
    store: StoreView,
    report: EnglishReportView,
    now: u64,
)
    requires
        !store.is_registered(report.agent_id, report.protocol_key()),
    ensures
        report_verdict(store, report) == Err::<(), RejectionReason>(
            RejectionReason::ProtocolNotRegistered,
        ),
        report_store(store, report, now) == store,
{
}

/// A coverage that is no number is too low, whatever else the report holds: the report is
/// turned down and leaves the store as it was.
pub proof fn lemma_nan_coverage_rejected(store: StoreView, report: EnglishReportView, now: u64)
    requires
        store.is_registered(report.agent_id, report.protocol_key()),
        report.coverage.is_nan(),
    ensures
        report_verdict(store, report) == Err::<(), RejectionReason>(
            RejectionReason::CoverageTooLow { actual: report.coverage, required: min_coverage() },
        ),
        report_store(store, report, now) == store,
{
}

/// A coverage is enough exactly when it is a number and not below the minimum in the order
/// of the numbers.
pub proof fn lemma_coverage_suffices(coverage: Binary64)
    ensures
        coverage_suffices(coverage) <==> !coverage.is_nan() && !coverage.less_than(
            min_coverage(),
        ),
{
}

/// The smallest accepted coverage is the binary64 nearest to 19/20: a positive number
/// with the exponent field 1022, whose distance from 19/20 is under half a unit of its
/// last place.
pub proof fn lemma_min_coverage_is_nearest()
    ensures
        !min_coverage().is_negative(),
        !min_coverage().is_nan(),
        min_coverage().exponent() == 1022,
        -10 < 20 * (FRACTION_SPAN + min_coverage().fraction()) - 19 * (2 * FRACTION_SPAN) < 10,
{
}

/// Whether the author of `report` has registered its protocol. This is all that the
/// validator reads of the store.
pub fn is_registered_for(store: &ComplianceStore, report: &EnglishReport) -> (registered: bool)
    requires
        store.wf(),
    ensures
        registered == store@.is_registered(report@.agent_id, report@.protocol_key()),
{
    let key = protocol_key(report.protocol_name.as_str(), report.protocol_version.as_str());
    store.is_registered(report.agent_id.as_str(), key.as_str())
}

/// The verdict on `report`, where `registered` says whether its author has registered its
/// protocol. No store is needed for it.
pub fn verdict_for(registered: bool, report: &EnglishReport) -> (verdict: Result<
    (),
    RejectionReason,
>)
    ensures
        verdict == verdict_given(registered, report@),
{
    if !registered {
        return Err(RejectionReason::ProtocolNotRegistered);
    }
    let required = Binary64 { bits: MIN_COVERAGE_BITS };
    if report.coverage.not_a_number() || report.coverage.lt(&required) {
        return Err(RejectionReason::CoverageTooLow { actual: report.coverage, required });
    }
    if trimmed_chars(report.english_summary.as_str()).len() < MIN_SUMMARY_LENGTH {
        return Err(RejectionReason::SummaryTooShort);
    }
    Ok(())
}

/// Records `now` as the time of the last report of the author of `report` on its protocol.
/// This is all that the validator writes to the store, and it does so for an accepted
/// report only.
pub fn record_accepted(store: &mut ComplianceStore, report: &EnglishReport, now: u64)
    requires
        old(store).wf(),
    ensures
        final(store).wf(),
        final(store)@ == old(store)@.record_report(
            report@.agent_id,
            report@.protocol_key(),
            now,
        ),
{
    let key = protocol_key(report.protocol_name.as_str(), report.protocol_version.as_str());
    store.record_report(report.agent_id.as_str(), key.as_str(), now);
}

/// Validates `report` and, where it is accepted, records `now` as the time of the last
/// report of its author on its protocol.
pub fn validate_and_record(store: &mut ComplianceStore, report: &EnglishReport, now: u64) -> (verdict:
    Result<(), RejectionReason>)
    requires
        old(store).wf(),
    ensures
        final(store).wf(),
        verdict == report_verdict(old(store)@, report@),
        final(store)@ == report_store(old(store)@, report@, now),
{
    let registered = is_registered_for(store, report);
    let verdict = verdict_for(registered, report);
    if verdict.is_ok() {
        record_accepted(store, report, now);
    }
    verdict
}

/// Validates `report` and, where it is accepted, records the time that the system clock
/// shows.
pub fn submit_report(store: &mut ComplianceStore, report: &EnglishReport) -> (verdict: Result<
    (),
    RejectionReason,
>)
    requires
        old(store).wf(),
    ensures
        final(store).wf(),
        verdict == report_verdict(old(store)@, report@),
        exists|now: u64| final(store)@ == report_store(old(store)@, report@, now),
{
    let now = now_unix_sec();
    validate_and_record(store, report, now)
}

} // verus!
