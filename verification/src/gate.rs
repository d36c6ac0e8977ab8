//! The decision engine: may this message pass?
//!
//! English passes freely. A novel language passes only under a protocol that the sender
//! has named and registered and has reported on within the last `REPORT_INTERVAL_SEC`
//! seconds.

use vstd::prelude::*;
use crate::binary64::Binary64;
use crate::classifier::{english_plausible, looks_like_english};
use crate::clock::now_unix_sec;
use crate::protocol::{protocol_key, ProtocolRef, ProtocolRefView};
use crate::store::{ComplianceStore, StoreView};

verus! {

/// The longest that a report stays fresh, in seconds.
pub const REPORT_INTERVAL_SEC: u64 = 60;

/// A message on its way from one agent to another.
#[derive(Debug, Clone)]
pub struct SendMessageRequest {
    pub from: String,
    pub to: String,
    pub content: String,
    pub protocol: Option<ProtocolRef>,
    pub ts: Option<Binary64>,
}

/// A message as the contracts see it.
pub struct SendMessageRequestView {
    pub from: Seq<char>,
    pub to: Seq<char>,
    pub content: Seq<char>,
    pub protocol: Option<ProtocolRefView>,
    pub ts: Option<Binary64>,
}

impl View for SendMessageRequest {
    type V = SendMessageRequestView;

    open spec fn view(&self) -> SendMessageRequestView {
        SendMessageRequestView {
            from: self.from@,
            to: self.to@,
            content: self.content@,
            protocol: match self.protocol {
                Some(protocol) => Some(protocol@),
                None => None,
            },
            ts: self.ts,
        }
    }
}

/// What the engine does with a message.
#[derive(Debug, Clone, Copy, PartialEq, Eq, Structural)]
pub enum Decision {
    /// The message passes.
    Allow,
    /// The message is in a novel language and names no protocol.
    RejectMissingProtocol,
    /// The sender has not registered the protocol that the message names.
    RejectUnregistered,
    /// The sender's last report on the protocol is too old, or there is none.
    RejectOverdue,
}

/// The age at `now` of the last report of `agent_id` on `protocol_key`, in seconds. A
/// report from after `now` has the age 0. Where there never was a report, the age is that
/// of the epoch itself.
pub open spec fn report_age(
    store: StoreView,
    agent_id: Seq<char>,
    protocol_key: Seq<char>,
    now: u64,
) -> nat {
    match store.last_report_time(agent_id, protocol_key) {
        Some(time) => if now >= time {
            (now - time) as nat
        } else {
            0
        },
        None => now as nat,
    }
}

/// The decision on a message of `from` under `protocol` at `now`, where the classifier
/// found its content to be `english`.
pub open spec fn gate_decision(
    store: StoreView,
    english: bool,
    from: Seq<char>,
    protocol: Option<ProtocolRefView>,
    now: u64,
) -> Decision {
    if english {
        Decision::Allow
    } else {
        match protocol {
            None => Decision::RejectMissingProtocol,
            Some(protocol) => {
                if !store.is_registered(from, protocol.key()) {
                    Decision::RejectUnregistered
                } else if report_age(store, from, protocol.key(), now) > REPORT_INTERVAL_SEC {
                    Decision::RejectOverdue
                } else {
                    Decision::Allow
                }
            },
        }
    }
}

/// The store after the decision on such a message: one more violation is counted against
/// the sender where a novel language came without a protocol, and nothing else changes.
pub open spec fn gate_store(
    store: StoreView,
    english: bool,
    from: Seq<char>,
    protocol: Option<ProtocolRefView>,
) -> StoreView {
    if !english && protocol is None {
        store.record_violation(from)
    } else {
        store
    }
}

/// English passes whoever sends it under whatever protocol, and leaves the store as it
/// was.
pub proof fn lemma_english_passes(
    store: StoreView,
    from: Seq<char>,
    protocol: Option<ProtocolRefView>,
    now: u64,
)
    ensures
        gate_decision(store, true, from, protocol, now) == Decision::Allow,
        gate_store(store, true, from, protocol) == store,
{
}

/// A novel language without a protocol is turned down for that and changes nothing but
/// its sender's count of violations, which grows by exactly one: the registry and the
/// freshness stay as they were, and so does the count of every other agent, the recipient
/// among them.
pub proof fn lemma_missing_protocol_counts_once(store: StoreView, from: Seq<char>, now: u64)
    requires
        store.violation_count(from) < u32::MAX,
    ensures
        gate_decision(store, false, from, None, now) == Decision::RejectMissingProtocol,
        gate_store(store, false, from, None).violation_count(from) == store.violation_count(
            from,
        ) + 1,
        gate_store(store, false, from, None).registry == store.registry,
        gate_store(store, false, from, None).freshness == store.freshness,
        forall|other: Seq<char>|
            other != from ==> {
                &&& #[trigger] gate_store(store, false, from, None).violations.contains_key(other)
                    == store.violations.contains_key(other)
                &&& gate_store(store, false, from, None).violations[other]
                    == store.violations[other]
                &&& gate_store(store, false, from, None).violation_count(other)
                    == store.violation_count(other)
            },
{
}

/// A protocol that its sender has not registered is turned down without a violation: the
/// store stays as it was.
pub proof fn lemma_unregistered_counts_nothing(
    store: StoreView,
    from: Seq<char>,
    protocol: ProtocolRefView,
    now: u64,
)
    requires
        !store.is_registered(from, protocol.key()),
    ensures
        gate_decision(store, false, from, Some(protocol), now) == Decision::RejectUnregistered,
        gate_store(store, false, from, Some(protocol)) == store,
{
}

/// What is to be done with a classified message, by what it asks of the store. A caller
/// that guards the store with a lock learns from it which lock to take, if any.
#[derive(Debug, Clone, Copy, PartialEq, Eq, Structural)]
pub enum Step {
    /// The decision is made and the store is not needed.
    Done(Decision),
    /// A violation is to be counted against the sender: the store is written.
    CountViolation,
    /// The sender's registration and freshness are to be looked up: the store is read.
    ConsultStore,
}

/// The step that a message calls for, where the classifier found its content to be
/// `english` and it names `protocol`.
pub open spec fn first_step(english: bool, protocol: Option<ProtocolRefView>) -> Step {
    if english {
        Step::Done(Decision::Allow)
    } else if protocol is None {
        Step::CountViolation
    } else {
        Step::ConsultStore
    }
}

/// Each step leads to the decision and to the store that the rules ask for: a decision
/// made without the store is the right one and leaves the store alone, counting a
/// violation goes with the rejection for a missing protocol, and what is decided by
/// reading the store leaves it alone.
pub proof fn lemma_steps_reach_the_decision(
    store: StoreView,
    english: bool,
    from: Seq<char>,
    protocol: Option<ProtocolRefView>,
    now: u64,
)
    ensures
        match first_step(english, protocol) {
            Step::Done(decision) => {
                &&& decision == gate_decision(store, english, from, protocol, now)
                &&& gate_store(store, english, from, protocol) == store
            },
            Step::CountViolation => {
                &&& gate_decision(store, english, from, protocol, now)
                    == Decision::RejectMissingProtocol
                &&& gate_store(store, english, from, protocol) == store.record_violation(from)
            },
            Step::ConsultStore => gate_store(store, english, from, protocol) == store,
        },
{
}

/// Says what is to be done with a message whose content the classifier found to be
/// `english` and which names `protocol`.
pub fn plan(english: bool, protocol: Option<&ProtocolRef>) -> (step: Step)
    ensures
        step == first_step(english, view_of(protocol)),
{
    if english {
        Step::Done(Decision::Allow)
    } else if protocol.is_none() {
        Step::CountViolation
    } else {
        Step::ConsultStore
    }
}

/// The decision on a classified message at `now`, which reading the store is enough for.
/// The violation that goes with a missing protocol is left for `count_violation`.
pub fn consult(
    store: &ComplianceStore,
    english: bool,
    from: &str,
    protocol: Option<&ProtocolRef>,
    now: u64,
) -> (decision: Decision)
    requires
        store.wf(),
    ensures
        decision == gate_decision(store@, english, from@, view_of(protocol), now),
{
    if english {
        return Decision::Allow;
    }
    let protocol = match protocol {
        Some(protocol) => protocol,
        None => {
            return Decision::RejectMissingProtocol;
        },
    };
    let key = protocol_key(protocol.name.as_str(), protocol.version.as_str());
    if !store.is_registered(from, key.as_str()) {
        return Decision::RejectUnregistered;
    }
    let last = match store.last_report_time(from, key.as_str()) {
        Some(time) => time,
        None => 0,
    };
    let age = if now >= last {
        now - last
    } else {
        0
    };
    if age > REPORT_INTERVAL_SEC {
        return Decision::RejectOverdue;
    }
    Decision::Allow
}

/// Counts the violation of a sender whose novel language came without a protocol, and
/// gives the decision that goes with it.
pub fn count_violation(store: &mut ComplianceStore, from: &str) -> (decision: Decision)
    requires
        old(store).wf(),
        old(store)@.violation_count(from@) < u32::MAX,
    ensures
        final(store).wf(),
        decision == Decision::RejectMissingProtocol,
        final(store)@ == old(store)@.record_violation(from@),
{
    store.record_violation(from);
    Decision::RejectMissingProtocol
}

/// Decides on a message whose content has been classified already: `english` is the
/// classifier's verdict. Whatever classifier the caller runs, the engine stays the same.
pub fn decide_classified(
    store: &mut ComplianceStore,
    english: bool,
    from: &str,
    protocol: Option<&ProtocolRef>,
    now: u64,
) -> (decision: Decision)
    requires
        old(store).wf(),
        !english && protocol is None ==> old(store)@.violation_count(from@) < u32::MAX,
    ensures
        final(store).wf(),
        decision == gate_decision(old(store)@, english, from@, view_of(protocol), now),
        final(store)@ == gate_store(old(store)@, english, from@, view_of(protocol)),
{
    match plan(english, protocol) {
        Step::Done(decision) => decision,
        Step::CountViolation => count_violation(store, from),
        Step::ConsultStore => consult(store, english, from, protocol, now),
    }
}

/// The view of a protocol reference that may be absent.
pub open spec fn view_of(protocol: Option<&ProtocolRef>) -> Option<ProtocolRefView> {
    match protocol {
        Some(protocol) => Some(protocol@),
        None => None,
    }
}

/// Decides on `message` at `now`: classifies its content and applies the rules above.
/// Neither the recipient nor the message's own time stamp bears on the decision.
pub fn decide(store: &mut ComplianceStore, message: &SendMessageRequest, now: u64) -> (decision:
    Decision)
    requires
        old(store).wf(),
        !english_plausible(message@.content) && message@.protocol is None ==> old(
            store,
        )@.violation_count(message@.from) < u32::MAX,
    ensures
        final(store).wf(),
        decision == gate_decision(
            old(store)@,
            english_plausible(message@.content),
            message@.from,
            message@.protocol,
            now,
        ),
        final(store)@ == gate_store(
            old(store)@,
            english_plausible(message@.content),
            message@.from,
            message@.protocol,
        ),
{
    let english = looks_like_english(message.content.as_str());
    decide_classified(store, english, message.from.as_str(), message.protocol.as_ref(), now)
}

/// Decides on `message` at the time that the system clock shows.
pub fn send_message(store: &mut ComplianceStore, message: &SendMessageRequest) -> (decision:
    Decision)
    requires
        old(store).wf(),
        !english_plausible(message@.content) && message@.protocol is None ==> old(
            store,
        )@.violation_count(message@.from) < u32::MAX,
    ensures
        final(store).wf(),
        exists|now: u64|
            decision == gate_decision(
                old(store)@,
                english_plausible(message@.content),
                message@.from,
                message@.protocol,
                now,
            ),
        final(store)@ == gate_store(
            old(store)@,
            english_plausible(message@.content),
            message@.from,
            message@.protocol,
        ),
{
    let now = now_unix_sec();
    decide(store, message, now)
}

} // verus!
