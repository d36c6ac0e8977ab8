//! The compliance store: every piece of state that a decision rests on.
//!
//! The store keeps, for each agent, the protocols it has registered; for each pair of agent
//! and protocol, when a report was last accepted; and for each agent, how often it sent a
//! novel language without naming a protocol. Nothing else in the crate holds state, and
//! nothing reaches these maps but through the operations below.

use vstd::prelude::*;
use vstd::hash_map::StringHashMap;
use vstd::string::StringExecFns;
use crate::protocol::{
    protocol_key, report_key, report_key_of, ProtocolDescriptor, ProtocolDescriptorView,
};

verus! {

/// The state of a store as the contracts see it.
pub struct StoreView {
    /// The protocols of each agent, by protocol key.
    pub registry: Map<Seq<char>, Map<Seq<char>, ProtocolDescriptorView>>,
    /// The time of the last accepted report, in seconds since the Unix epoch, by freshness
    /// key.
    pub freshness: Map<Seq<char>, u64>,
    /// The violations counted against each agent.
    pub violations: Map<Seq<char>, u32>,
}

impl StoreView {
    /// The store at start-up: nothing registered, reported or counted.
    pub open spec fn empty() -> StoreView {
        StoreView { registry: Map::empty(), freshness: Map::empty(), violations: Map::empty() }
    }

    /// The protocols that `agent_id` has registered.
    pub open spec fn protocols_of(self, agent_id: Seq<char>) -> Map<
        Seq<char>,
        ProtocolDescriptorView,
    > {
        if self.registry.contains_key(agent_id) {
            self.registry[agent_id]
        } else {
            Map::empty()
        }
    }

    /// Whether `agent_id` has registered `protocol_key`.
    pub open spec fn is_registered(self, agent_id: Seq<char>, protocol_key: Seq<char>) -> bool {
        self.protocols_of(agent_id).contains_key(protocol_key)
    }

    /// The store once `agent_id` has registered `descriptor`, in place of any descriptor
    /// that it had under the same protocol key.
    pub open spec fn register(
        self,
        agent_id: Seq<char>,
        descriptor: ProtocolDescriptorView,
    ) -> StoreView {
        StoreView {
            registry: self.registry.insert(
                agent_id,
                self.protocols_of(agent_id).insert(descriptor.key(), descriptor),
            ),
            ..self
        }
    }

    /// When a report of `agent_id` on `protocol_key` was last accepted, if ever.
    pub open spec fn last_report_time(
        self,
        agent_id: Seq<char>,
        protocol_key: Seq<char>,
    ) -> Option<u64> {
        let key = report_key_of(agent_id, protocol_key);
        if self.freshness.contains_key(key) {
            Some(self.freshness[key])
        } else {
            None
        }
    }

    /// The store once a report of `agent_id` on `protocol_key` has been accepted at
    /// `timestamp`. The last write wins, whatever time was recorded before.
    pub open spec fn record_report(
        self,
        agent_id: Seq<char>,
        protocol_key: Seq<char>,
        timestamp: u64,
    ) -> StoreView {
        StoreView {
            freshness: self.freshness.insert(report_key_of(agent_id, protocol_key), timestamp),
            ..self
        }
    }

    /// The violations counted against `agent_id`.
    pub open spec fn violation_count(self, agent_id: Seq<char>) -> u32 {
        if self.violations.contains_key(agent_id) {
            self.violations[agent_id]
        } else {
            0
        }
    }

    /// The store once one more violation has been counted against `agent_id`.
    pub open spec fn record_violation(self, agent_id: Seq<char>) -> StoreView
        recommends
            self.violation_count(agent_id) < u32::MAX,
    {
        StoreView {
            violations: self.violations.insert(
                agent_id,
                (self.violation_count(agent_id) + 1) as u32,
            ),
            ..self
        }
    }
}

/// Once an agent has registered a descriptor, the descriptor's protocol key is registered
/// for that agent.
pub proof fn lemma_register_then_registered(
    store: StoreView,
    agent_id: Seq<char>,
    descriptor: ProtocolDescriptorView,
)
    ensures
        store.register(agent_id, descriptor).is_registered(agent_id, descriptor.key()),
        store.register(agent_id, descriptor).protocols_of(agent_id)[descriptor.key()]
            == descriptor,
{
}

/// A registration is the agent's own: it changes nothing for any other agent. An agent
/// that has not registered a protocol key itself is not registered for it, whoever else
/// is.
pub proof fn lemma_registration_is_agent_scoped(
    store: StoreView,
    agent_id: Seq<char>,
    descriptor: ProtocolDescriptorView,
    other_agent: Seq<char>,
    protocol_key: Seq<char>,
)
    requires
        other_agent != agent_id,
    ensures
        store.register(agent_id, descriptor).is_registered(other_agent, protocol_key)
            == store.is_registered(other_agent, protocol_key),
        !store.is_registered(other_agent, protocol_key) ==> !store.register(
            agent_id,
            descriptor,
        ).is_registered(other_agent, protocol_key),
        !StoreView::empty().register(agent_id, descriptor).is_registered(
            other_agent,
            protocol_key,
        ),
{
}

/// The compliance store.
///
/// Each agent that has registered a protocol owns one slot of `protocols`, which
/// `agent_slots` finds by the agent's identifier.
pub struct ComplianceStore {
    agent_slots: StringHashMap<usize>,
    protocols: Vec<StringHashMap<ProtocolDescriptor>>,
    last_report_ts: StringHashMap<u64>,
    violations: StringHashMap<u32>,
}

impl View for ComplianceStore {
    type V = StoreView;

    closed spec fn view(&self) -> StoreView {
        StoreView {
            registry: Map::new(
                |agent_id: Seq<char>| self.agent_slots@.contains_key(agent_id),
                |agent_id: Seq<char>| descriptor_views(self.protocols@[self.agent_slots@[agent_id] as int]@),
            ),
            freshness: self.last_report_ts@,
            violations: self.violations@,
        }
    }
}

/// The descriptors of one slot, each by its view.
pub open spec fn descriptor_views(slot: Map<Seq<char>, ProtocolDescriptor>) -> Map<
    Seq<char>,
    ProtocolDescriptorView,
> {
    slot.map_values(|d: ProtocolDescriptor| d@)
}

impl ComplianceStore {
    /// The store is well formed: every agent's slot exists, and no two agents share one.
    /// `new` makes a well-formed store and every operation keeps it so.
    pub closed spec fn wf(&self) -> bool {
        &&& forall|a: Seq<char>| #[trigger]
            self.agent_slots@.contains_key(a) ==> self.agent_slots@[a] < self.protocols@.len()
        &&& forall|a: Seq<char>, b: Seq<char>|
            #![trigger self.agent_slots@[a], self.agent_slots@[b]]
            self.agent_slots@.contains_key(a) && self.agent_slots@.contains_key(b)
                && self.agent_slots@[a] == self.agent_slots@[b] ==> a == b
    }

    /// An empty store.
    pub fn new() -> (store: ComplianceStore)
        ensures
            store.wf(),
            store@ == StoreView::empty(),
    {
        let store = ComplianceStore {
            agent_slots: StringHashMap::new(),
            protocols: Vec::new(),
            last_report_ts: StringHashMap::new(),
            violations: StringHashMap::new(),
        };
        assert(store@.registry =~= Map::empty());
        store
    }

    /// Registers `descriptor` for `agent_id` under the descriptor's protocol key, in place
    /// of any descriptor that the agent had under that key.
    pub fn register(&mut self, agent_id: &str, descriptor: ProtocolDescriptor)
        requires
            old(self).wf(),
        ensures
            final(self).wf(),
            final(self)@ == old(self)@.register(agent_id@, descriptor@),
    {
        let key = protocol_key(descriptor.name.as_str(), descriptor.version.as_str());
        let known = match self.agent_slots.get(agent_id) {
            Some(slot) => Some(*slot),
            None => None,
        };
        let slot = match known {
            Some(slot) => slot,
            None => {
                let slot = self.protocols.len();
                self.protocols.push(StringHashMap::new());
                self.agent_slots.insert(String::from_str(agent_id), slot);
                slot
            },
        };
        let ghost before = self.protocols@[slot as int]@;
        self.protocols[slot].insert(key, descriptor);
        proof {
            let after = self.protocols@[slot as int]@;
            assert(descriptor_views(after) =~= descriptor_views(before).insert(
                key@,
                descriptor@,
            ));
            assert(descriptor_views(before) =~= old(self)@.protocols_of(agent_id@));
            assert(self@.registry =~= old(self)@.register(agent_id@, descriptor@).registry);
        }
    }

    /// Whether `agent_id` has registered `protocol_key`.
    pub fn is_registered(&self, agent_id: &str, protocol_key: &str) -> (registered: bool)
        requires
            self.wf(),
        ensures
            registered == self@.is_registered(agent_id@, protocol_key@),
    {
        match self.agent_slots.get(agent_id) {
            Some(slot) => self.protocols[*slot].contains_key(protocol_key),
            None => false,
        }
    }

    /// The descriptor that `agent_id` has registered under `protocol_key`, if any.
    pub fn descriptor_of(&self, agent_id: &str, protocol_key: &str) -> (found: Option<
        &ProtocolDescriptor,
    >)
        requires
            self.wf(),
        ensures
            found is Some == self@.is_registered(agent_id@, protocol_key@),
            found matches Some(descriptor) ==> descriptor@ == self@.protocols_of(
                agent_id@,
            )[protocol_key@],
    {
        match self.agent_slots.get(agent_id) {
            Some(slot) => self.protocols[*slot].get(protocol_key),
            None => None,
        }
    }

    /// Records `timestamp` as the time of the last accepted report of `agent_id` on
    /// `protocol_key`, over whatever was recorded before.
    pub fn record_report(&mut self, agent_id: &str, protocol_key: &str, timestamp: u64)
        requires
            old(self).wf(),
        ensures
            final(self).wf(),
            final(self)@ == old(self)@.record_report(agent_id@, protocol_key@, timestamp),
    {
        let key = report_key(agent_id, protocol_key);
        self.last_report_ts.insert(key, timestamp);
        assert(self@.registry =~= old(self)@.registry);
    }

    /// When a report of `agent_id` on `protocol_key` was last accepted, if ever.
    pub fn last_report_time(&self, agent_id: &str, protocol_key: &str) -> (time: Option<u64>)
        ensures
            time == self@.last_report_time(agent_id@, protocol_key@),
    {
        let key = report_key(agent_id, protocol_key);
        match self.last_report_ts.get(key.as_str()) {
            Some(time) => Some(*time),
            None => None,
        }
    }

    /// The violations counted against `agent_id`.
    pub fn violation_count(&self, agent_id: &str) -> (count: u32)
        ensures
            count == self@.violation_count(agent_id@),
    {
        match self.violations.get(agent_id) {
            Some(count) => *count,
            None => 0,
        }
    }

    /// Counts one more violation against `agent_id`, the first of which makes the count 1.
    pub fn record_violation(&mut self, agent_id: &str)
        requires
            old(self).wf(),
            old(self)@.violation_count(agent_id@) < u32::MAX,
        ensures
            final(self).wf(),
            final(self)@ == old(self)@.record_violation(agent_id@),
    {
        let count = self.violation_count(agent_id);
        self.violations.insert(String::from_str(agent_id), count + 1);
        assert(self@.registry =~= old(self)@.registry);
    }
}

impl Default for ComplianceStore {
    /// An empty store.
    fn default() -> (store: ComplianceStore)
        ensures
            store.wf(),
            store@ == StoreView::empty(),
    {
        ComplianceStore::new()
    }
}

} // verus!
