//! Protocol descriptors and the keys under which the store files them.

use vstd::prelude::*;
use vstd::string::StringExecFns;

verus! {

/// What an agent declares of one version of a protocol. A descriptor is never changed once
/// it is registered; registering its protocol key again replaces it.
#[derive(Debug, Clone)]
pub struct ProtocolDescriptor {
    pub name: String,
    pub version: String,
    pub purpose: String,
    pub scope: String,
    pub risk_tier: String,
    pub translation_method: String,
}

/// A descriptor as the contracts see it.
pub struct ProtocolDescriptorView {
    pub name: Seq<char>,
    pub version: Seq<char>,
    pub purpose: Seq<char>,
    pub scope: Seq<char>,
    pub risk_tier: Seq<char>,
    pub translation_method: Seq<char>,
}

impl ProtocolDescriptorView {
    /// The protocol key that the descriptor is registered under.
    pub open spec fn key(self) -> Seq<char> {
        protocol_key_of(self.name, self.version)
    }
}

impl View for ProtocolDescriptor {
    type V = ProtocolDescriptorView;

    open spec fn view(&self) -> ProtocolDescriptorView {
        ProtocolDescriptorView {
            name: self.name@,
            version: self.version@,
            purpose: self.purpose@,
            scope: self.scope@,
            risk_tier: self.risk_tier@,
            translation_method: self.translation_method@,
        }
    }
}

/// The protocol that a message claims to be written in.
#[derive(Debug, Clone)]
pub struct ProtocolRef {
    pub name: String,
    pub version: String,
}

/// A protocol reference as the contracts see it.
pub struct ProtocolRefView {
    pub name: Seq<char>,
    pub version: Seq<char>,
}

impl ProtocolRefView {
    /// The protocol key that the reference names.
    pub open spec fn key(self) -> Seq<char> {
        protocol_key_of(self.name, self.version)
    }
}

impl View for ProtocolRef {
    type V = ProtocolRefView;

    open spec fn view(&self) -> ProtocolRefView {
        ProtocolRefView { name: self.name@, version: self.version@ }
    }
}

/// The key of a protocol version: its name, a colon, its version.
pub open spec fn protocol_key_of(name: Seq<char>, version: Seq<char>) -> Seq<char> {
    name + seq![':'] + version
}

/// The key under which the freshness of an agent's reports on one protocol is kept: the
/// agent's identifier, two colons, the protocol key.
pub open spec fn report_key_of(agent_id: Seq<char>, protocol_key: Seq<char>) -> Seq<char> {
    agent_id + seq![':', ':'] + protocol_key
}

/// Builds the protocol key of `name` and `version`.
pub fn protocol_key(name: &str, version: &str) -> (key: String)
    ensures
        key@ == protocol_key_of(name@, version@),
{
    proof {
        reveal_strlit(":");
    }
    let mut key = String::from_str(name);
    key.append(":");
    key.append(version);
    assert(":"@ =~= seq![':']);
    key
}

/// Builds the freshness key of `agent_id` and `protocol_key`.
pub fn report_key(agent_id: &str, protocol_key: &str) -> (key: String)
    ensures
        key@ == report_key_of(agent_id@, protocol_key@),
{
    proof {
        reveal_strlit("::");
    }
    let mut key = String::from_str(agent_id);
    key.append("::");
    key.append(protocol_key);
    assert("::"@ =~= seq![':', ':']);
    key
}

} // verus!
