use policy_gateway::protocol::ProtocolDescriptor;
use policy_gateway::store::ComplianceStore;

fn descriptor(name: &str, version: &str, purpose: &str) -> ProtocolDescriptor {
    ProtocolDescriptor {
        name: name.to_string(),
        version: version.to_string(),
        purpose: purpose.to_string(),
        scope: "internal".to_string(),
        risk_tier: "low".to_string(),
        translation_method: "glossary".to_string(),
    }
}

#[test]
fn new_store_is_empty() {
    let store = ComplianceStore::new();
    assert!(!store.is_registered("alice", "proto:1"));
    assert_eq!(store.last_report_time("alice", "proto:1"), None);
    assert_eq!(store.violation_count("alice"), 0);
}

#[test]
fn register_then_is_registered() {
    let mut store = ComplianceStore::new();
    store.register("alice", descriptor("proto", "1", "sync"));
    assert!(store.is_registered("alice", "proto:1"));
    // The key is exact.
    assert!(!store.is_registered("alice", "proto:2"));
    assert!(!store.is_registered("alice", "proto"));
    assert!(!store.is_registered("alice", "Proto:1"));
    assert!(!store.is_registered("alice", ""));
}

#[test]
fn registration_is_agent_scoped() {
    let mut store = ComplianceStore::new();
    store.register("alice", descriptor("proto", "1", "sync"));
    assert!(!store.is_registered("bob", "proto:1"));
    assert!(!store.is_registered("alic", "proto:1"));
    assert!(!store.is_registered("", "proto:1"));
    store.register("bob", descriptor("other", "3", "sync"));
    assert!(store.is_registered("bob", "other:3"));
    assert!(!store.is_registered("bob", "proto:1"));
    assert!(!store.is_registered("alice", "other:3"));
    assert!(store.is_registered("alice", "proto:1"));
    // Two agents may register the same key, each for itself.
    store.register("bob", descriptor("proto", "1", "sync"));
    assert!(store.is_registered("bob", "proto:1"));
    assert!(store.is_registered("alice", "proto:1"));
}

#[test]
fn registering_again_keeps_the_key_registered() {
    let mut store = ComplianceStore::new();
    store.register("alice", descriptor("proto", "1", "sync"));
    store.register("alice", descriptor("proto", "2", "sync"));
    store.register("alice", descriptor("proto", "1", "replaced"));
    assert!(store.is_registered("alice", "proto:1"));
    assert!(store.is_registered("alice", "proto:2"));
}

#[test]
fn registering_again_replaces_the_descriptor() {
    let mut store = ComplianceStore::new();
    assert!(store.descriptor_of("alice", "proto:1").is_none());
    store.register("alice", descriptor("proto", "1", "sync"));
    store.register("bob", descriptor("proto", "1", "gossip"));
    assert_eq!(store.descriptor_of("alice", "proto:1").unwrap().purpose, "sync");
    let mut second = descriptor("proto", "1", "replaced");
    second.scope = "public".to_string();
    store.register("alice", second);
    let found = store.descriptor_of("alice", "proto:1").unwrap();
    assert_eq!(found.name, "proto");
    assert_eq!(found.version, "1");
    assert_eq!(found.purpose, "replaced");
    assert_eq!(found.scope, "public");
    assert_eq!(found.risk_tier, "low");
    assert_eq!(found.translation_method, "glossary");
    // Nobody else's descriptor was touched.
    assert_eq!(store.descriptor_of("bob", "proto:1").unwrap().purpose, "gossip");
    assert!(store.descriptor_of("alice", "proto:2").is_none());
    assert!(store.descriptor_of("carol", "proto:1").is_none());
}

#[test]
fn default_store_is_empty() {
    let store = ComplianceStore::default();
    assert!(!store.is_registered("alice", "proto:1"));
    assert_eq!(store.last_report_time("alice", "proto:1"), None);
    assert_eq!(store.violation_count("alice"), 0);
}

#[test]
fn an_agent_and_a_key_that_read_alike_are_kept_apart() {
    let mut store = ComplianceStore::new();
    store.register("a::b", descriptor("c", "1", "sync"));
    assert!(store.is_registered("a::b", "c:1"));
    assert!(!store.is_registered("a", "b::c:1"));
}

#[test]
fn many_agents_keep_their_own_protocols() {
    let mut store = ComplianceStore::new();
    for i in 0..200 {
        store.register(&format!("agent-{}", i), descriptor("proto", &format!("{}", i), "sync"));
    }
    for i in 0..200 {
        assert!(store.is_registered(&format!("agent-{}", i), &format!("proto:{}", i)));
        assert!(!store.is_registered(&format!("agent-{}", i), &format!("proto:{}", i + 1)));
    }
}

#[test]
fn record_report_overwrites() {
    let mut store = ComplianceStore::new();
    store.record_report("alice", "proto:1", 1_000);
    assert_eq!(store.last_report_time("alice", "proto:1"), Some(1_000));
    store.record_report("alice", "proto:1", 2_000);
    assert_eq!(store.last_report_time("alice", "proto:1"), Some(2_000));
    // An earlier time overwrites a later one: the last write wins.
    store.record_report("alice", "proto:1", 500);
    assert_eq!(store.last_report_time("alice", "proto:1"), Some(500));
    store.record_report("alice", "proto:1", 0);
    assert_eq!(store.last_report_time("alice", "proto:1"), Some(0));
    store.record_report("alice", "proto:1", u64::MAX);
    assert_eq!(store.last_report_time("alice", "proto:1"), Some(u64::MAX));
}

#[test]
fn reports_are_kept_by_agent_and_protocol() {
    let mut store = ComplianceStore::new();
    store.record_report("alice", "proto:1", 1_000);
    assert_eq!(store.last_report_time("bob", "proto:1"), None);
    assert_eq!(store.last_report_time("alice", "proto:2"), None);
    store.record_report("bob", "proto:1", 7);
    assert_eq!(store.last_report_time("alice", "proto:1"), Some(1_000));
    assert_eq!(store.last_report_time("bob", "proto:1"), Some(7));
    // Recording a report registers nothing.
    assert!(!store.is_registered("alice", "proto:1"));
}

#[test]
fn freshness_is_kept_under_the_joined_key() {
    let mut store = ComplianceStore::new();
    store.record_report("a::b", "c:1", 42);
    assert_eq!(store.last_report_time("a", "b::c:1"), Some(42));
}

#[test]
fn violations_count_from_one() {
    let mut store = ComplianceStore::new();
    store.record_violation("alice");
    assert_eq!(store.violation_count("alice"), 1);
    store.record_violation("alice");
    store.record_violation("alice");
    assert_eq!(store.violation_count("alice"), 3);
    assert_eq!(store.violation_count("bob"), 0);
    store.record_violation("bob");
    assert_eq!(store.violation_count("bob"), 1);
    assert_eq!(store.violation_count("alice"), 3);
    assert!(!store.is_registered("alice", "proto:1"));
    assert_eq!(store.last_report_time("alice", "proto:1"), None);
}
