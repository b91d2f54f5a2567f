//! The registry: insertion, overwriting, removal and self-exclusion.

use p2p_walkie_talkie::address::IpAddress;
use p2p_walkie_talkie::peer::PeerInfo;
use p2p_walkie_talkie::registry::{Registry, Upsert};

fn record(id: &str, name: &str, port: u16) -> PeerInfo {
    PeerInfo { id: id.to_string(), name: name.to_string(), ip: IpAddress::V4(10, 0, 0, 2), port }
}

#[test]
fn a_new_registry_is_empty() {
    let registry = Registry::new("me".to_string());
    assert!(registry.is_empty());
    assert_eq!(registry.len(), 0);
    assert!(registry.snapshot().is_empty());
    assert!(!registry.contains(&"p1".to_string()));
    assert!(registry.get(&"p1".to_string()).is_none());
    assert_eq!(registry.owner(), "me");
}

#[test]
fn upsert_overwrite_and_remove() {
    let mut registry = Registry::new("me".to_string());
    assert_eq!(registry.upsert(record("p1", "Al", 8080)), Upsert::Added);
    let snapshot = registry.snapshot();
    assert_eq!(snapshot.len(), 1);
    assert_eq!(snapshot[0].id, "p1");
    assert_eq!(snapshot[0].name, "Al");
    assert_eq!(snapshot[0].ip, IpAddress::V4(10, 0, 0, 2));
    assert_eq!(snapshot[0].port, 8080);

    assert_eq!(registry.upsert(record("p1", "Al", 9090)), Upsert::Updated);
    let snapshot = registry.snapshot();
    assert_eq!(snapshot.len(), 1);
    assert_eq!(snapshot[0].port, 9090);
    assert_eq!(registry.get(&"p1".to_string()).map(|p| p.port), Some(9090));

    let mut notices = 0;
    if registry.remove(&"p1".to_string()).is_some() {
        notices += 1;
    }
    assert_eq!(registry.snapshot().len(), 0);
    assert_eq!(notices, 1);
    if registry.remove(&"p1".to_string()).is_some() {
        notices += 1;
    }
    assert_eq!(notices, 1);
}

#[test]
fn upsert_then_snapshot_holds_the_identity() {
    let mut registry = Registry::new("me".to_string());
    for id in ["a", "b", "c", "b", "a"] {
        registry.upsert(record(id, "Peer", 7000));
        assert!(registry.snapshot().iter().any(|p| p.id == id));
        assert!(registry.contains(&id.to_string()));
    }
    assert_eq!(registry.len(), 3);
}

#[test]
fn the_owner_is_never_stored() {
    let mut registry = Registry::new("me".to_string());
    assert_eq!(registry.upsert(record("me", "Myself", 8080)), Upsert::Rejected);
    assert!(registry.snapshot().is_empty());
    registry.upsert(record("p1", "Al", 8080));
    assert_eq!(registry.upsert(record("me", "Myself", 8080)), Upsert::Rejected);
    assert!(registry.snapshot().iter().all(|p| p.id != "me"));
    assert_eq!(registry.len(), 1);
}

#[test]
fn an_inadmissible_record_is_ignored() {
    let mut registry = Registry::new("me".to_string());
    assert_eq!(registry.upsert(record("p1", "  ", 8080)), Upsert::Rejected);
    assert_eq!(registry.upsert(record("p1", "Al", 0)), Upsert::Rejected);
    assert_eq!(registry.upsert(record(" ", "Al", 8080)), Upsert::Rejected);
    let looped = PeerInfo { id: "p1".to_string(), name: "Al".to_string(), ip: IpAddress::V4(127, 0, 0, 1), port: 8080 };
    assert_eq!(registry.upsert(looped), Upsert::Rejected);
    assert!(registry.is_empty());

    registry.upsert(record("p1", "Al", 8080));
    assert_eq!(registry.upsert(record("p1", "Al", 0)), Upsert::Rejected);
    assert_eq!(registry.get(&"p1".to_string()).map(|p| p.port), Some(8080));
}

#[test]
fn remove_of_an_absent_identity_changes_nothing() {
    let mut registry = Registry::new("me".to_string());
    registry.upsert(record("p1", "Al", 8080));
    registry.upsert(record("p2", "Bo", 8081));
    assert!(registry.remove(&"p3".to_string()).is_none());
    assert_eq!(registry.len(), 2);
    assert!(registry.contains(&"p1".to_string()));
    assert!(registry.contains(&"p2".to_string()));
}

#[test]
fn remove_deletes_exactly_one_entry() {
    let mut registry = Registry::new("me".to_string());
    registry.upsert(record("p1", "Al", 8080));
    registry.upsert(record("p2", "Bo", 8081));
    registry.upsert(record("p3", "Cy", 8082));
    let gone = registry.remove(&"p2".to_string());
    assert_eq!(gone.map(|p| (p.name, p.port)), Some(("Bo".to_string(), 8081)));
    assert_eq!(registry.len(), 2);
    assert!(registry.contains(&"p1".to_string()));
    assert!(!registry.contains(&"p2".to_string()));
    assert!(registry.contains(&"p3".to_string()));
    assert!(!registry.is_empty());
}

#[test]
fn identities_are_compared_as_they_are_written() {
    let mut registry = Registry::new("me".to_string());
    registry.upsert(record("p1", "Al", 8080));
    assert_eq!(registry.upsert(record(" p1", "Al", 8081)), Upsert::Added);
    assert_eq!(registry.upsert(record("Q1", "Al", 8082)), Upsert::Added);
    assert_eq!(registry.upsert(record(" me", "Al", 8083)), Upsert::Added);
    assert_eq!(registry.len(), 4);
}
