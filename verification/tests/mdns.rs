//! Service discovery: the advertisement, and the reading of answers.

use p2p_walkie_talkie::address::IpAddress;
use p2p_walkie_talkie::mdns::{resolve, service_name, start_mdns, to_ip_addr, DnsRecord, MdnsStep, QUERY_INTERVAL_SECS};
use p2p_walkie_talkie::peer::NetworkMessage;
use p2p_walkie_talkie::walkie_talkie::WalkieTalkie;

fn node() -> WalkieTalkie {
    WalkieTalkie::with_identity("me".to_string(), "Me".to_string(), 9000)
}

fn text(entries: &[&str]) -> DnsRecord {
    DnsRecord::Text(entries.iter().map(|e| e.to_string()).collect())
}

const PEER_IP: IpAddress = IpAddress::V4(10, 0, 0, 5);

#[test]
fn the_advertisement_of_a_node() {
    let wt = WalkieTalkie::with_identity("1234-abcd".to_string(), "Al".to_string(), 7070);
    let ad = start_mdns(&wt);
    assert_eq!(ad.service_type, "_walkietalkie._udp");
    assert_eq!(ad.instance_name, "Al-1234-abcd");
    assert_eq!(ad.port, 7070);
    assert_eq!(ad.metadata, "peer_id=1234-abcd");
    assert_eq!(service_name(), "_walkietalkie._udp.local");
    assert_eq!(QUERY_INTERVAL_SECS, 15);
}

#[test]
fn only_address_records_carry_an_address() {
    assert_eq!(to_ip_addr(&DnsRecord::Address(PEER_IP)), Some(PEER_IP));
    let six = IpAddress::V6(0xfe80, 0, 0, 0, 0, 0, 0, 1);
    assert_eq!(to_ip_addr(&DnsRecord::Address(six)), Some(six));
    assert_eq!(to_ip_addr(&DnsRecord::Pointer("x".to_string())), None);
    assert_eq!(to_ip_addr(&DnsRecord::Service(80)), None);
    assert_eq!(to_ip_addr(&text(&["peer_id=1"])), None);
    assert_eq!(to_ip_addr(&DnsRecord::Other), None);
}

#[test]
fn a_full_answer_is_read_part_by_part() {
    let records = vec![
        DnsRecord::Pointer("Al-p1._walkietalkie._udp.local".to_string()),
        DnsRecord::Service(8080),
        text(&["peer_id=p1"]),
        DnsRecord::Address(PEER_IP),
    ];
    let seen = resolve(&records, 9000);
    assert_eq!(seen.address, Some(PEER_IP));
    assert_eq!(seen.name, "Al-p1._walkietalkie._udp.local");
    assert_eq!(seen.id, "p1");
    assert_eq!(seen.port, 8080);
}

#[test]
fn an_empty_answer_falls_back_everywhere() {
    let seen = resolve(&Vec::new(), 9000);
    assert_eq!(seen.address, None);
    assert_eq!(seen.name, "unknown");
    assert_eq!(seen.id, "unknown");
    assert_eq!(seen.port, 9000);
}

#[test]
fn the_identity_falls_back_to_the_name() {
    let records = vec![DnsRecord::Address(PEER_IP), DnsRecord::Pointer("Bo".to_string()), text(&["version=1"])];
    let seen = resolve(&records, 9000);
    assert_eq!(seen.name, "Bo");
    assert_eq!(seen.id, "Bo");
    assert_eq!(seen.port, 9000);
}

#[test]
fn the_first_of_each_kind_wins() {
    let records = vec![
        DnsRecord::Other,
        text(&["a=b", "c=d"]),
        DnsRecord::Address(IpAddress::V4(10, 0, 0, 6)),
        text(&["x=y", "peer_id=first", "peer_id=second"]),
        DnsRecord::Address(IpAddress::V4(10, 0, 0, 7)),
        text(&["peer_id=third"]),
        DnsRecord::Service(1111),
        DnsRecord::Service(2222),
        DnsRecord::Pointer("one".to_string()),
        DnsRecord::Pointer("two".to_string()),
    ];
    let seen = resolve(&records, 9000);
    assert_eq!(seen.address, Some(IpAddress::V4(10, 0, 0, 6)));
    assert_eq!(seen.id, "first");
    assert_eq!(seen.port, 1111);
    assert_eq!(seen.name, "one");
}

#[test]
fn the_metadata_key_must_open_the_entry() {
    let records = vec![text(&["my_peer_id=p9", "PEER_ID=p8", "peer_id"]), DnsRecord::Pointer("Bo".to_string())];
    assert_eq!(resolve(&records, 9000).id, "Bo");
    let records = vec![text(&["peer_id="]), DnsRecord::Pointer("Bo".to_string())];
    assert_eq!(resolve(&records, 9000).id, "");
}

#[test]
fn an_answer_without_an_address_is_skipped() {
    let mut wt = node();
    let records = vec![DnsRecord::Pointer("Al".to_string()), text(&["peer_id=p1"]), DnsRecord::Service(8080)];
    assert!(matches!(wt.on_mdns_response(&records, None), MdnsStep::NoAddress));
    assert!(wt.list().is_empty());
}

#[test]
fn the_own_advertisement_is_ignored() {
    let mut wt = node();
    let ad = start_mdns(&wt);
    let records = vec![
        DnsRecord::Pointer(ad.instance_name.clone()),
        DnsRecord::Service(ad.port),
        DnsRecord::Text(vec![ad.metadata.clone()]),
        DnsRecord::Address(PEER_IP),
    ];
    assert!(matches!(wt.on_mdns_response(&records, None), MdnsStep::Own));
    assert!(wt.list().is_empty());
}

#[test]
fn a_new_peer_is_stored_and_told_of_this_node() {
    let mut wt = node();
    let records = vec![
        DnsRecord::Pointer("Al".to_string()),
        DnsRecord::Service(8080),
        text(&["peer_id=p1"]),
        DnsRecord::Address(PEER_IP),
    ];
    match wt.on_mdns_response(&records, Some(IpAddress::V4(10, 0, 0, 9))) {
        MdnsStep::Announce { peer, message } => {
            assert_eq!(peer.id, "p1");
            assert_eq!(peer.name, "Al");
            assert_eq!(peer.ip, PEER_IP);
            assert_eq!(peer.port, 8080);
            match message {
                NetworkMessage::Discovery(own) => {
                    assert_eq!(own.id, "me");
                    assert_eq!(own.name, "Me");
                    assert_eq!(own.ip, IpAddress::V4(10, 0, 0, 9));
                    assert_eq!(own.port, 9000);
                }
                other => panic!("not an announcement: {:?}", other),
            }
        }
        other => panic!("not announced: {:?}", other),
    }
    let list = wt.list();
    assert_eq!(list.len(), 1);
    assert_eq!(list[0].id, "p1");

    match wt.on_mdns_response(&records, Some(IpAddress::V4(10, 0, 0, 9))) {
        MdnsStep::Refreshed(peer) => assert_eq!(peer.id, "p1"),
        other => panic!("not refreshed: {:?}", other),
    }
    assert_eq!(wt.list().len(), 1);
}

#[test]
fn without_an_own_address_the_found_one_is_announced() {
    let mut wt = node();
    let records = vec![DnsRecord::Address(PEER_IP), text(&["peer_id=p1"]), DnsRecord::Pointer("Al".to_string())];
    match wt.on_mdns_response(&records, None) {
        MdnsStep::Announce { peer, message: NetworkMessage::Discovery(own) } => {
            assert_eq!(peer.port, 9000);
            assert_eq!(own.ip, PEER_IP);
        }
        other => panic!("not announced: {:?}", other),
    }
}

#[test]
fn an_inadmissible_sighting_is_refused() {
    let mut wt = node();
    let records = vec![DnsRecord::Address(IpAddress::V4(127, 0, 0, 1)), text(&["peer_id=p1"]), DnsRecord::Pointer("Al".to_string())];
    assert!(matches!(wt.on_mdns_response(&records, None), MdnsStep::Refused));
    let records = vec![DnsRecord::Address(PEER_IP), text(&["peer_id=p1"]), DnsRecord::Pointer("Al".to_string()), DnsRecord::Service(0)];
    assert!(matches!(wt.on_mdns_response(&records, None), MdnsStep::Refused));
    let long_name = "n".repeat(65);
    let records = vec![DnsRecord::Address(PEER_IP), text(&["peer_id=p1"]), DnsRecord::Pointer(long_name)];
    assert!(matches!(wt.on_mdns_response(&records, None), MdnsStep::Refused));
    assert!(wt.list().is_empty());
}
