//! The admission predicate and the text helpers under it.

use p2p_walkie_talkie::address::IpAddress;
use p2p_walkie_talkie::peer::PeerInfo;
use p2p_walkie_talkie::text::{
    char_is_whitespace, chars_of, str_byte_len, str_equal, str_is_blank, strip_prefix, trim,
};

fn peer(id: &str, name: &str, ip: IpAddress, port: u16) -> PeerInfo {
    PeerInfo { id: id.to_string(), name: name.to_string(), ip, port }
}

const LAN: IpAddress = IpAddress::V4(10, 0, 0, 2);

#[test]
fn admits_an_ordinary_record() {
    assert!(peer("p1", "Al", LAN, 8080).is_valid());
    assert!(peer("p1", "Al", IpAddress::V6(0xfe80, 0, 0, 0, 0, 0, 0, 1), 1).is_valid());
    assert!(peer("p1", "Al", LAN, 65535).is_valid());
}

#[test]
fn refuses_a_blank_name() {
    assert!(!peer("p1", "", LAN, 8080).is_valid());
    assert!(!peer("p1", "   ", LAN, 8080).is_valid());
    assert!(!peer("p1", "\t\n", LAN, 8080).is_valid());
    assert!(!peer("p1", "\u{3000}\u{a0}", LAN, 8080).is_valid());
}

#[test]
fn refuses_a_blank_identity() {
    assert!(!peer("", "Al", LAN, 8080).is_valid());
    assert!(!peer(" \r\n", "Al", LAN, 8080).is_valid());
}

#[test]
fn refuses_port_zero() {
    assert!(!peer("p1", "Al", LAN, 0).is_valid());
}

#[test]
fn refuses_loopback_addresses() {
    assert!(!peer("p1", "Al", IpAddress::V4(127, 0, 0, 1), 8080).is_valid());
    assert!(!peer("p1", "Al", IpAddress::V4(127, 255, 3, 9), 8080).is_valid());
    assert!(!peer("p1", "Al", IpAddress::V6(0, 0, 0, 0, 0, 0, 0, 1), 8080).is_valid());
    assert!(peer("p1", "Al", IpAddress::V4(126, 0, 0, 1), 8080).is_valid());
    assert!(peer("p1", "Al", IpAddress::V4(128, 0, 0, 1), 8080).is_valid());
    assert!(peer("p1", "Al", IpAddress::V6(0, 0, 0, 0, 0, 0, 0, 2), 8080).is_valid());
}

#[test]
fn refuses_multicast_addresses() {
    assert!(!peer("p1", "Al", IpAddress::V4(224, 0, 0, 251), 8080).is_valid());
    assert!(!peer("p1", "Al", IpAddress::V4(239, 255, 255, 255), 8080).is_valid());
    assert!(!peer("p1", "Al", IpAddress::V6(0xff02, 0, 0, 0, 0, 0, 0, 0xfb), 8080).is_valid());
    assert!(peer("p1", "Al", IpAddress::V4(223, 0, 0, 1), 8080).is_valid());
    assert!(peer("p1", "Al", IpAddress::V4(240, 0, 0, 1), 8080).is_valid());
    assert!(peer("p1", "Al", IpAddress::V6(0xfeff, 0, 0, 0, 0, 0, 0, 1), 8080).is_valid());
}

#[test]
fn address_classes_by_their_first_part() {
    for a in 0..=255u8 {
        let ip = IpAddress::V4(a, 1, 2, 3);
        assert_eq!(ip.is_loopback(), a == 127, "{}", a);
        assert_eq!(ip.is_multicast(), (224..=239).contains(&a), "{}", a);
    }
    for a in [0u16, 1, 0xfe80, 0xfeff, 0xff00, 0xff02, 0xffff] {
        for h in [0u16, 1, 2] {
            let ip = IpAddress::V6(a, 0, 0, 0, 0, 0, 0, h);
            assert_eq!(ip.is_loopback(), a == 0 && h == 1, "{:x} {}", a, h);
            assert_eq!(ip.is_multicast(), a >= 0xff00, "{:x} {}", a, h);
        }
    }
    assert!(!IpAddress::V6(0, 0, 0, 0, 0, 0xffff, 0x7f00, 1).is_loopback());
    assert!(!IpAddress::V6(0, 0, 0, 1, 0, 0, 0, 1).is_loopback());
}

#[test]
fn name_length_is_counted_in_characters() {
    let sixty_four = "n".repeat(64);
    let sixty_five = "n".repeat(65);
    assert!(peer("p1", &sixty_four, LAN, 8080).is_valid());
    assert!(!peer("p1", &sixty_five, LAN, 8080).is_valid());
    let accented = "\u{e9}".repeat(64);
    assert_eq!(accented.len(), 128);
    assert!(peer("p1", &accented, LAN, 8080).is_valid());
    assert!(!peer("p1", &"\u{e9}".repeat(65), LAN, 8080).is_valid());
}

#[test]
fn name_with_spaces_around_it_counts_them() {
    let padded = format!(" {} ", "n".repeat(63));
    assert!(!peer("p1", &padded, LAN, 8080).is_valid());
    let padded = format!(" {} ", "n".repeat(62));
    assert!(peer("p1", &padded, LAN, 8080).is_valid());
}

#[test]
fn whitespace_is_what_the_standard_library_calls_whitespace() {
    for code in 0..=0x3100u32 {
        if let Some(c) = char::from_u32(code) {
            assert_eq!(char_is_whitespace(c), c.is_whitespace(), "U+{:04X}", code);
        }
    }
    assert!(!char_is_whitespace('\u{feff}'));
    assert!(!char_is_whitespace('\u{10ffff}'));
}

#[test]
fn trim_agrees_with_the_standard_library() {
    for s in ["", " ", "a", " a", "a ", "  a b  ", "\t\nAl\r\n", "\u{3000}x\u{a0}", " \u{e9}t\u{e9} ", "   "] {
        assert_eq!(trim(s), s.trim(), "{:?}", s);
        assert_eq!(str_is_blank(s), s.trim().is_empty(), "{:?}", s);
    }
}

#[test]
fn strip_prefix_agrees_with_the_standard_library() {
    for (s, p) in [("peer_id=abc", "peer_id="), ("peer_id=", "peer_id="), ("peer_id", "peer_id="), ("x=peer_id=1", "peer_id="), ("", ""), ("abc", ""), ("/msg hi", "/msg "), ("\u{e9}a", "\u{e9}")] {
        assert_eq!(strip_prefix(s, p), s.strip_prefix(p), "{:?} {:?}", s, p);
    }
}

#[test]
fn chars_and_equality() {
    assert_eq!(chars_of("a\u{e9}z"), vec!['a', '\u{e9}', 'z']);
    assert!(chars_of("").is_empty());
    assert!(str_equal("/quit", "/quit"));
    assert!(!str_equal("/quit", "/quiT"));
    assert!(!str_equal("/quit", "/quit "));
    assert!(str_equal("", ""));
    assert_eq!(str_byte_len(""), 0);
    assert_eq!(str_byte_len("abc"), 3);
    assert_eq!(str_byte_len("a\u{e9}\u{20ac}\u{1f600}"), 10);
}
