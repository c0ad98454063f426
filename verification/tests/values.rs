//! Texts, names, addresses and JSON documents.
use govee::json::Json;
use govee::names::NameMap;
use govee::net::{loopback_host, IpAddr, Ipv4Addr, Ipv6Addr};
use govee::text::{
    chars_of, comes_before, contains, decimal_text, parse_unsigned, push_hex_pair, push_part, same,
    split,
};

#[test]
fn text_comparison() {
    assert!(same("abc", "abc"));
    assert!(!same("abc", "abd"));
    assert!(!same("abc", "ab"));
    assert!(same("", ""));
    for (a, b) in [("a", "b"), ("A", "a"), ("", "a"), ("ab", "abc"), ("Zoo", "apple")] {
        assert_eq!(comes_before(a, b), a < b);
        assert_eq!(comes_before(b, a), b < a);
        assert!(!comes_before(a, a));
    }
    assert_eq!(chars_of("h\u{e9}!"), vec!['h', '\u{e9}', '!']);
}

#[test]
fn text_numbers() {
    for n in [0u64, 9, 10, 255, 4002, u64::MAX] {
        assert_eq!(decimal_text(n), n.to_string());
        assert_eq!(parse_unsigned(&decimal_text(n)), Some(n));
    }
    for t in ["", "+", "+5", "-5", " 5", "5 ", "007", "18446744073709551616", "1e3", "\u{663}"] {
        assert_eq!(parse_unsigned(t), t.parse::<u64>().ok());
    }
    let mut s = String::from("#");
    push_hex_pair(&mut s, 0xaf);
    push_hex_pair(&mut s, 0x05);
    assert_eq!(s, "#AF05");
}

#[test]
fn text_parts() {
    assert!(contains("devices.capabilities.dynamic_scene", "dynamic_scene"));
    assert!(!contains("devices.capabilities.scene", "dynamic_scene"));
    assert!(contains("abc", ""));
    assert!(!contains("ab", "abc"));
    assert_eq!(split("a.b..c", '.'), ["a", "b", "", "c"]);
    assert_eq!(split("", '.'), [""]);
    let mut list = String::new();
    push_part(&mut list, 0, "x");
    push_part(&mut list, 1, "y");
    assert_eq!(list, "x, y");
}

#[test]
fn name_map_keeps_the_place_of_a_name() {
    let mut m = NameMap::new();
    assert!(m.is_empty());
    assert_eq!(m.insert("b".to_string(), 1), None);
    assert_eq!(m.insert("a".to_string(), 2), None);
    assert_eq!(m.insert("b".to_string(), 3), Some(1));
    assert_eq!(m.len(), 2);
    assert_eq!(m.entry(0), ("b", &3));
    assert_eq!(m.entry(1), ("a", &2));
    assert_eq!(m.get("a"), Some(&2));
    assert_eq!(m.get("c"), None);
    assert!(m.contains_key("b"));
}

#[test]
fn loopback_hosts() {
    for host in ["localhost", "127.0.0.1", "[::1]", "127.255.0.9"] {
        assert!(loopback_host(host), "{host}");
    }
    for host in [
        "example.com",
        "128.0.0.1",
        "127.0.0",
        "127.0.0.1.1",
        "127.0.0.01",
        "127.0.0.256",
        "127.0.0.+1",
        "127.0.0.",
        "127.0.0.1000",
        "localhost.example.com",
        "[::2]",
        "",
    ] {
        assert!(!loopback_host(host), "{host}");
    }
}

#[test]
fn local_addresses() {
    let v4 = |a, b, c, d| IpAddr::V4(Ipv4Addr::new(a, b, c, d));
    for ip in [
        v4(10, 0, 0, 1),
        v4(172, 16, 0, 1),
        v4(172, 31, 255, 255),
        v4(192, 168, 0, 1),
        v4(169, 254, 0, 1),
        v4(127, 0, 0, 1),
        IpAddr::V6(Ipv6Addr { high: 0, low: 1 }),
    ] {
        assert!(ip.is_local(), "{ip:?}");
    }
    for ip in [
        v4(172, 15, 0, 1),
        v4(172, 32, 0, 1),
        v4(192, 169, 0, 1),
        v4(169, 253, 0, 1),
        v4(8, 8, 8, 8),
        IpAddr::V6(Ipv6Addr { high: 0, low: 2 }),
        IpAddr::V6(Ipv6Addr { high: 1, low: 1 }),
    ] {
        assert!(!ip.is_local(), "{ip:?}");
    }
}

#[test]
fn json_documents() {
    let doc = Json::parse(br#"{"a":[1,-2,2.5,true,null,"t"],"b":{"c":18446744073709551615}}"#).unwrap();
    match doc.get("a").unwrap() {
        Json::Array(items) => {
            assert_eq!(items[0], Json::Unsigned(1));
            assert_eq!(items[1], Json::Negative(-2));
            assert_eq!(items[2], Json::Decimal("2.5".to_string()));
            assert_eq!(items[3], Json::Bool(true));
            assert_eq!(items[4], Json::Null);
            assert_eq!(items[5], Json::Text("t".to_string()));
        }
        other => panic!("unexpected {other:?}"),
    }
    assert_eq!(doc.get("b").unwrap().get_u64("c"), Some(u64::MAX));
    assert_eq!(doc.get("z"), None);
    assert_eq!(doc.get_u64("a"), None);
    assert_eq!(doc.clone(), doc);
    assert_eq!(
        doc.to_bytes().unwrap(),
        br#"{"a":[1,-2,2.5,true,null,"t"],"b":{"c":18446744073709551615}}"#
    );
}

#[test]
fn json_of_two_members_with_one_name_the_later_counts() {
    let doc = Json::parse(br#"{"a":1,"a":2}"#).unwrap();
    assert_eq!(doc.get_u64("a"), Some(2));
    let built = Json::empty_object()
        .with("a", Json::Unsigned(1))
        .with("b", Json::Bool(false))
        .with("a", Json::Unsigned(3));
    assert_eq!(built.get_u64("a"), Some(3));
    assert_eq!(built.get_bool("b"), Some(false));
    assert_eq!(built.to_bytes().unwrap(), br#"{"a":3,"b":false}"#);
}

#[test]
fn json_reads_back_what_it_wrote() {
    let mut doc = Json::empty_object()
        .with("text", Json::Text("a\"\\\n\u{1}\u{e9}\u{1f4a1}".to_string()))
        .with("least", Json::Negative(i64::MIN))
        .with("most", Json::Unsigned(u64::MAX))
        .with("list", Json::Array(vec![Json::Null, Json::Bool(true)]));
    assert_eq!(Json::parse(&doc.to_bytes().unwrap()).unwrap(), Json::empty_object()
        .with("least", Json::Negative(i64::MIN))
        .with("list", Json::Array(vec![Json::Null, Json::Bool(true)]))
        .with("most", Json::Unsigned(u64::MAX))
        .with("text", Json::Text("a\"\\\n\u{1}\u{e9}\u{1f4a1}".to_string())));
    // The object and its list make two levels.
    for _ in 2..127 {
        doc = Json::Array(vec![doc]);
    }
    assert!(Json::parse(&doc.to_bytes().unwrap()).is_ok());
    doc = Json::Array(vec![doc]);
    assert!(Json::parse(&doc.to_bytes().unwrap()).is_err());
}
