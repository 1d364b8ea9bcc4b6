use mini_pipeline_proxy::ipv6::ipv6_string;
use mini_pipeline_proxy::text::{contains_str, host_port_string, ipv4_string, push_decimal};

#[test]
fn decimal_text() {
    let mut s = String::new();
    push_decimal(&mut s, 0);
    assert_eq!(s, "0");
    let mut s = String::from("x");
    push_decimal(&mut s, 4294967295);
    assert_eq!(s, "x4294967295");
}

#[test]
fn ipv4_dotted_decimal() {
    assert_eq!(ipv4_string(0, 0, 0, 0), "0.0.0.0");
    assert_eq!(ipv4_string(93, 184, 216, 34), "93.184.216.34");
    assert_eq!(ipv4_string(255, 10, 0, 1), "255.10.0.1");
}

#[test]
fn host_port_joins_with_colon() {
    assert_eq!(host_port_string("example.com", 443), "example.com:443");
    assert_eq!(host_port_string("", 0), ":0");
}

#[test]
fn contains_substring() {
    assert!(contains_str("www.example.com", "example"));
    assert!(contains_str("example", "example"));
    assert!(!contains_str("exampl", "example"));
    assert!(!contains_str("www.exAmple.com", "example"));
    assert!(contains_str("abc", ""));
}

fn v6(groups: [u16; 8]) -> String {
    let mut o = Vec::new();
    for g in groups {
        o.push((g >> 8) as u8);
        o.push((g & 0xff) as u8);
    }
    ipv6_string(&o)
}

#[test]
fn ipv6_text_forms() {
    assert_eq!(v6([0, 0, 0, 0, 0, 0, 0, 0]), "::");
    assert_eq!(v6([0, 0, 0, 0, 0, 0, 0, 1]), "::1");
    assert_eq!(v6([0x2001, 0xdb8, 0, 0, 0, 0, 0, 1]), "2001:db8::1");
    assert_eq!(v6([0x2001, 0xdb8, 0, 1, 0, 0, 0, 1]), "2001:db8:0:1::1");
    assert_eq!(v6([0x2001, 0xdb8, 0, 0, 1, 0, 0, 1]), "2001:db8::1:0:0:1");
    assert_eq!(v6([1, 0, 2, 3, 4, 5, 6, 7]), "1:0:2:3:4:5:6:7");
    assert_eq!(v6([0xfe80, 0, 0, 0, 0, 0, 0, 0]), "fe80::");
    assert_eq!(v6([0xabcd, 0xef01, 0x2345, 0x6789, 0xabcd, 0xef01, 0x2345, 0x6789]), "abcd:ef01:2345:6789:abcd:ef01:2345:6789");
    assert_eq!(v6([0, 0, 0, 0, 0, 0xffff, 0xc0a8, 0x0001]), "::ffff:192.168.0.1");
    assert_eq!(v6([0, 0, 0, 0, 0, 0, 0xc0a8, 0x0001]), "::c0a8:1");
}
