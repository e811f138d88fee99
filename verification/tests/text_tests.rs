use webhook_server::crypto::{constant_time_text_eq, generate_token, token_from_bytes};
use webhook_server::headers::{extract_token, forwarded_for, header_value, RequestHeaders};
use webhook_server::net::{get_client_addr, github_networks, is_github_ip, parse_network, ClientAddr, IpNet, IpValue};
use webhook_server::status::HttpStatus;
use webhook_server::text::{
    after_last, before_first, before_last, contains_text, decimal, eq_ignore_ascii_case, parse_u16,
    split_trimmed, strip_prefix, take_chars, text_eq, trim, trim_end_char,
};

#[test]
fn trimming_uses_unicode_white_space() {
    assert_eq!(trim("  a b \t\n"), "a b");
    assert_eq!(trim("\u{3000}x\u{a0}"), "x");
    assert_eq!(trim("   "), "");
    assert_eq!(trim_end_char("/srv/docs///", '/'), "/srv/docs");
    assert_eq!(trim_end_char("///", '/'), "");
}

#[test]
fn comma_lists_drop_blank_entries() {
    assert_eq!(split_trimmed(" a, b ,,c ,  ", ','), vec!["a", "b", "c"]);
    assert!(split_trimmed("", ',').is_empty());
    assert_eq!(split_trimmed("solo", ','), vec!["solo"]);
}

#[test]
fn u16_parsing_matches_std() {
    for s in ["0", "8080", "+80", "65535", "65536", "", "+", "-1", " 80", "80a", "00012", "999999999999"] {
        assert_eq!(parse_u16(s), s.parse::<u16>().ok(), "input {:?}", s);
    }
}

#[test]
fn decimal_formatting_round_trips() {
    for n in [0u64, 7, 10, 22, 5000, 65535, u64::MAX] {
        assert_eq!(decimal(n), n.to_string());
    }
    for p in [0u16, 1, 443, 65535] {
        assert_eq!(parse_u16(&decimal(p as u64)), Some(p));
    }
}

#[test]
fn search_helpers() {
    assert_eq!(after_last("a/b/c", '/'), "c");
    assert_eq!(after_last("abc", '/'), "abc");
    assert_eq!(before_last("a/b/c", '/'), Some("a/b"));
    assert_eq!(before_last("abc", '/'), None);
    assert_eq!(before_first("1.2.3.4, 5.6.7.8", ','), "1.2.3.4");
    assert_eq!(strip_prefix("Bearer tok", "Bearer "), Some("tok"));
    assert_eq!(strip_prefix("bearer tok", "Bearer "), None);
    assert!(contains_text("SSH deployed x to y", "SSH deploy"));
    assert!(!contains_text("SSH", "SSH deploy"));
    assert!(contains_text("abc", ""));
    assert_eq!(take_chars("héllo", 2), "hé");
    assert_eq!(take_chars("hi", 5), "hi");
    assert!(eq_ignore_ascii_case("Push Hook", "PUSH hook"));
    assert!(!eq_ignore_ascii_case("Push", "Push Hook"));
    assert!(text_eq("a", "a") && !text_eq("a", "b"));
    assert!(constant_time_text_eq("x", "x") && !constant_time_text_eq("x", "y"));
}

#[test]
fn tokens_are_lowercase_hex() {
    assert_eq!(token_from_bytes(&[0x00, 0xab, 0x9f]), "00ab9f");
    let t = generate_token();
    assert_eq!(t.len(), 64);
    assert!(t.chars().all(|c| c.is_ascii_hexdigit() && !c.is_ascii_uppercase()));
    assert_ne!(t, generate_token());
}

fn hdrs(pairs: &[(&str, Option<&str>)]) -> RequestHeaders {
    let mut h = RequestHeaders::new();
    for (k, v) in pairs {
        h.append(k.to_string(), v.map(str::to_string));
    }
    h
}

#[test]
fn header_lookups_ignore_name_case_and_take_the_first() {
    let h = hdrs(&[("authorization", Some("Bearer abc")), ("x-a", Some("1")), ("X-A", Some("2")), ("x-b", None)]);
    assert_eq!(extract_token(&h), Some("abc"));
    assert_eq!(header_value(&h, "X-A"), "1");
    assert_eq!(header_value(&h, "x-b"), "");
    assert_eq!(header_value(&h, "x-c"), "");
    assert!(h.contains_key("X-B"));
    assert_eq!(extract_token(&hdrs(&[("Authorization", Some("Basic abc"))])), None);
    assert_eq!(forwarded_for(&hdrs(&[("X-Forwarded-For", Some(" 10.0.0.1 , 10.0.0.2"))])), Some("10.0.0.1"));
    assert_eq!(forwarded_for(&hdrs(&[])), None);
}

#[test]
fn networks_match_on_their_prefix() {
    let v4 = IpNet::new(IpValue::V4(0x8C52_7000), 20).unwrap();
    assert!(v4.contains(IpValue::V4(0x8C52_7F01)));
    assert!(!v4.contains(IpValue::V4(0x8C52_8001)));
    assert!(!v4.contains(IpValue::V6(0x8C52_7F01)));
    let v6 = IpNet::new(IpValue::V6(0x2606_50c0_u128 << 96), 32).unwrap();
    assert!(v6.contains(IpValue::V6((0x2606_50c0_u128 << 96) | 5)));
    assert!(IpNet::new(IpValue::V4(0), 33).is_none());
    assert!(IpNet::new(IpValue::V6(0), 128).is_some());
    let all = IpNet::new(IpValue::V4(0), 0).unwrap();
    assert!(all.contains(IpValue::V4(u32::MAX)));
    let client = ClientAddr { ip: IpValue::V4(0x8C52_7001), port: 5 };
    assert!(is_github_ip(client, &[v6, v4]));
    assert!(!is_github_ip(client, &[v6]));
}

#[test]
fn client_address_prefers_forwarded_values() {
    let conn = ClientAddr { ip: IpValue::V4(1), port: 9 };
    let fwd = ClientAddr { ip: IpValue::V4(2), port: 7 };
    assert_eq!(get_client_addr(Some(fwd), None, conn), fwd);
    assert_eq!(get_client_addr(None, Some(IpValue::V4(3)), conn), ClientAddr { ip: IpValue::V4(3), port: 9 });
    assert_eq!(get_client_addr(None, None, conn), conn);
}

#[test]
fn status_codes() {
    assert_eq!(HttpStatus::Success.code(), 200);
    assert_eq!(HttpStatus::BadRequest.code(), 400);
    assert_eq!(HttpStatus::Unauthorized.code(), 401);
    assert_eq!(HttpStatus::Forbidden.code(), 403);
    assert_eq!(HttpStatus::NotFound.code(), 404);
}

#[test]
fn github_networks_are_parsed_from_their_text() {
    let nets = github_networks();
    assert_eq!(nets.len(), 6);
    assert_eq!(nets[0].addr(), IpValue::V4(0xC01E_FC00));
    assert_eq!(nets[0].prefix(), 22);
    assert_eq!(nets[5].addr(), IpValue::V6(0x2606_50c0_u128 << 96));
    assert_eq!(nets[5].prefix(), 32);
    assert!(parse_network("10.0.0.0/33").is_none());
    assert!(parse_network("not a network").is_none());
    let n = parse_network("10.1.2.3").unwrap();
    assert_eq!((n.addr(), n.prefix()), (IpValue::V4(0x0A01_0203), 32));
    let hook = ClientAddr { ip: IpValue::V4(0x8C52_7001), port: 443 };
    assert!(is_github_ip(hook, &nets));
    assert!(!is_github_ip(ClientAddr { ip: IpValue::V4(0x0A00_0001), port: 443 }, &nets));
}
