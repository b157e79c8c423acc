use relay::address::{client_url_text, find_host_port, get_host_port, parse_url, UrlError};
use relay::text::{datagram_text, decode_text, trim_leading};

#[test]
fn trim_leading_removes_every_leading_copy() {
    assert_eq!(trim_leading("ws-client://ws-client://host:1", "ws-client://"), "host:1");
    assert_eq!(trim_leading("host:1ws-client://", "ws-client://"), "host:1ws-client://");
    assert_eq!(trim_leading("abab", "ab"), "");
}

#[test]
fn trim_leading_with_empty_pattern_keeps_text() {
    assert_eq!(trim_leading("abc", ""), "abc");
}

#[test]
fn decode_text_accepts_valid_utf8() {
    assert_eq!(decode_text("héllo".as_bytes().to_vec()), Some("héllo".to_string()));
    assert_eq!(decode_text(Vec::new()), Some(String::new()));
}

#[test]
fn decode_text_refuses_invalid_utf8() {
    assert_eq!(decode_text(vec![0xff, 0xfe]), None);
    assert_eq!(decode_text(vec![b'a', 0xc3]), None);
}

#[test]
fn datagram_text_reads_only_received_bytes() {
    let mut buf = [0u8; 16];
    buf[..5].copy_from_slice(b"hello");
    buf[5] = 0xff;
    assert_eq!(datagram_text(&buf, 5), Some("hello".to_string()));
    assert_eq!(datagram_text(&buf, 6), None);
    assert_eq!(datagram_text(&buf, 0), Some(String::new()));
}

#[test]
fn get_host_port_reads_after_scheme() {
    assert_eq!(get_host_port(&"http://127.0.0.1:8080".to_string()), "127.0.0.1:8080");
    assert_eq!(get_host_port(&"ws://localhost:9001".to_string()), "localhost:9001");
}

#[test]
fn get_host_port_keeps_trailing_path() {
    assert_eq!(get_host_port(&"https://example.com:443/".to_string()), "example.com:443/");
    assert_eq!(get_host_port(&"http://a/b".to_string()), "a/b");
}

#[test]
fn get_host_port_uses_first_scheme_separator() {
    assert_eq!(get_host_port(&"ws://h:1://x".to_string()), "h:1://x");
}

#[test]
fn find_host_port_without_separator_is_none() {
    assert_eq!(find_host_port(&"127.0.0.1:8080".to_string()), None);
    assert_eq!(find_host_port(&"stdout".to_string()), None);
}

#[test]
fn find_host_port_stops_at_newline() {
    assert_eq!(find_host_port(&"http://a:1\nmore".to_string()), Some("a:1".to_string()));
}

#[test]
fn parse_url_accepts_absolute_urls() {
    let url = parse_url("ws://localhost:9001").unwrap();
    assert_eq!(url.as_str(), "ws://localhost:9001/");
    assert_eq!(url.into_url().as_str(), "ws://localhost:9001/");
}

#[test]
fn parse_url_refuses_relative_text() {
    assert_eq!(parse_url("localhost").unwrap_err(), UrlError::Invalid);
    assert_eq!(parse_url("ws://").unwrap_err(), UrlError::Invalid);
}

#[test]
fn client_url_text_swaps_scheme() {
    assert_eq!(client_url_text(&"ws-client://127.0.0.1:9002".to_string()), "ws://127.0.0.1:9002");
    assert_eq!(client_url_text(&"ws-client://ws-client://h:1".to_string()), "ws://h:1");
    assert_eq!(client_url_text(&"h:1".to_string()), "ws://h:1");
}
