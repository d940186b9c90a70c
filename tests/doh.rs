use servoshell::doh::scan_doh_answer;

#[test]
fn reads_data_values_and_ttl() {
    let body = r#"{"Status":0,"Answer":[{"name":"a.com","type":1,"TTL":120,"data":"1.2.3.4"},{"data": "5.6.7.8","TTL":30}]}"#;
    let scan = scan_doh_answer(body).unwrap();
    assert_eq!(scan.data_values, vec!["1.2.3.4", "5.6.7.8"]);
    assert_eq!(scan.ttl_secs, 120);
}

#[test]
fn short_ttl_is_raised_to_a_minute() {
    let scan = scan_doh_answer(r#"{"Answer":[{"TTL": 5,"data":"::1"}]}"#).unwrap();
    assert_eq!(scan.ttl_secs, 60);
    assert_eq!(scan.data_values, vec!["::1"]);
}

#[test]
fn missing_or_bad_ttl_defaults_to_five_minutes() {
    assert_eq!(scan_doh_answer(r#"{"data":"1.1.1.1"}"#).unwrap().ttl_secs, 300);
    assert_eq!(scan_doh_answer(r#"{"TTL":"x","data":"1.1.1.1"}"#).unwrap().ttl_secs, 300);
    assert_eq!(scan_doh_answer(r#"{"TTL":99999999999999999999999}"#).unwrap().ttl_secs, 300);
}

#[test]
fn no_answers_and_malformed_answers() {
    let empty = scan_doh_answer(r#"{"Status":3}"#).unwrap();
    assert!(empty.data_values.is_empty());
    assert!(scan_doh_answer(r#"{"data" 1}"#).is_none());
    assert!(scan_doh_answer(r#"{"data": 12}"#).is_none());
    assert!(scan_doh_answer(r#"{"data": "open"#).is_none());
}

use servoshell::doh::{doh_endpoint, doh_request_text, http_body};

#[test]
fn endpoints_per_provider() {
    let g = doh_endpoint("google", "a.com");
    assert_eq!((g.addr.as_str(), g.sni.as_str(), g.path.as_str()), ("8.8.8.8:443", "dns.google", "/resolve?name=a.com&type=A"));
    let q = doh_endpoint("quad9", "b.org");
    assert_eq!((q.addr.as_str(), q.sni.as_str(), q.path.as_str()), ("9.9.9.9:443", "dns.quad9.net", "/dns-query?name=b.org&type=A"));
    let c = doh_endpoint("cloudflare", "c.net");
    assert_eq!((c.addr.as_str(), c.sni.as_str(), c.path.as_str()), ("1.1.1.1:443", "cloudflare-dns.com", "/dns-query?name=c.net&type=A"));
}

#[test]
fn request_and_body() {
    assert_eq!(
        doh_request_text("/p", "h"),
        "GET /p HTTP/1.1\r\nHost: h\r\nAccept: application/dns-json\r\nConnection: close\r\n\r\n"
    );
    assert_eq!(http_body("HTTP/1.1 200 OK\r\nA: b\r\n\r\n{\"x\":1}").as_deref(), Some("{\"x\":1}"));
    assert_eq!(http_body("no blank line"), None);
}
