use api_proxy::headers::{add_cookie, bakcell_headers, cookie_header, copy_headers, nar_headers};

fn value<'a>(headers: &'a [(&'static str, String)], name: &str) -> Option<&'a str> {
    headers.iter().find(|(n, _)| *n == name).map(|(_, v)| v.as_str())
}

#[test]
fn nar_headers_carry_agent_and_keys() {
    let headers = nar_headers("TestAgent/1.0");
    assert_eq!(headers.len(), 18);
    assert_eq!(value(&headers, "User-Agent"), Some("TestAgent/1.0"));
    assert_eq!(value(&headers, "Provider-Id"), Some("1"));
    assert_eq!(value(&headers, "Referer"), Some("https://esim.nar.az"));
    assert_eq!(value(&headers, "X-API-Key"), Some("f14b1e9f-ddaa-4537-ad81-6bc910927caa"));
    assert_eq!(value(&headers, "Sec-Fetch-Site"), Some("same-origin"));
    assert_eq!(
        value(&headers, "Sec-CH-UA"),
        Some(r#""Not)A;Brand";v="8", "Chromium";v="138", "Google Chrome";v="138""#)
    );
    assert_eq!(headers[0], ("Accept", "application/json, text/plain, */*".to_string()));
    assert_eq!(headers[17], ("X-Session-Id", "607538e2-a52c-42b3-b926-2d9293298b95".to_string()));
}

#[test]
fn bakcell_headers_carry_agent_and_origin() {
    let headers = bakcell_headers("Agent X");
    assert_eq!(headers.len(), 16);
    assert_eq!(value(&headers, "User-Agent"), Some("Agent X"));
    assert_eq!(value(&headers, "Origin"), Some("https://www.bakcell.com"));
    assert_eq!(value(&headers, "Provider-Id"), Some("2"));
    assert_eq!(value(&headers, "Sec-Fetch-Site"), Some("same-site"));
    assert_eq!(value(&headers, "X-API-Key"), None);
    assert_eq!(value(&headers, "Sec-CH-UA-Platform"), Some(r#""Linux""#));
}

#[test]
fn cookie_is_added_only_when_present() {
    let mut headers = nar_headers("ua");
    add_cookie(&mut headers, String::new());
    assert_eq!(headers.len(), 18);
    add_cookie(&mut headers, "a=1; b=2".to_string());
    assert_eq!(headers.len(), 19);
    assert_eq!(headers[18], ("Cookie", "a=1; b=2".to_string()));
}

#[test]
fn cookie_header_joins_set_cookie_values() {
    let values = vec![b"a=1; Path=/".to_vec(), b"b=2".to_vec()];
    assert_eq!(cookie_header(&values), "a=1; Path=/; b=2");
    assert_eq!(cookie_header(&Vec::new()), "");
    assert_eq!(cookie_header(&vec![b"only=1".to_vec()]), "only=1");
}

#[test]
fn cookie_header_reads_unreadable_value_as_empty() {
    let values = vec![b"a=1".to_vec(), vec![0xff, b'x'], b"c=3".to_vec()];
    assert_eq!(cookie_header(&values), "a=1; ; c=3");
}

#[test]
fn copy_headers_is_equal() {
    let headers = bakcell_headers("copy me");
    assert_eq!(copy_headers(&headers), headers);
}
