use sitegrab::error::Error;
use sitegrab::fetch::classify_response;
use sitegrab::fetch::decode_json;
use sitegrab::fetch::fetch;
use sitegrab::fetch::spoof_headers;
use sitegrab::fetch::Method;
use sitegrab::fetch::ProxyConfig;

#[test]
fn non_success_status_collapses_to_not_found() {
    let r = classify_response(Some((false, "internal server error".to_string())));
    assert_eq!(r.unwrap_err(), Error::NotFound);
}

#[test]
fn success_status_yields_the_body() {
    let r = classify_response(Some((true, "body".to_string())));
    assert_eq!(r.unwrap(), "body");
}

#[test]
fn transport_failure_is_its_own_kind() {
    let r = classify_response(None);
    assert_eq!(r.unwrap_err(), Error::Transport);
}

#[test]
fn fetch_against_unroutable_host_is_transport_error() {
    let proxy = ProxyConfig::direct();
    let r = fetch(Method::Get, "http://127.0.0.1:9/", None, &proxy);
    assert_eq!(r.unwrap_err(), Error::Transport);
}

#[test]
fn fetch_of_invalid_url_is_transport_error() {
    let proxy = ProxyConfig::direct();
    let r = fetch(Method::Get, "not a url", None, &proxy);
    assert_eq!(r.unwrap_err(), Error::Transport);
}

#[test]
fn invalid_json_body_is_a_parse_error() {
    assert_eq!(decode_json("not json").unwrap_err(), Error::Parse);
    assert_eq!(decode_json("").unwrap_err(), Error::Parse);
    assert!(decode_json("{\"a\": [1, 2]}").is_ok());
}

#[test]
fn spoofed_headers_are_fixed() {
    let plain = spoof_headers(false);
    assert_eq!(plain.len(), 3);
    assert_eq!(plain[0].0, "User-Agent");
    assert_eq!(
        plain[0].1,
        "Mozilla/5.0 (Windows NT 10.0; rv:78.0) Gecko/20100101 Firefox/78.0"
    );
    assert_eq!(plain[1], ("Accept-Language".to_string(), "en-US".to_string()));
    assert_eq!(plain[2], ("Cache-control".to_string(), "no-cache".to_string()));

    let with_body = spoof_headers(true);
    assert_eq!(with_body.len(), 5);
    assert_eq!(with_body[3], ("Content-Type".to_string(), "application/json".to_string()));
    assert_eq!(with_body[4], ("Accept".to_string(), "*/*".to_string()));
}
