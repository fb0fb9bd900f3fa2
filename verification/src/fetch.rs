use vstd::prelude::*;
use vstd::string::StringExecFns;
use std::time::Duration;
use attohttpc::ProxySettings;
use attohttpc::RequestBuilder;
use attohttpc::header::HeaderName;
use crate::error::Error;

verus! {

/// The request methods the engine issues.
#[derive(Clone, Copy, Debug, PartialEq, Eq, Structural)]
pub enum Method {
    Get,
    Post,
}

/// Proxy addresses for a request, handed in by the caller, which reads
/// `http_proxy`/`https_proxy` from its environment at call time.  An
/// unparsable address is silently ignored, not an error.
pub struct ProxyConfig {
    pub http: Option<String>,
    pub https: Option<String>,
}

impl ProxyConfig {
    /// No proxy: connect directly.
    pub fn direct() -> (r: Self)
        ensures
            r.http is None,
            r.https is None,
    {
        ProxyConfig { http: None, https: None }
    }
}

#[verifier::external_type_specification]
#[verifier::external_body]
pub struct ExUrl(url::Url);

/// Whether a string parses as an absolute URL, as the parser decides it; a
/// function of the string alone.
pub uninterp spec fn url_ok(s: Seq<char>) -> bool;

/// Relies on `url::Url::parse`: `Ok` exactly when the string parses as an
/// absolute URL, which depends on the string alone.  An address that does
/// not parse is silently ignored by `fetch`, not an error.
#[verifier::external_body]
fn parse_proxy_url(s: &str) -> (r: Option<url::Url>)
    ensures
        r is Some <==> url_ok(s@),
{
    url::Url::parse(s).ok()
}

/// The fixed browser-like headers every request carries; a request with a
/// body additionally declares a JSON content type.  Several sites block
/// requests lacking a browser-like signature, so these are not optional.
pub fn spoof_headers(with_body: bool) -> (r: Vec<(String, String)>)
    ensures
        r@.len() == (if with_body {
            5int
        } else {
            3int
        }),
        r@[0].0@ == "User-Agent"@ && r@[0].1@
            == "Mozilla/5.0 (Windows NT 10.0; rv:78.0) Gecko/20100101 Firefox/78.0"@,
        r@[1].0@ == "Accept-Language"@ && r@[1].1@ == "en-US"@,
        r@[2].0@ == "Cache-control"@ && r@[2].1@ == "no-cache"@,
        with_body ==> r@[3].0@ == "Content-Type"@ && r@[3].1@ == "application/json"@,
        with_body ==> r@[4].0@ == "Accept"@ && r@[4].1@ == "*/*"@,
{
    let mut headers: Vec<(String, String)> = Vec::new();
    headers.push(
        (
            String::from_str("User-Agent"),
            String::from_str("Mozilla/5.0 (Windows NT 10.0; rv:78.0) Gecko/20100101 Firefox/78.0"),
        ),
    );
    headers.push((String::from_str("Accept-Language"), String::from_str("en-US")));
    headers.push((String::from_str("Cache-control"), String::from_str("no-cache")));
    if with_body {
        headers.push((String::from_str("Content-Type"), String::from_str("application/json")));
        headers.push((String::from_str("Accept"), String::from_str("*/*")));
    }
    headers
}

/// An indefinite hang against a misbehaving remote site would starve every
/// caller, so each request carries this bounded timeout.
pub const REQUEST_TIMEOUT_SECS: u64 = 30;

/// Relies on attohttpc to perform one HTTP round trip: builds the request
/// with the given headers, proxy settings and timeout, sends it, and reads
/// the status and the decoded body.  `Ok((success, text))` when a response
/// arrived, where `success` is whether its status was in the 2xx range;
/// `None` on a transport failure (unreachable host, TLS, timeout, invalid
/// request, undecodable body).  The outcome depends on the network, so
/// nothing more is promised.
#[verifier::external_body]
#[allow(unused_mut)]
fn send_request(
    post: bool,
    url: &str,
    headers: &Vec<(String, String)>,
    body: Option<&str>,
    http_proxy: Option<url::Url>,
    https_proxy: Option<url::Url>,
    timeout_secs: u64,
) -> (r: Option<(bool, String)>) {
    let method = if post { attohttpc::Method::POST } else { attohttpc::Method::GET };
    let settings = ProxySettings::builder().http_proxy(http_proxy).https_proxy(https_proxy).build();
    let mut rb = RequestBuilder::try_new(method, url).ok()?.proxy_settings(settings)
        .timeout(Duration::from_secs(timeout_secs));
    for (k, v) in headers.iter() {
        let name = HeaderName::from_bytes(k.as_bytes()).ok()?;
        rb = rb.try_header_append(name, v.as_str()).ok()?;
    }
    let response = match body {
        Some(text) => rb.text(text).send(),
        None => rb.send(),
    }.ok()?;
    let success = response.is_success();
    response.text().ok().map(|t| (success, t))
}

/// Turn a transport outcome into the fetch result: a success status yields
/// the body, any non-success status collapses to `NotFound`, and a transport
/// failure is `Transport`.
pub fn classify_response(outcome: Option<(bool, String)>) -> (r: Result<String, Error>)
    ensures
        match outcome {
            Some((success, text)) => if success {
                r == Ok::<String, Error>(text)
            } else {
                r == Err::<String, Error>(Error::NotFound)
            },
            None => r == Err::<String, Error>(Error::Transport),
        },
{
    match outcome {
        Some((success, text)) => {
            if success {
                Ok(text)
            } else {
                Err(Error::NotFound)
            }
        },
        None => Err(Error::Transport),
    }
}

/// Perform an HTTP request with the fixed spoofed headers and the bounded
/// timeout, routed through the given proxies when their addresses parse.  A
/// response with a non-success status is `NotFound`; a transport failure is
/// `Transport`; no other error kind can come out of a plain fetch.
pub fn fetch(method: Method, url: &str, body: Option<&str>, proxy: &ProxyConfig) -> (r: Result<
    String,
    Error,
>)
    ensures
        r matches Err(e) ==> e == Error::NotFound || e == Error::Transport,
{
    let headers = spoof_headers(body.is_some());
    let http_proxy = match &proxy.http {
        Some(s) => parse_proxy_url(s.as_str()),
        None => None,
    };
    let https_proxy = match &proxy.https {
        Some(s) => parse_proxy_url(s.as_str()),
        None => None,
    };
    let outcome = send_request(
        method == Method::Post,
        url,
        &headers,
        body,
        http_proxy,
        https_proxy,
        REQUEST_TIMEOUT_SECS,
    );
    classify_response(outcome)
}

#[verifier::external_type_specification]
#[verifier::external_body]
pub struct ExJsonValue(json::JsonValue);

/// Whether a string is valid JSON, as the parser decides it; a function of
/// the text alone.
pub uninterp spec fn json_ok(s: Seq<char>) -> bool;

/// Relies on `json::parse`: `Ok` exactly when the text is valid JSON, which
/// depends on the text alone; the parser is depth-limited and returns its
/// failures as values.
#[verifier::external_body]
fn json_parse(s: &str) -> (r: Option<json::JsonValue>)
    ensures
        r is Some <==> json_ok(s@),
{
    json::parse(s).ok()
}

/// Decode text as JSON: `Ok` exactly when the text is valid JSON, and the
/// only error it can report is `Parse`.
pub fn decode_json(text: &str) -> (r: Result<json::JsonValue, Error>)
    ensures
        r is Ok <==> json_ok(text@),
        r matches Err(e) ==> e == Error::Parse,
{
    match json_parse(text) {
        Some(value) => Ok(value),
        None => Err(Error::Parse),
    }
}

/// Fetch and decode a JSON body.  On top of the fetch errors, a success
/// response whose body is not valid JSON is `Parse` (exactly when, is
/// `decode_json`'s contract; the body itself depends on the network).
pub fn json_request(method: Method, url: &str, body: Option<&str>, proxy: &ProxyConfig) -> (r:
    Result<json::JsonValue, Error>)
    ensures
        r matches Err(e) ==> e == Error::NotFound || e == Error::Transport || e == Error::Parse,
{
    let text = match fetch(method, url, body, proxy) {
        Ok(t) => t,
        Err(e) => {
            return Err(e);
        },
    };
    decode_json(text.as_str())
}

/// GET a URL and decode its body as JSON.
pub fn fetch_json(url: &str, proxy: &ProxyConfig) -> (r: Result<json::JsonValue, Error>)
    ensures
        r matches Err(e) ==> e == Error::NotFound || e == Error::Transport || e == Error::Parse,
{
    json_request(Method::Get, url, None, proxy)
}

/// POST a JSON body to a URL and decode the response as JSON.
pub fn post_json(url: &str, body: &str, proxy: &ProxyConfig) -> (r: Result<json::JsonValue, Error>)
    ensures
        r matches Err(e) ==> e == Error::NotFound || e == Error::Transport || e == Error::Parse,
{
    json_request(Method::Post, url, Some(body), proxy)
}

/// GET a URL and parse its body as an HTML document; document parsing is
/// lenient and never fails, so only fetch errors can come out.
pub fn fetch_html(url: &str, proxy: &ProxyConfig) -> (r: Result<scraper::Html, Error>)
    ensures
        r matches Err(e) ==> e == Error::NotFound || e == Error::Transport,
{
    let text = match fetch(Method::Get, url, None, proxy) {
        Ok(t) => t,
        Err(e) => {
            return Err(e);
        },
    };
    Ok(crate::dom::parse_html(text.as_str()))
}

} // verus!
