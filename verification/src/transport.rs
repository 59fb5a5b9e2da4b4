use vstd::prelude::*;
use std::rc::Rc;
use crate::request::HttpMethod;

verus! {

#[verifier::external_type_specification]
#[verifier::external_body]
pub struct ExClient(reqwest::blocking::Client);

#[verifier::external_type_specification]
#[verifier::external_body]
pub struct ExResponse(reqwest::blocking::Response);

#[verifier::external_type_specification]
#[verifier::external_body]
pub struct ExForm(reqwest::blocking::multipart::Form);

#[verifier::external_type_specification]
#[verifier::external_body]
pub struct ExValue(serde_json::Value);

/// Whether the text parses as a URL. Names the verdict of
/// `reqwest::Url::parse`, which depends on the text alone.
pub uninterp spec fn url_ok(s: Seq<char>) -> bool;

/// Whether the bytes parse as a JSON document. Names the verdict of
/// `serde_json::from_slice`, which depends on the bytes alone.
pub uninterp spec fn json_parses(bytes: Seq<u8>) -> bool;

/// Relies on reqwest::Url::parse: it accepts a text exactly when the text is
/// a well-formed absolute URL.
#[verifier::external_body]
pub fn parse_url_ok(s: &str) -> (r: bool)
    ensures
        r == url_ok(s@),
{
    reqwest::Url::parse(s).is_ok()
}

/// Whether the text is a valid HTTP header name. Names the verdict of
/// `reqwest::header::HeaderName::from_bytes`, which depends on the text alone.
pub uninterp spec fn header_name_valid(s: Seq<char>) -> bool;

/// Whether the text is a valid HTTP header value. Names the verdict of
/// `reqwest::header::HeaderValue::from_str`, which depends on the text alone.
pub uninterp spec fn header_value_valid(s: Seq<char>) -> bool;

/// Relies on reqwest::header::HeaderName::from_bytes: it accepts a text
/// exactly when the text is a well-formed header name.
#[verifier::external_body]
pub fn parse_header_name_ok(s: &str) -> (r: bool)
    ensures
        r == header_name_valid(s@),
{
    reqwest::header::HeaderName::from_bytes(s.as_bytes()).is_ok()
}

/// Relies on reqwest::header::HeaderValue::from_str: it accepts a text
/// exactly when the text is a well-formed header value.
#[verifier::external_body]
pub fn parse_header_value_ok(s: &str) -> (r: bool)
    ensures
        r == header_value_valid(s@),
{
    reqwest::header::HeaderValue::from_str(s).is_ok()
}

/// Relies on std's Rc::clone, which vstd leaves unspecified: the returned
/// handle shares the same underlying client.
#[verifier::external_body]
pub fn clone_client(c: &Rc<reqwest::blocking::Client>) -> (r: Rc<reqwest::blocking::Client>)
    ensures
        r == *c,
{
    Rc::clone(c)
}

/// Relies on reqwest::blocking::ClientBuilder::build, with the cookie store
/// enabled so that one client keeps its session across calls; None when the
/// transport cannot be initialised.
#[verifier::external_body]
pub fn new_cookie_client() -> Option<Rc<reqwest::blocking::Client>> {
    match reqwest::blocking::Client::builder().cookie_store(true).build() {
        Ok(c) => Some(Rc::new(c)),
        Err(_) => None,
    }
}

/// Relies on serde_json::to_vec: the JSON encoding of the body, or None when
/// the body's serializer reports an error.
#[verifier::external_body]
pub fn json_bytes_of<B: serde::Serialize>(body: &B) -> Option<Vec<u8>> {
    serde_json::to_vec(body).ok()
}

/// Relies on serde_json::from_slice: a JSON value comes back exactly when the
/// bytes parse as JSON.
#[verifier::external_body]
pub fn parse_json_value(bytes: &Vec<u8>) -> (r: Option<serde_json::Value>)
    ensures
        r is Some <==> json_parses(bytes@),
{
    serde_json::from_slice(bytes.as_slice()).ok()
}

/// Relies on reqwest::blocking::Client::request and RequestBuilder::send:
/// assembles the request from its parts — each header pair handed over in
/// order, the model keeping at most one pair per set name — performs the
/// blocking exchange, and reports the transport error's text on failure.
#[verifier::external_body]
pub fn send_request(
    client: &Rc<reqwest::blocking::Client>,
    method: &HttpMethod,
    url: &str,
    headers: &Vec<(String, String)>,
    body: Option<Vec<u8>>,
) -> Result<reqwest::blocking::Response, String> {
    let m = match method {
        HttpMethod::Get => reqwest::Method::GET,
        HttpMethod::Post => reqwest::Method::POST,
        HttpMethod::Put => reqwest::Method::PUT,
    };
    let mut rb = client.request(m, url);
    for (name, value) in headers.iter() {
        rb = rb.header(name.as_str(), value.as_str());
    }
    if let Some(b) = body {
        rb = rb.body(b);
    }
    rb.send().map_err(|e| e.to_string())
}

/// Relies on reqwest::blocking::RequestBuilder::multipart and send: assembles
/// a multipart request from its parts — each header pair handed over in
/// order, the model keeping at most one pair per set name — performs the
/// blocking exchange, and reports the transport error's text on failure.
#[verifier::external_body]
pub fn send_multipart(
    client: &Rc<reqwest::blocking::Client>,
    method: &HttpMethod,
    url: &str,
    headers: &Vec<(String, String)>,
    form: reqwest::blocking::multipart::Form,
) -> Result<reqwest::blocking::Response, String> {
    let m = match method {
        HttpMethod::Get => reqwest::Method::GET,
        HttpMethod::Post => reqwest::Method::POST,
        HttpMethod::Put => reqwest::Method::PUT,
    };
    let mut rb = client.request(m, url).multipart(form);
    for (name, value) in headers.iter() {
        rb = rb.header(name.as_str(), value.as_str());
    }
    rb.send().map_err(|e| e.to_string())
}

/// Relies on reqwest::blocking::Response::status: the numeric status code.
#[verifier::external_body]
pub fn response_status(resp: &reqwest::blocking::Response) -> u16 {
    resp.status().as_u16()
}

/// Relies on reqwest::blocking::Response::headers: one name/value pair per
/// header entry, in the order the response carries them.
#[verifier::external_body]
pub fn response_headers(resp: &reqwest::blocking::Response) -> Vec<(String, String)> {
    resp.headers()
        .iter()
        .map(|(k, v)| (k.as_str().to_owned(), String::from_utf8_lossy(v.as_bytes()).into_owned()))
        .collect()
}

/// Relies on reqwest::blocking::Response::bytes: the response body, or the
/// transport error's text when the body cannot be read.
#[verifier::external_body]
pub fn response_bytes(resp: reqwest::blocking::Response) -> Result<Vec<u8>, String> {
    match resp.bytes() {
        Ok(b) => Ok(b.to_vec()),
        Err(e) => Err(e.to_string()),
    }
}

} // verus!
