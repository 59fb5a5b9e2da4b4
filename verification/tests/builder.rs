use std::rc::Rc;

use confluence::client::Confluence;
use confluence::client::Executor;
use confluence::errors::ConstructionError;
use confluence::errors::HeaderError;
use confluence::request::HttpMethod;
use confluence::request::PendingRequest;

const HOST: &str = "https://your.confluence.example.com/rest/api";

fn connection() -> Confluence {
    Confluence::new(HOST).expect("transport should initialise")
}

#[test]
fn it_works() {
    assert_eq!(2 + 2, 4);
}

#[test]
fn get_starts_at_the_host() {
    let c = connection();
    let b = c.get();
    let p = b.pending();
    assert_eq!(p.current_url().unwrap(), HOST);
    assert_eq!(p.method().unwrap(), HttpMethod::Get);
}

#[test]
fn get_carries_default_headers() {
    let c = connection();
    let b = c.get();
    let headers = b.pending().header_pairs().unwrap().clone();
    assert_eq!(
        headers,
        vec![
            ("Content-Type".to_string(), "application/json".to_string()),
            ("User-Agent".to_string(), "bardo-confluence".to_string()),
            ("Accept".to_string(), "application/json".to_string()),
        ]
    );
}

#[test]
fn child_pages_chain_url() {
    let c = connection();
    let chain = c
        .get()
        .content()
        .content_id("205613650")
        .child()
        .expand("page.version");
    assert_eq!(
        chain.pending().current_url().unwrap(),
        "https://your.confluence.example.com/rest/api/content/205613650/child?expand=page.version"
    );
    assert_eq!(chain.pending().method().unwrap(), HttpMethod::Get);
}

#[test]
fn find_page_chain_url() {
    let c = connection();
    let chain = c
        .get()
        .content()
        .space_key("ICF")
        .title("My+Fancy+Page+Title")
        .expand("version");
    assert_eq!(
        chain.pending().current_url().unwrap(),
        "https://your.confluence.example.com/rest/api/content?spaceKey=ICF&title=My+Fancy+Page+Title&expand=version"
    );
}

#[test]
fn attachments_by_filename_chain_url() {
    let c = connection();
    let chain = c
        .get()
        .content()
        .content_id("205618124")
        .child()
        .attachment()
        .filename("profile.jpg");
    assert_eq!(
        chain.pending().current_url().unwrap(),
        "https://your.confluence.example.com/rest/api/content/205618124/child/attachment?filename=profile.jpg"
    );
}

#[test]
fn custom_endpoint_chain_url() {
    let c = connection();
    let chain = c.get().custom_endpoint("content");
    assert_eq!(
        chain.pending().current_url().unwrap(),
        "https://your.confluence.example.com/rest/api/content"
    );
}

#[test]
fn post_serializes_the_body() {
    let mut body = serde_json::Map::new();
    body.insert("type".to_string(), serde_json::Value::String("page".to_string()));
    body.insert("title".to_string(), serde_json::Value::String("Hello World".to_string()));
    let body = serde_json::Value::Object(body);
    let expected = serde_json::to_vec(&body).unwrap();

    let c = connection();
    let chain = c.post(&body).content();
    let p = chain.pending();
    assert_eq!(
        p.current_url().unwrap(),
        "https://your.confluence.example.com/rest/api/content"
    );
    assert_eq!(p.method().unwrap(), HttpMethod::Post);
    assert_eq!(p.json_body().unwrap(), &expected);
}

#[test]
fn put_targets_a_content_id() {
    let body = serde_json::Value::String("payload".to_string());
    let expected = serde_json::to_vec(&body).unwrap();

    let c = connection();
    let chain = c.put(&body).content().content_id("205618124");
    let p = chain.pending();
    assert_eq!(
        p.current_url().unwrap(),
        "https://your.confluence.example.com/rest/api/content/205618124"
    );
    assert_eq!(p.method().unwrap(), HttpMethod::Put);
    assert_eq!(p.json_body().unwrap(), &expected);
}

struct RefusesToSerialize;

impl serde::Serialize for RefusesToSerialize {
    fn serialize<S: serde::Serializer>(&self, _serializer: S) -> Result<S::Ok, S::Error> {
        Err(serde::ser::Error::custom("refused"))
    }
}

#[test]
fn post_of_unserializable_body_is_an_error() {
    let c = connection();
    let chain = c.post(RefusesToSerialize).content();
    let err = chain.pending().construction_error().unwrap();
    assert_eq!(err, ConstructionError::SerializeBody);
    assert_eq!(err.message(), "Unable to serialize data to JSON");
}

#[test]
fn invalid_host_is_an_invalid_url_error() {
    let c = Confluence::new("not a url").expect("transport should initialise");
    let b = c.get();
    let err = b.pending().construction_error().unwrap();
    assert_eq!(err, ConstructionError::InvalidUrl);
    assert_eq!(err.message(), "Failed to parse Url");
}

#[test]
fn set_header_adds_a_new_pair() {
    let c = connection();
    let b = c.get().set_header("X-Custom", "yes").unwrap();
    let headers = b.pending().header_pairs().unwrap();
    assert_eq!(headers.len(), 4);
    assert_eq!(headers[3], ("X-Custom".to_string(), "yes".to_string()));
}

#[test]
fn set_header_overwrites_a_pair_of_the_same_name() {
    let c = connection();
    let b = c.get().set_header("Accept", "text/plain").unwrap();
    let headers = b.pending().header_pairs().unwrap().clone();
    assert_eq!(
        headers,
        vec![
            ("Content-Type".to_string(), "application/json".to_string()),
            ("User-Agent".to_string(), "bardo-confluence".to_string()),
            ("Accept".to_string(), "text/plain".to_string()),
        ]
    );
    let again = b.set_header("Accept", "application/xml").unwrap();
    let headers = again.pending().header_pairs().unwrap();
    assert_eq!(headers.len(), 3);
    assert_eq!(headers[2], ("Accept".to_string(), "application/xml".to_string()));
}

#[test]
fn set_header_refuses_an_invalid_name() {
    let c = connection();
    let err = match c.get().set_header("bad name", "yes") {
        Err(e) => e,
        Ok(_) => panic!("an invalid header name must be refused"),
    };
    assert_eq!(err, HeaderError::InvalidName);
    assert_eq!(err.message(), "Invalid header name");
}

#[test]
fn set_header_refuses_an_invalid_value() {
    let c = connection();
    let err = match c.get().set_header("X-Custom", "bad\nvalue") {
        Err(e) => e,
        Ok(_) => panic!("an invalid header value must be refused"),
    };
    assert_eq!(err, HeaderError::InvalidValue);
    assert_eq!(err.message(), "Invalid header value");
}

#[test]
fn put_builder_sets_a_header() {
    let c = connection();
    let b = c
        .put(&serde_json::Value::Null)
        .set_header("Accept", "text/plain")
        .unwrap();
    let headers = b.pending().header_pairs().unwrap();
    assert_eq!(headers.len(), 3);
    assert_eq!(headers[2], ("Accept".to_string(), "text/plain".to_string()));
}

#[test]
fn set_header_on_an_error_state_changes_nothing() {
    let c = Confluence::new("not a url").expect("transport should initialise");
    let before = c.get();
    let err_before = before.pending().construction_error().unwrap();
    let after = before.set_header("X-Custom", "yes").unwrap();
    let err_after = after.pending().construction_error().unwrap();
    assert_eq!(err_before, err_after);
    assert_eq!(err_after.message(), "Failed to parse Url");
    assert!(after.pending().header_pairs().is_none());
}

#[test]
fn errors_stay_unchanged_through_a_chain() {
    let c = Confluence::new("not a url").expect("transport should initialise");
    let chain = c
        .get()
        .set_header("X-Custom", "yes")
        .unwrap()
        .content()
        .content_id("205613650")
        .child()
        .expand("page.version");
    let err = chain.pending().construction_error().unwrap();
    assert_eq!(err, ConstructionError::InvalidUrl);
    assert_eq!(err.message(), "Failed to parse Url");
    assert!(chain.pending().current_url().is_none());
}

#[test]
fn execute_returns_the_captured_error_without_a_call() {
    let c = Confluence::new("not a url").expect("transport should initialise");
    let result = c.get().custom_endpoint("content").execute();
    match result {
        Err(e) => assert_eq!(e.message(), "Failed to parse Url"),
        Ok(_) => panic!("an error state must not execute"),
    }
}

#[test]
fn multipart_attachment_replaces_headers_and_body() {
    let form = reqwest::blocking::multipart::Form::new();
    let c = connection();
    let chain = c
        .post(&serde_json::Value::Null)
        .content()
        .content_id("205618124")
        .child()
        .attachment(form);
    let p = chain.pending();
    assert_eq!(
        p.current_url().unwrap(),
        "https://your.confluence.example.com/rest/api/content/205618124/child/attachment"
    );
    assert_eq!(
        p.header_pairs().unwrap().clone(),
        vec![("X-Atlassian-Token".to_string(), "nocheck".to_string())]
    );
    assert!(p.json_body().is_none());
}

#[test]
fn attachment_data_chain_url() {
    let form = reqwest::blocking::multipart::Form::new();
    let c = connection();
    let chain = c
        .post(&serde_json::Value::Null)
        .content()
        .content_id("205618124")
        .child()
        .attachment(form)
        .attachment_id("205618156")
        .data();
    assert_eq!(
        chain.pending().current_url().unwrap(),
        "https://your.confluence.example.com/rest/api/content/205618124/child/attachment/205618156/data"
    );
}

#[test]
fn resolving_without_a_staged_value_is_an_error() {
    let client = Rc::new(reqwest::blocking::Client::new());
    let pending = PendingRequest::new(client, HttpMethod::Get, HOST);
    let resolved = pending.resolve_query("expand");
    assert_eq!(
        resolved.construction_error().unwrap(),
        ConstructionError::MissingParameter
    );
    assert_eq!(
        resolved.construction_error().unwrap().message(),
        "Expecting parameter"
    );
}

#[test]
fn staged_value_awaits_its_key() {
    let client = Rc::new(reqwest::blocking::Client::new());
    let pending = PendingRequest::new(client, HttpMethod::Get, HOST);
    let staged = pending.stage_value("page.version");
    assert_eq!(staged.staged_parameter().as_deref(), Some("page.version"));
    let resolved = staged.resolve_query("expand");
    assert!(resolved.staged_parameter().is_none());
    assert_eq!(
        resolved.current_url().unwrap(),
        "https://your.confluence.example.com/rest/api?expand=page.version"
    );
}

#[test]
fn with_client_shares_a_handle() {
    let client = Rc::new(reqwest::blocking::Client::new());
    let a = Confluence::with_client(Rc::clone(&client), HOST);
    let b = Confluence::with_client(client, "https://other.example.com/api");
    assert_eq!(a.get().pending().current_url().unwrap(), HOST);
    assert_eq!(
        b.get().pending().current_url().unwrap(),
        "https://other.example.com/api"
    );
}

#[test]
fn a_clone_keeps_the_host() {
    let c = connection();
    let d = c.clone();
    assert_eq!(d.get().pending().current_url().unwrap(), HOST);
}
