use confluence::request::finish_response;
use confluence::util::append_query;
use confluence::util::has_query;
use confluence::util::url_join;

#[test]
fn url_join_inserts_a_separator() {
    assert_eq!(
        url_join("https://your.confluence.example.com/rest/api", "content"),
        "https://your.confluence.example.com/rest/api/content"
    );
}

#[test]
fn url_join_keeps_a_single_slash() {
    assert_eq!(
        url_join("https://your.confluence.example.com/rest/api/", "content"),
        "https://your.confluence.example.com/rest/api/content"
    );
}

#[test]
fn url_join_on_an_empty_base() {
    assert_eq!(url_join("", "content"), "/content");
}

#[test]
fn has_query_finds_the_marker() {
    assert!(!has_query("https://h.example.com/rest"));
    assert!(has_query("https://h.example.com/rest?expand=version"));
}

#[test]
fn append_query_opens_then_extends() {
    let first = append_query("https://h.example.com/content", "spaceKey", "ICF");
    assert_eq!(first, "https://h.example.com/content?spaceKey=ICF");
    let second = append_query(&first, "title", "My+Fancy+Page+Title");
    assert_eq!(
        second,
        "https://h.example.com/content?spaceKey=ICF&title=My+Fancy+Page+Title"
    );
}

#[test]
fn a_json_body_decodes() {
    let headers = vec![("content-type".to_string(), "application/json".to_string())];
    let body = b"{\"size\": 3}".to_vec();
    let (h, status, value) = finish_response(headers.clone(), 200, Ok(body)).unwrap();
    assert_eq!(h, headers);
    assert_eq!(status, 200);
    let value = value.unwrap();
    assert_eq!(value.get("size").unwrap().as_u64(), Some(3));
}

#[test]
fn a_non_json_body_is_not_an_error() {
    let headers = vec![("content-type".to_string(), "text/html".to_string())];
    let body = b"<html>not json</html>".to_vec();
    let (h, status, value) = finish_response(headers.clone(), 200, Ok(body)).unwrap();
    assert_eq!(h, headers);
    assert_eq!(status, 200);
    assert!(value.is_none());
}

#[test]
fn a_non_json_body_is_not_an_error_for_other_statuses() {
    let (_, status, value) = finish_response(Vec::new(), 503, Ok(b"overloaded".to_vec())).unwrap();
    assert_eq!(status, 503);
    assert!(value.is_none());
}

#[test]
fn an_unreadable_body_is_not_an_error() {
    let (h, status, value) =
        finish_response(Vec::new(), 200, Err("connection reset".to_string())).unwrap();
    assert!(h.is_empty());
    assert_eq!(status, 200);
    assert!(value.is_none());
}
