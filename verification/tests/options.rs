use minigun::error::RequestError;
use minigun::host::{HostValue, RawOptions};
use minigun::header::Header;
use minigun::options::{
    read_body_flag, read_body_text, read_headers, read_row, resolve, RequestOptions,
};

fn text(s: &str) -> HostValue {
    HostValue::Text(String::from(s))
}

#[test]
fn default_options_read_the_body() {
    let options = RequestOptions::default();
    assert!(options.headers.is_empty());
    assert_eq!(options.body, None);
    assert!(options.read_body);
}

#[test]
fn absent_options_equal_the_defaults() {
    assert_eq!(resolve(&None), Ok(RequestOptions::default()));
    let empty = Some(RawOptions { headers: None, body: None, read_body: None });
    assert_eq!(resolve(&empty), Ok(RequestOptions::default()));
}

#[test]
fn row_must_be_two_texts() {
    let good = HostValue::List(vec![text("Name"), text("value")]);
    assert_eq!(
        read_row(&good),
        Some(Header { name: String::from("Name"), value: String::from("value") })
    );
    assert_eq!(read_row(&HostValue::List(vec![text("only")])), None);
    assert_eq!(read_row(&HostValue::List(vec![text("a"), text("b"), text("c")])), None);
    assert_eq!(read_row(&HostValue::List(vec![text("a"), HostValue::Integer(1)])), None);
    assert_eq!(read_row(&HostValue::List(vec![HostValue::Nil, text("b")])), None);
    assert_eq!(read_row(&HostValue::List(vec![])), None);
    assert_eq!(read_row(&text("a: b")), None);
    assert_eq!(read_row(&HostValue::Mapping(vec![text("a"), text("b")])), None);
    assert_eq!(read_row(&HostValue::Other), None);
}

#[test]
fn headers_keep_their_order() {
    let rows = HostValue::Mapping(vec![
        HostValue::List(vec![text("b"), text("1")]),
        HostValue::List(vec![text("a"), text("2")]),
    ]);
    let headers = read_headers(&Some(rows)).unwrap();
    assert_eq!(headers.len(), 2);
    assert_eq!(headers[0].name, "b");
    assert_eq!(headers[0].value, "1");
    assert_eq!(headers[1].name, "a");
    assert_eq!(headers[1].value, "2");
}

#[test]
fn one_malformed_row_fails_all_headers() {
    let rows = HostValue::Mapping(vec![
        HostValue::List(vec![text("b"), text("1")]),
        HostValue::List(vec![text("a"), HostValue::Bool(true)]),
        HostValue::List(vec![text("c"), text("3")]),
    ]);
    assert_eq!(read_headers(&Some(rows)), Err(RequestError::InvalidHeaderEntry));
}

#[test]
fn headers_that_are_no_mapping_count_as_none() {
    assert_eq!(read_headers(&None), Ok(vec![]));
    assert_eq!(read_headers(&Some(HostValue::Nil)), Ok(vec![]));
    assert_eq!(read_headers(&Some(text("Accept: */*"))), Ok(vec![]));
    assert_eq!(read_headers(&Some(HostValue::List(vec![text("a")]))), Ok(vec![]));
    assert_eq!(read_headers(&Some(HostValue::Mapping(vec![]))), Ok(vec![]));
}

#[test]
fn body_must_be_text() {
    assert_eq!(read_body_text(&None), Ok(None));
    assert_eq!(read_body_text(&Some(text(""))), Ok(Some(String::new())));
    assert_eq!(read_body_text(&Some(text("{}"))), Ok(Some(String::from("{}"))));
    assert_eq!(read_body_text(&Some(HostValue::Integer(7))), Err(RequestError::InvalidBodyType));
    assert_eq!(
        read_body_text(&Some(HostValue::List(vec![text("x")]))),
        Err(RequestError::InvalidBodyType)
    );
    assert_eq!(read_body_text(&Some(HostValue::Other)), Err(RequestError::InvalidBodyType));
}

#[test]
fn read_body_follows_host_truth() {
    assert!(read_body_flag(&None));
    assert!(read_body_flag(&Some(HostValue::Bool(true))));
    assert!(!read_body_flag(&Some(HostValue::Bool(false))));
    assert!(!read_body_flag(&Some(HostValue::Nil)));
    assert!(read_body_flag(&Some(HostValue::Integer(0))));
    assert!(read_body_flag(&Some(text(""))));
    assert!(read_body_flag(&Some(HostValue::List(vec![]))));
    assert!(read_body_flag(&Some(HostValue::Other)));
}

#[test]
fn truth_of_host_values() {
    assert!(!HostValue::Nil.is_truthy());
    assert!(!HostValue::Bool(false).is_truthy());
    assert!(HostValue::Bool(true).is_truthy());
    assert!(HostValue::Integer(0).is_truthy());
    assert!(HostValue::Mapping(vec![]).is_truthy());
}

#[test]
fn resolve_reads_all_three_options() {
    let raw = Some(RawOptions {
        headers: Some(HostValue::Mapping(vec![HostValue::List(vec![text("k"), text("v")])])),
        body: Some(text("data")),
        read_body: Some(HostValue::Nil),
    });
    let options = resolve(&raw).unwrap();
    assert_eq!(options.headers, vec![Header { name: String::from("k"), value: String::from("v") }]);
    assert_eq!(options.body, Some(String::from("data")));
    assert!(!options.read_body);
}
