use minigun::header::{collapse, put_header, Header};
use minigun::error::RequestError;
use minigun::request::{get, Request};
use minigun::response::{after_body, after_send, BodyOutcome, Response, ResponseHead, SendOutcome, Step};
use minigun::verb::Verb;

fn header(name: &str, value: &str) -> Header {
    Header { name: String::from(name), value: String::from(value) }
}

fn request(read_body: bool) -> Request {
    Request {
        verb: Verb::Get,
        url: String::from("http://example.com/"),
        headers: vec![],
        body: None,
        read_body,
    }
}

#[test]
fn collapse_keeps_the_last_value_of_a_name() {
    let raw = vec![
        header("set-cookie", "a=1"),
        header("content-type", "text/html"),
        header("set-cookie", "b=2"),
        header("set-cookie", "c=3"),
    ];
    assert_eq!(
        collapse(&raw),
        vec![header("set-cookie", "c=3"), header("content-type", "text/html")]
    );
}

#[test]
fn collapse_keeps_every_name() {
    let raw = vec![header("a", "1"), header("b", "2"), header("c", "3")];
    assert_eq!(collapse(&raw), raw);
    assert_eq!(collapse(&Vec::new()), Vec::<Header>::new());
}

#[test]
fn collapse_tells_names_apart_by_case() {
    let raw = vec![header("a", "1"), header("A", "2")];
    assert_eq!(collapse(&raw), raw);
}

#[test]
fn put_header_replaces_or_appends() {
    let mut out = vec![header("a", "1"), header("b", "2")];
    put_header(&mut out, &String::from("a"), &String::from("9"));
    assert_eq!(out, vec![header("a", "9"), header("b", "2")]);
    put_header(&mut out, &String::from("c"), &String::from("3"));
    assert_eq!(out, vec![header("a", "9"), header("b", "2"), header("c", "3")]);
}

#[test]
fn answered_call_returns_status_and_body() {
    let head = ResponseHead { status_code: 200, headers: vec![header("content-length", "5")] };
    let step = after_send(&request(true), SendOutcome::Answered(head));
    let partial = match step {
        Step::ReadBody(partial) => partial,
        Step::Done(_) => panic!("the body was asked for"),
    };
    assert_eq!(partial.status_code, 200);
    assert_eq!(partial.body, None);
    let response = after_body(partial, BodyOutcome::Read(b"hello".to_vec())).unwrap();
    assert_eq!(
        response,
        Response {
            status_code: 200,
            headers: vec![header("content-length", "5")],
            body: Some(b"hello".to_vec()),
        }
    );
}

#[test]
fn empty_body_is_present_when_read() {
    let head = ResponseHead { status_code: 204, headers: vec![] };
    let partial = match after_send(&request(true), SendOutcome::Answered(head)) {
        Step::ReadBody(partial) => partial,
        Step::Done(_) => panic!("the body was asked for"),
    };
    let response = after_body(partial, BodyOutcome::Read(vec![])).unwrap();
    assert_eq!(response.status_code, 204);
    assert_eq!(response.body, Some(vec![]));
}

#[test]
fn unread_body_is_absent() {
    let head = ResponseHead {
        status_code: 404,
        headers: vec![header("x", "1"), header("x", "2")],
    };
    let step = after_send(&request(false), SendOutcome::Answered(head));
    assert_eq!(
        step,
        Step::Done(Ok(Response { status_code: 404, headers: vec![header("x", "2")], body: None }))
    );
}

#[test]
fn transport_failure_is_request_failed() {
    let outcome = SendOutcome::Failed(String::from("connection refused"));
    assert_eq!(
        after_send(&request(true), outcome.clone()),
        Step::Done(Err(RequestError::RequestFailed(String::from("connection refused"))))
    );
    assert_eq!(
        after_send(&request(false), outcome),
        Step::Done(Err(RequestError::RequestFailed(String::from("connection refused"))))
    );
}

#[test]
fn body_failure_is_body_read_failed() {
    let partial = Response { status_code: 200, headers: vec![header("a", "b")], body: None };
    assert_eq!(
        after_body(partial, BodyOutcome::Failed(String::from("unexpected end of file"))),
        Err(RequestError::BodyReadFailed(String::from("unexpected end of file")))
    );
}

#[test]
fn same_get_twice_gives_the_same_result() {
    let run = || {
        let request = get("http://example.com/static", &None).unwrap();
        let head = ResponseHead { status_code: 200, headers: vec![header("etag", "\"1\"")] };
        match after_send(&request, SendOutcome::Answered(head)) {
            Step::ReadBody(partial) => after_body(partial, BodyOutcome::Read(vec![1, 2, 3])),
            Step::Done(result) => result,
        }
    };
    let first = run().unwrap();
    let second = run().unwrap();
    assert_eq!(first.status_code, second.status_code);
    assert_eq!(first.body, second.body);
    assert_eq!(first.body, Some(vec![1, 2, 3]));
}
