use minigun::error::{ErrorClass, RequestError};
use minigun::request::get;
use minigun::verb::Verb;

#[test]
fn messages_lead_with_what_failed() {
    assert_eq!(
        RequestError::InvalidUrl(String::from("empty host")).message(),
        "failed to parse URL: empty host"
    );
    assert_eq!(
        RequestError::RequestFailed(String::from("dns error")).message(),
        "failed to send request: dns error"
    );
    assert_eq!(
        RequestError::BodyReadFailed(String::from("timed out")).message(),
        "failed to get response body: timed out"
    );
    assert_eq!(RequestError::InvalidBodyType.message(), "expected a string for body");
    assert_eq!(
        RequestError::InvalidHeaderEntry.message(),
        "expected a pair of strings for each header"
    );
}

#[test]
fn message_of_a_real_parse_failure() {
    let error = get("not a url", &None).unwrap_err();
    assert_eq!(error.message(), "failed to parse URL: relative URL without a base");
}

#[test]
fn wrong_types_are_type_errors() {
    assert_eq!(RequestError::InvalidBodyType.class(), ErrorClass::Type);
    assert_eq!(RequestError::InvalidHeaderEntry.class(), ErrorClass::Type);
    assert_eq!(RequestError::InvalidUrl(String::new()).class(), ErrorClass::Runtime);
    assert_eq!(RequestError::RequestFailed(String::new()).class(), ErrorClass::Runtime);
    assert_eq!(RequestError::BodyReadFailed(String::new()).class(), ErrorClass::Runtime);
}

#[test]
fn verb_names_are_upper_case_tokens() {
    assert_eq!(Verb::Get.name(), "GET");
    assert_eq!(Verb::Post.name(), "POST");
    assert_eq!(Verb::Put.name(), "PUT");
    assert_eq!(Verb::Delete.name(), "DELETE");
    assert_eq!(Verb::Patch.name(), "PATCH");
}
