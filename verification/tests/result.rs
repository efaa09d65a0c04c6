use yubi::document::{Entry, Node};
use yubi::spec::result::{Classification, SpecResult};
use yubi::spec::spec_response::SpecResponse;

#[test]
fn test_status_success() {
    let spec_result = SpecResult::Success { description: format!("success_description") };
    assert_eq!(spec_result.code(), format!("success"));
}

#[test]
fn test_status_failure() {
    let spec_result = SpecResult::Failure { description: format!("failure_description") };
    assert_eq!(spec_result.code(), format!("failure"));
}

#[test]
fn test_status_error() {
    let spec_result = SpecResult::Error { description: format!("error_description") };
    assert_eq!(spec_result.code(), format!("error"));
}

#[test]
fn test_result_classification_and_description() {
    let spec_result = SpecResult::Failure { description: format!("c1 is Degraded") };
    assert_eq!(spec_result.classification(), Classification::Failure);
    assert_eq!(spec_result.description(), "c1 is Degraded");
    let spec_result = SpecResult::Success { description: format!("ok") };
    assert_eq!(spec_result.classification(), Classification::Success);
    let spec_result = SpecResult::Error { description: format!("no") };
    assert_eq!(spec_result.classification(), Classification::Error);
}

fn expected_document(code: &str, description: &str) -> Node {
    Node::Table(vec![
        Entry { key: format!("code"), value: Node::Text(code.to_string()) },
        Entry { key: format!("description"), value: Node::Text(description.to_string()) },
    ])
}

#[test]
fn test_serialize_success() {
    let spec_result = SpecResult::Success { description: format!("success_description") };
    assert_eq!(spec_result.serialize(), expected_document("success", "success_description"));
}

#[test]
fn test_serialize_failure() {
    let spec_result = SpecResult::Failure { description: format!("failure_description") };
    assert_eq!(spec_result.serialize(), expected_document("failure", "failure_description"));
}

#[test]
fn test_serialize_error() {
    let spec_result = SpecResult::Error { description: format!("error_description") };
    assert_eq!(spec_result.serialize(), expected_document("error", "error_description"));
}

#[test]
fn test_response_status() {
    let success = SpecResponse::Success { message: format!("success_message") };
    assert_eq!(success.status(), format!("success"));
    let failure = SpecResponse::Failure { message: format!("failure_message") };
    assert_eq!(failure.status(), format!("failure"));
}

#[test]
fn test_fmt() {
    let success = SpecResponse::Success { message: format!("success_message") };
    assert_eq!(
        success.to_string(),
        "    spec_response:\n      result: success\n      message: success_message"
    );
    let failure = SpecResponse::Failure { message: format!("failure_message") };
    assert_eq!(
        failure.to_string(),
        "    spec_response:\n      result: failure\n      message: failure_message"
    );
}
