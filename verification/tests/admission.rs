//! Complete requests and their fingerprints.

use aiop::contract::control::{OperationIntent, OperationStart, OperatorError, ReviewProfile};
use aiop::contract::identity::{ProjectId, RequestId};
use aiop::control::admission::{ensure_fingerprint, fingerprint, to_hexadecimal, validate_start};

#[test]
fn a_fingerprint_is_the_hexadecimal_digest_of_the_request() {
    assert_eq!(
        fingerprint(b""),
        "e3b0c44298fc1c149afbf4c8996fb92427ae41e4649b934ca495991b7852b855"
    );
    assert_eq!(
        fingerprint(b"abc"),
        "ba7816bf8f01cfea414140de5dae2223b00361a396177a9cb410ff61f20015ad"
    );
    assert_ne!(fingerprint(b"request"), fingerprint(b"Request"));
}

#[test]
fn bytes_are_written_as_two_digits() {
    assert_eq!(to_hexadecimal(&vec![0, 9, 10, 15, 16, 255]), "00090a0f10ff");
    assert_eq!(to_hexadecimal(&Vec::new()), "");
}

#[test]
fn a_start_without_a_prompt_is_refused() {
    let mut start = OperationStart {
        request_id: RequestId::new(1),
        project_id: ProjectId::new("project".to_owned()).expect("named"),
        intent: OperationIntent::New,
        prompt: "prompt".to_owned(),
        review_profile: ReviewProfile::OpusReadOnly,
    };
    assert_eq!(validate_start(&start), Ok(()));
    start.prompt = String::new();
    assert_eq!(
        validate_start(&start),
        Err(OperatorError::InvalidRequest("prompt must not be empty".to_owned()))
    );
}

#[test]
fn a_conversation_request_keeps_its_fingerprint() {
    assert_eq!(ensure_fingerprint("same", "same"), Ok(()));
    assert_eq!(
        ensure_fingerprint("changed", "same"),
        Err(OperatorError::Conflict(
            "request UUID was reused with different conversation content".to_owned()
        ))
    );
}
