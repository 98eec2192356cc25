use ad_server::http::{Response, Status};
use ad_server::model::StorageError;
use ad_server::moderate::{mark_ad, mark_response, ModError};

#[test]
fn body_is_the_identifier_verbatim() {
    assert_eq!(mark_ad(Some(b"42".to_vec())), Ok("42".to_string()));
    assert_eq!(mark_ad(Some(b" 42\n".to_vec())), Ok(" 42\n".to_string()));
    assert_eq!(mark_ad(Some(Vec::new())), Ok(String::new()));
}

#[test]
fn unreadable_body_names_no_ad() {
    assert_eq!(mark_ad(None), Err(ModError::UnreadableBody));
}

#[test]
fn body_that_is_no_utf8_names_no_ad() {
    assert_eq!(mark_ad(Some(vec![0x34, 0x80])), Err(ModError::InvalidEncoding));
}

#[test]
fn suppressed_ad_is_answered_with_200_and_no_body() {
    let response = mark_response(Ok(()));
    assert_eq!(response, Response::bare(Status::Success));
    assert_eq!(response.status.code(), 200);
}

#[test]
fn every_moderation_error_is_a_bad_request() {
    for error in [
        ModError::UnreadableBody,
        ModError::InvalidEncoding,
        ModError::Storage(StorageError { description: "no such ad".to_string() }),
    ] {
        assert_eq!(error.status().code(), 400);
        assert_eq!(mark_response(Err(error)), Response::bare(Status::BadRequest));
    }
}
