use ad_server::http::{Response, Status};
use ad_server::ingest::{begin, body_text, settle, step, IngestError, Ingestion};
use ad_server::model::{Ad, AdPost, MediaStatus, StorageError};

fn post(id: &str) -> AdPost {
    AdPost {
        id: id.to_string(),
        html: format!("<div>{}</div>", id),
        political: Some(false),
        targeting: Some("{}".to_string()),
    }
}

fn refusal(what: &str) -> StorageError {
    StorageError { description: what.to_string() }
}

/// Runs an ingestion against a storage that refuses the ads whose id is in
/// `refused`, and returns what it was handed and how the ingestion ended.
fn ingest(lang: &str, posts: Vec<AdPost>, refused: &[&str]) -> (Vec<Ad>, Result<Vec<Ad>, IngestError>) {
    let mut handed = Vec::new();
    let mut state = begin(lang.to_string(), posts);
    loop {
        match state {
            Ingestion::Done(result) => return (handed, result),
            Ingestion::Pending(batch) => {
                let draft = batch.draft();
                assert_eq!(draft.id, batch.current().id);
                handed.push(draft.clone());
                let outcome = if refused.contains(&draft.id.as_str()) {
                    Err(refusal(&draft.id))
                } else {
                    Ok(Ad { media_status: MediaStatus::Pending, ..draft })
                };
                state = step(batch, outcome);
            }
        }
    }
}

#[test]
fn body_must_be_readable_utf8() {
    assert_eq!(body_text(None), Err(IngestError::UnreadableBody));
    assert_eq!(body_text(Some(vec![0xff, 0xfe])), Err(IngestError::InvalidEncoding));
    assert_eq!(body_text(Some(vec![0xc3])), Err(IngestError::InvalidEncoding));
    assert_eq!(body_text(Some(Vec::new())), Ok(String::new()));
    assert_eq!(body_text(Some(vec![0x5b, 0x5d])), Ok("[]".to_string()));
    assert_eq!(body_text(Some(vec![0xc3, 0xa9])), Ok("\u{e9}".to_string()));
}

#[test]
fn draft_is_the_submitted_ad_in_the_locale() {
    let state = begin("de-AT".to_string(), vec![post("7")]);
    match state {
        Ingestion::Pending(batch) => {
            assert_eq!(batch.current(), &post("7"));
            assert_eq!(
                batch.draft(),
                Ad {
                    id: "7".to_string(),
                    html: "<div>7</div>".to_string(),
                    political: Some(false),
                    targeting: Some("{}".to_string()),
                    locale: "de-AT".to_string(),
                    suppressed: false,
                    media_status: MediaStatus::Pending,
                }
            );
        }
        Ingestion::Done(_) => panic!("one ad was submitted"),
    }
}

#[test]
fn empty_batch_is_over_at_once() {
    let (handed, result) = ingest("en-US", Vec::new(), &[]);
    assert!(handed.is_empty());
    assert_eq!(result, Ok(Vec::new()));
}

#[test]
fn whole_batch_is_persisted_in_order() {
    let (handed, result) = ingest("en-US", vec![post("A"), post("B"), post("C")], &[]);
    let ids: Vec<&str> = handed.iter().map(|ad| ad.id.as_str()).collect();
    assert_eq!(ids, vec!["A", "B", "C"]);
    let ads = result.unwrap();
    let saved: Vec<&str> = ads.iter().map(|ad| ad.id.as_str()).collect();
    assert_eq!(saved, vec!["A", "B", "C"]);
    assert!(ads.iter().all(|ad| ad.locale == "en-US" && !ad.suppressed));
}

#[test]
fn failure_of_second_ad_keeps_first_and_skips_third() {
    let (handed, result) = ingest("en-US", vec![post("A"), post("B"), post("C")], &["B"]);
    let ids: Vec<&str> = handed.iter().map(|ad| ad.id.as_str()).collect();
    assert_eq!(ids, vec!["A", "B"]);
    assert_eq!(result, Err(IngestError::Storage(refusal("B"))));
    let (response, enrich) = settle(result);
    assert_eq!(response, Response::bare(Status::BadRequest));
    assert!(enrich.is_empty());
}

#[test]
fn failure_of_first_ad_hands_over_nothing_more() {
    let (handed, result) = ingest("en", vec![post("A"), post("B")], &["A", "B"]);
    assert_eq!(handed.len(), 1);
    assert_eq!(result, Err(IngestError::Storage(refusal("A"))));
}

#[test]
fn failure_of_last_ad_fails_the_batch() {
    let (handed, result) = ingest("en", vec![post("A"), post("B")], &["B"]);
    assert_eq!(handed.len(), 2);
    assert_eq!(result, Err(IngestError::Storage(refusal("B"))));
}

#[test]
fn returned_ads_are_those_the_storage_returned() {
    let state = begin("en".to_string(), vec![post("A")]);
    let batch = match state {
        Ingestion::Pending(batch) => batch,
        Ingestion::Done(_) => panic!("one ad was submitted"),
    };
    let stored = Ad { html: "<p>as stored</p>".to_string(), ..batch.draft() };
    match step(batch, Ok(stored.clone())) {
        Ingestion::Done(result) => assert_eq!(result, Ok(vec![stored])),
        Ingestion::Pending(_) => panic!("the only ad was persisted"),
    }
}

#[test]
fn persisted_batch_is_answered_with_200_and_every_ad_is_enriched() {
    let (_, result) = ingest("en-US", vec![post("A"), post("B")], &[]);
    let ads = result.clone().unwrap();
    let (response, enrich) = settle(result);
    assert_eq!(response, Response::bare(Status::Success));
    assert_eq!(enrich, ads);
}

#[test]
fn every_ingest_error_is_a_bad_request_without_enrichment() {
    for error in [
        IngestError::MissingLocale,
        IngestError::UnreadableBody,
        IngestError::InvalidEncoding,
        IngestError::InvalidSyntax,
        IngestError::Storage(refusal("full")),
    ] {
        let (response, enrich) = settle(Err(error));
        assert_eq!(response.status.code(), 400);
        assert_eq!(response, Response::bare(Status::BadRequest));
        assert!(enrich.is_empty());
    }
}
