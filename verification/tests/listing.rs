use ad_server::http::{Body, ContentType, Header, Response, Status};
use ad_server::listing::{listing_response, ApiResponse, QueryError};
use ad_server::model::{Ad, Advertiser, Entity, MediaStatus, StorageError, Target};

fn ad(id: &str) -> Ad {
    Ad {
        id: id.to_string(),
        html: "<div>ad</div>".to_string(),
        political: Some(true),
        targeting: None,
        locale: "en-US".to_string(),
        suppressed: false,
        media_status: MediaStatus::Stored,
    }
}

fn failure(what: &str) -> StorageError {
    StorageError { description: what.to_string() }
}

fn target() -> Target {
    Target { id: "Age".to_string(), attributes: vec![("count".to_string(), "3".to_string())] }
}

fn entity() -> Entity {
    Entity { id: "Congress".to_string(), attributes: Vec::new() }
}

fn advertiser() -> Advertiser {
    Advertiser { id: "ACME".to_string(), attributes: Vec::new() }
}

#[test]
fn five_successful_reads_are_joined_into_one_answer() {
    let answer = ApiResponse::join(
        Ok(vec![ad("1"), ad("2")]),
        Ok(vec![target()]),
        Ok(vec![entity()]),
        Ok(vec![advertiser()]),
        Ok(17),
    );
    assert_eq!(
        answer,
        Ok(ApiResponse {
            ads: vec![ad("1"), ad("2")],
            targets: vec![target()],
            entities: vec![entity()],
            advertisers: vec![advertiser()],
            total: 17,
        })
    );
}

#[test]
fn any_single_failed_read_leaves_no_answer() {
    let ok_ads = || Ok(vec![ad("1")]);
    let ok_targets = || Ok(vec![target()]);
    let ok_entities = || Ok(vec![entity()]);
    let ok_advertisers = || Ok(vec![advertiser()]);
    let a = ApiResponse::join(Err(failure("ads")), ok_targets(), ok_entities(), ok_advertisers(), Ok(1));
    assert_eq!(a, Err(QueryError::Backend(failure("ads"))));
    let b = ApiResponse::join(ok_ads(), Err(failure("targets")), ok_entities(), ok_advertisers(), Ok(1));
    assert_eq!(b, Err(QueryError::Backend(failure("targets"))));
    let c = ApiResponse::join(ok_ads(), ok_targets(), Err(failure("entities")), ok_advertisers(), Ok(1));
    assert_eq!(c, Err(QueryError::Backend(failure("entities"))));
    let d = ApiResponse::join(ok_ads(), ok_targets(), ok_entities(), Err(failure("advertisers")), Ok(1));
    assert_eq!(d, Err(QueryError::Backend(failure("advertisers"))));
    let e = ApiResponse::join(ok_ads(), ok_targets(), ok_entities(), ok_advertisers(), Err(failure("total")));
    assert_eq!(e, Err(QueryError::Backend(failure("total"))));
}

#[test]
fn of_several_failures_the_first_in_order_is_reported() {
    let answer = ApiResponse::join(
        Ok(vec![ad("1")]),
        Err(failure("targets")),
        Ok(vec![entity()]),
        Err(failure("advertisers")),
        Err(failure("total")),
    );
    assert_eq!(answer, Err(QueryError::Backend(failure("targets"))));
}

#[test]
fn failed_read_is_answered_with_500_and_no_body() {
    let answer =
        ApiResponse::join(Ok(vec![ad("1")]), Ok(Vec::new()), Ok(Vec::new()), Ok(Vec::new()), Err(failure("down")));
    let response = listing_response(answer.map(|_| String::from("unused")));
    assert_eq!(response, Response::bare(Status::InternalServerError));
    assert_eq!(response.status.code(), 500);
    assert_eq!(response.body, Body::Empty);
    assert!(response.headers.is_empty());
}

#[test]
fn answer_goes_out_as_json_with_its_headers() {
    let json = "{\"ads\":[],\"total\":0}".to_string();
    let response = listing_response(Ok(json.clone()));
    assert_eq!(response.status, Status::Success);
    assert_eq!(response.status.code(), 200);
    assert_eq!(
        response.headers,
        vec![
            Header::ContentLength(20),
            Header::VaryAcceptLanguage,
            Header::ContentType(ContentType::Json),
            Header::AllowAnyOrigin,
        ]
    );
    assert_eq!(response.body, Body::Text(json));
}

#[test]
fn content_length_counts_bytes_not_characters() {
    let response = listing_response(Ok("\u{e9}\u{20ac}".to_string()));
    assert_eq!(response.headers[0], Header::ContentLength(5));
}

#[test]
fn each_query_error_has_its_status() {
    assert_eq!(QueryError::MissingLocale.status(), Status::BadRequest);
    assert_eq!(QueryError::Backend(failure("x")).status(), Status::InternalServerError);
    assert_eq!(QueryError::Encoding.status(), Status::InternalServerError);
    assert_eq!(listing_response(Err(QueryError::MissingLocale)), Response::bare(Status::BadRequest));
    assert_eq!(
        listing_response(Err(QueryError::Encoding)),
        Response::bare(Status::InternalServerError)
    );
}

#[test]
fn status_codes_are_the_usual_numbers() {
    assert_eq!(Status::Success.code(), 200);
    assert_eq!(Status::BadRequest.code(), 400);
    assert_eq!(Status::Unauthorized.code(), 401);
    assert_eq!(Status::NotFound.code(), 404);
    assert_eq!(Status::InternalServerError.code(), 500);
}
