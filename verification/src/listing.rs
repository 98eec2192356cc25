//! The listing query: five reads that are issued together and joined into
//! one answer, or into none.

use vstd::prelude::*;
use vstd::utf8::encode_utf8;

use crate::http::{Body, BodyView, ContentType, Header, Response, ResponseView, Status};
use crate::model::{Ad, Advertiser, Entity, StorageError, Target};

verus! {

/// Why a listing query has no answer.
#[derive(Clone, Debug, PartialEq, Eq)]
pub enum QueryError {
    /// The request stated no usable language preference.
    MissingLocale,
    /// A read failed; this is what the storage said of it.
    Backend(StorageError),
    /// The answer could not be written as JSON.
    Encoding,
}

impl QueryError {
    /// The status that the error is answered with.
    pub open spec fn spec_status(&self) -> Status {
        match self {
            QueryError::MissingLocale => Status::BadRequest,
            QueryError::Backend(_) => Status::InternalServerError,
            QueryError::Encoding => Status::InternalServerError,
        }
    }

    /// The status that the error is answered with.
    #[verifier::when_used_as_spec(spec_status)]
    pub fn status(&self) -> (status: Status)
        ensures
            status == self.spec_status(),
    {
        match self {
            QueryError::MissingLocale => Status::BadRequest,
            QueryError::Backend(_) => Status::InternalServerError,
            QueryError::Encoding => Status::InternalServerError,
        }
    }
}

/// The answer to a listing query.
#[derive(Clone, Debug, PartialEq, Eq)]
pub struct ApiResponse {
    pub ads: Vec<Ad>,
    pub targets: Vec<Target>,
    pub entities: Vec<Entity>,
    pub advertisers: Vec<Advertiser>,
    pub total: i64,
}

/// The five reads joined: the answer made of what they returned where all
/// five succeeded; else the failure of the first that failed, in the order
/// ads, targets, entities, advertisers, total.
pub open spec fn joined(
    ads: Result<Vec<Ad>, StorageError>,
    targets: Result<Vec<Target>, StorageError>,
    entities: Result<Vec<Entity>, StorageError>,
    advertisers: Result<Vec<Advertiser>, StorageError>,
    total: Result<i64, StorageError>,
) -> Result<ApiResponse, QueryError> {
    match (ads, targets, entities, advertisers, total) {
        (Ok(ads), Ok(targets), Ok(entities), Ok(advertisers), Ok(total)) => Ok(
            ApiResponse { ads, targets, entities, advertisers, total },
        ),
        (Err(e), _, _, _, _) => Err(QueryError::Backend(e)),
        (_, Err(e), _, _, _) => Err(QueryError::Backend(e)),
        (_, _, Err(e), _, _) => Err(QueryError::Backend(e)),
        (_, _, _, Err(e), _) => Err(QueryError::Backend(e)),
        (_, _, _, _, Err(e)) => Err(QueryError::Backend(e)),
    }
}

/// The response to a listing query, given its answer as JSON text or the
/// reason why there is none. An answer goes out whole, with its length, as
/// JSON that depends on the stated languages and that any origin may read. A
/// failure goes out as its status alone.
pub open spec fn listing_reply(outcome: Result<Seq<char>, QueryError>) -> ResponseView {
    match outcome {
        Ok(json) => ResponseView {
            status: Status::Success,
            headers: seq![
                Header::ContentLength(encode_utf8(json).len() as u64),
                Header::VaryAcceptLanguage,
                Header::ContentType(ContentType::Json),
                Header::AllowAnyOrigin,
            ],
            body: BodyView::Text(json),
        },
        Err(e) => ResponseView::bare(e.spec_status()),
    }
}

impl ApiResponse {
    /// Joins the outcomes of the five reads of one listing query. There is an
    /// answer only where all five succeeded.
    pub fn join(
        ads: Result<Vec<Ad>, StorageError>,
        targets: Result<Vec<Target>, StorageError>,
        entities: Result<Vec<Entity>, StorageError>,
        advertisers: Result<Vec<Advertiser>, StorageError>,
        total: Result<i64, StorageError>,
    ) -> (answer: Result<ApiResponse, QueryError>)
        ensures
            answer == joined(ads, targets, entities, advertisers, total),
    {
        let ads = match ads {
            Ok(ads) => ads,
            Err(e) => {
                return Err(QueryError::Backend(e));
            },
        };
        let targets = match targets {
            Ok(targets) => targets,
            Err(e) => {
                return Err(QueryError::Backend(e));
            },
        };
        let entities = match entities {
            Ok(entities) => entities,
            Err(e) => {
                return Err(QueryError::Backend(e));
            },
        };
        let advertisers = match advertisers {
            Ok(advertisers) => advertisers,
            Err(e) => {
                return Err(QueryError::Backend(e));
            },
        };
        let total = match total {
            Ok(total) => total,
            Err(e) => {
                return Err(QueryError::Backend(e));
            },
        };
        Ok(ApiResponse { ads, targets, entities, advertisers, total })
    }
}

/// Makes the response to a listing query from its answer as JSON text, or
/// from the reason why there is none.
pub fn listing_response(outcome: Result<String, QueryError>) -> (response: Response)
    ensures
        response.deep_view() == listing_reply(
            match outcome {
                Ok(json) => Ok(json@),
                Err(e) => Err(e),
            },
        ),
{
    match outcome {
        Ok(json) => {
            let length = json.as_str().as_bytes().len() as u64;
            let mut headers: Vec<Header> = Vec::new();
            headers.push(Header::ContentLength(length));
            headers.push(Header::VaryAcceptLanguage);
            headers.push(Header::ContentType(ContentType::Json));
            headers.push(Header::AllowAnyOrigin);
            assert(headers@ =~= seq![
                Header::ContentLength(length),
                Header::VaryAcceptLanguage,
                Header::ContentType(ContentType::Json),
                Header::AllowAnyOrigin,
            ]);
            Response { status: Status::Success, headers, body: Body::Text(json) }
        },
        Err(e) => Response::bare(e.status()),
    }
}


/// A listing query is answered whole or not at all: where any of the five
/// reads failed, there is no answer, and the response is the status of an
/// internal error with no header and no body.
pub proof fn law_failed_read_leaves_no_answer(
    ads: Result<Vec<Ad>, StorageError>,
    targets: Result<Vec<Target>, StorageError>,
    entities: Result<Vec<Entity>, StorageError>,
    advertisers: Result<Vec<Advertiser>, StorageError>,
    total: Result<i64, StorageError>,
)
    requires
        ads is Err || targets is Err || entities is Err || advertisers is Err || total is Err,
    ensures
        joined(ads, targets, entities, advertisers, total) is Err,
        listing_reply(Err(joined(ads, targets, entities, advertisers, total)->Err_0))
            == ResponseView::bare(Status::InternalServerError),
{
}

/// Where all five reads succeeded, the answer holds what each of them
/// returned, and nothing else.
pub proof fn law_answer_holds_all_reads(
    ads: Vec<Ad>,
    targets: Vec<Target>,
    entities: Vec<Entity>,
    advertisers: Vec<Advertiser>,
    total: i64,
)
    ensures
        joined(Ok(ads), Ok(targets), Ok(entities), Ok(advertisers), Ok(total)) == Ok::<
            ApiResponse,
            QueryError,
        >(ApiResponse { ads, targets, entities, advertisers, total }),
{
}

} // verus!
