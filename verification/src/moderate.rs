//! Moderation: an operator whose token verified suppresses one ad, named by
//! the body of the request.

use vstd::prelude::*;
use vstd::utf8::{decode_utf8, valid_utf8};

use crate::http::{Response, ResponseView, Status};
use crate::model::StorageError;
use crate::text::from_utf8;

verus! {

/// Why an ad was not suppressed.
#[derive(Clone, Debug, PartialEq, Eq)]
pub enum ModError {
    /// The body of the request could not be read.
    UnreadableBody,
    /// The body is no UTF-8 text.
    InvalidEncoding,
    /// The storage failed; this is what it said.
    Storage(StorageError),
}

impl ModError {
    /// The status that the error is answered with: whatever went wrong, the
    /// request was a bad one.
    pub open spec fn spec_status(&self) -> Status {
        Status::BadRequest
    }

    /// The status that the error is answered with.
    #[verifier::when_used_as_spec(spec_status)]
    pub fn status(&self) -> (status: Status)
        ensures
            status == self.spec_status(),
    {
        Status::BadRequest
    }
}

/// The identifier that a moderation request names: its whole body, read as
/// UTF-8 text, nothing trimmed.
pub open spec fn named_ad(body: Option<Seq<u8>>) -> Result<Seq<char>, ModError> {
    match body {
        None => Err(ModError::UnreadableBody),
        Some(bytes) => if valid_utf8(bytes) {
            Ok(decode_utf8(bytes))
        } else {
            Err(ModError::InvalidEncoding)
        },
    }
}

/// Reads the identifier of the ad to suppress from the body of a moderation
/// request. `None` stands for a body that could not be read.
pub fn mark_ad(body: Option<Vec<u8>>) -> (id: Result<String, ModError>)
    ensures
        match id {
            Ok(text) => named_ad(body.deep_view()) == Ok::<Seq<char>, ModError>(text@),
            Err(e) => named_ad(body.deep_view()) == Err::<Seq<char>, ModError>(e),
        },
{
    match body {
        None => Err(ModError::UnreadableBody),
        Some(bytes) => {
            assert(bytes.deep_view() =~= bytes@);
            match from_utf8(bytes) {
                Some(text) => Ok(text),
                None => Err(ModError::InvalidEncoding),
            }
        },
    }
}

/// What a moderation request is answered with: success and no body where the
/// ad was suppressed, a bad request otherwise.
pub open spec fn marked(outcome: Result<(), ModError>) -> ResponseView {
    match outcome {
        Ok(_) => ResponseView::bare(Status::Success),
        Err(e) => ResponseView::bare(e.spec_status()),
    }
}

/// Makes the response to a moderation request from what became of it.
pub fn mark_response(outcome: Result<(), ModError>) -> (response: Response)
    ensures
        response.deep_view() == marked(outcome),
{
    match outcome {
        Ok(_) => Response::bare(Status::Success),
        Err(e) => Response::bare(e.status()),
    }
}

} // verus!
