//! The plain values that stand for an HTTP exchange: what the service reads
//! from a request and what it puts into a response.

use vstd::prelude::*;

use crate::locale::{LanguageTag, LanguageTagView};

verus! {

/// The request methods that the service tells apart.
#[derive(Clone, Copy, Debug, PartialEq, Eq)]
pub enum Method {
    Get,
    Post,
    /// Any other method; no route answers to it.
    Other,
}

/// The statuses that the service answers with.
#[derive(Clone, Copy, Debug, PartialEq, Eq)]
pub enum Status {
    /// 200
    Success,
    /// 400
    BadRequest,
    /// 401
    Unauthorized,
    /// 404
    NotFound,
    /// 500
    InternalServerError,
}

impl Status {
    /// The status code as a number.
    pub open spec fn spec_code(self) -> u16 {
        match self {
            Status::Success => 200,
            Status::BadRequest => 400,
            Status::Unauthorized => 401,
            Status::NotFound => 404,
            Status::InternalServerError => 500,
        }
    }

    /// The status code as a number.
    #[verifier::when_used_as_spec(spec_code)]
    pub fn code(self) -> (code: u16)
        ensures
            code == self.spec_code(),
    {
        match self {
            Status::Success => 200,
            Status::BadRequest => 400,
            Status::Unauthorized => 401,
            Status::NotFound => 404,
            Status::InternalServerError => 500,
        }
    }
}

/// The media types of the bodies that the service sends.
#[derive(Clone, Copy, Debug, PartialEq, Eq)]
pub enum ContentType {
    /// `text/html`
    Html,
    /// `text/javascript`
    Javascript,
    /// `application/json`
    Json,
    /// `text/css`
    Css,
    /// `text/event-stream`
    EventStream,
}

/// The response headers that the service sets.
#[derive(Clone, Copy, Debug, PartialEq, Eq)]
pub enum Header {
    /// `Content-Length`, in bytes.
    ContentLength(u64),
    /// `Content-Type`.
    ContentType(ContentType),
    /// `Vary: Accept-Language`: the response depends on the language
    /// preferences that the request stated.
    VaryAcceptLanguage,
    /// `Access-Control-Allow-Origin: *`: any origin may read the response.
    AllowAnyOrigin,
    /// `Cache-Control: public, max-age=` and the number of seconds.
    CachePublic(u32),
    /// `Connection: keep-alive`.
    KeepAlive,
}

/// The body of a response.
#[derive(Clone, Debug, PartialEq, Eq)]
pub enum Body {
    /// No body.
    Empty,
    /// This text, whole.
    Text(String),
    /// Frames, sent one by one for as long as the connection lasts.
    Stream,
}

/// The mathematical value of a [`Body`].
pub enum BodyView {
    Empty,
    Text(Seq<char>),
    Stream,
}

impl DeepView for Body {
    type V = BodyView;

    open spec fn deep_view(&self) -> BodyView {
        match self {
            Body::Empty => BodyView::Empty,
            Body::Text(text) => BodyView::Text(text@),
            Body::Stream => BodyView::Stream,
        }
    }
}

/// A response: its status, its headers in the order they were set, its body.
#[derive(Clone, Debug, PartialEq, Eq)]
pub struct Response {
    pub status: Status,
    pub headers: Vec<Header>,
    pub body: Body,
}

/// The mathematical value of a [`Response`].
pub struct ResponseView {
    pub status: Status,
    pub headers: Seq<Header>,
    pub body: BodyView,
}

impl DeepView for Response {
    type V = ResponseView;

    open spec fn deep_view(&self) -> ResponseView {
        ResponseView { status: self.status, headers: self.headers@, body: self.body.deep_view() }
    }
}

impl ResponseView {
    /// A response of this status with no header and no body.
    pub open spec fn bare(status: Status) -> ResponseView {
        ResponseView { status, headers: Seq::empty(), body: BodyView::Empty }
    }
}

impl Response {
    /// A response of this status with no header and no body.
    pub fn bare(status: Status) -> (response: Response)
        ensures
            response.deep_view() == ResponseView::bare(status),
    {
        Response { status, headers: Vec::new(), body: Body::Empty }
    }
}

/// What the service reads from a request before it decides anything.
#[derive(Clone, Debug, PartialEq, Eq)]
pub struct Request {
    pub method: Method,
    /// The path of the request target, without the query string.
    pub path: String,
    /// The query string, without the question mark, where there is one.
    pub query: Option<String>,
    /// The language preferences of the `Accept-Language` header, in the order
    /// stated, where the header is there.
    pub languages: Option<Vec<LanguageTag>>,
    /// The token of the `Authorization: Bearer` header, where the header is
    /// there.
    pub bearer: Option<String>,
}

/// The mathematical value of a [`Request`].
pub struct RequestView {
    pub method: Method,
    pub path: Seq<char>,
    pub query: Option<Seq<char>>,
    pub languages: Option<Seq<LanguageTagView>>,
    pub bearer: Option<Seq<char>>,
}

impl DeepView for Request {
    type V = RequestView;

    open spec fn deep_view(&self) -> RequestView {
        RequestView {
            method: self.method,
            path: self.path@,
            query: self.query.deep_view(),
            languages: self.languages.deep_view(),
            bearer: self.bearer.deep_view(),
        }
    }
}

} // verus!
