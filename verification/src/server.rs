//! The service: what it does with a request, step by step.
//!
//! [`AdServer::call`] decides what a request asks for and returns an
//! [`Action`]. Where that is no response yet, the host does the work that
//! the action names and hands the outcome to the function that the action's
//! documentation names.

use vstd::prelude::*;
use vstd::string::StringExecFns;
use vstd::utf8::encode_utf8;

use crate::auth::{authenticate, Admin, AuthError};
use crate::http::{
    Body, BodyView, ContentType, Header, Request, RequestView, Response, ResponseView, Status,
};
use crate::ingest::IngestError;
use crate::listing::QueryError;
use crate::locale::{negotiate, negotiated};
use crate::query::{filters_of, form_pairs, Filters, FiltersView, Pairs};
use crate::route::{route, route_of, Route};

verus! {

/// What the host is to do for a request.
#[derive(Clone, Debug, PartialEq, Eq)]
pub enum Action {
    /// Send this response; the request is done with.
    Respond(Response),
    /// Read this file as text and send what [`AdServer::get_file`] makes of
    /// it.
    SendFile { file: String, content_type: ContentType },
    /// Issue the five reads of a listing in this locale under these filters,
    /// side by side; join them with `ApiResponse::join`, write the answer as
    /// JSON, and send what `listing_response` makes of it.
    Query { lang: String, filters: Filters },
    /// Read the body, take the submitted ads from it, and persist them in
    /// this locale as the module `ingest` directs.
    Ingest { lang: String },
    /// Read the body, suppress the ad that `mark_ad` reads from it, and send
    /// what `mark_response` makes of the outcome.
    Suppress,
    /// Subscribe to the storage's announcements at this address with this
    /// command, send `stream_response`, and feed a `Bridge`.
    Stream { database_url: String, command: String },
}

/// The mathematical value of an [`Action`].
pub enum ActionView {
    Respond(ResponseView),
    SendFile { file: Seq<char>, content_type: ContentType },
    Query { lang: Seq<char>, filters: FiltersView },
    Ingest { lang: Seq<char> },
    Suppress,
    Stream { database_url: Seq<char>, command: Seq<char> },
}

impl DeepView for Action {
    type V = ActionView;

    open spec fn deep_view(&self) -> ActionView {
        match self {
            Action::Respond(response) => ActionView::Respond(response.deep_view()),
            Action::SendFile { file, content_type } => ActionView::SendFile {
                file: file@,
                content_type: *content_type,
            },
            Action::Query { lang, filters } => ActionView::Query {
                lang: lang@,
                filters: filters.deep_view(),
            },
            Action::Ingest { lang } => ActionView::Ingest { lang: lang@ },
            Action::Suppress => ActionView::Suppress,
            Action::Stream { database_url, command } => ActionView::Stream {
                database_url: database_url@,
                command: command@,
            },
        }
    }
}

impl ActionView {
    /// Whether the action has the storage do anything.
    pub open spec fn touches_storage(self) -> bool {
        self is Query || self is Ingest || self is Suppress || self is Stream
    }
}

/// The command that subscribes to the storage's announcements of changed ads.
pub open spec fn listen_command() -> Seq<char> {
    "listen ad_update"@
}

/// The pairs of a query string; none where there is no query string.
pub open spec fn query_pairs(query: Option<Seq<char>>) -> Pairs {
    match query {
        Some(q) => form_pairs(encode_utf8(q)),
        None => Seq::empty(),
    }
}

/// The query that a listing request states: the negotiated locale and the
/// filters of the query string. Without a usable language preference there
/// is none.
pub open spec fn listing_query(req: RequestView) -> Result<(Seq<char>, FiltersView), QueryError> {
    match negotiated(req.languages) {
        Some(lang) => Ok((lang, filters_of(query_pairs(req.query)))),
        None => Err(QueryError::MissingLocale),
    }
}

/// What a listing request leads to: its query, or the status of the error
/// that it has none.
pub open spec fn listing_plan(req: RequestView) -> ActionView {
    match listing_query(req) {
        Ok((lang, filters)) => ActionView::Query { lang, filters },
        Err(e) => ActionView::Respond(ResponseView::bare(e.spec_status())),
    }
}

/// The locale that an ingestion request is ingested in. Without a usable
/// language preference there is none, whatever the body holds.
pub open spec fn ingestion_locale(req: RequestView) -> Result<Seq<char>, IngestError> {
    match negotiated(req.languages) {
        Some(lang) => Ok(lang),
        None => Err(IngestError::MissingLocale),
    }
}

/// What an ingestion request leads to: the ingestion in its locale, or the
/// status of the error that it has none.
pub open spec fn ingestion_plan(req: RequestView) -> ActionView {
    match ingestion_locale(req) {
        Ok(lang) => ActionView::Ingest { lang },
        Err(e) => ActionView::Respond(ResponseView::bare(e.spec_status())),
    }
}

/// What a request leads to, given whether its bearer passed the credential
/// gate. Only the protected routes ask.
pub open spec fn planned(database_url: Seq<char>, req: RequestView, passed: bool) -> ActionView {
    match route_of(req.method, req.path) {
        Route::Login => ActionView::Respond(
            ResponseView::bare(if passed { Status::Success } else { Status::Unauthorized }),
        ),
        Route::File(asset) => ActionView::SendFile {
            file: asset.spec_file(),
            content_type: asset.spec_content_type(),
        },
        Route::MarkAd => if passed {
            ActionView::Suppress
        } else {
            ActionView::Respond(ResponseView::bare(Status::Unauthorized))
        },
        Route::GetAds => listing_plan(req),
        Route::Stream => ActionView::Stream { database_url, command: listen_command() },
        Route::ProcessAds => ingestion_plan(req),
        Route::Heartbeat => ActionView::Respond(ResponseView::bare(Status::Success)),
        Route::NotFound => ActionView::Respond(ResponseView::bare(Status::NotFound)),
    }
}

/// The response that hands out a file: its text, whole, with its length in
/// bytes and its media type; not found where the file could not be read.
pub open spec fn file_reply(contents: Option<Seq<char>>, content_type: ContentType) -> ResponseView {
    match contents {
        Some(text) => ResponseView {
            status: Status::Success,
            headers: seq![
                Header::ContentLength(encode_utf8(text).len() as u64),
                Header::ContentType(content_type),
            ],
            body: BodyView::Text(text),
        },
        None => ResponseView::bare(Status::NotFound),
    }
}

/// The service, as far as its decisions need it: the secret that bearer
/// tokens are signed with, and where the storage announces changes.
#[derive(Clone, Debug)]
pub struct AdServer {
    password: String,
    database_url: String,
}

impl AdServer {
    /// The secret that bearer tokens are signed with.
    pub closed spec fn password(self) -> Seq<char> {
        self.password@
    }

    /// Where the storage announces changes.
    pub closed spec fn database_url(self) -> Seq<char> {
        self.database_url@
    }

    /// A service with this secret and this storage address.
    pub fn new(password: String, database_url: String) -> (server: AdServer)
        ensures
            server.password() == password@,
            server.database_url() == database_url@,
    {
        AdServer { password, database_url }
    }

    /// Holds the bearer token of a request against the secret. A request
    /// without a token does not pass.
    pub fn auth(&self, req: &Request) -> (gate: Result<Admin, AuthError>)
        ensures
            req.bearer is None ==> gate is Err,
            gate is Err ==> gate == Err::<Admin, AuthError>(AuthError::Unauthorized),
    {
        match &req.bearer {
            Some(token) => authenticate(Some(token.as_str()), self.password.as_str()),
            None => authenticate(None, self.password.as_str()),
        }
    }

    /// Makes the response that hands out a file, from its text or from
    /// `None` where it could not be read.
    pub fn get_file(contents: Option<String>, content_type: ContentType) -> (response: Response)
        ensures
            response.deep_view() == file_reply(contents.deep_view(), content_type),
    {
        match contents {
            Some(text) => {
                let length = text.as_str().as_bytes().len() as u64;
                let mut headers: Vec<Header> = Vec::new();
                headers.push(Header::ContentLength(length));
                headers.push(Header::ContentType(content_type));
                assert(headers@ =~= seq![
                    Header::ContentLength(length),
                    Header::ContentType(content_type),
                ]);
                Response { status: Status::Success, headers, body: Body::Text(text) }
            },
            None => Response::bare(Status::NotFound),
        }
    }

    /// Settles the locale of a request from the language preferences that it
    /// states.
    pub fn get_lang_from_headers(req: &Request) -> (lang: Option<String>)
        ensures
            lang.deep_view() == negotiated(req.deep_view().languages),
    {
        match &req.languages {
            Some(tags) => negotiate(Some(tags)),
            None => negotiate(None),
        }
    }

    /// Reads the query of a listing request: the locale and the filters. A
    /// request that states no usable language preference has none, and no
    /// read is issued for it.
    pub fn get_ads(&self, req: &Request) -> (query: Result<(String, Filters), QueryError>)
        ensures
            match query {
                Ok((lang, filters)) => listing_query(req.deep_view()) == Ok::<
                    (Seq<char>, FiltersView),
                    QueryError,
                >((lang@, filters.deep_view())),
                Err(e) => listing_query(req.deep_view()) == Err::<
                    (Seq<char>, FiltersView),
                    QueryError,
                >(e),
            },
    {
        match AdServer::get_lang_from_headers(req) {
            Some(lang) => {
                let filters = match &req.query {
                    Some(q) => Filters::from_query(Some(q.as_str())),
                    None => Filters::from_query(None),
                };
                Ok((lang, filters))
            },
            None => Err(QueryError::MissingLocale),
        }
    }

    /// Reads the locale that an ingestion request is ingested in. A request
    /// that states no usable language preference has none, and its body is
    /// not read.
    pub fn process_ads(&self, req: &Request) -> (lang: Result<String, IngestError>)
        ensures
            match lang {
                Ok(lang) => ingestion_locale(req.deep_view()) == Ok::<Seq<char>, IngestError>(
                    lang@,
                ),
                Err(e) => ingestion_locale(req.deep_view()) == Err::<Seq<char>, IngestError>(e),
            },
    {
        match AdServer::get_lang_from_headers(req) {
            Some(lang) => Ok(lang),
            None => Err(IngestError::MissingLocale),
        }
    }

    /// Plans a live stream: where to subscribe, and with which command.
    pub fn stream_ads(&self) -> (action: Action)
        ensures
            action.deep_view() == (ActionView::Stream {
                database_url: self.database_url(),
                command: listen_command(),
            }),
    {
        Action::Stream {
            database_url: self.database_url.clone(),
            command: String::from_str("listen ad_update"),
        }
    }

    /// Decides what a request leads to, once the credential gate has spoken.
    /// `gate` is heeded on the protected routes only.
    pub fn dispatch(&self, req: &Request, gate: &Result<Admin, AuthError>) -> (action: Action)
        ensures
            action.deep_view() == planned(self.database_url(), req.deep_view(), gate is Ok),
    {
        match route(req.method, req.path.as_str()) {
            Route::Login => match gate {
                Ok(_) => Action::Respond(Response::bare(Status::Success)),
                Err(e) => Action::Respond(Response::bare(e.status())),
            },
            Route::File(asset) => Action::SendFile {
                file: String::from_str(asset.file()),
                content_type: asset.content_type(),
            },
            Route::MarkAd => match gate {
                Ok(_) => Action::Suppress,
                Err(e) => Action::Respond(Response::bare(e.status())),
            },
            Route::GetAds => match self.get_ads(req) {
                Ok((lang, filters)) => Action::Query { lang, filters },
                Err(e) => Action::Respond(Response::bare(e.status())),
            },
            Route::Stream => self.stream_ads(),
            Route::ProcessAds => match self.process_ads(req) {
                Ok(lang) => Action::Ingest { lang },
                Err(e) => Action::Respond(Response::bare(e.status())),
            },
            Route::Heartbeat => Action::Respond(Response::bare(Status::Success)),
            Route::NotFound => Action::Respond(Response::bare(Status::NotFound)),
        }
    }

    /// Decides what a request leads to. On a protected route the bearer token
    /// is verified first, and a request without one is turned away; whether
    /// a token verifies is for the signature and the clock to say, so a
    /// request with a token leads to what [`planned`] gives for one of the two
    /// verdicts. Every other route is decided by the request alone.
    pub fn call(&self, req: &Request) -> (action: Action)
        ensures
            action.deep_view() == planned(self.database_url(), req.deep_view(), false)
                || action.deep_view() == planned(self.database_url(), req.deep_view(), true),
            req.bearer is None || !route_of(req.method, req.path@).spec_protected()
                ==> action.deep_view() == planned(self.database_url(), req.deep_view(), false),
    {
        if route(req.method, req.path.as_str()).protected() {
            let gate = self.auth(req);
            self.dispatch(req, &gate)
        } else {
            self.dispatch(req, &Err(AuthError::Unauthorized))
        }
    }
}

/// A request to the listing or to the ingestion route that states no usable
/// language preference is answered as a bad request, whoever sent it, and
/// the storage is not touched.
pub proof fn law_missing_locale_is_bad_request(
    database_url: Seq<char>,
    req: RequestView,
    passed: bool,
)
    requires
        route_of(req.method, req.path) == Route::GetAds || route_of(req.method, req.path)
            == Route::ProcessAds,
        negotiated(req.languages) is None,
    ensures
        planned(database_url, req, passed) == ActionView::Respond(
            ResponseView::bare(Status::BadRequest),
        ),
        !planned(database_url, req, passed).touches_storage(),
{
}

/// A request that did not pass the credential gate never has the storage
/// suppress an ad: on the moderation route it is answered as unauthorized.
pub proof fn law_moderation_needs_the_gate(database_url: Seq<char>, req: RequestView)
    ensures
        !(planned(database_url, req, false) is Suppress),
        route_of(req.method, req.path) == Route::MarkAd ==> planned(database_url, req, false)
            == ActionView::Respond(ResponseView::bare(Status::Unauthorized)),
{
}

/// Off the protected routes the verdict of the credential gate changes
/// nothing.
pub proof fn law_open_routes_ignore_the_gate(database_url: Seq<char>, req: RequestView)
    requires
        !route_of(req.method, req.path).spec_protected(),
    ensures
        planned(database_url, req, true) == planned(database_url, req, false),
{
}

} // verus!
