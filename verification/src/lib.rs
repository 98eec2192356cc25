//! Request orchestration for an ad-transparency catalog, kept free of I/O.
//!
//! Every decision the service takes (which route a request belongs to, which
//! locale it is answered in, which filters a listing honours, when a fan-out
//! of reads counts as answered, how a submitted batch is persisted, what a live
//! stream sends) is a function here from plain values to plain values, with a
//! contract that Verus proves. The host program performs the socket, storage
//! and timer work between two such calls.

pub mod auth;
pub mod http;
pub mod ingest;
pub mod listing;
pub mod locale;
pub mod model;
pub mod moderate;
pub mod query;
pub mod route;
pub mod server;
pub mod stream;
pub mod text;

pub use crate::auth::Admin;
pub use crate::listing::ApiResponse;
pub use crate::model::AdPost;
pub use crate::server::AdServer;
