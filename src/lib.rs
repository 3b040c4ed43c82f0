//! Client library core for a blogging platform's HTTP API: request
//! construction, credential lifecycle and the dispatch protocol.

pub mod auth;
pub mod envelope;
pub mod requests;

pub use self::auth::TumblrClient;
