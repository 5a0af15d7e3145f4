//! A typed client for the dev.to (Forem) REST API.
//!
//! The crate models the article payloads of the API as plain data, decodes
//! and encodes them, builds the requests the endpoints need, and interprets
//! the responses. The HTTP transport itself is left to the caller.

pub mod json;
pub mod text;
pub mod articles;
pub mod config;
pub mod requests;
pub mod responses;

pub use json::{JScalar, JItem, JObj};
pub use articles::{Article, User};
pub use config::{Client, ClientExt, DevtoClientError, DEVTO_API_URL};
pub use requests::{ApiRequest, ArticlesQuery};
pub use responses::ApiError;
