//! Client-side logic for talking to a chart registry: authentication
//! strategies, request assembly and the classification of responses.

pub mod auth;
pub mod builder;
pub mod client;
pub mod containers;
pub mod error;
pub mod headers;
pub mod http;
pub mod models;

pub use builder::APIClientBuilder;
pub use client::{APIClient, Dispatch, PreparedRequest};
pub use error::{ClientError, UnknownCause};
pub use headers::Headers;
pub use http::Method;
