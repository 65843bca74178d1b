//! The failures that a call to the registry can end in.

use crate::models::ApiError;
use vstd::prelude::*;

verus! {

#[verifier::external_type_specification]
#[verifier::external_body]
pub struct ExJsonError(serde_json::Error);

#[verifier::external_type_specification]
#[verifier::external_body]
pub struct ExYamlError(serde_yaml::Error);

#[verifier::external_type_specification]
#[verifier::external_body]
pub struct ExTransportError(reqwest::Error);

/// What lies behind a failure that fits no other kind.
#[derive(Debug)]
pub enum UnknownCause {
    /// A header name that no request can carry.
    InvalidHeaderName,
    /// A header value that no request can carry.
    InvalidHeaderValue,
    /// The answer arrived but its body could not be read to the end.
    Body(reqwest::Error),
}

/// Every way in which a call can fail.
#[derive(Debug)]
#[allow(inconsistent_fields)]
pub enum ClientError {
    /// A failure that fits no other kind.
    Unknown(UnknownCause),
    /// The payload is not the YAML document that was expected. The payload
    /// is kept, so that it can be read again in another way.
    YamlSerialization { error: serde_yaml::Error, payload: String },
    /// The payload is not the JSON document that was expected.
    JsonSerialization { error: serde_json::Error, payload: String },
    /// The transport could not carry out the request.
    Reqwest(reqwest::Error),
    /// The registry answered with errors of its own.
    APIServer { errors: Vec<ApiError> },
    /// A failure that is all in its message.
    String(String),
}

} // verus!
