//! Answers of the registry's general endpoints.

use super::DistributionType;
use std::collections::HashMap;
use vstd::prelude::*;

verus! {

/// What `GET /info` answers.
#[derive(Debug, Clone, Default)]
pub struct InfoResponse {
    /// The distribution the server is running off from.
    pub distribution: DistributionType,
    /// The commit hash from the Git repository.
    pub commit_hash: String,
    /// The build date, in ISO-8601 format.
    pub build_date: String,
    /// The product name.
    pub product: String,
    /// The version of the server.
    pub version: String,
    /// The vendor that maintains the server.
    pub vendor: String,
}

/// What `GET /` answers.
#[derive(Debug, Clone, Default)]
pub struct MainResponse {
    /// The greeting of the server.
    pub message: String,
    /// The tagline of the server.
    pub tagline: String,
    /// Where the documentation is found.
    pub docs: String,
}

/// What `GET /features` answers.
#[derive(Debug, Clone, Default)]
pub struct FeaturesResponse {
    /// Whether the server is using a local Docker registry.
    pub docker_registry: bool,
    /// Whether the server is invite-only.
    pub is_invite_only: bool,
    pub registrations: bool,
    pub integrations: HashMap<String, bool>,
    pub audit_logs: bool,
    pub webhooks: bool,
    pub search: bool,
}

} // verus!
