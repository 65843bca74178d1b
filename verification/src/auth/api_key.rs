//! Authentication with an API key.

use super::AuthStrategy;
use vstd::prelude::*;
use vstd::string::*;

verus! {

/// Authenticates with an API key, which limits what the bearer may do. This is
/// the strategy to prefer for tools that act on a user's behalf.
#[derive(Debug, Clone)]
pub struct ApiKeyStrategy(String);

impl ApiKeyStrategy {
    /// The key that the strategy sends.
    pub closed spec fn key(&self) -> Seq<char> {
        self.0@
    }

    /// Creates a strategy that sends `key`.
    pub fn new(key: &str) -> (strategy: ApiKeyStrategy)
        ensures
            strategy.key() == key@,
    {
        ApiKeyStrategy(key.to_owned())
    }
}

impl AuthStrategy for ApiKeyStrategy {
    open spec fn prefix_text(&self) -> Seq<char> {
        "ApiKey"@
    }

    open spec fn value_text(&self) -> Seq<char> {
        self.key()
    }

    fn prefix(&self) -> (s: String) {
        "ApiKey".to_owned()
    }

    fn value(&self) -> (s: String) {
        self.0.clone()
    }
}

} // verus!
