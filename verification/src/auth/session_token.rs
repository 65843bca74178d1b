//! Authentication with the token of a session.

use super::AuthStrategy;
use vstd::prelude::*;
use vstd::string::*;

verus! {

/// Authenticates with the access token of a session. A refresh token may be
/// kept beside it; it is never sent.
#[derive(Debug, Clone)]
pub struct SessionTokenStrategy {
    access_token: String,
    pub(crate) refresh_token: Option<String>,
}

impl SessionTokenStrategy {
    /// The access token.
    pub closed spec fn access_token(&self) -> Seq<char> {
        self.access_token@
    }

    /// The refresh token, if one is kept.
    pub closed spec fn refresh_token(&self) -> Option<Seq<char>> {
        match self.refresh_token {
            Some(token) => Some(token@),
            None => None,
        }
    }

    /// Creates a new [`SessionTokenStrategy`] with an access token and no refresh token.
    pub fn new(access_token: &str) -> (strategy: SessionTokenStrategy)
        ensures
            strategy.access_token() == access_token@,
            strategy.refresh_token() is None,
    {
        SessionTokenStrategy { access_token: access_token.to_owned(), refresh_token: None }
    }

    /// Creates a new [`SessionTokenStrategy`] with an access and refresh token.
    pub fn new_with_refresh(access_token: &str, refresh_token: &str) -> (strategy:
        SessionTokenStrategy)
        ensures
            strategy.access_token() == access_token@,
            strategy.refresh_token() == Some(refresh_token@),
    {
        SessionTokenStrategy {
            access_token: access_token.to_owned(),
            refresh_token: Some(refresh_token.to_owned()),
        }
    }
}

impl AuthStrategy for SessionTokenStrategy {
    open spec fn prefix_text(&self) -> Seq<char> {
        "Bearer"@
    }

    open spec fn value_text(&self) -> Seq<char> {
        self.access_token()
    }

    fn prefix(&self) -> (s: String) {
        "Bearer".to_owned()
    }

    fn value(&self) -> (s: String) {
        self.access_token.clone()
    }
}

} // verus!
