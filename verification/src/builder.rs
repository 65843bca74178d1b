//! Step-by-step configuration of a client.

use crate::auth::AuthStrategy;
use crate::client::APIClient;
use crate::headers::{with_headers, Headers};
use crate::http::HeaderText;
use vstd::prelude::*;

verus! {

/// Collects what a client is configured with, then makes the client.
pub struct APIClientBuilder {
    /// The scheme word and the credential that the strategy gave when it
    /// was set.
    auth_strategy: Option<(String, String)>,
    base_url: Option<String>,
    headers: Headers,
}

impl Default for APIClientBuilder {
    /// A builder that has been told nothing yet.
    fn default() -> (builder: Self)
        ensures
            builder.wf(),
            builder.url() is None,
            builder.header_list() == Seq::<HeaderText>::empty(),
            builder.credentials() is None,
    {
        APIClientBuilder { auth_strategy: None, base_url: None, headers: Headers::new() }
    }
}

impl APIClientBuilder {
    /// The invariant of the builder: no header name was collected twice.
    pub closed spec fn wf(&self) -> bool {
        self.headers.wf()
    }

    /// The URL of the registry, if one was set.
    pub closed spec fn url(&self) -> Option<Seq<char>> {
        match self.base_url {
            Some(url) => Some(url@),
            None => None,
        }
    }

    /// The headers collected so far.
    pub closed spec fn header_list(&self) -> Seq<HeaderText> {
        self.headers@
    }

    /// The scheme word and the credential of the strategy that was set, if
    /// one was.
    pub closed spec fn credentials(&self) -> Option<(Seq<char>, Seq<char>)> {
        match self.auth_strategy {
            Some(strategy) => Some((strategy.0@, strategy.1@)),
            None => None,
        }
    }

    /// Sets an authentication strategy to use when faciliating API calls to charted-server.
    pub fn auth_strategy<S: AuthStrategy + 'static>(&mut self, strategy: S) -> (next: &mut Self)
        ensures
            next.credentials() == Some((strategy.prefix_text(), strategy.value_text())),
            next.url() == old(self).url(),
            next.header_list() == old(self).header_list(),
            next.wf() == old(self).wf(),
            *final(self) == *final(next),
    {
        self.auth_strategy = Some((strategy.prefix(), strategy.value()));
        self
    }

    /// Extra list of HTTP headers to append when creating requests. A name
    /// that was set before takes the new value.
    pub fn headers(&mut self, headers: Headers) -> (next: &mut Self)
        requires
            old(self).wf(),
        ensures
            next.header_list() == with_headers(old(self).header_list(), headers@),
            next.wf(),
            next.url() == old(self).url(),
            next.credentials() == old(self).credentials(),
            *final(self) == *final(next),
    {
        self.headers.extend(&headers);
        self
    }

    /// Sets the URL of the registry.
    pub fn base_url(&mut self, base_url: &str) -> (next: &mut Self)
        ensures
            next.url() == Some(base_url@),
            next.header_list() == old(self).header_list(),
            next.wf() == old(self).wf(),
            next.credentials() == old(self).credentials(),
            *final(self) == *final(next),
    {
        self.base_url = Some(base_url.to_owned());
        self
    }

    /// Takes the builder apart: the credentials, the URL and the headers.
    pub(crate) fn into_parts(self) -> (parts: (Option<(String, String)>, Option<String>, Headers))
        ensures
            self.credentials() == match parts.0 {
                Some(strategy) => Some((strategy.0@, strategy.1@)),
                None => None,
            },
            self.url() == match parts.1 {
                Some(url) => Some(url@),
                None => None,
            },
            self.header_list() == parts.2@,
    {
        (self.auth_strategy, self.base_url, self.headers)
    }

    /// Makes the client. The registry is the default one unless a URL was set.
    pub fn build(self) -> (client: APIClient)
        ensures
            client.base_url() == match self.url() {
                Some(url) => url,
                None => crate::client::DEFAULT_BASE_URL@,
            },
            client.default_headers() == self.header_list(),
            client.credentials() == self.credentials(),
    {
        APIClient::new_with_builder(self)
    }
}

} // verus!
