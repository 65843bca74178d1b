//! The client: what it is configured with, the requests it assembles and how
//! it reads what comes back.

use crate::auth::{authorization_text, authorization_value, AuthStrategy};
use crate::builder::APIClientBuilder;
use crate::error::{ClientError, UnknownCause};
use crate::headers::Headers;
use crate::http::{
    canonical_name, empty_header_map, file_header, filed, first_rejection, header_entries,
    insert_all, lemma_all_accepted, lemma_filed_concat, lemma_filed_elsewhere, lemma_filed_last,
    lemma_filed_size, lemma_first_rejection_concat, law_later_list_prevails, rejection_of,
    HeaderRejection, HeaderText, Method, HEADER_MAP_ROOM,
};
use crate::models::{APIResponse, FeaturesResponse, InfoResponse, MainResponse};
use reqwest::header::{HeaderMap, HeaderValue};
use vstd::prelude::*;
use vstd::string::*;

verus! {

/// The registry that a client talks to unless it is told otherwise.
pub const DEFAULT_BASE_URL: &'static str = "https://charts.noelware.org/api";

/// The name of the header that carries the credentials, in canonical form.
pub const AUTHORIZATION: &'static str = "authorization";

/// A request that is ready to be handed to the transport.
#[derive(Debug)]
pub struct PreparedRequest {
    pub method: Method,
    /// The base URL followed by the endpoint, exactly as they were given.
    pub url: String,
    pub headers: HeaderMap<HeaderValue>,
    pub body: Option<Vec<u8>>,
}

/// How the transport's attempt to carry out a request ended.
#[derive(Debug)]
pub enum Dispatch {
    /// The request could not be carried out.
    Refused(reqwest::Error),
    /// An answer came, but reading its body failed.
    Interrupted(reqwest::Error),
    /// An answer came whole; this is its body. The status is of no account.
    Body(Vec<u8>),
}

/// The text that `String::from_utf8_lossy` makes of bytes.
pub uninterp spec fn utf8_lossy(bytes: Seq<u8>) -> Seq<char>;

/// `String::from_utf8_lossy`: bytes that are UTF-8 become the text they
/// encode; every other input becomes some text all the same.
#[verifier::external_body]
fn lossy_text(bytes: &Vec<u8>) -> (text: String)
    ensures
        text@ == utf8_lossy(bytes@),
        vstd::utf8::valid_utf8(bytes@) ==> text@ == vstd::utf8::decode_utf8(bytes@),
{
    String::from_utf8_lossy(bytes).into_owned()
}

/// The headers of an optional list: none where there is no list.
pub open spec fn listed(headers: Option<Headers>) -> Seq<HeaderText> {
    match headers {
        Some(list) => list@,
        None => Seq::empty(),
    }
}

/// The failure that a header which cannot be sent ends in.
pub open spec fn rejection_failure(rejection: HeaderRejection) -> ClientError {
    match rejection {
        HeaderRejection::Name => ClientError::Unknown(UnknownCause::InvalidHeaderName),
        HeaderRejection::Value => ClientError::Unknown(UnknownCause::InvalidHeaderValue),
    }
}

/// The message of a health check that got `text` for an answer.
pub open spec fn health_mismatch(text: Seq<char>) -> Seq<char> {
    "Expected: OK | Received: "@ + text
}

/// A client of the registry: where the registry is, which headers go with
/// every request and how the client authenticates. None of it changes once
/// the client is made.
pub struct APIClient {
    /// The scheme word and the credential that the strategy gave when the
    /// client was made.
    auth_strategy: Option<(String, String)>,
    base_url: String,
    headers: Option<Headers>,
}

impl Default for APIClient {
    /// A client of the default registry, with no headers of its own and no
    /// credentials.
    fn default() -> (client: Self)
        ensures
            client.base_url() == DEFAULT_BASE_URL@,
            client.default_headers() == Seq::<HeaderText>::empty(),
            client.credentials() is None,
    {
        APIClient { auth_strategy: None, base_url: DEFAULT_BASE_URL.to_owned(), headers: None }
    }
}

impl APIClient {
    /// The URL that every endpoint is appended to.
    pub closed spec fn base_url(&self) -> Seq<char> {
        self.base_url@
    }

    /// The headers that go with every request.
    pub closed spec fn default_headers(&self) -> Seq<HeaderText> {
        listed(self.headers)
    }

    /// The scheme word and the credential of the client's strategy, where it
    /// has one.
    pub closed spec fn credentials(&self) -> Option<(Seq<char>, Seq<char>)> {
        match self.auth_strategy {
            Some(strategy) => Some((strategy.0@, strategy.1@)),
            None => None,
        }
    }

    /// The `Authorization` header of the client, as a list of one header or
    /// of none.
    pub open spec fn authorization(&self) -> Seq<HeaderText> {
        match self.credentials() {
            Some((prefix, value)) => seq![(AUTHORIZATION@, authorization_text(prefix, value))],
            None => Seq::empty(),
        }
    }

    /// All headers of a request in the order in which they are filed: the
    /// headers of the call, then the client's own, then the authorization.
    /// Where two of them share a canonical name, the later one stays.
    pub open spec fn request_headers(&self, call: Seq<HeaderText>) -> Seq<HeaderText> {
        call + self.default_headers() + self.authorization()
    }

    /// Whether the header map is sure to have room for the call's headers
    /// beside the client's own.
    pub open spec fn has_room(&self, call: Seq<HeaderText>) -> bool {
        call.len() + self.default_headers().len() < HEADER_MAP_ROOM
    }

    /// Whether `request` is what assembling a request gives: a failure that
    /// names what is wrong with the first header that cannot be sent, or else
    /// the request with the method and the body of the call, the base URL
    /// and the endpoint put together as they are, and every header filed.
    pub open spec fn is_request(
        &self,
        request: Result<PreparedRequest, ClientError>,
        endpoint: Seq<char>,
        method: Method,
        body: Option<Vec<u8>>,
        call: Seq<HeaderText>,
    ) -> bool {
        match first_rejection(self.request_headers(call)) {
            Some(rejection) => request == Err::<PreparedRequest, ClientError>(
                rejection_failure(rejection),
            ),
            None => request matches Ok(prepared) && prepared.method == method && prepared.url@
                == self.base_url() + endpoint && prepared.body == body && header_entries(
                prepared.headers,
            ) == filed(Map::empty(), self.request_headers(call)),
        }
    }

    pub(crate) fn new_with_builder(builder: APIClientBuilder) -> (client: APIClient)
        ensures
            client.base_url() == match builder.url() {
                Some(url) => url,
                None => DEFAULT_BASE_URL@,
            },
            client.default_headers() == builder.header_list(),
            client.credentials() == builder.credentials(),
    {
        let (auth_strategy, url, headers) = builder.into_parts();
        let base_url = match url {
            Some(url) => url,
            None => DEFAULT_BASE_URL.to_owned(),
        };
        APIClient { auth_strategy, base_url, headers: Some(headers) }
    }

    /// Creates a new [`APIClient`] with a base URL to use.
    pub fn default_with_url(base_url: &str) -> (client: APIClient)
        ensures
            client.base_url() == base_url@,
            client.default_headers() == Seq::<HeaderText>::empty(),
            client.credentials() is None,
    {
        APIClient { auth_strategy: None, base_url: base_url.to_owned(), headers: None }
    }

    /// Creates a new [`APIClient`] with an authentication strategy but uses the default
    /// base URL.
    pub fn default_with_auth<S: AuthStrategy + 'static>(auth: S) -> (client: APIClient)
        ensures
            client.base_url() == DEFAULT_BASE_URL@,
            client.default_headers() == Seq::<HeaderText>::empty(),
            client.credentials() == Some((auth.prefix_text(), auth.value_text())),
    {
        APIClient {
            auth_strategy: Some((auth.prefix(), auth.value())),
            base_url: DEFAULT_BASE_URL.to_owned(),
            headers: None,
        }
    }

    /// Assembles the request for `endpoint`. The URL is the base URL and the
    /// endpoint put together as they are. The headers are those of
    /// [`Self::request_headers`]; if one of them cannot be sent, the request
    /// fails with what is wrong with the first such header.
    pub fn create_request(
        &self,
        endpoint: &str,
        method: Method,
        body: Option<Vec<u8>>,
        headers: Option<Headers>,
    ) -> (request: Result<PreparedRequest, ClientError>)
        requires
            self.has_room(listed(headers)),
        ensures
            self.is_request(request, endpoint@, method, body, listed(headers)),
    {
        let ghost call = listed(headers);
        let ghost defaults = self.default_headers();
        let ghost authorization = self.authorization();
        proof {
            lemma_first_rejection_concat(call, defaults);
            lemma_first_rejection_concat(call + defaults, authorization);
            lemma_filed_concat(Map::empty(), call, defaults);
            lemma_filed_concat(Map::empty(), call + defaults, authorization);
            lemma_filed_size(Map::empty(), call);
            lemma_filed_size(Map::empty(), call + defaults);
        }
        let mut map = empty_header_map();
        if let Some(list) = &headers {
            if let Some(rejection) = insert_all(&mut map, list) {
                return Err(Self::refuse(rejection));
            }
        }
        assert(header_entries(map) == filed(Map::empty(), call));
        if let Some(list) = &self.headers {
            if let Some(rejection) = insert_all(&mut map, list) {
                return Err(Self::refuse(rejection));
            }
        }
        assert(header_entries(map) == filed(Map::empty(), call + defaults));
        if let Some(strategy) = &self.auth_strategy {
            let value = authorization_value(strategy.0.as_str(), strategy.1.as_str());
            proof {
                lemma_authorization_name();
                assert(authorization.drop_last() =~= Seq::<HeaderText>::empty());
                assert(first_rejection(authorization.drop_last()) is None);
                assert(first_rejection(authorization) == rejection_of(authorization.last()));
                assert(filed(header_entries(map), authorization.drop_last()) == header_entries(map));
            }
            if let Some(rejection) = file_header(&mut map, AUTHORIZATION, value.as_str()) {
                return Err(Self::refuse(rejection));
            }
        }
        let mut url = self.base_url.clone();
        url.append(endpoint);
        Ok(PreparedRequest { method, url, headers: map, body })
    }

    /// Assembles the request for `endpoint` as [`Self::create_request`] does,
    /// or nothing where the headers are more than a header map is sure to
    /// have room for.
    pub fn try_create_request(
        &self,
        endpoint: &str,
        method: Method,
        body: Option<Vec<u8>>,
        headers: Option<Headers>,
    ) -> (request: Option<Result<PreparedRequest, ClientError>>)
        ensures
            match request {
                Some(made) => self.has_room(listed(headers)) && self.is_request(
                    made,
                    endpoint@,
                    method,
                    body,
                    listed(headers),
                ),
                None => !self.has_room(listed(headers)),
            },
    {
        if self.has_room_for(&headers) {
            Some(self.create_request(endpoint, method, body, headers))
        } else {
            None
        }
    }

    /// Whether the header map is sure to have room for the headers of a call
    /// beside the client's own.
    pub fn has_room_for(&self, headers: &Option<Headers>) -> (fits: bool)
        ensures
            fits == self.has_room(listed(*headers)),
    {
        let from_call = match headers {
            Some(list) => list.len(),
            None => 0,
        };
        let own = match &self.headers {
            Some(list) => list.len(),
            None => 0,
        };
        from_call < HEADER_MAP_ROOM && own < HEADER_MAP_ROOM - from_call
    }

    /// The request that asks whether the registry is up: `GET /health`.
    pub fn health_request(&self) -> (request: Result<PreparedRequest, ClientError>)
        requires
            self.has_room(Seq::empty()),
        ensures
            self.is_plain_get(request, "/health"@),
    {
        self.create_request("/health", Method::Get, None, None)
    }

    /// The request for the registry's greeting: `GET /`.
    pub fn main_request(&self) -> (request: Result<PreparedRequest, ClientError>)
        requires
            self.has_room(Seq::empty()),
        ensures
            self.is_plain_get(request, "/"@),
    {
        self.create_request("/", Method::Get, None, None)
    }

    /// The request for the registry's build information: `GET /info`.
    pub fn info_request(&self) -> (request: Result<PreparedRequest, ClientError>)
        requires
            self.has_room(Seq::empty()),
        ensures
            self.is_plain_get(request, "/info"@),
    {
        self.create_request("/info", Method::Get, None, None)
    }

    /// The request for the registry's features: `GET /features`.
    pub fn features_request(&self) -> (request: Result<PreparedRequest, ClientError>)
        requires
            self.has_room(Seq::empty()),
        ensures
            self.is_plain_get(request, "/features"@),
    {
        self.create_request("/features", Method::Get, None, None)
    }

    /// What assembling a `GET` request for `endpoint` gives when the call
    /// brings neither headers nor a body.
    pub open spec fn is_plain_get(
        &self,
        request: Result<PreparedRequest, ClientError>,
        endpoint: Seq<char>,
    ) -> bool {
        self.is_request(request, endpoint, Method::Get, None, Seq::empty())
    }

    /// Reads the outcome of a dispatch as text. A request that could not be
    /// carried out is a transport failure; a body that could not be read is
    /// an unknown failure; a body that arrived is decoded as UTF-8, with a
    /// replacement character for whatever is not.
    pub fn request_text(outcome: Dispatch) -> (text: Result<String, ClientError>)
        ensures
            match outcome {
                Dispatch::Refused(error) => text == Err::<String, ClientError>(
                    ClientError::Reqwest(error),
                ),
                Dispatch::Interrupted(error) => text == Err::<String, ClientError>(
                    ClientError::Unknown(UnknownCause::Body(error)),
                ),
                Dispatch::Body(bytes) => text matches Ok(decoded) && decoded@ == utf8_lossy(
                    bytes@,
                ) && (vstd::utf8::valid_utf8(bytes@) ==> decoded@ == vstd::utf8::decode_utf8(
                    bytes@,
                )),
            },
    {
        match outcome {
            Dispatch::Refused(error) => Err(ClientError::Reqwest(error)),
            Dispatch::Interrupted(error) => Err(ClientError::Unknown(UnknownCause::Body(error))),
            Dispatch::Body(bytes) => Ok(lossy_text(&bytes)),
        }
    }

    /// Settles a JSON decode: the decoded value, or a failure that keeps the
    /// parser's diagnostic together with the payload it choked on.
    pub fn request_json<U>(payload: String, decoded: Result<U, serde_json::Error>) -> (value:
        Result<U, ClientError>)
        ensures
            match decoded {
                Ok(document) => value == Ok::<U, ClientError>(document),
                Err(error) => value == Err::<U, ClientError>(
                    ClientError::JsonSerialization { error, payload },
                ),
            },
    {
        match decoded {
            Ok(document) => Ok(document),
            Err(error) => Err(ClientError::JsonSerialization { error, payload }),
        }
    }

    /// Settles a YAML decode: the decoded value, or a failure that keeps the
    /// parser's diagnostic together with the payload, so that the payload can
    /// be read again as something else.
    pub fn request_yaml<U>(payload: String, decoded: Result<U, serde_yaml::Error>) -> (value:
        Result<U, ClientError>)
        ensures
            match decoded {
                Ok(document) => value == Ok::<U, ClientError>(document),
                Err(error) => value == Err::<U, ClientError>(
                    ClientError::YamlSerialization { error, payload },
                ),
            },
    {
        match decoded {
            Ok(document) => Ok(document),
            Err(error) => Err(ClientError::YamlSerialization { error, payload }),
        }
    }

    /// Judges the answer to a health check: the registry is up exactly when
    /// the answer is the two letters `OK` and nothing else.
    pub fn health(text: &str) -> (verdict: Result<(), ClientError>)
        ensures
            match verdict {
                Ok(_) => text@ == "OK"@,
                Err(ClientError::String(message)) => text@ != "OK"@ && message@
                    == health_mismatch(text@),
                Err(_) => false,
            },
    {
        let received = text.to_owned();
        if received == "OK".to_owned() {
            Ok(())
        } else {
            let mut message = "Expected: OK | Received: ".to_owned();
            message.append(text);
            Err(ClientError::String(message))
        }
    }

    /// Opens an envelope: the payload of a success, or the errors that the
    /// registry reported.
    pub fn unwrap_response<T>(response: APIResponse<T>) -> (value: Result<T, ClientError>)
        requires
            response.is_consistent(),
        ensures
            response.success ==> value == Ok::<T, ClientError>(response.data.unwrap()),
            !response.success ==> value == Err::<T, ClientError>(
                ClientError::APIServer { errors: response.errors.unwrap() },
            ),
    {
        if !response.success {
            return Err(ClientError::APIServer { errors: response.errors.unwrap() });
        }
        Ok(response.data.unwrap())
    }

    /// Opens an envelope unless it contradicts itself: a success without a
    /// payload or a failure without errors is handed back untouched.
    pub fn try_unwrap_response<T>(response: APIResponse<T>) -> (value: Result<
        Result<T, ClientError>,
        APIResponse<T>,
    >)
        ensures
            match value {
                Ok(opened) => response.is_consistent() && (response.success ==> opened == Ok::<
                    T,
                    ClientError,
                >(response.data.unwrap())) && (!response.success ==> opened == Err::<
                    T,
                    ClientError,
                >(ClientError::APIServer { errors: response.errors.unwrap() })),
                Err(untouched) => !response.is_consistent() && untouched == response,
            },
    {
        let consistent = if response.success {
            response.data.is_some()
        } else {
            response.errors.is_some()
        };
        if consistent {
            Ok(Self::unwrap_response(response))
        } else {
            Err(response)
        }
    }

    /// Reads the answer to `GET /`.
    pub fn main(response: APIResponse<MainResponse>) -> (value: Result<MainResponse, ClientError>)
        requires
            response.is_consistent(),
        ensures
            response.success ==> value == Ok::<MainResponse, ClientError>(response.data.unwrap()),
            !response.success ==> value == Err::<MainResponse, ClientError>(
                ClientError::APIServer { errors: response.errors.unwrap() },
            ),
    {
        Self::unwrap_response(response)
    }

    /// Reads the answer to `GET /info`.
    pub fn info(response: APIResponse<InfoResponse>) -> (value: Result<InfoResponse, ClientError>)
        requires
            response.is_consistent(),
        ensures
            response.success ==> value == Ok::<InfoResponse, ClientError>(response.data.unwrap()),
            !response.success ==> value == Err::<InfoResponse, ClientError>(
                ClientError::APIServer { errors: response.errors.unwrap() },
            ),
    {
        Self::unwrap_response(response)
    }

    /// Reads the answer to `GET /features`.
    pub fn features(response: APIResponse<FeaturesResponse>) -> (value: Result<
        FeaturesResponse,
        ClientError,
    >)
        requires
            response.is_consistent(),
        ensures
            response.success ==> value == Ok::<FeaturesResponse, ClientError>(
                response.data.unwrap(),
            ),
            !response.success ==> value == Err::<FeaturesResponse, ClientError>(
                ClientError::APIServer { errors: response.errors.unwrap() },
            ),
    {
        Self::unwrap_response(response)
    }

    fn refuse(rejection: HeaderRejection) -> (failure: ClientError)
        ensures
            failure == rejection_failure(rejection),
    {
        match rejection {
            HeaderRejection::Name => ClientError::Unknown(UnknownCause::InvalidHeaderName),
            HeaderRejection::Value => ClientError::Unknown(UnknownCause::InvalidHeaderValue),
        }
    }
}

/// A request carries the client's credentials under the authorization
/// header whenever the client has a strategy, whatever the other headers
/// say. Without a strategy the header is absent, provided that no other
/// header is filed under its name.
pub proof fn law_authorization_header(client: APIClient, call: Seq<HeaderText>)
    requires
        first_rejection(client.request_headers(call)) is None,
    ensures
        match client.credentials() {
            Some((prefix, value)) => filed(
                Map::empty(),
                client.request_headers(call),
            ).contains_key(AUTHORIZATION@) && filed(Map::empty(), client.request_headers(call))[
                AUTHORIZATION@
            ] == authorization_text(prefix, value),
            None => (forall|i: int|
                0 <= i < (call + client.default_headers()).len() ==> canonical_name(
                    (#[trigger] (call + client.default_headers())[i]).0,
                ) != Some(AUTHORIZATION@)) ==> !filed(
                Map::empty(),
                client.request_headers(call),
            ).contains_key(AUTHORIZATION@),
        },
{
    let all = client.request_headers(call);
    lemma_authorization_name();
    lemma_all_accepted(all);
    assert forall|k: int| 0 <= k < all.len() implies canonical_name((#[trigger] all[k]).0)
        is Some by {
        assert(rejection_of(all[k]) is None);
    }
    match client.credentials() {
        Some((prefix, value)) => {
            lemma_filed_last(Map::empty(), all, all.len() - 1);
        },
        None => {
            assert(all =~= call + client.default_headers());
            if forall|i: int|
                0 <= i < all.len() ==> canonical_name((#[trigger] all[i]).0) != Some(
                    AUTHORIZATION@,
                ) {
                lemma_filed_elsewhere(Map::empty(), all, AUTHORIZATION@);
            }
        },
    }
}

/// Where the call and the client both give a header of one canonical name,
/// the request carries the client's value, unless the name is that of the
/// authorization header and the client has a strategy. The request carries
/// the call's value only where the two values agree.
pub proof fn law_client_headers_prevail(client: APIClient, call: Seq<HeaderText>, i: int, j: int)
    requires
        first_rejection(client.request_headers(call)) is None,
        0 <= i < call.len(),
        0 <= j < client.default_headers().len(),
        canonical_name(call[i].0) == canonical_name(client.default_headers()[j].0),
        forall|k: int|
            j < k < client.default_headers().len() ==> canonical_name(
                (#[trigger] client.default_headers()[k]).0,
            ) != canonical_name(client.default_headers()[j].0),
        client.credentials() is None || canonical_name(call[i].0) != Some(AUTHORIZATION@),
    ensures
        filed(Map::empty(), client.request_headers(call))[canonical_name(call[i].0).unwrap()]
            == client.default_headers()[j].1,
        filed(Map::empty(), client.request_headers(call))[canonical_name(call[i].0).unwrap()]
            == call[i].1 <==> call[i].1 == client.default_headers()[j].1,
{
    let defaults = client.default_headers();
    let both = call + defaults;
    let authorization = client.authorization();
    let name = canonical_name(call[i].0).unwrap();
    lemma_authorization_name();
    lemma_first_rejection_concat(both, authorization);
    lemma_filed_concat(Map::empty(), both, authorization);
    law_later_list_prevails(call, defaults, i, j);
    lemma_all_accepted(both);
    assert(both[i] == call[i]);
    assert(rejection_of(both[i]) is None);
    assert forall|k: int| 0 <= k < authorization.len() implies canonical_name(
        (#[trigger] authorization[k]).0,
    ) is Some && canonical_name(authorization[k].0) != Some(name) by {}
    lemma_filed_elsewhere(filed(Map::empty(), both), authorization, name);
}

/// Whether two requests are alike: the same failure, or the same method,
/// URL, body and headers.
pub open spec fn same_request(
    once: Result<PreparedRequest, ClientError>,
    again: Result<PreparedRequest, ClientError>,
) -> bool {
    match (once, again) {
        (Ok(first), Ok(second)) => first.method == second.method && first.url@ == second.url@
            && first.body == second.body && header_entries(first.headers) == header_entries(
            second.headers,
        ),
        (Err(first), Err(second)) => first == second,
        _ => false,
    }
}

/// Assembling a request keeps nothing from one call to the next: the same
/// client, asked twice for the same request, gives two that are alike.
pub proof fn law_request_is_repeatable(
    client: APIClient,
    endpoint: Seq<char>,
    method: Method,
    body: Option<Vec<u8>>,
    call: Seq<HeaderText>,
    once: Result<PreparedRequest, ClientError>,
    again: Result<PreparedRequest, ClientError>,
)
    requires
        client.is_request(once, endpoint, method, body, call),
        client.is_request(again, endpoint, method, body, call),
    ensures
        same_request(once, again),
{
}

/// The name of the authorization header is a header name, and its own
/// canonical form.
pub proof fn lemma_authorization_name()
    ensures
        canonical_name(AUTHORIZATION@) == Some(AUTHORIZATION@),
{
    reveal_strlit("authorization");
    let name = AUTHORIZATION@;
    assert(name.len() == 13);
    assert(canonical_name(name).unwrap() =~= name);
}

} // verus!
