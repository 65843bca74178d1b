//! Chart indexes: asking for one, and telling an index that does not exist
//! from a failure.

use crate::client::{APIClient, PreparedRequest};
use crate::error::ClientError;
use crate::http::Method;
use crate::models::{APIResponse, ApiError, Empty};
use std::sync::Arc;
use vstd::prelude::*;
use vstd::string::*;

verus! {

/// The error code by which the registry says that a resource does not exist.
pub const NOT_FOUND_CODE: &'static str = "REST_HANDLER_NOT_FOUND";

/// The endpoint under which all indexes are found.
pub const INDEXES_ENDPOINT: &'static str = "/indexes/";

/// The character for a digit.
pub open spec fn digit(d: nat) -> char {
    if d == 0 {
        '0'
    } else if d == 1 {
        '1'
    } else if d == 2 {
        '2'
    } else if d == 3 {
        '3'
    } else if d == 4 {
        '4'
    } else if d == 5 {
        '5'
    } else if d == 6 {
        '6'
    } else if d == 7 {
        '7'
    } else if d == 8 {
        '8'
    } else {
        '9'
    }
}

/// A number in decimal notation, without leading zeros.
pub open spec fn decimal(n: nat) -> Seq<char>
    decreases n,
{
    if n < 10 {
        seq![digit(n)]
    } else {
        decimal(n / 10).push(digit(n % 10))
    }
}

fn digit_text(d: u64) -> (text: &'static str)
    requires
        d < 10,
    ensures
        text@ == seq![digit(d as nat)],
{
    proof {
        reveal_strlit("0");
        reveal_strlit("1");
        reveal_strlit("2");
        reveal_strlit("3");
        reveal_strlit("4");
        reveal_strlit("5");
        reveal_strlit("6");
        reveal_strlit("7");
        reveal_strlit("8");
        reveal_strlit("9");
    }
    let text = if d == 0 {
        "0"
    } else if d == 1 {
        "1"
    } else if d == 2 {
        "2"
    } else if d == 3 {
        "3"
    } else if d == 4 {
        "4"
    } else if d == 5 {
        "5"
    } else if d == 6 {
        "6"
    } else if d == 7 {
        "7"
    } else if d == 8 {
        "8"
    } else {
        "9"
    };
    assert(text@ =~= seq![digit(d as nat)]);
    text
}

/// Writes a number in decimal notation.
pub fn decimal_text(n: u64) -> (text: String)
    ensures
        text@ == decimal(n as nat),
    decreases n,
{
    if n < 10 {
        digit_text(n).to_owned()
    } else {
        let mut text = decimal_text(n / 10);
        let last = digit_text(n % 10);
        text.append(last);
        assert(text@ =~= decimal(n as nat));
        text
    }
}

/// What the first reading of a fetched index leaves to do.
#[derive(Debug)]
pub enum Lookup<T> {
    /// The payload was the document.
    Found(T),
    /// The payload was not the document. It has to be read again, as an
    /// envelope of errors.
    Reparse { payload: String },
    /// The fetch failed in a way that a second reading cannot mend.
    Failed(ClientError),
}

/// Whether the registry says, by the first of its errors, that the resource
/// does not exist.
pub open spec fn says_not_found(errors: Seq<ApiError>) -> bool {
    errors.len() > 0 && errors[0].code@ == NOT_FOUND_CODE@
}

/// The errors of an envelope: none where it lists none.
pub open spec fn reported(envelope: APIResponse<Empty>) -> Seq<ApiError> {
    match envelope.errors {
        Some(errors) => errors@,
        None => Seq::empty(),
    }
}

/// Whether an envelope stands for an index that does not exist: it reports a
/// failure, and the first error says that nothing was found.
pub open spec fn is_absence(envelope: APIResponse<Empty>) -> bool {
    !envelope.success && says_not_found(reported(envelope))
}

/// Whether `found` is what the second reading makes of a payload and of the
/// attempt to read it as an envelope.
pub open spec fn is_second_reading<T>(
    payload: String,
    envelope: Result<APIResponse<Empty>, serde_json::Error>,
    found: Result<Option<T>, ClientError>,
) -> bool {
    match envelope {
        Err(error) => found == Err::<Option<T>, ClientError>(
            ClientError::JsonSerialization { error, payload },
        ),
        Ok(envelope) => if is_absence(envelope) {
            found == Ok::<Option<T>, ClientError>(None)
        } else {
            found matches Err(ClientError::APIServer { errors }) && errors@ == reported(envelope)
                && (envelope.errors matches Some(listed) ==> errors == listed)
        },
    }
}

/// Whether two lookups ended alike: in the same document, the same absence
/// or the same failure, where failures of the registry are the same if they
/// list the same errors.
pub open spec fn same_outcome<T>(
    once: Result<Option<T>, ClientError>,
    again: Result<Option<T>, ClientError>,
) -> bool {
    match (once, again) {
        (
            Err(ClientError::APIServer { errors: first }),
            Err(ClientError::APIServer { errors: second }),
        ) => first@ == second@,
        _ => once == again,
    }
}

/// A lookup keeps nothing from one call to the next: the same payload, read
/// twice, ends alike both times.
pub proof fn law_lookup_is_repeatable<T>(
    payload: String,
    envelope: Result<APIResponse<Empty>, serde_json::Error>,
    once: Result<Option<T>, ClientError>,
    again: Result<Option<T>, ClientError>,
)
    requires
        is_second_reading(payload, envelope, once),
        is_second_reading(payload, envelope, again),
    ensures
        same_outcome(once, again),
{
}

/// An index that the registry reports as not found is no failure, and every
/// other envelope is one.
pub proof fn law_absence_is_no_failure<T>(
    payload: String,
    envelope: APIResponse<Empty>,
    found: Result<Option<T>, ClientError>,
)
    requires
        is_second_reading(payload, Ok(envelope), found),
    ensures
        found is Ok <==> is_absence(envelope),
        found is Ok ==> found == Ok::<Option<T>, ClientError>(None),
{
}

/// Requests to the indexes of the registry, on behalf of one client.
pub struct IndexesContainer {
    client: Arc<APIClient>,
}

impl IndexesContainer {
    /// The client that the container asks through.
    pub closed spec fn client(&self) -> APIClient {
        *self.client
    }

    /// The client that the container asks through.
    pub fn api_client(&self) -> (client: &APIClient)
        ensures
            *client == self.client(),
    {
        &*self.client
    }

    /// Creates a new [`IndexesContainer`] with the specified [`APIClient`].
    pub(crate) fn new(client: APIClient) -> (container: IndexesContainer)
        ensures
            container.client() == client,
    {
        IndexesContainer { client: Arc::new(client) }
    }

    /// The request for the `index.yaml` of the user or organization with the
    /// identifier `id`: `GET /indexes/{id}`, the identifier in decimal.
    pub fn get_by_id_request(&self, id: u64) -> (request: Result<PreparedRequest, ClientError>)
        requires
            self.client().has_room(Seq::empty()),
        ensures
            self.client().is_plain_get(request, INDEXES_ENDPOINT@ + decimal(id as nat)),
    {
        let mut endpoint = INDEXES_ENDPOINT.to_owned();
        let number = decimal_text(id);
        endpoint.append(number.as_str());
        self.client.create_request(endpoint.as_str(), Method::Get, None, None)
    }

    /// The request for the `index.yaml` of the user or organization called
    /// `name`: `GET /indexes/{name}`, the name as it is.
    pub fn get_request(&self, name: &str) -> (request: Result<PreparedRequest, ClientError>)
        requires
            self.client().has_room(Seq::empty()),
        ensures
            self.client().is_plain_get(request, INDEXES_ENDPOINT@ + name@),
    {
        let mut endpoint = INDEXES_ENDPOINT.to_owned();
        endpoint.append(name);
        self.client.create_request(endpoint.as_str(), Method::Get, None, None)
    }

    /// The first reading of what a fetch of an index gave. A document is
    /// found. A payload that is not the document is kept for a second
    /// reading. Every other failure stands as it is.
    pub fn first_reading<T>(fetched: Result<T, ClientError>) -> (step: Lookup<T>)
        ensures
            step == match fetched {
                Ok(document) => Lookup::Found(document),
                Err(ClientError::YamlSerialization { error, payload }) => Lookup::Reparse {
                    payload,
                },
                Err(failure) => Lookup::Failed(failure),
            },
    {
        match fetched {
            Ok(document) => Lookup::Found(document),
            Err(ClientError::YamlSerialization { error, payload }) => Lookup::Reparse { payload },
            Err(failure) => Lookup::Failed(failure),
        }
    }

    /// The second reading: what the payload means once it was read as an
    /// envelope of errors. If it is no envelope either, the lookup fails with
    /// that second diagnostic and the payload. If the envelope stands for an
    /// index that does not exist, the lookup succeeds with nothing. Every
    /// other envelope, one that reports success included, is a failure of the
    /// registry with all the errors that the envelope lists.
    pub fn second_reading<T>(
        payload: String,
        envelope: Result<APIResponse<Empty>, serde_json::Error>,
    ) -> (found: Result<Option<T>, ClientError>)
        ensures
            is_second_reading(payload, envelope, found),
    {
        match envelope {
            Err(error) => Err(ClientError::JsonSerialization { error, payload }),
            Ok(envelope) => {
                let success = envelope.success;
                let errors = match envelope.errors {
                    Some(errors) => errors,
                    None => Vec::new(),
                };
                if !success && errors.len() > 0 {
                    if errors[0].code == NOT_FOUND_CODE.to_owned() {
                        return Ok(None);
                    }
                }
                Err(ClientError::APIServer { errors })
            },
        }
    }
}

impl APIClient {
    /// Creates a container to request to the Indexes API.
    pub fn indexes(self) -> (container: IndexesContainer)
        ensures
            container.client() == self,
    {
        IndexesContainer::new(self)
    }
}

} // verus!
