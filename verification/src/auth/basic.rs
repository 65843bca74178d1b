//! Authentication with a user name and a password.

use super::AuthStrategy;
use base64::engine::general_purpose::STANDARD;
use base64::Engine;
use vstd::prelude::*;
use vstd::std_specs::convert::FromSpecImpl;
use vstd::string::*;

verus! {

/// The standard base64 encoding, with padding, of the UTF-8 bytes of a text.
pub uninterp spec fn base64_standard(text: Seq<char>) -> Seq<char>;

/// `encode` of base64's `STANDARD` engine, applied to the bytes of `text`.
#[verifier::external_body]
fn encode_standard(text: &str) -> (encoded: String)
    ensures
        encoded@ == base64_standard(text@),
{
    STANDARD.encode(text)
}

/// Authenticates with a user name and a password, which gives the bearer
/// everything that the user may do.
pub struct BasicAuthStrategy {
    username: String,
    password: String,
}

impl BasicAuthStrategy {
    /// The user name.
    pub closed spec fn username(&self) -> Seq<char> {
        self.username@
    }

    /// The password.
    pub closed spec fn password(&self) -> Seq<char> {
        self.password@
    }

    /// What is encoded to make the credential: the user name, a colon and the
    /// password.
    pub open spec fn credentials(&self) -> Seq<char> {
        self.username() + seq![':'] + self.password()
    }

    /// Creates a new [`BasicAuthStrategy`] with a username and password.
    pub fn new(username: &str, password: &str) -> (strategy: BasicAuthStrategy)
        ensures
            strategy.username() == username@,
            strategy.password() == password@,
    {
        BasicAuthStrategy { username: username.to_owned(), password: password.to_owned() }
    }
}

impl AuthStrategy for BasicAuthStrategy {
    open spec fn prefix_text(&self) -> Seq<char> {
        "Basic"@
    }

    open spec fn value_text(&self) -> Seq<char> {
        base64_standard(self.credentials())
    }

    fn prefix(&self) -> (s: String) {
        "Basic".to_owned()
    }

    fn value(&self) -> (s: String) {
        let mut plain = self.username.clone();
        proof {
            reveal_strlit(":");
            assert(":"@ =~= seq![':']);
        }
        plain.append(":");
        plain.append(self.password.as_str());
        encode_standard(plain.as_str())
    }
}

/// The header halves of basic authentication depend on nothing but the user
/// name and the password: the scheme word is always the same, and two
/// strategies with the same credentials give the same value.
pub proof fn law_basic_depends_on_credentials(one: BasicAuthStrategy, other: BasicAuthStrategy)
    requires
        one.username() == other.username(),
        one.password() == other.password(),
    ensures
        one.prefix_text() == "Basic"@,
        one.prefix_text() == other.prefix_text(),
        one.value_text() == base64_standard(one.username() + seq![':'] + one.password()),
        one.value_text() == other.value_text(),
{
}

impl From<(String, String)> for BasicAuthStrategy {
    fn from(pair: (String, String)) -> (strategy: Self)
        ensures
            strategy.username() == pair.0@,
            strategy.password() == pair.1@,
    {
        BasicAuthStrategy { username: pair.0, password: pair.1 }
    }
}

impl FromSpecImpl<(String, String)> for BasicAuthStrategy {
    open spec fn obeys_from_spec() -> bool {
        true
    }

    closed spec fn from_spec(pair: (String, String)) -> Self {
        BasicAuthStrategy { username: pair.0, password: pair.1 }
    }
}

impl<'a> From<(&'a str, &'a str)> for BasicAuthStrategy {
    fn from(pair: (&'a str, &'a str)) -> (strategy: Self)
        ensures
            strategy.username() == pair.0@,
            strategy.password() == pair.1@,
    {
        BasicAuthStrategy { username: pair.0.to_owned(), password: pair.1.to_owned() }
    }
}

impl<'a> FromSpecImpl<(&'a str, &'a str)> for BasicAuthStrategy {
    open spec fn obeys_from_spec() -> bool {
        false
    }

    closed spec fn from_spec(pair: (&'a str, &'a str)) -> Self {
        arbitrary()
    }
}

} // verus!
