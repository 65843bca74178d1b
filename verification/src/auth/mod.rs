//! Authentication strategies and the `Authorization` header they produce.

pub mod api_key;
pub mod basic;
pub mod session_token;

pub use api_key::ApiKeyStrategy;
pub use basic::{base64_standard, BasicAuthStrategy};
pub use session_token::SessionTokenStrategy;

use vstd::prelude::*;
use vstd::string::*;

verus! {

/// A way of producing the two halves of an `Authorization` header. Both
/// halves are functions of the strategy alone: asking twice gives the same
/// texts.
pub trait AuthStrategy {
    /// The scheme word that opens the header.
    spec fn prefix_text(&self) -> Seq<char>;

    /// The credential that follows the scheme word.
    spec fn value_text(&self) -> Seq<char>;

    /// Represents the prefix to use when building the `Authorization` header.
    fn prefix(&self) -> (s: String)
        ensures
            s@ == self.prefix_text(),
    ;

    /// The header value to use.
    fn value(&self) -> (s: String)
        ensures
            s@ == self.value_text(),
    ;
}

/// The text of the `Authorization` header for a scheme word and a credential:
/// the two with one space between them.
pub open spec fn authorization_text(prefix: Seq<char>, value: Seq<char>) -> Seq<char> {
    prefix + seq![' '] + value
}

/// Puts the `Authorization` header value together from a scheme word and a
/// credential.
pub fn authorization_value(prefix: &str, value: &str) -> (header: String)
    ensures
        header@ == authorization_text(prefix@, value@),
{
    let mut header = prefix.to_owned();
    proof {
        reveal_strlit(" ");
        assert(" "@ =~= seq![' ']);
    }
    header.append(" ");
    header.append(value);
    header
}

/// Asking a strategy twice gives the same prefix and the same value.
pub proof fn law_strategy_is_deterministic<S: AuthStrategy>(
    strategy: S,
    first_prefix: String,
    first_value: String,
    second_prefix: String,
    second_value: String,
)
    requires
        first_prefix@ == strategy.prefix_text(),
        second_prefix@ == strategy.prefix_text(),
        first_value@ == strategy.value_text(),
        second_value@ == strategy.value_text(),
    ensures
        first_prefix@ == second_prefix@,
        first_value@ == second_value@,
{
}

} // verus!
