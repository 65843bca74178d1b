//! The envelope that wraps every JSON answer of the registry.

use vstd::prelude::*;
use vstd::string::*;

verus! {

/// The envelope of a JSON answer: the payload on success, the list of errors
/// otherwise.
#[derive(Debug, Clone)]
pub struct APIResponse<T> {
    pub success: bool,
    pub data: Option<T>,
    pub errors: Option<Vec<ApiError>>,
}

/// One error as the registry reports it. The code is a stable identifier made
/// for machines, the message is made for people.
#[derive(Debug, Clone)]
pub struct ApiError {
    pub code: String,
    pub message: String,
}

/// A payload without content, for envelopes of which only the errors matter.
#[derive(Debug, Clone, Copy, Default, PartialEq, Eq, Structural)]
pub struct Empty {}

impl<T> APIResponse<T> {
    /// Whether the envelope holds what its `success` flag announces: the
    /// payload when it is set, the error list when it is not.
    pub open spec fn is_consistent(&self) -> bool {
        if self.success {
            self.data is Some
        } else {
            self.errors is Some
        }
    }
}

impl ApiError {
    /// The text of the error on one line.
    pub open spec fn text(&self) -> Seq<char> {
        "ApiError["@ + self.code@ + "]: "@ + self.message@
    }

    /// Renders the error on one line: the code in square brackets, then the
    /// message.
    pub fn to_text(&self) -> (s: String)
        ensures
            s@ == self.text(),
    {
        let mut s = String::from_str("ApiError[");
        s.append(self.code.as_str());
        s.append("]: ");
        s.append(self.message.as_str());
        s
    }
}

} // verus!
