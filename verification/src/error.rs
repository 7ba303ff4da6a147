//! The error taxonomy of one invocation, and the message text each error
//! carries to the top level.

use vstd::prelude::*;
use vstd::string::StringExecFns;

verus! {

/// Everything that can go wrong in one invocation. Every error is fatal and
/// bubbles unmodified to the top level; only `InvalidArguments` asks for the
/// usage text to be reprinted.
#[derive(Debug)]
pub enum LookupError {
    /// Malformed command line. Carries the offending output-type token when
    /// the two-argument form named an unknown one, and nothing when the
    /// argument count itself was wrong.
    InvalidArguments(Option<String>),
    /// An HTTP request failed outright.
    TransportError,
    /// A response could not be decoded as a search page (`None`), or the API
    /// signalled an error by omitting the item list (`Some` of the API's own
    /// message, empty when it gave none).
    ProtocolError(Option<String>),
    /// The page budget was exhausted without an exact match. Carries the
    /// queried name.
    NotFound(String),
}

impl LookupError {
    /// The message surfaced for this error.
    pub open spec fn message_view(&self) -> Seq<char> {
        match self {
            LookupError::InvalidArguments(None) => "Mismatched number of arguments"@,
            LookupError::InvalidArguments(Some(t)) => "Unknown output type, '"@ + t@ + "'"@,
            LookupError::TransportError => "Connection failed"@,
            LookupError::ProtocolError(None) => "Invalid API response"@,
            LookupError::ProtocolError(Some(m)) => "Invalid API response, '"@ + m@ + "'"@,
            LookupError::NotFound(q) => "No repository named '"@ + q@ + "' found"@,
        }
    }

    /// Render the message text.
    pub fn message(&self) -> (r: String)
        ensures
            r@ == self.message_view(),
    {
        match self {
            LookupError::InvalidArguments(None) => "Mismatched number of arguments".to_owned(),
            LookupError::InvalidArguments(Some(t)) => "Unknown output type, '".to_owned().concat(
                t.as_str(),
            ).concat("'"),
            LookupError::TransportError => "Connection failed".to_owned(),
            LookupError::ProtocolError(None) => "Invalid API response".to_owned(),
            LookupError::ProtocolError(Some(m)) => "Invalid API response, '".to_owned().concat(
                m.as_str(),
            ).concat("'"),
            LookupError::NotFound(q) => "No repository named '".to_owned().concat(q.as_str())
                .concat("' found"),
        }
    }

    /// True exactly for the invalid-arguments error, the one error after
    /// which the usage text is reprinted.
    pub fn reprints_usage(&self) -> (r: bool)
        ensures
            r == (self is InvalidArguments),
    {
        match self {
            LookupError::InvalidArguments(_) => true,
            _ => false,
        }
    }
}

} // verus!
