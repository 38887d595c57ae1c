//! What to tell the interface about a key that a service was asked about.

use vstd::prelude::*;
use crate::error::CommandError;

verus! {

/// What came of asking the validation service about a key.
#[derive(Clone, Debug, PartialEq, Eq)]
pub enum KeyReply {
    /// The service accepts the key.
    Accepted,
    /// The service answered, and does not accept the key.
    Rejected,
    /// No answer could be had; the text says why.
    Unreachable(String),
}

/// What `validate_key` answers.
pub open spec fn validation_outcome(reply: KeyReply) -> Result<bool, CommandError> {
    match reply {
        KeyReply::Accepted => Ok(true),
        KeyReply::Rejected => Ok(false),
        KeyReply::Unreachable(text) => Err(CommandError::Validation(text)),
    }
}

/// Reports on a key once the service has been asked. A key that the
/// service turns down is an answer, `Ok(false)`; only a service that could
/// not be asked is a failure.
pub fn validate_key(reply: KeyReply) -> (result: Result<bool, CommandError>)
    ensures
        result == validation_outcome(reply),
{
    match reply {
        KeyReply::Accepted => Ok(true),
        KeyReply::Rejected => Ok(false),
        KeyReply::Unreachable(text) => Err(CommandError::Validation(text)),
    }
}

} // verus!
