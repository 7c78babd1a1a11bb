//! Why an authentication attempt could not be carried through.

use vstd::prelude::*;
use crate::verdict::Verdict;

verus! {

/// The failures of an authentication attempt.
#[derive(Clone, Copy, Debug, PartialEq, Eq, Structural)]
pub enum AuthError {
    /// A required directive is absent.
    MissingConfiguration,
    /// A directive was given a value that cannot be read.
    InvalidConfigurationValue,
    /// The host framework could not name the user.
    IdentityUnavailable,
    /// The token status could not be obtained from the remote service.
    RemoteQueryFailed,
}

/// Every failure denies: the module fails closed.
pub open spec fn spec_error_verdict(error: AuthError) -> Verdict {
    Verdict::Deny
}

/// The verdict that a failure is turned into where the attempt ends.
pub fn error_verdict(error: AuthError) -> (verdict: Verdict)
    ensures
        verdict == spec_error_verdict(error),
        verdict == Verdict::Deny,
{
    match error {
        AuthError::MissingConfiguration => Verdict::Deny,
        AuthError::InvalidConfigurationValue => Verdict::Deny,
        AuthError::IdentityUnavailable => Verdict::Deny,
        AuthError::RemoteQueryFailed => Verdict::Deny,
    }
}

} // verus!
