//! The outcomes of an authentication attempt and the codes reported to the host.

use vstd::prelude::*;

verus! {

/// Outcome of one second-factor check.
#[derive(Clone, Copy, Debug, PartialEq, Eq, Structural)]
pub enum Verdict {
    /// The remote service confirmed that the token is open.
    Success,
    /// The check failed or could not be completed.
    Deny,
    /// The identity is exempt; the module declares it out of its jurisdiction.
    Ignore,
}

/// Result code reported to the host authentication framework.
#[derive(Clone, Copy, Debug, PartialEq, Eq, Structural)]
pub enum HostResultCode {
    Success,
    AuthError,
    Ignore,
}

/// The host code that stands for a verdict.
pub open spec fn spec_result_code(verdict: Verdict) -> HostResultCode {
    match verdict {
        Verdict::Success => HostResultCode::Success,
        Verdict::Deny => HostResultCode::AuthError,
        Verdict::Ignore => HostResultCode::Ignore,
    }
}

/// Maps a verdict to the code reported to the host.
pub fn result_code(verdict: Verdict) -> (code: HostResultCode)
    ensures
        code == spec_result_code(verdict),
{
    match verdict {
        Verdict::Success => HostResultCode::Success,
        Verdict::Deny => HostResultCode::AuthError,
        Verdict::Ignore => HostResultCode::Ignore,
    }
}

} // verus!
