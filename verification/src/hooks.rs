//! The lifecycle entry points that the host framework requires beside
//! authentication. The module manages neither credentials nor accounts, so
//! both report success and do nothing else.

use vstd::prelude::*;
use crate::verdict::HostResultCode;

verus! {

/// Entry point for setting credentials: always succeeds.
pub fn set_credentials() -> (code: HostResultCode)
    ensures
        code == HostResultCode::Success,
{
    HostResultCode::Success
}

/// Entry point for account management: always succeeds.
pub fn manage_account() -> (code: HostResultCode)
    ensures
        code == HostResultCode::Success,
{
    HostResultCode::Success
}

} // verus!
