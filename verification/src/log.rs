//! The diagnostic lines of an authentication attempt.
//!
//! The engine writes nothing itself. It hands each line to its caller, who
//! owns the sink; a line that is switched off is not handed out at all.

use vstd::prelude::*;
use vstd::string::*;

verus! {

/// The line written when the token is open.
pub open spec fn spec_open_message() -> Seq<char> {
    "[zoftoken]: OK"@
}

/// The line written when the token is closed.
pub open spec fn spec_closed_message() -> Seq<char> {
    "[zoftoken]: Error token closed"@
}

/// The detail given for a response whose HTTP status is no success.
pub open spec fn spec_bad_status_detail() -> Seq<char> {
    "remote service answered with an unsuccessful HTTP status"@
}

/// The line to emit for a message: the message where logging is enabled,
/// none where it is not.
pub open spec fn spec_gate(message: Seq<char>, enabled: bool) -> Option<Seq<char>> {
    if enabled {
        Some(message)
    } else {
        None
    }
}

/// Passes a message on where logging is enabled and drops it where not.
pub fn gate(message: String, enabled: bool) -> (line: Option<String>)
    ensures
        line.deep_view() == spec_gate(message@, enabled),
{
    if enabled {
        Some(message)
    } else {
        None
    }
}

/// The line that names the user who passed without a second factor.
pub open spec fn spec_bypass_message(user: Seq<char>) -> Seq<char> {
    "[zoftoken]: no_2fa_user logged in: "@ + user
}

/// The line that shows the address of the status query.
pub open spec fn spec_url_message(url: Seq<char>) -> Seq<char> {
    "[zoftoken]: url: "@ + url
}

/// The line that describes why the status query failed.
pub open spec fn spec_failure_message(detail: Seq<char>) -> Seq<char> {
    "Error: "@ + detail
}

/// Builds the line that names the user who passed without a second factor.
pub fn bypass_message(user: &str) -> (message: String)
    ensures
        message@ == spec_bypass_message(user@),
{
    "[zoftoken]: no_2fa_user logged in: ".to_owned().concat(user)
}

/// Builds the line that shows the address of the status query.
pub fn url_message(url: &str) -> (message: String)
    ensures
        message@ == spec_url_message(url@),
{
    "[zoftoken]: url: ".to_owned().concat(url)
}

/// Builds the line that describes why the status query failed.
pub fn failure_message(detail: &str) -> (message: String)
    ensures
        message@ == spec_failure_message(detail@),
{
    "Error: ".to_owned().concat(detail)
}

/// Builds the line written when the token is open.
pub fn open_message() -> (message: String)
    ensures
        message@ == spec_open_message(),
{
    "[zoftoken]: OK".to_owned()
}

/// Builds the line written when the token is closed.
pub fn closed_message() -> (message: String)
    ensures
        message@ == spec_closed_message(),
{
    "[zoftoken]: Error token closed".to_owned()
}

/// Builds the detail given for a response whose HTTP status is no success.
pub fn bad_status_detail() -> (detail: String)
    ensures
        detail@ == spec_bad_status_detail(),
{
    "remote service answered with an unsuccessful HTTP status".to_owned()
}

} // verus!
