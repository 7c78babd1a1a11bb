//! The decision engine.
//!
//! One authentication attempt is a short run of a state machine. The caller
//! hands in what happened (the attempt began, the remote service answered or
//! could not be reached) and gets back the next state, what to do next (send
//! the status query, or report a verdict) and the diagnostic line to write.
//! The engine itself sends and writes nothing, and it keeps nothing between
//! attempts.

use vstd::prelude::*;
use vstd::string::*;
use crate::config::{resolve, spec_resolve, Config, ConfigView};
use crate::error::{error_verdict, spec_error_verdict, AuthError};
use crate::log::{
    bad_status_detail, bypass_message, closed_message, failure_message, gate, open_message,
    spec_bad_status_detail, spec_bypass_message, spec_closed_message, spec_failure_message,
    spec_gate, spec_open_message, spec_url_message, url_message,
};
use crate::request::{spec_status_url, status_url, QUERY_TIMEOUT_SECS};
use crate::verdict::Verdict;

verus! {

/// The identity being authenticated in the current attempt.
#[derive(Clone, Debug, PartialEq, Eq)]
pub struct AuthRequest {
    pub user: String,
}

/// The remote service's answer, as far as the engine reads it.
#[derive(Clone, Copy, Debug, PartialEq, Eq, Structural)]
pub struct TokenStatusResponse {
    pub status: i32,
}

/// How the status query ended.
#[derive(Clone, Debug, PartialEq, Eq)]
pub enum QueryOutcome {
    /// No response was obtained: name resolution, connection, TLS or the
    /// timeout failed.
    TransportFailed { detail: String },
    /// A response arrived, but its body could not be decoded.
    DecodeFailed { detail: String },
    /// A response arrived with this HTTP status, and this is its decoded body.
    Answered { http_status: u16, response: TokenStatusResponse },
}

/// Mathematical model of a [`QueryOutcome`].
pub enum QueryOutcomeView {
    TransportFailed { detail: Seq<char> },
    DecodeFailed { detail: Seq<char> },
    Answered { http_status: u16, response: TokenStatusResponse },
}

impl View for QueryOutcome {
    type V = QueryOutcomeView;

    open spec fn view(&self) -> QueryOutcomeView {
        match *self {
            QueryOutcome::TransportFailed { detail } => QueryOutcomeView::TransportFailed {
                detail: detail@,
            },
            QueryOutcome::DecodeFailed { detail } => QueryOutcomeView::DecodeFailed {
                detail: detail@,
            },
            QueryOutcome::Answered { http_status, response } => QueryOutcomeView::Answered {
                http_status,
                response,
            },
        }
    }
}

/// Where an attempt stands.
#[derive(Clone, Copy, Debug, PartialEq, Eq, Structural)]
pub enum State {
    /// Nothing has happened yet.
    Start,
    /// The status query was handed out and its outcome is awaited.
    QueryInFlight { debug: bool },
    /// The attempt has ended with this verdict.
    Finished { verdict: Verdict },
}

/// What happened outside the engine.
#[derive(Clone, Debug, PartialEq, Eq)]
pub enum Event {
    /// The host framework began an attempt with these directives; `identity`
    /// is the user it named, if it could name one.
    Attempt { args: Vec<String>, identity: Option<String> },
    /// The status query ended.
    Response { outcome: QueryOutcome },
}

/// Mathematical model of an [`Event`].
pub enum EventView {
    Attempt { args: Seq<Seq<char>>, identity: Option<Seq<char>> },
    Response { outcome: QueryOutcomeView },
}

impl View for Event {
    type V = EventView;

    open spec fn view(&self) -> EventView {
        match *self {
            Event::Attempt { args, identity } => EventView::Attempt {
                args: args.deep_view(),
                identity: identity.deep_view(),
            },
            Event::Response { outcome } => EventView::Response { outcome: outcome@ },
        }
    }
}

/// What the caller is to do next.
#[derive(Clone, Debug, PartialEq, Eq)]
pub enum Action {
    /// Send one GET request to `url`, give up after `timeout_secs` seconds,
    /// and hand the outcome back as a [`Event::Response`].
    Query { url: String, timeout_secs: u64 },
    /// Report the verdict to the host framework; the attempt is over.
    Finish { verdict: Verdict },
}

/// Mathematical model of an [`Action`].
pub enum ActionView {
    Query { url: Seq<char>, timeout_secs: u64 },
    Finish { verdict: Verdict },
}

impl View for Action {
    type V = ActionView;

    open spec fn view(&self) -> ActionView {
        match *self {
            Action::Query { url, timeout_secs } => ActionView::Query { url: url@, timeout_secs },
            Action::Finish { verdict } => ActionView::Finish { verdict },
        }
    }
}

/// One move of the engine.
#[derive(Clone, Debug, PartialEq, Eq)]
pub struct Transition {
    /// The state after the move.
    pub next: State,
    /// What the caller is to do.
    pub action: Action,
    /// The diagnostic line to write, if any.
    pub log: Option<String>,
}

/// Mathematical model of a [`Transition`].
pub struct TransitionView {
    pub next: State,
    pub action: ActionView,
    pub log: Option<Seq<char>>,
}

impl View for Transition {
    type V = TransitionView;

    open spec fn view(&self) -> TransitionView {
        TransitionView { next: self.next, action: self.action@, log: self.log.deep_view() }
    }
}

/// The move that ends an attempt with `verdict`.
pub open spec fn spec_finish(verdict: Verdict, log: Option<Seq<char>>) -> TransitionView {
    TransitionView {
        next: State::Finished { verdict },
        action: ActionView::Finish { verdict },
        log,
    }
}

/// Ends an attempt with `verdict`.
pub fn finish(verdict: Verdict, log: Option<String>) -> (transition: Transition)
    ensures
        transition@ == spec_finish(verdict, log.deep_view()),
{
    Transition { next: State::Finished { verdict }, action: Action::Finish { verdict }, log }
}

/// The request for the user that the host framework named, or the failure
/// where it named none.
pub open spec fn spec_identify(identity: Option<Seq<char>>) -> Result<Seq<char>, AuthError> {
    match identity {
        Some(user) => Ok(user),
        None => Err(AuthError::IdentityUnavailable),
    }
}

/// Turns what the host framework said of the user into a request.
pub fn identify(identity: Option<String>) -> (request: Result<AuthRequest, AuthError>)
    ensures
        match request {
            Ok(request) => spec_identify(identity.deep_view()) == Ok::<Seq<char>, AuthError>(
                request.user@,
            ),
            Err(error) => spec_identify(identity.deep_view()) == Err::<Seq<char>, AuthError>(
                error,
            ),
        },
{
    match identity {
        Some(user) => Ok(AuthRequest { user }),
        None => Err(AuthError::IdentityUnavailable),
    }
}

/// The user is exempt from the second factor: an exemption is configured,
/// and it names exactly this user.
pub open spec fn spec_is_exempt(config: ConfigView, user: Seq<char>) -> bool {
    config.no_2fa_user.len() > 0 && config.no_2fa_user == user
}

/// Tells whether the bypass rule applies to the request.
pub fn is_exempt(config: &Config, request: &AuthRequest) -> (exempt: bool)
    ensures
        exempt == spec_is_exempt(config@, request.user@),
{
    let exempted = config.no_2fa_user();
    !exempted.is_empty() && exempted.to_owned() == request.user
}

/// The first move for a resolved configuration and a named user: the exempt
/// user is let pass without a query, for every other user the status query
/// is handed out.
pub open spec fn spec_decide(config: ConfigView, user: Seq<char>) -> TransitionView {
    if spec_is_exempt(config, user) {
        spec_finish(
            Verdict::Ignore,
            spec_gate(spec_bypass_message(config.no_2fa_user), config.debug),
        )
    } else {
        let url = spec_status_url(config.host, user, config.service, config.auth_key);
        TransitionView {
            next: State::QueryInFlight { debug: config.debug },
            action: ActionView::Query { url, timeout_secs: QUERY_TIMEOUT_SECS },
            log: spec_gate(spec_url_message(url), config.debug),
        }
    }
}

/// Applies the bypass rule and, where it does not apply, builds the status
/// query.
pub fn decide(config: &Config, request: &AuthRequest) -> (transition: Transition)
    ensures
        transition@ == spec_decide(config@, request.user@),
{
    if is_exempt(config, request) {
        let message = bypass_message(config.no_2fa_user());
        finish(Verdict::Ignore, gate(message, config.debug()))
    } else {
        let url = status_url(config, request.user.as_str());
        let message = url_message(url.as_str());
        Transition {
            next: State::QueryInFlight { debug: config.debug() },
            action: Action::Query { url, timeout_secs: QUERY_TIMEOUT_SECS },
            log: gate(message, config.debug()),
        }
    }
}

/// The first move of an attempt. A failure to resolve the directives or to
/// name the user ends the attempt with a denial, before any query.
pub open spec fn spec_begin(args: Seq<Seq<char>>, identity: Option<Seq<char>>) -> TransitionView {
    match spec_resolve(args) {
        Err(error) => spec_finish(spec_error_verdict(error), None),
        Ok(config) => match spec_identify(identity) {
            Err(error) => spec_finish(spec_error_verdict(error), None),
            Ok(user) => spec_decide(config, user),
        },
    }
}

/// Begins an attempt: resolves the directives, takes the user and decides.
pub fn begin(args: &Vec<String>, identity: Option<String>) -> (transition: Transition)
    ensures
        transition@ == spec_begin(args.deep_view(), identity.deep_view()),
{
    let config = match resolve(args) {
        Ok(config) => config,
        Err(error) => return finish(error_verdict(error), None),
    };
    let request = match identify(identity) {
        Ok(request) => request,
        Err(error) => return finish(error_verdict(error), None),
    };
    decide(&config, &request)
}

/// The HTTP status is one of success.
pub open spec fn spec_is_success_status(http_status: u16) -> bool {
    200 <= http_status <= 299
}

/// The decoded answer of a query that succeeded, or the failure. A response
/// with an unsuccessful HTTP status is a failure whatever its body holds.
pub open spec fn spec_classify(outcome: QueryOutcomeView) -> Result<
    TokenStatusResponse,
    AuthError,
> {
    match outcome {
        QueryOutcomeView::TransportFailed { .. } => Err(AuthError::RemoteQueryFailed),
        QueryOutcomeView::DecodeFailed { .. } => Err(AuthError::RemoteQueryFailed),
        QueryOutcomeView::Answered { http_status, response } => if spec_is_success_status(
            http_status,
        ) {
            Ok(response)
        } else {
            Err(AuthError::RemoteQueryFailed)
        },
    }
}

/// Tells a usable answer from a failed query.
pub fn classify(outcome: &QueryOutcome) -> (classified: Result<TokenStatusResponse, AuthError>)
    ensures
        classified == spec_classify(outcome@),
{
    match outcome {
        QueryOutcome::TransportFailed { .. } => Err(AuthError::RemoteQueryFailed),
        QueryOutcome::DecodeFailed { .. } => Err(AuthError::RemoteQueryFailed),
        QueryOutcome::Answered { http_status, response } => {
            if 200 <= *http_status && *http_status <= 299 {
                Ok(*response)
            } else {
                Err(AuthError::RemoteQueryFailed)
            }
        },
    }
}

/// What the diagnostic line says of a failed query.
pub open spec fn spec_failure_detail(outcome: QueryOutcomeView) -> Seq<char> {
    match outcome {
        QueryOutcomeView::TransportFailed { detail } => detail,
        QueryOutcomeView::DecodeFailed { detail } => detail,
        QueryOutcomeView::Answered { .. } => spec_bad_status_detail(),
    }
}

/// The verdict for a decoded answer: the token is open where the status is
/// one, and closed for every other value.
pub open spec fn spec_interpret(response: TokenStatusResponse) -> Verdict {
    if response.status == 1 {
        Verdict::Success
    } else {
        Verdict::Deny
    }
}

/// Reads the verdict off a decoded answer.
pub fn interpret(response: TokenStatusResponse) -> (verdict: Verdict)
    ensures
        verdict == spec_interpret(response),
{
    if response.status == 1 {
        Verdict::Success
    } else {
        Verdict::Deny
    }
}

/// The last move of an attempt that sent its query. A failed query denies,
/// and its line is written whether or not diagnostics are enabled.
pub open spec fn spec_conclude(debug: bool, outcome: QueryOutcomeView) -> TransitionView {
    match spec_classify(outcome) {
        Err(error) => spec_finish(
            spec_error_verdict(error),
            Some(spec_failure_message(spec_failure_detail(outcome))),
        ),
        Ok(response) => spec_finish(
            spec_interpret(response),
            spec_gate(
                if spec_interpret(response) == Verdict::Success {
                    spec_open_message()
                } else {
                    spec_closed_message()
                },
                debug,
            ),
        ),
    }
}

/// Concludes an attempt from the outcome of its status query.
pub fn conclude(debug: bool, outcome: &QueryOutcome) -> (transition: Transition)
    ensures
        transition@ == spec_conclude(debug, outcome@),
{
    match classify(outcome) {
        Err(error) => {
            let message = match outcome {
                QueryOutcome::TransportFailed { detail } => failure_message(detail.as_str()),
                QueryOutcome::DecodeFailed { detail } => failure_message(detail.as_str()),
                QueryOutcome::Answered { .. } => failure_message(bad_status_detail().as_str()),
            };
            finish(error_verdict(error), Some(message))
        },
        Ok(response) => {
            let verdict = interpret(response);
            let message = match verdict {
                Verdict::Success => open_message(),
                _ => closed_message(),
            };
            finish(verdict, gate(message, debug))
        },
    }
}

/// The move that the engine makes in `state` when `event` happens.
///
/// An event that does not belong to the state ends the attempt with a
/// denial; a finished attempt stays finished with the verdict it has.
pub open spec fn spec_step(state: State, event: EventView) -> TransitionView {
    match state {
        State::Start => match event {
            EventView::Attempt { args, identity } => spec_begin(args, identity),
            EventView::Response { .. } => spec_finish(Verdict::Deny, None),
        },
        State::QueryInFlight { debug } => match event {
            EventView::Response { outcome } => spec_conclude(debug, outcome),
            EventView::Attempt { .. } => spec_finish(Verdict::Deny, None),
        },
        State::Finished { verdict } => spec_finish(verdict, None),
    }
}

/// Makes one move of the engine.
pub fn step(state: State, event: Event) -> (transition: Transition)
    ensures
        transition@ == spec_step(state, event@),
{
    match state {
        State::Start => match event {
            Event::Attempt { args, identity } => begin(&args, identity),
            Event::Response { .. } => finish(Verdict::Deny, None),
        },
        State::QueryInFlight { debug } => match event {
            Event::Response { outcome } => conclude(debug, &outcome),
            Event::Attempt { .. } => finish(Verdict::Deny, None),
        },
        State::Finished { verdict } => finish(verdict, None),
    }
}

} // verus!
