//! What holds of every authentication attempt.
//!
//! The engine is driven from outside: the caller feeds it events and carries
//! out its actions. The statements here are about every way of doing so, and
//! about the whole attempt that results when the caller follows the engine.

use vstd::prelude::*;
use crate::config::{missing_required, spec_resolve, ConfigView};
use crate::engine::{
    spec_begin, spec_classify, spec_conclude, spec_is_exempt, spec_is_success_status, spec_step,
    ActionView, EventView, QueryOutcomeView, State, TokenStatusResponse, TransitionView,
};
use crate::error::AuthError;
use crate::request::{
    lemma_query_parameters, spec_parameters, spec_query, spec_status_url, QUERY_TIMEOUT_SECS,
};
use crate::verdict::Verdict;

verus! {

/// The moves that the engine makes when `events` happen one after another,
/// beginning in `state`.
pub open spec fn spec_run(state: State, events: Seq<EventView>) -> Seq<TransitionView>
    decreases events.len(),
{
    if events.len() == 0 {
        Seq::empty()
    } else {
        let first = spec_step(state, events.first());
        seq![first] + spec_run(first.next, events.drop_first())
    }
}

/// The queries that an attempt sends, in order.
pub open spec fn spec_queries(args: Seq<Seq<char>>, identity: Option<Seq<char>>) -> Seq<
    Seq<char>,
> {
    match spec_begin(args, identity).action {
        ActionView::Query { url, .. } => seq![url],
        ActionView::Finish { .. } => Seq::empty(),
    }
}

/// The verdict of a whole attempt, where `remote` tells how a query to an
/// address ends. The caller begins the attempt, sends the query that the
/// engine hands out, if any, and hands back its outcome.
pub open spec fn spec_attempt(
    args: Seq<Seq<char>>,
    identity: Option<Seq<char>>,
    remote: spec_fn(Seq<char>) -> QueryOutcomeView,
) -> Verdict {
    let first = spec_begin(args, identity);
    match first.action {
        ActionView::Finish { verdict } => verdict,
        ActionView::Query { url, .. } => {
            match spec_step(first.next, EventView::Response { outcome: remote(url) }).action {
                ActionView::Finish { verdict } => verdict,
                ActionView::Query { .. } => Verdict::Deny,
            }
        },
    }
}

/// Law: an action and the state that comes with it agree. The engine hands
/// out a query exactly when it goes on to await the outcome, and reports a
/// verdict exactly when it ends the attempt with that verdict.
pub proof fn lemma_action_matches_state(state: State, event: EventView)
    ensures
        spec_step(state, event).action is Query <==> spec_step(state, event).next is QueryInFlight,
        spec_step(state, event).action matches ActionView::Finish { verdict } ==> spec_step(
            state,
            event,
        ).next == (State::Finished { verdict }),
        spec_step(state, event).action is Query ==> state == State::Start && event is Attempt,
{
}

/// Once the first event has been handled, the engine hands out no query,
/// whatever happens.
proof fn lemma_settled_run_finishes(state: State, events: Seq<EventView>, i: int)
    requires
        state != State::Start,
        0 <= i < events.len(),
    ensures
        spec_run(state, events).len() == events.len(),
        spec_run(state, events)[i].action is Finish,
        spec_run(state, events)[i].next is Finished,
    decreases events.len(),
{
    lemma_run_length(state, events);
    let first = spec_step(state, events.first());
    lemma_action_matches_state(state, events.first());
    if i > 0 {
        lemma_run_length(first.next, events.drop_first());
        lemma_settled_run_finishes(first.next, events.drop_first(), i - 1);
    }
}

/// A run makes one move for each event.
pub proof fn lemma_run_length(state: State, events: Seq<EventView>)
    ensures
        spec_run(state, events).len() == events.len(),
    decreases events.len(),
{
    if events.len() > 0 {
        lemma_run_length(spec_step(state, events.first()).next, events.drop_first());
    }
}

/// Law: an attempt sends at most one query. Whatever events the caller feeds
/// to a fresh engine, only the first move can hand out a query; every later
/// move reports a verdict.
pub proof fn lemma_at_most_one_query(events: Seq<EventView>, i: int)
    requires
        1 <= i < events.len(),
    ensures
        spec_run(State::Start, events).len() == events.len(),
        spec_run(State::Start, events)[i].action is Finish,
{
    lemma_run_length(State::Start, events);
    let first = spec_step(State::Start, events.first());
    lemma_action_matches_state(State::Start, events.first());
    lemma_run_length(first.next, events.drop_first());
    lemma_settled_run_finishes(first.next, events.drop_first(), i - 1);
}

/// Law: where a required directive is missing, the attempt is denied and
/// the remote service is never asked.
pub proof fn lemma_missing_directive_denies(
    args: Seq<Seq<char>>,
    identity: Option<Seq<char>>,
    remote: spec_fn(Seq<char>) -> QueryOutcomeView,
)
    requires
        missing_required(args),
    ensures
        spec_step(State::Start, EventView::Attempt { args, identity }).action == (
        ActionView::Finish { verdict: Verdict::Deny }),
        spec_queries(args, identity).len() == 0,
        spec_attempt(args, identity, remote) == Verdict::Deny,
{
}

/// Law: directives that do not resolve, or a user that the host framework
/// cannot name, deny the attempt without a query.
pub proof fn lemma_failed_start_denies(
    args: Seq<Seq<char>>,
    identity: Option<Seq<char>>,
    remote: spec_fn(Seq<char>) -> QueryOutcomeView,
)
    requires
        spec_resolve(args) is Err || identity is None,
    ensures
        spec_begin(args, identity).action == (ActionView::Finish { verdict: Verdict::Deny }),
        spec_begin(args, identity).log is None,
        spec_queries(args, identity).len() == 0,
        spec_attempt(args, identity, remote) == Verdict::Deny,
{
}

/// Law: the user that the configuration exempts passes with `Ignore`, no
/// query is sent, and what the remote service would answer has no part in it.
pub proof fn lemma_exempt_user_is_ignored(
    args: Seq<Seq<char>>,
    config: ConfigView,
    user: Seq<char>,
    remote: spec_fn(Seq<char>) -> QueryOutcomeView,
)
    requires
        spec_resolve(args) == Ok::<ConfigView, AuthError>(config),
        config.no_2fa_user.len() > 0,
        user == config.no_2fa_user,
    ensures
        spec_begin(args, Some(user)).action == (ActionView::Finish { verdict: Verdict::Ignore }),
        spec_queries(args, Some(user)).len() == 0,
        spec_attempt(args, Some(user), remote) == Verdict::Ignore,
{
}

/// Law: for every user who is not exempt, the attempt sends exactly one
/// query and bounds the wait for its outcome. The query goes to the status
/// address of the configured host, and its receiver reads from it the user
/// as `id`, the configured service as `service` and the configured
/// credential as `authKey`. Whatever the outcome is, the next move ends the
/// attempt.
pub proof fn lemma_other_user_is_queried_once(
    args: Seq<Seq<char>>,
    config: ConfigView,
    user: Seq<char>,
    outcome: QueryOutcomeView,
)
    requires
        spec_resolve(args) == Ok::<ConfigView, AuthError>(config),
        !spec_is_exempt(config, user),
    ensures
        spec_begin(args, Some(user)).action == (ActionView::Query {
            url: spec_status_url(config.host, user, config.service, config.auth_key),
            timeout_secs: QUERY_TIMEOUT_SECS,
        }),
        spec_queries(args, Some(user)) == seq![
            spec_status_url(config.host, user, config.service, config.auth_key),
        ],
        spec_status_url(config.host, user, config.service, config.auth_key) == "https://"@
            + config.host + "/token/status?"@ + spec_query(user, config.service, config.auth_key),
        spec_parameters(spec_query(user, config.service, config.auth_key)) == seq![
            ("id"@, Some(vstd::utf8::encode_utf8(user))),
            ("service"@, Some(vstd::utf8::encode_utf8(config.service))),
            ("authKey"@, Some(vstd::utf8::encode_utf8(config.auth_key))),
        ],
        spec_step(
            spec_begin(args, Some(user)).next,
            EventView::Response { outcome },
        ).action is Finish,
{
    lemma_query_parameters(user, config.service, config.auth_key);
}

/// Law: a successful response whose status is one gives `Success`.
pub proof fn lemma_open_token_succeeds(debug: bool, http_status: u16, response: TokenStatusResponse)
    requires
        spec_is_success_status(http_status),
        response.status == 1,
    ensures
        spec_conclude(debug, QueryOutcomeView::Answered { http_status, response }).action == (
        ActionView::Finish { verdict: Verdict::Success }),
{
}

/// Law: a response whose status is anything but one gives `Deny`.
pub proof fn lemma_closed_token_denies(debug: bool, http_status: u16, response: TokenStatusResponse)
    requires
        response.status != 1,
    ensures
        spec_conclude(debug, QueryOutcomeView::Answered { http_status, response }).action == (
        ActionView::Finish { verdict: Verdict::Deny }),
{
}

/// Law: a query that failed gives `Deny`, and its diagnostic line is
/// written even where diagnostics are switched off. A query has failed
/// where no response came, where the body could not be decoded, and where
/// the HTTP status is no success.
pub proof fn lemma_failed_query_denies(debug: bool, outcome: QueryOutcomeView)
    requires
        outcome is TransportFailed || outcome is DecodeFailed || (outcome matches QueryOutcomeView::Answered {
            http_status,
            ..
        } && !spec_is_success_status(http_status)),
    ensures
        spec_classify(outcome) == Err::<TokenStatusResponse, AuthError>(
            AuthError::RemoteQueryFailed,
        ),
        spec_conclude(debug, outcome).action == (ActionView::Finish { verdict: Verdict::Deny }),
        spec_conclude(debug, outcome).log is Some,
{
}

/// Law: access is granted on positive confirmation only. An attempt ends in
/// `Success` only if it sent its query and the remote service answered it
/// with a successful HTTP status and the status one.
pub proof fn lemma_success_needs_open_token(
    args: Seq<Seq<char>>,
    identity: Option<Seq<char>>,
    remote: spec_fn(Seq<char>) -> QueryOutcomeView,
)
    requires
        spec_attempt(args, identity, remote) == Verdict::Success,
    ensures
        spec_queries(args, identity).len() == 1,
        remote(spec_queries(args, identity)[0]) matches QueryOutcomeView::Answered {
            http_status,
            response,
        } && spec_is_success_status(http_status) && response.status == 1,
{
}

/// Law: the bypass rule is the only way to `Ignore`. An attempt ends in
/// `Ignore` only if its directives resolve and exempt the user it is for.
pub proof fn lemma_ignore_needs_exemption(
    args: Seq<Seq<char>>,
    identity: Option<Seq<char>>,
    remote: spec_fn(Seq<char>) -> QueryOutcomeView,
)
    requires
        spec_attempt(args, identity, remote) == Verdict::Ignore,
    ensures
        spec_resolve(args) is Ok,
        identity is Some,
        spec_is_exempt(spec_resolve(args)->Ok_0, identity->0),
        spec_queries(args, identity).len() == 0,
{
}

/// Law: an attempt has no memory. Its verdict rests on the directives, the
/// user and the outcome of the queries it sends, so if the remote service
/// answers those as before, a repeated attempt ends as the first did.
pub proof fn lemma_repeated_attempt_agrees(
    args: Seq<Seq<char>>,
    identity: Option<Seq<char>>,
    before: spec_fn(Seq<char>) -> QueryOutcomeView,
    after: spec_fn(Seq<char>) -> QueryOutcomeView,
)
    requires
        forall|i: int|
            0 <= i < spec_queries(args, identity).len() ==> before(
                #[trigger] spec_queries(args, identity)[i],
            ) == after(spec_queries(args, identity)[i]),
    ensures
        spec_attempt(args, identity, before) == spec_attempt(args, identity, after),
{
    if spec_begin(args, identity).action is Query {
        assert(before(spec_queries(args, identity)[0]) == after(spec_queries(args, identity)[0]));
    }
}

} // verus!
