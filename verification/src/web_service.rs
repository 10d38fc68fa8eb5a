//! What a request is answered with, and the steps of the poll behind an
//! answer with metrics.

use vstd::prelude::*;
use vstd::string::*;
use crate::api_communication::{AccessTokenError, AccessTokenErrorView};
use crate::site24x7_types::{
    CurrentStatusData, CurrentStatusError, CurrentStatusErrorView, CurrentStatusView,
};
use crate::text::{join, text_eq};

verus! {

/// What a request is answered with.
#[derive(Clone, Copy, Debug, PartialEq, Eq, Structural)]
pub enum Route {
    /// The coordinates of the service's locations.
    Geolocation,
    /// A page that points to the metrics.
    Default,
    /// The metrics, after a poll.
    Metrics,
}

/// The answer to a request by its method and path: the geolocation table
/// for a GET of its path, the metrics for a GET of theirs, else the default
/// page.
pub open spec fn route_of(
    is_get: bool,
    path: Seq<char>,
    metrics_path: Seq<char>,
    geolocation_path: Seq<char>,
) -> Route {
    if is_get && path == geolocation_path {
        Route::Geolocation
    } else if !is_get || path != metrics_path {
        Route::Default
    } else {
        Route::Metrics
    }
}

/// Chooses the answer to a request from its method and path. The
/// geolocation path is looked at first.
pub fn route(is_get: bool, path: &str, metrics_path: &str, geolocation_path: &str) -> (r: Route)
    ensures
        r == route_of(is_get, path@, metrics_path@, geolocation_path@),
{
    if is_get && text_eq(path, geolocation_path) {
        Route::Geolocation
    } else if !is_get || !text_eq(path, metrics_path) {
        Route::Default
    } else {
        Route::Metrics
    }
}

/// The page that points to the metrics.
pub fn default_page(metrics_path: &str) -> (r: String)
    ensures
        r@ == "site24x7_exporter\n\nTry "@ + metrics_path@,
{
    join("site24x7_exporter\n\nTry ", metrics_path)
}

/// Where a poll stands.
#[derive(Clone, Copy, Debug, PartialEq, Eq, Structural)]
pub enum PollState {
    /// The status was requested with the credential at hand.
    Fetching,
    /// The service refused the credential, and a new one was requested.
    Refreshing,
    /// The status was requested again, with the new credential.
    Retrying,
    /// The poll has ended.
    Finished,
}

impl PollState {
    /// How many more requests a poll in this state can make at most.
    pub open spec fn requests_left(self) -> nat {
        match self {
            PollState::Fetching => 2,
            PollState::Refreshing => 1,
            PollState::Retrying => 0,
            PollState::Finished => 0,
        }
    }
}

/// What came back from the request that a poll was waiting for.
#[derive(Debug, PartialEq)]
pub enum PollEvent {
    /// The outcome of a status request.
    Fetched(Result<CurrentStatusData, CurrentStatusError>),
    /// The outcome of a request for a new credential.
    Refreshed(Result<String, AccessTokenError>),
}

/// The mathematical value of a [`PollEvent`].
pub enum PollEventView {
    Fetched(Result<CurrentStatusView, CurrentStatusErrorView>),
    Refreshed(Result<Seq<char>, AccessTokenErrorView>),
}

/// The mathematical value of the outcome of a status request.
pub open spec fn status_result_view(r: Result<CurrentStatusData, CurrentStatusError>) -> Result<
    CurrentStatusView,
    CurrentStatusErrorView,
> {
    match r {
        Ok(data) => Ok(data@),
        Err(e) => Err(e@),
    }
}

impl View for PollEvent {
    type V = PollEventView;

    open spec fn view(&self) -> PollEventView {
        match *self {
            PollEvent::Fetched(r) => PollEventView::Fetched(status_result_view(r)),
            PollEvent::Refreshed(r) => PollEventView::Refreshed(
                match r {
                    Ok(token) => Ok(token@),
                    Err(e) => Err(e@),
                },
            ),
        }
    }
}

/// What a poll does next.
#[derive(Debug, PartialEq)]
pub enum PollAction {
    /// Ask for a new credential.
    Refresh,
    /// Keep the new credential, and request the status again with it.
    Retry(String),
    /// End the poll with this outcome.
    Finish(Result<CurrentStatusData, CurrentStatusError>),
}

/// The mathematical value of a [`PollAction`].
pub enum PollActionView {
    Refresh,
    Retry(Seq<char>),
    Finish(Result<CurrentStatusView, CurrentStatusErrorView>),
}

impl View for PollAction {
    type V = PollActionView;

    open spec fn view(&self) -> PollActionView {
        match *self {
            PollAction::Refresh => PollActionView::Refresh,
            PollAction::Retry(token) => PollActionView::Retry(token@),
            PollAction::Finish(r) => PollActionView::Finish(status_result_view(r)),
        }
    }
}

/// The outcome of a poll that was handed something it was not waiting for.
pub open spec fn out_of_turn() -> Result<CurrentStatusView, CurrentStatusErrorView> {
    Err(CurrentStatusErrorView::Other("The poll was handed an answer it was not waiting for."@))
}

/// The next state and action of a poll. While fetching, a report ends the
/// poll, a refused credential asks for a new one, and any other error ends
/// the poll. While refreshing, a new credential is kept and the status
/// requested again; a failure ends the poll with the failure in words.
/// While retrying, whatever comes back ends the poll.
pub open spec fn poll_next(state: PollState, event: PollEventView) -> (PollState, PollActionView) {
    match (state, event) {
        (
            PollState::Fetching,
            PollEventView::Fetched(Err(CurrentStatusErrorView::ApiAuthError(_))),
        ) => (PollState::Refreshing, PollActionView::Refresh),
        (PollState::Fetching, PollEventView::Fetched(outcome)) => (
            PollState::Finished,
            PollActionView::Finish(outcome),
        ),
        (PollState::Refreshing, PollEventView::Refreshed(Ok(token))) => (
            PollState::Retrying,
            PollActionView::Retry(token),
        ),
        (PollState::Refreshing, PollEventView::Refreshed(Err(e))) => (
            PollState::Finished,
            PollActionView::Finish(Err(CurrentStatusErrorView::Other(e.message()))),
        ),
        (PollState::Retrying, PollEventView::Fetched(outcome)) => (
            PollState::Finished,
            PollActionView::Finish(outcome),
        ),
        _ => (PollState::Finished, PollActionView::Finish(out_of_turn())),
    }
}

/// The state in which a poll starts: the status has been requested with
/// the credential at hand.
pub fn poll_start() -> (r: PollState)
    ensures
        r == PollState::Fetching,
{
    PollState::Fetching
}

/// Decides what a poll does with what came back.
pub fn poll_step(state: PollState, event: PollEvent) -> (r: (PollState, PollAction))
    ensures
        (r.0, r.1@) == poll_next(state, event@),
        r.1@ is Finish <==> r.0 == PollState::Finished,
        r.0 != PollState::Finished ==> r.0.requests_left() < state.requests_left(),
{
    match state {
        PollState::Fetching => match event {
            PollEvent::Fetched(Err(CurrentStatusError::ApiAuthError(_))) => (
                PollState::Refreshing,
                PollAction::Refresh,
            ),
            PollEvent::Fetched(outcome) => (PollState::Finished, PollAction::Finish(outcome)),
            PollEvent::Refreshed(_) => (PollState::Finished, PollAction::Finish(refuse())),
        },
        PollState::Refreshing => match event {
            PollEvent::Refreshed(Ok(token)) => (PollState::Retrying, PollAction::Retry(token)),
            PollEvent::Refreshed(Err(e)) => (
                PollState::Finished,
                PollAction::Finish(Err(CurrentStatusError::Other(e.to_string()))),
            ),
            PollEvent::Fetched(_) => (PollState::Finished, PollAction::Finish(refuse())),
        },
        PollState::Retrying => match event {
            PollEvent::Fetched(outcome) => (PollState::Finished, PollAction::Finish(outcome)),
            PollEvent::Refreshed(_) => (PollState::Finished, PollAction::Finish(refuse())),
        },
        PollState::Finished => (PollState::Finished, PollAction::Finish(refuse())),
    }
}

fn refuse() -> (r: Result<CurrentStatusData, CurrentStatusError>)
    ensures
        status_result_view(r) == out_of_turn(),
{
    Err(
        CurrentStatusError::Other(
            String::from_str("The poll was handed an answer it was not waiting for."),
        ),
    )
}

/// A refused credential is renewed once and the status requested once
/// more: from the start, a refusal of the credential asks for a new one; the
/// new one is kept and the status requested again; and whatever comes back
/// from that request, a report or any error, is the outcome of the poll.
pub proof fn law_auth_retry(
    refusal: Seq<char>,
    token: Seq<char>,
    second: Result<CurrentStatusView, CurrentStatusErrorView>,
)
    ensures
        poll_next(
            PollState::Fetching,
            PollEventView::Fetched(Err(CurrentStatusErrorView::ApiAuthError(refusal))),
        ) == (PollState::Refreshing, PollActionView::Refresh),
        poll_next(PollState::Refreshing, PollEventView::Refreshed(Ok(token))) == (
            PollState::Retrying,
            PollActionView::Retry(token),
        ),
        poll_next(PollState::Retrying, PollEventView::Fetched(second)) == (
            PollState::Finished,
            PollActionView::Finish(second),
        ),
{
}

/// Nothing but a refused credential is renewed or retried: a report, or any
/// other error, from the first request is the outcome of the poll.
pub proof fn law_no_retry_without_refusal(first: Result<CurrentStatusView, CurrentStatusErrorView>)
    requires
        !(first is Err && first->Err_0 is ApiAuthError),
    ensures
        poll_next(PollState::Fetching, PollEventView::Fetched(first)) == (
            PollState::Finished,
            PollActionView::Finish(first),
        ),
{
}

/// A failed renewal ends the poll: there is no second attempt.
pub proof fn law_failed_renewal_ends_poll(failure: AccessTokenErrorView)
    ensures
        poll_next(PollState::Refreshing, PollEventView::Refreshed(Err(failure))) == (
            PollState::Finished,
            PollActionView::Finish(Err(CurrentStatusErrorView::Other(failure.message()))),
        ),
{
}

/// A poll makes at most two more requests after the first, and each step
/// that does not end it uses one up.
pub proof fn law_poll_is_bounded(state: PollState, event: PollEventView)
    ensures
        poll_next(state, event).1 is Finish <==> poll_next(state, event).0 == PollState::Finished,
        poll_next(state, event).0 != PollState::Finished ==> poll_next(
            state,
            event,
        ).0.requests_left() < state.requests_left(),
        state.requests_left() <= 2,
{
}

/// The outcome of a poll by what its requests bring: `first` from the status
/// request, `renewed` from the request for a new credential, `second` from
/// the status request that follows it. What the later requests bring counts
/// only where the poll makes them.
pub open spec fn poll_outcome(
    first: Result<CurrentStatusView, CurrentStatusErrorView>,
    renewed: Result<Seq<char>, AccessTokenErrorView>,
    second: Result<CurrentStatusView, CurrentStatusErrorView>,
) -> Result<CurrentStatusView, CurrentStatusErrorView> {
    match first {
        Err(CurrentStatusErrorView::ApiAuthError(_)) => match renewed {
            Ok(_) => second,
            Err(e) => Err(CurrentStatusErrorView::Other(e.message())),
        },
        _ => first,
    }
}

/// A poll that is handed what its requests bring, step by step, ends with
/// [`poll_outcome`]: after the first answer, or after the renewal failed,
/// or after the second answer, and never later.
pub proof fn law_poll_ends_with_outcome(
    first: Result<CurrentStatusView, CurrentStatusErrorView>,
    renewed: Result<Seq<char>, AccessTokenErrorView>,
    second: Result<CurrentStatusView, CurrentStatusErrorView>,
)
    ensures
        ({
            let outcome = PollActionView::Finish(poll_outcome(first, renewed, second));
            let one = poll_next(PollState::Fetching, PollEventView::Fetched(first));
            let two = poll_next(one.0, PollEventView::Refreshed(renewed));
            let three = poll_next(two.0, PollEventView::Fetched(second));
            if one.1 is Finish {
                one.1 == outcome
            } else if two.1 is Finish {
                one.1 is Refresh && two.1 == outcome
            } else {
                one.1 is Refresh && two.1 is Retry && two.1->Retry_0 == renewed->Ok_0 && three.1
                    == outcome
            }
        }),
{
}

} // verus!
