//! Requests to a swarm go to its manager servers in turn until one
//! answers; this module decides, attempt by attempt, what happens.
use vstd::prelude::*;

verus! {

/// What happened when one manager server was tried.
#[derive(Debug)]
pub enum ManagerAttempt<R> {
    /// The server's status is not `Ok`: it is not connected.
    NotConnected,
    /// The server could not be found; the error's text.
    ServerLookupFailed(String),
    /// No client to the server could be had; this leaves no error.
    ClientUnavailable,
    /// The server answered with an error; the error's text.
    RequestFailed(String),
    /// The server answered.
    Answered(R),
}

/// The error kept from the attempts so far.
#[derive(Debug)]
pub enum SwarmRequestError {
    /// No manager was connected.
    NoManagersConnected,
    /// A server lookup or a request failed, with the error's text.
    Failed(String),
    /// No attempt left an error.
    Unknown,
}

impl SwarmRequestError {
    /// The cause the error reports.
    pub open spec fn spec_cause(self) -> Seq<char> {
        match self {
            SwarmRequestError::NoManagersConnected => "No managers connected"@,
            SwarmRequestError::Failed(e) => e@,
            SwarmRequestError::Unknown => "Unknown error"@,
        }
    }

    /// The message of a failed swarm request: its context, then its
    /// cause, separated by `: `.
    pub fn message(&self) -> (m: String)
        ensures
            m@ == "Failed to request from Swarm: "@ + self.spec_cause(),
    {
        let cause: &str = match self {
            SwarmRequestError::NoManagersConnected => "No managers connected",
            SwarmRequestError::Failed(e) => e.as_str(),
            SwarmRequestError::Unknown => "Unknown error",
        };
        "Failed to request from Swarm: ".to_owned().concat(cause)
    }
}

/// The state of a swarm request between attempts: the last error seen.
#[derive(Debug)]
pub struct SwarmRequestState {
    pub last_error: Option<SwarmRequestError>,
}

/// The next step after an attempt.
#[derive(Debug)]
pub enum SwarmRequestStep<R> {
    /// A manager answered: the request succeeded.
    Done(R),
    /// Try the next manager.
    Continue,
}

/// The last error after an attempt: a missing connection, a failed
/// lookup or a failed request replaces it; an unavailable client keeps it.
pub open spec fn error_after<R>(last: Option<SwarmRequestError>, attempt: ManagerAttempt<R>) -> Option<
    SwarmRequestError,
> {
    match attempt {
        ManagerAttempt::NotConnected => Some(SwarmRequestError::NoManagersConnected),
        ManagerAttempt::ServerLookupFailed(e) => Some(SwarmRequestError::Failed(e)),
        ManagerAttempt::RequestFailed(e) => Some(SwarmRequestError::Failed(e)),
        _ => last,
    }
}

/// Takes in the outcome of one attempt: an answer ends the request,
/// anything else records its error (if any) and moves to the next manager.
pub fn swarm_request_step<R>(state: &mut SwarmRequestState, attempt: ManagerAttempt<R>) -> (step:
    SwarmRequestStep<R>)
    ensures
        attempt matches ManagerAttempt::Answered(r) ==> (step matches SwarmRequestStep::Done(x) && x == r)
            && final(state).last_error == old(state).last_error,
        !(attempt is Answered) ==> step is Continue && final(state).last_error == error_after(
            old(state).last_error,
            attempt,
        ),
{
    match attempt {
        ManagerAttempt::Answered(r) => SwarmRequestStep::Done(r),
        ManagerAttempt::NotConnected => {
            state.last_error = Some(SwarmRequestError::NoManagersConnected);
            SwarmRequestStep::Continue
        },
        ManagerAttempt::ServerLookupFailed(e) => {
            state.last_error = Some(SwarmRequestError::Failed(e));
            SwarmRequestStep::Continue
        },
        ManagerAttempt::RequestFailed(e) => {
            state.last_error = Some(SwarmRequestError::Failed(e));
            SwarmRequestStep::Continue
        },
        ManagerAttempt::ClientUnavailable => SwarmRequestStep::Continue,
    }
}

/// The error of a request no manager answered: the last error seen,
/// or an unknown error when there was none.
pub fn swarm_request_failure(state: SwarmRequestState) -> (e: SwarmRequestError)
    ensures
        e == match state.last_error {
            Some(e) => e,
            None => SwarmRequestError::Unknown,
        },
{
    match state.last_error {
        Some(e) => e,
        None => SwarmRequestError::Unknown,
    }
}

/// The error left after a run of attempts none of which answered.
pub open spec fn error_after_all<R>(last: Option<SwarmRequestError>, attempts: Seq<ManagerAttempt<R>>) -> Option<
    SwarmRequestError,
>
    decreases attempts.len(),
{
    if attempts.len() == 0 {
        last
    } else {
        error_after(error_after_all(last, attempts.drop_last()), attempts.last())
    }
}

/// With no manager configured, or only managers whose client is
/// unavailable, no error is recorded: the request then fails with an
/// unknown error.
pub proof fn law_unanswered_request_error<R>(attempts: Seq<ManagerAttempt<R>>)
    requires
        forall|i: int| 0 <= i < attempts.len() ==> #[trigger] attempts[i] is ClientUnavailable,
    ensures
        error_after_all(None, attempts) is None,
    decreases attempts.len(),
{
    if attempts.len() > 0 {
        assert forall|i: int| 0 <= i < attempts.drop_last().len() implies #[trigger] attempts.drop_last()[i]
            is ClientUnavailable by {
            assert(attempts.drop_last()[i] == attempts[i]);
        }
        law_unanswered_request_error(attempts.drop_last());
        assert(attempts[attempts.len() - 1] is ClientUnavailable);
    }
}

} // verus!
