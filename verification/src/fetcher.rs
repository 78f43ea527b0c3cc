//! Retry policy for upstream GETs. One request gets up to three attempts
//! (the first try plus two retries, spaced 200 ms apart). A success-class
//! or immediately-returnable status ends the request; any other status
//! triggers a session refresh before the retry; a transport failure is
//! retried without a refresh. Exhausted retries surface as a client error
//! for bad statuses and as the transport error itself for transport
//! failures. The network calls and the waiting live with the caller: this
//! module is the decision function they consult after every attempt, and
//! a driver that runs the policy over a scripted sequence of outcomes.
use vstd::prelude::*;

verus! {

/// Milliseconds between two attempts of the same request.
pub const RETRY_SPACING_MS: u64 = 200;

/// Total attempts allowed per request: the first try and two retries.
pub const MAX_ATTEMPTS: u8 = 3;

/// What one attempt produced: an HTTP status, or a transport-level
/// failure (connection, DNS, timeout).
#[derive(Clone, Copy, Debug, PartialEq, Eq, Structural)]
pub enum FetchOutcome {
    Status(u16),
    Transport,
}

/// What the caller must do after an attempt.
#[derive(Clone, Copy, Debug, PartialEq, Eq, Structural)]
pub enum FetchStep {
    /// Hand the response to the caller: success class, or a status the
    /// caller interprets itself (bad request / forbidden).
    Done,
    /// Refresh the upstream session, wait the spacing, try again.
    RefreshAndRetry,
    /// Wait the spacing and try again without a refresh.
    RetryOnly,
    /// Retries exhausted on a bad status: report a client error.
    FailClient,
    /// Retries exhausted on transport failures: propagate the transport
    /// error itself.
    FailTransport,
}

/// How a whole request ends.
#[derive(Clone, Copy, Debug, PartialEq, Eq, Structural)]
pub enum FetchResult {
    Success(u16),
    ClientError,
    TransportError,
}

/// One finished request: its result, how many attempts it took, and how
/// many session refreshes it triggered.
#[derive(Clone, Copy, Debug, PartialEq, Eq, Structural)]
pub struct FetchRun {
    pub result: FetchResult,
    pub attempts: u8,
    pub refreshes: u8,
}

/// Statuses returned to the caller without a retry: the success class,
/// plus bad-request and forbidden, which the caller interprets itself.
pub open spec fn returnable(status: u16) -> bool {
    200 <= status <= 299 || status == 400 || status == 403
}

/// The policy's decision after attempt number `attempt` (0-based) came
/// back with `outcome`.
pub open spec fn spec_decide(attempt: int, outcome: FetchOutcome) -> FetchStep {
    match outcome {
        FetchOutcome::Status(status) => {
            if returnable(status) {
                FetchStep::Done
            } else if attempt + 1 >= MAX_ATTEMPTS {
                FetchStep::FailClient
            } else {
                FetchStep::RefreshAndRetry
            }
        },
        FetchOutcome::Transport => {
            if attempt + 1 >= MAX_ATTEMPTS {
                FetchStep::FailTransport
            } else {
                FetchStep::RetryOnly
            }
        },
    }
}

/// Decide what to do after attempt number `attempt` (0-based) produced
/// `outcome`.
pub fn decide(attempt: u8, outcome: &FetchOutcome) -> (step: FetchStep)
    requires
        attempt < MAX_ATTEMPTS,
    ensures
        step == spec_decide(attempt as int, *outcome),
{
    match outcome {
        FetchOutcome::Status(status) => {
            let status = *status;
            if (200 <= status && status <= 299) || status == 400 || status == 403 {
                FetchStep::Done
            } else if attempt + 1 >= MAX_ATTEMPTS as u8 {
                FetchStep::FailClient
            } else {
                FetchStep::RefreshAndRetry
            }
        },
        FetchOutcome::Transport => {
            if attempt + 1 >= MAX_ATTEMPTS as u8 {
                FetchStep::FailTransport
            } else {
                FetchStep::RetryOnly
            }
        },
    }
}

/// How a request ends when its attempts produce `outcomes[attempt..]`,
/// having already made `attempt` attempts and `refreshes` refreshes.
pub open spec fn spec_run_from(outcomes: Seq<FetchOutcome>, attempt: nat, refreshes: nat) -> FetchRun
    decreases MAX_ATTEMPTS - attempt,
{
    if !(attempt < MAX_ATTEMPTS <= outcomes.len()) {
        FetchRun { result: FetchResult::ClientError, attempts: attempt as u8, refreshes: refreshes as u8 }
    } else {
        let outcome = outcomes[attempt as int];
        match spec_decide(attempt as int, outcome) {
            FetchStep::Done => FetchRun {
                result: FetchResult::Success(outcome->Status_0),
                attempts: (attempt + 1) as u8,
                refreshes: refreshes as u8,
            },
            FetchStep::FailClient => FetchRun {
                result: FetchResult::ClientError,
                attempts: (attempt + 1) as u8,
                refreshes: refreshes as u8,
            },
            FetchStep::FailTransport => FetchRun {
                result: FetchResult::TransportError,
                attempts: (attempt + 1) as u8,
                refreshes: refreshes as u8,
            },
            FetchStep::RefreshAndRetry => spec_run_from(outcomes, attempt + 1, refreshes + 1),
            FetchStep::RetryOnly => spec_run_from(outcomes, attempt + 1, refreshes),
        }
    }
}

/// How a request ends when attempt `k` produces `outcomes[k]`.
pub open spec fn spec_run(outcomes: Seq<FetchOutcome>) -> FetchRun {
    spec_run_from(outcomes, 0, 0)
}

/// Run the whole policy over a scripted sequence of attempt outcomes:
/// what a session would do if its attempts came back exactly so. Never
/// makes more than `MAX_ATTEMPTS` attempts.
pub fn run_fetch(outcomes: &Vec<FetchOutcome>) -> (run: FetchRun)
    requires
        outcomes@.len() >= MAX_ATTEMPTS,
    ensures
        run == spec_run(outcomes@),
        run.attempts <= MAX_ATTEMPTS,
        run.refreshes < MAX_ATTEMPTS,
{
    let mut attempt: u8 = 0;
    let mut refreshes: u8 = 0;
    loop
        invariant
            attempt < MAX_ATTEMPTS <= outcomes@.len(),
            refreshes <= attempt,
            spec_run(outcomes@) == spec_run_from(outcomes@, attempt as nat, refreshes as nat),
        decreases MAX_ATTEMPTS - attempt,
    {
        let outcome = &outcomes[attempt as usize];
        match decide(attempt, outcome) {
            FetchStep::Done => {
                let status = match outcome {
                    FetchOutcome::Status(s) => *s,
                    FetchOutcome::Transport => 0,
                };
                return FetchRun {
                    result: FetchResult::Success(status),
                    attempts: attempt + 1,
                    refreshes,
                };
            },
            FetchStep::FailClient => {
                return FetchRun {
                    result: FetchResult::ClientError,
                    attempts: attempt + 1,
                    refreshes,
                };
            },
            FetchStep::FailTransport => {
                return FetchRun {
                    result: FetchResult::TransportError,
                    attempts: attempt + 1,
                    refreshes,
                };
            },
            FetchStep::RefreshAndRetry => {
                refreshes += 1;
                attempt += 1;
            },
            FetchStep::RetryOnly => {
                attempt += 1;
            },
        }
    }
}

} // verus!
