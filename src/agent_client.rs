//! Decisions of the host side of the guest agent protocol: which response
//! ends a request, and how long to keep trying.
use vstd::prelude::*;
use crate::error::VmError;
use crate::probes::Response;

verus! {

/// The kind of response a request waits for.
#[derive(Debug, Clone, Copy, PartialEq, Eq, Structural)]
pub enum ExpectedResponse {
    Pong,
    ProbeResult,
    AllResults,
}

impl ExpectedResponse {
    /// Whether `response` is of the awaited kind.
    pub fn matches(self, response: &Response) -> (r: bool)
        ensures
            r == match self {
                ExpectedResponse::Pong => response is Pong,
                ExpectedResponse::ProbeResult => response is ProbeResult,
                ExpectedResponse::AllResults => response is AllResults,
            },
    {
        match self {
            ExpectedResponse::Pong => matches!(response, Response::Pong { .. }),
            ExpectedResponse::ProbeResult => matches!(response, Response::ProbeResult { .. }),
            ExpectedResponse::AllResults => matches!(response, Response::AllResults { .. }),
        }
    }
}

/// What a response line means to a request waiting for `expected`.
#[derive(Debug)]
pub enum ResponseDecision {
    /// The request failed with the agent's message.
    Failed(VmError),
    /// This is the response.
    Done(Response),
    /// Keep reading.
    Skip,
}

/// An error response fails the request; one of the awaited kind ends it; any
/// other is skipped.
pub fn decide_response(expected: ExpectedResponse, response: Response) -> (r: ResponseDecision)
    ensures
        match response {
            Response::Error { message } => r matches ResponseDecision::Failed(VmError::Serial(m))
                && m@ == message@,
            _ => if expected.matches_spec(response) {
                r matches ResponseDecision::Done(d) && d == response
            } else {
                r is Skip
            },
        },
{
    match response {
        Response::Error { message } => ResponseDecision::Failed(VmError::Serial(message)),
        other => if expected.matches(&other) {
            ResponseDecision::Done(other)
        } else {
            ResponseDecision::Skip
        },
    }
}

impl ExpectedResponse {
    pub open spec fn matches_spec(self, response: Response) -> bool {
        match self {
            ExpectedResponse::Pong => response is Pong,
            ExpectedResponse::ProbeResult => response is ProbeResult,
            ExpectedResponse::AllResults => response is AllResults,
        }
    }
}

/// Attempts to reach a guest's agent before giving up.
pub const AGENT_WAIT_ATTEMPTS: u32 = 60;

/// Seconds between two attempts to reach a guest's agent.
pub const AGENT_RETRY_SECS: u64 = 5;

/// Seconds a guest's agent may take to answer at all.
pub const AGENT_READY_TIMEOUT_SECS: u64 = 600;

/// Seconds a request may wait for its response.
pub const AGENT_RESPONSE_TIMEOUT_SECS: u64 = 30;

/// Rounds of boot-probe checks before giving up.
pub const BOOT_PROBE_ROUNDS: u32 = 60;

/// Whether another attempt follows attempt `attempt` (counted from 0) of at
/// most `max`.
pub fn retry_after(attempt: u32, max: u32) -> (r: bool)
    ensures
        r == (attempt + 1 < max),
{
    attempt < max && max - attempt > 1
}

/// The error when a guest's agent never answered.
pub fn agent_timeout(vm: &str) -> (r: VmError)
    ensures
        r matches VmError::Timeout(m) && m@ == "Agent timeout on "@ + vm@,
{
    let mut m = String::from_str("Agent timeout on ");
    crate::text::push_str(&mut m, vm);
    VmError::Timeout(m)
}

} // verus!

verus! {

/// What to do after one round of waiting for readiness.
#[derive(Debug, Clone, Copy, PartialEq, Eq, Structural)]
pub enum WaitStep {
    /// Ready: stop waiting.
    Done,
    /// Sleep, then try again.
    Retry,
    /// Out of attempts.
    TimedOut,
}

/// After boot-probe round `round` (from 0): done when the scenario has no boot
/// probe or all of them pass; else another round follows while fewer than
/// `BOOT_PROBE_ROUNDS` were run; else the wait times out.
pub fn boot_probe_step(boot_probe_count: usize, round: u32, all_passing: bool) -> (r: WaitStep)
    ensures
        r == if boot_probe_count == 0 || all_passing {
            WaitStep::Done
        } else if round + 1 < BOOT_PROBE_ROUNDS {
            WaitStep::Retry
        } else {
            WaitStep::TimedOut
        },
{
    if boot_probe_count == 0 || all_passing {
        WaitStep::Done
    } else if retry_after(round, BOOT_PROBE_ROUNDS) {
        WaitStep::Retry
    } else {
        WaitStep::TimedOut
    }
}

/// After attempt `attempt` (from 0) to reach a guest's agent: done when it
/// answered; else another attempt follows while fewer than
/// `AGENT_WAIT_ATTEMPTS` were made; else the wait times out.
pub fn agent_wait_step(attempt: u32, answered: bool) -> (r: WaitStep)
    ensures
        r == if answered {
            WaitStep::Done
        } else if attempt + 1 < AGENT_WAIT_ATTEMPTS {
            WaitStep::Retry
        } else {
            WaitStep::TimedOut
        },
{
    if answered {
        WaitStep::Done
    } else if retry_after(attempt, AGENT_WAIT_ATTEMPTS) {
        WaitStep::Retry
    } else {
        WaitStep::TimedOut
    }
}

/// The error when boot probes never all passed.
pub fn boot_probe_timeout() -> (r: VmError)
    ensures
        r matches VmError::Timeout(m) && m@ == "Boot probes did not pass in time"@,
{
    VmError::Timeout(String::from_str("Boot probes did not pass in time"))
}

} // verus!
