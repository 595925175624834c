use vstd::prelude::*;

verus! {

/// What became of one attempt to forward a query to an upstream server.
#[derive(Debug, Clone, Copy, PartialEq, Eq, Structural)]
pub enum UpstreamOutcome {
    /// No local socket could be bound for the attempt.
    BindFailed,
    /// The upstream did not answer in time.
    TimedOut,
    /// Sending the query or receiving the answer failed.
    ExchangeFailed,
    /// The upstream answered.
    Answered,
}

/// How a forwarder treats the outcomes of its attempts.
#[derive(Debug, Clone, Copy, PartialEq, Eq, Structural)]
pub enum ForwardRule {
    /// The daemon's proxy: an upstream that times out is passed over, any other
    /// failure ends the dispatch, and none left is an error.
    SkipTimeouts,
    /// The proxy hijacker: every failure ends the dispatch, and none left is an error.
    StopOnFailure,
    /// The plain server: a failed exchange is passed over, a timeout or a
    /// failed bind ends the dispatch, and none left gives an empty answer.
    SkipFailedExchanges,
}

/// Why a dispatch failed.
#[derive(Debug, Clone, Copy, PartialEq, Eq, Structural)]
pub enum ForwardError {
    Bind,
    Timeout,
    Exchange,
    NoUpstream,
}

/// The forwarder's next move.
#[derive(Debug, Clone, Copy, PartialEq, Eq, Structural)]
pub enum ForwardStep {
    /// Send the query to the upstream at this position.
    Query(usize),
    /// Send the upstream's answer back to the client.
    Deliver,
    /// Send an empty answer back.
    DeliverEmpty,
    /// Give up with this error.
    Fail(ForwardError),
}

/// The move once every upstream has been tried without an answer.
pub open spec fn exhausted(rule: ForwardRule) -> ForwardStep {
    match rule {
        ForwardRule::SkipFailedExchanges => ForwardStep::DeliverEmpty,
        _ => ForwardStep::Fail(ForwardError::NoUpstream),
    }
}

/// The move that follows `outcome` of the attempt on upstream `i` of `n`.
pub open spec fn step_after(rule: ForwardRule, i: usize, n: usize, outcome: UpstreamOutcome) -> ForwardStep {
    let next = if i + 1 < n {
        ForwardStep::Query((i + 1) as usize)
    } else {
        exhausted(rule)
    };
    match outcome {
        UpstreamOutcome::Answered => ForwardStep::Deliver,
        UpstreamOutcome::BindFailed => ForwardStep::Fail(ForwardError::Bind),
        UpstreamOutcome::TimedOut => if rule == ForwardRule::SkipTimeouts {
            next
        } else {
            ForwardStep::Fail(ForwardError::Timeout)
        },
        UpstreamOutcome::ExchangeFailed => if rule == ForwardRule::SkipFailedExchanges {
            next
        } else {
            ForwardStep::Fail(ForwardError::Exchange)
        },
    }
}

/// The move once every upstream has been tried without an answer.
fn when_exhausted(rule: ForwardRule) -> (s: ForwardStep)
    ensures
        s == exhausted(rule),
{
    match rule {
        ForwardRule::SkipFailedExchanges => ForwardStep::DeliverEmpty,
        _ => ForwardStep::Fail(ForwardError::NoUpstream),
    }
}

/// The first move of a dispatch over `n` upstreams.
pub fn first_step(rule: ForwardRule, n: usize) -> (s: ForwardStep)
    ensures
        s == (if n > 0 {
            ForwardStep::Query(0)
        } else {
            exhausted(rule)
        }),
{
    if n > 0 {
        ForwardStep::Query(0)
    } else {
        when_exhausted(rule)
    }
}

/// The move that follows `outcome` of the attempt on upstream `i` of `n`.
pub fn next_step(rule: ForwardRule, i: usize, n: usize, outcome: UpstreamOutcome) -> (s: ForwardStep)
    requires
        i < n,
    ensures
        s == step_after(rule, i, n, outcome),
{
    match outcome {
        UpstreamOutcome::Answered => {
            return ForwardStep::Deliver;
        },
        UpstreamOutcome::BindFailed => {
            return ForwardStep::Fail(ForwardError::Bind);
        },
        UpstreamOutcome::TimedOut => {
            if rule != ForwardRule::SkipTimeouts {
                return ForwardStep::Fail(ForwardError::Timeout);
            }
        },
        UpstreamOutcome::ExchangeFailed => {
            if rule != ForwardRule::SkipFailedExchanges {
                return ForwardStep::Fail(ForwardError::Exchange);
            }
        },
    }
    if i + 1 < n {
        ForwardStep::Query(i + 1)
    } else {
        when_exhausted(rule)
    }
}

/// A failed bind ends every dispatch with the bind error; the only failure
/// that moves on to the next upstream is the one the rule passes over (a
/// timeout for the daemon's proxy, a failed exchange for the plain server),
/// and the hijacker passes over none.
pub proof fn law_only_the_named_failure_is_passed_over(
    rule: ForwardRule,
    i: usize,
    n: usize,
    outcome: UpstreamOutcome,
)
    requires
        i < n,
    ensures
        step_after(rule, i, n, UpstreamOutcome::BindFailed) == ForwardStep::Fail(ForwardError::Bind),
        step_after(rule, i, n, outcome) is Query ==> (rule == ForwardRule::SkipTimeouts && outcome
            == UpstreamOutcome::TimedOut) || (rule == ForwardRule::SkipFailedExchanges && outcome
            == UpstreamOutcome::ExchangeFailed),
        rule == ForwardRule::StopOnFailure ==> !(step_after(rule, i, n, outcome) is Query),
        outcome == UpstreamOutcome::TimedOut && rule != ForwardRule::SkipTimeouts ==> step_after(
            rule,
            i,
            n,
            outcome,
        ) == ForwardStep::Fail(ForwardError::Timeout),
        outcome == UpstreamOutcome::ExchangeFailed && rule != ForwardRule::SkipFailedExchanges
            ==> step_after(rule, i, n, outcome) == ForwardStep::Fail(ForwardError::Exchange),
{
}

/// Upstreams are tried one after the other, in their order, never past the
/// last one; an answer is always delivered.
pub proof fn law_upstreams_in_order(rule: ForwardRule, i: usize, n: usize, outcome: UpstreamOutcome)
    requires
        i < n,
    ensures
        step_after(rule, i, n, outcome) matches ForwardStep::Query(j) ==> j == i + 1 && j < n,
        outcome == UpstreamOutcome::Answered ==> step_after(rule, i, n, outcome) == ForwardStep::Deliver,
{
}

} // verus!
