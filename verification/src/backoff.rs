//! How long to wait before the next attempt after a failed reconciliation.

use crate::model::{Action, ErrorView, NodeRecord, ReconcileError};
use vstd::arithmetic::power2::{
    lemma2_to64, lemma_pow2_strictly_increases, lemma_pow2_unfold, pow2,
};
use vstd::prelude::*;

verus! {

/// The delay before any doubling, in seconds. Each failure doubles it, the
/// first one too.
pub const REQUEUE_SECS: u64 = 2;

/// Longest delay between two attempts, in seconds. A deletion that has been
/// pending for longer than this is no longer held back.
pub const MAX_RETRY_SECS: u64 = 3600;

/// The delay owed after `attempt` failures: the base delay doubled once per
/// failure, capped at [`MAX_RETRY_SECS`].
pub open spec fn delay_secs(attempt: nat) -> nat {
    let uncapped = REQUEUE_SECS as nat * pow2(attempt);
    if uncapped <= MAX_RETRY_SECS as nat {
        uncapped
    } else {
        MAX_RETRY_SECS as nat
    }
}

/// Doubling never shrinks: `pow2` is monotone in its exponent.
pub proof fn lemma_pow2_monotone(a: nat, b: nat)
    requires
        a <= b,
    ensures
        pow2(a) <= pow2(b),
{
    if a < b {
        lemma_pow2_strictly_increases(a, b);
    }
}

/// The delay never decreases from one attempt to a later one, and never
/// exceeds [`MAX_RETRY_SECS`].
pub proof fn lemma_delay_bounded_and_monotone(earlier: nat, later: nat)
    requires
        earlier <= later,
    ensures
        delay_secs(earlier) <= delay_secs(later),
        delay_secs(later) <= MAX_RETRY_SECS,
{
    lemma_pow2_monotone(earlier, later);
    assert(REQUEUE_SECS as nat * pow2(earlier) <= REQUEUE_SECS as nat * pow2(later))
        by (nonlinear_arith)
        requires
            pow2(earlier) <= pow2(later),
    ;
}

/// Computes [`delay_secs`] without ever leaving the range of `u64`.
pub fn backoff_delay(attempt: u32) -> (secs: u64)
    ensures
        secs == delay_secs(attempt as nat),
{
    let mut delay: u64 = REQUEUE_SECS;
    let mut done: u32 = 0;
    proof {
        lemma2_to64();
    }
    while done < attempt && delay < MAX_RETRY_SECS
        invariant
            done <= attempt,
            delay == delay_secs(done as nat),
        decreases attempt - done,
    {
        proof {
            lemma_pow2_unfold((done + 1) as nat);
        }
        delay = if delay > MAX_RETRY_SECS / 2 {
            MAX_RETRY_SECS
        } else {
            delay * 2
        };
        done = done + 1;
    }
    proof {
        lemma_delay_bounded_and_monotone(done as nat, attempt as nat);
    }
    delay
}

/// What a controller keeps between reconciliations: the number of failures
/// so far. The count is shared by all nodes and is never reset.
#[derive(Debug)]
pub struct Context {
    attempt: u32,
}

impl View for Context {
    type V = nat;

    /// The number of failures counted so far.
    closed spec fn view(&self) -> nat {
        self.attempt as nat
    }
}

impl Context {
    /// A context in which no failure was counted yet.
    pub fn new() -> (ctx: Context)
        ensures
            ctx@ == 0,
    {
        Context { attempt: 0 }
    }

    /// The number of failures counted so far.
    pub fn attempts(&self) -> (count: u32)
        ensures
            count == self@,
    {
        self.attempt
    }
}

/// The count after one more failure. It stops at the largest count that can
/// be kept, where the delay has long reached its cap.
pub open spec fn next_attempt(count: nat) -> nat {
    if count < u32::MAX {
        count + 1
    } else {
        count
    }
}

/// What is owed after a failure, once it was counted: a notification without
/// a node name is dropped, since there is no node to come back to; every
/// other failure is retried after the delay owed for the count.
pub open spec fn retry_action(error: ErrorView, count: nat) -> Action {
    match error {
        ErrorView::MissingNodeName => Action::AwaitChange,
        _ => Action::Requeue(delay_secs(count) as u64),
    }
}

/// Counts a failed reconciliation and says when to try again. The count is
/// one for all nodes, so the delay never shrinks from one failure to the
/// next, whichever node failed.
pub fn error_policy(node: &NodeRecord, error: &ReconcileError, ctx: &mut Context) -> (action: Action)
    ensures
        final(ctx)@ == next_attempt(old(ctx)@),
        action == retry_action(error@, final(ctx)@),
        delay_secs(old(ctx)@) <= delay_secs(final(ctx)@) <= MAX_RETRY_SECS,
{
    proof {
        lemma_delay_bounded_and_monotone(old(ctx)@, next_attempt(old(ctx)@));
    }
    let attempt = if ctx.attempt < u32::MAX {
        ctx.attempt + 1
    } else {
        ctx.attempt
    };
    ctx.attempt = attempt;
    match error {
        ReconcileError::MissingNodeName => Action::AwaitChange,
        _ => Action::Requeue(backoff_delay(attempt)),
    }
}

} // verus!
