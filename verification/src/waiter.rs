//! The state-transition waiter's decisions.
//!
//! The waiter polls the control backend at a fixed one-second cadence until
//! the desired state token appears in the raw query text, the deadline
//! passes, or cancellation is observed. The blocking poll loop itself runs
//! outside the library; every decision it takes comes from here.

use vstd::prelude::*;

use crate::textmatch::token_match;

verus! {

/// What the waiter does at the top of a poll tick.
#[derive(Debug, PartialEq, Eq, Structural)]
pub enum WaitGate {
    /// Cancellation was observed: give up at once, the wait fails.
    Cancelled,
    /// The deadline has passed: the wait fails.
    TimedOut,
    /// Query the backend and examine the text.
    Proceed,
}

/// The decision at the top of a tick: cancellation is checked at every tick,
/// the first included; once the elapsed time reaches the deadline the wait
/// is over.
pub open spec fn wait_gate_decision(elapsed_secs: u64, deadline_secs: u64, cancelled: bool) -> WaitGate {
    if cancelled {
        WaitGate::Cancelled
    } else if elapsed_secs >= deadline_secs {
        WaitGate::TimedOut
    } else {
        WaitGate::Proceed
    }
}

/// Decides what a poll tick does before any backend call is made.
pub fn wait_gate(elapsed_secs: u64, deadline_secs: u64, cancelled: bool) -> (g: WaitGate)
    ensures
        g == wait_gate_decision(elapsed_secs, deadline_secs, cancelled),
{
    if cancelled {
        WaitGate::Cancelled
    } else if elapsed_secs >= deadline_secs {
        WaitGate::TimedOut
    } else {
        WaitGate::Proceed
    }
}

/// One poll tick as the waiter sees it: whether cancellation was observed at
/// its top, and the raw text the backend returned, if the query succeeded.
pub struct WaitPoll {
    pub cancelled: bool,
    pub text: Option<Seq<char>>,
}

/// Whether a tick's query text reports the desired state.
pub open spec fn poll_matched(p: WaitPoll, token: Seq<char>) -> bool {
    p.text matches Some(t) && token_match(t, token)
}

/// The verdict of a whole wait, one tick per second from tick `t` on:
/// `true` exactly when some poll text contains the token before the deadline
/// passes and before cancellation is observed.
pub open spec fn wait_verdict_from(
    polls: Seq<WaitPoll>,
    token: Seq<char>,
    deadline_secs: int,
    t: int,
) -> bool
    decreases deadline_secs - t,
{
    if t < 0 || t >= deadline_secs || t >= polls.len() {
        false
    } else if polls[t].cancelled {
        false
    } else if poll_matched(polls[t], token) {
        true
    } else {
        wait_verdict_from(polls, token, deadline_secs, t + 1)
    }
}

/// The verdict of a whole wait that starts with no time elapsed.
pub open spec fn wait_verdict(polls: Seq<WaitPoll>, token: Seq<char>, deadline_secs: int) -> bool {
    wait_verdict_from(polls, token, deadline_secs, 0)
}

/// The waiter succeeds as soon as a poll's raw text contains the desired
/// token: if tick `k` is the first tick whose text matches, and neither the
/// deadline nor cancellation intervenes up to it, the wait returns `true`.
pub proof fn lemma_wait_succeeds_at_first_match(
    polls: Seq<WaitPoll>,
    token: Seq<char>,
    deadline_secs: int,
    k: int,
)
    requires
        0 <= k < deadline_secs,
        k < polls.len(),
        forall|j: int| 0 <= j <= k ==> !(#[trigger] polls[j]).cancelled,
        forall|j: int| 0 <= j < k ==> !poll_matched(#[trigger] polls[j], token),
        poll_matched(polls[k], token),
    ensures
        wait_verdict(polls, token, deadline_secs),
{
    lemma_wait_succeeds_from(polls, token, deadline_secs, k, 0);
}

proof fn lemma_wait_succeeds_from(
    polls: Seq<WaitPoll>,
    token: Seq<char>,
    deadline_secs: int,
    k: int,
    t: int,
)
    requires
        0 <= t <= k < deadline_secs,
        k < polls.len(),
        forall|j: int| t <= j <= k ==> !(#[trigger] polls[j]).cancelled,
        forall|j: int| t <= j < k ==> !poll_matched(#[trigger] polls[j], token),
        poll_matched(polls[k], token),
    ensures
        wait_verdict_from(polls, token, deadline_secs, t),
    decreases k - t,
{
    if t < k {
        lemma_wait_succeeds_from(polls, token, deadline_secs, k, t + 1);
    }
}

/// If the token never appears in any poll's text, the wait returns `false`,
/// whether it runs out the deadline or is cancelled first.
pub proof fn lemma_wait_fails_without_match(
    polls: Seq<WaitPoll>,
    token: Seq<char>,
    deadline_secs: int,
)
    requires
        forall|j: int| 0 <= j < polls.len() ==> !poll_matched(#[trigger] polls[j], token),
    ensures
        !wait_verdict(polls, token, deadline_secs),
{
    lemma_wait_fails_from(polls, token, deadline_secs, 0);
}

proof fn lemma_wait_fails_from(
    polls: Seq<WaitPoll>,
    token: Seq<char>,
    deadline_secs: int,
    t: int,
)
    requires
        forall|j: int| 0 <= j < polls.len() ==> !poll_matched(#[trigger] polls[j], token),
    ensures
        !wait_verdict_from(polls, token, deadline_secs, t),
    decreases deadline_secs - t,
{
    if 0 <= t && t < deadline_secs && t < polls.len() && !polls[t].cancelled {
        lemma_wait_fails_from(polls, token, deadline_secs, t + 1);
    }
}

/// Cancellation observed at the top of a tick ends the wait with `false`,
/// whatever polls would have followed.
pub proof fn lemma_wait_cancelled_immediately(
    polls: Seq<WaitPoll>,
    token: Seq<char>,
    deadline_secs: int,
)
    requires
        0 < polls.len(),
        polls[0].cancelled,
    ensures
        !wait_verdict(polls, token, deadline_secs),
{
}

} // verus!
