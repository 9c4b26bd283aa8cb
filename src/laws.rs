use vstd::prelude::*;
use crate::adapter::{
    after_cancel, after_poll, after_write, open_for_write, poll_result, valid, write_ack,
    AdapterModel, BridgeError, Completion, Poll,
};
use crate::slot::Outcome;

verus! {

/// One thing that can happen to an operation: the producer writes an
/// outcome, the consumer polls with a continuation, or the consumer cancels.
pub enum Event<T, E> {
    Write(Outcome<T, E>),
    Poll(u64),
    Cancel,
}

pub open spec fn apply<T, E>(m: AdapterModel<T, E>, ev: Event<T, E>) -> AdapterModel<T, E> {
    match ev {
        Event::Write(o) => if o.is_terminal() {
            after_write(m, o)
        } else {
            m
        },
        Event::Poll(w) => after_poll(m, w),
        Event::Cancel => after_cancel(m),
    }
}

/// The state after a sequence of events.
pub open spec fn run<T, E>(m: AdapterModel<T, E>, evs: Seq<Event<T, E>>) -> AdapterModel<T, E>
    decreases evs.len(),
{
    if evs.len() == 0 {
        m
    } else {
        run(apply(m, evs[0]), evs.drop_first())
    }
}

/// A poll in this state hands out the settled outcome.
pub open spec fn hands_out<T, E>(m: AdapterModel<T, E>) -> bool {
    !m.consumed && m.outcome.is_terminal()
}

/// What a poll that hands out `o` returns.
pub open spec fn delivered<T, E>(o: Outcome<T, E>) -> Result<Poll<T, E>, BridgeError> {
    match o {
        Outcome::Resolved(v) => Ok(Poll::Ready(Ok(v))),
        Outcome::Failed(e) => Ok(Poll::Ready(Err(e))),
        _ => Err(BridgeError::ProducerAborted),
    }
}

/// How many polls in a sequence of events hand out the settled outcome.
pub open spec fn handouts<T, E>(m: AdapterModel<T, E>, evs: Seq<Event<T, E>>) -> nat
    decreases evs.len(),
{
    if evs.len() == 0 {
        0
    } else {
        let here: nat = if evs[0] is Poll && hands_out(m) { 1 } else { 0 };
        here + handouts(apply(m, evs[0]), evs.drop_first())
    }
}

/// Every event keeps the adapter's states valid.
pub proof fn lemma_apply_valid<T, E>(m: AdapterModel<T, E>, ev: Event<T, E>)
    requires
        valid(m),
    ensures
        valid(apply(m, ev)),
{
}

/// Every sequence of events keeps the adapter's states valid.
pub proof fn lemma_run_valid<T, E>(m: AdapterModel<T, E>, evs: Seq<Event<T, E>>)
    requires
        valid(m),
    ensures
        valid(run(m, evs)),
    decreases evs.len(),
{
    if evs.len() > 0 {
        lemma_apply_valid(m, evs[0]);
        lemma_run_valid(apply(m, evs[0]), evs.drop_first());
    }
}

/// Single resolution: once the slot holds a terminal outcome, no sequence of
/// events changes it, and every further write is rejected.
pub proof fn lemma_single_resolution<T, E>(m: AdapterModel<T, E>, evs: Seq<Event<T, E>>)
    requires
        valid(m),
        m.outcome.is_terminal(),
    ensures
        run(m, evs).outcome == m.outcome,
        write_ack(run(m, evs)) == Completion::Rejected,
    decreases evs.len(),
{
    if evs.len() > 0 {
        lemma_apply_valid(m, evs[0]);
        lemma_single_resolution(apply(m, evs[0]), evs.drop_first());
    }
}

/// Once the result has been taken it stays taken, whatever happens next.
pub proof fn lemma_consumed_stays<T, E>(m: AdapterModel<T, E>, evs: Seq<Event<T, E>>)
    requires
        valid(m),
        m.consumed,
    ensures
        run(m, evs).consumed,
        poll_result(run(m, evs)) == Err::<Poll<T, E>, BridgeError>(BridgeError::AlreadyConsumed),
    decreases evs.len(),
{
    if evs.len() > 0 {
        lemma_apply_valid(m, evs[0]);
        lemma_consumed_stays(apply(m, evs[0]), evs.drop_first());
    }
}

/// Across any sequence of events, at most one poll hands out the outcome,
/// and none does once it has been taken.
pub proof fn lemma_at_most_one_handout<T, E>(m: AdapterModel<T, E>, evs: Seq<Event<T, E>>)
    requires
        valid(m),
    ensures
        handouts(m, evs) <= 1,
        m.consumed ==> handouts(m, evs) == 0,
    decreases evs.len(),
{
    if evs.len() > 0 {
        let m1 = apply(m, evs[0]);
        lemma_apply_valid(m, evs[0]);
        lemma_at_most_one_handout(m1, evs.drop_first());
        if evs[0] is Poll && hands_out(m) {
            assert(m1.consumed);
        }
    }
}

/// Exactly one poll observes the settled outcome: the first poll after it is
/// written hands it out, and every poll after that, whatever happened in
/// between, fails with `AlreadyConsumed`.
pub proof fn lemma_exactly_one_handout<T, E>(m: AdapterModel<T, E>, w: u64, evs: Seq<Event<T, E>>)
    requires
        valid(m),
        m.outcome.is_terminal(),
        !m.consumed,
    ensures
        poll_result(m) == delivered(m.outcome),
        after_poll(m, w).consumed,
        poll_result(run(after_poll(m, w), evs)) == Err::<Poll<T, E>, BridgeError>(BridgeError::AlreadyConsumed),
        handouts(after_poll(m, w), evs) == 0,
{
    lemma_consumed_stays(after_poll(m, w), evs);
    lemma_at_most_one_handout(after_poll(m, w), evs);
}

/// Cancelling before completion: no later write reaches the slot, which
/// stays pending whatever happens next.
pub proof fn lemma_cancel_before_completion<T, E>(m: AdapterModel<T, E>, evs: Seq<Event<T, E>>)
    requires
        valid(m),
        open_for_write(m),
    ensures
        run(after_cancel(m), evs).outcome is Pending,
        write_ack(run(after_cancel(m), evs)) == Completion::Rejected,
        poll_result(run(after_cancel(m), evs)) == Err::<Poll<T, E>, BridgeError>(BridgeError::CancelledBeforeCompletion),
    decreases evs.len(),
{
    if evs.len() > 0 {
        let c = after_cancel(m);
        assert(apply(c, evs[0]) == c);
        assert(run(c, evs) == run(c, evs.drop_first()));
        lemma_cancel_before_completion(m, evs.drop_first());
    }
}

/// Cancelling after completion changes nothing: the outcome, taken or not,
/// stays as it was.
pub proof fn lemma_cancel_after_completion<T, E>(m: AdapterModel<T, E>)
    requires
        m.outcome.is_terminal(),
    ensures
        after_cancel(m) == m,
{
}

/// No missed wakeup: a poll that returns `Pending` registers its
/// continuation; the write that settles the operation hands that
/// continuation out to be scheduled, together with storing the outcome that
/// the next poll returns, and no later write schedules it again.
pub proof fn lemma_no_missed_wakeup<T, E>(m: AdapterModel<T, E>, w: u64, o: Outcome<T, E>, evs: Seq<Event<T, E>>)
    requires
        valid(m),
        open_for_write(m),
        o.is_terminal(),
    ensures
        poll_result(m) == Ok::<Poll<T, E>, BridgeError>(Poll::Pending),
        write_ack(after_poll(m, w)) == Completion::Accepted(Some(w)),
        poll_result(after_write(after_poll(m, w), o)) == delivered(o),
        write_ack(run(after_write(after_poll(m, w), o), evs)) == Completion::Rejected,
{
    lemma_single_resolution(after_write(after_poll(m, w), o), evs);
}

} // verus!
