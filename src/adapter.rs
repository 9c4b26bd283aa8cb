use vstd::prelude::*;
use crate::descriptor::{contract_holds, ArgValue, TaskDescriptor};
use crate::slot::{outcome_of, CompletionSlot, Outcome};

verus! {

/// Errors that surface at the call that caused them. A producer's own domain
/// error is no such error: it is delivered as `Poll::Ready(Err(e))`.
#[derive(PartialEq, Eq, Structural, Clone, Copy, Debug)]
pub enum BridgeError {
    /// The descriptor does not match the producer's declared contract, or the
    /// arguments do not fit it.
    InvalidContract,
    /// The adapter was polled again after its result was taken.
    AlreadyConsumed,
    /// The consumer handle was polled again after it produced its result.
    DoubleAwait,
    /// The operation was cancelled before it completed.
    CancelledBeforeCompletion,
    /// The producer stopped without reaching its own error channel.
    ProducerAborted,
}

/// What one poll observes.
pub enum Poll<T, E> {
    Pending,
    Ready(Result<T, E>),
}

/// What the producer's write of its result amounts to.
#[derive(PartialEq, Eq, Structural, Clone, Copy, Debug)]
pub enum Completion {
    /// The result was stored; the continuation registered by the last pending
    /// poll, if any, is to be scheduled on the reactor's task queue.
    Accepted(Option<u64>),
    /// The slot was already settled or the operation cancelled: nothing stored.
    Rejected,
}

/// The abstract state of one adapter.
pub struct AdapterModel<T, E> {
    pub outcome: Outcome<T, E>,
    pub consumed: bool,
    pub cancelled: bool,
    pub waker: Option<u64>,
}

/// The states that the adapter's operations keep.
pub open spec fn valid<T, E>(m: AdapterModel<T, E>) -> bool {
    &&& m.consumed ==> m.outcome.is_terminal()
    &&& m.cancelled ==> m.outcome is Pending && m.waker is None
    &&& m.outcome.is_terminal() ==> m.waker is None
}

/// The state in which every operation starts.
pub open spec fn fresh<T, E>() -> AdapterModel<T, E> {
    AdapterModel { outcome: Outcome::Pending, consumed: false, cancelled: false, waker: None }
}

/// The producer's write is still admitted: nothing settled, nothing cancelled.
pub open spec fn open_for_write<T, E>(m: AdapterModel<T, E>) -> bool {
    m.outcome is Pending && !m.cancelled
}

pub open spec fn after_write<T, E>(m: AdapterModel<T, E>, o: Outcome<T, E>) -> AdapterModel<T, E> {
    if open_for_write(m) {
        AdapterModel { outcome: o, consumed: m.consumed, cancelled: m.cancelled, waker: None }
    } else {
        m
    }
}

pub open spec fn write_ack<T, E>(m: AdapterModel<T, E>) -> Completion {
    if open_for_write(m) {
        Completion::Accepted(m.waker)
    } else {
        Completion::Rejected
    }
}

pub open spec fn poll_result<T, E>(m: AdapterModel<T, E>) -> Result<Poll<T, E>, BridgeError> {
    if m.consumed {
        Err(BridgeError::AlreadyConsumed)
    } else {
        match m.outcome {
            Outcome::Pending => if m.cancelled {
                Err(BridgeError::CancelledBeforeCompletion)
            } else {
                Ok(Poll::Pending)
            },
            Outcome::Resolved(v) => Ok(Poll::Ready(Ok(v))),
            Outcome::Failed(e) => Ok(Poll::Ready(Err(e))),
            Outcome::Aborted => Err(BridgeError::ProducerAborted),
        }
    }
}

pub open spec fn after_poll<T, E>(m: AdapterModel<T, E>, waker: u64) -> AdapterModel<T, E> {
    if m.consumed || m.cancelled {
        m
    } else if m.outcome is Pending {
        AdapterModel { outcome: m.outcome, consumed: false, cancelled: false, waker: Some(waker) }
    } else {
        AdapterModel { outcome: m.outcome, consumed: true, cancelled: false, waker: m.waker }
    }
}

pub open spec fn after_cancel<T, E>(m: AdapterModel<T, E>) -> AdapterModel<T, E> {
    if open_for_write(m) {
        AdapterModel { outcome: m.outcome, consumed: m.consumed, cancelled: true, waker: None }
    } else {
        m
    }
}

/// The bridge adapter of one operation: it owns the completion slot, the
/// cancellation mark and the continuation registered by the consumer.
pub struct Adapter<T, E> {
    slot: CompletionSlot<T, E>,
    cancelled: bool,
    waker: Option<u64>,
}

impl<T, E> View for Adapter<T, E> {
    type V = AdapterModel<T, E>;

    closed spec fn view(&self) -> AdapterModel<T, E> {
        AdapterModel {
            outcome: self.slot.outcome(),
            consumed: self.slot.taken(),
            cancelled: self.cancelled,
            waker: self.waker,
        }
    }
}

impl<T, E> Adapter<T, E> {
    pub closed spec fn wf(&self) -> bool {
        self.slot.wf() && valid(self@)
    }

    /// Starts an operation: checks `desc` against the contract that the
    /// producer declares and the arguments against `desc`. On `Ok` the caller
    /// hands the producer task to the reactor; on `Err` nothing is started.
    pub fn begin(desc: &TaskDescriptor, declared: &TaskDescriptor, args: &Vec<ArgValue>) -> (r: Result<Self, BridgeError>)
        ensures
            r is Ok <==> contract_holds(desc, declared, args@),
            r matches Ok(a) ==> a.wf() && a@ == fresh::<T, E>(),
            r matches Err(e) ==> e == BridgeError::InvalidContract,
    {
        if desc.same_signature(declared) && desc.accepts_args(args) {
            Ok(Adapter { slot: CompletionSlot::new(), cancelled: false, waker: None })
        } else {
            Err(BridgeError::InvalidContract)
        }
    }

    fn write(&mut self, o: Outcome<T, E>) -> (c: Completion)
        requires
            old(self).wf(),
            o.is_terminal(),
        ensures
            final(self).wf(),
            final(self)@ == after_write(old(self)@, o),
            c == write_ack(old(self)@),
    {
        if self.cancelled {
            return Completion::Rejected;
        }
        if self.slot.write(o) {
            let w = self.waker;
            self.waker = None;
            Completion::Accepted(w)
        } else {
            Completion::Rejected
        }
    }

    /// The producer's result arrives. It is stored only if the slot is still
    /// pending and the operation not cancelled.
    pub fn complete(&mut self, r: Result<T, E>) -> (c: Completion)
        requires
            old(self).wf(),
        ensures
            final(self).wf(),
            final(self)@ == after_write(old(self)@, outcome_of(r)),
            c == write_ack(old(self)@),
    {
        match r {
            Ok(v) => self.write(Outcome::Resolved(v)),
            Err(e) => self.write(Outcome::Failed(e)),
        }
    }

    /// The producer stopped without a result of its own; this poisons the slot.
    pub fn abort(&mut self) -> (c: Completion)
        requires
            old(self).wf(),
        ensures
            final(self).wf(),
            final(self)@ == after_write(old(self)@, Outcome::Aborted),
            c == write_ack(old(self)@),
    {
        self.write(Outcome::Aborted)
    }

    /// Non-blocking poll. While pending, registers `waker` (replacing an
    /// earlier one) and returns `Pending`; once settled, hands the result out
    /// exactly once.
    pub fn poll(&mut self, waker: u64) -> (r: Result<Poll<T, E>, BridgeError>)
        requires
            old(self).wf(),
        ensures
            final(self).wf(),
            final(self)@ == after_poll(old(self)@, waker),
            r == poll_result(old(self)@),
    {
        if self.slot.is_taken() {
            return Err(BridgeError::AlreadyConsumed);
        }
        if self.slot.is_pending() {
            if self.cancelled {
                Err(BridgeError::CancelledBeforeCompletion)
            } else {
                self.waker = Some(waker);
                Ok(Poll::Pending)
            }
        } else {
            match self.slot.take() {
                Outcome::Resolved(v) => Ok(Poll::Ready(Ok(v))),
                Outcome::Failed(e) => Ok(Poll::Ready(Err(e))),
                Outcome::Aborted => Err(BridgeError::ProducerAborted),
                Outcome::Pending => {
                    proof {
                        assert(false);
                    }
                    Err(BridgeError::AlreadyConsumed)
                },
            }
        }
    }

    /// Best-effort cancellation. Recorded only while the operation is still
    /// pending; a result that arrived first wins. Returns whether it was
    /// recorded by this call.
    pub fn cancel(&mut self) -> (r: bool)
        requires
            old(self).wf(),
        ensures
            final(self).wf(),
            final(self)@ == after_cancel(old(self)@),
            r == open_for_write(old(self)@),
    {
        if !self.cancelled && self.slot.is_pending() {
            self.cancelled = true;
            self.waker = None;
            true
        } else {
            false
        }
    }

    /// Whether the operation has a terminal outcome.
    pub fn is_settled(&self) -> (r: bool)
        requires
            self.wf(),
        ensures
            r == self@.outcome.is_terminal(),
    {
        !self.slot.is_pending()
    }
}

} // verus!
