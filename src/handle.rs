use vstd::prelude::*;
use crate::adapter::{
    after_cancel, after_poll, after_write, open_for_write, poll_result, write_ack, Adapter,
    AdapterModel, BridgeError, Completion, Poll, fresh,
};
use crate::descriptor::{contract_holds, ArgValue, TaskDescriptor};
use crate::slot::{outcome_of, Outcome};

verus! {

/// What the consumer sees of a poll: the adapter's answer, with misuse after
/// the result was taken reported as `DoubleAwait`.
pub open spec fn consumer_view<T, E>(r: Result<Poll<T, E>, BridgeError>) -> Result<Poll<T, E>, BridgeError> {
    match r {
        Err(BridgeError::AlreadyConsumed) => Err(BridgeError::DoubleAwait),
        _ => r,
    }
}

/// The consumer's handle on one operation: a move-only forwarding layer over
/// the adapter that buffers nothing of its own. Releasing it before the
/// operation settles cancels the operation once.
pub struct FutureHandle<T, E> {
    adapter: Adapter<T, E>,
    released: bool,
}

impl<T, E> FutureHandle<T, E> {
    /// The state of the adapter behind the handle.
    pub closed spec fn state(&self) -> AdapterModel<T, E> {
        self.adapter@
    }

    /// Whether the handle has been released.
    pub closed spec fn released(&self) -> bool {
        self.released
    }

    pub closed spec fn wf(&self) -> bool {
        self.adapter.wf()
    }

    /// Starts an operation, as `Adapter::begin`, and wraps it in a handle.
    pub fn begin(desc: &TaskDescriptor, declared: &TaskDescriptor, args: &Vec<ArgValue>) -> (r: Result<Self, BridgeError>)
        ensures
            r is Ok <==> contract_holds(desc, declared, args@),
            r matches Ok(h) ==> h.wf() && h.state() == fresh::<T, E>() && !h.released(),
            r matches Err(e) ==> e == BridgeError::InvalidContract,
    {
        match Adapter::begin(desc, declared, args) {
            Ok(adapter) => Ok(FutureHandle { adapter, released: false }),
            Err(e) => Err(e),
        }
    }

    /// Polls the operation; see `Adapter::poll`.
    pub fn poll(&mut self, waker: u64) -> (r: Result<Poll<T, E>, BridgeError>)
        requires
            old(self).wf(),
        ensures
            final(self).wf(),
            final(self).state() == after_poll(old(self).state(), waker),
            final(self).released() == old(self).released(),
            r == consumer_view(poll_result(old(self).state())),
    {
        match self.adapter.poll(waker) {
            Err(BridgeError::AlreadyConsumed) => Err(BridgeError::DoubleAwait),
            r => r,
        }
    }

    /// Releases the handle. The first release of an operation that has not
    /// settled cancels it; any later release does nothing. Returns whether
    /// this call cancelled the operation.
    pub fn release(&mut self) -> (r: bool)
        requires
            old(self).wf(),
        ensures
            final(self).wf(),
            final(self).released(),
            final(self).state() == if old(self).released() {
                old(self).state()
            } else {
                after_cancel(old(self).state())
            },
            r == (!old(self).released() && open_for_write(old(self).state())),
    {
        if self.released {
            return false;
        }
        self.released = true;
        self.adapter.cancel()
    }

    /// The producer's result arrives; see `Adapter::complete`.
    pub fn complete(&mut self, r: Result<T, E>) -> (c: Completion)
        requires
            old(self).wf(),
        ensures
            final(self).wf(),
            final(self).state() == after_write(old(self).state(), outcome_of(r)),
            final(self).released() == old(self).released(),
            c == write_ack(old(self).state()),
    {
        self.adapter.complete(r)
    }

    /// The producer stopped without a result; see `Adapter::abort`.
    pub fn abort(&mut self) -> (c: Completion)
        requires
            old(self).wf(),
        ensures
            final(self).wf(),
            final(self).state() == after_write(old(self).state(), Outcome::Aborted),
            final(self).released() == old(self).released(),
            c == write_ack(old(self).state()),
    {
        self.adapter.abort()
    }
}

} // verus!
