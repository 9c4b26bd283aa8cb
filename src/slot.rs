use vstd::prelude::*;

verus! {

/// The state of one asynchronous operation's result: `Pending` until the
/// producer settles it, then one of the three terminal outcomes.
pub enum Outcome<T, E> {
    Pending,
    Resolved(T),
    Failed(E),
    /// The producer stopped without reaching its own error channel.
    Aborted,
}

impl<T, E> Outcome<T, E> {
    pub open spec fn is_terminal(self) -> bool {
        !(self is Pending)
    }
}

/// The terminal outcome that a producer's result stands for.
pub open spec fn outcome_of<T, E>(r: Result<T, E>) -> Outcome<T, E> {
    match r {
        Ok(v) => Outcome::Resolved(v),
        Err(e) => Outcome::Failed(e),
    }
}

/// A single-writer, single-reader cell for one operation's outcome.
///
/// It is written at most once, from `Pending` to a terminal outcome, and its
/// payload is handed out at most once. `outcome()` keeps the terminal outcome
/// after the payload has left the cell.
pub struct CompletionSlot<T, E> {
    cell: Outcome<T, E>,
    taken: bool,
    resolution: Ghost<Outcome<T, E>>,
}

impl<T, E> CompletionSlot<T, E> {
    /// The outcome written into the slot, or `Pending`.
    pub closed spec fn outcome(&self) -> Outcome<T, E> {
        self.resolution@
    }

    /// Whether the payload has been handed out.
    pub closed spec fn taken(&self) -> bool {
        self.taken
    }

    pub closed spec fn wf(&self) -> bool {
        &&& !self.taken ==> self.cell == self.resolution@
        &&& self.taken ==> self.cell is Pending && self.resolution@.is_terminal()
    }

    pub fn new() -> (s: Self)
        ensures
            s.wf(),
            s.outcome() is Pending,
            !s.taken(),
    {
        CompletionSlot { cell: Outcome::Pending, taken: false, resolution: Ghost(Outcome::Pending) }
    }

    pub fn is_pending(&self) -> (r: bool)
        requires
            self.wf(),
        ensures
            r == self.outcome() is Pending,
    {
        !self.taken && matches!(self.cell, Outcome::Pending)
    }

    pub fn is_taken(&self) -> (r: bool)
        ensures
            r == self.taken(),
    {
        self.taken
    }

    /// Writes a terminal outcome if the slot is still pending; a later write
    /// is refused and leaves the slot as it was.
    pub fn write(&mut self, o: Outcome<T, E>) -> (r: bool)
        requires
            old(self).wf(),
            o.is_terminal(),
        ensures
            final(self).wf(),
            r == old(self).outcome() is Pending,
            r ==> final(self).outcome() == o && !final(self).taken(),
            !r ==> *final(self) == *old(self),
    {
        if self.is_pending() {
            self.cell = o;
            self.resolution = Ghost(o);
            true
        } else {
            false
        }
    }

    /// Hands out the terminal outcome; the slot keeps it as its outcome.
    pub fn take(&mut self) -> (r: Outcome<T, E>)
        requires
            old(self).wf(),
            old(self).outcome().is_terminal(),
            !old(self).taken(),
        ensures
            final(self).wf(),
            r == old(self).outcome(),
            final(self).outcome() == old(self).outcome(),
            final(self).taken(),
    {
        let mut out = Outcome::Pending;
        std::mem::swap(&mut out, &mut self.cell);
        self.taken = true;
        out
    }
}

} // verus!
