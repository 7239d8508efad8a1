use vstd::prelude::*;

verus! {

/// What stopping the display does, given the join handle it still holds:
/// the slot is left empty, and the handle comes out to be joined, if there
/// was one. `Quit` is sent on every stop, whatever the slot held.
pub open spec fn stop_outcome<H>(slot: Option<H>) -> (Option<H>, Option<H>) {
    (None, slot)
}

/// Ownership of the display thread's join handle. The handle leaves on the
/// first stop and never again, so the thread is joined at most once.
pub struct DisplayThread<H> {
    handle: Option<H>,
}

impl<H> DisplayThread<H> {
    /// The join handle still held, if any.
    pub closed spec fn slot(&self) -> Option<H> {
        self.handle
    }

    /// Takes ownership of a freshly spawned display thread's handle.
    pub fn new(handle: H) -> (r: DisplayThread<H>)
        ensures
            r.slot() == Some(handle),
    {
        DisplayThread { handle: Some(handle) }
    }

    /// Whether the join handle is still held.
    pub fn is_held(&self) -> (r: bool)
        ensures
            r == self.slot().is_some(),
    {
        self.handle.is_some()
    }

    /// Releases the join handle for the caller to join: the first call hands
    /// it out, every later call returns `None`.
    pub fn stop(&mut self) -> (r: Option<H>)
        ensures
            (final(self).slot(), r) == stop_outcome(old(self).slot()),
    {
        self.handle.take()
    }
}

/// Stopping twice ends in the same state as stopping once, and the second
/// stop hands out no handle, so nothing is joined twice.
pub proof fn lemma_stop_idempotent<H>(slot: Option<H>)
    ensures
        stop_outcome(stop_outcome(slot).0).0 == stop_outcome(slot).0,
        stop_outcome(stop_outcome(slot).0).1 is None,
        stop_outcome(slot).1 == slot,
{
}

} // verus!
