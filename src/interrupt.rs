//! The interrupt guard: two flags, `locked` and `must_stop`, that defer a
//! user interruption until a critical section is left.

use vstd::prelude::*;

verus! {

/// The process-wide interrupt state.
pub struct Interrupt {
    /// An interruption arrived while locked and waits for the release.
    pub must_stop: bool,
    /// A guarded section is running.
    pub locked: bool,
}

/// The handle of a guarded section; giving it back releases the guard.
pub struct Guard {
    held: bool,
}

/// What to do with an interruption that has just arrived.
#[derive(Debug, Clone, Copy, PartialEq, Eq, Structural)]
pub enum SignalResponse {
    /// A section is guarded: the interruption is recorded and waits.
    Defer,
    /// Nothing is guarded: stop now.
    Exit,
}

/// What to do on leaving a guarded section.
#[derive(Debug, Clone, Copy, PartialEq, Eq, Structural)]
pub enum ReleaseResponse {
    /// An interruption waited: stop now, with a non-zero status.
    Exit,
    /// Nothing waited: go on.
    Resume,
}

impl Interrupt {
    /// Neither locked nor interrupted.
    pub fn new() -> (r: Interrupt)
        ensures
            !r.locked,
            !r.must_stop,
    {
        Interrupt { must_stop: false, locked: false }
    }

    /// Enters a guarded section. Guarded sections do not nest.
    pub fn lock(&mut self) -> (g: Guard)
        requires
            !old(self).locked,
        ensures
            final(self).locked,
            final(self).must_stop == old(self).must_stop,
    {
        self.locked = true;
        Guard { held: true }
    }

    /// Takes in an interruption.
    pub fn signal(&mut self) -> (r: SignalResponse)
        ensures
            old(self).locked ==> r == SignalResponse::Defer && final(self).locked
                && final(self).must_stop,
            !old(self).locked ==> r == SignalResponse::Exit && final(self).locked == old(
                self,
            ).locked && final(self).must_stop == old(self).must_stop,
    {
        if self.locked {
            self.must_stop = true;
            SignalResponse::Defer
        } else {
            SignalResponse::Exit
        }
    }

    /// Leaves the guarded section of `guard`. A waiting interruption is
    /// serviced here, and only here.
    pub fn release(&mut self, guard: Guard) -> (r: ReleaseResponse)
        requires
            old(self).locked,
        ensures
            old(self).must_stop ==> r == ReleaseResponse::Exit && final(self).locked
                && final(self).must_stop,
            !old(self).must_stop ==> r == ReleaseResponse::Resume && !final(self).locked
                && !final(self).must_stop,
    {
        let Guard { held: _ } = guard;
        if self.must_stop {
            ReleaseResponse::Exit
        } else {
            self.locked = false;
            ReleaseResponse::Resume
        }
    }
}

} // verus!
