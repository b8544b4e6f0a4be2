//! The single-flight guard: at most one guarded operation is in progress.
//!
//! There is one lock for the whole engine, not one for each stream. An
//! operation never runs beside another one, so a lock for each stream would
//! buy nothing; one lock keeps a transfer that calls back from reaching any
//! stream at all.

use crate::error::Error;
use crate::state::{follows, State, StellarStream};
use vstd::prelude::*;

verus! {

impl State {
    /// Taking the lock: refused while it is held.
    pub open spec fn acquire_guard(self) -> Result<(State, ()), Error> {
        if self.locked {
            Err(Error::ReentrantCall)
        } else {
            Ok((State { locked: true, ..self }, ()))
        }
    }

    /// The state with the lock free.
    pub open spec fn released(self) -> State {
        State { locked: false, ..self }
    }
}

impl StellarStream {
    /// Takes the lock at the entry of a guarded operation. While another
    /// guarded operation holds it, the call fails and changes nothing.
    pub fn acquire_guard(&mut self) -> (entered: Result<(), Error>)
        ensures
            follows(old(self)@, final(self)@, entered, old(self)@.acquire_guard()),
            old(self)@.valid() ==> final(self)@.valid(),
    {
        if self.is_locked() {
            return Err(Error::ReentrantCall);
        }
        self.set_locked(true);
        Ok(())
    }

    /// Frees the lock at the end of a guarded operation, once the transfers
    /// that it asked for are done.
    pub fn release_guard(&mut self)
        ensures
            final(self)@ == old(self)@.released(),
            old(self)@.valid() ==> final(self)@.valid(),
    {
        self.set_locked(false);
    }
}

} // verus!
