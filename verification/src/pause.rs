//! The pause switch: one flag that stops the operations that move funds.
//!
//! The flag gates `create_stream`, `withdraw` and `cancel_stream`, each of
//! which moves funds into or out of escrow. Handing a stream to another
//! receiver and keeping a stream's entry alive move nothing and stay open
//! while the flag is set, and so does batch creation, which is a path of its
//! own beside single creation.

use crate::error::Error;
use crate::state::{follows, State, StellarStream};
use crate::types::{Address, Event, Role};
use vstd::prelude::*;

verus! {

impl State {
    /// Setting the flag: for a Pauser.
    pub open spec fn set_pause(self, pauser: Address, paused: bool) -> Result<
        (State, Event),
        Error,
    > {
        if !self.has_role(pauser, Role::Pauser) {
            Err(Error::MissingRole)
        } else {
            Ok((State { paused, ..self }, Event::PauseSet { pauser, paused }))
        }
    }
}

impl StellarStream {
    /// Sets or clears the pause flag, on the word of `pauser`, who must hold
    /// Pauser.
    pub fn set_pause(&mut self, pauser: Address, paused: bool) -> (done: Result<Event, Error>)
        requires
            old(self)@.valid(),
        ensures
            follows(old(self)@, final(self)@, done, old(self)@.set_pause(pauser, paused)),
            final(self)@.valid(),
    {
        if !self.has_role(pauser, Role::Pauser) {
            return Err(Error::MissingRole);
        }
        self.set_paused(paused);
        Ok(Event::PauseSet { pauser, paused })
    }

    /// Fails while the pause flag is set.
    pub fn check_not_paused(&self) -> (open: Result<(), Error>)
        ensures
            open == (if self@.paused {
                Err::<(), Error>(Error::Paused)
            } else {
                Ok::<(), Error>(())
            }),
    {
        if self.is_paused() {
            Err(Error::Paused)
        } else {
            Ok(())
        }
    }
}

} // verus!
