//! What the engine remembers between operations, and the primitive reads and
//! writes that every operation is built from.

use crate::error::Error;
use crate::types::{Address, Event, Role, RoleGrant, Stream};
use std::collections::HashMap;
use vstd::prelude::*;

verus! {

broadcast use vstd::std_specs::hash::group_hash_axioms;

/// The highest fee rate that can be set: ten percent, in basis points.
pub const MAX_FEE_BPS: u32 = 1000;

/// The whole of what the engine remembers, as mathematics.
pub struct State {
    /// The standing role grants, the oldest first.
    pub grants: Seq<RoleGrant>,
    /// The fee rate in basis points; zero until a rate is set.
    pub fee_bps: u32,
    /// Who receives the fees; nobody until a treasury is named.
    pub treasury: Option<Address>,
    /// The pause flag.
    pub paused: bool,
    /// The single-flight lock: set while a guarded operation is in progress.
    pub locked: bool,
    /// The id given to the stream created last; zero before the first.
    pub last_stream_id: u64,
    /// The live streams by id.
    pub streams: Map<u64, Stream>,
}

impl State {
    /// Whether `account` holds `role`.
    pub open spec fn has_role(self, account: Address, role: Role) -> bool {
        self.grants.contains(RoleGrant { account, role })
    }

    /// What holds of the state between any two operations: no grant stands
    /// twice, the fee rate is within its limit, and every live stream is
    /// sound and carries an id that was already given out.
    pub open spec fn valid(self) -> bool {
        &&& self.grants.no_duplicates()
        &&& self.fee_bps <= MAX_FEE_BPS
        &&& forall|id: u64| #[trigger]
            self.streams.contains_key(id) ==> 1 <= id <= self.last_stream_id
                && self.streams[id].valid()
    }

    /// The state right after `admin` has set the engine up: `admin` holds
    /// every role, granted in the order Admin, Pauser, TreasuryManager, and
    /// nothing else is there.
    pub open spec fn initial(admin: Address) -> State {
        State {
            grants: seq![
                RoleGrant { account: admin, role: Role::Admin },
                RoleGrant { account: admin, role: Role::Pauser },
                RoleGrant { account: admin, role: Role::TreasuryManager },
            ],
            fee_bps: 0,
            treasury: None,
            paused: false,
            locked: false,
            last_stream_id: 0,
            streams: Map::empty(),
        }
    }
}

/// How the outcome of an operation relates to what is expected of it: on
/// success the result is the expected one and the state is the expected next
/// state; on failure the error is the expected one and the state is as before.
pub open spec fn follows<T>(
    before: State,
    after: State,
    got: Result<T, Error>,
    expected: Result<(State, T), Error>,
) -> bool {
    match expected {
        Ok((next, out)) => got == Ok::<T, Error>(out) && after == next,
        Err(e) => got == Err::<T, Error>(e) && after == before,
    }
}

/// The grants with `grant` taken out, the others in their order.
pub open spec fn without_grant(grants: Seq<RoleGrant>, grant: RoleGrant) -> Seq<RoleGrant> {
    if grants.contains(grant) {
        grants.remove(grants.index_of(grant))
    } else {
        grants
    }
}

/// The engine: role grants, fee configuration, pause flag, single-flight
/// lock, id counter and the live streams. It exists only once it has been
/// set up, and every operation takes it by reference.
#[derive(Clone, Debug, PartialEq, Eq)]
pub struct StellarStream {
    grants: Vec<RoleGrant>,
    fee_bps: u32,
    treasury: Option<Address>,
    paused: bool,
    locked: bool,
    last_stream_id: u64,
    streams: HashMap<u64, Stream>,
}

impl View for StellarStream {
    type V = State;

    closed spec fn view(&self) -> State {
        State {
            grants: self.grants@,
            fee_bps: self.fee_bps,
            treasury: self.treasury,
            paused: self.paused,
            locked: self.locked,
            last_stream_id: self.last_stream_id,
            streams: self.streams@,
        }
    }
}

impl StellarStream {
    /// Sets the engine up with `admin` holding every role, and hands back
    /// the record of it. Beside `restore`, which puts a stored engine
    /// together again, there is no other way to come by an engine: no
    /// operation runs before this one, and it runs once for each engine.
    pub fn initialize(admin: Address) -> (made: (Self, Event))
        ensures
            made.0@ == State::initial(admin),
            made.0@.valid(),
            made.1 == (Event::Initialized { admin }),
    {
        let mut grants: Vec<RoleGrant> = Vec::new();
        grants.push(RoleGrant { account: admin, role: Role::Admin });
        grants.push(RoleGrant { account: admin, role: Role::Pauser });
        grants.push(RoleGrant { account: admin, role: Role::TreasuryManager });
        assert(grants@ =~= State::initial(admin).grants);
        let engine = StellarStream {
            grants,
            fee_bps: 0,
            treasury: None,
            paused: false,
            locked: false,
            last_stream_id: 0,
            streams: HashMap::new(),
        };
        (engine, Event::Initialized { admin })
    }

    /// An engine that remembers nothing at all: no grant, no stream.
    pub(crate) fn blank(
        fee_bps: u32,
        treasury: Option<Address>,
        paused: bool,
        locked: bool,
        last_stream_id: u64,
    ) -> (engine: Self)
        ensures
            engine@ == (State {
                grants: Seq::empty(),
                fee_bps,
                treasury,
                paused,
                locked,
                last_stream_id,
                streams: Map::empty(),
            }),
    {
        StellarStream {
            grants: Vec::new(),
            fee_bps,
            treasury,
            paused,
            locked,
            last_stream_id,
            streams: HashMap::new(),
        }
    }

    /// The fee rate in basis points.
    pub fn fee_bps(&self) -> (bps: u32)
        ensures
            bps == self@.fee_bps,
    {
        self.fee_bps
    }

    /// The identity that receives the fees, if one was named.
    pub fn treasury(&self) -> (treasury: Option<Address>)
        ensures
            treasury == self@.treasury,
    {
        self.treasury
    }

    /// Whether the pause flag is set.
    pub fn is_paused(&self) -> (paused: bool)
        ensures
            paused == self@.paused,
    {
        self.paused
    }

    /// Whether a guarded operation is in progress.
    pub fn is_locked(&self) -> (locked: bool)
        ensures
            locked == self@.locked,
    {
        self.locked
    }

    /// The id that was given to the stream created last; zero before the first.
    pub fn last_stream_id(&self) -> (id: u64)
        ensures
            id == self@.last_stream_id,
    {
        self.last_stream_id
    }

    /// Where `grant` stands among the grants, if it stands.
    pub(crate) fn grant_position(&self, grant: RoleGrant) -> (at: Option<usize>)
        ensures
            match at {
                Some(i) => i < self@.grants.len() && self@.grants[i as int] == grant,
                None => !self@.grants.contains(grant),
            },
    {
        let mut i: usize = 0;
        while i < self.grants.len()
            invariant
                i <= self.grants.len(),
                forall|j: int| 0 <= j < i ==> self.grants@[j] != grant,
            decreases self.grants.len() - i,
        {
            if self.grants[i] == grant {
                return Some(i);
            }
            i += 1;
        }
        None
    }

    /// The grant at `index`, oldest first.
    pub(crate) fn grant_at(&self, index: usize) -> (grant: RoleGrant)
        requires
            index < self@.grants.len(),
        ensures
            grant == self@.grants[index as int],
    {
        self.grants[index]
    }

    /// How many grants stand.
    pub(crate) fn grant_count(&self) -> (n: usize)
        ensures
            n == self@.grants.len(),
    {
        self.grants.len()
    }

    /// Adds `grant` as the newest.
    pub(crate) fn push_grant(&mut self, grant: RoleGrant)
        ensures
            final(self)@ == (State { grants: old(self)@.grants.push(grant), ..old(self)@ }),
    {
        self.grants.push(grant);
    }

    /// Takes the grant at `index` out.
    pub(crate) fn remove_grant(&mut self, index: usize)
        requires
            index < old(self)@.grants.len(),
        ensures
            final(self)@ == (State {
                grants: old(self)@.grants.remove(index as int),
                ..old(self)@
            }),
    {
        self.grants.remove(index);
    }

    pub(crate) fn set_fee_bps(&mut self, fee_bps: u32)
        ensures
            final(self)@ == (State { fee_bps, ..old(self)@ }),
    {
        self.fee_bps = fee_bps;
    }

    pub(crate) fn set_treasury(&mut self, treasury: Address)
        ensures
            final(self)@ == (State { treasury: Some(treasury), ..old(self)@ }),
    {
        self.treasury = Some(treasury);
    }

    pub(crate) fn set_paused(&mut self, paused: bool)
        ensures
            final(self)@ == (State { paused, ..old(self)@ }),
    {
        self.paused = paused;
    }

    pub(crate) fn set_locked(&mut self, locked: bool)
        ensures
            final(self)@ == (State { locked, ..old(self)@ }),
    {
        self.locked = locked;
    }

    pub(crate) fn set_last_stream_id(&mut self, id: u64)
        ensures
            final(self)@ == (State { last_stream_id: id, ..old(self)@ }),
    {
        self.last_stream_id = id;
    }

    /// The live stream under `id`, if there is one.
    pub(crate) fn find_stream(&self, id: u64) -> (found: Option<Stream>)
        ensures
            found == (if self@.streams.contains_key(id) {
                Some(self@.streams[id])
            } else {
                None
            }),
    {
        match self.streams.get(&id) {
            Some(stream) => Some(*stream),
            None => None,
        }
    }

    /// Stores `stream` under `id`, in place of what was there.
    pub(crate) fn put_stream(&mut self, id: u64, stream: Stream)
        ensures
            final(self)@ == (State { streams: old(self)@.streams.insert(id, stream), ..old(self)@ }),
    {
        self.streams.insert(id, stream);
    }

    /// Deletes the stream under `id`.
    pub(crate) fn delete_stream(&mut self, id: u64)
        ensures
            final(self)@ == (State { streams: old(self)@.streams.remove(id), ..old(self)@ }),
    {
        self.streams.remove(&id);
    }
}

} // verus!
