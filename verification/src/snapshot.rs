//! Taking the engine apart into plain values and putting it together again,
//! for a caller that keeps it in a store between operations.
//!
//! An engine may be put together from a part of what was stored: an
//! operation on one stream reads and writes that stream's entry alone, so
//! the grants, the settings and the streams that the operation names are
//! all that it needs.

use crate::state::{State, StellarStream, MAX_FEE_BPS};
use crate::types::{Address, RoleGrant, Stream};
use vstd::prelude::*;

verus! {

/// The streams of a list of entries by id, a later entry in place of an
/// earlier one under the same id.
pub open spec fn streams_of(entries: Seq<(u64, Stream)>) -> Map<u64, Stream>
    decreases entries.len(),
{
    if entries.len() == 0 {
        Map::empty()
    } else {
        streams_of(entries.drop_last()).insert(entries.last().0, entries.last().1)
    }
}

/// Whether these parts make up an engine: no grant stands twice, the fee
/// rate is within its limit, no id stands twice, and every stream is sound
/// under an id from one up to the last one given out.
pub open spec fn restorable(
    grants: Seq<RoleGrant>,
    fee_bps: u32,
    last_stream_id: u64,
    entries: Seq<(u64, Stream)>,
) -> bool {
    &&& grants.no_duplicates()
    &&& fee_bps <= MAX_FEE_BPS
    &&& forall|i: int|
        0 <= i < entries.len() ==> 1 <= (#[trigger] entries[i]).0 <= last_stream_id
            && entries[i].1.valid()
    &&& forall|i: int, j: int|
        0 <= i < j < entries.len() ==> (#[trigger] entries[i]).0 != (#[trigger] entries[j]).0
}

/// What `streams_of` holds: the ids of the entries and no others, and under
/// the id of an entry its stream, where no id stands twice.
pub proof fn lemma_streams_of(entries: Seq<(u64, Stream)>)
    requires
        forall|i: int, j: int|
            0 <= i < j < entries.len() ==> (#[trigger] entries[i]).0 != (#[trigger] entries[j]).0,
    ensures
        forall|id: u64|
            streams_of(entries).contains_key(id) <==> exists|i: int|
                0 <= i < entries.len() && (#[trigger] entries[i]).0 == id,
        forall|i: int|
            0 <= i < entries.len() ==> streams_of(entries).contains_key((#[trigger] entries[i]).0)
                && streams_of(entries)[entries[i].0] == entries[i].1,
    decreases entries.len(),
{
    if entries.len() > 0 {
        let front = entries.drop_last();
        let last = entries.last();
        assert forall|i: int, j: int| 0 <= i < j < front.len() implies (#[trigger] front[i]).0 != (
        #[trigger] front[j]).0 by {
            assert(front[i] == entries[i]);
            assert(front[j] == entries[j]);
        }
        lemma_streams_of(front);
        assert forall|id: u64|
            streams_of(entries).contains_key(id) <==> exists|i: int|
                0 <= i < entries.len() && (#[trigger] entries[i]).0 == id by {
            if streams_of(entries).contains_key(id) {
                if id == last.0 {
                    assert(entries[entries.len() - 1].0 == id);
                } else {
                    assert(streams_of(front).contains_key(id));
                    let i = choose|i: int| 0 <= i < front.len() && (#[trigger] front[i]).0 == id;
                    assert(front[i] == entries[i]);
                    assert(entries[i].0 == id);
                }
            }
            if exists|i: int| 0 <= i < entries.len() && (#[trigger] entries[i]).0 == id {
                let i = choose|i: int| 0 <= i < entries.len() && (#[trigger] entries[i]).0 == id;
                if i < front.len() {
                    assert(front[i] == entries[i]);
                    assert(front[i].0 == id);
                    assert(streams_of(front).contains_key(id));
                } else {
                    assert(id == last.0);
                }
                assert(streams_of(entries).contains_key(id));
            }
        }
        assert forall|i: int| 0 <= i < entries.len() implies streams_of(entries).contains_key(
            (#[trigger] entries[i]).0,
        ) && streams_of(entries)[entries[i].0] == entries[i].1 by {
            if i < front.len() {
                assert(front[i] == entries[i]);
                assert(entries[i].0 != entries[entries.len() - 1].0);
            }
        }
    }
}

impl StellarStream {
    /// The standing grants, the oldest first.
    pub fn grants(&self) -> (grants: Vec<RoleGrant>)
        ensures
            grants@ == self@.grants,
    {
        let count = self.grant_count();
        let mut grants: Vec<RoleGrant> = Vec::new();
        let mut i: usize = 0;
        while i < count
            invariant
                i <= count,
                count == self@.grants.len(),
                grants@ == self@.grants.take(i as int),
            decreases count - i,
        {
            grants.push(self.grant_at(i));
            proof {
                assert(grants@ =~= self@.grants.take(i + 1));
            }
            i += 1;
        }
        proof {
            assert(self@.grants.take(count as int) =~= self@.grants);
        }
        grants
    }

    /// Puts an engine together from parts that were taken from one before:
    /// the grants with the oldest first, the settings, the last id given
    /// out, and the streams with their ids. Parts that do not make up an
    /// engine are refused.
    pub fn restore(
        grants: Vec<RoleGrant>,
        fee_bps: u32,
        treasury: Option<Address>,
        paused: bool,
        locked: bool,
        last_stream_id: u64,
        streams: Vec<(u64, Stream)>,
    ) -> (restored: Option<Self>)
        ensures
            restored is Some <==> restorable(grants@, fee_bps, last_stream_id, streams@),
            restored is Some ==> restored->0@ == (State {
                grants: grants@,
                fee_bps,
                treasury,
                paused,
                locked,
                last_stream_id,
                streams: streams_of(streams@),
            }) && restored->0@.valid(),
    {
        if fee_bps > MAX_FEE_BPS {
            return None;
        }
        let mut engine = StellarStream::blank(fee_bps, treasury, paused, locked, last_stream_id);
        let ghost start = engine@;
        let mut i: usize = 0;
        proof {
            assert(grants@.take(0) =~= Seq::<RoleGrant>::empty());
        }
        while i < grants.len()
            invariant
                i <= grants@.len(),
                engine@ == (State { grants: grants@.take(i as int), ..start }),
                grants@.take(i as int).no_duplicates(),
            decreases grants@.len() - i,
        {
            let grant = grants[i];
            if engine.grant_position(grant).is_some() {
                proof {
                    let earlier = grants@.take(i as int).index_of(grant);
                    assert(grants@[earlier] == grant && grants@[i as int] == grant);
                }
                return None;
            }
            engine.push_grant(grant);
            proof {
                assert(grants@.take(i as int).push(grant) =~= grants@.take(i + 1));
            }
            i += 1;
        }
        proof {
            assert(grants@.take(grants@.len() as int) =~= grants@);
        }
        let ghost filled = engine@;
        let mut k: usize = 0;
        while k < streams.len()
            invariant
                k <= streams@.len(),
                filled.streams == Map::<u64, Stream>::empty(),
                engine@ == (State { streams: streams_of(streams@.take(k as int)), ..filled }),
                restorable(grants@, fee_bps, last_stream_id, streams@.take(k as int)),
            decreases streams@.len() - k,
        {
            let (id, stream) = streams[k];
            let sound = stream.start_time <= stream.cliff_time && stream.cliff_time
                < stream.end_time && stream.amount > 0 && 0 <= stream.withdrawn_amount
                && stream.withdrawn_amount <= stream.amount;
            if id < 1 || id > last_stream_id || !sound {
                return None;
            }
            proof {
                lemma_streams_of(streams@.take(k as int));
            }
            if engine.find_stream(id).is_some() {
                proof {
                    let earlier = choose|e: int|
                        0 <= e < k && (#[trigger] streams@.take(k as int)[e]).0 == id;
                    assert(streams@[earlier].0 == streams@[k as int].0);
                }
                return None;
            }
            engine.put_stream(id, stream);
            proof {
                assert(streams@.take(k + 1).drop_last() =~= streams@.take(k as int));
                assert(streams@.take(k + 1).last() == streams@[k as int]);
                assert forall|a: int, b: int| 0 <= a < b < k + 1 implies (#[trigger] streams@.take(
                    k + 1,
                )[a]).0 != (#[trigger] streams@.take(k + 1)[b]).0 by {
                    if b < k {
                        assert(streams@.take(k as int)[a].0 != streams@.take(k as int)[b].0);
                    } else {
                        assert(streams@.take(k as int)[a].0 == streams@.take(k + 1)[a].0);
                    }
                }
                assert forall|a: int| 0 <= a < k + 1 implies 1 <= (#[trigger] streams@.take(
                    k + 1,
                )[a]).0 <= last_stream_id && streams@.take(k + 1)[a].1.valid() by {
                    if a < k {
                        assert(streams@.take(k as int)[a] == streams@.take(k + 1)[a]);
                    }
                }
            }
            k += 1;
        }
        proof {
            assert(streams@.take(streams@.len() as int) =~= streams@);
            lemma_streams_of(streams@);
        }
        Some(engine)
    }
}

} // verus!
