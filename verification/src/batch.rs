//! Batch creation: many streams from one sender, funded by one transfer.
//!
//! This path stands beside single creation and differs from it on purpose:
//! it takes no fee, so that one transfer of the plain sum funds the whole
//! batch, and it does not look at the pause flag. It asks of each request
//! what single creation asks of a stream, the place of the cliff included,
//! so that every stream it stores is sound.

use crate::error::Error;
use crate::state::{State, StellarStream};
use crate::types::{Address, BatchCreated, Event, Party, Stream, StreamRequest, Transfer};
use vstd::prelude::*;

verus! {

/// The first rule that `request` breaks, if it breaks one: end after start,
/// cliff from start to before end, positive amount.
pub open spec fn request_error(request: StreamRequest) -> Option<Error> {
    if request.end_time <= request.start_time {
        Some(Error::InvalidTimeRange)
    } else if request.cliff_time < request.start_time || request.cliff_time >= request.end_time {
        Some(Error::InvalidCliff)
    } else if request.amount <= 0 {
        Some(Error::InvalidAmount)
    } else {
        None
    }
}

/// The sum of the amounts asked for.
pub open spec fn total_amount(requests: Seq<StreamRequest>) -> int
    decreases requests.len(),
{
    if requests.len() == 0 {
        0
    } else {
        total_amount(requests.drop_last()) + requests.last().amount
    }
}

/// The requests taken in order: the sum of their amounts, or the failure of
/// the first request that breaks a rule or takes the sum beyond 128 bits.
pub open spec fn checked_total(requests: Seq<StreamRequest>) -> Result<int, Error>
    decreases requests.len(),
{
    if requests.len() == 0 {
        Ok(0)
    } else {
        match checked_total(requests.drop_last()) {
            Err(e) => Err(e),
            Ok(sum) => match request_error(requests.last()) {
                Some(e) => Err(e),
                None => if sum + requests.last().amount > i128::MAX {
                    Err(Error::AmountOverflow)
                } else {
                    Ok(sum + requests.last().amount)
                },
            },
        }
    }
}

/// The stream that `request` asks for.
pub open spec fn stream_for(sender: Address, token: Address, request: StreamRequest) -> Stream {
    Stream {
        sender,
        receiver: request.receiver,
        token,
        amount: request.amount,
        start_time: request.start_time,
        cliff_time: request.cliff_time,
        end_time: request.end_time,
        withdrawn_amount: 0,
    }
}

/// The live streams with one more for each request, under the ids that
/// follow `last` in the order of the requests.
pub open spec fn with_batch(
    streams: Map<u64, Stream>,
    last: u64,
    sender: Address,
    token: Address,
    requests: Seq<StreamRequest>,
) -> Map<u64, Stream> {
    Map::new(
        |id: u64| streams.contains_key(id) || last < id <= last + requests.len(),
        |id: u64|
            if last < id <= last + requests.len() {
                stream_for(sender, token, requests[id - last - 1])
            } else {
                streams[id]
            },
    )
}

/// The ids that follow `last`, `count` of them.
pub open spec fn ids_after(last: u64, count: nat) -> Seq<u64> {
    Seq::new(count, |i: int| (last + 1 + i) as u64)
}

/// The records of the streams that `sender` created under the ids that
/// follow `last`, `count` of them.
pub open spec fn created_after(sender: Address, last: u64, count: nat) -> Seq<Event> {
    Seq::new(count, |i: int| Event::StreamCreated { sender, stream_id: (last + 1 + i) as u64 })
}

/// What creating a batch hands back, as mathematics.
pub struct BatchOutcome {
    pub stream_ids: Seq<u64>,
    pub deposit: Transfer,
    pub events: Seq<Event>,
}

impl View for BatchCreated {
    type V = BatchOutcome;

    open spec fn view(&self) -> BatchOutcome {
        BatchOutcome { stream_ids: self.stream_ids@, deposit: self.deposit, events: self.events@ }
    }
}

impl State {
    /// Creating a batch: every request is checked before anything changes.
    pub open spec fn create_batch_streams(
        self,
        sender: Address,
        token: Address,
        requests: Seq<StreamRequest>,
    ) -> Result<(State, BatchOutcome), Error> {
        match checked_total(requests) {
            Err(e) => Err(e),
            Ok(total) => if self.last_stream_id + requests.len() > u64::MAX {
                Err(Error::StreamIdsExhausted)
            } else {
                Ok(
                    (
                        State {
                            last_stream_id: (self.last_stream_id + requests.len()) as u64,
                            streams: with_batch(
                                self.streams,
                                self.last_stream_id,
                                sender,
                                token,
                                requests,
                            ),
                            ..self
                        },
                        BatchOutcome {
                            stream_ids: ids_after(self.last_stream_id, requests.len()),
                            deposit: Transfer {
                                token,
                                from: Party::Account(sender),
                                to: Party::Escrow,
                                amount: total as i128,
                            },
                            events: created_after(sender, self.last_stream_id, requests.len()),
                        },
                    ),
                )
            },
        }
    }
}

/// A failure among the first requests is the failure of the whole list.
pub proof fn lemma_failure_stands(requests: Seq<StreamRequest>, upto: int)
    requires
        0 <= upto <= requests.len(),
        checked_total(requests.take(upto)) is Err,
    ensures
        checked_total(requests) == checked_total(requests.take(upto)),
    decreases requests.len() - upto,
{
    if upto < requests.len() {
        assert(requests.take(upto + 1).drop_last() =~= requests.take(upto));
        lemma_failure_stands(requests, upto + 1);
    } else {
        assert(requests.take(upto) =~= requests);
    }
}

/// A list that is taken in full breaks no rule at any place, and its sum is
/// the plain sum of its amounts, within 128 bits.
pub proof fn lemma_checked_total_is_sum(requests: Seq<StreamRequest>)
    requires
        checked_total(requests) is Ok,
    ensures
        checked_total(requests) == Ok::<int, Error>(total_amount(requests)),
        0 <= total_amount(requests) <= i128::MAX,
        forall|i: int| 0 <= i < requests.len() ==> request_error(#[trigger] requests[i]) is None,
    decreases requests.len(),
{
    if requests.len() > 0 {
        let front = requests.drop_last();
        lemma_checked_total_is_sum(front);
        assert forall|i: int| 0 <= i < requests.len() implies request_error(
            #[trigger] requests[i],
        ) is None by {
            if i < front.len() {
                assert(requests[i] == front[i]);
            }
        }
    }
}

impl StellarStream {
    /// Creates one stream from `sender` for each request, all in `token`.
    /// Every request is checked before anything changes: where one breaks a
    /// rule, the first such request decides the failure and nothing is
    /// created. The caller has to move the sum of all amounts from the sender
    /// into escrow in one transfer and to publish one record for each new
    /// stream. The streams get the ids that follow the last one given out,
    /// in the order of the requests. No fee is taken and
    /// the pause flag is not looked at.
    pub fn create_batch_streams(
        &mut self,
        sender: Address,
        token: Address,
        requests: Vec<StreamRequest>,
    ) -> (created: Result<BatchCreated, Error>)
        requires
            old(self)@.valid(),
        ensures
            match old(self)@.create_batch_streams(sender, token, requests@) {
                Ok((next, outcome)) => {
                    &&& created is Ok
                    &&& created->Ok_0@ == outcome
                    &&& final(self)@ == next
                },
                Err(e) => {
                    &&& created is Err
                    &&& created->Err_0 == e
                    &&& final(self)@ == old(self)@
                },
            },
            final(self)@.valid(),
    {
        let ghost before = self@;
        let count = requests.len();
        let mut total: i128 = 0;
        let mut i: usize = 0;
        while i < count
            invariant
                self@ == before,
                before.valid(),
                i <= count,
                count == requests@.len(),
                checked_total(requests@.take(i as int)) == Ok::<int, Error>(total as int),
                0 <= total,
            decreases count - i,
        {
            let request = requests[i];
            proof {
                assert(requests@.take(i + 1).drop_last() =~= requests@.take(i as int));
                assert(requests@.take(i + 1).last() == request);
            }
            if request.end_time <= request.start_time {
                proof {
                    lemma_failure_stands(requests@, i + 1);
                }
                return Err(Error::InvalidTimeRange);
            }
            if request.cliff_time < request.start_time || request.cliff_time >= request.end_time {
                proof {
                    lemma_failure_stands(requests@, i + 1);
                }
                return Err(Error::InvalidCliff);
            }
            if request.amount <= 0 {
                proof {
                    lemma_failure_stands(requests@, i + 1);
                }
                return Err(Error::InvalidAmount);
            }
            if request.amount > i128::MAX - total {
                proof {
                    lemma_failure_stands(requests@, i + 1);
                }
                return Err(Error::AmountOverflow);
            }
            total = total + request.amount;
            i += 1;
        }
        proof {
            assert(requests@.take(count as int) =~= requests@);
            lemma_checked_total_is_sum(requests@);
        }
        let last = self.last_stream_id();
        if count as u64 > u64::MAX - last {
            return Err(Error::StreamIdsExhausted);
        }
        let mut stream_ids: Vec<u64> = Vec::new();
        let mut events: Vec<Event> = Vec::new();
        let mut k: usize = 0;
        proof {
            assert(with_batch(before.streams, last, sender, token, requests@.take(0))
                =~= before.streams);
        }
        while k < count
            invariant
                k <= count,
                count == requests@.len(),
                last + count <= u64::MAX,
                last == before.last_stream_id,
                self@ == (State {
                    streams: with_batch(
                        before.streams,
                        last,
                        sender,
                        token,
                        requests@.take(k as int),
                    ),
                    ..before
                }),
                stream_ids@ == ids_after(last, k as nat),
                events@ == created_after(sender, last, k as nat),
            decreases count - k,
        {
            let request = requests[k];
            let stream_id: u64 = last + 1 + k as u64;
            let stream = Stream {
                sender,
                receiver: request.receiver,
                token,
                amount: request.amount,
                start_time: request.start_time,
                cliff_time: request.cliff_time,
                end_time: request.end_time,
                withdrawn_amount: 0,
            };
            self.put_stream(stream_id, stream);
            stream_ids.push(stream_id);
            events.push(Event::StreamCreated { sender, stream_id });
            proof {
                assert(events@ =~= created_after(sender, last, (k + 1) as nat));
                assert(with_batch(
                    before.streams,
                    last,
                    sender,
                    token,
                    requests@.take(k as int),
                ).insert(stream_id, stream) =~= with_batch(
                    before.streams,
                    last,
                    sender,
                    token,
                    requests@.take(k + 1),
                ));
                assert(stream_ids@ =~= ids_after(last, (k + 1) as nat));
            }
            k += 1;
        }
        proof {
            assert(requests@.take(count as int) =~= requests@);
        }
        self.set_last_stream_id(last + count as u64);
        Ok(
            BatchCreated {
                stream_ids,
                deposit: Transfer {
                    token,
                    from: Party::Account(sender),
                    to: Party::Escrow,
                    amount: total,
                },
                events,
            },
        )
    }
}

} // verus!
