//! The stream registry: creating a stream, paying out what is released,
//! cancelling with a split settlement, handing a stream to another receiver.
//!
//! No operation moves funds itself. Each one decides, changes the state and
//! hands back the transfers that the caller has to carry out, with the record
//! of the change for the caller to publish. `withdraw` and
//! `cancel_stream` run under the single-flight guard from entry to return.
//! Where a transfer can call back into the engine, `begin_withdraw` and
//! `begin_cancel` are used in their place: they return with the lock still
//! held, so that a call that comes in while the transfers run is refused, and
//! `release_guard` ends the operation afterwards.

use crate::error::Error;
use crate::fees::{calculate_fee, fee_on};
use crate::state::{follows, State, StellarStream};
use crate::types::{
    Address, Event, Party, Settlement, Stream, StreamCreated, Transfer, TtlExtension, Withdrawal,
};
use vstd::prelude::*;

verus! {

/// A stored entry is extended once fewer than this many ledgers of life are
/// left to it: about thirty days.
pub const TTL_THRESHOLD: u32 = 518400;

/// The life that an extended entry has ahead, in ledgers: about sixty days.
pub const TTL_EXTEND_TO: u32 = 1036800;

/// How the escrowed rest of `stream` is split at `now`: first what goes to
/// the receiver, then what goes back to the sender. The receiver gets what
/// is released and not yet paid out, the sender all that is left after that.
pub open spec fn settlement_split(stream: Stream, now: u64) -> (int, int) {
    let to_receiver = stream.spec_withdrawable(now);
    (to_receiver, stream.amount - stream.withdrawn_amount - to_receiver)
}

/// A payment out of escrow, or none where the amount is nothing.
pub open spec fn payout(token: Address, to: Address, amount: int) -> Option<Transfer> {
    if amount > 0 {
        Some(Transfer { token, from: Party::Escrow, to: Party::Account(to), amount: amount as i128 })
    } else {
        None
    }
}

impl State {
    /// Creating a stream. The checks come in this order: pause flag, end
    /// after start, cliff from start to before end, positive amount, a
    /// treasury where a fee is due, a free id.
    pub open spec fn create_stream(
        self,
        sender: Address,
        receiver: Address,
        token: Address,
        amount: i128,
        start_time: u64,
        cliff_time: u64,
        end_time: u64,
    ) -> Result<(State, StreamCreated), Error> {
        let fee = fee_on(amount as int, self.fee_bps as int);
        if self.paused {
            Err(Error::Paused)
        } else if end_time <= start_time {
            Err(Error::InvalidTimeRange)
        } else if cliff_time < start_time || cliff_time >= end_time {
            Err(Error::InvalidCliff)
        } else if amount <= 0 {
            Err(Error::InvalidAmount)
        } else if fee > 0 && self.treasury is None {
            Err(Error::TreasuryNotSet)
        } else if self.last_stream_id == u64::MAX {
            Err(Error::StreamIdsExhausted)
        } else {
            let stream_id = (self.last_stream_id + 1) as u64;
            let stream = Stream {
                sender,
                receiver,
                token,
                amount: (amount - fee) as i128,
                start_time,
                cliff_time,
                end_time,
                withdrawn_amount: 0,
            };
            Ok(
                (
                    State {
                        last_stream_id: stream_id,
                        streams: self.streams.insert(stream_id, stream),
                        ..self
                    },
                    StreamCreated {
                        stream_id,
                        deposit: Transfer {
                            token,
                            from: Party::Account(sender),
                            to: Party::Escrow,
                            amount: (amount - fee) as i128,
                        },
                        fee: if fee > 0 {
                            Some(
                                Transfer {
                                    token,
                                    from: Party::Account(sender),
                                    to: Party::Account(self.treasury->0),
                                    amount: fee as i128,
                                },
                            )
                        } else {
                            None
                        },
                        event: Event::StreamCreated { sender, stream_id },
                    },
                ),
            )
        }
    }

    /// The stream under `stream_id`.
    pub open spec fn get_stream(self, stream_id: u64) -> Result<Stream, Error> {
        if self.streams.contains_key(stream_id) {
            Ok(self.streams[stream_id])
        } else {
            Err(Error::StreamNotFound)
        }
    }

    /// What the receiver of the stream under `stream_id` can take out at `now`.
    pub open spec fn get_withdrawable(self, stream_id: u64, now: u64) -> Result<i128, Error> {
        if self.streams.contains_key(stream_id) {
            Ok(self.streams[stream_id].spec_withdrawable(now) as i128)
        } else {
            Err(Error::StreamNotFound)
        }
    }

    /// A withdrawal without the guard. The checks come in this order: pause
    /// flag, the stream is there, the caller is its receiver, something can
    /// be taken out.
    pub open spec fn withdrawal(self, stream_id: u64, receiver: Address, now: u64) -> Result<
        (State, Withdrawal),
        Error,
    > {
        if self.paused {
            Err(Error::Paused)
        } else if !self.streams.contains_key(stream_id) {
            Err(Error::StreamNotFound)
        } else {
            let stream = self.streams[stream_id];
            let amount = stream.spec_withdrawable(now);
            if receiver != stream.receiver {
                Err(Error::NotReceiver)
            } else if amount <= 0 {
                Err(Error::NothingToWithdraw)
            } else {
                Ok(
                    (
                        State {
                            streams: self.streams.insert(
                                stream_id,
                                Stream {
                                    withdrawn_amount: (stream.withdrawn_amount + amount) as i128,
                                    ..stream
                                },
                            ),
                            ..self
                        },
                        Withdrawal {
                            payout: Transfer {
                                token: stream.token,
                                from: Party::Escrow,
                                to: Party::Account(receiver),
                                amount: amount as i128,
                            },
                            event: Event::Withdrawn {
                                receiver,
                                stream_id,
                                amount: amount as i128,
                            },
                        },
                    ),
                )
            }
        }
    }

    /// A cancellation without the guard. The checks come in this order:
    /// pause flag, the stream is there, the caller is its sender, the
    /// schedule has not run out.
    pub open spec fn cancellation(self, stream_id: u64, sender: Address, now: u64) -> Result<
        (State, Settlement),
        Error,
    > {
        if self.paused {
            Err(Error::Paused)
        } else if !self.streams.contains_key(stream_id) {
            Err(Error::StreamNotFound)
        } else {
            let stream = self.streams[stream_id];
            let (to_receiver, to_sender) = settlement_split(stream, now);
            if sender != stream.sender {
                Err(Error::NotSender)
            } else if now >= stream.end_time {
                Err(Error::StreamCompleted)
            } else {
                Ok(
                    (
                        State { streams: self.streams.remove(stream_id), ..self },
                        Settlement {
                            to_receiver: payout(stream.token, stream.receiver, to_receiver),
                            to_sender: payout(stream.token, stream.sender, to_sender),
                            returned: to_sender as i128,
                            event: Event::StreamCancelled { stream_id, sender },
                        },
                    ),
                )
            }
        }
    }

    /// A withdrawal from entry to return: refused while the lock is held,
    /// else the withdrawal, with the lock free again at the end.
    pub open spec fn withdraw(self, stream_id: u64, receiver: Address, now: u64) -> Result<
        (State, Withdrawal),
        Error,
    > {
        if self.locked {
            Err(Error::ReentrantCall)
        } else {
            self.withdrawal(stream_id, receiver, now)
        }
    }

    /// A withdrawal up to its transfer: as `withdraw`, but a withdrawal that
    /// succeeds leaves the lock held.
    pub open spec fn begin_withdraw(self, stream_id: u64, receiver: Address, now: u64) -> Result<
        (State, Withdrawal),
        Error,
    > {
        match self.withdraw(stream_id, receiver, now) {
            Ok((next, withdrawal)) => Ok((State { locked: true, ..next }, withdrawal)),
            Err(e) => Err(e),
        }
    }

    /// A cancellation from entry to return: refused while the lock is held,
    /// else the cancellation, with the lock free again at the end.
    pub open spec fn cancel_stream(self, stream_id: u64, sender: Address, now: u64) -> Result<
        (State, Settlement),
        Error,
    > {
        if self.locked {
            Err(Error::ReentrantCall)
        } else {
            self.cancellation(stream_id, sender, now)
        }
    }

    /// A cancellation up to its transfers: as `cancel_stream`, but a
    /// cancellation that succeeds leaves the lock held.
    pub open spec fn begin_cancel(self, stream_id: u64, sender: Address, now: u64) -> Result<
        (State, Settlement),
        Error,
    > {
        match self.cancel_stream(stream_id, sender, now) {
            Ok((next, settlement)) => Ok((State { locked: true, ..next }, settlement)),
            Err(e) => Err(e),
        }
    }

    /// Handing a stream on: for its receiver of the moment.
    pub open spec fn transfer_receiver(self, stream_id: u64, receiver: Address, new_receiver: Address)
        -> Result<(State, Event), Error> {
        if !self.streams.contains_key(stream_id) {
            Err(Error::StreamNotFound)
        } else if receiver != self.streams[stream_id].receiver {
            Err(Error::NotReceiver)
        } else {
            Ok(
                (
                    State {
                        streams: self.streams.insert(
                            stream_id,
                            Stream { receiver: new_receiver, ..self.streams[stream_id] },
                        ),
                        ..self
                    },
                    Event::ReceiverTransferred { stream_id, new_receiver },
                ),
            )
        }
    }

    /// Keeping a stream's entry alive: for anyone, for a stream that is there.
    pub open spec fn extend_stream_ttl(self, stream_id: u64) -> Result<TtlExtension, Error> {
        if self.streams.contains_key(stream_id) {
            Ok(TtlExtension { stream_id, threshold: TTL_THRESHOLD, extend_to: TTL_EXTEND_TO })
        } else {
            Err(Error::StreamNotFound)
        }
    }
}

/// A payment of `amount` out of escrow to `to`, or none where there is
/// nothing to pay.
fn payout_of(token: Address, to: Address, amount: i128) -> (transfer: Option<Transfer>)
    ensures
        transfer == payout(token, to, amount as int),
{
    if amount > 0 {
        Some(Transfer { token, from: Party::Escrow, to: Party::Account(to), amount })
    } else {
        None
    }
}

impl StellarStream {
    /// Creates a stream of `amount` from `sender` to `receiver`. The fee at
    /// the rate of the moment is taken off the amount; the rest is the
    /// stream's principal. The caller has to move the principal from the
    /// sender into escrow and the fee, where there is one, from the sender to
    /// the treasury. Ids are given out in order, starting at one, and never
    /// again once given.
    pub fn create_stream(
        &mut self,
        sender: Address,
        receiver: Address,
        token: Address,
        amount: i128,
        start_time: u64,
        cliff_time: u64,
        end_time: u64,
    ) -> (created: Result<StreamCreated, Error>)
        requires
            old(self)@.valid(),
        ensures
            follows(
                old(self)@,
                final(self)@,
                created,
                old(self)@.create_stream(
                    sender,
                    receiver,
                    token,
                    amount,
                    start_time,
                    cliff_time,
                    end_time,
                ),
            ),
            final(self)@.valid(),
    {
        if let Err(e) = self.check_not_paused() {
            return Err(e);
        }
        if end_time <= start_time {
            return Err(Error::InvalidTimeRange);
        }
        if cliff_time < start_time || cliff_time >= end_time {
            return Err(Error::InvalidCliff);
        }
        if amount <= 0 {
            return Err(Error::InvalidAmount);
        }
        let fee_amount = calculate_fee(amount, self.fee_bps());
        let principal = amount - fee_amount;
        let fee = if fee_amount > 0 {
            match self.treasury() {
                Some(treasury) => Some(
                    Transfer {
                        token,
                        from: Party::Account(sender),
                        to: Party::Account(treasury),
                        amount: fee_amount,
                    },
                ),
                None => {
                    return Err(Error::TreasuryNotSet);
                },
            }
        } else {
            None
        };
        let last = self.last_stream_id();
        if last == u64::MAX {
            return Err(Error::StreamIdsExhausted);
        }
        let stream_id: u64 = last + 1;
        let stream = Stream {
            sender,
            receiver,
            token,
            amount: principal,
            start_time,
            cliff_time,
            end_time,
            withdrawn_amount: 0,
        };
        self.set_last_stream_id(stream_id);
        self.put_stream(stream_id, stream);
        Ok(
            StreamCreated {
                stream_id,
                deposit: Transfer {
                    token,
                    from: Party::Account(sender),
                    to: Party::Escrow,
                    amount: principal,
                },
                fee,
                event: Event::StreamCreated { sender, stream_id },
            },
        )
    }

    /// The stream under `stream_id`.
    pub fn get_stream(&self, stream_id: u64) -> (stream: Result<Stream, Error>)
        ensures
            stream == self@.get_stream(stream_id),
    {
        match self.find_stream(stream_id) {
            Some(stream) => Ok(stream),
            None => Err(Error::StreamNotFound),
        }
    }

    /// What the receiver of the stream under `stream_id` can take out at `now`.
    pub fn get_withdrawable(&self, stream_id: u64, now: u64) -> (amount: Result<i128, Error>)
        requires
            self@.valid(),
        ensures
            amount == self@.get_withdrawable(stream_id, now),
    {
        match self.find_stream(stream_id) {
            Some(stream) => Ok(stream.withdrawable(now)),
            None => Err(Error::StreamNotFound),
        }
    }

    /// The body of a withdrawal, which runs with the lock held.
    fn withdrawal(&mut self, stream_id: u64, receiver: Address, now: u64) -> (paid: Result<
        Withdrawal,
        Error,
    >)
        requires
            old(self)@.valid(),
        ensures
            follows(old(self)@, final(self)@, paid, old(self)@.withdrawal(stream_id, receiver, now)),
            final(self)@.valid(),
    {
        if let Err(e) = self.check_not_paused() {
            return Err(e);
        }
        let stream = match self.find_stream(stream_id) {
            Some(stream) => stream,
            None => {
                return Err(Error::StreamNotFound);
            },
        };
        if receiver != stream.receiver {
            return Err(Error::NotReceiver);
        }
        let amount = stream.withdrawable(now);
        if amount <= 0 {
            return Err(Error::NothingToWithdraw);
        }
        let updated = Stream { withdrawn_amount: stream.withdrawn_amount + amount, ..stream };
        self.put_stream(stream_id, updated);
        Ok(
            Withdrawal {
                payout: Transfer {
                    token: stream.token,
                    from: Party::Escrow,
                    to: Party::Account(receiver),
                    amount,
                },
                event: Event::Withdrawn { receiver, stream_id, amount },
            },
        )
    }

    /// The body of a cancellation, which runs with the lock held.
    fn cancellation(&mut self, stream_id: u64, sender: Address, now: u64) -> (settled: Result<
        Settlement,
        Error,
    >)
        requires
            old(self)@.valid(),
        ensures
            follows(
                old(self)@,
                final(self)@,
                settled,
                old(self)@.cancellation(stream_id, sender, now),
            ),
            final(self)@.valid(),
    {
        if let Err(e) = self.check_not_paused() {
            return Err(e);
        }
        let stream = match self.find_stream(stream_id) {
            Some(stream) => stream,
            None => {
                return Err(Error::StreamNotFound);
            },
        };
        if sender != stream.sender {
            return Err(Error::NotSender);
        }
        if now >= stream.end_time {
            return Err(Error::StreamCompleted);
        }
        let to_receiver = stream.withdrawable(now);
        let to_sender = stream.amount - stream.withdrawn_amount - to_receiver;
        self.delete_stream(stream_id);
        Ok(
            Settlement {
                to_receiver: payout_of(stream.token, stream.receiver, to_receiver),
                to_sender: payout_of(stream.token, stream.sender, to_sender),
                returned: to_sender,
                event: Event::StreamCancelled { stream_id, sender },
            },
        )
    }

    /// Pays out to `receiver` all that is released at `now` and not yet paid
    /// out from the stream under `stream_id`, and hands back the transfer
    /// that the caller has to carry out and the record to publish. The call takes the lock at entry
    /// and frees it before it returns, whether it succeeds or fails.
    pub fn withdraw(&mut self, stream_id: u64, receiver: Address, now: u64) -> (paid: Result<
        Withdrawal,
        Error,
    >)
        requires
            old(self)@.valid(),
        ensures
            follows(old(self)@, final(self)@, paid, old(self)@.withdraw(stream_id, receiver, now)),
            final(self)@.valid(),
    {
        match self.acquire_guard() {
            Ok(()) => {},
            Err(e) => {
                return Err(e);
            },
        }
        let paid = self.withdrawal(stream_id, receiver, now);
        self.release_guard();
        paid
    }

    /// As `withdraw`, but where the withdrawal succeeds the lock stays held
    /// until `release_guard` is called, so that nothing guarded can run
    /// while the caller carries the transfer out.
    pub fn begin_withdraw(&mut self, stream_id: u64, receiver: Address, now: u64) -> (paid: Result<
        Withdrawal,
        Error,
    >)
        requires
            old(self)@.valid(),
        ensures
            follows(
                old(self)@,
                final(self)@,
                paid,
                old(self)@.begin_withdraw(stream_id, receiver, now),
            ),
            final(self)@.valid(),
    {
        match self.acquire_guard() {
            Ok(()) => {},
            Err(e) => {
                return Err(e);
            },
        }
        let paid = self.withdrawal(stream_id, receiver, now);
        if paid.is_err() {
            self.release_guard();
        }
        paid
    }

    /// Cancels the stream under `stream_id` on the word of `sender`, who
    /// must be its sender, before its schedule has run out. What is released
    /// at `now` and not yet paid out goes to the receiver, the rest back to
    /// the sender; the stream is deleted and its id is never valid again.
    /// The call takes the lock at entry and frees it before it returns,
    /// whether it succeeds or fails.
    pub fn cancel_stream(&mut self, stream_id: u64, sender: Address, now: u64) -> (settled: Result<
        Settlement,
        Error,
    >)
        requires
            old(self)@.valid(),
        ensures
            follows(
                old(self)@,
                final(self)@,
                settled,
                old(self)@.cancel_stream(stream_id, sender, now),
            ),
            final(self)@.valid(),
    {
        match self.acquire_guard() {
            Ok(()) => {},
            Err(e) => {
                return Err(e);
            },
        }
        let settled = self.cancellation(stream_id, sender, now);
        self.release_guard();
        settled
    }

    /// As `cancel_stream`, but where the cancellation succeeds the lock stays
    /// held until `release_guard` is called, so that nothing guarded can run
    /// while the caller carries the transfers out.
    pub fn begin_cancel(&mut self, stream_id: u64, sender: Address, now: u64) -> (settled: Result<
        Settlement,
        Error,
    >)
        requires
            old(self)@.valid(),
        ensures
            follows(
                old(self)@,
                final(self)@,
                settled,
                old(self)@.begin_cancel(stream_id, sender, now),
            ),
            final(self)@.valid(),
    {
        match self.acquire_guard() {
            Ok(()) => {},
            Err(e) => {
                return Err(e);
            },
        }
        let settled = self.cancellation(stream_id, sender, now);
        if settled.is_err() {
            self.release_guard();
        }
        settled
    }

    /// Hands the stream under `stream_id` from `receiver`, who must be its
    /// receiver of the moment, to `new_receiver`. Neither the sender nor an
    /// Admin can do this. It moves no funds, so neither the pause flag nor
    /// the guard stands in its way.
    pub fn transfer_receiver(&mut self, stream_id: u64, receiver: Address, new_receiver: Address)
        -> (done: Result<Event, Error>)
        requires
            old(self)@.valid(),
        ensures
            follows(
                old(self)@,
                final(self)@,
                done,
                old(self)@.transfer_receiver(stream_id, receiver, new_receiver),
            ),
            final(self)@.valid(),
    {
        let stream = match self.find_stream(stream_id) {
            Some(stream) => stream,
            None => {
                return Err(Error::StreamNotFound);
            },
        };
        if receiver != stream.receiver {
            return Err(Error::NotReceiver);
        }
        self.put_stream(stream_id, Stream { receiver: new_receiver, ..stream });
        Ok(Event::ReceiverTransferred { stream_id, new_receiver })
    }

    /// Asks for the stored entry of the stream under `stream_id` to be kept
    /// alive. Anyone may ask: to pay for a stream's upkeep takes no privilege.
    pub fn extend_stream_ttl(&self, stream_id: u64) -> (extension: Result<TtlExtension, Error>)
        ensures
            extension == self@.extend_stream_ttl(stream_id),
    {
        match self.find_stream(stream_id) {
            Some(_) => Ok(
                TtlExtension { stream_id, threshold: TTL_THRESHOLD, extend_to: TTL_EXTEND_TO },
            ),
            None => Err(Error::StreamNotFound),
        }
    }
}

} // verus!
