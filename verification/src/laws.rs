//! What holds of the engine as a whole, beyond what each operation promises
//! for itself.

use crate::batch::{lemma_checked_total_is_sum, request_error, stream_for, total_amount};
use crate::error::Error;
use crate::fees::{fee_on, lemma_fee_leaves_principal};
use crate::math::{lemma_unlocked_in_range, lemma_unlocked_is_monotonic};
use crate::state::{without_grant, State};
use crate::streams::settlement_split;
use crate::types::{
    Address, Event, Role, RoleGrant, Settlement, Stream, StreamRequest, Withdrawal,
};
use vstd::prelude::*;

verus! {

/// Of every live stream: what was paid out lies between nothing and the
/// principal, and what is released at any time lies there too.
pub proof fn law_live_streams_are_sound(state: State, stream_id: u64, now: u64)
    requires
        state.valid(),
        state.streams.contains_key(stream_id),
    ensures
        0 <= state.streams[stream_id].withdrawn_amount <= state.streams[stream_id].amount,
        0 <= state.streams[stream_id].spec_unlocked(now) <= state.streams[stream_id].amount,
        0 <= state.streams[stream_id].spec_withdrawable(now) <= state.streams[stream_id].amount
            - state.streams[stream_id].withdrawn_amount,
{
    let stream = state.streams[stream_id];
    lemma_unlocked_in_range(
        stream.amount as int,
        stream.start_time as int,
        stream.cliff_time as int,
        stream.end_time as int,
        now as int,
    );
}

/// A stream that was just created reads back as it was submitted: the
/// parties, the token and the times as given, the amount less the fee as the
/// principal, and nothing paid out. Principal and fee add up to the amount.
pub proof fn law_created_stream_reads_back(
    state: State,
    sender: Address,
    receiver: Address,
    token: Address,
    amount: i128,
    start_time: u64,
    cliff_time: u64,
    end_time: u64,
)
    requires
        state.valid(),
        state.create_stream(sender, receiver, token, amount, start_time, cliff_time, end_time)
            is Ok,
    ensures
        ({
            let (next, created) = state.create_stream(
                sender,
                receiver,
                token,
                amount,
                start_time,
                cliff_time,
                end_time,
            )->Ok_0;
            let fee = fee_on(amount as int, state.fee_bps as int);
            &&& next.get_stream(created.stream_id) == Ok::<Stream, Error>(
                Stream {
                    sender,
                    receiver,
                    token,
                    amount: (amount - fee) as i128,
                    start_time,
                    cliff_time,
                    end_time,
                    withdrawn_amount: 0,
                },
            )
            &&& 0 <= fee < amount
            &&& created.deposit.amount == amount - fee
            &&& created.fee is Some <==> fee > 0
            &&& created.fee is Some ==> created.fee->0.amount == fee
            &&& next.valid()
        }),
{
    lemma_fee_leaves_principal(amount as int, state.fee_bps as int);
}

/// The id of a new stream was never in use before: it lies above every id
/// given out so far, so the id of a deleted stream does not come back.
pub proof fn law_ids_are_fresh(
    state: State,
    sender: Address,
    receiver: Address,
    token: Address,
    amount: i128,
    start_time: u64,
    cliff_time: u64,
    end_time: u64,
)
    requires
        state.valid(),
        state.create_stream(sender, receiver, token, amount, start_time, cliff_time, end_time)
            is Ok,
    ensures
        ({
            let (next, created) = state.create_stream(
                sender,
                receiver,
                token,
                amount,
                start_time,
                cliff_time,
                end_time,
            )->Ok_0;
            &&& created.stream_id == state.last_stream_id + 1
            &&& !state.streams.contains_key(created.stream_id)
            &&& next.last_stream_id == created.stream_id
            &&& forall|id: u64|
                id != created.stream_id ==> next.get_stream(id) == state.get_stream(id)
        }),
{
}

/// Each stream of a batch reads back as its request asked for it, under an
/// id that was never in use before, with nothing paid out; the one transfer
/// moves the plain sum of the amounts; and every stream that was there
/// before is as it was.
pub proof fn law_batch_reads_back(
    state: State,
    sender: Address,
    token: Address,
    requests: Seq<StreamRequest>,
    index: int,
)
    requires
        state.valid(),
        state.create_batch_streams(sender, token, requests) is Ok,
        0 <= index < requests.len(),
    ensures
        ({
            let (next, created) = state.create_batch_streams(sender, token, requests)->Ok_0;
            let stream_id = created.stream_ids[index];
            &&& created.stream_ids.len() == requests.len()
            &&& created.events.len() == requests.len()
            &&& stream_id == state.last_stream_id + 1 + index
            &&& !state.streams.contains_key(stream_id)
            &&& next.get_stream(stream_id) == Ok::<Stream, Error>(
                stream_for(sender, token, requests[index]),
            )
            &&& created.events[index] == (Event::StreamCreated { sender, stream_id })
            &&& created.deposit.amount == total_amount(requests)
            &&& forall|id: u64|
                state.streams.contains_key(id) ==> next.get_stream(id) == state.get_stream(id)
            &&& next.valid()
        }),
{
    lemma_checked_total_is_sum(requests);
    let (next, created) = state.create_batch_streams(sender, token, requests)->Ok_0;
    assert forall|id: u64| #[trigger] next.streams.contains_key(id) implies 1 <= id
        <= next.last_stream_id && next.streams[id].valid() by {
        if state.last_stream_id < id <= state.last_stream_id + requests.len() {
            assert(request_error(requests[id - state.last_stream_id - 1]) is None);
        } else {
            assert(state.streams.contains_key(id));
        }
    }
}

/// The query for what can be taken out reads nothing but the stream's own
/// entry: two states that hold the same stream under an id answer alike at
/// the same time. So does one state asked twice.
pub proof fn law_withdrawable_depends_on_the_stream_alone(
    first: State,
    second: State,
    stream_id: u64,
    now: u64,
)
    requires
        first.get_stream(stream_id) == second.get_stream(stream_id),
    ensures
        first.get_withdrawable(stream_id, now) == second.get_withdrawable(stream_id, now),
{
}

/// What can be taken out never goes down as time goes on, as long as nothing
/// is taken out.
pub proof fn law_withdrawable_grows_with_time(state: State, stream_id: u64, earlier: u64, later: u64)
    requires
        state.valid(),
        state.streams.contains_key(stream_id),
        earlier <= later,
    ensures
        state.get_withdrawable(stream_id, earlier)->Ok_0 <= state.get_withdrawable(
            stream_id,
            later,
        )->Ok_0,
{
    let stream = state.streams[stream_id];
    law_live_streams_are_sound(state, stream_id, earlier);
    law_live_streams_are_sound(state, stream_id, later);
    lemma_unlocked_is_monotonic(
        stream.amount as int,
        stream.start_time as int,
        stream.cliff_time as int,
        stream.end_time as int,
        earlier as int,
        later as int,
    );
}

/// A withdrawal pays out exactly what the query named, brings the running
/// total up to what is released, and leaves nothing to take out at that
/// time: the same call made again is refused and pays nothing twice.
pub proof fn law_withdrawal_takes_all_that_is_released(
    state: State,
    stream_id: u64,
    receiver: Address,
    now: u64,
)
    requires
        state.valid(),
        state.withdraw(stream_id, receiver, now) is Ok,
    ensures
        ({
            let (next, paid) = state.withdraw(stream_id, receiver, now)->Ok_0;
            let stream = state.streams[stream_id];
            &&& Ok::<i128, Error>(paid.payout.amount) == state.get_withdrawable(stream_id, now)
            &&& paid.payout.amount > 0
            &&& next.streams[stream_id].withdrawn_amount == stream.spec_unlocked(now)
            &&& next.streams[stream_id].withdrawn_amount == stream.withdrawn_amount
                + paid.payout.amount
            &&& next.get_withdrawable(stream_id, now) == Ok::<i128, Error>(0)
            &&& next.withdraw(stream_id, receiver, now) == Err::<(State, Withdrawal), Error>(
                Error::NothingToWithdraw,
            )
            &&& next.valid()
        }),
{
    law_live_streams_are_sound(state, stream_id, now);
    let (next, paid) = state.withdraw(stream_id, receiver, now)->Ok_0;
    assert(next.streams.contains_key(stream_id));
}

/// A cancellation shares out the whole principal: what was paid out before,
/// what goes to the receiver now and what goes back to the sender add up to
/// it, and neither part is negative. Where the running total has kept to
/// what is released, the sender gets back exactly what is not yet released.
/// The stream is gone afterwards, and its id stays behind the counter, so
/// that no later stream gets it.
pub proof fn law_cancellation_shares_out_the_principal(
    state: State,
    stream_id: u64,
    sender: Address,
    now: u64,
)
    requires
        state.valid(),
        state.cancel_stream(stream_id, sender, now) is Ok,
    ensures
        ({
            let (next, settled) = state.cancel_stream(stream_id, sender, now)->Ok_0;
            let stream = state.streams[stream_id];
            let (to_receiver, to_sender) = settlement_split(stream, now);
            &&& 0 <= to_receiver
            &&& 0 <= to_sender
            &&& stream.withdrawn_amount + to_receiver + to_sender == stream.amount
            &&& stream.withdrawn_amount <= stream.spec_unlocked(now) ==> to_sender == stream.amount
                - stream.spec_unlocked(now)
            &&& settled.returned == to_sender
            &&& settled.to_receiver is Some <==> to_receiver > 0
            &&& settled.to_receiver is Some ==> settled.to_receiver->0.amount == to_receiver
            &&& settled.to_sender is Some <==> to_sender > 0
            &&& settled.to_sender is Some ==> settled.to_sender->0.amount == to_sender
            &&& next.get_stream(stream_id) == Err::<Stream, Error>(Error::StreamNotFound)
            &&& stream_id <= next.last_stream_id == state.last_stream_id
            &&& next.valid()
        }),
{
    law_live_streams_are_sound(state, stream_id, now);
}

/// While a withdrawal that has begun holds the lock, every guarded operation
/// is refused, whatever it asks for. Once the lock is released, the state is
/// the one that the withdrawal leaves when it runs from entry to return
/// without anything in between: the outer call's effects stand, and the lock
/// is free.
pub proof fn law_nested_call_during_withdrawal_is_refused(
    state: State,
    stream_id: u64,
    receiver: Address,
    now: u64,
    nested_id: u64,
    nested_caller: Address,
    nested_now: u64,
)
    requires
        state.begin_withdraw(stream_id, receiver, now) is Ok,
    ensures
        ({
            let (held, paid) = state.begin_withdraw(stream_id, receiver, now)->Ok_0;
            &&& !state.locked
            &&& held.locked
            &&& held.withdraw(nested_id, nested_caller, nested_now) == Err::<
                (State, Withdrawal),
                Error,
            >(Error::ReentrantCall)
            &&& held.begin_withdraw(nested_id, nested_caller, nested_now) == Err::<
                (State, Withdrawal),
                Error,
            >(Error::ReentrantCall)
            &&& held.cancel_stream(nested_id, nested_caller, nested_now) == Err::<
                (State, Settlement),
                Error,
            >(Error::ReentrantCall)
            &&& held.begin_cancel(nested_id, nested_caller, nested_now) == Err::<
                (State, Settlement),
                Error,
            >(Error::ReentrantCall)
            &&& state.withdraw(stream_id, receiver, now) == Ok::<(State, Withdrawal), Error>(
                (held.released(), paid),
            )
        }),
{
    let (next, paid) = state.withdraw(stream_id, receiver, now)->Ok_0;
    assert((State { locked: true, ..next }).released() == next);
}

/// While a cancellation that has begun holds the lock, every guarded
/// operation is refused, whatever it asks for. Once the lock is released,
/// the state is the one that the cancellation leaves when it runs from entry
/// to return without anything in between.
pub proof fn law_nested_call_during_cancellation_is_refused(
    state: State,
    stream_id: u64,
    sender: Address,
    now: u64,
    nested_id: u64,
    nested_caller: Address,
    nested_now: u64,
)
    requires
        state.begin_cancel(stream_id, sender, now) is Ok,
    ensures
        ({
            let (held, settled) = state.begin_cancel(stream_id, sender, now)->Ok_0;
            &&& !state.locked
            &&& held.locked
            &&& held.withdraw(nested_id, nested_caller, nested_now) == Err::<
                (State, Withdrawal),
                Error,
            >(Error::ReentrantCall)
            &&& held.begin_withdraw(nested_id, nested_caller, nested_now) == Err::<
                (State, Withdrawal),
                Error,
            >(Error::ReentrantCall)
            &&& held.cancel_stream(nested_id, nested_caller, nested_now) == Err::<
                (State, Settlement),
                Error,
            >(Error::ReentrantCall)
            &&& held.begin_cancel(nested_id, nested_caller, nested_now) == Err::<
                (State, Settlement),
                Error,
            >(Error::ReentrantCall)
            &&& state.cancel_stream(stream_id, sender, now) == Ok::<(State, Settlement), Error>(
                (held.released(), settled),
            )
        }),
{
    let (next, settled) = state.cancel_stream(stream_id, sender, now)->Ok_0;
    assert((State { locked: true, ..next }).released() == next);
}

/// A guarded operation that runs from entry to return on a free lock leaves
/// the lock free where it succeeds, and one that only begins leaves it held.
/// Where either fails the state is as before, so the lock is free then too.
pub proof fn law_lock_is_free_after_every_exit(
    state: State,
    stream_id: u64,
    caller: Address,
    now: u64,
)
    requires
        !state.locked,
    ensures
        state.withdraw(stream_id, caller, now) is Ok ==> !state.withdraw(
            stream_id,
            caller,
            now,
        )->Ok_0.0.locked,
        state.cancel_stream(stream_id, caller, now) is Ok ==> !state.cancel_stream(
            stream_id,
            caller,
            now,
        )->Ok_0.0.locked,
        state.begin_withdraw(stream_id, caller, now) is Ok ==> state.begin_withdraw(
            stream_id,
            caller,
            now,
        )->Ok_0.0.locked,
        state.begin_cancel(stream_id, caller, now) is Ok ==> state.begin_cancel(
            stream_id,
            caller,
            now,
        )->Ok_0.0.locked,
{
}

/// After a grant the identity holds the role, and after a revocation it
/// does not; what others hold, and what the identity holds besides, is as
/// before.
pub proof fn law_grant_and_revoke(state: State, admin: Address, account: Address, role: Role)
    requires
        state.valid(),
        state.has_role(admin, Role::Admin),
    ensures
        ({
            let (granted, _) = state.grant_role(admin, account, role)->Ok_0;
            let (revoked, _) = state.revoke_role(admin, account, role)->Ok_0;
            &&& state.grant_role(admin, account, role) is Ok
            &&& state.revoke_role(admin, account, role) is Ok
            &&& granted.has_role(account, role)
            &&& !revoked.has_role(account, role)
            &&& forall|other: Address, other_role: Role|
                other != account || other_role != role ==> granted.has_role(other, other_role)
                    == state.has_role(other, other_role) && revoked.has_role(other, other_role)
                    == state.has_role(other, other_role)
            &&& granted.valid()
            &&& revoked.valid()
        }),
{
    let grant = RoleGrant { account, role };
    let (granted, _) = state.grant_role(admin, account, role)->Ok_0;
    let (revoked, _) = state.revoke_role(admin, account, role)->Ok_0;
    if state.grants.contains(grant) {
        let at = state.grants.index_of(grant);
        crate::access::lemma_index_of_unique(state.grants, grant, at);
        crate::access::lemma_remove_keeps_distinct(state.grants, at);
        let rest = state.grants.remove(at);
        assert(revoked.grants == rest);
        assert forall|k: int| 0 <= k < rest.len() implies rest[k] != grant by {
            let origin = if k < at { k } else { k + 1 };
            assert(rest[k] == state.grants[origin]);
        }
        assert forall|other: Address, other_role: Role|
            other != account || other_role != role implies revoked.has_role(other, other_role)
            == state.has_role(other, other_role) by {
            let wanted = RoleGrant { account: other, role: other_role };
            if state.grants.contains(wanted) {
                let k = state.grants.index_of(wanted);
                let moved = if k < at { k } else { k - 1 };
                assert(rest[moved] == wanted);
            }
            if rest.contains(wanted) {
                let k = rest.index_of(wanted);
                let origin = if k < at { k } else { k + 1 };
                assert(state.grants[origin] == wanted);
            }
        }
    } else {
        let more = state.grants.push(grant);
        assert(more[more.len() - 1] == grant);
        assert forall|other: Address, other_role: Role|
            other != account || other_role != role implies granted.has_role(other, other_role)
            == state.has_role(other, other_role) by {
            let wanted = RoleGrant { account: other, role: other_role };
            if state.grants.contains(wanted) {
                let k = state.grants.index_of(wanted);
                assert(more[k] == wanted);
            }
            if more.contains(wanted) {
                let k = more.index_of(wanted);
                assert(state.grants[k] == wanted);
            }
        }
    }
}

/// Roles do not imply each other: a grant or a revocation of one role
/// leaves every other role of the same identity as it was.
pub proof fn law_roles_are_independent(
    state: State,
    admin: Address,
    account: Address,
    role: Role,
    other_role: Role,
)
    requires
        state.valid(),
        state.has_role(admin, Role::Admin),
        role != other_role,
    ensures
        state.grant_role(admin, account, role)->Ok_0.0.has_role(account, other_role)
            == state.has_role(account, other_role),
        state.revoke_role(admin, account, role)->Ok_0.0.has_role(account, other_role)
            == state.has_role(account, other_role),
{
    law_grant_and_revoke(state, admin, account, role);
}

} // verus!
