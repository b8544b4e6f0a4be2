//! The plain values that the engine works on and hands back.

use crate::math::{calculate_unlocked, calculate_withdrawable_amount, unlocked_at};
use vstd::prelude::*;

verus! {

/// What stands behind an identity.
#[derive(Clone, Copy, Debug, PartialEq, Eq, Structural, Hash)]
pub enum AddressKind {
    Account,
    Contract,
}

/// An identity: an account or a contract, named by a 256-bit key that is held
/// as two 128-bit halves. Two identities are the same when kind and key agree.
#[derive(Clone, Copy, Debug, PartialEq, Eq, Structural, Hash)]
pub struct Address {
    pub kind: AddressKind,
    pub hi: u128,
    pub lo: u128,
}

/// An administrative privilege. Roles are independent of each other: holding
/// one implies nothing about another.
#[derive(Clone, Copy, Debug, PartialEq, Eq, Structural, Hash)]
pub enum Role {
    /// May grant and revoke roles and approve an upgrade.
    Admin,
    /// May set and clear the pause flag.
    Pauser,
    /// May set the fee rate and the treasury.
    TreasuryManager,
}

/// One standing grant of a role to an identity.
#[derive(Clone, Copy, Debug, PartialEq, Eq, Structural, Hash)]
pub struct RoleGrant {
    pub account: Address,
    pub role: Role,
}

/// An escrow record between one sender and one receiver.
#[derive(Clone, Copy, Debug, PartialEq, Eq, Structural)]
pub struct Stream {
    pub sender: Address,
    pub receiver: Address,
    pub token: Address,
    /// The principal, net of any fee.
    pub amount: i128,
    pub start_time: u64,
    pub cliff_time: u64,
    pub end_time: u64,
    /// The running total already paid out to the receiver.
    pub withdrawn_amount: i128,
}

impl Stream {
    /// The schedule is ordered, the principal is positive and no more than
    /// the principal has been paid out.
    pub open spec fn valid(self) -> bool {
        &&& self.start_time <= self.cliff_time
        &&& self.cliff_time < self.end_time
        &&& self.amount > 0
        &&& 0 <= self.withdrawn_amount <= self.amount
    }

    /// The part of the principal that is released at `now`.
    pub open spec fn spec_unlocked(self, now: u64) -> int {
        unlocked_at(
            self.amount as int,
            self.start_time as int,
            self.cliff_time as int,
            self.end_time as int,
            now as int,
        )
    }

    /// What is released at `now` and not yet paid out; nothing where the
    /// clock has been set back behind an earlier withdrawal.
    pub open spec fn spec_withdrawable(self, now: u64) -> int {
        if self.spec_unlocked(now) > self.withdrawn_amount {
            self.spec_unlocked(now) - self.withdrawn_amount
        } else {
            0
        }
    }

    /// The part of the principal that is released at `now`.
    pub fn unlocked(&self, now: u64) -> (unlocked: i128)
        requires
            self.valid(),
        ensures
            unlocked == self.spec_unlocked(now),
            0 <= unlocked <= self.amount,
    {
        calculate_unlocked(
            self.amount,
            self.start_time,
            self.cliff_time,
            self.end_time,
            now,
        )
    }

    /// What the receiver can take out at `now`.
    pub fn withdrawable(&self, now: u64) -> (withdrawable: i128)
        requires
            self.valid(),
        ensures
            withdrawable == self.spec_withdrawable(now),
            0 <= withdrawable <= self.amount - self.withdrawn_amount,
    {
        let unlocked = self.unlocked(now);
        if unlocked > self.withdrawn_amount {
            calculate_withdrawable_amount(unlocked, self.withdrawn_amount)
        } else {
            0
        }
    }
}

/// One entry of a batch creation.
#[derive(Clone, Copy, Debug, PartialEq, Eq, Structural)]
pub struct StreamRequest {
    pub receiver: Address,
    pub amount: i128,
    pub start_time: u64,
    pub cliff_time: u64,
    pub end_time: u64,
}

/// The 256-bit hash that names a build of the engine's code.
#[derive(Clone, Copy, Debug, PartialEq, Eq, Structural, Hash)]
pub struct WasmHash {
    pub hi: u128,
    pub lo: u128,
}

/// One end of a transfer.
#[derive(Clone, Copy, Debug, PartialEq, Eq, Structural)]
pub enum Party {
    /// The balance that the engine itself holds for all live streams.
    Escrow,
    /// An outside identity.
    Account(Address),
}

/// A movement of funds that the caller has to carry out.
#[derive(Clone, Copy, Debug, PartialEq, Eq, Structural)]
pub struct Transfer {
    pub token: Address,
    pub from: Party,
    pub to: Party,
    pub amount: i128,
}

/// The record of a change, for the caller to publish: what was done, who
/// did it, and to what.
#[derive(Clone, Copy, Debug, PartialEq, Eq, Structural)]
pub enum Event {
    Initialized { admin: Address },
    RoleGranted { admin: Address, account: Address, role: Role },
    RoleRevoked { admin: Address, account: Address, role: Role },
    FeeInitialized { manager: Address, fee_bps: u32, treasury: Address },
    FeeUpdated { manager: Address, fee_bps: u32 },
    TreasuryUpdated { manager: Address, treasury: Address },
    PauseSet { pauser: Address, paused: bool },
    StreamCreated { sender: Address, stream_id: u64 },
    Withdrawn { receiver: Address, stream_id: u64, amount: i128 },
    StreamCancelled { stream_id: u64, sender: Address },
    ReceiverTransferred { stream_id: u64, new_receiver: Address },
    Upgraded { admin: Address, new_wasm_hash: WasmHash },
}

impl Event {
    pub open spec fn spec_tag(self) -> Seq<char> {
        match self {
            Event::Initialized { .. } => "init"@,
            Event::RoleGranted { .. } => "grant"@,
            Event::RoleRevoked { .. } => "revoke"@,
            Event::FeeInitialized { .. } => "fee_init"@,
            Event::FeeUpdated { .. } => "fee"@,
            Event::TreasuryUpdated { .. } => "treasury"@,
            Event::PauseSet { .. } => "pause"@,
            Event::StreamCreated { .. } => "create"@,
            Event::Withdrawn { .. } => "withdraw"@,
            Event::StreamCancelled { .. } => "cancel"@,
            Event::ReceiverTransferred { .. } => "transfer"@,
            Event::Upgraded { .. } => "upgrade"@,
        }
    }

    /// The short name of the operation that the record is of.
    pub fn tag(&self) -> (tag: &'static str)
        ensures
            tag@ == self.spec_tag(),
    {
        match self {
            Event::Initialized { .. } => "init",
            Event::RoleGranted { .. } => "grant",
            Event::RoleRevoked { .. } => "revoke",
            Event::FeeInitialized { .. } => "fee_init",
            Event::FeeUpdated { .. } => "fee",
            Event::TreasuryUpdated { .. } => "treasury",
            Event::PauseSet { .. } => "pause",
            Event::StreamCreated { .. } => "create",
            Event::Withdrawn { .. } => "withdraw",
            Event::StreamCancelled { .. } => "cancel",
            Event::ReceiverTransferred { .. } => "transfer",
            Event::Upgraded { .. } => "upgrade",
        }
    }
}

/// What creating a stream asks of the caller.
#[derive(Clone, Copy, Debug, PartialEq, Eq, Structural)]
pub struct StreamCreated {
    pub stream_id: u64,
    /// The principal, to be moved from the sender into escrow.
    pub deposit: Transfer,
    /// The fee, to be moved from the sender to the treasury; none where the
    /// fee comes to nothing.
    pub fee: Option<Transfer>,
    /// The record to publish.
    pub event: Event,
}

/// What creating a batch of streams asks of the caller.
#[derive(Clone, Debug, PartialEq, Eq)]
pub struct BatchCreated {
    /// The ids of the new streams, in the order of the requests.
    pub stream_ids: Vec<u64>,
    /// The sum of all amounts, to be moved from the sender into escrow in one go.
    pub deposit: Transfer,
    /// The records to publish, one for each new stream, in the same order.
    pub events: Vec<Event>,
}

/// What a withdrawal asks of the caller.
#[derive(Clone, Copy, Debug, PartialEq, Eq, Structural)]
pub struct Withdrawal {
    /// The amount taken out, to be moved from escrow to the receiver.
    pub payout: Transfer,
    /// The record to publish.
    pub event: Event,
}

/// What a cancellation asks of the caller.
#[derive(Clone, Copy, Debug, PartialEq, Eq, Structural)]
pub struct Settlement {
    /// What was released but not yet paid out, to be moved from escrow to the
    /// receiver; none where it comes to nothing.
    pub to_receiver: Option<Transfer>,
    /// What is left in escrow after that, to be moved back to the sender;
    /// none where it comes to nothing.
    pub to_sender: Option<Transfer>,
    /// The amount that goes back to the sender.
    pub returned: i128,
    /// The record to publish.
    pub event: Event,
}

/// What an approved upgrade asks of the caller.
#[derive(Clone, Copy, Debug, PartialEq, Eq, Structural)]
pub struct Upgrade {
    /// The code to install.
    pub new_wasm_hash: WasmHash,
    /// The record to publish.
    pub event: Event,
}

/// A request to keep a stream's stored entry alive: where fewer than
/// `threshold` ledgers of life are left, it is to live for `extend_to` more.
#[derive(Clone, Copy, Debug, PartialEq, Eq, Structural)]
pub struct TtlExtension {
    pub stream_id: u64,
    pub threshold: u32,
    pub extend_to: u32,
}

} // verus!
