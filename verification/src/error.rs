use vstd::prelude::*;

verus! {

/// Why an operation was refused. A refused operation changes nothing.
#[derive(Clone, Copy, Debug, PartialEq, Eq, Structural)]
pub enum Error {
    /// The end of the schedule is not after its start.
    InvalidTimeRange,
    /// The cliff lies before the start or not before the end.
    InvalidCliff,
    /// The amount is zero or negative.
    InvalidAmount,
    /// The amounts of a batch do not add up within 128 bits.
    AmountOverflow,
    /// The fee rate is above ten percent.
    FeeTooHigh,
    /// The caller does not hold the role that the operation asks for.
    MissingRole,
    /// The caller is not the receiver of the stream.
    NotReceiver,
    /// The caller is not the sender of the stream.
    NotSender,
    /// No live stream has this id.
    StreamNotFound,
    /// The schedule has run out: nothing is left to cancel.
    StreamCompleted,
    /// Nothing is unlocked beyond what was already paid out.
    NothingToWithdraw,
    /// A guarded operation is still in progress.
    ReentrantCall,
    /// The pause flag is set.
    Paused,
    /// A fee is due but no treasury was ever named.
    TreasuryNotSet,
    /// The 64-bit space of stream ids is used up.
    StreamIdsExhausted,
}

/// The three families of failure.
#[derive(Clone, Copy, Debug, PartialEq, Eq, Structural)]
pub enum ErrorKind {
    /// The caller can mend the input.
    Validation,
    /// The caller lacks a role or is not the party that the stream names.
    Authorization,
    /// The engine is not in a state that allows the operation.
    State,
}

impl Error {
    pub open spec fn spec_kind(self) -> ErrorKind {
        match self {
            Error::InvalidTimeRange
            | Error::InvalidCliff
            | Error::InvalidAmount
            | Error::AmountOverflow
            | Error::FeeTooHigh => ErrorKind::Validation,
            Error::MissingRole | Error::NotReceiver | Error::NotSender => ErrorKind::Authorization,
            Error::StreamNotFound
            | Error::StreamCompleted
            | Error::NothingToWithdraw
            | Error::ReentrantCall
            | Error::Paused
            | Error::TreasuryNotSet
            | Error::StreamIdsExhausted => ErrorKind::State,
        }
    }

    pub open spec fn spec_message(self) -> Seq<char> {
        match self {
            Error::InvalidTimeRange => "End time must be after start time"@,
            Error::InvalidCliff => "Cliff time must be between start and end time"@,
            Error::InvalidAmount => "Amount must be greater than zero"@,
            Error::AmountOverflow => "Total amount does not fit in 128 bits"@,
            Error::FeeTooHigh => "Fee cannot exceed 10%"@,
            Error::MissingRole => "Unauthorized: the caller does not hold the required role"@,
            Error::NotReceiver => "Unauthorized: not the receiver of this stream"@,
            Error::NotSender => "Unauthorized: not the sender of this stream"@,
            Error::StreamNotFound => "Stream does not exist"@,
            Error::StreamCompleted => "Stream has already completed and cannot be cancelled"@,
            Error::NothingToWithdraw => "No tokens available to withdraw at this time"@,
            Error::ReentrantCall => "Re-entrancy detected"@,
            Error::Paused => "Contract is paused"@,
            Error::TreasuryNotSet => "Treasury not set"@,
            Error::StreamIdsExhausted => "No stream id is left"@,
        }
    }

    /// What to tell the caller.
    pub fn message(&self) -> (text: &'static str)
        ensures
            text@ == self.spec_message(),
    {
        match self {
            Error::InvalidTimeRange => "End time must be after start time",
            Error::InvalidCliff => "Cliff time must be between start and end time",
            Error::InvalidAmount => "Amount must be greater than zero",
            Error::AmountOverflow => "Total amount does not fit in 128 bits",
            Error::FeeTooHigh => "Fee cannot exceed 10%",
            Error::MissingRole => "Unauthorized: the caller does not hold the required role",
            Error::NotReceiver => "Unauthorized: not the receiver of this stream",
            Error::NotSender => "Unauthorized: not the sender of this stream",
            Error::StreamNotFound => "Stream does not exist",
            Error::StreamCompleted => "Stream has already completed and cannot be cancelled",
            Error::NothingToWithdraw => "No tokens available to withdraw at this time",
            Error::ReentrantCall => "Re-entrancy detected",
            Error::Paused => "Contract is paused",
            Error::TreasuryNotSet => "Treasury not set",
            Error::StreamIdsExhausted => "No stream id is left",
        }
    }

    /// The family that this failure belongs to.
    pub fn kind(&self) -> (k: ErrorKind)
        ensures
            k == self.spec_kind(),
    {
        match self {
            Error::InvalidTimeRange => ErrorKind::Validation,
            Error::InvalidCliff => ErrorKind::Validation,
            Error::InvalidAmount => ErrorKind::Validation,
            Error::AmountOverflow => ErrorKind::Validation,
            Error::FeeTooHigh => ErrorKind::Validation,
            Error::MissingRole => ErrorKind::Authorization,
            Error::NotReceiver => ErrorKind::Authorization,
            Error::NotSender => ErrorKind::Authorization,
            Error::StreamNotFound => ErrorKind::State,
            Error::StreamCompleted => ErrorKind::State,
            Error::NothingToWithdraw => ErrorKind::State,
            Error::ReentrantCall => ErrorKind::State,
            Error::Paused => ErrorKind::State,
            Error::TreasuryNotSet => ErrorKind::State,
            Error::StreamIdsExhausted => ErrorKind::State,
        }
    }
}

} // verus!
