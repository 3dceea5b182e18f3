//! The error taxonomy of the vesting engine. Every refusal aborts the whole
//! operation and leaves all records as they were.

use vstd::prelude::*;

verus! {

/// Every way in which an operation of the engine can be refused.
#[derive(Clone, Copy, Debug, PartialEq, Eq, Structural)]
pub enum VestingError {
    /// The schedule ends at or before its start.
    InvalidVestingPeriod,
    /// The claim comes before the cliff.
    BeforeCliff,
    /// An intermediate or a running total does not fit in 64 bits.
    CalculationOverflow,
    /// Everything vested so far has been withdrawn already.
    NothingToClaim,
    /// The caller is not the identity that the record names.
    Unauthorized,
    /// The schedule belongs to another company than the one supplied.
    MismatchedAccount,
    /// A record with this key is already present.
    AlreadyExists,
    /// No record with this key is present.
    NotFound,
    /// The treasury cannot cover the amount.
    InsufficientBalance,
    /// The treasury does not accept the authority presented.
    InvalidAuthority,
}

/// The families that the refusals fall into.
#[derive(Clone, Copy, Debug, PartialEq, Eq, Structural)]
pub enum ErrorKind {
    /// The parameters of a schedule are not usable.
    Validation,
    /// The operation comes too early.
    Timing,
    /// A number does not fit.
    Arithmetic,
    /// The state of the schedule leaves nothing to do.
    State,
    /// The caller or an account is not the one required.
    Authorization,
    /// A record is missing or present against expectation.
    Existence,
    /// The transfer service refused.
    Transfer,
}

impl VestingError {
    /// The family of this refusal.
    pub open spec fn kind_of(self) -> ErrorKind {
        match self {
            VestingError::InvalidVestingPeriod => ErrorKind::Validation,
            VestingError::BeforeCliff => ErrorKind::Timing,
            VestingError::CalculationOverflow => ErrorKind::Arithmetic,
            VestingError::NothingToClaim => ErrorKind::State,
            VestingError::Unauthorized => ErrorKind::Authorization,
            VestingError::MismatchedAccount => ErrorKind::Authorization,
            VestingError::AlreadyExists => ErrorKind::Existence,
            VestingError::NotFound => ErrorKind::Existence,
            VestingError::InsufficientBalance => ErrorKind::Transfer,
            VestingError::InvalidAuthority => ErrorKind::Transfer,
        }
    }

    /// The family of this refusal.
    pub fn kind(&self) -> (kind: ErrorKind)
        ensures
            kind == self.kind_of(),
    {
        match self {
            VestingError::InvalidVestingPeriod => ErrorKind::Validation,
            VestingError::BeforeCliff => ErrorKind::Timing,
            VestingError::CalculationOverflow => ErrorKind::Arithmetic,
            VestingError::NothingToClaim => ErrorKind::State,
            VestingError::Unauthorized => ErrorKind::Authorization,
            VestingError::MismatchedAccount => ErrorKind::Authorization,
            VestingError::AlreadyExists => ErrorKind::Existence,
            VestingError::NotFound => ErrorKind::Existence,
            VestingError::InsufficientBalance => ErrorKind::Transfer,
            VestingError::InvalidAuthority => ErrorKind::Transfer,
        }
    }

    /// The text that describes this refusal.
    pub open spec fn message_of(self) -> Seq<char> {
        match self {
            VestingError::InvalidVestingPeriod => "Invalid vesting period"@,
            VestingError::BeforeCliff => "Claim not available yet"@,
            VestingError::CalculationOverflow => "Calculation overflow"@,
            VestingError::NothingToClaim => "Nothing to claim"@,
            VestingError::Unauthorized => "Caller is not authorized"@,
            VestingError::MismatchedAccount => "Schedule belongs to another company"@,
            VestingError::AlreadyExists => "Record already exists"@,
            VestingError::NotFound => "Record not found"@,
            VestingError::InsufficientBalance => "Insufficient treasury balance"@,
            VestingError::InvalidAuthority => "Invalid treasury authority"@,
        }
    }

    /// The text that describes this refusal.
    pub fn message(&self) -> (text: String)
        ensures
            text@ == self.message_of(),
    {
        let text = match self {
            VestingError::InvalidVestingPeriod => "Invalid vesting period",
            VestingError::BeforeCliff => "Claim not available yet",
            VestingError::CalculationOverflow => "Calculation overflow",
            VestingError::NothingToClaim => "Nothing to claim",
            VestingError::Unauthorized => "Caller is not authorized",
            VestingError::MismatchedAccount => "Schedule belongs to another company",
            VestingError::AlreadyExists => "Record already exists",
            VestingError::NotFound => "Record not found",
            VestingError::InsufficientBalance => "Insufficient treasury balance",
            VestingError::InvalidAuthority => "Invalid treasury authority",
        };
        text.to_owned()
    }
}

} // verus!
