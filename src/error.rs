use vstd::prelude::*;

verus! {

/// Every way an operation of the ledger can fail. None of them leaves a
/// record partly changed.
#[derive(Clone, Copy, Debug, PartialEq, Eq, Structural)]
pub enum ErrorCode {
    /// The claim was made outside the window that the cliff time allows.
    ClaimNotAvailableYet,
    /// The grant's start and end times coincide.
    InvalidTotalVestingTime,
    /// The vested amount does not fit in 64 bits.
    CalculationOverflow,
    /// Nothing has vested since the last claim.
    NoTokensToClaim,
    /// A schedule or treasury already lives at the derived address.
    DuplicateSchedule,
    /// A grant already lives at the derived address.
    DuplicateGrant,
    /// The signer is not the identity that the record names.
    Unauthorized,
    /// An account handed in does not match the one the records name.
    AccountMismatch,
    /// The company name is longer than a schedule can hold.
    CompanyNameTooLong,
}

impl ErrorCode {
    /// A short human-readable message for the error.
    pub fn message(&self) -> (r: &'static str) {
        match self {
            ErrorCode::ClaimNotAvailableYet => "Claim not available yet!",
            ErrorCode::InvalidTotalVestingTime => "Invalid total vesting time!",
            ErrorCode::CalculationOverflow => "Calculation overflow!",
            ErrorCode::NoTokensToClaim => "No tokens to claim!",
            ErrorCode::DuplicateSchedule => "Vesting schedule already exists!",
            ErrorCode::DuplicateGrant => "Grant already exists!",
            ErrorCode::Unauthorized => "Unauthorized!",
            ErrorCode::AccountMismatch => "Account mismatch!",
            ErrorCode::CompanyNameTooLong => "Company name too long!",
        }
    }
}

} // verus!
