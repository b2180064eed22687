//! The reasons for which an operation is refused.

use vstd::prelude::*;

verus! {

/// Every failure of the program is one of these. An operation that fails
/// names exactly one of them.
#[derive(Clone, Copy, Debug, PartialEq, Eq, Structural)]
pub enum ClawDnaError {
    /// The circuit breaker is on: nothing is minted.
    ProgramPaused,
    /// The caller is not the owner of the configuration.
    Unauthorized,
    /// The treasury is unfunded, or is not the one the configuration names.
    InvalidTreasury,
    /// The payer holds less than the fee.
    InsufficientFee,
    /// A trait value is above the maximum.
    InvalidGenome,
    /// Both parents are the same agent.
    SameParent,
    /// A parent token is not held, as exactly one unit, by the caller.
    InvalidParent,
    /// The child's generation does not fit its counter.
    GenerationOverflow,
    /// The royalty rate or the display name is out of bounds.
    InvalidMetadata,
    /// The agent counter or a balance does not fit its type.
    MathOverflow,
    /// A record does not sit at the address derived for it.
    InvalidBump,
    /// The configuration exists already.
    AlreadyInitialized,
    /// The entropy source is shorter than the combiner needs.
    EntropyTooShort,
}

impl ClawDnaError {
    /// The text shown to a user for this error.
    pub open spec fn message_text(self) -> Seq<char> {
        match self {
            ClawDnaError::ProgramPaused => "Program is paused - emergency stop active"@,
            ClawDnaError::Unauthorized => "Unauthorized - caller is not the owner"@,
            ClawDnaError::InvalidTreasury => "Invalid treasury account"@,
            ClawDnaError::InsufficientFee => "Insufficient breeding fee"@,
            ClawDnaError::InvalidGenome => "Invalid genome data - traits out of range"@,
            ClawDnaError::SameParent => "Parent agents must be different"@,
            ClawDnaError::InvalidParent => "Invalid parent agent - not found or invalid owner"@,
            ClawDnaError::GenerationOverflow => "Generation overflow"@,
            ClawDnaError::InvalidMetadata => "Invalid NFT metadata"@,
            ClawDnaError::MathOverflow => "Math overflow"@,
            ClawDnaError::InvalidBump => "Invalid PDA bump"@,
            ClawDnaError::AlreadyInitialized => "Global state already initialized"@,
            ClawDnaError::EntropyTooShort => "Entropy source is too short"@,
        }
    }

    /// The text shown to a user for this error.
    pub fn message(&self) -> (text: &'static str)
        ensures
            text@ == self.message_text(),
    {
        match self {
            ClawDnaError::ProgramPaused => "Program is paused - emergency stop active",
            ClawDnaError::Unauthorized => "Unauthorized - caller is not the owner",
            ClawDnaError::InvalidTreasury => "Invalid treasury account",
            ClawDnaError::InsufficientFee => "Insufficient breeding fee",
            ClawDnaError::InvalidGenome => "Invalid genome data - traits out of range",
            ClawDnaError::SameParent => "Parent agents must be different",
            ClawDnaError::InvalidParent => "Invalid parent agent - not found or invalid owner",
            ClawDnaError::GenerationOverflow => "Generation overflow",
            ClawDnaError::InvalidMetadata => "Invalid NFT metadata",
            ClawDnaError::MathOverflow => "Math overflow",
            ClawDnaError::InvalidBump => "Invalid PDA bump",
            ClawDnaError::AlreadyInitialized => "Global state already initialized",
            ClawDnaError::EntropyTooShort => "Entropy source is too short",
        }
    }
}

} // verus!
