use vstd::prelude::*;

verus! {

/// Every way in which an instruction is rejected. A rejected instruction has
/// no effect at all.
#[derive(Clone, Copy, Debug, PartialEq, Eq, Structural)]
pub enum StakeError {
    /// The caller is not the administrator, did not sign, or is not the staker.
    Unauthorized,
    /// A supplied account is not the address derived for it.
    AddressMismatch,
    /// A supplied token or token-service identity is not the expected one.
    WrongToken,
    /// The collection has no price record owned by the program.
    NotWhitelisted,
    /// The provenance record is missing, undecodable, or its first creator is
    /// not verified.
    UnverifiedProvenance,
    /// A stored record does not decode, or holds an unusable value.
    CorruptState,
    /// The stake record is not active.
    StakeInactive,
    /// The minimum lock period has not elapsed yet.
    TooEarly,
    /// The instruction payload is malformed.
    DecodeFault,
    /// Fewer accounts than the instruction needs were supplied.
    MissingAccount,
    /// A reward period of zero was requested.
    ZeroRewardPeriod,
    /// The reward does not fit in a 64-bit amount.
    RewardOverflow,
}

impl StakeError {
    /// A distinct numeric code for each error.
    pub fn code(&self) -> (r: u32)
        ensures
            r == error_code(*self),
    {
        match self {
            StakeError::Unauthorized => 1,
            StakeError::AddressMismatch => 2,
            StakeError::WrongToken => 3,
            StakeError::NotWhitelisted => 4,
            StakeError::UnverifiedProvenance => 5,
            StakeError::CorruptState => 6,
            StakeError::StakeInactive => 7,
            StakeError::TooEarly => 8,
            StakeError::DecodeFault => 9,
            StakeError::MissingAccount => 10,
            StakeError::ZeroRewardPeriod => 11,
            StakeError::RewardOverflow => 12,
        }
    }
}

pub open spec fn error_code(e: StakeError) -> u32 {
    match e {
        StakeError::Unauthorized => 1,
        StakeError::AddressMismatch => 2,
        StakeError::WrongToken => 3,
        StakeError::NotWhitelisted => 4,
        StakeError::UnverifiedProvenance => 5,
        StakeError::CorruptState => 6,
        StakeError::StakeInactive => 7,
        StakeError::TooEarly => 8,
        StakeError::DecodeFault => 9,
        StakeError::MissingAccount => 10,
        StakeError::ZeroRewardPeriod => 11,
        StakeError::RewardOverflow => 12,
    }
}

/// Distinct errors have distinct codes.
pub proof fn lemma_error_codes_distinct(a: StakeError, b: StakeError)
    requires
        a != b,
    ensures
        error_code(a) != error_code(b),
{
}

} // verus!
