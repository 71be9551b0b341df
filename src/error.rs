use vstd::prelude::*;

verus! {

/// Failures that belong to the whitelist itself.
#[derive(Clone, Copy, Debug, PartialEq, Eq, Structural)]
pub enum WhiteListError {
    /// The command bytes are malformed or name no command.
    InvalidInstruction,
    /// The swap pool record is not ready.
    IncorrectPoolOwner,
    /// A whitelist record or a swap-side account has the wrong owner.
    IncorrectStateAccount,
    /// A pool reserve is not held by the swap authority.
    IncorrectTokenOwner,
    /// The swap pool record is not initialized.
    PoolNotInitialized,
    /// The caller is not in the authorized set.
    AccountNotWhitelisted,
    /// The caller's target-token holding is not empty.
    AccountAlreadyRedeemed,
}

impl WhiteListError {
    /// The numeric code reported to the ledger runtime as a custom error.
    pub fn code(&self) -> (r: u32)
        ensures
            r == error_code(*self),
    {
        match self {
            WhiteListError::InvalidInstruction => 0,
            WhiteListError::IncorrectPoolOwner => 1,
            WhiteListError::IncorrectStateAccount => 2,
            WhiteListError::IncorrectTokenOwner => 3,
            WhiteListError::PoolNotInitialized => 4,
            WhiteListError::AccountNotWhitelisted => 5,
            WhiteListError::AccountAlreadyRedeemed => 6,
        }
    }
}

/// Position of the variant in declaration order.
pub open spec fn error_code(e: WhiteListError) -> u32 {
    match e {
        WhiteListError::InvalidInstruction => 0,
        WhiteListError::IncorrectPoolOwner => 1,
        WhiteListError::IncorrectStateAccount => 2,
        WhiteListError::IncorrectTokenOwner => 3,
        WhiteListError::PoolNotInitialized => 4,
        WhiteListError::AccountNotWhitelisted => 5,
        WhiteListError::AccountAlreadyRedeemed => 6,
    }
}

/// Every way a request can fail: a whitelist error, or one of the
/// ledger runtime's generic failures.
#[derive(Clone, Copy, Debug, PartialEq, Eq, Structural)]
pub enum ProcessError {
    Custom(WhiteListError),
    InvalidInstructionData,
    InvalidAccountData,
    InsufficientFunds,
    IncorrectProgramId,
    MissingRequiredSignature,
    AccountAlreadyInitialized,
    UninitializedAccount,
    NotEnoughAccountKeys,
    IllegalOwner,
    InvalidSeeds,
    /// A stored record could not be decoded or encoded.
    BorshIoError,
}

} // verus!
