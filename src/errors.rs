use vstd::prelude::*;

verus! {

/// The failures an escrow operation can report. None is retried internally.
#[derive(Copy, Clone, Debug, PartialEq, Eq, Structural)]
pub enum ContractError {
    AlreadyInitialized,
    NotInitialized,
    InvalidAmount,
    InvalidFeeBps,
    ArbitratorNotRegistered,
    TradeNotFound,
    InvalidStatus,
    Overflow,
    NoFeesToWithdraw,
    Unauthorized,
}

impl ContractError {
    /// The stable numeric code under which the error is reported to clients.
    pub open spec fn spec_code(self) -> u32 {
        match self {
            ContractError::AlreadyInitialized => 1,
            ContractError::NotInitialized => 2,
            ContractError::InvalidAmount => 3,
            ContractError::InvalidFeeBps => 4,
            ContractError::ArbitratorNotRegistered => 5,
            ContractError::TradeNotFound => 6,
            ContractError::InvalidStatus => 7,
            ContractError::Overflow => 8,
            ContractError::NoFeesToWithdraw => 9,
            ContractError::Unauthorized => 10,
        }
    }

    pub fn code(&self) -> (r: u32)
        ensures
            r == self.spec_code(),
            1 <= r <= 10,
    {
        match self {
            ContractError::AlreadyInitialized => 1,
            ContractError::NotInitialized => 2,
            ContractError::InvalidAmount => 3,
            ContractError::InvalidFeeBps => 4,
            ContractError::ArbitratorNotRegistered => 5,
            ContractError::TradeNotFound => 6,
            ContractError::InvalidStatus => 7,
            ContractError::Overflow => 8,
            ContractError::NoFeesToWithdraw => 9,
            ContractError::Unauthorized => 10,
        }
    }
}

} // verus!
