use vstd::prelude::*;

verus! {

/// An account identifier. Accounts are compared by identity only.
#[derive(Copy, Clone, Debug, PartialEq, Eq, Structural)]
pub struct Address {
    pub id: u64,
}

/// Where a trade stands in its lifecycle.
#[derive(Copy, Clone, Debug, PartialEq, Eq, Structural)]
pub enum TradeStatus {
    Created,
    Funded,
    Completed,
    Disputed,
    Cancelled,
}

/// The two ways an arbitrator can settle a dispute.
#[derive(Copy, Clone, Debug, PartialEq, Eq, Structural)]
pub enum DisputeResolution {
    ReleaseToBuyer,
    ReleaseToSeller,
}

/// One escrow agreement. Everything but `status` is fixed at creation.
#[derive(Copy, Clone, Debug, PartialEq, Eq, Structural)]
pub struct Trade {
    pub id: u64,
    pub seller: Address,
    pub buyer: Address,
    pub amount: u64,
    pub fee: u64,
    pub arbitrator: Option<Address>,
    pub status: TradeStatus,
}

/// A movement of value that the host's asset ledger must perform for an
/// operation to take effect.
#[derive(Copy, Clone, Debug, PartialEq, Eq, Structural)]
pub struct Transfer {
    pub from: Address,
    pub to: Address,
    pub amount: u64,
}

impl DisputeResolution {
    /// The party that receives the payout under this resolution.
    pub open spec fn spec_recipient(self, trade: Trade) -> Address {
        match self {
            DisputeResolution::ReleaseToBuyer => trade.buyer,
            DisputeResolution::ReleaseToSeller => trade.seller,
        }
    }
}

} // verus!
