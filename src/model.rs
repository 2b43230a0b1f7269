use vstd::prelude::*;
use crate::errors::ContractError;
use crate::fees::{fee_of, fee_overflows, MAX_FEE_BPS};
use crate::types::{Address, DisputeResolution, Trade, TradeStatus, Transfer};

verus! {

/// The abstract state of an escrow engine.
///
/// The trade with id `n` sits at index `n - 1` of `trades`; `settled[n - 1]`
/// records that its escrowed value has been paid out, after which the trade
/// accepts no further transition.
pub struct EscrowModel {
    pub initialized: bool,
    pub admin: Address,
    pub value_asset: Address,
    pub custody: Address,
    pub fee_bps: u32,
    pub accumulated_fees: u64,
    pub trades: Seq<Trade>,
    pub settled: Seq<bool>,
    pub arbitrators: Set<Address>,
}

impl EscrowModel {
    /// The invariant every reachable state satisfies.
    pub open spec fn valid(self) -> bool {
        &&& self.settled.len() == self.trades.len()
        &&& self.trades.len() <= u64::MAX
        &&& self.fee_bps <= MAX_FEE_BPS
        &&& !self.initialized ==> self.trades.len() == 0 && self.accumulated_fees == 0
            && self.arbitrators.is_empty()
        &&& forall|i: int| 0 <= i < self.trades.len() ==> #[trigger] self.trades[i].id == i + 1
        &&& forall|i: int|
            0 <= i < self.trades.len() ==> {
                let t = #[trigger] self.trades[i];
                &&& 0 < t.amount
                &&& t.fee <= t.amount
                &&& t.status == TradeStatus::Disputed ==> t.arbitrator is Some
                &&& self.settled[i] ==> t.status == TradeStatus::Completed || t.status
                    == TradeStatus::Disputed
            }
    }

    /// The last trade id handed out; zero before the first trade.
    pub open spec fn trade_counter(self) -> nat {
        self.trades.len()
    }

    /// The trade with the given id, if one was ever created.
    pub open spec fn trade(self, id: u64) -> Option<Trade> {
        if 1 <= id && id <= self.trades.len() {
            Some(self.trades[id - 1])
        } else {
            None
        }
    }

    /// Whether trade `id` exists, is not yet settled, and has status `s`.
    pub open spec fn stands_at(self, id: u64, s: TradeStatus) -> bool {
        &&& self.trade(id) is Some
        &&& !self.settled[id - 1]
        &&& self.trades[id - 1].status == s
    }

    /// The error every per-trade operation reports before looking at the trade.
    pub open spec fn lookup_error(self, id: u64) -> Option<ContractError> {
        if !self.initialized {
            Some(ContractError::NotInitialized)
        } else if self.trade(id) is None {
            Some(ContractError::TradeNotFound)
        } else {
            None
        }
    }

    /// Trade `id` with its status replaced by `s`; nothing else changes.
    pub open spec fn with_status(self, id: u64, s: TradeStatus) -> EscrowModel {
        EscrowModel {
            trades: self.trades.update(id - 1, Trade { status: s, ..self.trades[id - 1] }),
            ..self
        }
    }

    /// Marks trade `id` as paid out and books its fee.
    pub open spec fn with_settlement(self, id: u64) -> EscrowModel {
        EscrowModel {
            settled: self.settled.update(id - 1, true),
            accumulated_fees: (self.accumulated_fees + self.trades[id - 1].fee) as u64,
            ..self
        }
    }

    /// Whether booking the fee of trade `id` would overflow the fee balance.
    pub open spec fn accrual_overflows(self, id: u64) -> bool {
        self.accumulated_fees + self.trades[id - 1].fee > u64::MAX
    }

    /// The value paid out when trade `id` settles.
    pub open spec fn payout(self, id: u64) -> u64 {
        (self.trades[id - 1].amount - self.trades[id - 1].fee) as u64
    }

    /// One-time configuration, by the administrator itself.
    pub open spec fn initialize(self, caller: Address, admin: Address, value_asset: Address, fee_bps: u32)
        -> (EscrowModel, Result<(), ContractError>)
    {
        if self.initialized {
            (self, Err(ContractError::AlreadyInitialized))
        } else if fee_bps > MAX_FEE_BPS {
            (self, Err(ContractError::InvalidFeeBps))
        } else if caller != admin {
            (self, Err(ContractError::Unauthorized))
        } else {
            (
                EscrowModel {
                    initialized: true,
                    admin,
                    value_asset,
                    fee_bps,
                    accumulated_fees: 0,
                    ..self
                },
                Ok(()),
            )
        }
    }

    /// The error an administrative operation reports before doing its work.
    pub open spec fn admin_error(self, caller: Address) -> Option<ContractError> {
        if !self.initialized {
            Some(ContractError::NotInitialized)
        } else if caller != self.admin {
            Some(ContractError::Unauthorized)
        } else {
            None
        }
    }

    /// Adds an arbitrator to the registry. Administrator only.
    pub open spec fn register_arbitrator(self, caller: Address, arbitrator: Address) -> (
        EscrowModel,
        Result<(), ContractError>,
    ) {
        match self.admin_error(caller) {
            Some(e) => (self, Err(e)),
            None => (EscrowModel { arbitrators: self.arbitrators.insert(arbitrator), ..self }, Ok(())),
        }
    }

    /// Takes an arbitrator out of the registry. Administrator only.
    pub open spec fn remove_arbitrator(self, caller: Address, arbitrator: Address) -> (
        EscrowModel,
        Result<(), ContractError>,
    ) {
        match self.admin_error(caller) {
            Some(e) => (self, Err(e)),
            None => (EscrowModel { arbitrators: self.arbitrators.remove(arbitrator), ..self }, Ok(())),
        }
    }

    /// Changes the fee rate for later trades. Administrator only.
    pub open spec fn update_fee(self, caller: Address, fee_bps: u32) -> (
        EscrowModel,
        Result<(), ContractError>,
    ) {
        if !self.initialized {
            (self, Err(ContractError::NotInitialized))
        } else if fee_bps > MAX_FEE_BPS {
            (self, Err(ContractError::InvalidFeeBps))
        } else if caller != self.admin {
            (self, Err(ContractError::Unauthorized))
        } else {
            (EscrowModel { fee_bps, ..self }, Ok(()))
        }
    }

    /// Pays out the whole fee balance and zeroes it. Administrator only.
    pub open spec fn withdraw_fees(self, caller: Address, to: Address) -> (
        EscrowModel,
        Result<Transfer, ContractError>,
    ) {
        match self.admin_error(caller) {
            Some(e) => (self, Err(e)),
            None => if self.accumulated_fees == 0 {
                (self, Err(ContractError::NoFeesToWithdraw))
            } else {
                (
                    EscrowModel { accumulated_fees: 0, ..self },
                    Ok(Transfer { from: self.custody, to, amount: self.accumulated_fees }),
                )
            },
        }
    }

    /// The trade that `create_trade` records under the next id.
    pub open spec fn new_trade(
        self,
        seller: Address,
        buyer: Address,
        amount: u64,
        arbitrator: Option<Address>,
    ) -> Trade {
        Trade {
            id: (self.trades.len() + 1) as u64,
            seller,
            buyer,
            amount,
            fee: fee_of(amount, self.fee_bps) as u64,
            arbitrator,
            status: TradeStatus::Created,
        }
    }

    /// Records a new trade under the next id. The seller only.
    pub open spec fn create_trade(
        self,
        caller: Address,
        seller: Address,
        buyer: Address,
        amount: u64,
        arbitrator: Option<Address>,
    ) -> (EscrowModel, Result<u64, ContractError>) {
        if !self.initialized {
            (self, Err(ContractError::NotInitialized))
        } else if amount == 0 {
            (self, Err(ContractError::InvalidAmount))
        } else if caller != seller {
            (self, Err(ContractError::Unauthorized))
        } else if arbitrator matches Some(a) && !self.arbitrators.contains(a) {
            (self, Err(ContractError::ArbitratorNotRegistered))
        } else if self.trades.len() + 1 > u64::MAX {
            (self, Err(ContractError::Overflow))
        } else if fee_overflows(amount, self.fee_bps) {
            (self, Err(ContractError::Overflow))
        } else {
            let t = self.new_trade(seller, buyer, amount, arbitrator);
            (
                EscrowModel {
                    trades: self.trades.push(t),
                    settled: self.settled.push(false),
                    ..self
                },
                Ok(t.id),
            )
        }
    }

    /// Created to Funded; the buyer pays the amount into custody.
    pub open spec fn fund_trade(self, caller: Address, id: u64) -> (
        EscrowModel,
        Result<Transfer, ContractError>,
    ) {
        match self.lookup_error(id) {
            Some(e) => (self, Err(e)),
            None => {
                let t = self.trades[id - 1];
                if !self.stands_at(id, TradeStatus::Created) {
                    (self, Err(ContractError::InvalidStatus))
                } else if caller != t.buyer {
                    (self, Err(ContractError::Unauthorized))
                } else {
                    (
                        self.with_status(id, TradeStatus::Funded),
                        Ok(Transfer { from: t.buyer, to: self.custody, amount: t.amount }),
                    )
                }
            },
        }
    }

    /// Funded to Completed, by the seller.
    pub open spec fn complete_trade(self, caller: Address, id: u64) -> (
        EscrowModel,
        Result<(), ContractError>,
    ) {
        match self.lookup_error(id) {
            Some(e) => (self, Err(e)),
            None => if !self.stands_at(id, TradeStatus::Funded) {
                (self, Err(ContractError::InvalidStatus))
            } else if caller != self.trades[id - 1].seller {
                (self, Err(ContractError::Unauthorized))
            } else {
                (self.with_status(id, TradeStatus::Completed), Ok(()))
            },
        }
    }

    /// Settles a completed trade in the seller's favour, by the buyer.
    pub open spec fn confirm_receipt(self, caller: Address, id: u64) -> (
        EscrowModel,
        Result<Transfer, ContractError>,
    ) {
        match self.lookup_error(id) {
            Some(e) => (self, Err(e)),
            None => {
                let t = self.trades[id - 1];
                if !self.stands_at(id, TradeStatus::Completed) {
                    (self, Err(ContractError::InvalidStatus))
                } else if caller != t.buyer {
                    (self, Err(ContractError::Unauthorized))
                } else if self.accrual_overflows(id) {
                    (self, Err(ContractError::Overflow))
                } else {
                    (
                        self.with_settlement(id),
                        Ok(Transfer { from: self.custody, to: t.seller, amount: self.payout(id) }),
                    )
                }
            },
        }
    }

    /// Funded or Completed to Disputed, by either party, if the trade has an
    /// arbitrator.
    pub open spec fn raise_dispute(self, caller: Address, id: u64) -> (
        EscrowModel,
        Result<(), ContractError>,
    ) {
        match self.lookup_error(id) {
            Some(e) => (self, Err(e)),
            None => {
                let t = self.trades[id - 1];
                if !self.stands_at(id, TradeStatus::Funded) && !self.stands_at(
                    id,
                    TradeStatus::Completed,
                ) {
                    (self, Err(ContractError::InvalidStatus))
                } else if t.arbitrator is None {
                    (self, Err(ContractError::ArbitratorNotRegistered))
                } else if caller != t.buyer && caller != t.seller {
                    (self, Err(ContractError::Unauthorized))
                } else {
                    (self.with_status(id, TradeStatus::Disputed), Ok(()))
                }
            },
        }
    }

    /// Settles a disputed trade as the resolution says, by its arbitrator.
    pub open spec fn resolve_dispute(self, caller: Address, id: u64, resolution: DisputeResolution) -> (
        EscrowModel,
        Result<Transfer, ContractError>,
    ) {
        match self.lookup_error(id) {
            Some(e) => (self, Err(e)),
            None => {
                let t = self.trades[id - 1];
                if !self.stands_at(id, TradeStatus::Disputed) {
                    (self, Err(ContractError::InvalidStatus))
                } else if t.arbitrator is None {
                    (self, Err(ContractError::ArbitratorNotRegistered))
                } else if t.arbitrator != Some(caller) {
                    (self, Err(ContractError::Unauthorized))
                } else if self.accrual_overflows(id) {
                    (self, Err(ContractError::Overflow))
                } else {
                    (
                        self.with_settlement(id),
                        Ok(
                            Transfer {
                                from: self.custody,
                                to: resolution.spec_recipient(t),
                                amount: self.payout(id),
                            },
                        ),
                    )
                }
            },
        }
    }

    /// Created to Cancelled, by the seller.
    pub open spec fn cancel_trade(self, caller: Address, id: u64) -> (
        EscrowModel,
        Result<(), ContractError>,
    ) {
        match self.lookup_error(id) {
            Some(e) => (self, Err(e)),
            None => if !self.stands_at(id, TradeStatus::Created) {
                (self, Err(ContractError::InvalidStatus))
            } else if caller != self.trades[id - 1].seller {
                (self, Err(ContractError::Unauthorized))
            } else {
                (self.with_status(id, TradeStatus::Cancelled), Ok(()))
            },
        }
    }
}

} // verus!
