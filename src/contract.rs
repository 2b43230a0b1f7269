use vstd::prelude::*;
use crate::errors::ContractError;
use crate::fees::{compute_fee, MAX_FEE_BPS};
use crate::model::EscrowModel;
use crate::types::{Address, DisputeResolution, Trade, TradeStatus, Transfer};

verus! {

/// A trade together with whether its escrowed value has been paid out.
#[derive(Copy, Clone, Debug)]
struct Slot {
    trade: Trade,
    settled: bool,
}

/// The escrow engine: configuration, fee ledger, arbitrator registry and
/// every trade ever created.
///
/// Each operation takes `caller`, the one account that proved its identity
/// for the invocation. An operation that moves value returns the
/// [`Transfer`] the host must perform; if the host cannot perform it, the
/// whole invocation is abandoned together with the state it produced.
#[derive(Clone, Debug)]
pub struct StellarEscrowContract {
    custody: Address,
    initialized: bool,
    admin: Address,
    usdc_token: Address,
    fee_bps: u32,
    trade_counter: u64,
    accumulated_fees: u64,
    slots: Vec<Slot>,
    arbitrators: Vec<Address>,
}

impl View for StellarEscrowContract {
    type V = EscrowModel;

    closed spec fn view(&self) -> EscrowModel {
        EscrowModel {
            initialized: self.initialized,
            admin: self.admin,
            value_asset: self.usdc_token,
            custody: self.custody,
            fee_bps: self.fee_bps,
            accumulated_fees: self.accumulated_fees,
            trades: self.slots@.map_values(|s: Slot| s.trade),
            settled: self.slots@.map_values(|s: Slot| s.settled),
            arbitrators: Set::new(|a: Address| self.arbitrators@.contains(a)),
        }
    }
}

impl StellarEscrowContract {
    /// The representation facts the abstract state does not show.
    pub closed spec fn rep_ok(&self) -> bool {
        &&& self.trade_counter == self.slots@.len()
        &&& self.arbitrators@.no_duplicates()
    }

    /// The engine's invariant.
    pub open spec fn wf(&self) -> bool {
        self.rep_ok() && self@.valid()
    }

    /// An engine that holds value in the `custody` account and has not been
    /// initialized yet.
    pub fn new(custody: Address) -> (r: Self)
        ensures
            r.wf(),
            !r@.initialized,
            r@.custody == custody,
            r@.trades.len() == 0,
            r@.accumulated_fees == 0,
            r@.arbitrators.is_empty(),
    {
        let r = StellarEscrowContract {
            custody,
            initialized: false,
            admin: custody,
            usdc_token: custody,
            fee_bps: 0,
            trade_counter: 0,
            accumulated_fees: 0,
            slots: Vec::new(),
            arbitrators: Vec::new(),
        };
        assert(r@.trades =~= Seq::<Trade>::empty());
        assert(r@.arbitrators =~= Set::<Address>::empty());
        r
    }

    /// The index of trade `trade_id` in `slots`, or the error a per-trade
    /// operation reports for it.
    fn locate(&self, trade_id: u64) -> (r: Result<usize, ContractError>)
        requires
            self.wf(),
        ensures
            match self@.lookup_error(trade_id) {
                Some(e) => r == Err::<usize, ContractError>(e),
                None => {
                    &&& r is Ok
                    &&& r.unwrap() == trade_id - 1
                    &&& r.unwrap() < self.slots@.len()
                    &&& self.slots@[r.unwrap() as int].trade == self@.trades[trade_id - 1]
                    &&& self.slots@[r.unwrap() as int].settled == self@.settled[trade_id - 1]
                },
            },
    {
        if !self.initialized {
            return Err(ContractError::NotInitialized);
        }
        if trade_id == 0 || trade_id > self.trade_counter {
            return Err(ContractError::TradeNotFound);
        }
        let n: usize = self.slots.len();
        assert(trade_id - 1 < n);
        let i = (trade_id - 1) as usize;
        assert(self@.trades[i as int] == self.slots@[i as int].trade);
        assert(self@.settled[i as int] == self.slots@[i as int].settled);
        Ok(i)
    }

    /// Whether `arbitrator` is currently registered. No authorization needed.
    pub fn is_arbitrator_registered(&self, arbitrator: Address) -> (r: bool)
        requires
            self.wf(),
        ensures
            r == self@.arbitrators.contains(arbitrator),
    {
        let mut i: usize = 0;
        while i < self.arbitrators.len()
            invariant
                i <= self.arbitrators@.len(),
                forall|j: int| 0 <= j < i ==> self.arbitrators@[j] != arbitrator,
            decreases self.arbitrators@.len() - i,
        {
            if self.arbitrators[i] == arbitrator {
                return true;
            }
            i = i + 1;
        }
        false
    }

    /// Opens a trade from `seller` to `buyer` over `amount`, optionally under
    /// a registered arbitrator. The fee is fixed now, at the current rate.
    /// Only the seller may open it. Returns the new trade's id.
    pub fn create_trade(
        &mut self,
        caller: Address,
        seller: Address,
        buyer: Address,
        amount: u64,
        arbitrator: Option<Address>,
    ) -> (r: Result<u64, ContractError>)
        requires
            old(self).wf(),
        ensures
            final(self).wf(),
            (final(self)@, r) == old(self)@.create_trade(caller, seller, buyer, amount, arbitrator),
    {
        if !self.initialized {
            return Err(ContractError::NotInitialized);
        }
        if amount == 0 {
            return Err(ContractError::InvalidAmount);
        }
        if caller != seller {
            return Err(ContractError::Unauthorized);
        }
        match arbitrator {
            Some(a) => {
                if !self.is_arbitrator_registered(a) {
                    return Err(ContractError::ArbitratorNotRegistered);
                }
            },
            None => {},
        }
        let trade_id = match self.trade_counter.checked_add(1) {
            Some(n) => n,
            None => return Err(ContractError::Overflow),
        };
        let fee = match compute_fee(amount, self.fee_bps) {
            Ok(f) => f,
            Err(e) => return Err(e),
        };
        proof {
            crate::fees::lemma_fee_bounded(amount, self.fee_bps);
        }
        let trade = Trade {
            id: trade_id,
            seller,
            buyer,
            amount,
            fee,
            arbitrator,
            status: TradeStatus::Created,
        };
        let ghost before = self@;
        self.slots.push(Slot { trade, settled: false });
        self.trade_counter = trade_id;
        assert(self@.trades =~= before.trades.push(trade));
        assert(self@.settled =~= before.settled.push(false));
        Ok(trade_id)
    }

    /// Moves unsettled trade `trade_id`, stored at `i`, to status `s`.
    fn set_status(&mut self, trade_id: u64, i: usize, s: TradeStatus)
        requires
            old(self).wf(),
            old(self)@.trade(trade_id) is Some,
            i == trade_id - 1,
            !old(self)@.settled[i as int],
            s == TradeStatus::Disputed ==> old(self)@.trades[i as int].arbitrator is Some,
        ensures
            final(self).wf(),
            final(self)@ == old(self)@.with_status(trade_id, s),
    {
        let ghost before = self@;
        let slot = self.slots[i];
        let trade = Trade { status: s, ..slot.trade };
        self.slots.set(i, Slot { trade, settled: false });
        assert(self@.trades =~= before.trades.update(i as int, trade));
        assert(self@.settled =~= before.settled);
    }

    /// Pays out trade `trade_id`, stored at `i`: marks it settled and books
    /// its fee.
    fn settle(&mut self, trade_id: u64, i: usize)
        requires
            old(self).wf(),
            old(self)@.trade(trade_id) is Some,
            i == trade_id - 1,
            !old(self)@.settled[i as int],
            old(self)@.trades[i as int].status == TradeStatus::Completed
                || old(self)@.trades[i as int].status == TradeStatus::Disputed,
            !old(self)@.accrual_overflows(trade_id),
        ensures
            final(self).wf(),
            final(self)@ == old(self)@.with_settlement(trade_id),
    {
        let ghost before = self@;
        let slot = self.slots[i];
        self.accumulated_fees = self.accumulated_fees + slot.trade.fee;
        self.slots.set(i, Slot { trade: slot.trade, settled: true });
        assert(self@.trades =~= before.trades);
        assert(self@.settled =~= before.settled.update(i as int, true));
    }

    /// The buyer pays the trade's amount into custody.
    pub fn fund_trade(&mut self, caller: Address, trade_id: u64) -> (r: Result<Transfer, ContractError>)
        requires
            old(self).wf(),
        ensures
            final(self).wf(),
            (final(self)@, r) == old(self)@.fund_trade(caller, trade_id),
    {
        let i = match self.locate(trade_id) {
            Ok(i) => i,
            Err(e) => return Err(e),
        };
        let slot = self.slots[i];
        if slot.settled || slot.trade.status != TradeStatus::Created {
            return Err(ContractError::InvalidStatus);
        }
        if caller != slot.trade.buyer {
            return Err(ContractError::Unauthorized);
        }
        self.set_status(trade_id, i, TradeStatus::Funded);
        Ok(Transfer { from: slot.trade.buyer, to: self.custody, amount: slot.trade.amount })
    }

    /// The seller declares a funded trade delivered.
    pub fn complete_trade(&mut self, caller: Address, trade_id: u64) -> (r: Result<(), ContractError>)
        requires
            old(self).wf(),
        ensures
            final(self).wf(),
            (final(self)@, r) == old(self)@.complete_trade(caller, trade_id),
    {
        let i = match self.locate(trade_id) {
            Ok(i) => i,
            Err(e) => return Err(e),
        };
        let slot = self.slots[i];
        if slot.settled || slot.trade.status != TradeStatus::Funded {
            return Err(ContractError::InvalidStatus);
        }
        if caller != slot.trade.seller {
            return Err(ContractError::Unauthorized);
        }
        self.set_status(trade_id, i, TradeStatus::Completed);
        Ok(())
    }

    /// The buyer accepts a completed trade: the amount less the fee goes to
    /// the seller, the fee to the fee balance. The trade is then settled.
    pub fn confirm_receipt(&mut self, caller: Address, trade_id: u64) -> (r: Result<Transfer, ContractError>)
        requires
            old(self).wf(),
        ensures
            final(self).wf(),
            (final(self)@, r) == old(self)@.confirm_receipt(caller, trade_id),
    {
        let i = match self.locate(trade_id) {
            Ok(i) => i,
            Err(e) => return Err(e),
        };
        let slot = self.slots[i];
        if slot.settled || slot.trade.status != TradeStatus::Completed {
            return Err(ContractError::InvalidStatus);
        }
        if caller != slot.trade.buyer {
            return Err(ContractError::Unauthorized);
        }
        if self.accumulated_fees.checked_add(slot.trade.fee).is_none() {
            return Err(ContractError::Overflow);
        }
        let payout = slot.trade.amount - slot.trade.fee;
        self.settle(trade_id, i);
        Ok(Transfer { from: self.custody, to: slot.trade.seller, amount: payout })
    }

    /// The buyer or the seller puts a funded or completed trade before its
    /// arbitrator. A trade opened without an arbitrator cannot be disputed.
    pub fn raise_dispute(&mut self, caller: Address, trade_id: u64) -> (r: Result<(), ContractError>)
        requires
            old(self).wf(),
        ensures
            final(self).wf(),
            (final(self)@, r) == old(self)@.raise_dispute(caller, trade_id),
    {
        let i = match self.locate(trade_id) {
            Ok(i) => i,
            Err(e) => return Err(e),
        };
        let slot = self.slots[i];
        if slot.settled || (slot.trade.status != TradeStatus::Funded && slot.trade.status
            != TradeStatus::Completed) {
            return Err(ContractError::InvalidStatus);
        }
        if slot.trade.arbitrator.is_none() {
            return Err(ContractError::ArbitratorNotRegistered);
        }
        if caller != slot.trade.buyer && caller != slot.trade.seller {
            return Err(ContractError::Unauthorized);
        }
        self.set_status(trade_id, i, TradeStatus::Disputed);
        Ok(())
    }

    /// The trade's arbitrator settles a dispute: the amount less the fee goes
    /// to the party the resolution names, the fee to the fee balance.
    pub fn resolve_dispute(
        &mut self,
        caller: Address,
        trade_id: u64,
        resolution: DisputeResolution,
    ) -> (r: Result<Transfer, ContractError>)
        requires
            old(self).wf(),
        ensures
            final(self).wf(),
            (final(self)@, r) == old(self)@.resolve_dispute(caller, trade_id, resolution),
    {
        let i = match self.locate(trade_id) {
            Ok(i) => i,
            Err(e) => return Err(e),
        };
        let slot = self.slots[i];
        if slot.settled || slot.trade.status != TradeStatus::Disputed {
            return Err(ContractError::InvalidStatus);
        }
        let arbitrator = match slot.trade.arbitrator {
            Some(a) => a,
            None => return Err(ContractError::ArbitratorNotRegistered),
        };
        if caller != arbitrator {
            return Err(ContractError::Unauthorized);
        }
        if self.accumulated_fees.checked_add(slot.trade.fee).is_none() {
            return Err(ContractError::Overflow);
        }
        let recipient = match resolution {
            DisputeResolution::ReleaseToBuyer => slot.trade.buyer,
            DisputeResolution::ReleaseToSeller => slot.trade.seller,
        };
        let payout = slot.trade.amount - slot.trade.fee;
        self.settle(trade_id, i);
        Ok(Transfer { from: self.custody, to: recipient, amount: payout })
    }

    /// The seller withdraws a trade that has not been funded.
    pub fn cancel_trade(&mut self, caller: Address, trade_id: u64) -> (r: Result<(), ContractError>)
        requires
            old(self).wf(),
        ensures
            final(self).wf(),
            (final(self)@, r) == old(self)@.cancel_trade(caller, trade_id),
    {
        let i = match self.locate(trade_id) {
            Ok(i) => i,
            Err(e) => return Err(e),
        };
        let slot = self.slots[i];
        if slot.settled || slot.trade.status != TradeStatus::Created {
            return Err(ContractError::InvalidStatus);
        }
        if caller != slot.trade.seller {
            return Err(ContractError::Unauthorized);
        }
        self.set_status(trade_id, i, TradeStatus::Cancelled);
        Ok(())
    }

    /// Configures the engine once: its administrator, the asset it escrows
    /// and the fee rate. Only the administrator may do it.
    pub fn initialize(
        &mut self,
        caller: Address,
        admin: Address,
        usdc_token: Address,
        fee_bps: u32,
    ) -> (r: Result<(), ContractError>)
        requires
            old(self).wf(),
        ensures
            final(self).wf(),
            (final(self)@, r) == old(self)@.initialize(caller, admin, usdc_token, fee_bps),
    {
        if self.initialized {
            return Err(ContractError::AlreadyInitialized);
        }
        if fee_bps > MAX_FEE_BPS {
            return Err(ContractError::InvalidFeeBps);
        }
        if caller != admin {
            return Err(ContractError::Unauthorized);
        }
        self.admin = admin;
        self.usdc_token = usdc_token;
        self.fee_bps = fee_bps;
        self.accumulated_fees = 0;
        self.initialized = true;
        Ok(())
    }

    /// Checks that the engine is initialized and `caller` is its administrator.
    fn authorize_admin(&self, caller: Address) -> (r: Result<(), ContractError>)
        requires
            self.wf(),
        ensures
            match self@.admin_error(caller) {
                Some(e) => r == Err::<(), ContractError>(e),
                None => r == Ok::<(), ContractError>(()),
            },
    {
        if !self.initialized {
            return Err(ContractError::NotInitialized);
        }
        if caller != self.admin {
            return Err(ContractError::Unauthorized);
        }
        Ok(())
    }

    /// Adds `arbitrator` to the registry; registering a member again changes
    /// nothing. Administrator only.
    pub fn register_arbitrator(&mut self, caller: Address, arbitrator: Address) -> (r: Result<
        (),
        ContractError,
    >)
        requires
            old(self).wf(),
        ensures
            final(self).wf(),
            (final(self)@, r) == old(self)@.register_arbitrator(caller, arbitrator),
    {
        match self.authorize_admin(caller) {
            Ok(()) => {},
            Err(e) => return Err(e),
        }
        if self.is_arbitrator_registered(arbitrator) {
            assert(self@.arbitrators.insert(arbitrator) =~= self@.arbitrators);
            return Ok(());
        }
        let ghost before = self.arbitrators@;
        self.arbitrators.push(arbitrator);
        assert forall|a: Address| self.arbitrators@.contains(a) <==> before.contains(a) || a
            == arbitrator by {
            if before.contains(a) {
                let j = choose|j: int| 0 <= j < before.len() && before[j] == a;
                assert(self.arbitrators@[j] == a);
            }
            if a == arbitrator {
                assert(self.arbitrators@[before.len() as int] == a);
            }
        }
        assert(self@.arbitrators =~= old(self)@.arbitrators.insert(arbitrator));
        Ok(())
    }

    /// Takes `arbitrator` out of the registry; removing a non-member changes
    /// nothing. Administrator only. Trades already bound to it keep it.
    pub fn remove_arbitrator_fn(&mut self, caller: Address, arbitrator: Address) -> (r: Result<
        (),
        ContractError,
    >)
        requires
            old(self).wf(),
        ensures
            final(self).wf(),
            (final(self)@, r) == old(self)@.remove_arbitrator(caller, arbitrator),
    {
        match self.authorize_admin(caller) {
            Ok(()) => {},
            Err(e) => return Err(e),
        }
        let mut i: usize = 0;
        while i < self.arbitrators.len() && self.arbitrators[i] != arbitrator
            invariant
                i <= self.arbitrators@.len(),
                forall|j: int| 0 <= j < i ==> self.arbitrators@[j] != arbitrator,
            decreases self.arbitrators@.len() - i,
        {
            i = i + 1;
        }
        if i == self.arbitrators.len() {
            assert(self@.arbitrators.remove(arbitrator) =~= self@.arbitrators);
            return Ok(());
        }
        let ghost before = self.arbitrators@;
        self.arbitrators.remove(i);
        assert forall|a: Address| self.arbitrators@.contains(a) <==> before.contains(a) && a
            != arbitrator by {
            if before.contains(a) && a != arbitrator {
                let j = choose|j: int| 0 <= j < before.len() && before[j] == a;
                assert(j != i);
                if j < i {
                    assert(self.arbitrators@[j] == a);
                } else {
                    assert(self.arbitrators@[j - 1] == a);
                }
            }
            if self.arbitrators@.contains(a) {
                let k = choose|k: int| 0 <= k < self.arbitrators@.len() && self.arbitrators@[k] == a;
                if k < i {
                    assert(before[k] == a);
                } else {
                    assert(before[k + 1] == a);
                    assert(k + 1 != i);
                }
            }
        }
        assert(self.arbitrators@.no_duplicates());
        assert(self@.arbitrators =~= old(self)@.arbitrators.remove(arbitrator));
        Ok(())
    }

    /// Sets the fee rate for trades created from now on. Administrator only.
    pub fn update_fee(&mut self, caller: Address, fee_bps: u32) -> (r: Result<(), ContractError>)
        requires
            old(self).wf(),
        ensures
            final(self).wf(),
            (final(self)@, r) == old(self)@.update_fee(caller, fee_bps),
    {
        if !self.initialized {
            return Err(ContractError::NotInitialized);
        }
        if fee_bps > MAX_FEE_BPS {
            return Err(ContractError::InvalidFeeBps);
        }
        if caller != self.admin {
            return Err(ContractError::Unauthorized);
        }
        self.fee_bps = fee_bps;
        Ok(())
    }

    /// Pays the whole fee balance out of custody to `to` and resets it to
    /// zero. Administrator only; fails when there is nothing to pay.
    pub fn withdraw_fees(&mut self, caller: Address, to: Address) -> (r: Result<
        Transfer,
        ContractError,
    >)
        requires
            old(self).wf(),
        ensures
            final(self).wf(),
            (final(self)@, r) == old(self)@.withdraw_fees(caller, to),
    {
        match self.authorize_admin(caller) {
            Ok(()) => {},
            Err(e) => return Err(e),
        }
        let fees = self.accumulated_fees;
        if fees == 0 {
            return Err(ContractError::NoFeesToWithdraw);
        }
        self.accumulated_fees = 0;
        Ok(Transfer { from: self.custody, to, amount: fees })
    }

    /// The trade with id `trade_id`.
    pub fn get_trade(&self, trade_id: u64) -> (r: Result<Trade, ContractError>)
        requires
            self.wf(),
        ensures
            match self@.trade(trade_id) {
                Some(t) => r == Ok::<Trade, ContractError>(t),
                None => r == Err::<Trade, ContractError>(ContractError::TradeNotFound),
            },
    {
        if trade_id == 0 || trade_id > self.trade_counter {
            return Err(ContractError::TradeNotFound);
        }
        let n: usize = self.slots.len();
        assert(trade_id - 1 < n);
        let i = (trade_id - 1) as usize;
        assert(self@.trades[i as int] == self.slots@[i as int].trade);
        Ok(self.slots[i].trade)
    }

    /// The fee balance awaiting withdrawal.
    pub fn get_accumulated_fees(&self) -> (r: Result<u64, ContractError>)
        requires
            self.wf(),
        ensures
            r == if self@.initialized {
                Ok::<u64, ContractError>(self@.accumulated_fees)
            } else {
                Err(ContractError::NotInitialized)
            },
    {
        if !self.initialized {
            return Err(ContractError::NotInitialized);
        }
        Ok(self.accumulated_fees)
    }

    /// The fee rate, in basis points, applied to new trades.
    pub fn get_platform_fee_bps(&self) -> (r: Result<u32, ContractError>)
        requires
            self.wf(),
        ensures
            r == if self@.initialized {
                Ok::<u32, ContractError>(self@.fee_bps)
            } else {
                Err(ContractError::NotInitialized)
            },
    {
        if !self.initialized {
            return Err(ContractError::NotInitialized);
        }
        Ok(self.fee_bps)
    }

    /// The administrator.
    pub fn get_admin(&self) -> (r: Result<Address, ContractError>)
        requires
            self.wf(),
        ensures
            r == if self@.initialized {
                Ok::<Address, ContractError>(self@.admin)
            } else {
                Err(ContractError::NotInitialized)
            },
    {
        if !self.initialized {
            return Err(ContractError::NotInitialized);
        }
        Ok(self.admin)
    }

    /// The asset the engine escrows.
    pub fn get_usdc_token(&self) -> (r: Result<Address, ContractError>)
        requires
            self.wf(),
        ensures
            r == if self@.initialized {
                Ok::<Address, ContractError>(self@.value_asset)
            } else {
                Err(ContractError::NotInitialized)
            },
    {
        if !self.initialized {
            return Err(ContractError::NotInitialized);
        }
        Ok(self.usdc_token)
    }

    /// The last trade id handed out.
    pub fn get_trade_counter(&self) -> (r: Result<u64, ContractError>)
        requires
            self.wf(),
        ensures
            r == if self@.initialized {
                Ok::<u64, ContractError>(self@.trade_counter() as u64)
            } else {
                Err(ContractError::NotInitialized)
            },
    {
        if !self.initialized {
            return Err(ContractError::NotInitialized);
        }
        Ok(self.trade_counter)
    }

    /// Whether `initialize` has run.
    pub fn is_initialized(&self) -> (r: bool)
        ensures
            r == self@.initialized,
    {
        self.initialized
    }

    /// The account that holds escrowed value.
    pub fn custody(&self) -> (r: Address)
        ensures
            r == self@.custody,
    {
        self.custody
    }
}

} // verus!
