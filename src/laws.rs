use vstd::prelude::*;
use crate::errors::ContractError;
use crate::fees::fee_of;
use crate::model::EscrowModel;
use crate::types::{Address, DisputeResolution, Trade, TradeStatus, Transfer};

verus! {

/// A trade keeps the fee computed when it was created: changing the fee
/// rate afterwards leaves it as it was.
pub proof fn law_fee_fixed_at_creation(
    m: EscrowModel,
    caller: Address,
    seller: Address,
    buyer: Address,
    amount: u64,
    arbitrator: Option<Address>,
    admin: Address,
    new_fee_bps: u32,
)
    requires
        m.valid(),
    ensures
        ({
            let (m1, r) = m.create_trade(caller, seller, buyer, amount, arbitrator);
            let m2 = m1.update_fee(admin, new_fee_bps).0;
            r is Ok ==> {
                &&& m2.trade(r.unwrap()) == m1.trade(r.unwrap())
                &&& m2.trade(r.unwrap()).unwrap().fee == fee_of(amount, m.fee_bps)
            }
        }),
{
}

/// Trade ids are handed out as 1, 2, 3, ... in creation order: a new trade
/// gets the id after the last one issued, and that id was free.
pub proof fn law_create_assigns_next_id(
    m: EscrowModel,
    caller: Address,
    seller: Address,
    buyer: Address,
    amount: u64,
    arbitrator: Option<Address>,
)
    requires
        m.valid(),
    ensures
        ({
            let (m1, r) = m.create_trade(caller, seller, buyer, amount, arbitrator);
            r is Ok ==> {
                &&& r.unwrap() == m.trade_counter() + 1
                &&& m.trade(r.unwrap()) is None
                &&& m1.trade_counter() == m.trade_counter() + 1
            }
        }),
{
}

/// Cancelling a trade keeps its id taken: the counter and every other trade
/// stay as they were, so the next trade gets a fresh id.
pub proof fn law_cancel_keeps_ids(m: EscrowModel, caller: Address, id: u64, other: u64)
    requires
        m.valid(),
        other != id,
    ensures
        ({
            let m1 = m.cancel_trade(caller, id).0;
            &&& m1.trade_counter() == m.trade_counter()
            &&& m1.trade(other) == m.trade(other)
            &&& m.trade(id) is Some ==> m1.trade(id) is Some && m1.trade(id).unwrap().id == id
        }),
{
}

/// Reading a trade back right after creating it gives exactly what was
/// asked for, with the fee at the current rate and status `Created`.
pub proof fn law_create_then_get(
    m: EscrowModel,
    caller: Address,
    seller: Address,
    buyer: Address,
    amount: u64,
    arbitrator: Option<Address>,
)
    requires
        m.valid(),
    ensures
        ({
            let (m1, r) = m.create_trade(caller, seller, buyer, amount, arbitrator);
            r is Ok ==> m1.trade(r.unwrap()) == Some(
                Trade {
                    id: r.unwrap(),
                    seller,
                    buyer,
                    amount,
                    fee: fee_of(amount, m.fee_bps) as u64,
                    arbitrator,
                    status: TradeStatus::Created,
                },
            )
        }),
{
}

/// Registering an arbitrator twice has the effect of registering it once,
/// and registering a member succeeds without changing anything.
pub proof fn law_register_idempotent(m: EscrowModel, caller: Address, arbitrator: Address)
    requires
        m.valid(),
    ensures
        ({
            let once = m.register_arbitrator(caller, arbitrator);
            once.0.register_arbitrator(caller, arbitrator) == once
        }),
        m.admin_error(caller) is None && m.arbitrators.contains(arbitrator)
            ==> m.register_arbitrator(caller, arbitrator) == (m, Ok::<(), ContractError>(())),
{
    let once = m.register_arbitrator(caller, arbitrator);
    if m.admin_error(caller) is None {
        assert(once.0.arbitrators.insert(arbitrator) =~= once.0.arbitrators);
    }
    assert(m.arbitrators.contains(arbitrator) ==> m.arbitrators.insert(arbitrator)
        =~= m.arbitrators);
}

/// Removing an arbitrator that is not registered succeeds without changing
/// anything, and removing twice has the effect of removing once.
pub proof fn law_remove_idempotent(m: EscrowModel, caller: Address, arbitrator: Address)
    requires
        m.valid(),
    ensures
        ({
            let once = m.remove_arbitrator(caller, arbitrator);
            once.0.remove_arbitrator(caller, arbitrator) == once
        }),
        m.admin_error(caller) is None && !m.arbitrators.contains(arbitrator)
            ==> m.remove_arbitrator(caller, arbitrator) == (m, Ok::<(), ContractError>(())),
{
    let once = m.remove_arbitrator(caller, arbitrator);
    if m.admin_error(caller) is None {
        assert(once.0.arbitrators.remove(arbitrator) =~= once.0.arbitrators);
    }
    assert(!m.arbitrators.contains(arbitrator) ==> m.arbitrators.remove(arbitrator)
        =~= m.arbitrators);
}

/// A funded trade cannot be cancelled: the attempt fails with
/// `InvalidStatus` and changes nothing.
pub proof fn law_cancel_funded_rejected(m: EscrowModel, caller: Address, id: u64)
    requires
        m.valid(),
        m.initialized,
        m.trade(id) is Some,
        m.trades[id - 1].status == TradeStatus::Funded,
    ensures
        m.cancel_trade(caller, id) == (m, Err::<(), ContractError>(ContractError::InvalidStatus)),
{
}

/// Receipt cannot be confirmed on a trade that is only created: the attempt
/// fails with `InvalidStatus`, moves no value and changes nothing.
pub proof fn law_confirm_created_rejected(m: EscrowModel, caller: Address, id: u64)
    requires
        m.valid(),
        m.initialized,
        m.trade(id) is Some,
        m.trades[id - 1].status == TradeStatus::Created,
    ensures
        m.confirm_receipt(caller, id) == (m, Err::<Transfer, ContractError>(
            ContractError::InvalidStatus,
        )),
{
}

/// A trade opened without an arbitrator cannot be disputed, not even by one
/// of its own parties: the attempt fails with `ArbitratorNotRegistered` and
/// changes nothing.
pub proof fn law_dispute_needs_arbitrator(m: EscrowModel, caller: Address, id: u64)
    requires
        m.valid(),
        m.initialized,
        m.trade(id) is Some,
        m.stands_at(id, TradeStatus::Funded) || m.stands_at(id, TradeStatus::Completed),
        m.trades[id - 1].arbitrator is None,
        caller == m.trades[id - 1].buyer || caller == m.trades[id - 1].seller,
    ensures
        m.raise_dispute(caller, id) == (m, Err::<(), ContractError>(
            ContractError::ArbitratorNotRegistered,
        )),
{
}

/// Once a trade has been paid out, by confirmation or by resolution, no
/// operation on it succeeds or changes anything: its value moves only once.
pub proof fn law_settled_trade_is_final(
    m: EscrowModel,
    caller: Address,
    id: u64,
    resolution: DisputeResolution,
)
    requires
        m.valid(),
        m.initialized,
        m.trade(id) is Some,
        m.settled[id - 1],
    ensures
        m.fund_trade(caller, id) == (m, Err::<Transfer, ContractError>(ContractError::InvalidStatus)),
        m.complete_trade(caller, id) == (m, Err::<(), ContractError>(ContractError::InvalidStatus)),
        m.confirm_receipt(caller, id) == (m, Err::<Transfer, ContractError>(
            ContractError::InvalidStatus,
        )),
        m.raise_dispute(caller, id) == (m, Err::<(), ContractError>(ContractError::InvalidStatus)),
        m.resolve_dispute(caller, id, resolution) == (m, Err::<Transfer, ContractError>(
            ContractError::InvalidStatus,
        )),
        m.cancel_trade(caller, id) == (m, Err::<(), ContractError>(ContractError::InvalidStatus)),
{
}

/// A successful confirmation or resolution settles the trade, so it is final
/// afterwards.
pub proof fn law_payout_settles(
    m: EscrowModel,
    caller: Address,
    id: u64,
    resolution: DisputeResolution,
)
    requires
        m.valid(),
    ensures
        m.confirm_receipt(caller, id).1 is Ok ==> m.confirm_receipt(caller, id).0.settled[id - 1]
            && m.confirm_receipt(caller, id).0.accumulated_fees == m.accumulated_fees
            + m.trades[id - 1].fee,
        m.resolve_dispute(caller, id, resolution).1 is Ok ==> m.resolve_dispute(
            caller,
            id,
            resolution,
        ).0.settled[id - 1] && m.resolve_dispute(caller, id, resolution).0.accumulated_fees
            == m.accumulated_fees + m.trades[id - 1].fee,
{
}

/// Withdrawing fees fails with `NoFeesToWithdraw` when the balance is zero;
/// otherwise the administrator gets one transfer of the whole balance out
/// of custody and the balance becomes zero.
pub proof fn law_withdraw_takes_all(m: EscrowModel, admin: Address, to: Address)
    requires
        m.valid(),
        m.initialized,
        admin == m.admin,
    ensures
        m.accumulated_fees == 0 ==> m.withdraw_fees(admin, to) == (m, Err::<Transfer, ContractError>(
            ContractError::NoFeesToWithdraw,
        )),
        m.accumulated_fees > 0 ==> m.withdraw_fees(admin, to) == (
            EscrowModel { accumulated_fees: 0, ..m },
            Ok::<Transfer, ContractError>(
                Transfer { from: m.custody, to, amount: m.accumulated_fees },
            ),
        ),
{
}

/// No operation changes anything when it fails: a refused transition leaves
/// every trade, the registry and the fee balance as they were, and asks for
/// no transfer.
pub proof fn law_failures_change_nothing(
    m: EscrowModel,
    caller: Address,
    who: Address,
    id: u64,
    amount: u64,
    fee_bps: u32,
    arbitrator: Option<Address>,
    resolution: DisputeResolution,
)
    requires
        m.valid(),
    ensures
        m.initialize(caller, who, who, fee_bps).1 is Err ==> m.initialize(caller, who, who, fee_bps).0 == m,
        m.register_arbitrator(caller, who).1 is Err ==> m.register_arbitrator(caller, who).0 == m,
        m.remove_arbitrator(caller, who).1 is Err ==> m.remove_arbitrator(caller, who).0 == m,
        m.update_fee(caller, fee_bps).1 is Err ==> m.update_fee(caller, fee_bps).0 == m,
        m.withdraw_fees(caller, who).1 is Err ==> m.withdraw_fees(caller, who).0 == m,
        m.create_trade(caller, caller, who, amount, arbitrator).1 is Err ==> m.create_trade(
            caller,
            caller,
            who,
            amount,
            arbitrator,
        ).0 == m,
        m.fund_trade(caller, id).1 is Err ==> m.fund_trade(caller, id).0 == m,
        m.complete_trade(caller, id).1 is Err ==> m.complete_trade(caller, id).0 == m,
        m.confirm_receipt(caller, id).1 is Err ==> m.confirm_receipt(caller, id).0 == m,
        m.raise_dispute(caller, id).1 is Err ==> m.raise_dispute(caller, id).0 == m,
        m.resolve_dispute(caller, id, resolution).1 is Err ==> m.resolve_dispute(
            caller,
            id,
            resolution,
        ).0 == m,
        m.cancel_trade(caller, id).1 is Err ==> m.cancel_trade(caller, id).0 == m,
{
}

} // verus!
