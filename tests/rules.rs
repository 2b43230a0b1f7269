use stellar_escrow::{
    compute_fee, Address, ContractError, DisputeResolution, StellarEscrowContract, TradeStatus,
    Transfer,
};

const CUSTODY: Address = Address { id: 1 };
const ADMIN: Address = Address { id: 2 };
const ASSET: Address = Address { id: 3 };
const SELLER: Address = Address { id: 10 };
const BUYER: Address = Address { id: 11 };
const ARBITER: Address = Address { id: 12 };
const STRANGER: Address = Address { id: 13 };

fn ready(fee_bps: u32) -> StellarEscrowContract {
    let mut c = StellarEscrowContract::new(CUSTODY);
    c.initialize(ADMIN, ADMIN, ASSET, fee_bps).unwrap();
    c
}

#[test]
fn fee_formula_exact_values() {
    assert_eq!(compute_fee(10000, 250), Ok(250));
    assert_eq!(compute_fee(9999, 250), Ok(249));
    assert_eq!(compute_fee(1, 9999), Ok(0));
    assert_eq!(compute_fee(12345, 10000), Ok(12345));
    assert_eq!(compute_fee(12345, 0), Ok(0));
}

#[test]
fn fee_never_exceeds_amount() {
    for amount in [1u64, 7, 100, 9999, 10000, 123456789, u64::MAX / 10000] {
        for bps in [0u32, 1, 250, 5000, 9999, 10000] {
            let fee = compute_fee(amount, bps).unwrap();
            assert!(fee <= amount);
            assert_eq!(fee as u128, (amount as u128 * bps as u128) / 10000);
        }
    }
}

#[test]
fn fee_overflow_reported() {
    assert_eq!(compute_fee(u64::MAX, 2), Err(ContractError::Overflow));
    assert_eq!(compute_fee(u64::MAX, 1), Ok(u64::MAX / 10000));
}

#[test]
fn create_trade_overflowing_fee_is_refused() {
    let mut c = ready(250);
    let r = c.create_trade(SELLER, SELLER, BUYER, u64::MAX, None);
    assert_eq!(r, Err(ContractError::Overflow));
    assert_eq!(c.get_trade_counter(), Ok(0));
}

#[test]
fn fee_is_pinned_at_creation() {
    let mut c = ready(250);
    let first = c.create_trade(SELLER, SELLER, BUYER, 10000, None).unwrap();
    c.update_fee(ADMIN, 500).unwrap();
    assert_eq!(c.get_trade(first).unwrap().fee, 250);
    let second = c.create_trade(SELLER, SELLER, BUYER, 10000, None).unwrap();
    assert_eq!(c.get_trade(second).unwrap().fee, 500);
}

#[test]
fn ids_not_reused_after_cancel() {
    let mut c = ready(250);
    let a = c.create_trade(SELLER, SELLER, BUYER, 10, None).unwrap();
    c.cancel_trade(SELLER, a).unwrap();
    let b = c.create_trade(SELLER, SELLER, BUYER, 20, None).unwrap();
    let d = c.create_trade(SELLER, SELLER, BUYER, 30, None).unwrap();
    assert_eq!((a, b, d), (1, 2, 3));
    assert_eq!(c.get_trade(a).unwrap().status, TradeStatus::Cancelled);
    assert_eq!(c.get_trade_counter(), Ok(3));
}

#[test]
fn create_then_get_round_trip() {
    let mut c = ready(300);
    c.register_arbitrator(ADMIN, ARBITER).unwrap();
    let id = c.create_trade(SELLER, SELLER, BUYER, 5000, Some(ARBITER)).unwrap();
    let t = c.get_trade(id).unwrap();
    assert_eq!(t.id, id);
    assert_eq!(t.seller, SELLER);
    assert_eq!(t.buyer, BUYER);
    assert_eq!(t.amount, 5000);
    assert_eq!(t.fee, 150);
    assert_eq!(t.arbitrator, Some(ARBITER));
    assert_eq!(t.status, TradeStatus::Created);
}

#[test]
fn registry_is_idempotent() {
    let mut c = ready(250);
    c.register_arbitrator(ADMIN, ARBITER).unwrap();
    c.register_arbitrator(ADMIN, ARBITER).unwrap();
    assert!(c.is_arbitrator_registered(ARBITER));
    c.remove_arbitrator_fn(ADMIN, ARBITER).unwrap();
    assert!(!c.is_arbitrator_registered(ARBITER));
    c.remove_arbitrator_fn(ADMIN, STRANGER).unwrap();
    c.remove_arbitrator_fn(ADMIN, ARBITER).unwrap();
    assert!(!c.is_arbitrator_registered(ARBITER));
    assert!(!c.is_arbitrator_registered(STRANGER));
    c.register_arbitrator(ADMIN, ARBITER).unwrap();
    assert!(c.is_arbitrator_registered(ARBITER));
}

#[test]
fn confirm_on_created_trade_changes_nothing() {
    let mut c = ready(250);
    let id = c.create_trade(SELLER, SELLER, BUYER, 10000, None).unwrap();
    assert_eq!(c.confirm_receipt(BUYER, id), Err(ContractError::InvalidStatus));
    assert_eq!(c.get_trade(id).unwrap().status, TradeStatus::Created);
    assert_eq!(c.get_accumulated_fees(), Ok(0));
    assert_eq!(c.complete_trade(SELLER, id), Err(ContractError::InvalidStatus));
    assert_eq!(c.resolve_dispute(ARBITER, id, DisputeResolution::ReleaseToBuyer), Err(ContractError::InvalidStatus));
}

#[test]
fn end_to_end_settlement_transfers() {
    let mut c = ready(250);
    let id = c.create_trade(SELLER, SELLER, BUYER, 10000, None).unwrap();
    assert_eq!(id, 1);
    assert_eq!(c.get_trade(id).unwrap().fee, 250);
    assert_eq!(c.fund_trade(BUYER, id), Ok(Transfer { from: BUYER, to: CUSTODY, amount: 10000 }));
    assert_eq!(c.cancel_trade(SELLER, id), Err(ContractError::InvalidStatus));
    c.complete_trade(SELLER, id).unwrap();
    assert_eq!(c.confirm_receipt(BUYER, id), Ok(Transfer { from: CUSTODY, to: SELLER, amount: 9750 }));
    assert_eq!(c.get_accumulated_fees(), Ok(250));
    assert_eq!(c.confirm_receipt(BUYER, id), Err(ContractError::InvalidStatus));
    assert_eq!(c.raise_dispute(BUYER, id), Err(ContractError::InvalidStatus));
    assert_eq!(c.get_accumulated_fees(), Ok(250));
}

#[test]
fn resolved_trade_is_no_longer_actionable() {
    let mut c = ready(250);
    c.register_arbitrator(ADMIN, ARBITER).unwrap();
    let id = c.create_trade(SELLER, SELLER, BUYER, 10000, Some(ARBITER)).unwrap();
    c.fund_trade(BUYER, id).unwrap();
    c.raise_dispute(SELLER, id).unwrap();
    let t = c.resolve_dispute(ARBITER, id, DisputeResolution::ReleaseToBuyer).unwrap();
    assert_eq!(t, Transfer { from: CUSTODY, to: BUYER, amount: 9750 });
    assert_eq!(c.get_accumulated_fees(), Ok(250));
    assert_eq!(c.resolve_dispute(ARBITER, id, DisputeResolution::ReleaseToSeller), Err(ContractError::InvalidStatus));
    assert_eq!(c.confirm_receipt(BUYER, id), Err(ContractError::InvalidStatus));
    assert_eq!(c.cancel_trade(SELLER, id), Err(ContractError::InvalidStatus));
    assert_eq!(c.get_accumulated_fees(), Ok(250));
}

#[test]
fn removed_arbitrator_still_resolves_bound_trade() {
    let mut c = ready(0);
    c.register_arbitrator(ADMIN, ARBITER).unwrap();
    let id = c.create_trade(SELLER, SELLER, BUYER, 400, Some(ARBITER)).unwrap();
    c.remove_arbitrator_fn(ADMIN, ARBITER).unwrap();
    c.fund_trade(BUYER, id).unwrap();
    c.complete_trade(SELLER, id).unwrap();
    c.raise_dispute(BUYER, id).unwrap();
    let t = c.resolve_dispute(ARBITER, id, DisputeResolution::ReleaseToSeller).unwrap();
    assert_eq!(t, Transfer { from: CUSTODY, to: SELLER, amount: 400 });
    assert_eq!(c.get_accumulated_fees(), Ok(0));
}

#[test]
fn withdraw_takes_whole_balance() {
    let mut c = ready(1000);
    assert_eq!(c.withdraw_fees(ADMIN, STRANGER), Err(ContractError::NoFeesToWithdraw));
    let id = c.create_trade(SELLER, SELLER, BUYER, 1234, None).unwrap();
    c.fund_trade(BUYER, id).unwrap();
    c.complete_trade(SELLER, id).unwrap();
    c.confirm_receipt(BUYER, id).unwrap();
    assert_eq!(c.withdraw_fees(STRANGER, STRANGER), Err(ContractError::Unauthorized));
    assert_eq!(c.withdraw_fees(ADMIN, STRANGER), Ok(Transfer { from: CUSTODY, to: STRANGER, amount: 123 }));
    assert_eq!(c.get_accumulated_fees(), Ok(0));
    assert_eq!(c.withdraw_fees(ADMIN, STRANGER), Err(ContractError::NoFeesToWithdraw));
}

#[test]
fn operations_before_initialize_fail() {
    let mut c = StellarEscrowContract::new(CUSTODY);
    assert!(!c.is_initialized());
    assert_eq!(c.create_trade(SELLER, SELLER, BUYER, 10, None), Err(ContractError::NotInitialized));
    assert_eq!(c.fund_trade(BUYER, 1), Err(ContractError::NotInitialized));
    assert_eq!(c.register_arbitrator(ADMIN, ARBITER), Err(ContractError::NotInitialized));
    assert_eq!(c.update_fee(ADMIN, 10), Err(ContractError::NotInitialized));
    assert_eq!(c.get_accumulated_fees(), Err(ContractError::NotInitialized));
    assert_eq!(c.get_platform_fee_bps(), Err(ContractError::NotInitialized));
    assert_eq!(c.get_admin(), Err(ContractError::NotInitialized));
    assert_eq!(c.get_usdc_token(), Err(ContractError::NotInitialized));
    assert_eq!(c.get_trade_counter(), Err(ContractError::NotInitialized));
    assert_eq!(ContractError::NotInitialized.code(), 2);
}

#[test]
fn configuration_is_readable_after_initialize() {
    let c = ready(42);
    assert!(c.is_initialized());
    assert_eq!(c.get_admin(), Ok(ADMIN));
    assert_eq!(c.get_usdc_token(), Ok(ASSET));
    assert_eq!(c.get_platform_fee_bps(), Ok(42));
    assert_eq!(c.get_trade_counter(), Ok(0));
    assert_eq!(c.custody(), CUSTODY);
}

#[test]
fn initialize_needs_the_admin_itself() {
    let mut c = StellarEscrowContract::new(CUSTODY);
    assert_eq!(c.initialize(STRANGER, ADMIN, ASSET, 250), Err(ContractError::Unauthorized));
    assert!(!c.is_initialized());
    assert_eq!(c.initialize(ADMIN, ADMIN, ASSET, 10000), Ok(()));
}

#[test]
fn unknown_trades_are_not_found() {
    let mut c = ready(250);
    assert_eq!(c.get_trade(0), Err(ContractError::TradeNotFound));
    assert_eq!(c.get_trade(1), Err(ContractError::TradeNotFound));
    assert_eq!(c.fund_trade(BUYER, 7), Err(ContractError::TradeNotFound));
    assert_eq!(ContractError::TradeNotFound.code(), 6);
}

#[test]
fn unregistered_arbitrator_refused_at_creation() {
    let mut c = ready(250);
    assert_eq!(c.create_trade(SELLER, SELLER, BUYER, 10, Some(ARBITER)), Err(ContractError::ArbitratorNotRegistered));
    assert_eq!(c.get_trade_counter(), Ok(0));
}

#[test]
fn roles_are_enforced() {
    let mut c = ready(250);
    c.register_arbitrator(ADMIN, ARBITER).unwrap();
    assert_eq!(c.register_arbitrator(STRANGER, STRANGER), Err(ContractError::Unauthorized));
    assert_eq!(c.update_fee(STRANGER, 1), Err(ContractError::Unauthorized));
    assert_eq!(c.update_fee(ADMIN, 10001), Err(ContractError::InvalidFeeBps));
    assert_eq!(c.create_trade(BUYER, SELLER, BUYER, 10, Some(ARBITER)), Err(ContractError::Unauthorized));
    let id = c.create_trade(SELLER, SELLER, BUYER, 10, Some(ARBITER)).unwrap();
    assert_eq!(c.fund_trade(SELLER, id), Err(ContractError::Unauthorized));
    assert_eq!(c.cancel_trade(BUYER, id), Err(ContractError::Unauthorized));
    c.fund_trade(BUYER, id).unwrap();
    assert_eq!(c.complete_trade(BUYER, id), Err(ContractError::Unauthorized));
    assert_eq!(c.raise_dispute(STRANGER, id), Err(ContractError::Unauthorized));
    c.raise_dispute(BUYER, id).unwrap();
    assert_eq!(c.resolve_dispute(BUYER, id, DisputeResolution::ReleaseToBuyer), Err(ContractError::Unauthorized));
    assert_eq!(c.get_trade(id).unwrap().status, TradeStatus::Disputed);
    assert_eq!(ContractError::Unauthorized.code(), 10);
}
