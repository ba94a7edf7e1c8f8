use share_vault::ledger::{Assets, MemoryLedger};
use share_vault::liquidator::{FixedPrice, Module as Liquidator};
use share_vault::liquidator_adapter::{FixedStrategy, Liquidated, Module as Adapter};
use share_vault::template::Module as Template;
use share_vault::types::{into_account, AccountId, PalletId, VaultError};
use share_vault::vault::{calculate_mint_amount, calculate_withdraw_amount, Module as Vault};

const ASSET: u32 = 1;
const SHARE: u32 = 101;
const ALICE: AccountId = 1001;
const BOB: AccountId = 1002;
const MALLORY: AccountId = 1003;

fn vault_pallet() -> PalletId {
    PalletId(*b"py/vault")
}

fn liquidator_pallet() -> PalletId {
    PalletId(*b"py/liqui")
}

fn setup() -> (Vault, MemoryLedger) {
    let mut vault = Vault::new(vault_pallet(), liquidator_pallet());
    vault.register(ASSET, SHARE);
    let mut ledger = MemoryLedger::new();
    ledger.mint(ASSET, ALICE, 1_000).unwrap();
    ledger.mint(ASSET, BOB, 1_000).unwrap();
    (vault, ledger)
}

fn pool(vault: &Vault, ledger: &MemoryLedger) -> (u64, u64) {
    (ledger.balance(ASSET, vault.account_id()), ledger.total_supply(SHARE))
}

fn strategy(seized: Result<u64, VaultError>) -> FixedStrategy {
    FixedStrategy::new(seized)
}

#[test]
fn account_id_is_modl_prefix_then_pallet_id() {
    let mut bytes = [0u8; 16];
    bytes[..4].copy_from_slice(b"modl");
    bytes[4..12].copy_from_slice(b"py/vault");
    let expected = u128::from_le_bytes(bytes);
    assert_eq!(into_account(vault_pallet()), expected);
    let (vault, _) = setup();
    assert_eq!(vault.account_id(), expected);
    assert_eq!(Template::new(vault_pallet()).account_id(), expected);
}

#[test]
fn liquidator_accounts_agree() {
    let (vault, _) = setup();
    let liquidator = Liquidator::new(liquidator_pallet());
    let adapter = Adapter::new(liquidator_pallet());
    assert_eq!(vault.liquidator_account_id(), liquidator.account_id());
    assert_eq!(adapter.liquidator_account_id(), liquidator.account_id());
    assert_ne!(vault.account_id(), vault.liquidator_account_id());
}

#[test]
fn scenario_a_first_deposit_mints_one_to_one() {
    let (vault, mut ledger) = setup();
    assert_eq!(pool(&vault, &ledger), (0, 0));
    assert_eq!(vault.vault_deposit(&mut ledger, ALICE, ASSET, 100), Ok(100));
    assert_eq!(pool(&vault, &ledger), (100, 100));
    assert_eq!(ledger.balance(SHARE, ALICE), 100);
    assert_eq!(ledger.balance(ASSET, ALICE), 900);
}

#[test]
fn scenario_b_deposit_into_non_empty_pool() {
    let (vault, mut ledger) = setup();
    vault.vault_deposit(&mut ledger, ALICE, ASSET, 100).unwrap();
    assert_eq!(vault.vault_deposit(&mut ledger, BOB, ASSET, 50), Ok(50));
    assert_eq!(pool(&vault, &ledger), (150, 150));
    assert_eq!(ledger.balance(SHARE, BOB), 50);
}

#[test]
fn scenario_c_withdraw_pays_proportional_slice() {
    let (vault, mut ledger) = setup();
    vault.vault_deposit(&mut ledger, ALICE, ASSET, 100).unwrap();
    vault.vault_deposit(&mut ledger, BOB, ASSET, 50).unwrap();
    assert_eq!(vault.vault_withdraw(&mut ledger, BOB, ASSET, 50), Ok(50));
    assert_eq!(pool(&vault, &ledger), (100, 100));
    assert_eq!(ledger.balance(SHARE, BOB), 0);
    assert_eq!(ledger.balance(ASSET, BOB), 1_000);
}

#[test]
fn scenario_d_solvent_liquidation_borrows() {
    let (vault, mut ledger) = setup();
    vault.vault_deposit(&mut ledger, ALICE, ASSET, 100).unwrap();
    let liquidator = Liquidator::new(liquidator_pallet());
    let adapter = Adapter::new(liquidator_pallet());
    let mut strat = strategy(Ok(7));
    let r = liquidator.liquidate(&vault, &adapter, &mut ledger, &FixedPrice { price: 2 }, &mut strat, MALLORY, ASSET, 2, 10, 100, 15);
    assert_eq!(
        r,
        Ok(Liquidated { pay_asset_id: ASSET, pay_asset_amount: 10, get_asset_id: 2, get_asset_amount: 7 })
    );
    assert_eq!(pool(&vault, &ledger), (85, 100));
    assert_eq!(ledger.balance(ASSET, liquidator.account_id()), 15);
    assert_eq!(strat.history, vec![(MALLORY, ASSET, 2, 10, Ok(7))]);
}

#[test]
fn scenario_e_insolvent_liquidation_fails() {
    let (vault, mut ledger) = setup();
    vault.vault_deposit(&mut ledger, ALICE, ASSET, 100).unwrap();
    let liquidator = Liquidator::new(liquidator_pallet());
    let adapter = Adapter::new(liquidator_pallet());
    let mut strat = strategy(Ok(7));
    let r = liquidator.liquidate(&vault, &adapter, &mut ledger, &FixedPrice { price: 2 }, &mut strat, MALLORY, ASSET, 2, 5, 100, 15);
    assert_eq!(r, Err(VaultError::BorrowExceedsLiquidation));
    assert_eq!(pool(&vault, &ledger), (100, 100));
    assert_eq!(strat.history.len(), 0);
}

#[test]
fn scenario_f_borrow_by_non_liquidator_fails() {
    let (vault, mut ledger) = setup();
    vault.vault_deposit(&mut ledger, ALICE, ASSET, 100).unwrap();
    assert_eq!(vault.borrow(&mut ledger, MALLORY, ASSET, 10), Err(VaultError::NotLiquidator));
    assert_eq!(vault.borrow(&mut ledger, MALLORY, ASSET, 0), Err(VaultError::NotLiquidator));
    assert_eq!(pool(&vault, &ledger), (100, 100));
}

#[test]
fn solvency_equality_fails() {
    let (vault, mut ledger) = setup();
    vault.vault_deposit(&mut ledger, ALICE, ASSET, 100).unwrap();
    let liquidator = Liquidator::new(liquidator_pallet());
    let adapter = Adapter::new(liquidator_pallet());
    let mut strat = strategy(Ok(1));
    let r = liquidator.liquidate_at_price(&vault, &adapter, &mut ledger, &mut strat, 3, MALLORY, ASSET, 2, 5, 100, 15);
    assert_eq!(r, Err(VaultError::BorrowExceedsLiquidation));
    assert_eq!(pool(&vault, &ledger), (100, 100));
    assert_eq!(strat.history.len(), 0);
}

#[test]
fn liquidation_propagates_borrow_failure() {
    let (vault, mut ledger) = setup();
    vault.vault_deposit(&mut ledger, ALICE, ASSET, 10).unwrap();
    let liquidator = Liquidator::new(liquidator_pallet());
    let adapter = Adapter::new(liquidator_pallet());
    let mut strat = strategy(Ok(1));
    let r = liquidator.liquidate_at_price(&vault, &adapter, &mut ledger, &mut strat, 2, MALLORY, ASSET, 2, 10, 100, 15);
    assert_eq!(r, Err(VaultError::ExceedWithdrawAmount));
    assert_eq!(pool(&vault, &ledger), (10, 10));
    assert_eq!(strat.history.len(), 0);
}

#[test]
fn liquidation_rolls_back_when_strategy_fails() {
    let (vault, mut ledger) = setup();
    vault.vault_deposit(&mut ledger, ALICE, ASSET, 100).unwrap();
    let liquidator = Liquidator::new(liquidator_pallet());
    let adapter = Adapter::new(liquidator_pallet());
    let mut strat = strategy(Err(VaultError::InsufficientBalance));
    let r = liquidator.liquidate_at_price(&vault, &adapter, &mut ledger, &mut strat, 2, MALLORY, ASSET, 2, 10, 100, 15);
    assert_eq!(r, Err(VaultError::InsufficientBalance));
    assert_eq!(pool(&vault, &ledger), (100, 100));
    assert_eq!(ledger.balance(ASSET, liquidator.account_id()), 0);
    assert_eq!(strat.history.len(), 1);
}

#[test]
fn liquidation_above_max_is_refused() {
    let (vault, mut ledger) = setup();
    vault.vault_deposit(&mut ledger, ALICE, ASSET, 100).unwrap();
    let liquidator = Liquidator::new(liquidator_pallet());
    let adapter = Adapter::new(liquidator_pallet());
    let mut strat = strategy(Ok(11));
    let r = liquidator.liquidate_at_price(&vault, &adapter, &mut ledger, &mut strat, 2, MALLORY, ASSET, 2, 10, 10, 15);
    assert_eq!(r, Err(VaultError::ExceedsMaxLiquidatable));
    assert_eq!(pool(&vault, &ledger), (100, 100));
}

#[test]
fn liquidation_through_a_mismatched_adapter_is_refused() {
    let (vault, mut ledger) = setup();
    vault.vault_deposit(&mut ledger, ALICE, ASSET, 100).unwrap();
    let liquidator = Liquidator::new(liquidator_pallet());
    let adapter = Adapter::new(PalletId(*b"py/other"));
    let mut strat = strategy(Ok(1));
    let r = liquidator.liquidate_at_price(&vault, &adapter, &mut ledger, &mut strat, 2, MALLORY, ASSET, 2, 10, 100, 15);
    assert_eq!(r, Err(VaultError::NotLiquidator));
    assert_eq!(pool(&vault, &ledger), (100, 100));
    assert_eq!(strat.history.len(), 0);
}

#[test]
fn adapter_refuses_other_callers() {
    let adapter = Adapter::new(liquidator_pallet());
    let mut strat = strategy(Ok(2));
    assert_eq!(adapter.liquidate(&mut strat, MALLORY, BOB, 1, 2, 10), Err(VaultError::NotLiquidator));
    assert_eq!(strat.history.len(), 0);
    let me = adapter.liquidator_account_id();
    assert_eq!(
        adapter.liquidate(&mut strat, me, BOB, 1, 2, 10),
        Ok(Liquidated { pay_asset_id: 1, pay_asset_amount: 10, get_asset_id: 2, get_asset_amount: 2 })
    );
}

#[test]
fn borrow_by_liquidator_moves_funds() {
    let (vault, mut ledger) = setup();
    vault.vault_deposit(&mut ledger, ALICE, ASSET, 100).unwrap();
    let me = vault.liquidator_account_id();
    assert_eq!(vault.borrow(&mut ledger, me, ASSET, 0), Err(VaultError::ZeroAmount));
    assert_eq!(vault.borrow(&mut ledger, me, ASSET, 101), Err(VaultError::ExceedWithdrawAmount));
    assert_eq!(vault.borrow(&mut ledger, me, ASSET, 40), Ok(()));
    assert_eq!(pool(&vault, &ledger), (60, 100));
    assert_eq!(ledger.balance(ASSET, me), 40);
}

#[test]
fn zero_amounts_are_refused() {
    let (vault, mut ledger) = setup();
    assert_eq!(vault.vault_deposit(&mut ledger, ALICE, ASSET, 0), Err(VaultError::ZeroAmount));
    assert_eq!(vault.vault_withdraw(&mut ledger, ALICE, ASSET, 0), Err(VaultError::ZeroAmount));
    assert_eq!(pool(&vault, &ledger), (0, 0));
    assert_eq!(ledger.balance(ASSET, ALICE), 1_000);
}

#[test]
fn deposit_errors() {
    let (vault, mut ledger) = setup();
    assert_eq!(vault.vault_deposit(&mut ledger, ALICE, ASSET, 1_001), Err(VaultError::InsufficientBalance));
    ledger.mint(7, ALICE, 10).unwrap();
    assert_eq!(vault.vault_deposit(&mut ledger, ALICE, 7, 5), Err(VaultError::NotRegistered));
    assert_eq!(ledger.balance(ASSET, ALICE), 1_000);
    assert_eq!(ledger.balance(7, ALICE), 10);
}

#[test]
fn deposit_into_drained_pool_fails() {
    let (vault, mut ledger) = setup();
    vault.vault_deposit(&mut ledger, ALICE, ASSET, 100).unwrap();
    let me = vault.liquidator_account_id();
    vault.borrow(&mut ledger, me, ASSET, 100).unwrap();
    assert_eq!(pool(&vault, &ledger), (0, 100));
    assert_eq!(vault.vault_deposit(&mut ledger, BOB, ASSET, 10), Err(VaultError::DrainedPool));
    assert_eq!(ledger.balance(ASSET, BOB), 1_000);
}

#[test]
fn deposit_overflow_is_refused() {
    let (vault, mut ledger) = setup();
    vault.vault_deposit(&mut ledger, ALICE, ASSET, 1).unwrap();
    ledger.mint(SHARE, MALLORY, u64::MAX - 2).unwrap();
    // pool (1, MAX - 1): two more units would mint about twice MAX shares
    assert_eq!(vault.vault_deposit(&mut ledger, BOB, ASSET, 2), Err(VaultError::Overflow));
    assert_eq!(pool(&vault, &ledger), (1, u64::MAX - 1));
    assert_eq!(ledger.balance(ASSET, BOB), 1_000);
}

#[test]
fn withdraw_errors() {
    let (vault, mut ledger) = setup();
    assert_eq!(vault.vault_withdraw(&mut ledger, ALICE, ASSET, 5), Err(VaultError::InsufficientSupply));
    assert_eq!(vault.vault_withdraw(&mut ledger, ALICE, 7, 5), Err(VaultError::NotRegistered));
    vault.vault_deposit(&mut ledger, ALICE, ASSET, 100).unwrap();
    assert_eq!(vault.vault_withdraw(&mut ledger, BOB, ASSET, 1), Err(VaultError::ExceedWithdrawAmount));
    assert_eq!(vault.vault_withdraw(&mut ledger, ALICE, ASSET, 101), Err(VaultError::ExceedWithdrawAmount));
    assert_eq!(pool(&vault, &ledger), (100, 100));
}

#[test]
fn withdraw_forfeits_dust() {
    let (vault, mut ledger) = setup();
    vault.vault_deposit(&mut ledger, ALICE, ASSET, 100).unwrap();
    let me = vault.liquidator_account_id();
    vault.borrow(&mut ledger, me, ASSET, 99).unwrap();
    // pool (1, 100): one share is worth a hundredth of a unit
    assert_eq!(vault.vault_withdraw(&mut ledger, ALICE, ASSET, 1), Ok(0));
    assert_eq!(pool(&vault, &ledger), (1, 99));
    assert_eq!(ledger.balance(SHARE, ALICE), 99);
}

#[test]
fn round_trip_returns_at_most_the_deposit() {
    let (vault, mut ledger) = setup();
    vault.vault_deposit(&mut ledger, ALICE, ASSET, 100).unwrap();
    let v = vault.account_id();
    ledger.transfer(ASSET, ALICE, v, 1).unwrap();
    // pool (101, 100)
    let minted = vault.vault_deposit(&mut ledger, BOB, ASSET, 10).unwrap();
    assert_eq!(minted, 9);
    let payout = vault.vault_withdraw(&mut ledger, BOB, ASSET, minted).unwrap();
    assert_eq!(payout, 9);
    assert!(payout <= 10);
}

#[test]
fn round_trip_on_empty_pool_is_exact() {
    let (vault, mut ledger) = setup();
    let minted = vault.vault_deposit(&mut ledger, BOB, ASSET, 37).unwrap();
    assert_eq!(vault.vault_withdraw(&mut ledger, BOB, ASSET, minted), Ok(37));
    assert_eq!(pool(&vault, &ledger), (0, 0));
    assert_eq!(ledger.balance(ASSET, BOB), 1_000);
}

#[test]
fn share_formulas() {
    assert_eq!(calculate_mint_amount(100, 0, 0), Ok(100));
    assert_eq!(calculate_mint_amount(50, 100, 100), Ok(50));
    assert_eq!(calculate_mint_amount(10, 101, 100), Ok(9));
    assert_eq!(calculate_mint_amount(10, 0, 5), Err(VaultError::DrainedPool));
    assert_eq!(calculate_mint_amount(u64::MAX, 1, 2), Err(VaultError::Overflow));
    assert_eq!(calculate_mint_amount(u64::MAX, u64::MAX, u64::MAX), Ok(u64::MAX));
    assert_eq!(calculate_withdraw_amount(50, 150, 150), Ok(50));
    assert_eq!(calculate_withdraw_amount(1, 1, 100), Ok(0));
    assert_eq!(calculate_withdraw_amount(3, 10, 4), Ok(7));
    assert_eq!(calculate_withdraw_amount(5, 0, 1), Ok(0));
    assert_eq!(calculate_withdraw_amount(5, 3, 1), Ok(15));
    assert_eq!(calculate_withdraw_amount(u64::MAX, u64::MAX, u64::MAX), Ok(u64::MAX));
    assert_eq!(calculate_withdraw_amount(u64::MAX, 2, 1), Err(VaultError::Overflow));
}

#[test]
fn finders_are_found() {
    let mut liquidator = Liquidator::new(liquidator_pallet());
    assert!(!liquidator.is_finder(&5));
    liquidator.add_finder(9);
    liquidator.add_finder(3);
    liquidator.add_finder(5);
    liquidator.add_finder(3);
    assert!(liquidator.is_finder(&3));
    assert!(liquidator.is_finder(&5));
    assert!(liquidator.is_finder(&9));
    assert!(!liquidator.is_finder(&4));
    assert!(!liquidator.is_finder(&10));
}

#[test]
fn reregistering_replaces_share_asset() {
    let (mut vault, mut ledger) = setup();
    vault.register(ASSET, 202);
    assert_eq!(vault.registry.share_asset_of(ASSET), Ok(202));
    assert_eq!(vault.vault_deposit(&mut ledger, ALICE, ASSET, 10), Ok(10));
    assert_eq!(ledger.balance(202, ALICE), 10);
    assert_eq!(ledger.balance(SHARE, ALICE), 0);
}

#[test]
fn ledger_transfer_errors() {
    let mut ledger = MemoryLedger::new();
    ledger.mint(ASSET, ALICE, 10).unwrap();
    assert_eq!(ledger.transfer(ASSET, ALICE, BOB, 11), Err(VaultError::InsufficientBalance));
    ledger.mint(ASSET, BOB, u64::MAX - 10).unwrap();
    assert_eq!(ledger.mint(ASSET, BOB, 1), Err(VaultError::Overflow));
    assert_eq!(ledger.transfer(ASSET, ALICE, BOB, 3), Ok(()));
    assert_eq!(ledger.balance(ASSET, BOB), u64::MAX - 7);
    assert_eq!(ledger.burn(ASSET, ALICE, 8), Err(VaultError::InsufficientBalance));
    assert_eq!(ledger.burn(ASSET, ALICE, 4), Ok(()));
    assert_eq!(ledger.total_supply(ASSET), u64::MAX - 4);
}
