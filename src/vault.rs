//! The share vault: deposits into a pooled account in exchange for shares,
//! withdrawals that redeem shares for a proportional slice of the pool, and
//! borrowing from the pool by the liquidator.

use vstd::prelude::*;

use crate::ledger::{Assets, LedgerModel};
use crate::registry::Registry;
use crate::types::{
    into_account, pallet_account, AccountId, AssetId, Balance, PalletId, VaultError, MAX_BALANCE,
};

verus! {

/// Shares minted for a deposit of `amount` into a pool holding
/// `pool_balance` against `total_shares` outstanding shares: one share per
/// unit while no shares exist, else the deposit's proportion of the pool,
/// rounded down.
pub open spec fn mint_amount(amount: nat, pool_balance: nat, total_shares: nat) -> nat {
    if total_shares == 0 {
        amount
    } else {
        amount * total_shares / pool_balance
    }
}

/// The payout for redeeming `share_amount` shares from a pool holding
/// `pool_balance` against `total_shares` outstanding shares, rounded down.
pub open spec fn withdraw_amount(share_amount: nat, pool_balance: nat, total_shares: nat) -> nat {
    share_amount * pool_balance / total_shares
}

/// Computes the shares minted for a deposit of `amount`.
pub fn calculate_mint_amount(amount: Balance, pool_balance: Balance, total_shares: Balance) -> (r:
    Result<Balance, VaultError>)
    ensures
        total_shares > 0 && pool_balance == 0 ==> r == Err::<Balance, VaultError>(
            VaultError::DrainedPool,
        ),
        !(total_shares > 0 && pool_balance == 0) ==> {
            let minted = mint_amount(amount as nat, pool_balance as nat, total_shares as nat);
            &&& minted <= MAX_BALANCE ==> r == Ok::<Balance, VaultError>(minted as Balance)
            &&& minted > MAX_BALANCE ==> r == Err::<Balance, VaultError>(VaultError::Overflow)
        },
{
    if total_shares == 0 {
        return Ok(amount);
    }
    if pool_balance == 0 {
        return Err(VaultError::DrainedPool);
    }
    let a = amount as u128;
    let t = total_shares as u128;
    assert(a * t <= 0xffff_ffff_ffff_ffff_u128 * 0xffff_ffff_ffff_ffff_u128) by (nonlinear_arith)
        requires
            a <= 0xffff_ffff_ffff_ffff_u128,
            t <= 0xffff_ffff_ffff_ffff_u128,
    ;
    let minted = a * t / (pool_balance as u128);
    if minted > MAX_BALANCE as u128 {
        Err(VaultError::Overflow)
    } else {
        Ok(minted as Balance)
    }
}

/// Computes the payout for redeeming `share_amount` shares, refusing a
/// payout that does not fit in a `Balance`. Redeeming no more shares than
/// are outstanding always succeeds and never pays out more than the pool.
pub fn calculate_withdraw_amount(share_amount: Balance, pool_balance: Balance, total_shares: Balance) -> (r:
    Result<Balance, VaultError>)
    requires
        0 < total_shares,
    ensures
        ({
            let payout = withdraw_amount(share_amount as nat, pool_balance as nat, total_shares as nat);
            &&& payout <= MAX_BALANCE ==> r == Ok::<Balance, VaultError>(payout as Balance)
            &&& payout > MAX_BALANCE ==> r == Err::<Balance, VaultError>(VaultError::Overflow)
            &&& share_amount <= total_shares ==> payout <= pool_balance
        }),
{
    let s = share_amount as u128;
    let p = pool_balance as u128;
    let t = total_shares as u128;
    if share_amount <= total_shares {
        proof {
            lemma_payout_le_pool(s as nat, p as nat, t as nat);
        }
    }
    assert(s * p <= 0xffff_ffff_ffff_ffff_u128 * 0xffff_ffff_ffff_ffff_u128) by (nonlinear_arith)
        requires
            s <= 0xffff_ffff_ffff_ffff_u128,
            p <= 0xffff_ffff_ffff_ffff_u128,
    ;
    let payout = s * p / t;
    if payout > MAX_BALANCE as u128 {
        Err(VaultError::Overflow)
    } else {
        Ok(payout as Balance)
    }
}

/// Redeeming no more shares than are outstanding pays out no more than the
/// pool holds.
pub proof fn lemma_payout_le_pool(share_amount: nat, pool_balance: nat, total_shares: nat)
    requires
        0 < total_shares,
        share_amount <= total_shares,
    ensures
        withdraw_amount(share_amount, pool_balance, total_shares) <= pool_balance,
{
    assert(share_amount * pool_balance <= total_shares * pool_balance) by (nonlinear_arith)
        requires
            share_amount <= total_shares,
    ;
    assert((share_amount * pool_balance) / total_shares <= (total_shares * pool_balance) / total_shares)
        by (nonlinear_arith)
        requires
            share_amount * pool_balance <= total_shares * pool_balance,
            0 < total_shares,
    ;
    assert((total_shares * pool_balance) / total_shares == pool_balance) by (nonlinear_arith)
        requires
            0 < total_shares,
    ;
}

/// Minting rounds down: the shares minted into a non-empty pool are worth
/// no more than the deposit, and less than one share short of it.
pub proof fn lemma_mint_rounds_down(amount: nat, pool_balance: nat, total_shares: nat)
    requires
        0 < pool_balance,
        0 < total_shares,
    ensures
        mint_amount(amount, pool_balance, total_shares) * pool_balance <= amount * total_shares,
        amount * total_shares < (mint_amount(amount, pool_balance, total_shares) + 1) * pool_balance,
{
    let minted = mint_amount(amount, pool_balance, total_shares);
    assert(minted * pool_balance <= amount * total_shares < (minted + 1) * pool_balance)
        by (nonlinear_arith)
        requires
            minted == amount * total_shares / pool_balance,
            0 < pool_balance,
    ;
}

/// Depositing `amount` into a pool and then at once redeeming every share
/// the deposit minted pays out at most `amount`, and exactly `amount` when
/// no shares were outstanding before. A pool that holds a balance with no
/// shares outstanding is left out: its first depositor also collects that
/// balance.
pub proof fn lemma_round_trip_shares(amount: nat, pool_balance: nat, total_shares: nat)
    requires
        0 < amount,
        total_shares == 0 ==> pool_balance == 0,
        total_shares > 0 ==> pool_balance > 0,
    ensures
        ({
            let minted = mint_amount(amount, pool_balance, total_shares);
            let payout = withdraw_amount(minted, pool_balance + amount, total_shares + minted);
            &&& payout <= amount
            &&& total_shares == 0 ==> payout == amount
        }),
{
    let minted = mint_amount(amount, pool_balance, total_shares);
    if total_shares == 0 {
        assert(minted * (pool_balance + amount) / (total_shares + minted) == amount) by (nonlinear_arith)
            requires
                minted == amount,
                pool_balance == 0,
                total_shares == 0,
                0 < amount,
        ;
    } else {
        assert(minted * pool_balance <= amount * total_shares) by (nonlinear_arith)
            requires
                minted == amount * total_shares / pool_balance,
                0 < pool_balance,
        ;
        assert(minted * (pool_balance + amount) <= amount * (total_shares + minted)) by (nonlinear_arith)
            requires
                minted * pool_balance <= amount * total_shares,
        ;
        assert(minted * (pool_balance + amount) / (total_shares + minted) <= amount) by (nonlinear_arith)
            requires
                minted * (pool_balance + amount) <= amount * (total_shares + minted),
                0 < total_shares,
        ;
    }
}

/// The vault pallet: its own pooled account, the account of the liquidator
/// allowed to borrow, and the registry of share assets.
pub struct Module {
    pub pallet_id: PalletId,
    pub liquidator_pallet_id: PalletId,
    pub registry: Registry,
}

impl Module {
    /// The vault's pooled account.
    pub open spec fn vault_account(&self) -> AccountId {
        pallet_account(self.pallet_id) as AccountId
    }

    /// The only account allowed to borrow from the pool.
    pub open spec fn liquidator_account(&self) -> AccountId {
        pallet_account(self.liquidator_pallet_id) as AccountId
    }

    /// A vault with no registered assets.
    pub fn new(pallet_id: PalletId, liquidator_pallet_id: PalletId) -> (r: Module)
        ensures
            r.pallet_id == pallet_id,
            r.liquidator_pallet_id == liquidator_pallet_id,
            r.registry@ == Map::<AssetId, AssetId>::empty(),
    {
        Module { pallet_id, liquidator_pallet_id, registry: Registry::new() }
    }

    /// The account ID of the vault, which holds the pooled assets.
    pub fn account_id(&self) -> (r: AccountId)
        ensures
            r == self.vault_account(),
            r == pallet_account(self.pallet_id),
    {
        into_account(self.pallet_id)
    }

    /// The account ID of the liquidator.
    pub fn liquidator_account_id(&self) -> (r: AccountId)
        ensures
            r == self.liquidator_account(),
            r == pallet_account(self.liquidator_pallet_id),
    {
        into_account(self.liquidator_pallet_id)
    }

    /// Registers `r_asset_id` as the share asset of `asset_id`.
    pub fn register(&mut self, asset_id: AssetId, r_asset_id: AssetId)
        ensures
            final(self).registry@ == old(self).registry@.insert(asset_id, r_asset_id),
            final(self).pallet_id == old(self).pallet_id,
            final(self).liquidator_pallet_id == old(self).liquidator_pallet_id,
    {
        self.registry.register(asset_id, r_asset_id);
    }

    /// What a deposit of `amount` of `asset_id` by `depositor` yields against
    /// the ledger state `m`: the shares minted, or the reason it is refused.
    pub open spec fn deposit_outcome(
        &self,
        m: LedgerModel,
        depositor: AccountId,
        asset_id: AssetId,
        amount: Balance,
    ) -> Result<nat, VaultError> {
        let vault = self.vault_account();
        if amount == 0 {
            Err(VaultError::ZeroAmount)
        } else if m.balance(asset_id, depositor) < amount {
            Err(VaultError::InsufficientBalance)
        } else if !self.registry@.contains_key(asset_id) {
            Err(VaultError::NotRegistered)
        } else {
            let share = self.registry@[asset_id];
            let pool = m.balance(asset_id, vault);
            let shares = m.supply(share);
            let minted = mint_amount(amount as nat, pool, shares);
            let moved = m.transfer(asset_id, depositor, vault, amount as nat);
            if shares > 0 && pool == 0 {
                Err(VaultError::DrainedPool)
            } else if minted > MAX_BALANCE {
                Err(VaultError::Overflow)
            } else if !m.can_transfer(asset_id, depositor, vault, amount as nat) {
                Err(VaultError::Overflow)
            } else if !moved.can_mint(share, depositor, minted) {
                Err(VaultError::Overflow)
            } else {
                Ok(minted)
            }
        }
    }

    /// Deposits `amount` of `asset_id` from `depositor` into the pool and
    /// mints shares for it; returns the shares minted. Either the transfer
    /// and the mint both happen, or the ledger is left as it was.
    pub fn vault_deposit<L: Assets>(
        &self,
        ledger: &mut L,
        depositor: AccountId,
        asset_id: AssetId,
        amount: Balance,
    ) -> (r: Result<Balance, VaultError>)
        ensures
            match r {
                Ok(minted) => {
                    let share = self.registry@[asset_id];
                    &&& self.deposit_outcome(old(ledger).ledger(), depositor, asset_id, amount)
                        == Ok::<nat, VaultError>(minted as nat)
                    &&& final(ledger).ledger() == old(ledger).ledger().transfer(
                        asset_id,
                        depositor,
                        self.vault_account(),
                        amount as nat,
                    ).mint(share, depositor, minted as nat)
                },
                Err(e) => {
                    &&& self.deposit_outcome(old(ledger).ledger(), depositor, asset_id, amount)
                        == Err::<nat, VaultError>(e)
                    &&& final(ledger).ledger() == old(ledger).ledger()
                },
            },
            amount == 0 ==> r == Err::<Balance, VaultError>(VaultError::ZeroAmount),
            r matches Ok(minted) ==> {
                let pool = old(ledger).ledger().balance(asset_id, self.vault_account());
                let shares = old(ledger).ledger().supply(self.registry@[asset_id]);
                &&& shares == 0 ==> minted == amount
                &&& shares > 0 ==> minted == (amount as nat) * shares / pool
            },
    {
        if amount == 0 {
            return Err(VaultError::ZeroAmount);
        }
        let held = ledger.balance(asset_id, depositor);
        if held < amount {
            return Err(VaultError::InsufficientBalance);
        }
        let share = match self.registry.share_asset_of(asset_id) {
            Ok(share) => share,
            Err(e) => return Err(e),
        };
        let vault = self.account_id();
        let pool = ledger.balance(asset_id, vault);
        let shares = ledger.total_supply(share);
        let minted = match calculate_mint_amount(amount, pool, shares) {
            Ok(minted) => minted,
            Err(e) => return Err(e),
        };
        if depositor != vault && pool > MAX_BALANCE - amount {
            return Err(VaultError::Overflow);
        }
        let held_shares = ledger.balance(share, depositor);
        let held_shares_after = if share == asset_id && depositor != vault {
            held_shares - amount
        } else {
            held_shares
        };
        if shares > MAX_BALANCE - minted || held_shares_after > MAX_BALANCE - minted {
            return Err(VaultError::Overflow);
        }
        let moved = ledger.transfer(asset_id, depositor, vault, amount);
        assert(moved is Ok);
        let minted_ok = ledger.mint(share, depositor, minted);
        assert(minted_ok is Ok);
        Ok(minted)
    }

    /// What redeeming `share_amount` shares of `asset_id`'s pool by `holder`
    /// yields against the ledger state `m`: the payout, or the reason it is
    /// refused. The payout is priced against the pool before the burn.
    pub open spec fn withdraw_outcome(
        &self,
        m: LedgerModel,
        holder: AccountId,
        asset_id: AssetId,
        share_amount: Balance,
    ) -> Result<nat, VaultError> {
        let vault = self.vault_account();
        if share_amount == 0 {
            Err(VaultError::ZeroAmount)
        } else if !self.registry@.contains_key(asset_id) {
            Err(VaultError::NotRegistered)
        } else {
            let share = self.registry@[asset_id];
            let shares = m.supply(share);
            if shares == 0 {
                Err(VaultError::InsufficientSupply)
            } else if m.balance(share, holder) < share_amount || shares < share_amount {
                Err(VaultError::ExceedWithdrawAmount)
            } else {
                let pool = m.balance(asset_id, vault);
                let payout = withdraw_amount(share_amount as nat, pool, shares);
                let burned = m.burn(share, holder, share_amount as nat);
                if burned.balance(asset_id, vault) < payout {
                    Err(VaultError::ExceedWithdrawAmount)
                } else if !burned.can_transfer(asset_id, vault, holder, payout) {
                    Err(VaultError::Overflow)
                } else {
                    Ok(payout)
                }
            }
        }
    }

    /// Burns `share_amount` of `holder`'s shares in `asset_id`'s pool and
    /// pays out the proportional slice of the pool; returns the payout.
    /// Either the burn and the transfer both happen, or the ledger is left
    /// as it was.
    pub fn vault_withdraw<L: Assets>(
        &self,
        ledger: &mut L,
        holder: AccountId,
        asset_id: AssetId,
        share_amount: Balance,
    ) -> (r: Result<Balance, VaultError>)
        ensures
            match r {
                Ok(payout) => {
                    let share = self.registry@[asset_id];
                    &&& self.withdraw_outcome(old(ledger).ledger(), holder, asset_id, share_amount)
                        == Ok::<nat, VaultError>(payout as nat)
                    &&& final(ledger).ledger() == old(ledger).ledger().burn(
                        share,
                        holder,
                        share_amount as nat,
                    ).transfer(asset_id, self.vault_account(), holder, payout as nat)
                },
                Err(e) => {
                    &&& self.withdraw_outcome(old(ledger).ledger(), holder, asset_id, share_amount)
                        == Err::<nat, VaultError>(e)
                    &&& final(ledger).ledger() == old(ledger).ledger()
                },
            },
            share_amount == 0 ==> r == Err::<Balance, VaultError>(VaultError::ZeroAmount),
            share_amount != 0 && self.registry@.contains_key(asset_id) && old(ledger).ledger().supply(
                self.registry@[asset_id],
            ) == 0 ==> r == Err::<Balance, VaultError>(VaultError::InsufficientSupply),
            r matches Ok(payout) ==> {
                let pool = old(ledger).ledger().balance(asset_id, self.vault_account());
                let shares = old(ledger).ledger().supply(self.registry@[asset_id]);
                &&& payout == (share_amount as nat) * pool / shares
                &&& payout <= pool
            },
    {
        if share_amount == 0 {
            return Err(VaultError::ZeroAmount);
        }
        let share = match self.registry.share_asset_of(asset_id) {
            Ok(share) => share,
            Err(e) => return Err(e),
        };
        let shares = ledger.total_supply(share);
        if shares == 0 {
            return Err(VaultError::InsufficientSupply);
        }
        let held_shares = ledger.balance(share, holder);
        if held_shares < share_amount || shares < share_amount {
            return Err(VaultError::ExceedWithdrawAmount);
        }
        let vault = self.account_id();
        let pool = ledger.balance(asset_id, vault);
        let payout = match calculate_withdraw_amount(share_amount, pool, shares) {
            Ok(payout) => payout,
            Err(e) => return Err(e),
        };
        let held = ledger.balance(asset_id, holder);
        let pool_after = if share == asset_id && holder == vault {
            pool - share_amount
        } else {
            pool
        };
        let held_after = if share == asset_id {
            held - share_amount
        } else {
            held
        };
        if pool_after < payout {
            return Err(VaultError::ExceedWithdrawAmount);
        }
        if holder != vault && held_after > MAX_BALANCE - payout {
            return Err(VaultError::Overflow);
        }
        let burned = ledger.burn(share, holder, share_amount);
        assert(burned is Ok);
        let paid = ledger.transfer(asset_id, vault, holder, payout);
        assert(paid is Ok);
        Ok(payout)
    }

    /// What a borrow of `amount` of `asset_id` by `caller` yields against the
    /// ledger state `m`. Only the liquidator may borrow.
    pub open spec fn borrow_outcome(
        &self,
        m: LedgerModel,
        caller: AccountId,
        asset_id: AssetId,
        amount: Balance,
    ) -> Result<(), VaultError> {
        let vault = self.vault_account();
        if caller != self.liquidator_account() {
            Err(VaultError::NotLiquidator)
        } else if amount == 0 {
            Err(VaultError::ZeroAmount)
        } else if m.balance(asset_id, vault) < amount {
            Err(VaultError::ExceedWithdrawAmount)
        } else if !m.can_transfer(asset_id, vault, caller, amount as nat) {
            Err(VaultError::Overflow)
        } else {
            Ok(())
        }
    }

    /// Checks whether `borrow` would succeed, without changing anything.
    pub fn check_borrow<L: Assets>(
        &self,
        ledger: &L,
        caller: AccountId,
        asset_id: AssetId,
        amount: Balance,
    ) -> (r: Result<(), VaultError>)
        ensures
            r == self.borrow_outcome(ledger.ledger(), caller, asset_id, amount),
    {
        let liquidator = self.liquidator_account_id();
        if caller != liquidator {
            return Err(VaultError::NotLiquidator);
        }
        if amount == 0 {
            return Err(VaultError::ZeroAmount);
        }
        let vault = self.account_id();
        let pool = ledger.balance(asset_id, vault);
        if pool < amount {
            return Err(VaultError::ExceedWithdrawAmount);
        }
        let held = ledger.balance(asset_id, caller);
        if caller != vault && held > MAX_BALANCE - amount {
            return Err(VaultError::Overflow);
        }
        Ok(())
    }

    /// Moves `amount` of `asset_id` from the pool to the liquidator, who must
    /// be the caller. No shares are burned.
    pub fn borrow<L: Assets>(
        &self,
        ledger: &mut L,
        caller: AccountId,
        asset_id: AssetId,
        amount: Balance,
    ) -> (r: Result<(), VaultError>)
        ensures
            r == self.borrow_outcome(old(ledger).ledger(), caller, asset_id, amount),
            r is Ok ==> final(ledger).ledger() == old(ledger).ledger().transfer(
                asset_id,
                self.vault_account(),
                self.liquidator_account(),
                amount as nat,
            ),
            r is Err ==> final(ledger).ledger() == old(ledger).ledger(),
            caller != self.liquidator_account() ==> r == Err::<(), VaultError>(
                VaultError::NotLiquidator,
            ),
            caller == self.liquidator_account() && amount == 0 ==> r == Err::<(), VaultError>(
                VaultError::ZeroAmount,
            ),
    {
        match self.check_borrow(ledger, caller, asset_id, amount) {
            Ok(()) => {},
            Err(e) => return Err(e),
        }
        let vault = self.account_id();
        let moved = ledger.transfer(asset_id, vault, caller, amount);
        assert(moved is Ok);
        Ok(())
    }
}

/// Against the ledger: a deposit that mints shares, followed at once by the
/// depositor redeeming exactly those shares, succeeds and pays back at most
/// the deposit, and exactly the deposit when no shares were outstanding
/// before. The depositor is not the vault itself and the share asset is not
/// the underlying asset; a pool holding a balance with no shares outstanding
/// is left out. Balances in the ledger fit in a `Balance`.
pub proof fn lemma_deposit_then_withdraw(
    vault: &Module,
    m: LedgerModel,
    depositor: AccountId,
    asset_id: AssetId,
    amount: Balance,
)
    requires
        vault.deposit_outcome(m, depositor, asset_id, amount) is Ok,
        depositor != vault.vault_account(),
        vault.registry@[asset_id] != asset_id,
        m.supply(vault.registry@[asset_id]) == 0 ==> m.balance(asset_id, vault.vault_account()) == 0,
        m.balance(asset_id, depositor) <= MAX_BALANCE,
    ensures
        ({
            let share = vault.registry@[asset_id];
            let minted = vault.deposit_outcome(m, depositor, asset_id, amount)->Ok_0;
            let after = m.transfer(asset_id, depositor, vault.vault_account(), amount as nat).mint(
                share,
                depositor,
                minted,
            );
            let outcome = vault.withdraw_outcome(after, depositor, asset_id, minted as Balance);
            minted > 0 ==> {
                &&& outcome is Ok
                &&& outcome->Ok_0 <= amount
                &&& m.supply(share) == 0 ==> outcome->Ok_0 == amount
            }
        }),
{
    let share = vault.registry@[asset_id];
    let v = vault.vault_account();
    let minted = vault.deposit_outcome(m, depositor, asset_id, amount)->Ok_0;
    let pool = m.balance(asset_id, v);
    let shares = m.supply(share);
    let after = m.transfer(asset_id, depositor, v, amount as nat).mint(share, depositor, minted);
    lemma_round_trip_shares(amount as nat, pool, shares);
    assert(after.balance(asset_id, v) == pool + amount);
    assert(after.supply(share) == shares + minted);
    assert(after.balance(share, depositor) >= minted);
    assert(after.balance(asset_id, depositor) == m.balance(asset_id, depositor) - amount);
    if minted > 0 {
        lemma_payout_le_pool(minted, (pool + amount) as nat, shares + minted);
        let burned = after.burn(share, depositor, minted);
        assert(burned.balance(asset_id, v) == pool + amount);
        assert(burned.balance(asset_id, depositor) == m.balance(asset_id, depositor) - amount);
    }
}

} // verus!
