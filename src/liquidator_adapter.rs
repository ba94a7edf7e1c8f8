//! Access to the liquidation strategy: only the liquidator account may
//! drive an unwind, and each unwind reports what it paid and what it
//! seized.

use vstd::prelude::*;

use crate::types::{into_account, pallet_account, AccountId, AssetId, Balance, PalletId, VaultError};

verus! {

/// The outcome of one liquidation: what was paid and what was seized.
#[derive(Clone, Copy, Debug, PartialEq, Eq, Structural)]
pub struct Liquidated {
    pub pay_asset_id: AssetId,
    pub pay_asset_amount: Balance,
    pub get_asset_id: AssetId,
    pub get_asset_amount: Balance,
}

/// One executed unwind: the target user, the paid asset, the seized asset,
/// the amount paid, and what the strategy returned.
pub type Execution = (AccountId, AssetId, AssetId, Balance, Result<Balance, VaultError>);

/// Executes the unwind of an undercollateralized position: seizes
/// `get_asset_id` collateral from `target_user` in exchange for paying
/// `pay_asset_amount` of `pay_asset_id`, and returns the amount seized.
pub trait LiquidationStrategy {
    /// Every unwind executed so far, oldest first.
    spec fn executed(&self) -> Seq<Execution>;

    /// Runs one unwind; the record of executed unwinds grows by exactly this
    /// call, its arguments and its result.
    fn execute(
        &mut self,
        target_user: AccountId,
        pay_asset_id: AssetId,
        get_asset_id: AssetId,
        pay_asset_amount: Balance,
    ) -> (r: Result<Balance, VaultError>)
        ensures
            final(self).executed() == old(self).executed().push(
                (target_user, pay_asset_id, get_asset_id, pay_asset_amount, r),
            ),
    ;
}

/// A strategy whose every unwind reports the same configured outcome, and
/// which keeps the history of its unwinds.
pub struct FixedStrategy {
    pub outcome: Result<Balance, VaultError>,
    pub history: Vec<Execution>,
}

impl FixedStrategy {
    /// A strategy that has executed nothing yet.
    pub fn new(outcome: Result<Balance, VaultError>) -> (r: FixedStrategy)
        ensures
            r.outcome == outcome,
            r.executed() == Seq::<Execution>::empty(),
    {
        FixedStrategy { outcome, history: Vec::new() }
    }
}

impl LiquidationStrategy for FixedStrategy {
    open spec fn executed(&self) -> Seq<Execution> {
        self.history@
    }

    fn execute(
        &mut self,
        target_user: AccountId,
        pay_asset_id: AssetId,
        get_asset_id: AssetId,
        pay_asset_amount: Balance,
    ) -> (r: Result<Balance, VaultError>) {
        let outcome = self.outcome;
        self.history.push((target_user, pay_asset_id, get_asset_id, pay_asset_amount, outcome));
        outcome
    }
}

/// The report of a liquidation, given what the strategy returned: the seized
/// amount on success, the strategy's own error otherwise.
pub open spec fn liquidation_report(
    outcome: Result<Balance, VaultError>,
    pay_asset_id: AssetId,
    pay_asset_amount: Balance,
    get_asset_id: AssetId,
) -> Result<Liquidated, VaultError> {
    match outcome {
        Ok(get_asset_amount) => Ok(
            Liquidated { pay_asset_id, pay_asset_amount, get_asset_id, get_asset_amount },
        ),
        Err(e) => Err(e),
    }
}

/// The liquidator adapter pallet.
pub struct Module {
    pub liquidator_pallet_id: PalletId,
}

impl Module {
    /// The only account allowed to call `liquidate`.
    pub open spec fn liquidator_account(&self) -> AccountId {
        pallet_account(self.liquidator_pallet_id) as AccountId
    }

    pub fn new(liquidator_pallet_id: PalletId) -> (r: Module)
        ensures
            r.liquidator_pallet_id == liquidator_pallet_id,
    {
        Module { liquidator_pallet_id }
    }

    /// The account ID of the liquidator.
    pub fn liquidator_account_id(&self) -> (r: AccountId)
        ensures
            r == self.liquidator_account(),
            r == pallet_account(self.liquidator_pallet_id),
    {
        into_account(self.liquidator_pallet_id)
    }

    /// Runs `strategy` once on behalf of `caller`, who must be the
    /// liquidator account, with the given target, assets and amount, and
    /// reports the liquidation. A refused caller leaves the strategy
    /// untouched.
    pub fn liquidate<S: LiquidationStrategy>(
        &self,
        strategy: &mut S,
        caller: AccountId,
        target_user: AccountId,
        pay_asset_id: AssetId,
        get_asset_id: AssetId,
        pay_asset_amount: Balance,
    ) -> (r: Result<Liquidated, VaultError>)
        ensures
            caller != self.liquidator_account() ==> r == Err::<Liquidated, VaultError>(
                VaultError::NotLiquidator,
            ) && *final(strategy) == *old(strategy),
            caller == self.liquidator_account() ==> {
                let outcome = final(strategy).executed().last().4;
                &&& final(strategy).executed() == old(strategy).executed().push(
                    (target_user, pay_asset_id, get_asset_id, pay_asset_amount, outcome),
                )
                &&& r == liquidation_report(outcome, pay_asset_id, pay_asset_amount, get_asset_id)
            },
    {
        if caller != self.liquidator_account_id() {
            return Err(VaultError::NotLiquidator);
        }
        match strategy.execute(target_user, pay_asset_id, get_asset_id, pay_asset_amount) {
            Ok(get_asset_amount) => Ok(
                Liquidated { pay_asset_id, pay_asset_amount, get_asset_id, get_asset_amount },
            ),
            Err(e) => Err(e),
        }
    }
}

} // verus!
