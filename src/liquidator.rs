//! The liquidation coordinator: checks solvency, borrows from the vault,
//! and hands the unwind to the strategy, all as one atomic step.

use vstd::prelude::*;

use crate::ledger::{Assets, LedgerModel};
use crate::liquidator_adapter::{liquidation_report, LiquidationStrategy, Liquidated};
use crate::liquidator_adapter::Module as Adapter;
use crate::types::{into_account, pallet_account, AccountId, AssetId, Balance, PalletId, VaultError};
use crate::vault::Module as Vault;

verus! {

/// Quotes the unit price of an asset.
pub trait PriceOracle {
    /// The price this oracle currently quotes for `asset_id`.
    spec fn quote(&self, asset_id: AssetId) -> Balance;

    /// Reads the quoted price; reading changes nothing.
    fn price(&self, asset_id: AssetId) -> (r: Balance)
        ensures
            r == self.quote(asset_id),
    ;
}

/// An oracle that quotes the same configured price for every asset.
pub struct FixedPrice {
    pub price: Balance,
}

impl PriceOracle for FixedPrice {
    open spec fn quote(&self, asset_id: AssetId) -> Balance {
        self.price
    }

    fn price(&self, asset_id: AssetId) -> (r: Balance) {
        self.price
    }
}

/// Whether the value paid, `price * pay_asset_amount`, strictly exceeds the
/// amount borrowed to fund the liquidation.
pub open spec fn is_solvent(price: nat, pay_asset_amount: nat, borrow_amount: nat) -> bool {
    price * pay_asset_amount > borrow_amount
}

/// The accounts registered as finders, kept in increasing order.
pub struct Finders {
    finders: Vec<AccountId>,
}

impl View for Finders {
    type V = Seq<AccountId>;

    closed spec fn view(&self) -> Seq<AccountId> {
        self.finders@
    }
}

impl Finders {

    /// The finders are strictly increasing.
    pub closed spec fn well_formed(&self) -> bool {
        forall|i: int, j: int| 0 <= i < j < self.finders@.len() ==> self.finders@[i] < self.finders@[j]
    }

    /// No finders.
    pub fn new() -> (r: Finders)
        ensures
            r.well_formed(),
            r@ == Seq::<AccountId>::empty(),
    {
        Finders { finders: Vec::new() }
    }

    /// The first position whose finder is not below `who`.
    fn lower_bound(&self, who: AccountId) -> (r: usize)
        requires
            self.well_formed(),
        ensures
            r <= self.finders@.len(),
            forall|i: int| 0 <= i < r ==> self.finders@[i] < who,
            forall|i: int| r <= i < self.finders@.len() ==> self.finders@[i] >= who,
    {
        let mut lo: usize = 0;
        let mut hi: usize = self.finders.len();
        while lo < hi
            invariant
                self.well_formed(),
                lo <= hi <= self.finders@.len(),
                forall|i: int| 0 <= i < lo ==> self.finders@[i] < who,
                forall|i: int| hi <= i < self.finders@.len() ==> self.finders@[i] >= who,
            decreases hi - lo,
        {
            let mid = lo + (hi - lo) / 2;
            if self.finders[mid] < who {
                lo = mid + 1;
            } else {
                hi = mid;
            }
        }
        lo
    }

    /// Whether `finder` is registered.
    pub fn contains(&self, finder: &AccountId) -> (r: bool)
        requires
            self.well_formed(),
        ensures
            r == self@.contains(*finder),
    {
        let pos = self.lower_bound(*finder);
        let found = pos < self.finders.len() && self.finders[pos] == *finder;
        proof {
            if !found {
                assert forall|i: int| 0 <= i < self.finders@.len() implies self.finders@[i] != *finder by {
                    if i >= pos {
                        if i > pos {
                            assert(self.finders@[pos as int] < self.finders@[i]);
                        }
                    }
                }
            }
        }
        found
    }

    /// Registers `who`; registering twice changes nothing.
    pub fn insert(&mut self, who: AccountId)
        requires
            old(self).well_formed(),
        ensures
            final(self).well_formed(),
            final(self)@.to_set() == old(self)@.to_set().insert(who),
    {
        let pos = self.lower_bound(who);
        if pos < self.finders.len() && self.finders[pos] == who {
            assert(old(self)@.to_set().insert(who) =~= old(self)@.to_set());
            return;
        }
        self.finders.insert(pos, who);
        proof {
            let s = old(self).finders@;
            assert(self.finders@ =~= s.subrange(0, pos as int).push(who) + s.subrange(pos as int, s.len() as int));
            assert forall|x: AccountId| self.finders@.contains(x) <==> s.contains(x) || x == who by {
                if s.contains(x) {
                    let i = choose|i: int| 0 <= i < s.len() && s[i] == x;
                    if i < pos {
                        assert(self.finders@[i] == x);
                    } else {
                        assert(self.finders@[i + 1] == x);
                    }
                }
                if x == who {
                    assert(self.finders@[pos as int] == who);
                }
                if self.finders@.contains(x) {
                    let i = choose|i: int| 0 <= i < self.finders@.len() && self.finders@[i] == x;
                    if i < pos {
                        assert(s[i] == x);
                    } else if i > pos {
                        assert(s[i - 1] == x);
                    }
                }
            }
            assert forall|x: AccountId| #[trigger] self@.to_set().contains(x) <==> old(self)@.to_set().insert(who).contains(x) by {
                assert(self.finders@.contains(x) <==> s.contains(x) || x == who);
            }
            assert(self@.to_set() =~= old(self)@.to_set().insert(who));
        }
    }
}

/// What a liquidation makes of the strategy's report: the report is
/// refused when it seizes more than `max_liquidatable`, and a strategy error
/// is passed on unchanged.
pub open spec fn settlement(outcome: Result<Liquidated, VaultError>, max_liquidatable: Balance) -> Result<
    Liquidated,
    VaultError,
> {
    match outcome {
        Ok(event) => if event.get_asset_amount > max_liquidatable {
            Err(VaultError::ExceedsMaxLiquidatable)
        } else {
            Ok(event)
        },
        Err(e) => Err(e),
    }
}

/// The liquidator pallet: its sovereign account and the accounts registered
/// as finders.
pub struct Module {
    pub pallet_id: PalletId,
    pub finders: Finders,
}

impl Module {
    /// The liquidator's sovereign account.
    pub open spec fn liquidator_account(&self) -> AccountId {
        pallet_account(self.pallet_id) as AccountId
    }

    /// A liquidator with no finders.
    pub fn new(pallet_id: PalletId) -> (r: Module)
        ensures
            r.pallet_id == pallet_id,
            r.finders.well_formed(),
            r.finders@ == Seq::<AccountId>::empty(),
    {
        Module { pallet_id, finders: Finders::new() }
    }

    /// The account ID of the liquidator.
    pub fn account_id(&self) -> (r: AccountId)
        ensures
            r == self.liquidator_account(),
            r == pallet_account(self.pallet_id),
    {
        into_account(self.pallet_id)
    }

    /// Whether `finder` is registered as a finder.
    pub fn is_finder(&self, finder: &AccountId) -> (r: bool)
        requires
            self.finders.well_formed(),
        ensures
            r == self.finders@.contains(*finder),
    {
        self.finders.contains(finder)
    }

    /// Registers `who` as a finder.
    pub fn add_finder(&mut self, who: AccountId)
        requires
            old(self).finders.well_formed(),
        ensures
            final(self).finders.well_formed(),
            final(self).pallet_id == old(self).pallet_id,
            final(self).finders@.to_set() == old(self).finders@.to_set().insert(who),
    {
        self.finders.insert(who);
    }

    /// Why a liquidation at `price` is refused before the strategy runs, if
    /// it is: the value paid does not exceed the borrow, the vault refuses
    /// the borrow, or the adapter does not accept this liquidator.
    pub open spec fn refusal(
        &self,
        vault: &Vault,
        adapter: &Adapter,
        m: LedgerModel,
        price: Balance,
        pay_asset_id: AssetId,
        pay_asset_amount: Balance,
        borrow_amount: Balance,
    ) -> Option<VaultError> {
        let borrow = vault.borrow_outcome(m, self.liquidator_account(), pay_asset_id, borrow_amount);
        if !is_solvent(price as nat, pay_asset_amount as nat, borrow_amount as nat) {
            Some(VaultError::BorrowExceedsLiquidation)
        } else if borrow is Err {
            Some(borrow->Err_0)
        } else if self.liquidator_account() != adapter.liquidator_account() {
            Some(VaultError::NotLiquidator)
        } else {
            None
        }
    }

    /// Completes a liquidation once the strategy has reported `outcome`:
    /// a strategy error is passed on, a seizure above `max_liquidatable` is
    /// refused, and otherwise the vault's borrow of `borrow_amount` to this
    /// liquidator is committed. A refusal leaves the ledger as it was.
    pub fn settle_liquidation<L: Assets>(
        &self,
        vault: &Vault,
        ledger: &mut L,
        outcome: Result<Liquidated, VaultError>,
        pay_asset_id: AssetId,
        max_liquidatable: Balance,
        borrow_amount: Balance,
    ) -> (r: Result<Liquidated, VaultError>)
        requires
            vault.borrow_outcome(
                old(ledger).ledger(),
                self.liquidator_account(),
                pay_asset_id,
                borrow_amount,
            ) is Ok,
        ensures
            r == settlement(outcome, max_liquidatable),
            r is Err ==> final(ledger).ledger() == old(ledger).ledger(),
            r is Ok ==> final(ledger).ledger() == old(ledger).ledger().transfer(
                pay_asset_id,
                vault.vault_account(),
                vault.liquidator_account(),
                borrow_amount as nat,
            ),
    {
        let event = match outcome {
            Ok(event) => event,
            Err(e) => return Err(e),
        };
        if event.get_asset_amount > max_liquidatable {
            return Err(VaultError::ExceedsMaxLiquidatable);
        }
        let me = self.account_id();
        let borrowed = vault.borrow(ledger, me, pay_asset_id, borrow_amount);
        assert(borrowed is Ok);
        Ok(event)
    }

    /// Liquidates `target_user`'s position at the quoted `price` of the paid
    /// asset. The solvency check comes first: the value paid must strictly
    /// exceed `borrow_amount`. Then the vault's borrow of `borrow_amount` of
    /// the paid asset to this liquidator is validated, the strategy runs once
    /// through the adapter, and `settle_liquidation` completes the
    /// liquidation, committing the borrow only when the strategy succeeded
    /// within `max_liquidatable`. A refusal before the strategy leaves both
    /// the ledger and the strategy untouched; any refusal leaves the ledger
    /// as it was.
    pub fn liquidate_at_price<L: Assets, S: LiquidationStrategy>(
        &self,
        vault: &Vault,
        adapter: &Adapter,
        ledger: &mut L,
        strategy: &mut S,
        price: Balance,
        target_user: AccountId,
        pay_asset_id: AssetId,
        get_asset_id: AssetId,
        pay_asset_amount: Balance,
        max_liquidatable: Balance,
        borrow_amount: Balance,
    ) -> (r: Result<Liquidated, VaultError>)
        ensures
            !is_solvent(price as nat, pay_asset_amount as nat, borrow_amount as nat) ==> r
                == Err::<Liquidated, VaultError>(VaultError::BorrowExceedsLiquidation),
            self.refusal(
                vault,
                adapter,
                old(ledger).ledger(),
                price,
                pay_asset_id,
                pay_asset_amount,
                borrow_amount,
            ) matches Some(e) ==> (r == Err::<Liquidated, VaultError>(e) && final(ledger).ledger()
                == old(ledger).ledger() && *final(strategy) == *old(strategy)),
            self.refusal(
                vault,
                adapter,
                old(ledger).ledger(),
                price,
                pay_asset_id,
                pay_asset_amount,
                borrow_amount,
            ) is None ==> {
                let outcome = final(strategy).executed().last().4;
                &&& final(strategy).executed() == old(strategy).executed().push(
                    (target_user, pay_asset_id, get_asset_id, pay_asset_amount, outcome),
                )
                &&& r == settlement(
                    liquidation_report(outcome, pay_asset_id, pay_asset_amount, get_asset_id),
                    max_liquidatable,
                )
            },
            r is Err ==> final(ledger).ledger() == old(ledger).ledger(),
            r is Ok ==> final(ledger).ledger() == old(ledger).ledger().transfer(
                pay_asset_id,
                vault.vault_account(),
                vault.liquidator_account(),
                borrow_amount as nat,
            ),
    {
        let p = price as u128;
        let a = pay_asset_amount as u128;
        assert(p * a <= 0xffff_ffff_ffff_ffff_u128 * 0xffff_ffff_ffff_ffff_u128) by (nonlinear_arith)
            requires
                p <= 0xffff_ffff_ffff_ffff_u128,
                a <= 0xffff_ffff_ffff_ffff_u128,
        ;
        let value = p * a;
        if value <= borrow_amount as u128 {
            return Err(VaultError::BorrowExceedsLiquidation);
        }
        let me = self.account_id();
        match vault.check_borrow(ledger, me, pay_asset_id, borrow_amount) {
            Ok(()) => {},
            Err(e) => return Err(e),
        }
        let outcome = adapter.liquidate(
            strategy,
            me,
            target_user,
            pay_asset_id,
            get_asset_id,
            pay_asset_amount,
        );
        self.settle_liquidation(vault, ledger, outcome, pay_asset_id, max_liquidatable, borrow_amount)
    }

    /// Liquidates `target_user`'s position at the price `oracle` quotes for
    /// the paid asset; the outcome is that of `liquidate_at_price` at that
    /// price.
    pub fn liquidate<L: Assets, O: PriceOracle, S: LiquidationStrategy>(
        &self,
        vault: &Vault,
        adapter: &Adapter,
        ledger: &mut L,
        oracle: &O,
        strategy: &mut S,
        target_user: AccountId,
        pay_asset_id: AssetId,
        get_asset_id: AssetId,
        pay_asset_amount: Balance,
        max_liquidatable: Balance,
        borrow_amount: Balance,
    ) -> (r: Result<Liquidated, VaultError>)
        ensures
            !is_solvent(oracle.quote(pay_asset_id) as nat, pay_asset_amount as nat, borrow_amount as nat)
                ==> r == Err::<Liquidated, VaultError>(VaultError::BorrowExceedsLiquidation),
            self.refusal(
                vault,
                adapter,
                old(ledger).ledger(),
                oracle.quote(pay_asset_id),
                pay_asset_id,
                pay_asset_amount,
                borrow_amount,
            ) matches Some(e) ==> (r == Err::<Liquidated, VaultError>(e) && final(ledger).ledger()
                == old(ledger).ledger() && *final(strategy) == *old(strategy)),
            self.refusal(
                vault,
                adapter,
                old(ledger).ledger(),
                oracle.quote(pay_asset_id),
                pay_asset_id,
                pay_asset_amount,
                borrow_amount,
            ) is None ==> {
                let outcome = final(strategy).executed().last().4;
                &&& final(strategy).executed() == old(strategy).executed().push(
                    (target_user, pay_asset_id, get_asset_id, pay_asset_amount, outcome),
                )
                &&& r == settlement(
                    liquidation_report(outcome, pay_asset_id, pay_asset_amount, get_asset_id),
                    max_liquidatable,
                )
            },
            r is Err ==> final(ledger).ledger() == old(ledger).ledger(),
            r is Ok ==> final(ledger).ledger() == old(ledger).ledger().transfer(
                pay_asset_id,
                vault.vault_account(),
                vault.liquidator_account(),
                borrow_amount as nat,
            ),
    {
        let price = oracle.price(pay_asset_id);
        self.liquidate_at_price(
            vault,
            adapter,
            ledger,
            strategy,
            price,
            target_user,
            pay_asset_id,
            get_asset_id,
            pay_asset_amount,
            max_liquidatable,
            borrow_amount,
        )
    }
}

} // verus!
