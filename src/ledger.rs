//! The asset ledger that the vault works against: an abstract model of
//! balances and supplies, the interface a ledger offers, and an in-memory
//! ledger that implements it.

use std::collections::HashMap;
use vstd::prelude::*;

use crate::types::{AccountId, AssetId, Balance, VaultError, MAX_BALANCE};

verus! {

broadcast use vstd::std_specs::hash::group_hash_axioms;

/// The abstract state of a ledger: the balance of each (asset, account) pair
/// and the total supply of each asset. Absent entries stand for zero.
pub struct LedgerModel {
    pub balances: Map<(AssetId, AccountId), nat>,
    pub supplies: Map<AssetId, nat>,
}

impl LedgerModel {
    pub open spec fn balance(self, id: AssetId, who: AccountId) -> nat {
        if self.balances.contains_key((id, who)) {
            self.balances[(id, who)]
        } else {
            0
        }
    }

    pub open spec fn supply(self, id: AssetId) -> nat {
        if self.supplies.contains_key(id) {
            self.supplies[id]
        } else {
            0
        }
    }

    pub open spec fn set_balance(self, id: AssetId, who: AccountId, v: nat) -> LedgerModel {
        LedgerModel { balances: self.balances.insert((id, who), v), supplies: self.supplies }
    }

    pub open spec fn set_supply(self, id: AssetId, v: nat) -> LedgerModel {
        LedgerModel { balances: self.balances, supplies: self.supplies.insert(id, v) }
    }

    /// Whether `transfer` succeeds: the payer holds enough and the payee's
    /// balance stays representable.
    pub open spec fn can_transfer(self, id: AssetId, from: AccountId, to: AccountId, amount: nat) -> bool {
        &&& amount <= self.balance(id, from)
        &&& from == to || self.balance(id, to) + amount <= MAX_BALANCE
    }

    /// The error a failed `transfer` reports.
    pub open spec fn transfer_error(self, id: AssetId, from: AccountId, amount: nat) -> VaultError {
        if amount > self.balance(id, from) {
            VaultError::InsufficientBalance
        } else {
            VaultError::Overflow
        }
    }

    /// Moves `amount` of `id` from `from` to `to`.
    pub open spec fn transfer(self, id: AssetId, from: AccountId, to: AccountId, amount: nat) -> LedgerModel {
        let debited = self.set_balance(id, from, (self.balance(id, from) - amount) as nat);
        debited.set_balance(id, to, debited.balance(id, to) + amount)
    }

    /// Whether `mint` succeeds: supply and balance stay representable.
    pub open spec fn can_mint(self, id: AssetId, to: AccountId, amount: nat) -> bool {
        &&& self.supply(id) + amount <= MAX_BALANCE
        &&& self.balance(id, to) + amount <= MAX_BALANCE
    }

    /// Creates `amount` new units of `id` in the account `to`.
    pub open spec fn mint(self, id: AssetId, to: AccountId, amount: nat) -> LedgerModel {
        self.set_balance(id, to, self.balance(id, to) + amount).set_supply(
            id,
            self.supply(id) + amount,
        )
    }

    /// Whether `burn` succeeds: the account and the supply both hold `amount`.
    pub open spec fn can_burn(self, id: AssetId, from: AccountId, amount: nat) -> bool {
        &&& amount <= self.balance(id, from)
        &&& amount <= self.supply(id)
    }

    /// Destroys `amount` units of `id` held by `from`.
    pub open spec fn burn(self, id: AssetId, from: AccountId, amount: nat) -> LedgerModel {
        self.set_balance(id, from, (self.balance(id, from) - amount) as nat).set_supply(
            id,
            (self.supply(id) - amount) as nat,
        )
    }
}

/// A ledger of fungible assets: balances per account, total supply per
/// asset, and the transfer, mint and burn operations on them.
pub trait Assets {
    /// The abstract state of this ledger.
    spec fn ledger(&self) -> LedgerModel;

    fn balance(&self, id: AssetId, who: AccountId) -> (r: Balance)
        ensures
            r == self.ledger().balance(id, who),
    ;

    fn total_supply(&self, id: AssetId) -> (r: Balance)
        ensures
            r == self.ledger().supply(id),
    ;

    fn transfer(&mut self, id: AssetId, from: AccountId, to: AccountId, amount: Balance) -> (r:
        Result<(), VaultError>)
        ensures
            r is Ok <==> old(self).ledger().can_transfer(id, from, to, amount as nat),
            r is Ok ==> final(self).ledger() == old(self).ledger().transfer(
                id,
                from,
                to,
                amount as nat,
            ),
            r is Err ==> final(self).ledger() == old(self).ledger() && r == Err::<(), VaultError>(
                old(self).ledger().transfer_error(id, from, amount as nat),
            ),
    ;

    fn mint(&mut self, id: AssetId, to: AccountId, amount: Balance) -> (r: Result<(), VaultError>)
        ensures
            r is Ok <==> old(self).ledger().can_mint(id, to, amount as nat),
            r is Ok ==> final(self).ledger() == old(self).ledger().mint(id, to, amount as nat),
            r is Err ==> final(self).ledger() == old(self).ledger() && r == Err::<(), VaultError>(
                VaultError::Overflow,
            ),
    ;

    fn burn(&mut self, id: AssetId, from: AccountId, amount: Balance) -> (r: Result<(), VaultError>)
        ensures
            r is Ok <==> old(self).ledger().can_burn(id, from, amount as nat),
            r is Ok ==> final(self).ledger() == old(self).ledger().burn(id, from, amount as nat),
            r is Err ==> final(self).ledger() == old(self).ledger() && r == Err::<(), VaultError>(
                VaultError::InsufficientBalance,
            ),
    ;
}

/// A ledger held in memory.
pub struct MemoryLedger {
    balances: HashMap<AssetId, HashMap<AccountId, Balance>>,
    supplies: HashMap<AssetId, Balance>,
}

impl MemoryLedger {
    /// A ledger in which every balance and supply is zero.
    pub fn new() -> (r: MemoryLedger)
        ensures
            r.ledger().balances =~= Map::empty(),
            r.ledger().supplies =~= Map::empty(),
    {
        MemoryLedger { balances: HashMap::new(), supplies: HashMap::new() }
    }

    fn set_balance(&mut self, id: AssetId, who: AccountId, v: Balance)
        ensures
            final(self).ledger() == old(self).ledger().set_balance(id, who, v as nat),
    {
        let mut accounts = match self.balances.get(&id) {
            Some(m) => m.clone(),
            None => HashMap::new(),
        };
        accounts.insert(who, v);
        self.balances.insert(id, accounts);
        assert(self.ledger().balances =~= old(self).ledger().balances.insert((id, who), v as nat));
    }

    fn set_supply(&mut self, id: AssetId, v: Balance)
        ensures
            final(self).ledger() == old(self).ledger().set_supply(id, v as nat),
    {
        self.supplies.insert(id, v);
        assert(self.ledger().supplies =~= old(self).ledger().supplies.insert(id, v as nat));
    }
}

impl Assets for MemoryLedger {
    closed spec fn ledger(&self) -> LedgerModel {
        LedgerModel {
            balances: Map::new(
                |k: (AssetId, AccountId)|
                    self.balances@.contains_key(k.0) && self.balances@[k.0]@.contains_key(k.1),
                |k: (AssetId, AccountId)| self.balances@[k.0]@[k.1] as nat,
            ),
            supplies: Map::new(
                |id: AssetId| self.supplies@.contains_key(id),
                |id: AssetId| self.supplies@[id] as nat,
            ),
        }
    }

    fn balance(&self, id: AssetId, who: AccountId) -> (r: Balance) {
        match self.balances.get(&id) {
            Some(accounts) => match accounts.get(&who) {
                Some(v) => *v,
                None => 0,
            },
            None => 0,
        }
    }

    fn total_supply(&self, id: AssetId) -> (r: Balance) {
        match self.supplies.get(&id) {
            Some(v) => *v,
            None => 0,
        }
    }

    fn transfer(&mut self, id: AssetId, from: AccountId, to: AccountId, amount: Balance) -> (r:
        Result<(), VaultError>) {
        let from_balance = self.balance(id, from);
        if amount > from_balance {
            return Err(VaultError::InsufficientBalance);
        }
        let to_balance = self.balance(id, to);
        if from != to && to_balance > MAX_BALANCE - amount {
            return Err(VaultError::Overflow);
        }
        self.set_balance(id, from, from_balance - amount);
        let credited = self.balance(id, to);
        self.set_balance(id, to, credited + amount);
        Ok(())
    }

    fn mint(&mut self, id: AssetId, to: AccountId, amount: Balance) -> (r: Result<(), VaultError>) {
        let supply = self.total_supply(id);
        let to_balance = self.balance(id, to);
        if supply > MAX_BALANCE - amount || to_balance > MAX_BALANCE - amount {
            return Err(VaultError::Overflow);
        }
        self.set_balance(id, to, to_balance + amount);
        self.set_supply(id, supply + amount);
        Ok(())
    }

    fn burn(&mut self, id: AssetId, from: AccountId, amount: Balance) -> (r: Result<(), VaultError>) {
        let supply = self.total_supply(id);
        let from_balance = self.balance(id, from);
        if amount > from_balance || amount > supply {
            return Err(VaultError::InsufficientBalance);
        }
        self.set_balance(id, from, from_balance - amount);
        self.set_supply(id, supply - amount);
        Ok(())
    }
}

} // verus!
