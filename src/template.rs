//! A minimal pallet that owns a sovereign account.

use vstd::prelude::*;

use crate::types::{into_account, pallet_account, AccountId, PalletId};

verus! {

/// A pallet identified by its pallet id.
pub struct Module {
    pub pallet_id: PalletId,
}

impl Module {
    pub fn new(pallet_id: PalletId) -> (r: Module)
        ensures
            r.pallet_id == pallet_id,
    {
        Module { pallet_id }
    }

    /// The account ID of the pallet.
    pub fn account_id(&self) -> (r: AccountId)
        ensures
            r == pallet_account(self.pallet_id),
    {
        into_account(self.pallet_id)
    }
}

} // verus!
