//! The mapping from an underlying asset to the asset of its shares.

use std::collections::HashMap;
use vstd::prelude::*;

use crate::types::{AssetId, VaultError};

verus! {

broadcast use vstd::std_specs::hash::group_hash_axioms;

/// Maps each registered underlying asset to its share asset.
pub struct Registry {
    r_tokens: HashMap<AssetId, AssetId>,
}

impl View for Registry {
    type V = Map<AssetId, AssetId>;

    closed spec fn view(&self) -> Map<AssetId, AssetId> {
        self.r_tokens@
    }
}

impl Registry {
    /// A registry with no entries.
    pub fn new() -> (r: Registry)
        ensures
            r@ == Map::<AssetId, AssetId>::empty(),
    {
        Registry { r_tokens: HashMap::new() }
    }

    /// Records `share_asset_id` as the share asset of `asset_id`, replacing
    /// any earlier entry for `asset_id`.
    pub fn register(&mut self, asset_id: AssetId, share_asset_id: AssetId)
        ensures
            final(self)@ == old(self)@.insert(asset_id, share_asset_id),
    {
        self.r_tokens.insert(asset_id, share_asset_id);
    }

    /// The share asset registered for `asset_id`.
    pub fn share_asset_of(&self, asset_id: AssetId) -> (r: Result<AssetId, VaultError>)
        ensures
            match r {
                Ok(share) => self@.contains_key(asset_id) && share == self@[asset_id],
                Err(e) => !self@.contains_key(asset_id) && e == VaultError::NotRegistered,
            },
    {
        match self.r_tokens.get(&asset_id) {
            Some(share) => Ok(*share),
            None => Err(VaultError::NotRegistered),
        }
    }
}

} // verus!
