//! Share-based vault accounting with a liquidation coordinator.
//!
//! Users deposit an asset into a pooled account and receive shares that
//! claim a proportional slice of the pool; they redeem shares for their
//! slice; a privileged liquidator may borrow from the pool once a solvency
//! check has passed.

pub mod types;
pub mod ledger;
pub mod registry;
pub mod vault;
pub mod liquidator_adapter;
pub mod liquidator;
pub mod template;
