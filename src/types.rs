//! Identifiers, amounts, errors, and the derivation of sovereign accounts.

use vstd::prelude::*;

verus! {

/// Identifies a fungible asset in the ledger.
pub type AssetId = u32;

/// Identifies an account in the ledger.
pub type AccountId = u128;

/// An amount of some asset.
pub type Balance = u64;

/// The largest amount a single balance or supply can hold.
pub const MAX_BALANCE: u64 = 0xffff_ffff_ffff_ffff;

/// Why an operation was rejected. Every rejection happens before any
/// ledger state is touched.
#[derive(Clone, Copy, Debug, PartialEq, Eq, Structural)]
pub enum VaultError {
    /// An amount that must be non-zero was zero.
    ZeroAmount,
    /// The payer does not hold enough of the asset.
    InsufficientBalance,
    /// The requested shares or payout exceed what the holder or the pool has.
    ExceedWithdrawAmount,
    /// No shares are outstanding, so there is nothing to redeem against.
    InsufficientSupply,
    /// The asset has no share asset registered.
    NotRegistered,
    /// The caller is not the liquidator account.
    NotLiquidator,
    /// The value paid by the liquidation does not exceed the amount borrowed.
    BorrowExceedsLiquidation,
    /// The strategy reported more collateral than the caller allowed.
    ExceedsMaxLiquidatable,
    /// The pool has outstanding shares but no balance, so no share price exists.
    DrainedPool,
    /// A balance, a supply or a minted amount would not fit in a `Balance`.
    Overflow,
}

/// An eight-byte identifier of a pallet, from which its sovereign account
/// is derived.
#[derive(Clone, Copy, Debug, PartialEq, Eq)]
pub struct PalletId(pub [u8; 8]);

/// The bytes `b"modl"` read as a little-endian integer.
pub const MODULE_TAG: u128 = 0x6c64_6f6d;

/// The value of a byte string read as a little-endian integer.
pub open spec fn le_value(s: Seq<u8>) -> nat
    decreases s.len(),
{
    if s.len() == 0 {
        0
    } else {
        (s[0] + 256 * le_value(s.drop_first())) as nat
    }
}

/// The sovereign account of a pallet: the twelve bytes `b"modl"` followed by
/// the pallet identifier, zero-padded to the width of an account and read as
/// a little-endian integer.
pub open spec fn pallet_account(id: PalletId) -> nat {
    (MODULE_TAG + 0x1_0000_0000 * le_value(id.0@)) as nat
}

spec fn pow256(n: nat) -> nat
    decreases n,
{
    if n == 0 {
        1
    } else {
        256 * pow256((n - 1) as nat)
    }
}

/// Derives the sovereign account of a pallet from its identifier.
pub fn into_account(id: PalletId) -> (r: AccountId)
    ensures
        r == pallet_account(id),
{
    let bytes = id.0;
    let mut acc: u128 = 0;
    let mut i: usize = 8;
    proof {
        assert(bytes@.subrange(8, 8) =~= Seq::<u8>::empty());
    }
    while i > 0
        invariant
            i <= 8,
            bytes@.len() == 8,
            acc == le_value(bytes@.subrange(i as int, 8)),
            acc < pow256((8 - i) as nat),
        decreases i,
    {
        i = i - 1;
        let ghost rest = bytes@.subrange(i as int + 1, 8);
        proof {
            let s = bytes@.subrange(i as int, 8);
            assert(s.drop_first() =~= rest);
            assert(pow256((8 - i) as nat) == 256 * pow256((8 - i - 1) as nat));
            lemma_pow256_eight();
            lemma_pow256_mono((8 - i) as nat, 8);
        }
        acc = bytes[i] as u128 + 256 * acc;
    }
    proof {
        assert(bytes@.subrange(0, 8) =~= bytes@);
        lemma_pow256_eight();
    }
    MODULE_TAG + 0x1_0000_0000 * acc
}

proof fn lemma_pow256_eight()
    ensures
        pow256(8) == 0x1_0000_0000_0000_0000,
{
    reveal_with_fuel(pow256, 9);
}

proof fn lemma_pow256_mono(a: nat, b: nat)
    requires
        a <= b,
    ensures
        pow256(a) <= pow256(b),
    decreases b,
{
    if a < b {
        lemma_pow256_mono(a, (b - 1) as nat);
    }
}

} // verus!
