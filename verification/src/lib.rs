//! Verified models of a set of Solana programs: a role-based multisig wallet,
//! an NFT staking program and a token escrow, each in a hardened and in an
//! intentionally weakened variant.
pub mod approvals;
pub mod decimal;
pub mod escrow;
pub mod key;
pub mod multisig;
pub mod nfts;
pub mod num;

use vstd::prelude::*;

verus! {
} // verus!
