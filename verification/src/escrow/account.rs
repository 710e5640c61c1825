//! The accounts that an instruction receives, as plain values.
use crate::key::Pubkey;
use vstd::prelude::*;

verus! {

/// An account passed to an instruction: its address, the program that owns
/// it, its balance in lamports, its data, and whether it signed the
/// transaction and may be written.
pub struct AccountView {
    pub address: Pubkey,
    pub owner: Pubkey,
    pub lamports: u64,
    pub data: Vec<u8>,
    pub is_signer: bool,
    pub is_writable: bool,
}

} // verus!
