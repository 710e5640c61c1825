//! What the escrow promises across instructions: a take reads back exactly
//! the offer that the proposal wrote, and a closed offer cannot be taken.
use super::account::AccountView;
use super::bytes::{le_u64, u64_le, lemma_u64_le_roundtrip};
use super::dispatch::route_error;
use super::error::ProgramError;
use super::propose_offer::ProposeOfferInstruction;
use super::take_offer::offer_closed;
use super::state::{decodes_to, encode, law_decoding_is_unique, law_encode_decodes, MakeState};
use vstd::prelude::*;

verus! {

/// The offer state that a take reads from the data a proposal wrote is the
/// state the proposal opened: the same maker, mints, amounts, id and bump,
/// and active.
pub proof fn law_take_reads_proposal(ix: ProposeOfferInstruction, read: MakeState)
    requires
        decodes_to(encode(ix.offer_state(), seq![0u8, 0u8, 0u8, 0u8, 0u8, 0u8]), read),
    ensures
        read == ix.offer_state(),
        read.is_initialized == 1,
{
    let pad = seq![0u8, 0u8, 0u8, 0u8, 0u8, 0u8];
    law_encode_decodes(ix.offer_state(), pad);
    law_decoding_is_unique(encode(ix.offer_state(), pad), read, ix.offer_state());
}

/// Once a take has closed the offer account (`TakeOfferPlan::close_offer`),
/// taking that offer again is refused with `InvalidAccountData`.
pub proof fn law_closed_offer_cannot_be_taken(
    taker: AccountView,
    offer: AccountView,
    new_taker: AccountView,
    accounts: Seq<AccountView>,
    data: Seq<u8>,
)
    requires
        offer_closed(taker, offer, new_taker, accounts[7]),
        data.len() > 0,
        data[0] == 1,
        accounts.len() >= 11,
    ensures
        route_error(accounts, data) == Some(ProgramError::InvalidAccountData),
{
}

/// The amounts in offer accounts and instruction data are stored
/// little-endian: the eight bytes from `off` hold the value
/// `b[off] + 256 * b[off + 1] + ... + 256^7 * b[off + 7]`.
pub proof fn law_le_u64_is_little_endian(b: Seq<u8>, off: int)
    requires
        0 <= off,
        off + 8 <= b.len(),
    ensures
        le_u64(b, off) == b[off] + 0x100 * b[off + 1] + 0x1_0000 * b[off + 2] + 0x100_0000 * b[off
            + 3] + 0x1_0000_0000 * b[off + 4] + 0x100_0000_0000 * b[off + 5] + 0x1_0000_0000_0000
            * b[off + 6] + 0x100_0000_0000_0000 * b[off + 7],
{
    let x0 = b[off];
    let x1 = b[off + 1];
    let x2 = b[off + 2];
    let x3 = b[off + 3];
    let x4 = b[off + 4];
    let x5 = b[off + 5];
    let x6 = b[off + 6];
    let x7 = b[off + 7];
    assert((x0 as u64) | ((x1 as u64) << 8u64) | ((x2 as u64) << 16u64) | ((x3 as u64) << 24u64)
        | ((x4 as u64) << 32u64) | ((x5 as u64) << 40u64) | ((x6 as u64) << 48u64) | ((x7 as u64)
        << 56u64) == x0 + 0x100 * x1 + 0x1_0000 * x2 + 0x100_0000 * x3 + 0x1_0000_0000 * x4
        + 0x100_0000_0000 * x5 + 0x1_0000_0000_0000 * x6 + 0x100_0000_0000_0000 * x7)
        by (bit_vector);
}

/// Writing a value as eight little-endian bytes and reading them back
/// gives the value.
pub proof fn law_u64_bytes_roundtrip(v: u64)
    ensures
        u64_le(v).len() == 8,
        le_u64(u64_le(v), 0) == v,
{
    lemma_u64_le_roundtrip(v);
}

} // verus!
