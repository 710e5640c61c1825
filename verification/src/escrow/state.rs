//! The offer account's state and its byte layout: the fields in declaration
//! order, integers little-endian, followed by six bytes of padding.
use super::bytes::{le_u64, lemma_u64_le_roundtrip, read_bytes8, read_key, read_u64_le, u64_le, u64_to_le, write_bytes};
use super::error::ProgramError;
use crate::key::Pubkey;
use vstd::prelude::*;

verus! {

/// An escrow offer: its id, the maker, the mint of the token offered (A),
/// the mint of the token wanted (B), the amounts wanted and offered, the
/// offer address's bump seed, and whether the offer is active (1) or not.
#[derive(Clone, Copy, PartialEq, Eq, Debug)]
pub struct MakeState {
    pub id: [u8; 8],
    pub proposer: Pubkey,
    pub token_mint_a: Pubkey,
    pub token_mint_b: Pubkey,
    pub token_b_wanted_amount: u64,
    pub token_a_offered_amount: u64,
    pub bump: u8,
    pub is_initialized: u8,
}

/// Whether `b` is the data of an offer account that holds `s`.
pub open spec fn decodes_to(b: Seq<u8>, s: MakeState) -> bool {
    &&& b.len() == MakeState::LEN
    &&& s.id@ == b.subrange(0, 8)
    &&& s.proposer.0@ == b.subrange(8, 40)
    &&& s.token_mint_a.0@ == b.subrange(40, 72)
    &&& s.token_mint_b.0@ == b.subrange(72, 104)
    &&& s.token_b_wanted_amount == le_u64(b, 104)
    &&& s.token_a_offered_amount == le_u64(b, 112)
    &&& s.bump == b[120]
    &&& s.is_initialized == b[121]
}

/// The data of an offer account holding `s`, with the six padding bytes
/// `padding`.
pub open spec fn encode(s: MakeState, padding: Seq<u8>) -> Seq<u8> {
    s.id@ + s.proposer.0@ + s.token_mint_a.0@ + s.token_mint_b.0@ + u64_le(s.token_b_wanted_amount)
        + u64_le(s.token_a_offered_amount) + seq![s.bump, s.is_initialized] + padding
}

impl MakeState {
    /// Byte length of an offer account's data.
    pub const LEN: usize = 128;

    /// Reads the state from an offer account's data for update; the data
    /// must be exactly `MakeState::LEN` bytes long.
    pub fn load_mut(bytes: &[u8]) -> (r: Result<MakeState, ProgramError>)
        ensures
            bytes@.len() != MakeState::LEN ==> r == Err::<MakeState, ProgramError>(
                ProgramError::InvalidAccountData,
            ),
            bytes@.len() == MakeState::LEN ==> r is Ok && decodes_to(bytes@, r->Ok_0),
    {
        Self::load(bytes)
    }

    /// Reads the state from an offer account's data; the data must be
    /// exactly `MakeState::LEN` bytes long.
    pub fn load(bytes: &[u8]) -> (r: Result<MakeState, ProgramError>)
        ensures
            bytes@.len() != MakeState::LEN ==> r == Err::<MakeState, ProgramError>(
                ProgramError::InvalidAccountData,
            ),
            bytes@.len() == MakeState::LEN ==> r is Ok && decodes_to(bytes@, r->Ok_0),
    {
        if bytes.len() != MakeState::LEN {
            return Err(ProgramError::InvalidAccountData);
        }
        Ok(
            MakeState {
                id: read_bytes8(bytes, 0),
                proposer: read_key(bytes, 8),
                token_mint_a: read_key(bytes, 40),
                token_mint_b: read_key(bytes, 72),
                token_b_wanted_amount: read_u64_le(bytes, 104),
                token_a_offered_amount: read_u64_le(bytes, 112),
                bump: bytes[120],
                is_initialized: bytes[121],
            },
        )
    }

    /// Writes the state into an offer account's data, keeping its padding.
    pub fn store(&self, bytes: &mut Vec<u8>)
        requires
            old(bytes)@.len() == MakeState::LEN,
        ensures
            final(bytes)@ == encode(*self, old(bytes)@.subrange(122, 128)),
    {
        write_bytes(bytes, 0, self.id.as_slice());
        write_bytes(bytes, 8, self.proposer.0.as_slice());
        write_bytes(bytes, 40, self.token_mint_a.0.as_slice());
        write_bytes(bytes, 72, self.token_mint_b.0.as_slice());
        let wanted = u64_to_le(self.token_b_wanted_amount);
        write_bytes(bytes, 104, wanted.as_slice());
        let offered = u64_to_le(self.token_a_offered_amount);
        write_bytes(bytes, 112, offered.as_slice());
        bytes.set(120, self.bump);
        bytes.set(121, self.is_initialized);
        assert(bytes@ =~= encode(*self, old(bytes)@.subrange(122, 128)));
    }

    /// Sets every field and marks the offer active.
    pub fn set_inner(
        &mut self,
        id: [u8; 8],
        proposer: Pubkey,
        token_mint_a: Pubkey,
        token_mint_b: Pubkey,
        token_b_wanted_amount: u64,
        token_a_offered_amount: u64,
        bump: u8,
    )
        ensures
            *final(self) == (MakeState {
                id,
                proposer,
                token_mint_a,
                token_mint_b,
                token_b_wanted_amount,
                token_a_offered_amount,
                bump,
                is_initialized: 1,
            }),
    {
        self.id = id;
        self.proposer = proposer;
        self.token_mint_a = token_mint_a;
        self.token_mint_b = token_mint_b;
        self.token_b_wanted_amount = token_b_wanted_amount;
        self.token_a_offered_amount = token_a_offered_amount;
        self.bump = bump;
        self.is_initialized = 1;
    }

    /// Whether the offer is active.
    pub fn is_active(&self) -> (r: bool)
        ensures
            r == (self.is_initialized == 1),
    {
        self.is_initialized == 1
    }

    /// Marks the offer inactive.
    pub fn close(&mut self)
        ensures
            *final(self) == (MakeState { is_initialized: 0, ..*old(self) }),
    {
        self.is_initialized = 0;
    }
}

/// The offer data that `store` writes reads back as the stored state.
pub proof fn law_encode_decodes(s: MakeState, padding: Seq<u8>)
    requires
        padding.len() == 6,
    ensures
        decodes_to(encode(s, padding), s),
{
    let b = encode(s, padding);
    lemma_u64_le_roundtrip(s.token_b_wanted_amount);
    lemma_u64_le_roundtrip(s.token_a_offered_amount);
    assert(b.subrange(0, 8) =~= s.id@);
    assert(b.subrange(8, 40) =~= s.proposer.0@);
    assert(b.subrange(40, 72) =~= s.token_mint_a.0@);
    assert(b.subrange(72, 104) =~= s.token_mint_b.0@);
    assert(b.subrange(104, 112) =~= u64_le(s.token_b_wanted_amount));
    assert(b.subrange(112, 120) =~= u64_le(s.token_a_offered_amount));
    assert(le_u64(b, 104) == le_u64(b.subrange(104, 112), 0));
    assert(le_u64(b, 112) == le_u64(b.subrange(112, 120), 0));
}

/// Offer data determines the state it holds.
pub proof fn law_decoding_is_unique(b: Seq<u8>, s1: MakeState, s2: MakeState)
    requires
        decodes_to(b, s1),
        decodes_to(b, s2),
    ensures
        s1 == s2,
{
    assert(s1.id =~= s2.id);
    assert(s1.proposer.0 =~= s2.proposer.0);
    assert(s1.token_mint_a.0 =~= s2.token_mint_a.0);
    assert(s1.token_mint_b.0 =~= s2.token_mint_b.0);
}

} // verus!
