//! A token escrow: a maker deposits token A into a vault owned by an offer
//! account and states how much token B it wants; a taker pays the token B and
//! receives the vault's token A, and the offer is closed.
pub mod account;
pub mod bytes;
pub mod dispatch;
pub mod error;
pub mod instruction;
pub mod propose_offer;
pub mod secure;
pub mod state;
pub mod take_offer;
pub mod vulnerable;
pub mod laws;
