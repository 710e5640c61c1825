//! NFT staking on Metaplex Core: a collection with minting and staking
//! counters, and staking that freezes an asset and accumulates the time it
//! stays staked in the asset's attributes.
pub mod attributes;
pub mod errors;
pub mod state;
pub mod secure;
pub mod vulnerable;
pub mod laws;
pub mod attribute_laws;
