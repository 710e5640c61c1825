//! The intentionally weakened multisig: roles, pause state, thresholds,
//! timelocks and expiry are recorded but never enforced, and arithmetic is
//! unchecked.
pub mod errors;
pub mod instructions;
pub mod state;
pub mod laws;
