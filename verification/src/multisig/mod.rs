//! A role-based multisig wallet: members with roles, governance proposals,
//! SOL transfer proposals, approval thresholds, timelocks and a pause switch.
pub mod secure;
pub mod vulnerable;
