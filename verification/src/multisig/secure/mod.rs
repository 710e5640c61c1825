pub mod errors;
pub mod gates;
pub mod instructions;
pub mod laws;
pub mod state;
