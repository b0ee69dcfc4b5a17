//! Relayer fee engine for a cross-chain transfer protocol.
//!
//! Given caller-supplied relay parameters (base fee, destination gas price,
//! native-token price, margins) plus a requested gas dropoff and swap-venue
//! metadata, the engine computes the settlement-currency fee owed to the
//! relayer, or a typed failure. Every function is pure and deterministic;
//! every arithmetic step that could overflow is either proved in range or
//! reported as a typed error.

pub mod error;
pub mod gas_dropoff;
pub mod relayer_fees;
pub mod state;
pub mod types;
