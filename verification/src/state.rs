use vstd::prelude::*;

verus! {

/// Destination execution environment for the relayed completion transaction.
///
/// Only the EVM environment is supported; the `Unsupported` variant marks a
/// route whose fee computation is unsupported and must be rejected.
#[derive(Clone, Copy, Debug, PartialEq, Eq)]
pub enum ExecutionParams {
    Unsupported,
    Evm {
        /// Compact gas-price encoding, scaled up by `GAS_PRICE_SCALAR`
        /// when denormalized to native-currency units.
        gas_price: u32,
        /// Margin on the gas cost, in parts per million.
        gas_price_margin: u32,
    },
}

/// Caller-supplied relay configuration, immutable per fee computation.
#[derive(Clone, Copy, Debug, PartialEq, Eq)]
pub struct RelayParams {
    /// Minimum fee floor in settlement-currency micro-units. The sentinel
    /// `u32::MAX` means relaying is disabled for this route.
    pub base_fee: u32,
    /// Price of one native-currency unit, in settlement-currency micro-units.
    pub native_token_price: u64,
    /// Upper bound on the gas dropoff, in the compact normalized encoding.
    pub max_gas_dropoff: u32,
    /// Margin on the dropoff cost, in parts per million.
    pub gas_dropoff_margin: u32,
    /// Destination execution environment.
    pub execution_params: ExecutionParams,
}

} // verus!
