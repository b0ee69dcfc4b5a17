use vstd::prelude::*;

verus! {

/// Typed failures of the relayer fee engine. All are terminal and
/// caller-visible: every input is caller-supplied, so there is no retry.
#[derive(Clone, Copy, Debug, PartialEq, Eq)]
pub enum SwapLayerError {
    /// The base fee carries the disabled sentinel (`u32::MAX`).
    RelayingDisabled,
    /// The requested gas dropoff exceeds the configured maximum.
    InvalidGasDropoff,
    /// The gas-dropoff cost overflowed the 64-bit settlement range.
    GasDropoffCalculationFailed,
    /// A gas-cost step for the EVM environment overflowed its range.
    EvmGasCalculationFailed,
    /// The execution-environment variant is unsupported.
    InvalidExecutionParams,
}

} // verus!
