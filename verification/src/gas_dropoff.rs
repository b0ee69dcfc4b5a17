use vstd::prelude::*;

verus! {

/// Scale factor between the compact gas-dropoff encoding and native
/// base units.
pub const GAS_DROPOFF_SCALAR: u64 = 1_000;

/// Expands a compact gas-dropoff encoding into native base units.
///
/// The product of a 32-bit value and the scalar always fits in 64 bits,
/// so this can neither overflow nor saturate.
pub fn denormalize_gas_dropoff(gas_dropoff: u32) -> (r: u64)
    ensures
        r == gas_dropoff * GAS_DROPOFF_SCALAR,
{
    (gas_dropoff as u64) * GAS_DROPOFF_SCALAR
}

} // verus!
