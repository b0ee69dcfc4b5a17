use vstd::prelude::*;

verus! {

use crate::error::SwapLayerError;
use crate::gas_dropoff::denormalize_gas_dropoff;
use crate::state::ExecutionParams;
use crate::state::RelayParams;
use crate::types::SwapType;

/// Base gas units of an EVM completion transaction.
pub const EVM_GAS_OVERHEAD: u64 = 100_000;

/// Extra gas units when a gas dropoff is delivered.
pub const DROPOFF_GAS_OVERHEAD: u64 = 10_000;

/// Fixed gas units of a constant-product/concentrated-liquidity swap.
pub const UNISWAP_GAS_OVERHEAD: u64 = 100_000;

/// Gas units per constant-product/concentrated-liquidity swap leg.
pub const UNISWAP_GAS_PER_SWAP: u64 = 100_000;

/// Fixed gas units of an order-book/bin-liquidity swap.
pub const TRADERJOE_GAS_OVERHEAD: u64 = 100_000;

/// Gas units per order-book/bin-liquidity swap leg.
pub const TRADERJOE_GAS_PER_SWAP: u64 = 100_000;

/// One native token of the host chain, in base units.
pub const ONE_SOL: u64 = 1_000_000_000;

/// One native token of the EVM destination chain, in its smallest units.
pub const ONE_ETHER: u64 = 1_000_000_000_000_000_000;

/// Parts-per-million denominator: 1,000,000 means 100%.
pub const MAX_BPS: u32 = 1_000_000;

/// Scale factor between the compact gas-price encoding and native
/// currency units.
pub const GAS_PRICE_SCALAR: u32 = 1_000_000;

/// Full denormalized gas price for a compact encoding.
pub open spec fn spec_denormalize_gas_price(gas_price: u32) -> int {
    gas_price * GAS_PRICE_SCALAR
}

/// Expands a compact gas-price encoding into native currency units.
///
/// The product of a 32-bit value and the scalar always fits in 64 bits,
/// so this can neither overflow nor saturate: the result is exactly
/// `gas_price * 1_000_000` for every input.
pub fn denormalize_gas_price(gas_price: u32) -> (r: u64)
    ensures
        r == spec_denormalize_gas_price(gas_price),
        r == gas_price * 1_000_000,
{
    proof {
        assert((gas_price as int) * (GAS_PRICE_SCALAR as int) <= (u32::MAX as int) * (GAS_PRICE_SCALAR as int))
            by (nonlinear_arith)
            requires
                gas_price <= u32::MAX,
        ;
    }
    (gas_price as u64) * (GAS_PRICE_SCALAR as u64)
}

/// A base amount with a parts-per-million margin applied:
/// `base + base * percentage / 1_000_000` (floor division), or `None`
/// where the compounded value does not fit in 64 bits.
pub open spec fn spec_compound(percentage: u32, base: u64) -> Option<u64> {
    if percentage == 0 {
        Some(base)
    } else {
        let compounded: int = base + base * percentage / (MAX_BPS as int);
        if compounded <= u64::MAX {
            Some(compounded as u64)
        } else {
            None
        }
    }
}

/// Applies a parts-per-million margin on top of a base amount.
///
/// The multiplication and the sum are carried out in 128 bits, where they
/// cannot overflow; the result is `None` exactly where the compounded
/// value does not fit back into 64 bits.
pub fn compound(percentage: u32, base: u64) -> (r: Option<u64>)
    ensures
        r == spec_compound(percentage, base),
{
    if percentage == 0 {
        Some(base)
    } else {
        let b: u128 = base as u128;
        proof {
            assert(b * (percentage as u128) <= (u64::MAX as int) * (u32::MAX as int))
                by (nonlinear_arith)
                requires
                    b <= u64::MAX,
                    percentage <= u32::MAX,
                    0 <= b,
                    0 <= percentage,
            ;
            assert(b * (percentage as u128) / (MAX_BPS as int) <= b * (percentage as u128))
                by (nonlinear_arith)
                requires
                    0 <= b * (percentage as u128),
            ;
        }
        let scaled: u128 = b * (percentage as u128) / (MAX_BPS as u128);
        let compounded: u128 = b + scaled;
        if compounded <= u64::MAX as u128 {
            Some(compounded as u64)
        } else {
            None
        }
    }
}

/// Gas units consumed by the swap legs of a completion transaction:
/// a fixed venue overhead plus a per-leg cost, for each supported venue;
/// no value for a venue that performs no swap.
pub open spec fn spec_evm_swap_overhead(swap_type: SwapType, swap_count: u8) -> Option<u64> {
    match swap_type {
        SwapType::UniswapV3(_) => Some(
            (UNISWAP_GAS_OVERHEAD + UNISWAP_GAS_PER_SWAP * swap_count) as u64,
        ),
        SwapType::TraderJoe(_) => Some(
            (TRADERJOE_GAS_OVERHEAD + TRADERJOE_GAS_PER_SWAP * swap_count) as u64,
        ),
        SwapType::Invalid => None,
    }
}

/// Estimates the gas consumed by the swap legs of the destination
/// transaction. With at most 255 legs the totals stay far below the 64-bit
/// bound, so the additions cannot overflow; only an unrecognized venue
/// yields `None`.
pub fn calculate_evm_swap_overhead(swap_type: &SwapType, swap_count: u8) -> (r: Option<u64>)
    ensures
        r == spec_evm_swap_overhead(*swap_type, swap_count),
        r is Some <==> (*swap_type is UniswapV3 || *swap_type is TraderJoe),
        r matches Some(o) ==> o == 100_000 + 100_000 * (swap_count as int),
{
    match swap_type {
        SwapType::UniswapV3(_) => Some(
            UNISWAP_GAS_OVERHEAD + UNISWAP_GAS_PER_SWAP * (swap_count as u64),
        ),
        SwapType::TraderJoe(_) => Some(
            TRADERJOE_GAS_OVERHEAD + TRADERJOE_GAS_PER_SWAP * (swap_count as u64),
        ),
        SwapType::Invalid => None,
    }
}

/// Settlement-currency cost of `total_gas` gas units at the given compact
/// gas price and native-token price, with the gas-price margin compounded
/// on top. The triple product is taken over the integers; a product beyond
/// the 128-bit range, or a scaled cost beyond the 64-bit range, yields
/// `None`.
pub open spec fn spec_evm_gas_cost(
    gas_price: u32,
    gas_price_margin: u32,
    total_gas: u64,
    native_token_price: u64,
) -> Option<u64> {
    let full: int = total_gas * spec_denormalize_gas_price(gas_price) * native_token_price;
    if full > u128::MAX {
        None
    } else {
        let cost: int = full / (ONE_ETHER as int);
        if cost <= u64::MAX {
            spec_compound(gas_price_margin, cost as u64)
        } else {
            None
        }
    }
}

/// Converts a gas total into settlement currency and compounds the
/// gas-price margin on top.
///
/// The arithmetic runs in 128 bits: the first multiplication cannot
/// overflow there (64-bit gas times a 52-bit denormalized price), the
/// second is checked, and the final scaling by `ONE_ETHER` is a deliberate
/// floor division.
pub fn calculate_evm_gas_cost(
    gas_price: u32,
    gas_price_margin: u32,
    total_gas: u64,
    native_token_price: u64,
) -> (r: Option<u64>)
    ensures
        r == spec_evm_gas_cost(gas_price, gas_price_margin, total_gas, native_token_price),
{
    let denorm: u64 = denormalize_gas_price(gas_price);
    proof {
        assert((total_gas as int) * (denorm as int) <= (u64::MAX as int) * ((u32::MAX as int)
            * (GAS_PRICE_SCALAR as int)))
            by (nonlinear_arith)
            requires
                0 <= total_gas <= u64::MAX,
                0 <= denorm <= (u32::MAX as int) * (GAS_PRICE_SCALAR as int),
        ;
    }
    let gas_units_price: u128 = (total_gas as u128) * (denorm as u128);
    match gas_units_price.checked_mul(native_token_price as u128) {
        Option::None => None,
        Option::Some(full) => {
            let cost: u128 = full / (ONE_ETHER as u128);
            if cost <= u64::MAX as u128 {
                compound(gas_price_margin, cost as u64)
            } else {
                None
            }
        },
    }
}

/// Settlement-currency cost of delivering `denorm_gas_dropoff` native base
/// units at the given native-token price, with the dropoff margin
/// compounded on top. The product is taken over the integers and scaled by
/// `ONE_SOL`; a scaled cost beyond the 64-bit range yields `None`.
pub open spec fn spec_gas_dropoff_cost(
    denorm_gas_dropoff: u64,
    gas_dropoff_margin: u32,
    native_token_price: u64,
) -> Option<u64> {
    let cost: int = denorm_gas_dropoff * native_token_price / (ONE_SOL as int);
    if cost <= u64::MAX {
        spec_compound(gas_dropoff_margin, cost as u64)
    } else {
        None
    }
}

/// Converts a denormalized gas dropoff into settlement currency and
/// compounds the dropoff margin on top.
///
/// The product of two 64-bit values always fits in 128 bits, so the only
/// failure is a scaled cost (or a compounded result) beyond 64 bits.
pub fn calculate_gas_dropoff_cost(
    denorm_gas_dropoff: u64,
    gas_dropoff_margin: u32,
    native_token_price: u64,
) -> (r: Option<u64>)
    ensures
        r == spec_gas_dropoff_cost(denorm_gas_dropoff, gas_dropoff_margin, native_token_price),
{
    proof {
        assert((denorm_gas_dropoff as int) * (native_token_price as int) <= (u64::MAX as int)
            * (u64::MAX as int))
            by (nonlinear_arith)
            requires
                0 <= denorm_gas_dropoff <= u64::MAX,
                0 <= native_token_price <= u64::MAX,
        ;
    }
    let full: u128 = (denorm_gas_dropoff as u128) * (native_token_price as u128);
    let cost: u128 = full / (ONE_SOL as u128);
    if cost <= u64::MAX as u128 {
        compound(gas_dropoff_margin, cost as u64)
    } else {
        None
    }
}

/// Total gas units of the EVM completion transaction: the environment base
/// overhead, the dropoff overhead when a dropoff is delivered, and the
/// venue overhead when swap legs are present. All summands are bounded far
/// below 64 bits, so the cast is exact.
pub open spec fn spec_total_gas(has_dropoff: bool, swap_type: SwapType, swap_count: u8) -> u64 {
    let dropoff_gas: int = if has_dropoff {
        DROPOFF_GAS_OVERHEAD as int
    } else {
        0
    };
    let venue_gas: int = if swap_count > 0 {
        match spec_evm_swap_overhead(swap_type, swap_count) {
            Some(o) => o as int,
            None => 0,
        }
    } else {
        0
    };
    (EVM_GAS_OVERHEAD + dropoff_gas + venue_gas) as u64
}

/// Fee contribution of the destination execution environment, added to the
/// running fee: the environment must be EVM, the venue overhead must be
/// computable when swap legs are present, and the gas cost and the final
/// sum must stay within 64 bits.
pub open spec fn spec_evm_fee(
    relay_params: RelayParams,
    running_fee: u64,
    has_dropoff: bool,
    swap_type: SwapType,
    swap_count: u8,
) -> Result<u64, SwapLayerError> {
    match relay_params.execution_params {
        ExecutionParams::Unsupported => Err(SwapLayerError::InvalidExecutionParams),
        ExecutionParams::Evm { gas_price, gas_price_margin } => {
            if swap_count > 0 && spec_evm_swap_overhead(swap_type, swap_count) is None {
                Err(SwapLayerError::EvmGasCalculationFailed)
            } else {
                let total_gas: u64 = spec_total_gas(has_dropoff, swap_type, swap_count);
                match spec_evm_gas_cost(
                    gas_price,
                    gas_price_margin,
                    total_gas,
                    relay_params.native_token_price,
                ) {
                    None => Err(SwapLayerError::EvmGasCalculationFailed),
                    Some(gas_fee) => if running_fee + gas_fee <= u64::MAX {
                        Ok((running_fee + gas_fee) as u64)
                    } else {
                        Err(SwapLayerError::EvmGasCalculationFailed)
                    },
                }
            }
        },
    }
}

/// The full fee computation: the sentinel base fee disables relaying; a
/// dropoff request is bounded by the denormalized maximum and its cost
/// added to the base fee; the EVM gas cost is added last. Each overflow
/// surfaces as the typed error of the step that produced it.
pub open spec fn spec_calculate_relayer_fee(
    relay_params: RelayParams,
    denorm_gas_dropoff: u64,
    swap_type: SwapType,
    swap_count: u8,
) -> Result<u64, SwapLayerError> {
    if relay_params.base_fee == u32::MAX {
        Err(SwapLayerError::RelayingDisabled)
    } else if denorm_gas_dropoff > relay_params.max_gas_dropoff
        * crate::gas_dropoff::GAS_DROPOFF_SCALAR {
        Err(SwapLayerError::InvalidGasDropoff)
    } else if denorm_gas_dropoff > 0 {
        match spec_gas_dropoff_cost(
            denorm_gas_dropoff,
            relay_params.gas_dropoff_margin,
            relay_params.native_token_price,
        ) {
            None => Err(SwapLayerError::GasDropoffCalculationFailed),
            Some(dropoff_fee) => if relay_params.base_fee + dropoff_fee <= u64::MAX {
                spec_evm_fee(
                    relay_params,
                    (relay_params.base_fee + dropoff_fee) as u64,
                    true,
                    swap_type,
                    swap_count,
                )
            } else {
                Err(SwapLayerError::GasDropoffCalculationFailed)
            },
        }
    } else {
        spec_evm_fee(relay_params, relay_params.base_fee as u64, false, swap_type, swap_count)
    }
}

/// Computes the settlement-currency fee owed to the relayer, or the typed
/// failure of the first step that cannot complete.
///
/// The contract pins the result to `spec_calculate_relayer_fee` for every
/// input: which error comes back on which inputs, and the exact fee
/// otherwise.
pub fn calculate_relayer_fee(
    relay_params: &RelayParams,
    denorm_gas_dropoff: u64,
    swap_type: &SwapType,
    swap_count: u8,
) -> (r: Result<u64, SwapLayerError>)
    ensures
        r == spec_calculate_relayer_fee(*relay_params, denorm_gas_dropoff, *swap_type, swap_count),
{
    if relay_params.base_fee == u32::MAX {
        return Err(SwapLayerError::RelayingDisabled);
    }
    let mut relayer_fee: u64 = relay_params.base_fee as u64;
    if denorm_gas_dropoff > 0 {
        if denorm_gas_dropoff > denormalize_gas_dropoff(relay_params.max_gas_dropoff) {
            return Err(SwapLayerError::InvalidGasDropoff);
        }
        let dropoff_fee: u64 = match calculate_gas_dropoff_cost(
            denorm_gas_dropoff,
            relay_params.gas_dropoff_margin,
            relay_params.native_token_price,
        ) {
            Some(c) => c,
            None => {
                return Err(SwapLayerError::GasDropoffCalculationFailed);
            },
        };
        relayer_fee = match relayer_fee.checked_add(dropoff_fee) {
            Some(f) => f,
            None => {
                return Err(SwapLayerError::GasDropoffCalculationFailed);
            },
        };
    }
    match relay_params.execution_params {
        ExecutionParams::Unsupported => Err(SwapLayerError::InvalidExecutionParams),
        ExecutionParams::Evm { gas_price, gas_price_margin } => {
            let mut total_gas: u64 = EVM_GAS_OVERHEAD;
            if denorm_gas_dropoff > 0 {
                total_gas = total_gas + DROPOFF_GAS_OVERHEAD;
            }
            if swap_count > 0 {
                let overhead: u64 = match calculate_evm_swap_overhead(swap_type, swap_count) {
                    Some(o) => o,
                    None => {
                        return Err(SwapLayerError::EvmGasCalculationFailed);
                    },
                };
                total_gas = total_gas + overhead;
            }
            let gas_fee: u64 = match calculate_evm_gas_cost(
                gas_price,
                gas_price_margin,
                total_gas,
                relay_params.native_token_price,
            ) {
                Some(g) => g,
                None => {
                    return Err(SwapLayerError::EvmGasCalculationFailed);
                },
            };
            match relayer_fee.checked_add(gas_fee) {
                Some(f) => Ok(f),
                None => Err(SwapLayerError::EvmGasCalculationFailed),
            }
        },
    }
}

/// A zero margin leaves every base amount unchanged.
pub proof fn lemma_compound_zero_margin(base: u64)
    ensures
        spec_compound(0, base) == Some(base),
{
}

/// A full margin (100%) doubles every base amount exactly: the scaled term
/// `base * 1_000_000 / 1_000_000` loses nothing to truncation. The doubled
/// value is returned whenever it is representable in 64 bits, and the
/// computation fails otherwise.
pub proof fn lemma_compound_full_margin(base: u64)
    ensures
        2 * base <= u64::MAX ==> spec_compound(MAX_BPS, base) == Some((2 * base) as u64),
        2 * base > u64::MAX ==> spec_compound(MAX_BPS, base) is None,
{
    vstd::arithmetic::div_mod::lemma_div_multiples_vanish(base as int, MAX_BPS as int);
}

/// Venue overhead follows the per-leg formula for both supported venues,
/// and is therefore monotonically non-decreasing in the number of swap
/// legs.
pub proof fn lemma_swap_overhead_monotone(swap_type: SwapType, n1: u8, n2: u8)
    requires
        swap_type is UniswapV3 || swap_type is TraderJoe,
        n1 <= n2,
    ensures
        spec_evm_swap_overhead(swap_type, n1) matches Some(o1) && spec_evm_swap_overhead(
            swap_type,
            n2,
        ) matches Some(o2) && o1 <= o2,
        spec_evm_swap_overhead(swap_type, n1) == Some(
            (100_000 + 100_000 * (n1 as int)) as u64,
        ),
{
}

/// The sentinel base fee disables relaying regardless of every other
/// input.
pub proof fn lemma_sentinel_disables_relaying(
    relay_params: RelayParams,
    denorm_gas_dropoff: u64,
    swap_type: SwapType,
    swap_count: u8,
)
    requires
        relay_params.base_fee == u32::MAX,
    ensures
        spec_calculate_relayer_fee(relay_params, denorm_gas_dropoff, swap_type, swap_count)
            == Err::<u64, SwapLayerError>(SwapLayerError::RelayingDisabled),
{
}

/// Whenever relaying is enabled and the requested dropoff strictly exceeds
/// the denormalized maximum, the computation fails with the dropoff
/// validation error, regardless of every other input.
pub proof fn lemma_excessive_dropoff_rejected(
    relay_params: RelayParams,
    denorm_gas_dropoff: u64,
    swap_type: SwapType,
    swap_count: u8,
)
    requires
        relay_params.base_fee != u32::MAX,
        denorm_gas_dropoff > relay_params.max_gas_dropoff * crate::gas_dropoff::GAS_DROPOFF_SCALAR,
    ensures
        spec_calculate_relayer_fee(relay_params, denorm_gas_dropoff, swap_type, swap_count)
            == Err::<u64, SwapLayerError>(SwapLayerError::InvalidGasDropoff),
{
}

} // verus!
