use swap_layer::error::SwapLayerError;
use swap_layer::relayer_fees::calculate_evm_gas_cost;
use swap_layer::relayer_fees::calculate_evm_swap_overhead;
use swap_layer::relayer_fees::calculate_gas_dropoff_cost;
use swap_layer::relayer_fees::calculate_relayer_fee;
use swap_layer::relayer_fees::compound;
use swap_layer::relayer_fees::denormalize_gas_price;
use swap_layer::state::ExecutionParams;
use swap_layer::state::RelayParams;
use swap_layer::types::SwapType;
use swap_layer::types::TraderJoePoolId;
use swap_layer::types::TraderJoeSwapParameters;
use swap_layer::types::UniswapSwapParameters;

fn test_relay_params() -> RelayParams {
    RelayParams {
        base_fee: 1_500_000,             // 1.5 USDC
        native_token_price: 200_000_000, // 200 USDC
        max_gas_dropoff: 500_000,        // .5 SOL
        gas_dropoff_margin: 500_000,     // 50%
        execution_params: ExecutionParams::Evm {
            gas_price: 10_000,         // 10 GWEI
            gas_price_margin: 250_000, // 25%
        },
    }
}

#[test]
fn test_denormalize_gas_price() {
    let gas_price = 1_000; // 10 GWEI
    let denorm_gas_price = denormalize_gas_price(gas_price);

    assert_eq!(denorm_gas_price, 1_000_000_000);
}

#[test]
fn test_compound() {
    let base = 1_000;
    let percentage = 500_000; // 50%
    let compounded = compound(percentage, base);

    assert_eq!(compounded, Some(1_500));
}

#[test]
fn test_compound_max() {
    let base = 1_000;
    let percentage = 1_000_000; // 100%
    let compounded = compound(percentage, base);

    assert_eq!(compounded, Some(2_000));
}

#[test]
fn test_zero_compound() {
    let base = 1_000;
    let percentage = 0;
    let compounded = compound(percentage, base);

    assert_eq!(compounded, Some(1_000));
}

#[test]
fn test_uniswap_gas_overhead_one_swap() {
    let swap_type = &SwapType::UniswapV3(UniswapSwapParameters {
        first_leg_fee: 0,
        path: vec![],
    });
    let swap_count = 1;
    let gas_overhead = calculate_evm_swap_overhead(swap_type, swap_count);

    assert_eq!(gas_overhead, Some(200_000));
}

#[test]
fn test_uniswap_gas_overhead_three_swap() {
    let swap_type = &SwapType::UniswapV3(UniswapSwapParameters {
        first_leg_fee: 0,
        path: vec![],
    });
    let swap_count = 3;
    let gas_overhead = calculate_evm_swap_overhead(swap_type, swap_count);

    assert_eq!(gas_overhead, Some(400_000));
}

#[test]
fn test_traderjoe_gas_overhead_one_swap() {
    let swap_type = &SwapType::TraderJoe(TraderJoeSwapParameters {
        first_pool_id: TraderJoePoolId {
            version: 0,
            bin_size: 69,
        },
        path: vec![],
    });
    let swap_count = 1;
    let gas_overhead = calculate_evm_swap_overhead(swap_type, swap_count);

    assert_eq!(gas_overhead, Some(200_000));
}

#[test]
fn test_traderjoe_gas_overhead_three_swap() {
    let swap_type = &SwapType::TraderJoe(TraderJoeSwapParameters {
        first_pool_id: TraderJoePoolId {
            version: 0,
            bin_size: 69,
        },
        path: vec![],
    });
    let swap_count = 3;
    let gas_overhead = calculate_evm_swap_overhead(swap_type, swap_count);

    assert_eq!(gas_overhead, Some(400_000));
}

#[test]
fn test_calculate_evm_gas_cost() {
    let gas_price = 1_000; // 10 GWEI
    let gas_price_margin = 250_000; // 25%
    let total_gas = 100_000;
    let native_token_price = 200_000_000; // 200 USDC

    let gas_cost =
        calculate_evm_gas_cost(gas_price, gas_price_margin, total_gas, native_token_price);

    assert_eq!(gas_cost, Some(25_000));
}

#[test]
fn test_calculate_gas_dropoff_cost() {
    let denorm_gas_dropoff = 500_000_000; // .5 SOL
    let gas_dropoff_margin = 500_000; // 50%
    let native_token_price = 200_000_000; // 200 USDC

    let dropoff_cost =
        calculate_gas_dropoff_cost(denorm_gas_dropoff, gas_dropoff_margin, native_token_price);

    assert_eq!(dropoff_cost, Some(150000000));
}

#[test]
fn test_calculate_relayer_fee_no_swap() {
    let relay_params = test_relay_params();
    let denorm_gas_dropoff = 50_000_000;
    let swap_type = &SwapType::Invalid;
    let swap_count = 0;

    let relayer_fee =
        calculate_relayer_fee(&relay_params, denorm_gas_dropoff, swap_type, swap_count);

    assert_eq!(relayer_fee.unwrap(), 16775000);
}

#[test]
fn test_calculate_relayer_fee_with_uniswap_swap() {
    let relay_params = test_relay_params();
    let denorm_gas_dropoff = 50_000_000;
    let swap_type = &SwapType::UniswapV3(UniswapSwapParameters {
        first_leg_fee: 0,
        path: vec![],
    });
    let swap_count = 4;

    let relayer_fee =
        calculate_relayer_fee(&relay_params, denorm_gas_dropoff, swap_type, swap_count);

    assert_eq!(relayer_fee.unwrap(), 18025000);
}

#[test]
fn test_calculate_relayer_fee_with_trader_joe_swap() {
    let relay_params = test_relay_params();
    let denorm_gas_dropoff = 50_000_000;
    let swap_type = &SwapType::TraderJoe(TraderJoeSwapParameters {
        first_pool_id: TraderJoePoolId {
            version: 0,
            bin_size: 69,
        },
        path: vec![],
    });
    let swap_count = 2;

    let relayer_fee =
        calculate_relayer_fee(&relay_params, denorm_gas_dropoff, swap_type, swap_count);

    assert_eq!(relayer_fee.unwrap(), 17525000);
}
