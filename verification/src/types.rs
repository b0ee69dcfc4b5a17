use vstd::prelude::*;

verus! {

/// Identifies the destination-chain swap integration requested by a
/// transfer. The fee engine reads only the tag; the routing payloads are
/// carried through untouched.
#[derive(Clone, Debug)]
pub enum SwapType {
    Invalid,
    UniswapV3(UniswapSwapParameters),
    TraderJoe(TraderJoeSwapParameters),
}

/// Routing data for a constant-product/concentrated-liquidity swap.
#[derive(Clone, Debug)]
pub struct UniswapSwapParameters {
    pub first_leg_fee: u32,
    pub path: Vec<UniswapSwapPath>,
}

/// One leg of a constant-product/concentrated-liquidity swap route.
#[derive(Clone, Copy, Debug)]
pub struct UniswapSwapPath {
    pub evm_address: [u8; 20],
    pub fee: u32,
}

/// Routing data for an order-book/bin-liquidity swap.
#[derive(Clone, Debug)]
pub struct TraderJoeSwapParameters {
    pub first_pool_id: TraderJoePoolId,
    pub path: Vec<TraderJoeSwapPath>,
}

/// Identifies one order-book/bin-liquidity pool.
#[derive(Clone, Copy, Debug)]
pub struct TraderJoePoolId {
    pub version: u8,
    pub bin_size: u16,
}

/// One leg of an order-book/bin-liquidity swap route.
#[derive(Clone, Copy, Debug)]
pub struct TraderJoeSwapPath {
    pub evm_address: [u8; 20],
    pub pool_id: TraderJoePoolId,
}

} // verus!
