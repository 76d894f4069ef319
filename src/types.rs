use vstd::prelude::*;

verus! {

/// A 32-byte ledger address, held as four little-endian words: `w0` holds bytes
/// 0 to 7, `w1` bytes 8 to 15, and so on.
#[derive(Debug, Clone, Copy, PartialEq, Eq, Structural)]
pub struct Pubkey {
    pub w0: u64,
    pub w1: u64,
    pub w2: u64,
    pub w3: u64,
}

impl Pubkey {
    /// The address whose bytes are `bytes`.
    pub fn new_from_array(bytes: [u8; 32]) -> (r: Pubkey)
        ensures
            r == crate::bytes::pubkey_at(bytes@, 0),
    {
        crate::bytes::read_pubkey(bytes.as_slice(), 0)
    }
}

/// Whether the amount of a swap is what goes in or what comes out.
#[derive(Debug, Clone, Copy, PartialEq, Eq, Structural)]
pub enum SwapExecutionMode {
    ExactIn,
    ExactOut,
}

impl SwapExecutionMode {
    pub fn amount_specified_is_input(&self) -> (r: bool)
        ensures
            r == (*self is ExactIn),
    {
        match self {
            SwapExecutionMode::ExactIn => true,
            SwapExecutionMode::ExactOut => false,
        }
    }
}

/// A request for a quote.
#[derive(Debug, Clone, Copy, PartialEq, Eq, Structural)]
pub struct SwapInput {
    pub input_token_mint: Pubkey,
    pub output_token_mint: Pubkey,
    /// Slippage tolerated, in basis points (0 to 10000).
    pub slippage_bps: u16,
    pub amount: u64,
    pub mode: SwapExecutionMode,
    /// The pool to use, when the caller has chosen one.
    pub market: Option<Pubkey>,
}

/// How the compute-unit limit of a swap is chosen.
#[derive(Debug, Clone, Copy, PartialEq, Eq, Structural)]
pub enum ComputeUnitLimits {
    /// Take the estimate that a simulation of the instructions gives.
    Dynamic,
    /// A fixed limit.
    Fixed(u32),
}

/// How the priority fee of a swap is chosen.
#[derive(Debug, Clone, Copy, PartialEq, Eq, Structural)]
pub enum PriorityFeeConfig {
    /// A price per compute unit, in micro-lamports.
    FixedCuPrice(u64),
    /// A total fee in lamports, spread over the compute-unit limit.
    TotalLamports(u64),
}

/// The base configuration of an executor.
#[derive(Debug, Clone, Copy, PartialEq, Eq, Structural)]
pub struct SwapConfig {
    pub priority_fee: Option<PriorityFeeConfig>,
    pub cu_limits: Option<ComputeUnitLimits>,
    pub wrap_and_unwrap_sol: Option<bool>,
    pub as_legacy_transaction: Option<bool>,
}

/// Per-call settings that take precedence over the base configuration.
#[derive(Debug, Clone, Copy, PartialEq, Eq, Structural)]
pub struct SwapConfigOverrides {
    pub priority_fee: Option<PriorityFeeConfig>,
    pub cu_limits: Option<ComputeUnitLimits>,
    pub wrap_and_unwrap_sol: Option<bool>,
}

} // verus!
