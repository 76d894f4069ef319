use vstd::prelude::*;

verus! {

/// What can go wrong while quoting a swap or assembling its instructions.
#[derive(Debug, Clone, Copy, PartialEq, Eq, Structural)]
pub enum SwapError {
    /// The caller's input breaks an invariant (equal mints, slippage over 100%).
    Validation,
    /// A pool, a key bundle or a required account is absent.
    NotFound,
    /// A byte blob does not match the fixed layout it must be read with.
    Decode,
    /// The metadata service or the ledger transport failed.
    Upstream,
    /// An overflow, or reserves or fees that make the swap math degenerate.
    Arithmetic,
}

} // verus!
