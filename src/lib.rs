//! Quotes swaps against a constant-product pool from its raw ledger accounts, and
//! plans the ordered instructions that carry a quote out.
//!
//! - `bytes`: little-endian reading and writing of integers and addresses.
//! - `layout`: the fixed binary layouts of pool, token, market and open-orders accounts.
//! - `math`: constant-product swap math with an integer fee and a slippage bound.
//! - `keys`: pool and market key sets, pool selection, the batched account list.
//! - `derive`: addresses derived from seeds (pool authority, vault signer, token accounts).
//! - `executor`: configuration precedence and the quote over an account snapshot.
//! - `assemble`: the swap instruction and the ordered plan of a swap.

pub mod assemble;
pub mod bytes;
pub mod derive;
pub mod error;
pub mod executor;
pub mod keys;
pub mod layout;
pub mod math;
pub mod types;
