use vstd::prelude::*;
use crate::bytes::le_u64_at;
use crate::error::SwapError;
use crate::keys::{AmmKeys, MarketKeys};
use crate::layout::{
    check_target_orders, decode_market, decode_open_orders, decode_pool_state,
    decode_token_amount, event_queue_valid, known_status, merge_event_queue,
    order_book_totals, orderbook_permission, orderbook_status, pool_reserves, pool_state_of,
    reserves_spec, token_account_valid, OpenOrdersTotals, PoolMode, PoolState,
};
use crate::math::{swap_with_slippage, swap_with_slippage_spec};
use crate::types::{
    ComputeUnitLimits, PriorityFeeConfig, Pubkey, SwapConfig, SwapConfigOverrides, SwapInput,
};

verus! {

/// Options an executor is built with; unset ones fall back to defaults.
#[derive(Debug, Clone, Copy, PartialEq, Eq, Structural)]
pub struct RaydiumAmmExecutorOpts {
    pub priority_fee: Option<PriorityFeeConfig>,
    pub cu_limits: Option<ComputeUnitLimits>,
    pub wrap_and_unwrap_sol: Option<bool>,
    pub load_keys_by_api: Option<bool>,
}

impl RaydiumAmmExecutorOpts {
    pub fn new() -> (r: Self)
        ensures
            r.priority_fee is None,
            r.cu_limits is None,
            r.wrap_and_unwrap_sol == Some(true),
            r.load_keys_by_api == Some(true),
    {
        RaydiumAmmExecutorOpts {
            priority_fee: None,
            cu_limits: None,
            wrap_and_unwrap_sol: Some(true),
            load_keys_by_api: Some(true),
        }
    }
}

/// An executor's settings: its base swap configuration and how it finds a pool's keys.
#[derive(Debug, Clone, Copy, PartialEq, Eq, Structural)]
pub struct RaydiumAmm {
    pub config: SwapConfig,
    /// Take pool keys from the metadata service rather than from the ledger.
    pub load_keys_by_api: bool,
}

/// A computed, not yet submitted, swap.
#[derive(Debug, Clone, Copy, PartialEq, Eq, Structural)]
pub struct RaydiumAmmQuote {
    /// The address of the pool.
    pub market: Pubkey,
    pub input_mint: Pubkey,
    pub output_mint: Pubkey,
    /// The amount specified.
    pub amount: u64,
    /// The amount on the other side of the swap.
    pub other_amount: u64,
    /// The other amount with slippage.
    pub other_amount_threshold: u64,
    /// Whether the amount specified is in terms of the input token.
    pub amount_specified_is_input: bool,
    pub input_mint_decimals: u8,
    pub output_mint_decimals: u8,
    pub amm_keys: AmmKeys,
    pub market_keys: MarketKeys,
}

/// The first of two optional settings that is set.
pub open spec fn pick<T>(first: Option<T>, second: Option<T>) -> Option<T> {
    if first is Some {
        first
    } else {
        second
    }
}

/// Whether a swap goes from the pool's coin side to its pc side.
pub open spec fn coin_to_pc_spec(input_mint: Pubkey, amm_keys: AmmKeys) -> bool {
    input_mint == amm_keys.amm_coin_mint
}

/// The quote for a request against a pool whose true reserves are `(pc, coin)`.
pub open spec fn quote_spec(
    swap_input: SwapInput,
    pool_id: Pubkey,
    amm_keys: AmmKeys,
    market_keys: MarketKeys,
    state: PoolState,
    pc_reserve: u64,
    coin_reserve: u64,
) -> Result<RaydiumAmmQuote, SwapError> {
    if swap_input.input_token_mint == swap_input.output_token_mint {
        Err(SwapError::Validation)
    } else {
        let coin_to_pc = coin_to_pc_spec(swap_input.input_token_mint, amm_keys);
        let is_input = swap_input.mode is ExactIn;
        match swap_with_slippage_spec(
            pc_reserve,
            coin_reserve,
            state.swap_fee_numerator,
            state.swap_fee_denominator,
            coin_to_pc,
            swap_input.amount,
            is_input,
            swap_input.slippage_bps as u64,
        ) {
            Err(e) => Err(e),
            Ok((other, threshold)) => Ok(
                RaydiumAmmQuote {
                    market: pool_id,
                    input_mint: swap_input.input_token_mint,
                    output_mint: swap_input.output_token_mint,
                    amount: swap_input.amount,
                    other_amount: other,
                    other_amount_threshold: threshold,
                    amount_specified_is_input: is_input,
                    input_mint_decimals: if coin_to_pc {
                        state.coin_decimals as u8
                    } else {
                        state.pc_decimals as u8
                    },
                    output_mint_decimals: if coin_to_pc {
                        state.pc_decimals as u8
                    } else {
                        state.coin_decimals as u8
                    },
                    amm_keys,
                    market_keys,
                },
            ),
        }
    }
}

/// Refuses a request whose input and output mints are equal.
pub fn check_swap_input(swap_input: &SwapInput) -> (r: Result<(), SwapError>)
    ensures
        r is Err <==> swap_input.input_token_mint == swap_input.output_token_mint,
        r is Err ==> r == Err::<(), SwapError>(SwapError::Validation),
{
    if swap_input.input_token_mint == swap_input.output_token_mint {
        Err(SwapError::Validation)
    } else {
        Ok(())
    }
}

/// Quotes a request against a pool whose true reserves are known.
pub fn quote_from_reserves(
    swap_input: &SwapInput,
    pool_id: Pubkey,
    amm_keys: &AmmKeys,
    market_keys: &MarketKeys,
    state: &PoolState,
    pc_reserve: u64,
    coin_reserve: u64,
) -> (r: Result<RaydiumAmmQuote, SwapError>)
    ensures
        r == quote_spec(*swap_input, pool_id, *amm_keys, *market_keys, *state, pc_reserve, coin_reserve),
{
    if swap_input.input_token_mint == swap_input.output_token_mint {
        return Err(SwapError::Validation);
    }
    let coin_to_pc = swap_input.input_token_mint == amm_keys.amm_coin_mint;
    let is_input = swap_input.mode.amount_specified_is_input();
    let (other_amount, other_amount_threshold) = match swap_with_slippage(
        pc_reserve,
        coin_reserve,
        state.swap_fee_numerator,
        state.swap_fee_denominator,
        coin_to_pc,
        swap_input.amount,
        is_input,
        swap_input.slippage_bps as u64,
    ) {
        Ok(v) => v,
        Err(e) => {
            return Err(e);
        },
    };
    Ok(
        RaydiumAmmQuote {
            market: pool_id,
            input_mint: swap_input.input_token_mint,
            output_mint: swap_input.output_token_mint,
            amount: swap_input.amount,
            other_amount,
            other_amount_threshold,
            amount_specified_is_input: is_input,
            input_mint_decimals: if coin_to_pc {
                state.coin_decimals as u8
            } else {
                state.pc_decimals as u8
            },
            output_mint_decimals: if coin_to_pc {
                state.pc_decimals as u8
            } else {
                state.coin_decimals as u8
            },
            amm_keys: *amm_keys,
            market_keys: *market_keys,
        },
    )
}

/// The bytes of the account at position `i` of a snapshot.
pub open spec fn blob(accounts: Seq<Option<Vec<u8>>>, i: int) -> Seq<u8> {
    accounts[i]->0@
}

/// The quote once the reserves are known, or the error that finding them gave.
pub open spec fn quote_after(
    reserves: Result<(u64, u64), SwapError>,
    swap_input: SwapInput,
    pool_id: Pubkey,
    amm_keys: AmmKeys,
    market_keys: MarketKeys,
    state: PoolState,
) -> Result<RaydiumAmmQuote, SwapError> {
    match reserves {
        Err(e) => Err(e),
        Ok((pc, coin)) => quote_spec(swap_input, pool_id, amm_keys, market_keys, state, pc, coin),
    }
}

/// The open-orders totals in a blob of the right size.
pub open spec fn open_orders_of(s: Seq<u8>) -> OpenOrdersTotals {
    OpenOrdersTotals {
        native_coin_total: le_u64_at(s, 85) as u64,
        native_pc_total: le_u64_at(s, 101) as u64,
    }
}

/// Whether the account at position `i` of a snapshot is absent from the ledger.
pub open spec fn absent(accounts: Seq<Option<Vec<u8>>>, i: int) -> bool {
    accounts[i] is None
}

/// The quote that a snapshot of the accounts `quote_account_list` names gives:
/// pool state, target orders, pc vault, coin vault, open orders, market and event
/// queue, checked in that order. An absent account is `NotFound`; a blob that its
/// layout refuses is `Decode`. The last three are read only when the pool's status
/// lets the order book take part.
pub open spec fn snapshot_quote_spec(
    swap_input: SwapInput,
    pool_id: Pubkey,
    amm_keys: AmmKeys,
    market_keys: MarketKeys,
    acc: Seq<Option<Vec<u8>>>,
) -> Result<RaydiumAmmQuote, SwapError> {
    if swap_input.input_token_mint == swap_input.output_token_mint {
        Err(SwapError::Validation)
    } else if acc.len() != 7 {
        Err(SwapError::Upstream)
    } else if absent(acc, 0) {
        Err(SwapError::NotFound)
    } else if blob(acc, 0).len() != 752 {
        Err(SwapError::Decode)
    } else if absent(acc, 1) {
        Err(SwapError::NotFound)
    } else if blob(acc, 1).len() != 2208 {
        Err(SwapError::Decode)
    } else if absent(acc, 2) {
        Err(SwapError::NotFound)
    } else if !token_account_valid(blob(acc, 2)) {
        Err(SwapError::Decode)
    } else if absent(acc, 3) {
        Err(SwapError::NotFound)
    } else if !token_account_valid(blob(acc, 3)) {
        Err(SwapError::Decode)
    } else {
        let state = pool_state_of(blob(acc, 0));
        let pc_vault = le_u64_at(blob(acc, 2), 64) as u64;
        let coin_vault = le_u64_at(blob(acc, 3), 64) as u64;
        if !known_status(state.status) {
            Err(SwapError::Decode)
        } else if !orderbook_status(state.status) {
            quote_after(
                reserves_spec(pc_vault, coin_vault, state, PoolMode::Plain),
                swap_input,
                pool_id,
                amm_keys,
                market_keys,
                state,
            )
        } else if absent(acc, 4) {
            Err(SwapError::NotFound)
        } else if blob(acc, 4).len() != 3228 {
            Err(SwapError::Decode)
        } else if absent(acc, 5) {
            Err(SwapError::NotFound)
        } else if blob(acc, 5).len() != 388 {
            Err(SwapError::Decode)
        } else if absent(acc, 6) {
            Err(SwapError::NotFound)
        } else if !event_queue_valid(blob(acc, 6)) {
            Err(SwapError::Decode)
        } else {
            let totals = order_book_totals(open_orders_of(blob(acc, 4)), blob(acc, 6), state.open_orders);
            quote_after(
                reserves_spec(pc_vault, coin_vault, state, PoolMode::OrderBook(totals)),
                swap_input,
                pool_id,
                amm_keys,
                market_keys,
                state,
            )
        }
    }
}

fn present(accounts: &Vec<Option<Vec<u8>>>, i: usize) -> (r: Result<&[u8], SwapError>)
    requires
        i < accounts@.len(),
    ensures
        accounts@[i as int] is None ==> r == Err::<&[u8], SwapError>(SwapError::NotFound),
        accounts@[i as int] is Some ==> r is Ok && r->Ok_0@ == blob(accounts@, i as int),
{
    match &accounts[i] {
        Some(data) => Ok(data.as_slice()),
        None => Err(SwapError::NotFound),
    }
}

impl RaydiumAmm {
    /// An executor whose base configuration comes from `config`; keys are loaded
    /// through the metadata service unless `config` says otherwise.
    pub fn new(config: RaydiumAmmExecutorOpts) -> (r: Self)
        ensures
            r.load_keys_by_api == (config.load_keys_by_api != Some(false)),
            r.config == (SwapConfig {
                priority_fee: config.priority_fee,
                cu_limits: config.cu_limits,
                wrap_and_unwrap_sol: config.wrap_and_unwrap_sol,
                as_legacy_transaction: Some(true),
            }),
    {
        let load_keys_by_api = match config.load_keys_by_api {
            Some(v) => v,
            None => true,
        };
        RaydiumAmm {
            load_keys_by_api,
            config: SwapConfig {
                priority_fee: config.priority_fee,
                cu_limits: config.cu_limits,
                wrap_and_unwrap_sol: config.wrap_and_unwrap_sol,
                as_legacy_transaction: Some(true),
            },
        }
    }

    /// Replaces the base configuration as a whole.
    pub fn update_config(&mut self, config: &SwapConfig)
        ensures
            final(self).config == *config,
            final(self).load_keys_by_api == old(self).load_keys_by_api,
    {
        self.config = *config;
    }

    /// Quotes a request from one consistent snapshot of the pool's accounts,
    /// read in the order `quote_account_list` gives.
    pub fn quote(
        &self,
        swap_input: &SwapInput,
        pool_id: Pubkey,
        amm_keys: &AmmKeys,
        market_keys: &MarketKeys,
        accounts: &Vec<Option<Vec<u8>>>,
    ) -> (r: Result<RaydiumAmmQuote, SwapError>)
        ensures
            r == snapshot_quote_spec(*swap_input, pool_id, *amm_keys, *market_keys, accounts@),
    {
        check_swap_input(swap_input)?;
        if accounts.len() != 7 {
            return Err(SwapError::Upstream);
        }
        let amm = decode_pool_state(present(accounts, 0)?)?;
        check_target_orders(present(accounts, 1)?)?;
        let pc_vault = decode_token_amount(present(accounts, 2)?)?;
        let coin_vault = decode_token_amount(present(accounts, 3)?)?;
        let mode = if orderbook_permission(amm.status)? {
            let open_orders = decode_open_orders(present(accounts, 4)?)?;
            decode_market(present(accounts, 5)?)?;
            PoolMode::OrderBook(merge_event_queue(open_orders, present(accounts, 6)?, amm.open_orders)?)
        } else {
            PoolMode::Plain
        };
        let (pc_reserve, coin_reserve) = pool_reserves(pc_vault, coin_vault, &amm, mode)?;
        quote_from_reserves(swap_input, pool_id, amm_keys, market_keys, &amm, pc_reserve, coin_reserve)
    }
}

/// The priority fee policy: the override's, else the base configuration's.
pub fn resolve_priority_fee(overrides: Option<&SwapConfigOverrides>, config: &SwapConfig) -> (r: Option<PriorityFeeConfig>)
    ensures
        r == pick(
            match overrides {
                Some(o) => o.priority_fee,
                None => None,
            },
            config.priority_fee,
        ),
{
    match overrides {
        Some(o) if o.priority_fee.is_some() => o.priority_fee,
        _ => config.priority_fee,
    }
}

/// The compute-unit policy: the override's, else the base configuration's.
pub fn resolve_cu_limits(overrides: Option<&SwapConfigOverrides>, config: &SwapConfig) -> (r: Option<ComputeUnitLimits>)
    ensures
        r == pick(
            match overrides {
                Some(o) => o.cu_limits,
                None => None,
            },
            config.cu_limits,
        ),
{
    match overrides {
        Some(o) if o.cu_limits.is_some() => o.cu_limits,
        _ => config.cu_limits,
    }
}

/// Whether to wrap and unwrap the native token: the override's choice, else the
/// base configuration's, else yes.
pub fn resolve_wrap_and_unwrap_sol(overrides: Option<&SwapConfigOverrides>, config: &SwapConfig) -> (r: bool)
    ensures
        r == match pick(
            match overrides {
                Some(o) => o.wrap_and_unwrap_sol,
                None => None,
            },
            config.wrap_and_unwrap_sol,
        ) {
            Some(b) => b,
            None => true,
        },
{
    match overrides {
        Some(o) if o.wrap_and_unwrap_sol.is_some() => o.wrap_and_unwrap_sol.unwrap(),
        _ => match config.wrap_and_unwrap_sol {
            Some(b) => b,
            None => true,
        },
    }
}

} // verus!

verus! {

/// Direction selection is antisymmetric: for a pool with two distinct mints,
/// asking for the pair one way round picks the opposite direction from asking for
/// it the other way, and the decimals assigned to input and output trade places.
pub proof fn lemma_direction_antisymmetric(
    swap_input: SwapInput,
    pool_id: Pubkey,
    amm_keys: AmmKeys,
    market_keys: MarketKeys,
    state: PoolState,
    pc_reserve: u64,
    coin_reserve: u64,
)
    requires
        amm_keys.amm_coin_mint != amm_keys.amm_pc_mint,
        (swap_input.input_token_mint == amm_keys.amm_coin_mint && swap_input.output_token_mint
            == amm_keys.amm_pc_mint) || (swap_input.input_token_mint == amm_keys.amm_pc_mint
            && swap_input.output_token_mint == amm_keys.amm_coin_mint),
    ensures
        ({
            let flipped = SwapInput {
                input_token_mint: swap_input.output_token_mint,
                output_token_mint: swap_input.input_token_mint,
                ..swap_input
            };
            let q = quote_spec(swap_input, pool_id, amm_keys, market_keys, state, pc_reserve, coin_reserve);
            let p = quote_spec(flipped, pool_id, amm_keys, market_keys, state, pc_reserve, coin_reserve);
            &&& coin_to_pc_spec(swap_input.input_token_mint, amm_keys) != coin_to_pc_spec(
                flipped.input_token_mint,
                amm_keys,
            )
            &&& (q is Ok && p is Ok) ==> q->Ok_0.input_mint_decimals == p->Ok_0.output_mint_decimals
                && q->Ok_0.output_mint_decimals == p->Ok_0.input_mint_decimals
        }),
{
}

} // verus!
