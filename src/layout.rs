use vstd::prelude::*;
use solana_program::program_pack::Pack;
use crate::bytes::{le_u64_at, pubkey_at, read_u64, read_pubkey};
use crate::error::SwapError;
use crate::types::Pubkey;

verus! {

/// Size of a pool's state account.
pub const POOL_STATE_LEN: usize = 752;

/// Size of a fungible-token account.
pub const TOKEN_ACCOUNT_LEN: usize = 165;

/// Size of a pool's target-orders account.
pub const TARGET_ORDERS_LEN: usize = 2208;

/// Refuses a target-orders blob of any size but its layout's.
pub fn check_target_orders(data: &[u8]) -> (r: Result<(), SwapError>)
    ensures
        r == (if data@.len() == TARGET_ORDERS_LEN {
            Ok::<(), SwapError>(())
        } else {
            Err::<(), SwapError>(SwapError::Decode)
        }),
{
    if data.len() == TARGET_ORDERS_LEN {
        Ok(())
    } else {
        Err(SwapError::Decode)
    }
}

/// Size of an order-book open-orders account.
pub const OPEN_ORDERS_LEN: usize = 3228;

/// The fields of a pool's state account that quoting and key resolution read.
#[derive(Debug, Clone, Copy, PartialEq, Eq, Structural)]
pub struct PoolState {
    pub status: u64,
    pub nonce: u64,
    pub coin_decimals: u64,
    pub pc_decimals: u64,
    pub swap_fee_numerator: u64,
    pub swap_fee_denominator: u64,
    pub need_take_pnl_coin: u64,
    pub need_take_pnl_pc: u64,
    pub coin_vault: Pubkey,
    pub pc_vault: Pubkey,
    pub coin_mint: Pubkey,
    pub pc_mint: Pubkey,
    pub lp_mint: Pubkey,
    pub open_orders: Pubkey,
    pub market: Pubkey,
    pub market_program: Pubkey,
    pub target_orders: Pubkey,
}

/// The pool state that a blob of the right size holds.
pub open spec fn pool_state_of(s: Seq<u8>) -> PoolState {
    PoolState {
        status: le_u64_at(s, 0) as u64,
        nonce: le_u64_at(s, 8) as u64,
        coin_decimals: le_u64_at(s, 32) as u64,
        pc_decimals: le_u64_at(s, 40) as u64,
        swap_fee_numerator: le_u64_at(s, 176) as u64,
        swap_fee_denominator: le_u64_at(s, 184) as u64,
        need_take_pnl_coin: le_u64_at(s, 192) as u64,
        need_take_pnl_pc: le_u64_at(s, 200) as u64,
        coin_vault: pubkey_at(s, 336),
        pc_vault: pubkey_at(s, 368),
        coin_mint: pubkey_at(s, 400),
        pc_mint: pubkey_at(s, 432),
        lp_mint: pubkey_at(s, 464),
        open_orders: pubkey_at(s, 496),
        market: pubkey_at(s, 528),
        market_program: pubkey_at(s, 560),
        target_orders: pubkey_at(s, 592),
    }
}

/// Decodes a pool's state account; a blob of any other size is refused.
pub fn decode_pool_state(data: &[u8]) -> (r: Result<PoolState, SwapError>)
    ensures
        data@.len() != POOL_STATE_LEN ==> r == Err::<PoolState, SwapError>(SwapError::Decode),
        data@.len() == POOL_STATE_LEN ==> r == Ok::<PoolState, SwapError>(pool_state_of(data@)),
{
    if data.len() != POOL_STATE_LEN {
        return Err(SwapError::Decode);
    }
    Ok(
        PoolState {
            status: read_u64(data, 0),
            nonce: read_u64(data, 8),
            coin_decimals: read_u64(data, 32),
            pc_decimals: read_u64(data, 40),
            swap_fee_numerator: read_u64(data, 176),
            swap_fee_denominator: read_u64(data, 184),
            need_take_pnl_coin: read_u64(data, 192),
            need_take_pnl_pc: read_u64(data, 200),
            coin_vault: read_pubkey(data, 336),
            pc_vault: read_pubkey(data, 368),
            coin_mint: read_pubkey(data, 400),
            pc_mint: read_pubkey(data, 432),
            lp_mint: read_pubkey(data, 464),
            open_orders: read_pubkey(data, 496),
            market: read_pubkey(data, 528),
            market_program: read_pubkey(data, 560),
            target_orders: read_pubkey(data, 592),
        },
    )
}

/// Whether the four bytes of an optional-value tag at `o` say "absent" or "present".
pub open spec fn option_tag_ok(s: Seq<u8>, o: int) -> bool {
    (s[o] == 0 || s[o] == 1) && s[o + 1] == 0 && s[o + 2] == 0 && s[o + 3] == 0
}

/// Whether a blob is an initialised token account: 165 bytes, a state byte of
/// initialised or frozen, and well-formed tags on the delegate, native-amount
/// and close-authority options.
pub open spec fn token_account_valid(s: Seq<u8>) -> bool {
    &&& s.len() == TOKEN_ACCOUNT_LEN
    &&& (s[108] == 1 || s[108] == 2)
    &&& option_tag_ok(s, 72)
    &&& option_tag_ok(s, 109)
    &&& option_tag_ok(s, 129)
}

/// Relies on spl_token's `Pack::unpack` for `state::Account`: it accepts exactly
/// 165 bytes whose state byte (108) is initialised or frozen and whose option tags
/// (bytes 72, 109, 129) are each `[0,0,0,0]` or `[1,0,0,0]`, and reads the balance
/// from bytes 64 to 71, little-endian.
#[verifier::external_body]
fn unpack_token_amount(data: &[u8]) -> (r: Option<u64>)
    ensures
        r is Some <==> token_account_valid(data@),
        r is Some ==> r->0 as int == le_u64_at(data@, 64),
{
    spl_token::state::Account::unpack(data).ok().map(|a| a.amount)
}

/// The balance of a token account; anything but an initialised token account,
/// in particular a blob that is not exactly 165 bytes long, is a decode failure.
pub fn decode_token_amount(data: &[u8]) -> (r: Result<u64, SwapError>)
    ensures
        data@.len() != TOKEN_ACCOUNT_LEN ==> r == Err::<u64, SwapError>(SwapError::Decode),
        r == (if token_account_valid(data@) {
            Ok::<u64, SwapError>(le_u64_at(data@, 64) as u64)
        } else {
            Err::<u64, SwapError>(SwapError::Decode)
        }),
{
    match unpack_token_amount(data) {
        Some(amount) => Ok(amount),
        None => Err(SwapError::Decode),
    }
}

/// Size of an order-book market account.
pub const MARKET_STATE_LEN: usize = 388;

/// The fields of an order-book market account that key resolution reads.
#[derive(Debug, Clone, Copy, PartialEq, Eq, Structural)]
pub struct MarketState {
    pub own_address: Pubkey,
    pub vault_signer_nonce: u64,
    pub coin_vault: Pubkey,
    pub pc_vault: Pubkey,
    pub req_q: Pubkey,
    pub event_q: Pubkey,
    pub bids: Pubkey,
    pub asks: Pubkey,
}

/// The market state that a blob of the right size holds.
pub open spec fn market_state_of(s: Seq<u8>) -> MarketState {
    MarketState {
        own_address: pubkey_at(s, 13),
        vault_signer_nonce: le_u64_at(s, 45) as u64,
        coin_vault: pubkey_at(s, 117),
        pc_vault: pubkey_at(s, 165),
        req_q: pubkey_at(s, 221),
        event_q: pubkey_at(s, 253),
        bids: pubkey_at(s, 285),
        asks: pubkey_at(s, 317),
    }
}

/// Decodes an order-book market account; a blob of any other size is refused.
pub fn decode_market(data: &[u8]) -> (r: Result<MarketState, SwapError>)
    ensures
        data@.len() != MARKET_STATE_LEN ==> r == Err::<MarketState, SwapError>(SwapError::Decode),
        data@.len() == MARKET_STATE_LEN ==> r == Ok::<MarketState, SwapError>(market_state_of(data@)),
{
    if data.len() != MARKET_STATE_LEN {
        return Err(SwapError::Decode);
    }
    Ok(
        MarketState {
            own_address: read_pubkey(data, 13),
            vault_signer_nonce: read_u64(data, 45),
            coin_vault: read_pubkey(data, 117),
            pc_vault: read_pubkey(data, 165),
            req_q: read_pubkey(data, 221),
            event_q: read_pubkey(data, 253),
            bids: read_pubkey(data, 285),
            asks: read_pubkey(data, 317),
        },
    )
}

/// What a pool's open-orders account holds on the order book.
#[derive(Debug, Clone, Copy, PartialEq, Eq, Structural)]
pub struct OpenOrdersTotals {
    pub native_coin_total: u64,
    pub native_pc_total: u64,
}

/// Decodes the totals of an open-orders account; a blob of any other size is refused.
pub fn decode_open_orders(data: &[u8]) -> (r: Result<OpenOrdersTotals, SwapError>)
    ensures
        data@.len() != OPEN_ORDERS_LEN ==> r == Err::<OpenOrdersTotals, SwapError>(
            SwapError::Decode,
        ),
        data@.len() == OPEN_ORDERS_LEN ==> r == Ok::<OpenOrdersTotals, SwapError>(
            (OpenOrdersTotals {
                native_coin_total: le_u64_at(data@, 85) as u64,
                native_pc_total: le_u64_at(data@, 101) as u64,
            }),
        ),
{
    if data.len() != OPEN_ORDERS_LEN {
        return Err(SwapError::Decode);
    }
    Ok(OpenOrdersTotals { native_coin_total: read_u64(data, 85), native_pc_total: read_u64(data, 101) })
}

/// Whether a pool status lets the order book take part in the pool's reserves.
pub open spec fn orderbook_status(status: u64) -> bool {
    status == 1 || status == 4 || status == 5 || status == 7
}

/// Whether a pool status is one that the pool program defines.
pub open spec fn known_status(status: u64) -> bool {
    status <= 7
}

/// What the order book holds for a pool once unsettled fills are merged in.
#[derive(Debug, Clone, Copy, PartialEq, Eq, Structural)]
pub struct OrderBookTotals {
    pub pc: i128,
    pub coin: i128,
}

/// How a pool's true reserves are found.
#[derive(Debug, Clone, Copy, PartialEq, Eq, Structural)]
pub enum PoolMode {
    /// The vault balances are the reserves.
    Plain,
    /// The order book's totals for the pool are added to the vault balances.
    OrderBook(OrderBookTotals),
}

pub fn orderbook_permission(status: u64) -> (r: Result<bool, SwapError>)
    ensures
        !known_status(status) ==> r == Err::<bool, SwapError>(SwapError::Decode),
        known_status(status) ==> r == Ok::<bool, SwapError>(orderbook_status(status)),
{
    if status > 7 {
        Err(SwapError::Decode)
    } else {
        Ok(status == 1 || status == 4 || status == 5 || status == 7)
    }
}

/// The true reserves, `(pc, coin)`: the vault balances, plus what the order book
/// holds for the pool in that mode, less the profit the pool has accrued but not
/// yet taken. That profit belongs to the pool's owner, not to its liquidity, so it
/// is left out in both modes.
pub open spec fn reserves_spec(pc_vault: u64, coin_vault: u64, state: PoolState, mode: PoolMode) -> Result<
    (u64, u64),
    SwapError,
> {
    let (pc, coin) = match mode {
        PoolMode::Plain => (pc_vault as int, coin_vault as int),
        PoolMode::OrderBook(t) => (pc_vault + t.pc, coin_vault + t.coin),
    };
    let pc = pc - state.need_take_pnl_pc;
    let coin = coin - state.need_take_pnl_coin;
    if pc < 0 || coin < 0 || pc > u64::MAX || coin > u64::MAX {
        Err(SwapError::Arithmetic)
    } else {
        Ok((pc as u64, coin as u64))
    }
}

/// Bound past which an order-book total cannot leave reserves that fit a `u64`.
pub const TOTAL_BOUND: i128 = 0x40000000000000000;

pub fn pool_reserves(pc_vault: u64, coin_vault: u64, state: &PoolState, mode: PoolMode) -> (r: Result<
    (u64, u64),
    SwapError,
>)
    ensures
        r == reserves_spec(pc_vault, coin_vault, *state, mode),
{
    let (pc, coin) = match mode {
        PoolMode::Plain => (pc_vault as i128, coin_vault as i128),
        PoolMode::OrderBook(t) => {
            if t.pc < -TOTAL_BOUND || t.pc > TOTAL_BOUND || t.coin < -TOTAL_BOUND || t.coin
                > TOTAL_BOUND {
                return Err(SwapError::Arithmetic);
            }
            (pc_vault as i128 + t.pc, coin_vault as i128 + t.coin)
        },
    };
    let pc = pc - state.need_take_pnl_pc as i128;
    let coin = coin - state.need_take_pnl_coin as i128;
    if pc < 0 || coin < 0 || pc > u64::MAX as i128 || coin > u64::MAX as i128 {
        return Err(SwapError::Arithmetic);
    }
    Ok((pc as u64, coin as u64))
}

/// Bytes before the first event of an event queue: padding, flags, head, count
/// and sequence number.
pub const EVENT_QUEUE_HEADER_LEN: usize = 37;

/// Size of one event of an event queue.
pub const EVENT_LEN: usize = 88;

/// Bytes of an event queue that are neither header nor events.
pub const EVENT_QUEUE_OVERHEAD: usize = 44;

/// How many events an event queue of this size holds.
pub open spec fn queue_capacity(s: Seq<u8>) -> int {
    (s.len() - 44) / 88
}

pub open spec fn queue_head(s: Seq<u8>) -> int {
    le_u64_at(s, 13)
}

pub open spec fn queue_count(s: Seq<u8>) -> int {
    le_u64_at(s, 21)
}

/// Whether a blob is an event queue: a header, whole events and the tail padding,
/// with its head and count inside its capacity.
pub open spec fn event_queue_valid(s: Seq<u8>) -> bool {
    &&& s.len() >= 44
    &&& (s.len() - 44) % 88 == 0
    &&& queue_head(s) < queue_capacity(s)
    &&& queue_count(s) <= queue_capacity(s)
}

/// Where the `i`-th queued event starts.
pub open spec fn event_offset(s: Seq<u8>, i: int) -> int {
    37 + ((queue_head(s) + i) % queue_capacity(s)) * 88
}

/// What the `i`-th queued event changes in the order book's `(pc, coin)` totals of
/// the open-orders account `owner`: a fill where that account was the maker moves
/// what it paid out and what it received (and its rebate) in; anything else
/// changes nothing.
pub open spec fn event_delta(s: Seq<u8>, owner: Pubkey, i: int) -> (int, int) {
    let o = event_offset(s, i);
    let flags = s[o] as int;
    let released = le_u64_at(s, o + 8);
    let paid = le_u64_at(s, o + 16);
    let rebate = le_u64_at(s, o + 24);
    if pubkey_at(s, o + 48) != owner || flags % 2 != 1 || (flags / 8) % 2 != 1 {
        (0, 0)
    } else if (flags / 4) % 2 == 1 {
        (rebate - paid, released)
    } else {
        (released + rebate, -paid)
    }
}

/// The change in `(pc, coin)` from the first `n` queued events.
pub open spec fn fills_delta(s: Seq<u8>, owner: Pubkey, n: nat) -> (int, int)
    decreases n,
{
    if n == 0 {
        (0, 0)
    } else {
        let (p, c) = fills_delta(s, owner, (n - 1) as nat);
        let (dp, dc) = event_delta(s, owner, n - 1);
        (p + dp, c + dc)
    }
}

/// The order book's totals for the open-orders account `owner`: the account's own
/// totals with the unsettled fills of the event queue merged in.
pub open spec fn order_book_totals(open_orders: OpenOrdersTotals, queue: Seq<u8>, owner: Pubkey) -> OrderBookTotals {
    let (p, c) = fills_delta(queue, owner, queue_count(queue) as nat);
    OrderBookTotals {
        pc: (open_orders.native_pc_total + p) as i128,
        coin: (open_orders.native_coin_total + c) as i128,
    }
}

fn event_delta_at(queue: &[u8], owner: Pubkey, i: usize, head: u64, cap: usize) -> (r: (i128, i128))
    requires
        event_queue_valid(queue@),
        cap as int == queue_capacity(queue@),
        head as int == queue_head(queue@),
        cap * 88 + 44 == queue@.len(),
        i < cap,
    ensures
        (r.0 as int, r.1 as int) == event_delta(queue@, owner, i as int),
        -0x20000000000000000 <= r.0 <= 0x20000000000000000,
        -0x20000000000000000 <= r.1 <= 0x20000000000000000,
{
    let _n = queue.len();
    let slot = (head as usize + i) % cap;
    assert(slot < cap) by {
        vstd::arithmetic::div_mod::lemma_mod_bound((head + i) as int, cap as int);
    }
    let o = EVENT_QUEUE_HEADER_LEN + slot * EVENT_LEN;
    assert(o == event_offset(queue@, i as int));
    let flags = queue[o];
    let released = read_u64(queue, o + 8);
    let paid = read_u64(queue, o + 16);
    let rebate = read_u64(queue, o + 24);
    let event_owner = read_pubkey(queue, o + 48);
    if event_owner == owner && flags % 2 == 1 && (flags / 8) % 2 == 1 {
        if (flags / 4) % 2 == 1 {
            (rebate as i128 - paid as i128, released as i128)
        } else {
            (released as i128 + rebate as i128, -(paid as i128))
        }
    } else {
        (0, 0)
    }
}

/// Merges the unsettled fills of an event queue into an open-orders account's
/// totals; a blob that is not an event queue is a decode failure.
pub fn merge_event_queue(open_orders: OpenOrdersTotals, queue: &[u8], owner: Pubkey) -> (r: Result<OrderBookTotals, SwapError>)
    ensures
        !event_queue_valid(queue@) ==> r == Err::<OrderBookTotals, SwapError>(SwapError::Decode),
        event_queue_valid(queue@) ==> r == Ok::<OrderBookTotals, SwapError>(
            order_book_totals(open_orders, queue@, owner),
        ),
{
    let len = queue.len();
    if len < EVENT_QUEUE_OVERHEAD || (len - EVENT_QUEUE_OVERHEAD) % EVENT_LEN != 0 {
        return Err(SwapError::Decode);
    }
    let cap = (len - EVENT_QUEUE_OVERHEAD) / EVENT_LEN;
    let head = read_u64(queue, 13);
    let count = read_u64(queue, 21);
    if head as usize >= cap || count as usize > cap || head >= cap as u64 || count > cap as u64 {
        return Err(SwapError::Decode);
    }
    let ghost step: int = 0x30000000000000000;
    assert(cap * step <= 0x30000000000000000 * 0x400000000000000) by (nonlinear_arith)
        requires
            cap * 88 + 44 == queue@.len(),
            queue@.len() <= usize::MAX,
            step == 0x30000000000000000,
    ;
    let mut pc: i128 = 0;
    let mut coin: i128 = 0;
    let mut i: usize = 0;
    while i < count as usize
        invariant
            event_queue_valid(queue@),
            cap as int == queue_capacity(queue@),
            head as int == queue_head(queue@),
            count as int == queue_count(queue@),
            cap * 88 + 44 == queue@.len(),
            0 <= i <= count <= cap,
            step == 0x30000000000000000,
            cap * step <= 0x30000000000000000 * 0x400000000000000,
            (pc as int, coin as int) == fills_delta(queue@, owner, i as nat),
            -(i * step) <= pc <= i * step,
            -(i * step) <= coin <= i * step,
        decreases count - i,
    {
        let (dp, dc) = event_delta_at(queue, owner, i, head, cap);
        proof {
            assert(i * step + 0x20000000000000000 <= (i + 1) * step) by (nonlinear_arith)
                requires
                    step == 0x30000000000000000,
            ;
            assert((i + 1) * step <= cap * step) by (nonlinear_arith)
                requires
                    i < cap,
                    step > 0,
            ;
        }
        pc = pc + dp;
        coin = coin + dc;
        i = i + 1;
    }
    Ok(
        OrderBookTotals {
            pc: open_orders.native_pc_total as i128 + pc,
            coin: open_orders.native_coin_total as i128 + coin,
        },
    )
}

} // verus!
