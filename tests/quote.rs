use raydium_swap::error::SwapError;
use raydium_swap::executor::{check_swap_input, quote_from_reserves, RaydiumAmm, RaydiumAmmExecutorOpts};
use raydium_swap::keys::{AmmKeys, MarketKeys};
use raydium_swap::layout::{
    decode_open_orders, decode_pool_state, decode_token_amount, merge_event_queue, pool_reserves,
    OpenOrdersTotals, OrderBookTotals, PoolMode, PoolState,
};
use raydium_swap::math::swap_with_slippage;
use raydium_swap::types::{Pubkey, SwapConfig, SwapExecutionMode, SwapInput};

fn key(n: u64) -> Pubkey {
    Pubkey { w0: n, w1: n + 1, w2: n + 2, w3: n + 3 }
}

fn put_u64(buf: &mut [u8], off: usize, v: u64) {
    buf[off..off + 8].copy_from_slice(&v.to_le_bytes());
}

fn put_key(buf: &mut [u8], off: usize, k: &Pubkey) {
    for (i, w) in [k.w0, k.w1, k.w2, k.w3].iter().enumerate() {
        put_u64(buf, off + 8 * i, *w);
    }
}

fn amm_keys() -> AmmKeys {
    AmmKeys {
        amm_pool: key(100),
        amm_coin_mint: key(200),
        amm_pc_mint: key(300),
        amm_authority: key(400),
        amm_target: key(500),
        amm_coin_vault: key(600),
        amm_pc_vault: key(700),
        amm_lp_mint: key(800),
        amm_open_order: key(900),
        market_program: key(1000),
        market: key(1100),
        nonce: 0,
    }
}

fn market_keys() -> MarketKeys {
    MarketKeys {
        event_queue: key(1200),
        bids: key(1300),
        asks: key(1400),
        coin_vault: key(1500),
        pc_vault: key(1600),
        vault_signer_key: key(1700),
    }
}

fn state(status: u64) -> PoolState {
    PoolState {
        status,
        nonce: 254,
        coin_decimals: 9,
        pc_decimals: 6,
        swap_fee_numerator: 25,
        swap_fee_denominator: 10000,
        need_take_pnl_coin: 0,
        need_take_pnl_pc: 0,
        coin_vault: key(600),
        pc_vault: key(700),
        coin_mint: key(200),
        pc_mint: key(300),
        lp_mint: key(800),
        open_orders: key(900),
        market: key(1100),
        market_program: key(1000),
        target_orders: key(500),
    }
}

fn pool_blob(status: u64, pnl_coin: u64, pnl_pc: u64) -> Vec<u8> {
    let mut b = vec![0u8; 752];
    put_u64(&mut b, 0, status);
    put_u64(&mut b, 8, 254);
    put_u64(&mut b, 32, 9);
    put_u64(&mut b, 40, 6);
    put_u64(&mut b, 176, 25);
    put_u64(&mut b, 184, 10000);
    put_u64(&mut b, 192, pnl_coin);
    put_u64(&mut b, 200, pnl_pc);
    put_key(&mut b, 336, &key(600));
    put_key(&mut b, 368, &key(700));
    put_key(&mut b, 400, &key(200));
    put_key(&mut b, 432, &key(300));
    put_key(&mut b, 464, &key(800));
    put_key(&mut b, 496, &key(900));
    put_key(&mut b, 528, &key(1100));
    put_key(&mut b, 560, &key(1000));
    put_key(&mut b, 592, &key(500));
    b
}

fn token_blob(mint: &Pubkey, amount: u64) -> Vec<u8> {
    let mut b = vec![0u8; 165];
    put_key(&mut b, 0, mint);
    put_key(&mut b, 32, &key(42));
    put_u64(&mut b, 64, amount);
    b[108] = 1;
    b
}

fn open_orders_blob(coin_total: u64, pc_total: u64) -> Vec<u8> {
    let mut b = vec![0u8; 3228];
    put_u64(&mut b, 85, coin_total);
    put_u64(&mut b, 101, pc_total);
    b
}

/// An event queue with room for `cap` events holding `events` from slot `head` on;
/// each event is (flags, owner, released, paid, rebate).
fn event_queue_blob(cap: usize, head: u64, events: &[(u8, Pubkey, u64, u64, u64)]) -> Vec<u8> {
    let mut b = vec![0u8; 44 + 88 * cap];
    put_u64(&mut b, 13, head);
    put_u64(&mut b, 21, events.len() as u64);
    for (i, (flags, owner, released, paid, rebate)) in events.iter().enumerate() {
        let o = 37 + ((head as usize + i) % cap) * 88;
        b[o] = *flags;
        put_u64(&mut b, o + 8, *released);
        put_u64(&mut b, o + 16, *paid);
        put_u64(&mut b, o + 24, *rebate);
        put_key(&mut b, o + 48, owner);
    }
    b
}

fn snapshot(status: u64, pc: u64, coin: u64) -> Vec<Option<Vec<u8>>> {
    vec![
        Some(pool_blob(status, 0, 0)),
        Some(vec![0u8; 2208]),
        Some(token_blob(&key(300), pc)),
        Some(token_blob(&key(200), coin)),
        Some(open_orders_blob(0, 0)),
        Some(vec![0u8; 388]),
        Some(event_queue_blob(4, 0, &[])),
    ]
}

fn input(input: Pubkey, output: Pubkey, amount: u64, mode: SwapExecutionMode, slippage_bps: u16) -> SwapInput {
    SwapInput { input_token_mint: input, output_token_mint: output, slippage_bps, amount, mode, market: None }
}

fn executor() -> RaydiumAmm {
    RaydiumAmm::new(RaydiumAmmExecutorOpts::new())
}

#[test]
fn opts_new_defaults() {
    let o = RaydiumAmmExecutorOpts::new();
    assert_eq!(o.priority_fee, None);
    assert_eq!(o.cu_limits, None);
    assert_eq!(o.wrap_and_unwrap_sol, Some(true));
    assert_eq!(o.load_keys_by_api, Some(true));
}

#[test]
fn executor_new_and_update_config() {
    let mut opts = RaydiumAmmExecutorOpts::new();
    opts.load_keys_by_api = None;
    let mut amm = RaydiumAmm::new(opts);
    assert!(amm.load_keys_by_api);
    assert_eq!(amm.config.wrap_and_unwrap_sol, Some(true));
    assert_eq!(amm.config.as_legacy_transaction, Some(true));
    opts.load_keys_by_api = Some(false);
    assert!(!RaydiumAmm::new(opts).load_keys_by_api);
    let cfg = SwapConfig { priority_fee: None, cu_limits: None, wrap_and_unwrap_sol: Some(false), as_legacy_transaction: None };
    amm.update_config(&cfg);
    assert_eq!(amm.config, cfg);
    assert!(amm.load_keys_by_api);
}

#[test]
fn equal_mints_rejected() {
    let req = input(key(200), key(200), 10, SwapExecutionMode::ExactIn, 50);
    assert_eq!(check_swap_input(&req), Err(SwapError::Validation));
    let r = executor().quote(&req, key(100), &amm_keys(), &market_keys(), &vec![]);
    assert_eq!(r, Err(SwapError::Validation));
    let ok = input(key(200), key(300), 10, SwapExecutionMode::ExactIn, 50);
    assert_eq!(check_swap_input(&ok), Ok(()));
}

#[test]
fn exact_in_reference_values() {
    let r = swap_with_slippage(2_000_000_000, 1_000_000_000, 25, 10000, true, 1_000_000, true, 100);
    assert_eq!(r, Ok((1_993_012, 1_973_081)));
}

#[test]
fn exact_out_is_least_input() {
    let r = swap_with_slippage(2_000_000_000, 1_000_000_000, 25, 10000, true, 1_000_000, false, 100);
    assert_eq!(r, Ok((501_504, 506_519)));
    // one unit less does not reach the requested output
    let less = swap_with_slippage(2_000_000_000, 1_000_000_000, 25, 10000, true, 501_503, true, 0);
    assert!(less.unwrap().0 < 1_000_000);
    let exact = swap_with_slippage(2_000_000_000, 1_000_000_000, 25, 10000, true, 501_504, true, 0);
    assert!(exact.unwrap().0 >= 1_000_000);
}

#[test]
fn threshold_sides() {
    for bps in [0u64, 1, 100, 5000, 10000] {
        let (out, min) = swap_with_slippage(5_000_000, 7_000_000, 30, 10000, false, 12_345, true, bps).unwrap();
        assert!(min <= out);
        let (inp, max) = swap_with_slippage(5_000_000, 7_000_000, 30, 10000, false, 12_345, false, bps).unwrap();
        assert!(max >= inp);
    }
    let (out, min) = swap_with_slippage(5_000_000, 7_000_000, 30, 10000, false, 12_345, true, 10000).unwrap();
    assert!(out > 0);
    assert_eq!(min, 0);
}

#[test]
fn swap_math_errors() {
    assert_eq!(swap_with_slippage(1000, 1000, 25, 10000, true, 10, true, 10001), Err(SwapError::Validation));
    assert_eq!(swap_with_slippage(0, 1000, 25, 10000, true, 10, true, 10), Err(SwapError::Arithmetic));
    assert_eq!(swap_with_slippage(1000, 1000, 25, 0, true, 10, true, 10), Err(SwapError::Arithmetic));
    assert_eq!(swap_with_slippage(1000, 1000, 25, 10000, true, 1000, false, 10), Err(SwapError::Arithmetic));
    assert_eq!(swap_with_slippage(1000, 1000, 10000, 10000, true, 10, false, 10), Err(SwapError::Arithmetic));
    assert_eq!(swap_with_slippage(u64::MAX, u64::MAX, 0, 1, true, u64::MAX - 1, false, 0), Err(SwapError::Arithmetic));
}

#[test]
fn direction_flips_with_mints() {
    let s = state(6);
    let a = input(key(200), key(300), 1_000_000, SwapExecutionMode::ExactIn, 100);
    let b = input(key(300), key(200), 1_000_000, SwapExecutionMode::ExactIn, 100);
    let qa = quote_from_reserves(&a, key(100), &amm_keys(), &market_keys(), &s, 2_000_000_000, 1_000_000_000).unwrap();
    let qb = quote_from_reserves(&b, key(100), &amm_keys(), &market_keys(), &s, 2_000_000_000, 1_000_000_000).unwrap();
    assert_eq!((qa.input_mint_decimals, qa.output_mint_decimals), (9, 6));
    assert_eq!((qb.input_mint_decimals, qb.output_mint_decimals), (6, 9));
    assert_eq!(qa.other_amount, 1_993_012);
    assert_eq!(qb.other_amount, 498_502);
}

#[test]
fn wrong_sizes_fail_decode() {
    for len in [0usize, 1, 164, 166, 751, 753, 3227, 3229] {
        let b = vec![1u8; len];
        assert_eq!(decode_pool_state(&b), Err(SwapError::Decode));
        assert_eq!(decode_token_amount(&b), Err(SwapError::Decode));
        assert_eq!(decode_open_orders(&b), Err(SwapError::Decode));
    }
    // a token account that was never initialised is refused too
    assert_eq!(decode_token_amount(&vec![0u8; 165]), Err(SwapError::Decode));
}

#[test]
fn decodes_fixed_layouts() {
    let s = decode_pool_state(&pool_blob(6, 3, 4)).unwrap();
    let mut expected = state(6);
    expected.need_take_pnl_coin = 3;
    expected.need_take_pnl_pc = 4;
    assert_eq!(s, expected);
    assert_eq!(decode_token_amount(&token_blob(&key(1), 123_456_789_012)), Ok(123_456_789_012));
    assert_eq!(
        decode_open_orders(&open_orders_blob(5, 6)),
        Ok(OpenOrdersTotals { native_coin_total: 5, native_pc_total: 6 })
    );
}

#[test]
fn reserves_by_mode() {
    let mut s = state(1);
    s.need_take_pnl_pc = 10;
    s.need_take_pnl_coin = 20;
    assert_eq!(pool_reserves(1000, 2000, &s, PoolMode::Plain), Ok((990, 1980)));
    let t = OrderBookTotals { coin: 7, pc: 5 };
    assert_eq!(pool_reserves(1000, 2000, &s, PoolMode::OrderBook(t)), Ok((995, 1987)));
    let back = OrderBookTotals { coin: -7, pc: -5 };
    assert_eq!(pool_reserves(1000, 2000, &s, PoolMode::OrderBook(back)), Ok((985, 1973)));
    assert_eq!(pool_reserves(5, 2000, &s, PoolMode::Plain), Err(SwapError::Arithmetic));
    let big = OrderBookTotals { coin: 0, pc: u64::MAX as i128 };
    assert_eq!(pool_reserves(1000, 2000, &s, PoolMode::OrderBook(big)), Err(SwapError::Arithmetic));
    let huge = OrderBookTotals { coin: 0, pc: i128::MIN };
    assert_eq!(pool_reserves(1000, 2000, &s, PoolMode::OrderBook(huge)), Err(SwapError::Arithmetic));
}

#[test]
fn quote_from_snapshot() {
    let req = input(key(200), key(300), 1_000_000, SwapExecutionMode::ExactIn, 100);
    let q = executor().quote(&req, key(100), &amm_keys(), &market_keys(), &snapshot(6, 2_000_000_000, 1_000_000_000)).unwrap();
    assert_eq!(q.market, key(100));
    assert_eq!(q.other_amount, 1_993_012);
    assert_eq!(q.other_amount_threshold, 1_973_081);
    assert!(q.amount_specified_is_input);
    assert_eq!(q.amm_keys, amm_keys());
    assert_eq!(q.market_keys, market_keys());
}

#[test]
fn quote_with_order_book() {
    let req = input(key(200), key(300), 1_000_000, SwapExecutionMode::ExactIn, 100);
    let mut snap = snapshot(1, 1_999_000_000, 999_000_000);
    snap[4] = Some(open_orders_blob(1_000_000, 1_000_000));
    let q = executor().quote(&req, key(100), &amm_keys(), &market_keys(), &snap).unwrap();
    assert_eq!(q.other_amount, 1_993_012);
    snap[6] = Some(vec![0u8; 45]);
    assert_eq!(executor().quote(&req, key(100), &amm_keys(), &market_keys(), &snap), Err(SwapError::Decode));
    snap[6] = None;
    assert_eq!(executor().quote(&req, key(100), &amm_keys(), &market_keys(), &snap), Err(SwapError::NotFound));
    snap[5] = Some(vec![0u8; 389]);
    assert_eq!(executor().quote(&req, key(100), &amm_keys(), &market_keys(), &snap), Err(SwapError::Decode));
    snap[4] = None;
    assert_eq!(executor().quote(&req, key(100), &amm_keys(), &market_keys(), &snap), Err(SwapError::NotFound));
}

#[test]
fn unsettled_fills_move_reserves() {
    let oo = OpenOrdersTotals { native_coin_total: 100, native_pc_total: 200 };
    let fills = [
        // a bid filled as maker for the pool: pc paid out, coin received, rebate
        (13u8, key(900), 1000, 5000, 10),
        // an ask filled as maker for the pool: coin paid out, pc received, rebate
        (9u8, key(900), 700, 40, 3),
        // a taker fill and another account's fill change nothing
        (5u8, key(900), 1, 1, 1),
        (13u8, key(901), 1, 1, 1),
    ];
    let q = event_queue_blob(5, 3, &fills);
    let t = merge_event_queue(oo, &q, key(900)).unwrap();
    assert_eq!(t, OrderBookTotals { pc: 200 + 10 - 5000 + 700 + 3, coin: 100 + 1000 - 40 });
    assert_eq!(merge_event_queue(oo, &q[..q.len() - 1], key(900)), Err(SwapError::Decode));
    assert_eq!(merge_event_queue(oo, &event_queue_blob(2, 2, &[]), key(900)), Err(SwapError::Decode));
    let mut over = event_queue_blob(2, 0, &[]);
    put_u64(&mut over, 21, 3);
    assert_eq!(merge_event_queue(oo, &over, key(900)), Err(SwapError::Decode));
}

#[test]
fn quote_merges_event_queue() {
    let req = input(key(200), key(300), 1_000_000, SwapExecutionMode::ExactIn, 100);
    let mut snap = snapshot(1, 1_999_000_000, 999_000_000);
    snap[4] = Some(open_orders_blob(1_000_000, 1_005_000));
    // an unsettled maker bid: 5000 pc went out, 0 coin came in yet
    snap[6] = Some(event_queue_blob(4, 1, &[(13u8, key(900), 0, 5000, 0)]));
    let q = executor().quote(&req, key(100), &amm_keys(), &market_keys(), &snap).unwrap();
    assert_eq!(q.other_amount, 1_993_012);
}

#[test]
fn quote_snapshot_errors() {
    let req = input(key(200), key(300), 1_000_000, SwapExecutionMode::ExactIn, 100);
    let amm = executor();
    let mut snap = snapshot(6, 2_000_000_000, 1_000_000_000);
    snap.pop();
    assert_eq!(amm.quote(&req, key(100), &amm_keys(), &market_keys(), &snap), Err(SwapError::Upstream));
    let mut snap = snapshot(6, 2_000_000_000, 1_000_000_000);
    snap[0] = None;
    assert_eq!(amm.quote(&req, key(100), &amm_keys(), &market_keys(), &snap), Err(SwapError::NotFound));
    let mut snap = snapshot(6, 2_000_000_000, 1_000_000_000);
    snap[0] = Some(vec![0u8; 751]);
    assert_eq!(amm.quote(&req, key(100), &amm_keys(), &market_keys(), &snap), Err(SwapError::Decode));
    let mut snap = snapshot(6, 2_000_000_000, 1_000_000_000);
    snap[2] = Some(vec![0u8; 100]);
    assert_eq!(amm.quote(&req, key(100), &amm_keys(), &market_keys(), &snap), Err(SwapError::Decode));
    let mut snap = snapshot(6, 2_000_000_000, 1_000_000_000);
    snap[1] = Some(vec![0u8; 2209]);
    assert_eq!(amm.quote(&req, key(100), &amm_keys(), &market_keys(), &snap), Err(SwapError::Decode));
    let mut snap = snapshot(6, 2_000_000_000, 1_000_000_000);
    snap[3] = Some(vec![0u8; 164]);
    assert_eq!(amm.quote(&req, key(100), &amm_keys(), &market_keys(), &snap), Err(SwapError::Decode));
    let snap = snapshot(9, 2_000_000_000, 1_000_000_000);
    assert_eq!(amm.quote(&req, key(100), &amm_keys(), &market_keys(), &snap), Err(SwapError::Decode));
    let snap = snapshot(6, 0, 1_000_000_000);
    assert_eq!(amm.quote(&req, key(100), &amm_keys(), &market_keys(), &snap), Err(SwapError::Arithmetic));
}

#[test]
fn pubkey_words_are_little_endian() {
    let mut b = [0u8; 32];
    b[0] = 1;
    b[9] = 2;
    b[31] = 0x80;
    let k = Pubkey::new_from_array(b);
    assert_eq!(k, Pubkey { w0: 1, w1: 0x200, w2: 0, w3: 0x8000_0000_0000_0000 });
}
