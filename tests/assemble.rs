use raydium_swap::assemble::{
    compute_unit_limit_instruction, compute_unit_price_instruction, swap_instruction, SwapStep,
    DEFAULT_COMPUTE_UNIT_LIMIT,
};
use raydium_swap::derive::associated_token_address;
use raydium_swap::error::SwapError;
use raydium_swap::executor::{
    resolve_cu_limits, resolve_priority_fee, resolve_wrap_and_unwrap_sol, RaydiumAmm,
    RaydiumAmmExecutorOpts, RaydiumAmmQuote,
};
use raydium_swap::keys::{
    amm_program_id, native_mint, quote_account_list, resolve_pool, select_pool, token_program_id,
    AmmKeys, BundleMarketKeys, MarketKeys, PoolCandidate, PoolKeyBundle,
};
use raydium_swap::types::{
    ComputeUnitLimits, PriorityFeeConfig, Pubkey, SwapConfig, SwapConfigOverrides,
};

fn key(n: u64) -> Pubkey {
    Pubkey { w0: n, w1: n + 1, w2: n + 2, w3: n + 3 }
}

fn amm_keys() -> AmmKeys {
    AmmKeys {
        amm_pool: key(100),
        amm_coin_mint: native_mint(),
        amm_pc_mint: key(300),
        amm_authority: key(400),
        amm_target: key(500),
        amm_coin_vault: key(600),
        amm_pc_vault: key(700),
        amm_lp_mint: key(800),
        amm_open_order: key(900),
        market_program: key(1000),
        market: key(1100),
        nonce: 0,
    }
}

fn market_keys() -> MarketKeys {
    MarketKeys {
        event_queue: key(1200),
        bids: key(1300),
        asks: key(1400),
        coin_vault: key(1500),
        pc_vault: key(1600),
        vault_signer_key: key(1700),
    }
}

fn quote(input_mint: Pubkey, output_mint: Pubkey, is_input: bool) -> RaydiumAmmQuote {
    RaydiumAmmQuote {
        market: key(100),
        input_mint,
        output_mint,
        amount: 1_000_000,
        other_amount: 1_993_012,
        other_amount_threshold: 1_973_081,
        amount_specified_is_input: is_input,
        input_mint_decimals: 9,
        output_mint_decimals: 6,
        amm_keys: amm_keys(),
        market_keys: market_keys(),
    }
}

fn rank(s: &SwapStep) -> u8 {
    match s {
        SwapStep::CreateAssociatedTokenAccount { .. } => 0,
        SwapStep::WrapNative { .. } => 1,
        SwapStep::Swap(_) => 2,
        SwapStep::UnwrapNative { .. } => 3,
        SwapStep::SetComputeUnitLimit(_) => 4,
        SwapStep::SetComputeUnitPrice(_) => 5,
    }
}

fn payer() -> Pubkey {
    let mut b = [7u8; 32];
    b[0] = 3;
    Pubkey::new_from_array(b)
}

#[test]
fn wrap_before_swap_before_budget() {
    let mut opts = RaydiumAmmExecutorOpts::new();
    opts.cu_limits = Some(ComputeUnitLimits::Fixed(300_000));
    opts.priority_fee = Some(PriorityFeeConfig::FixedCuPrice(5_000));
    let amm = RaydiumAmm::new(opts);
    let q = quote(native_mint(), key(300), true);
    let steps = amm.make_swap(payer(), &q, None, 0).unwrap();
    let ranks: Vec<u8> = steps.iter().map(rank).collect();
    assert_eq!(ranks, vec![0, 0, 1, 2, 4, 5]);
    let source = associated_token_address(&payer(), &native_mint());
    assert_eq!(steps[2], SwapStep::WrapNative { owner: payer(), account: source, lamports: 1_000_000 });
    assert_eq!(steps[4], SwapStep::SetComputeUnitLimit(300_000));
    assert_eq!(steps[5], SwapStep::SetComputeUnitPrice(5_000));
    match steps[3] {
        SwapStep::Swap(args) => {
            assert!(args.swap_base_in);
            assert_eq!(args.amount_specified, 1_000_000);
            assert_eq!(args.other_amount_threshold, 1_973_081);
            assert_eq!(args.user_source, source);
            assert_eq!(args.amm_program, amm_program_id());
        }
        _ => panic!("expected the swap"),
    }
}

#[test]
fn unwrap_native_output_and_exact_out() {
    let amm = RaydiumAmm::new(RaydiumAmmExecutorOpts::new());
    let q = quote(key(300), native_mint(), false);
    let steps = amm.make_swap(payer(), &q, None, DEFAULT_COMPUTE_UNIT_LIMIT).unwrap();
    let ranks: Vec<u8> = steps.iter().map(rank).collect();
    // with no compute-unit policy the estimate still sets the limit
    assert_eq!(ranks, vec![0, 0, 2, 3, 4]);
    assert_eq!(steps[4], SwapStep::SetComputeUnitLimit(DEFAULT_COMPUTE_UNIT_LIMIT));
    match steps[2] {
        SwapStep::Swap(args) => assert!(!args.swap_base_in),
        _ => panic!("expected the swap"),
    }
}

#[test]
fn overrides_take_precedence() {
    let mut opts = RaydiumAmmExecutorOpts::new();
    opts.cu_limits = Some(ComputeUnitLimits::Fixed(300_000));
    opts.priority_fee = Some(PriorityFeeConfig::FixedCuPrice(5_000));
    let amm = RaydiumAmm::new(opts);
    let o = SwapConfigOverrides {
        priority_fee: Some(PriorityFeeConfig::TotalLamports(10_000)),
        cu_limits: Some(ComputeUnitLimits::Dynamic),
        wrap_and_unwrap_sol: Some(false),
    };
    assert_eq!(resolve_cu_limits(Some(&o), &amm.config), Some(ComputeUnitLimits::Dynamic));
    assert_eq!(resolve_priority_fee(None, &amm.config), Some(PriorityFeeConfig::FixedCuPrice(5_000)));
    assert!(!resolve_wrap_and_unwrap_sol(Some(&o), &amm.config));
    let bare = SwapConfig { priority_fee: None, cu_limits: None, wrap_and_unwrap_sol: None, as_legacy_transaction: None };
    assert!(resolve_wrap_and_unwrap_sol(None, &bare));
    let q = quote(native_mint(), key(300), true);
    let steps = amm.make_swap(payer(), &q, Some(&o), 250_000).unwrap();
    let ranks: Vec<u8> = steps.iter().map(rank).collect();
    assert_eq!(ranks, vec![0, 0, 2, 4, 5]);
    assert_eq!(steps[3], SwapStep::SetComputeUnitLimit(250_000));
    // 10_000 lamports over 250_000 units is 40_000 micro-lamports a unit
    assert_eq!(steps[4], SwapStep::SetComputeUnitPrice(40_000));
}

#[test]
fn zero_limit_with_lamport_budget_fails() {
    let mut opts = RaydiumAmmExecutorOpts::new();
    opts.cu_limits = Some(ComputeUnitLimits::Fixed(0));
    opts.priority_fee = Some(PriorityFeeConfig::TotalLamports(1));
    let amm = RaydiumAmm::new(opts);
    let q = quote(key(200), key(300), true);
    assert_eq!(amm.make_swap(payer(), &q, None, 0), Err(SwapError::Validation));
    let mut opts = RaydiumAmmExecutorOpts::new();
    opts.cu_limits = Some(ComputeUnitLimits::Fixed(1));
    opts.priority_fee = Some(PriorityFeeConfig::TotalLamports(u64::MAX));
    let amm = RaydiumAmm::new(opts);
    assert_eq!(amm.make_swap(payer(), &q, None, 0), Err(SwapError::Arithmetic));
}

#[test]
fn swap_instruction_layout() {
    let ix = swap_instruction(&amm_program_id(), &amm_keys(), &market_keys(), &key(1), &key(2), &key(3), 1_000_000, 1_973_081, true);
    assert_eq!(ix.program_id, amm_program_id());
    assert_eq!(ix.accounts.len(), 17);
    assert_eq!(ix.accounts[0].pubkey, token_program_id());
    assert!(!ix.accounts[0].is_writable);
    assert_eq!(ix.accounts[1].pubkey, key(100));
    assert!(ix.accounts[1].is_writable);
    assert_eq!(ix.accounts[14].pubkey, key(2));
    assert_eq!(ix.accounts[15].pubkey, key(3));
    assert!(ix.accounts[16].is_signer);
    let mut data = vec![9u8];
    data.extend_from_slice(&1_000_000u64.to_le_bytes());
    data.extend_from_slice(&1_973_081u64.to_le_bytes());
    assert_eq!(ix.data, data);
    let out = swap_instruction(&amm_program_id(), &amm_keys(), &market_keys(), &key(1), &key(2), &key(3), 1_000_000, 1_010_000, false);
    let mut data = vec![11u8];
    data.extend_from_slice(&1_010_000u64.to_le_bytes());
    data.extend_from_slice(&1_000_000u64.to_le_bytes());
    assert_eq!(out.data, data);
}

#[test]
fn compute_budget_encodings() {
    let l = compute_unit_limit_instruction(300_000);
    let mut d = vec![2u8];
    d.extend_from_slice(&300_000u32.to_le_bytes());
    assert_eq!(l.data, d);
    assert!(l.accounts.is_empty());
    let p = compute_unit_price_instruction(40_000);
    let mut d = vec![3u8];
    d.extend_from_slice(&40_000u64.to_le_bytes());
    assert_eq!(p.data, d);
}

#[test]
fn associated_address_is_derived() {
    let a = associated_token_address(&payer(), &native_mint());
    let b = associated_token_address(&payer(), &key(300));
    assert_ne!(a, payer());
    assert_ne!(a, native_mint());
    assert_ne!(a, b);
    assert_eq!(a, associated_token_address(&payer(), &native_mint()));
}

#[test]
fn pool_selection_checks_program() {
    let other_program = key(5);
    let c = vec![
        PoolCandidate { id: key(10), program_id: amm_program_id(), mint_a: key(1), mint_b: key(9) },
        PoolCandidate { id: key(11), program_id: other_program, mint_a: key(1), mint_b: key(2) },
        PoolCandidate { id: key(12), program_id: amm_program_id(), mint_a: key(2), mint_b: key(1) },
        PoolCandidate { id: key(13), program_id: amm_program_id(), mint_a: key(1), mint_b: key(2) },
    ];
    assert_eq!(select_pool(&c, key(1), key(2)), Some(key(12)));
    assert_eq!(select_pool(&c, key(1), key(3)), None);
    assert_eq!(resolve_pool(None, &c, key(1), key(3)), Err(SwapError::NotFound));
    assert_eq!(resolve_pool(Some(key(77)), &c, key(1), key(3)), Ok(key(77)));
}

#[test]
fn keys_from_bundle() {
    let m = BundleMarketKeys {
        market_program_id: key(1000),
        market_id: key(1100),
        market_authority: key(1700),
        market_base_vault: key(1500),
        market_quote_vault: key(1600),
        market_bids: key(1300),
        market_asks: key(1400),
        market_event_queue: key(1200),
    };
    let mut b = PoolKeyBundle {
        id: key(100),
        mint_a: native_mint(),
        mint_b: key(300),
        vault_a: key(600),
        vault_b: key(700),
        authority: key(400),
        mint_lp: key(800),
        target_orders: Some(key(500)),
        open_orders: Some(key(900)),
        market: Some(m),
    };
    assert_eq!(AmmKeys::try_from(&b), Ok(amm_keys()));
    assert_eq!(MarketKeys::try_from(&b), Ok(market_keys()));
    let list = quote_account_list(key(100), &amm_keys(), &market_keys());
    assert_eq!(list, vec![key(100), key(500), key(700), key(600), key(900), key(1100), key(1200)]);
    b.open_orders = None;
    assert_eq!(AmmKeys::try_from(&b), Err(raydium_swap::error::SwapError::Decode));
    b.open_orders = Some(key(900));
    b.target_orders = None;
    assert_eq!(AmmKeys::try_from(&b), Err(SwapError::Decode));
    b.target_orders = Some(key(500));
    b.market = None;
    assert_eq!(AmmKeys::try_from(&b), Err(SwapError::Decode));
    assert_eq!(MarketKeys::try_from(&b), Err(SwapError::Decode));
}
