use raydium_swap::derive::{
    amm_authority, associated_token_address, create_program_address, get_keys_for_market,
    load_amm_keys, vault_signer_key,
};
use raydium_swap::error::SwapError;
use raydium_swap::keys::{amm_program_id, native_mint};
use raydium_swap::layout::decode_market;
use raydium_swap::types::Pubkey;

fn key(n: u64) -> Pubkey {
    Pubkey { w0: n, w1: n + 1, w2: n + 2, w3: n + 3 }
}

fn put_u64(buf: &mut [u8], off: usize, v: u64) {
    buf[off..off + 8].copy_from_slice(&v.to_le_bytes());
}

fn put_key(buf: &mut [u8], off: usize, k: &Pubkey) {
    for (i, w) in [k.w0, k.w1, k.w2, k.w3].iter().enumerate() {
        put_u64(buf, off + 8 * i, *w);
    }
}

fn authority() -> Pubkey {
    Pubkey { w0: 0xfcc5310f58b05741, w1: 0xd7f9bc2d58624ae4, w2: 0x93a384a04359e78e, w3: 0x89389228d3650b3 }
}

#[test]
fn pool_authority_from_nonce() {
    assert_eq!(amm_authority(&amm_program_id(), 254), Ok(authority()));
    assert_ne!(amm_authority(&amm_program_id(), 253), Ok(authority()));
}

#[test]
fn associated_token_address_known_value() {
    let mut b = [7u8; 32];
    b[0] = 3;
    let wallet = Pubkey::new_from_array(b);
    let expected = Pubkey { w0: 0xaf3098e870ad9a4c, w1: 0x9158df68ad9e4175, w2: 0xf5bf0a3a75f80b43, w3: 0xfd7ced96d49a2c60 };
    assert_eq!(associated_token_address(&wallet, &native_mint()), expected);
    assert_ne!(associated_token_address(&wallet, &key(1)), expected);
}

#[test]
fn too_many_seeds_give_no_address() {
    let seeds: Vec<Vec<u8>> = (0..17u8).map(|i| vec![i]).collect();
    assert_eq!(create_program_address(&seeds, &amm_program_id()), None);
    let long = vec![vec![1u8; 33]];
    assert_eq!(create_program_address(&long, &amm_program_id()), None);
}

#[test]
fn pool_keys_from_ledger() {
    let mut b = vec![0u8; 752];
    put_u64(&mut b, 8, 254);
    put_key(&mut b, 336, &key(600));
    put_key(&mut b, 368, &key(700));
    put_key(&mut b, 400, &key(200));
    put_key(&mut b, 432, &key(300));
    put_key(&mut b, 464, &key(800));
    put_key(&mut b, 496, &key(900));
    put_key(&mut b, 528, &key(1100));
    put_key(&mut b, 560, &key(1000));
    put_key(&mut b, 592, &key(500));
    let k = load_amm_keys(&amm_program_id(), key(100), &b).unwrap();
    assert_eq!(k.amm_pool, key(100));
    assert_eq!(k.amm_authority, authority());
    assert_eq!(k.amm_coin_mint, key(200));
    assert_eq!(k.amm_pc_mint, key(300));
    assert_eq!(k.amm_target, key(500));
    assert_eq!(k.amm_open_order, key(900));
    assert_eq!(k.market, key(1100));
    assert_eq!(k.market_program, key(1000));
    assert_eq!(load_amm_keys(&amm_program_id(), key(100), &b[..751]), Err(SwapError::Decode));
}

#[test]
fn market_keys_from_ledger() {
    let mut m = vec![0u8; 388];
    put_key(&mut m, 13, &key(1100));
    put_key(&mut m, 117, &key(1500));
    put_key(&mut m, 165, &key(1600));
    put_key(&mut m, 221, &key(1800));
    put_key(&mut m, 253, &key(1200));
    put_key(&mut m, 285, &key(1300));
    put_key(&mut m, 317, &key(1400));
    let state = decode_market(&m).unwrap();
    assert_eq!(state.event_q, key(1200));
    assert_eq!(state.req_q, key(1800));
    // find a nonce whose address is off the curve
    let mut nonce = 0u64;
    let signer = loop {
        if let Ok(s) = vault_signer_key(&key(1100), nonce, &key(1000)) {
            break s;
        }
        nonce += 1;
    };
    put_u64(&mut m, 45, nonce);
    let keys = get_keys_for_market(&key(1000), &key(1100), &m).unwrap();
    assert_eq!(keys.event_queue, key(1200));
    assert_eq!(keys.bids, key(1300));
    assert_eq!(keys.asks, key(1400));
    assert_eq!(keys.coin_vault, key(1500));
    assert_eq!(keys.pc_vault, key(1600));
    assert_eq!(keys.vault_signer_key, signer);
    assert_ne!(signer, key(1100));
    assert_eq!(get_keys_for_market(&key(1000), &key(1100), &m[..387]), Err(SwapError::Decode));
}
