use vstd::prelude::*;
use crate::bytes::{key_bytes, low_bytes, pubkey_at, push_u64, read_pubkey};
use crate::error::SwapError;
use crate::keys::{AmmKeys, MarketKeys, MarketPubkeys};
use crate::layout::{decode_market, decode_pool_state, market_state_of, pool_state_of, MarketState};
use crate::types::Pubkey;

verus! {

/// Seeds an address derivation takes at most.
pub const MAX_SEEDS: usize = 16;

/// Bytes a seed holds at most.
pub const MAX_SEED_LEN: usize = 32;

/// The 32 bytes of the associated token account of a wallet for a mint.
pub uninterp spec fn associated_address(wallet: Seq<u8>, mint: Seq<u8>) -> Seq<u8>;

/// The 32 bytes of the program address that `seeds` give under `program`, or
/// `None` when the hash of the seeds falls on the curve.
pub uninterp spec fn program_address(seeds: Seq<Seq<u8>>, program: Seq<u8>) -> Option<Seq<u8>>;

/// Whether seeds are few and short enough to derive an address from.
pub open spec fn seeds_within_limits(seeds: Seq<Seq<u8>>) -> bool {
    seeds.len() <= MAX_SEEDS && forall|i: int| 0 <= i < seeds.len() ==> #[trigger] seeds[i].len() <= MAX_SEED_LEN
}

/// Relies on spl_associated_token_account::get_associated_token_address, which
/// derives the address from the wallet and the mint alone. It panics only when no
/// bump seed gives an address off the curve, which has probability about 2^-255.
#[verifier::external_body]
fn associated_address_bytes(wallet: &[u8], mint: &[u8]) -> (r: Vec<u8>)
    requires
        wallet@.len() == 32,
        mint@.len() == 32,
    ensures
        r@ == associated_address(wallet@, mint@),
        r@.len() == 32,
{
    let wallet = solana_program::pubkey::Pubkey::try_from(wallet).unwrap();
    let mint = solana_program::pubkey::Pubkey::try_from(mint).unwrap();
    spl_associated_token_account::get_associated_token_address(&wallet, &mint).to_bytes().to_vec()
}

/// Relies on solana_program's `Pubkey::create_program_address`: it fails, without
/// panicking, on more than 16 seeds, on a seed over 32 bytes, or when the hash of
/// the seeds falls on the curve; the outcome depends on its arguments alone.
#[verifier::external_body]
fn program_address_bytes(seeds: &Vec<Vec<u8>>, program: &[u8]) -> (r: Option<Vec<u8>>)
    requires
        program@.len() == 32,
    ensures
        r is Some <==> (seeds_within_limits(seeds.deep_view()) && program_address(
            seeds.deep_view(),
            program@,
        ) is Some),
        r is Some ==> r->0@ == program_address(seeds.deep_view(), program@)->0 && r->0@.len() == 32,
{
    let seeds: Vec<&[u8]> = seeds.iter().map(|s| s.as_slice()).collect();
    let program = solana_program::pubkey::Pubkey::try_from(program).unwrap();
    solana_program::pubkey::Pubkey::create_program_address(&seeds, &program).ok().map(|a| a.to_bytes().to_vec())
}

/// The address that seeds within the limits give under `program`, if any.
pub open spec fn derived(seeds: Seq<Seq<u8>>, program: Pubkey) -> Option<Pubkey> {
    match program_address(seeds, key_bytes(program)) {
        Some(b) => Some(pubkey_at(b, 0)),
        None => None,
    }
}

/// The associated token account of `wallet` for `mint`.
pub open spec fn ata_of(wallet: Pubkey, mint: Pubkey) -> Pubkey {
    pubkey_at(associated_address(key_bytes(wallet), key_bytes(mint)), 0)
}

pub fn associated_token_address(wallet: &Pubkey, mint: &Pubkey) -> (r: Pubkey)
    ensures
        r == ata_of(*wallet, *mint),
{
    let w = wallet.to_bytes();
    let m = mint.to_bytes();
    let a = associated_address_bytes(w.as_slice(), m.as_slice());
    read_pubkey(a.as_slice(), 0)
}

/// The program address that `seeds` give under `program`, if there is one.
pub fn create_program_address(seeds: &Vec<Vec<u8>>, program: &Pubkey) -> (r: Option<Pubkey>)
    ensures
        r == (if seeds_within_limits(seeds.deep_view()) {
            derived(seeds.deep_view(), *program)
        } else {
            None
        }),
{
    let p = program.to_bytes();
    match program_address_bytes(seeds, p.as_slice()) {
        Some(a) => Some(read_pubkey(a.as_slice(), 0)),
        None => None,
    }
}

/// The seed the pool program signs with: "amm authority".
pub open spec fn authority_seed() -> Seq<u8> {
    seq![97u8, 109, 109, 32, 97, 117, 116, 104, 111, 114, 105, 116, 121]
}

/// The seeds of a pool's authority.
pub open spec fn authority_seeds(nonce: u8) -> Seq<Seq<u8>> {
    seq![authority_seed(), seq![nonce]]
}

/// The seeds of a market's vault signer.
pub open spec fn vault_signer_seeds(market: Pubkey, nonce: u64) -> Seq<Seq<u8>> {
    seq![key_bytes(market), low_bytes(nonce, 8)]
}

/// The authority of the pools of `program`, from the nonce a pool stores; a nonce
/// that gives no address is a decode failure.
pub fn amm_authority(program: &Pubkey, nonce: u8) -> (r: Result<Pubkey, SwapError>)
    ensures
        r == match derived(authority_seeds(nonce), *program) {
            Some(a) => Ok::<Pubkey, SwapError>(a),
            None => Err::<Pubkey, SwapError>(SwapError::Decode),
        },
{
    let seed = vec![97u8, 109, 109, 32, 97, 117, 116, 104, 111, 114, 105, 116, 121];
    let seeds = vec![seed, vec![nonce]];
    assert(seeds.deep_view() =~= authority_seeds(nonce)) by {
        assert(seeds@[0].deep_view() =~= authority_seed());
        assert(seeds@[1].deep_view() =~= seq![nonce]);
    }
    assert(seeds_within_limits(authority_seeds(nonce)));
    match create_program_address(&seeds, program) {
        Some(a) => Ok(a),
        None => Err(SwapError::Decode),
    }
}

/// The vault signer of a market, from the nonce the market stores; a nonce that
/// gives no address is a decode failure.
pub fn vault_signer_key(market: &Pubkey, nonce: u64, program: &Pubkey) -> (r: Result<Pubkey, SwapError>)
    ensures
        r == match derived(vault_signer_seeds(*market, nonce), *program) {
            Some(a) => Ok::<Pubkey, SwapError>(a),
            None => Err::<Pubkey, SwapError>(SwapError::Decode),
        },
{
    let mut n: Vec<u8> = Vec::new();
    push_u64(&mut n, nonce);
    assert(n@ =~= low_bytes(nonce, 8));
    let seeds = vec![market.to_bytes(), n];
    assert(seeds.deep_view() =~= vault_signer_seeds(*market, nonce)) by {
        assert(seeds@[0].deep_view() =~= key_bytes(*market));
        assert(seeds@[1].deep_view() =~= low_bytes(nonce, 8));
    }
    assert(seeds_within_limits(vault_signer_seeds(*market, nonce)));
    match create_program_address(&seeds, program) {
        Some(a) => Ok(a),
        None => Err(SwapError::Decode),
    }
}

/// A pool's keys read from its own state account, with the authority derived from
/// the nonce it stores.
pub fn load_amm_keys(program: &Pubkey, pool_id: Pubkey, pool_account: &[u8]) -> (r: Result<AmmKeys, SwapError>)
    ensures
        pool_account@.len() != 752 ==> r == Err::<AmmKeys, SwapError>(SwapError::Decode),
        pool_account@.len() == 752 ==> ({
            let s = pool_state_of(pool_account@);
            r == match derived(authority_seeds(s.nonce as u8), *program) {
                None => Err::<AmmKeys, SwapError>(SwapError::Decode),
                Some(authority) => Ok::<AmmKeys, SwapError>(
                    AmmKeys {
                        amm_pool: pool_id,
                        amm_coin_mint: s.coin_mint,
                        amm_pc_mint: s.pc_mint,
                        amm_authority: authority,
                        amm_target: s.target_orders,
                        amm_coin_vault: s.coin_vault,
                        amm_pc_vault: s.pc_vault,
                        amm_lp_mint: s.lp_mint,
                        amm_open_order: s.open_orders,
                        market_program: s.market_program,
                        market: s.market,
                        nonce: 0,
                    },
                ),
            }
        }),
{
    let state = decode_pool_state(pool_account)?;
    let authority = amm_authority(program, state.nonce as u8)?;
    Ok(AmmKeys::from_pool_state(pool_id, &state, authority))
}

/// The addresses of a market account and its derived vault signer.
pub fn market_pubkeys(market: Pubkey, state: &MarketState, vault_signer_key: Pubkey) -> (r: MarketPubkeys)
    ensures
        r == (MarketPubkeys {
            market,
            req_q: state.req_q,
            event_q: state.event_q,
            bids: state.bids,
            asks: state.asks,
            coin_vault: state.coin_vault,
            pc_vault: state.pc_vault,
            vault_signer_key,
        }),
{
    MarketPubkeys {
        market,
        req_q: state.req_q,
        event_q: state.event_q,
        bids: state.bids,
        asks: state.asks,
        coin_vault: state.coin_vault,
        pc_vault: state.pc_vault,
        vault_signer_key,
    }
}

/// A market's keys read from its own account under `market_program`.
pub fn get_keys_for_market(market_program: &Pubkey, market: &Pubkey, market_account: &[u8]) -> (r: Result<MarketKeys, SwapError>)
    ensures
        market_account@.len() != 388 ==> r == Err::<MarketKeys, SwapError>(SwapError::Decode),
        market_account@.len() == 388 ==> ({
            let s = market_state_of(market_account@);
            r == match derived(vault_signer_seeds(*market, s.vault_signer_nonce), *market_program) {
                None => Err::<MarketKeys, SwapError>(SwapError::Decode),
                Some(signer) => Ok::<MarketKeys, SwapError>(
                    MarketKeys {
                        event_queue: s.event_q,
                        bids: s.bids,
                        asks: s.asks,
                        coin_vault: s.coin_vault,
                        pc_vault: s.pc_vault,
                        vault_signer_key: signer,
                    },
                ),
            }
        }),
{
    let state = decode_market(market_account)?;
    let signer = vault_signer_key(market, state.vault_signer_nonce, market_program)?;
    Ok(MarketKeys::from(&market_pubkeys(*market, &state, signer)))
}

} // verus!
