use vstd::prelude::*;
use crate::error::SwapError;
use crate::layout::PoolState;
use crate::types::Pubkey;

verus! {

/// The constant-product pool program.
pub open spec fn spec_amm_program_id() -> Pubkey {
    Pubkey {
        w0: 0x3fc30236c449d94b,
        w1: 0x4c52a316ed907720,
        w2: 0xa9a221f15c97b9a1,
        w3: 0xcd8ab6f87decff0c,
    }
}

/// The fungible-token program.
pub open spec fn spec_token_program_id() -> Pubkey {
    Pubkey {
        w0: 0x93a165d7e1f6dd06,
        w1: 0xac79ebce46e1cbd9,
        w2: 0x91375b5fed85b41c,
        w3: 0xa900ff7e85f58c3a,
    }
}

/// The wrapped form of the chain's native token.
pub open spec fn spec_native_mint() -> Pubkey {
    Pubkey {
        w0: 0x8481abfe57889b06,
        w1: 0x35c01846637f68fb,
        w2: 0x553beb1adc39c4da,
        w3: 0x100000000f0a098,
    }
}

pub fn amm_program_id() -> (r: Pubkey)
    ensures
        r == spec_amm_program_id(),
{
    Pubkey {
        w0: 0x3fc30236c449d94b,
        w1: 0x4c52a316ed907720,
        w2: 0xa9a221f15c97b9a1,
        w3: 0xcd8ab6f87decff0c,
    }
}

pub fn token_program_id() -> (r: Pubkey)
    ensures
        r == spec_token_program_id(),
{
    Pubkey {
        w0: 0x93a165d7e1f6dd06,
        w1: 0xac79ebce46e1cbd9,
        w2: 0x91375b5fed85b41c,
        w3: 0xa900ff7e85f58c3a,
    }
}

pub fn native_mint() -> (r: Pubkey)
    ensures
        r == spec_native_mint(),
{
    Pubkey {
        w0: 0x8481abfe57889b06,
        w1: 0x35c01846637f68fb,
        w2: 0x553beb1adc39c4da,
        w3: 0x100000000f0a098,
    }
}

/// The addresses of a pool that quoting and swapping need.
#[derive(Debug, Clone, Copy, PartialEq, Eq, Structural)]
pub struct AmmKeys {
    pub amm_pool: Pubkey,
    pub amm_coin_mint: Pubkey,
    pub amm_pc_mint: Pubkey,
    pub amm_authority: Pubkey,
    pub amm_target: Pubkey,
    pub amm_coin_vault: Pubkey,
    pub amm_pc_vault: Pubkey,
    pub amm_lp_mint: Pubkey,
    pub amm_open_order: Pubkey,
    pub market_program: Pubkey,
    pub market: Pubkey,
    pub nonce: u8,
}

/// The addresses of the order-book market coupled to a pool.
#[derive(Debug, Clone, Copy, PartialEq, Eq, Structural)]
pub struct MarketKeys {
    pub event_queue: Pubkey,
    pub bids: Pubkey,
    pub asks: Pubkey,
    pub coin_vault: Pubkey,
    pub pc_vault: Pubkey,
    pub vault_signer_key: Pubkey,
}

/// A market's addresses as read from the market account itself.
#[derive(Debug, Clone, Copy, PartialEq, Eq, Structural)]
pub struct MarketPubkeys {
    pub market: Pubkey,
    pub req_q: Pubkey,
    pub event_q: Pubkey,
    pub bids: Pubkey,
    pub asks: Pubkey,
    pub coin_vault: Pubkey,
    pub pc_vault: Pubkey,
    pub vault_signer_key: Pubkey,
}

/// The market part of a key bundle from the metadata service.
#[derive(Debug, Clone, Copy, PartialEq, Eq, Structural)]
pub struct BundleMarketKeys {
    pub market_program_id: Pubkey,
    pub market_id: Pubkey,
    pub market_authority: Pubkey,
    pub market_base_vault: Pubkey,
    pub market_quote_vault: Pubkey,
    pub market_bids: Pubkey,
    pub market_asks: Pubkey,
    pub market_event_queue: Pubkey,
}

/// A pool's key bundle as the metadata service returns it.
#[derive(Debug, Clone, Copy, PartialEq, Eq, Structural)]
pub struct PoolKeyBundle {
    pub id: Pubkey,
    pub mint_a: Pubkey,
    pub mint_b: Pubkey,
    pub vault_a: Pubkey,
    pub vault_b: Pubkey,
    pub authority: Pubkey,
    pub mint_lp: Pubkey,
    pub target_orders: Option<Pubkey>,
    pub open_orders: Option<Pubkey>,
    pub market: Option<BundleMarketKeys>,
}

/// Whether a bundle holds every sub-key that swapping needs.
pub open spec fn bundle_complete(b: PoolKeyBundle) -> bool {
    b.target_orders is Some && b.open_orders is Some && b.market is Some
}

impl MarketKeys {
    pub fn from(keys: &MarketPubkeys) -> (r: MarketKeys)
        ensures
            r == (MarketKeys {
                event_queue: keys.event_q,
                bids: keys.bids,
                asks: keys.asks,
                coin_vault: keys.coin_vault,
                pc_vault: keys.pc_vault,
                vault_signer_key: keys.vault_signer_key,
            }),
    {
        MarketKeys {
            event_queue: keys.event_q,
            bids: keys.bids,
            asks: keys.asks,
            coin_vault: keys.coin_vault,
            pc_vault: keys.pc_vault,
            vault_signer_key: keys.vault_signer_key,
        }
    }

    pub fn from_bundle_market(keys: &BundleMarketKeys) -> (r: MarketKeys)
        ensures
            r == (MarketKeys {
                event_queue: keys.market_event_queue,
                bids: keys.market_bids,
                asks: keys.market_asks,
                coin_vault: keys.market_base_vault,
                pc_vault: keys.market_quote_vault,
                vault_signer_key: keys.market_authority,
            }),
    {
        MarketKeys {
            event_queue: keys.market_event_queue,
            bids: keys.market_bids,
            asks: keys.market_asks,
            coin_vault: keys.market_base_vault,
            pc_vault: keys.market_quote_vault,
            vault_signer_key: keys.market_authority,
        }
    }

    /// The market keys of a bundle; a bundle without them is a decode failure.
    pub fn try_from(keys: &PoolKeyBundle) -> (r: Result<MarketKeys, SwapError>)
        ensures
            keys.market is None ==> r == Err::<MarketKeys, SwapError>(SwapError::Decode),
            keys.market is Some ==> r is Ok && r->Ok_0.event_queue == keys.market->0.market_event_queue
                && r->Ok_0.bids == keys.market->0.market_bids && r->Ok_0.asks
                == keys.market->0.market_asks && r->Ok_0.coin_vault
                == keys.market->0.market_base_vault && r->Ok_0.pc_vault
                == keys.market->0.market_quote_vault && r->Ok_0.vault_signer_key
                == keys.market->0.market_authority,
    {
        match &keys.market {
            Some(m) => Ok(MarketKeys::from_bundle_market(m)),
            None => Err(SwapError::Decode),
        }
    }
}

impl AmmKeys {
    /// The pool keys of a bundle; a bundle that lacks the target orders, the open
    /// orders or the market keys is a decode failure.
    pub fn try_from(keys: &PoolKeyBundle) -> (r: Result<AmmKeys, SwapError>)
        ensures
            !bundle_complete(*keys) ==> r == Err::<AmmKeys, SwapError>(SwapError::Decode),
            bundle_complete(*keys) ==> r == Ok::<AmmKeys, SwapError>(
                (AmmKeys {
                    amm_pool: keys.id,
                    amm_coin_mint: keys.mint_a,
                    amm_pc_mint: keys.mint_b,
                    amm_authority: keys.authority,
                    amm_target: keys.target_orders->0,
                    amm_coin_vault: keys.vault_a,
                    amm_pc_vault: keys.vault_b,
                    amm_lp_mint: keys.mint_lp,
                    amm_open_order: keys.open_orders->0,
                    market_program: keys.market->0.market_program_id,
                    market: keys.market->0.market_id,
                    nonce: 0,
                }),
            ),
    {
        let market = match &keys.market {
            Some(m) => m,
            None => {
                return Err(SwapError::Decode);
            },
        };
        let target = match keys.target_orders {
            Some(t) => t,
            None => {
                return Err(SwapError::Decode);
            },
        };
        let open_orders = match keys.open_orders {
            Some(o) => o,
            None => {
                return Err(SwapError::Decode);
            },
        };
        Ok(
            AmmKeys {
                amm_pool: keys.id,
                amm_coin_mint: keys.mint_a,
                amm_pc_mint: keys.mint_b,
                amm_authority: keys.authority,
                amm_target: target,
                amm_coin_vault: keys.vault_a,
                amm_pc_vault: keys.vault_b,
                amm_lp_mint: keys.mint_lp,
                amm_open_order: open_orders,
                market_program: market.market_program_id,
                market: market.market_id,
                nonce: 0,
            },
        )
    }

    /// The pool keys that a pool's own state account gives, with the pool's
    /// authority.
    pub fn from_pool_state(pool_id: Pubkey, state: &PoolState, authority: Pubkey) -> (r: AmmKeys)
        ensures
            r == (AmmKeys {
                amm_pool: pool_id,
                amm_coin_mint: state.coin_mint,
                amm_pc_mint: state.pc_mint,
                amm_authority: authority,
                amm_target: state.target_orders,
                amm_coin_vault: state.coin_vault,
                amm_pc_vault: state.pc_vault,
                amm_lp_mint: state.lp_mint,
                amm_open_order: state.open_orders,
                market_program: state.market_program,
                market: state.market,
                nonce: 0,
            }),
    {
        AmmKeys {
            amm_pool: pool_id,
            amm_coin_mint: state.coin_mint,
            amm_pc_mint: state.pc_mint,
            amm_authority: authority,
            amm_target: state.target_orders,
            amm_coin_vault: state.coin_vault,
            amm_pc_vault: state.pc_vault,
            amm_lp_mint: state.lp_mint,
            amm_open_order: state.open_orders,
            market_program: state.market_program,
            market: state.market,
            nonce: 0,
        }
    }
}

/// A pool that the metadata service lists for a pair of mints.
#[derive(Debug, Clone, Copy, PartialEq, Eq, Structural)]
pub struct PoolCandidate {
    pub id: Pubkey,
    pub program_id: Pubkey,
    pub mint_a: Pubkey,
    pub mint_b: Pubkey,
}

/// Whether a candidate trades exactly this pair, in either order, under the
/// known pool program.
pub open spec fn candidate_matches(c: PoolCandidate, input: Pubkey, output: Pubkey) -> bool {
    ((c.mint_a == input && c.mint_b == output) || (c.mint_a == output && c.mint_b == input))
        && c.program_id == spec_amm_program_id()
}

pub fn matches_pair(c: &PoolCandidate, input: Pubkey, output: Pubkey) -> (r: bool)
    ensures
        r == candidate_matches(*c, input, output),
{
    let program = amm_program_id();
    ((c.mint_a == input && c.mint_b == output) || (c.mint_a == output && c.mint_b == input))
        && c.program_id == program
}

/// The first candidate, in the service's order, that trades the pair under the
/// known pool program.
pub fn select_pool(candidates: &Vec<PoolCandidate>, input: Pubkey, output: Pubkey) -> (r: Option<Pubkey>)
    ensures
        r is None <==> forall|i: int|
            0 <= i < candidates@.len() ==> !candidate_matches(#[trigger] candidates@[i], input, output),
        r is Some ==> exists|i: int|
            0 <= i < candidates@.len() && candidate_matches(#[trigger] candidates@[i], input, output)
                && candidates@[i].id == r->0 && forall|j: int|
                0 <= j < i ==> !candidate_matches(#[trigger] candidates@[j], input, output),
{
    let mut i: usize = 0;
    while i < candidates.len()
        invariant
            0 <= i <= candidates@.len(),
            forall|j: int| 0 <= j < i ==> !candidate_matches(#[trigger] candidates@[j], input, output),
        decreases candidates@.len() - i,
    {
        if matches_pair(&candidates[i], input, output) {
            return Some(candidates[i].id);
        }
        i = i + 1;
    }
    None
}

/// Resolves the pool to quote against: the caller's choice verbatim, else the
/// first matching candidate; none is a `NotFound`.
pub fn resolve_pool(explicit: Option<Pubkey>, candidates: &Vec<PoolCandidate>, input: Pubkey, output: Pubkey) -> (r: Result<Pubkey, SwapError>)
    ensures
        explicit is Some ==> r == Ok::<Pubkey, SwapError>(explicit->0),
        explicit is None ==> (r is Err <==> forall|i: int|
            0 <= i < candidates@.len() ==> !candidate_matches(#[trigger] candidates@[i], input, output)),
        explicit is None && r is Err ==> r == Err::<Pubkey, SwapError>(SwapError::NotFound),
        explicit is None && r is Ok ==> exists|i: int|
            0 <= i < candidates@.len() && candidate_matches(#[trigger] candidates@[i], input, output)
                && candidates@[i].id == r->Ok_0 && forall|j: int|
                0 <= j < i ==> !candidate_matches(#[trigger] candidates@[j], input, output),
{
    match explicit {
        Some(id) => Ok(id),
        None => match select_pool(candidates, input, output) {
            Some(id) => Ok(id),
            None => Err(SwapError::NotFound),
        },
    }
}

/// The accounts read in one batch for a quote, in the order the quote reads them.
pub fn quote_account_list(pool_id: Pubkey, amm_keys: &AmmKeys, market_keys: &MarketKeys) -> (r: Vec<Pubkey>)
    ensures
        r@ == seq![
            pool_id,
            amm_keys.amm_target,
            amm_keys.amm_pc_vault,
            amm_keys.amm_coin_vault,
            amm_keys.amm_open_order,
            amm_keys.market,
            market_keys.event_queue,
        ],
{
    let r = vec![
        pool_id,
        amm_keys.amm_target,
        amm_keys.amm_pc_vault,
        amm_keys.amm_coin_vault,
        amm_keys.amm_open_order,
        amm_keys.market,
        market_keys.event_queue,
    ];
    assert(r@ =~= seq![
        pool_id,
        amm_keys.amm_target,
        amm_keys.amm_pc_vault,
        amm_keys.amm_coin_vault,
        amm_keys.amm_open_order,
        amm_keys.market,
        market_keys.event_queue,
    ]);
    r
}

} // verus!
