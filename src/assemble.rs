use vstd::prelude::*;
use crate::bytes::{le_u64_at, partial_le, push_u32, push_u64};
use crate::derive::{associated_token_address, ata_of};
use crate::error::SwapError;
use crate::executor::{resolve_cu_limits, resolve_priority_fee, resolve_wrap_and_unwrap_sol, pick, RaydiumAmm, RaydiumAmmQuote};
use crate::keys::{amm_program_id, native_mint, spec_amm_program_id, spec_native_mint, spec_token_program_id, token_program_id, AmmKeys, MarketKeys};
use crate::types::{ComputeUnitLimits, PriorityFeeConfig, Pubkey, SwapConfigOverrides};

verus! {

/// Compute units a transaction may use when none is set.
pub const DEFAULT_COMPUTE_UNIT_LIMIT: u32 = 200000;

/// Micro-lamports in one lamport.
pub const MICRO_LAMPORTS_PER_LAMPORT: u64 = 1000000;

/// Instruction tag of an exact-input swap.
pub const SWAP_BASE_IN_TAG: u8 = 9;

/// Instruction tag of an exact-output swap.
pub const SWAP_BASE_OUT_TAG: u8 = 11;

/// The compute-budget program.
pub open spec fn spec_compute_budget_program_id() -> Pubkey {
    Pubkey { w0: 0x321721e56f460603, w1: 0xe79bc372baadecff, w2: 0x6b12f7c5bbe58cbc, w3: 0x403a9b432c }
}

pub fn compute_budget_program_id() -> (r: Pubkey)
    ensures
        r == spec_compute_budget_program_id(),
{
    Pubkey { w0: 0x321721e56f460603, w1: 0xe79bc372baadecff, w2: 0x6b12f7c5bbe58cbc, w3: 0x403a9b432c }
}

/// An account an instruction touches, and how.
#[derive(Debug, Clone, Copy, PartialEq, Eq, Structural)]
pub struct AccountMeta {
    pub pubkey: Pubkey,
    pub is_signer: bool,
    pub is_writable: bool,
}

/// An instruction for an on-chain program.
#[derive(Debug)]
pub struct Instruction {
    pub program_id: Pubkey,
    pub accounts: Vec<AccountMeta>,
    pub data: Vec<u8>,
}

pub open spec fn writable(k: Pubkey) -> AccountMeta {
    AccountMeta { pubkey: k, is_signer: false, is_writable: true }
}

pub open spec fn readonly(k: Pubkey) -> AccountMeta {
    AccountMeta { pubkey: k, is_signer: false, is_writable: false }
}

/// The accounts of a swap instruction, in the order the pool program reads them.
pub open spec fn swap_accounts(
    amm_keys: AmmKeys,
    market_keys: MarketKeys,
    user_owner: Pubkey,
    user_source: Pubkey,
    user_destination: Pubkey,
) -> Seq<AccountMeta> {
    seq![
        readonly(spec_token_program_id()),
        writable(amm_keys.amm_pool),
        readonly(amm_keys.amm_authority),
        writable(amm_keys.amm_open_order),
        writable(amm_keys.amm_coin_vault),
        writable(amm_keys.amm_pc_vault),
        readonly(amm_keys.market_program),
        writable(amm_keys.market),
        writable(market_keys.bids),
        writable(market_keys.asks),
        writable(market_keys.event_queue),
        writable(market_keys.coin_vault),
        writable(market_keys.pc_vault),
        readonly(market_keys.vault_signer_key),
        writable(user_source),
        writable(user_destination),
        AccountMeta { pubkey: user_owner, is_signer: true, is_writable: false },
    ]
}

fn meta(pubkey: Pubkey, is_signer: bool, is_writable: bool) -> (r: AccountMeta)
    ensures
        r == (AccountMeta { pubkey, is_signer, is_writable }),
{
    AccountMeta { pubkey, is_signer, is_writable }
}

/// The swap instruction: the exact-input variant (tag, amount in, least amount
/// out) when `swap_base_in`, else the exact-output one (tag, most amount in,
/// amount out).
pub fn swap_instruction(
    amm_program: &Pubkey,
    amm_keys: &AmmKeys,
    market_keys: &MarketKeys,
    user_owner: &Pubkey,
    user_source: &Pubkey,
    user_destination: &Pubkey,
    amount_specified: u64,
    other_amount_threshold: u64,
    swap_base_in: bool,
) -> (r: Instruction)
    ensures
        r.program_id == *amm_program,
        r.accounts@ == swap_accounts(*amm_keys, *market_keys, *user_owner, *user_source, *user_destination),
        r.data@.len() == 17,
        r.data@[0] == (if swap_base_in { SWAP_BASE_IN_TAG } else { SWAP_BASE_OUT_TAG }),
        swap_base_in ==> le_u64_at(r.data@, 1) == amount_specified && le_u64_at(r.data@, 9)
            == other_amount_threshold,
        !swap_base_in ==> le_u64_at(r.data@, 1) == other_amount_threshold && le_u64_at(r.data@, 9)
            == amount_specified,
{
    let accounts = vec![
        meta(token_program_id(), false, false),
        meta(amm_keys.amm_pool, false, true),
        meta(amm_keys.amm_authority, false, false),
        meta(amm_keys.amm_open_order, false, true),
        meta(amm_keys.amm_coin_vault, false, true),
        meta(amm_keys.amm_pc_vault, false, true),
        meta(amm_keys.market_program, false, false),
        meta(amm_keys.market, false, true),
        meta(market_keys.bids, false, true),
        meta(market_keys.asks, false, true),
        meta(market_keys.event_queue, false, true),
        meta(market_keys.coin_vault, false, true),
        meta(market_keys.pc_vault, false, true),
        meta(market_keys.vault_signer_key, false, false),
        meta(*user_source, false, true),
        meta(*user_destination, false, true),
        meta(*user_owner, true, false),
    ];
    assert(accounts@ =~= swap_accounts(*amm_keys, *market_keys, *user_owner, *user_source, *user_destination));
    let (tag, first, second) = if swap_base_in {
        (SWAP_BASE_IN_TAG, amount_specified, other_amount_threshold)
    } else {
        (SWAP_BASE_OUT_TAG, other_amount_threshold, amount_specified)
    };
    let mut data: Vec<u8> = Vec::new();
    data.push(tag);
    push_u64(&mut data, first);
    assert(data@[0] == data@.subrange(0, 1)[0]);
    let ghost mid = data@;
    push_u64(&mut data, second);
    proof {
        assert(data@.subrange(0, 9) == mid);
        assert(data@[0] == mid[0]);
        assert forall|k: int| 1 <= k < 9 implies data@[k] == mid[k] by {
            assert(data@.subrange(0, 9)[k] == data@[k]);
        }
        assert(le_u64_at(data@, 1) == le_u64_at(mid, 1));
    }
    Instruction { program_id: *amm_program, accounts, data }
}

/// Sets the compute-unit limit of a transaction.
pub fn compute_unit_limit_instruction(units: u32) -> (r: Instruction)
    ensures
        r.program_id == spec_compute_budget_program_id(),
        r.accounts@.len() == 0,
        r.data@.len() == 5,
        r.data@[0] == 2,
        partial_le(r.data@, 1, 4) == units,
{
    let mut data: Vec<u8> = Vec::new();
    data.push(2);
    push_u32(&mut data, units);
    assert(data@[0] == data@.subrange(0, 1)[0]);
    Instruction { program_id: compute_budget_program_id(), accounts: Vec::new(), data }
}

/// Sets the price of a compute unit, in micro-lamports.
pub fn compute_unit_price_instruction(micro_lamports: u64) -> (r: Instruction)
    ensures
        r.program_id == spec_compute_budget_program_id(),
        r.accounts@.len() == 0,
        r.data@.len() == 9,
        r.data@[0] == 3,
        le_u64_at(r.data@, 1) == micro_lamports,
{
    let mut data: Vec<u8> = Vec::new();
    data.push(3);
    push_u64(&mut data, micro_lamports);
    assert(data@[0] == data@.subrange(0, 1)[0]);
    Instruction { program_id: compute_budget_program_id(), accounts: Vec::new(), data }
}

/// The arguments of the swap instruction of a plan.
#[derive(Debug, Clone, Copy, PartialEq, Eq, Structural)]
pub struct SwapArgs {
    pub amm_program: Pubkey,
    pub amm_keys: AmmKeys,
    pub market_keys: MarketKeys,
    pub user_owner: Pubkey,
    pub user_source: Pubkey,
    pub user_destination: Pubkey,
    pub amount_specified: u64,
    pub other_amount_threshold: u64,
    pub swap_base_in: bool,
}

impl SwapArgs {
    pub fn instruction(&self) -> (r: Instruction)
        ensures
            r.program_id == self.amm_program,
            r.accounts@ == swap_accounts(
                self.amm_keys,
                self.market_keys,
                self.user_owner,
                self.user_source,
                self.user_destination,
            ),
            r.data@.len() == 17,
            r.data@[0] == (if self.swap_base_in { SWAP_BASE_IN_TAG } else { SWAP_BASE_OUT_TAG }),
            self.swap_base_in ==> le_u64_at(r.data@, 1) == self.amount_specified && le_u64_at(
                r.data@,
                9,
            ) == self.other_amount_threshold,
            !self.swap_base_in ==> le_u64_at(r.data@, 1) == self.other_amount_threshold
                && le_u64_at(r.data@, 9) == self.amount_specified,
    {
        swap_instruction(
            &self.amm_program,
            &self.amm_keys,
            &self.market_keys,
            &self.user_owner,
            &self.user_source,
            &self.user_destination,
            self.amount_specified,
            self.other_amount_threshold,
            self.swap_base_in,
        )
    }
}

/// One step of a swap, in the order the steps must run.
#[derive(Debug, Clone, Copy, PartialEq, Eq, Structural)]
pub enum SwapStep {
    /// Create, if absent, the associated token account of `owner` for `mint`.
    CreateAssociatedTokenAccount { owner: Pubkey, mint: Pubkey },
    /// Move `lamports` of the native token into `account` and sync its balance.
    WrapNative { owner: Pubkey, account: Pubkey, lamports: u64 },
    /// The swap itself.
    Swap(SwapArgs),
    /// Close the wrapped-native `account`, returning its balance to `owner`.
    UnwrapNative { owner: Pubkey, account: Pubkey },
    SetComputeUnitLimit(u32),
    SetComputeUnitPrice(u64),
}

/// Where a step stands in a plan: setup, then the swap, then clean-up, then the
/// compute budget.
pub open spec fn step_rank(s: SwapStep) -> int {
    match s {
        SwapStep::CreateAssociatedTokenAccount { .. } => 0,
        SwapStep::WrapNative { .. } => 1,
        SwapStep::Swap(_) => 2,
        SwapStep::UnwrapNative { .. } => 3,
        SwapStep::SetComputeUnitLimit(_) => 4,
        SwapStep::SetComputeUnitPrice(_) => 5,
    }
}

pub open spec fn ordered(s: Seq<SwapStep>) -> bool {
    forall|i: int, j: int| 0 <= i < j < s.len() ==> step_rank(#[trigger] s[i]) <= step_rank(#[trigger] s[j])
}

/// The compute-unit limit of a plan: a fixed policy's limit, else the estimate
/// (the simulated usage, or `DEFAULT_COMPUTE_UNIT_LIMIT` when none was simulated).
pub open spec fn limit_spec(cu_limits: Option<ComputeUnitLimits>, estimate: u32) -> u32 {
    match cu_limits {
        Some(ComputeUnitLimits::Fixed(n)) => n,
        _ => estimate,
    }
}

/// The compute-unit price a plan sets, if any: a total fee is spread over the limit.
pub open spec fn price_spec(fee: Option<PriorityFeeConfig>, limit: u32) -> Result<Option<u64>, SwapError> {
    match fee {
        None => Ok(None),
        Some(PriorityFeeConfig::FixedCuPrice(p)) => Ok(Some(p)),
        Some(PriorityFeeConfig::TotalLamports(l)) => {
            if limit == 0 {
                Err(SwapError::Validation)
            } else {
                let p = (l as int) * 1000000 / (limit as int);
                if p > u64::MAX {
                    Err(SwapError::Arithmetic)
                } else {
                    Ok(Some(p as u64))
                }
            }
        },
    }
}

pub fn resolve_limit(cu_limits: Option<ComputeUnitLimits>, estimate: u32) -> (r: u32)
    ensures
        r == limit_spec(cu_limits, estimate),
{
    match cu_limits {
        Some(ComputeUnitLimits::Fixed(n)) => n,
        _ => estimate,
    }
}

pub fn resolve_price(fee: Option<PriorityFeeConfig>, limit: u32) -> (r: Result<Option<u64>, SwapError>)
    ensures
        r == price_spec(fee, limit),
{
    match fee {
        None => Ok(None),
        Some(PriorityFeeConfig::FixedCuPrice(p)) => Ok(Some(p)),
        Some(PriorityFeeConfig::TotalLamports(l)) => {
            if limit == 0 {
                return Err(SwapError::Validation);
            }
            let p = (l as u128) * (MICRO_LAMPORTS_PER_LAMPORT as u128) / (limit as u128);
            if p > u64::MAX as u128 {
                Err(SwapError::Arithmetic)
            } else {
                Ok(Some(p as u64))
            }
        },
    }
}

/// The amount that leaves the payer's input account.
pub open spec fn moved_amount(q: RaydiumAmmQuote) -> u64 {
    if q.amount_specified_is_input {
        q.amount
    } else {
        q.other_amount
    }
}

/// The steps of a swap for a quote: the payer's token accounts, the funding of a
/// wrapped-native input, the swap, the closing of a wrapped-native output, then
/// the compute-unit limit (always) and the compute-unit price (when a fee policy
/// is set).
pub open spec fn plan_spec(
    payer: Pubkey,
    q: RaydiumAmmQuote,
    wrap: bool,
    limit: u32,
    price: Result<Option<u64>, SwapError>,
) -> Result<Seq<SwapStep>, SwapError> {
    let source = ata_of(payer, q.input_mint);
    let destination = ata_of(payer, q.output_mint);
    let s0 = seq![
        SwapStep::CreateAssociatedTokenAccount { owner: payer, mint: q.input_mint },
        SwapStep::CreateAssociatedTokenAccount { owner: payer, mint: q.output_mint },
    ];
    let s1 = if wrap && q.input_mint == spec_native_mint() {
        s0.push(SwapStep::WrapNative { owner: payer, account: source, lamports: moved_amount(q) })
    } else {
        s0
    };
    let s2 = s1.push(
        SwapStep::Swap(
            SwapArgs {
                amm_program: spec_amm_program_id(),
                amm_keys: q.amm_keys,
                market_keys: q.market_keys,
                user_owner: payer,
                user_source: source,
                user_destination: destination,
                amount_specified: q.amount,
                other_amount_threshold: q.other_amount_threshold,
                swap_base_in: q.amount_specified_is_input,
            },
        ),
    );
    let s3 = if wrap && q.output_mint == spec_native_mint() {
        s2.push(SwapStep::UnwrapNative { owner: payer, account: destination })
    } else {
        s2
    };
    let s4 = s3.push(SwapStep::SetComputeUnitLimit(limit));
    match price {
        Err(e) => Err(e),
        Ok(Some(p)) => Ok(s4.push(SwapStep::SetComputeUnitPrice(p))),
        Ok(None) => Ok(s4),
    }
}

proof fn lemma_push_ordered(s: Seq<SwapStep>, x: SwapStep)
    requires
        ordered(s),
        forall|i: int| 0 <= i < s.len() ==> step_rank(#[trigger] s[i]) <= step_rank(x),
    ensures
        ordered(s.push(x)),
{
    assert forall|i: int, j: int| 0 <= i < j < s.push(x).len() implies step_rank(
        #[trigger] s.push(x)[i],
    ) <= step_rank(#[trigger] s.push(x)[j]) by {
        if j < s.len() {
            assert(s.push(x)[i] == s[i] && s.push(x)[j] == s[j]);
        } else {
            assert(s.push(x)[i] == s[i]);
        }
    }
}

fn push_step(steps: &mut Vec<SwapStep>, x: SwapStep)
    requires
        ordered(old(steps)@),
        forall|i: int| 0 <= i < old(steps)@.len() ==> step_rank(#[trigger] old(steps)@[i]) <= step_rank(x),
    ensures
        final(steps)@ == old(steps)@.push(x),
        ordered(final(steps)@),
{
    proof {
        lemma_push_ordered(steps@, x);
    }
    steps.push(x);
}

impl RaydiumAmm {
    /// The ordered steps that carry out a quote for `input_pubkey`, under the
    /// executor's configuration with `overrides` on top. `compute_unit_estimate`
    /// is the simulated usage, or `DEFAULT_COMPUTE_UNIT_LIMIT` when none was
    /// simulated; it is the limit unless a fixed policy is set.
    pub fn make_swap(
        &self,
        input_pubkey: Pubkey,
        output: &RaydiumAmmQuote,
        overrides: Option<&SwapConfigOverrides>,
        compute_unit_estimate: u32,
    ) -> (r: Result<Vec<SwapStep>, SwapError>)
        ensures
            ({
                let o_fee = match overrides { Some(o) => o.priority_fee, None => None };
                let o_cu = match overrides { Some(o) => o.cu_limits, None => None };
                let o_wrap = match overrides { Some(o) => o.wrap_and_unwrap_sol, None => None };
                let wrap = match pick(o_wrap, self.config.wrap_and_unwrap_sol) {
                    Some(b) => b,
                    None => true,
                };
                let limit = limit_spec(pick(o_cu, self.config.cu_limits), compute_unit_estimate);
                let price = price_spec(pick(o_fee, self.config.priority_fee), limit);
                match plan_spec(input_pubkey, *output, wrap, limit, price) {
                    Ok(s) => r is Ok && r->Ok_0@ == s,
                    Err(e) => r == Err::<Vec<SwapStep>, SwapError>(e),
                }
            }),
            r is Ok ==> ordered(r->Ok_0@),
    {
        let priority_fee = resolve_priority_fee(overrides, &self.config);
        let cu_limits = resolve_cu_limits(overrides, &self.config);
        let wrap = resolve_wrap_and_unwrap_sol(overrides, &self.config);
        let limit = resolve_limit(cu_limits, compute_unit_estimate);
        let price = resolve_price(priority_fee, limit);
        let price = match price {
            Ok(p) => p,
            Err(e) => {
                return Err(e);
            },
        };
        let native = native_mint();
        let source = associated_token_address(&input_pubkey, &output.input_mint);
        let destination = associated_token_address(&input_pubkey, &output.output_mint);
        let mut steps: Vec<SwapStep> = Vec::new();
        push_step(
            &mut steps,
            SwapStep::CreateAssociatedTokenAccount { owner: input_pubkey, mint: output.input_mint },
        );
        push_step(
            &mut steps,
            SwapStep::CreateAssociatedTokenAccount { owner: input_pubkey, mint: output.output_mint },
        );
        if wrap && output.input_mint == native {
            let lamports = if output.amount_specified_is_input {
                output.amount
            } else {
                output.other_amount
            };
            push_step(&mut steps, SwapStep::WrapNative { owner: input_pubkey, account: source, lamports });
        }
        push_step(
            &mut steps,
            SwapStep::Swap(
                SwapArgs {
                    amm_program: amm_program_id(),
                    amm_keys: output.amm_keys,
                    market_keys: output.market_keys,
                    user_owner: input_pubkey,
                    user_source: source,
                    user_destination: destination,
                    amount_specified: output.amount,
                    other_amount_threshold: output.other_amount_threshold,
                    swap_base_in: output.amount_specified_is_input,
                },
            ),
        );
        if wrap && output.output_mint == native {
            push_step(&mut steps, SwapStep::UnwrapNative { owner: input_pubkey, account: destination });
        }
        push_step(&mut steps, SwapStep::SetComputeUnitLimit(limit));
        if let Some(p) = price {
            push_step(&mut steps, SwapStep::SetComputeUnitPrice(p));
        }
        Ok(steps)
    }
}

} // verus!
