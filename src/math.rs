use vstd::prelude::*;
use crate::error::SwapError;

verus! {

/// Basis points in one whole.
pub const BPS_DENOMINATOR: u64 = 10000;

/// The input that is left once the fee fraction `num / den` is taken, rounded down.
pub open spec fn amount_after_fee(amount: int, num: int, den: int) -> int {
    amount * (den - num) / den
}

/// Constant-product output for an exact input, after the fee.
pub open spec fn exact_in_output(r_in: int, r_out: int, num: int, den: int, amount_in: int) -> int {
    r_out - (r_in * r_out) / (r_in + amount_after_fee(amount_in, num, den))
}

/// The least input after fee for which `exact_in_output` reaches `amount_out`.
pub open spec fn net_input_needed(r_in: int, r_out: int, amount_out: int) -> int {
    let d = (r_in * r_out) / (r_out - amount_out + 1) + 1;
    if d > r_in { d - r_in } else { 0 }
}

/// The least gross input whose part after the fee reaches `net`.
pub open spec fn gross_input_needed(net: int, num: int, den: int) -> int {
    (net * den + (den - num) - 1) / (den - num)
}

/// The least input, fee included, that yields `amount_out`.
pub open spec fn exact_out_input(r_in: int, r_out: int, num: int, den: int, amount_out: int) -> int {
    gross_input_needed(net_input_needed(r_in, r_out, amount_out), num, den)
}

/// The least amount the receiver accepts for an exact input.
pub open spec fn min_threshold(amount: int, slippage_bps: int) -> int {
    amount * (10000 - slippage_bps) / 10000
}

/// The most the payer will pay for an exact output.
pub open spec fn max_threshold(amount: int, slippage_bps: int) -> int {
    amount * (10000 + slippage_bps) / 10000
}

/// The reserves on the input and on the output side, for a direction.
pub open spec fn sided(pc_reserve: u64, coin_reserve: u64, coin_to_pc: bool) -> (int, int) {
    if coin_to_pc {
        (coin_reserve as int, pc_reserve as int)
    } else {
        (pc_reserve as int, coin_reserve as int)
    }
}

/// The amount on the other side of the swap and its slippage threshold, or the error.
pub open spec fn swap_with_slippage_spec(
    pc_reserve: u64,
    coin_reserve: u64,
    fee_numerator: u64,
    fee_denominator: u64,
    coin_to_pc: bool,
    amount: u64,
    amount_specified_is_input: bool,
    slippage_bps: u64,
) -> Result<(u64, u64), SwapError> {
    let (r_in, r_out) = sided(pc_reserve, coin_reserve, coin_to_pc);
    let num = fee_numerator as int;
    let den = fee_denominator as int;
    if slippage_bps > 10000 {
        Err(SwapError::Validation)
    } else if r_in == 0 || r_out == 0 || den == 0 || num > den {
        Err(SwapError::Arithmetic)
    } else if amount_specified_is_input {
        let out = exact_in_output(r_in, r_out, num, den, amount as int);
        Ok((out as u64, min_threshold(out, slippage_bps as int) as u64))
    } else {
        if num == den || amount as int >= r_out {
            Err(SwapError::Arithmetic)
        } else {
            let needed = exact_out_input(r_in, r_out, num, den, amount as int);
            let limit = max_threshold(needed, slippage_bps as int);
            if limit > u64::MAX {
                Err(SwapError::Arithmetic)
            } else {
                Ok((needed as u64, limit as u64))
            }
        }
    }
}

proof fn lemma_mul_bound(a: int, b: int, m: int)
    requires
        0 <= a <= m,
        0 <= b <= m,
    ensures
        0 <= a * b <= m * m,
{
    assert(0 <= a * b <= m * m) by (nonlinear_arith)
        requires
            0 <= a <= m,
            0 <= b <= m,
    ;
}

proof fn lemma_div_le(a: int, b: int)
    requires
        0 <= a,
        0 < b,
    ensures
        0 <= a / b <= a,
{
    assert(0 <= a / b <= a) by (nonlinear_arith)
        requires
            0 <= a,
            0 < b,
    ;
}

/// The slippage threshold never favours the other side: for any slippage up to
/// the whole amount, an exact input's threshold stays at or below the quoted
/// output, and an exact output's threshold at or above the quoted input.
pub proof fn lemma_threshold_bounds(amount: int, slippage_bps: int)
    requires
        0 <= amount,
        0 <= slippage_bps <= 10000,
    ensures
        0 <= min_threshold(amount, slippage_bps) <= amount,
        max_threshold(amount, slippage_bps) >= amount,
{
    assert(0 <= amount * (10000 - slippage_bps) <= amount * 10000) by (nonlinear_arith)
        requires
            0 <= amount,
            0 <= slippage_bps <= 10000,
    ;
    assert(amount * (10000 + slippage_bps) >= amount * 10000) by (nonlinear_arith)
        requires
            0 <= amount,
            0 <= slippage_bps,
    ;
    assert((amount * 10000) / 10000 == amount) by (nonlinear_arith);
    assert(0 <= min_threshold(amount, slippage_bps) <= amount) by (nonlinear_arith)
        requires
            0 <= amount * (10000 - slippage_bps) <= amount * 10000,
            (amount * 10000) / 10000 == amount,
    ;
    assert(max_threshold(amount, slippage_bps) >= amount) by (nonlinear_arith)
        requires
            amount * (10000 + slippage_bps) >= amount * 10000,
            (amount * 10000) / 10000 == amount,
    ;
}

/// Constant-product quote with an integer fee fraction and a slippage bound.
///
/// With `amount_specified_is_input` the result is the output for `amount` in and
/// the least output accepted; otherwise it is the least input, fee included,
/// that yields `amount` out and the most input accepted.
pub fn swap_with_slippage(
    pc_reserve: u64,
    coin_reserve: u64,
    fee_numerator: u64,
    fee_denominator: u64,
    coin_to_pc: bool,
    amount: u64,
    amount_specified_is_input: bool,
    slippage_bps: u64,
) -> (r: Result<(u64, u64), SwapError>)
    ensures
        r == swap_with_slippage_spec(
            pc_reserve,
            coin_reserve,
            fee_numerator,
            fee_denominator,
            coin_to_pc,
            amount,
            amount_specified_is_input,
            slippage_bps,
        ),
        r is Ok ==> amount_specified_is_input ==> r->Ok_0.1 <= r->Ok_0.0,
        r is Ok ==> !amount_specified_is_input ==> r->Ok_0.1 >= r->Ok_0.0,
{
    let (r_in, r_out) = if coin_to_pc {
        (coin_reserve, pc_reserve)
    } else {
        (pc_reserve, coin_reserve)
    };
    if slippage_bps > BPS_DENOMINATOR {
        return Err(SwapError::Validation);
    }
    if r_in == 0 || r_out == 0 || fee_denominator == 0 || fee_numerator > fee_denominator {
        return Err(SwapError::Arithmetic);
    }
    let ghost m: int = u64::MAX as int;
    let num = fee_numerator as u128;
    let den = fee_denominator as u128;
    let rin = r_in as u128;
    let rout = r_out as u128;
    proof {
        lemma_mul_bound(r_in as int, r_out as int, m);
    }
    let product = rin * rout;
    if amount_specified_is_input {
        proof {
            lemma_mul_bound(amount as int, den - num, m);
        }
        let scaled = (amount as u128) * (den - num);
        let after_fee = scaled / den;
        proof {
            lemma_div_le(scaled as int, den as int);
        }
        let kept = product / (rin + after_fee);
        proof {
            lemma_div_le(product as int, (rin + after_fee) as int);
            assert(kept <= product / rin) by {
                vstd::arithmetic::div_mod::lemma_div_is_ordered_by_denominator(
                    product as int,
                    rin as int,
                    (rin + after_fee) as int,
                );
            }
            assert(product / rin == rout) by {
                vstd::arithmetic::div_mod::lemma_div_by_multiple(rout as int, rin as int);
                assert(product == rout * rin) by (nonlinear_arith)
                    requires
                        product == rin * rout,
                ;
            }
        }
        let out = rout - kept;
        proof {
            lemma_threshold_bounds(out as int, slippage_bps as int);
            lemma_mul_bound(out as int, (10000 - slippage_bps) as int, m);
        }
        let threshold = out * ((BPS_DENOMINATOR - slippage_bps) as u128) / (BPS_DENOMINATOR as u128);
        Ok((out as u64, threshold as u64))
    } else {
        if fee_numerator == fee_denominator || amount >= r_out {
            return Err(SwapError::Arithmetic);
        }
        let room = rout - (amount as u128) + 1;
        let quotient = product / room;
        proof {
            lemma_div_le(product as int, room as int);
            lemma_mul_bound(m, m, m);
            assert(product + 1 <= u128::MAX) by (nonlinear_arith)
                requires
                    product <= m * m,
                    m == u64::MAX,
            ;
        }
        let d = quotient + 1;
        let net = if d > rin {
            d - rin
        } else {
            0
        };
        if net > u64::MAX as u128 {
            proof {
                let (si, so) = sided(pc_reserve, coin_reserve, coin_to_pc);
                assert(net == net_input_needed(si, so, amount as int));
                let k = (den - num) as int;
                let n = net as int;
                let g = (n * den + k - 1) / k;
                assert(g >= n) by (nonlinear_arith)
                    requires
                        0 < k <= den,
                        n >= 0,
                        g == (n * den + k - 1) / k,
                ;
                assert(g == exact_out_input(si, so, num as int, den as int, amount as int));
                lemma_threshold_bounds(g, slippage_bps as int);
            }
            return Err(SwapError::Arithmetic);
        }
        proof {
            lemma_mul_bound(net as int, den as int, m);
            assert(net * den + (den - num) - 1 <= u128::MAX) by (nonlinear_arith)
                requires
                    net * den <= m * m,
                    den - num <= m,
                    m == u64::MAX,
            ;
        }
        let gross = (net * den + (den - num) - 1) / (den - num);
        if gross > u64::MAX as u128 {
            proof {
                assert(max_threshold(gross as int, slippage_bps as int) >= gross) by {
                    lemma_threshold_bounds(gross as int, slippage_bps as int);
                }
            }
            return Err(SwapError::Arithmetic);
        }
        proof {
            lemma_threshold_bounds(gross as int, slippage_bps as int);
            lemma_mul_bound(gross as int, (10000 + slippage_bps) as int, m);
        }
        let limit = gross * ((BPS_DENOMINATOR + slippage_bps) as u128) / (BPS_DENOMINATOR as u128);
        if limit > u64::MAX as u128 {
            return Err(SwapError::Arithmetic);
        }
        Ok((gross as u64, limit as u64))
    }
}

} // verus!

verus! {

/// For any slippage from none to the whole amount, a successful quote's threshold
/// lies on the safe side of the quoted amount: at or below the output for an exact
/// input, at or above the input for an exact output.
pub proof fn lemma_quote_threshold_side(
    pc_reserve: u64,
    coin_reserve: u64,
    fee_numerator: u64,
    fee_denominator: u64,
    coin_to_pc: bool,
    amount: u64,
    amount_specified_is_input: bool,
    slippage_bps: u64,
)
    requires
        slippage_bps <= 10000,
    ensures
        ({
            let r = swap_with_slippage_spec(
                pc_reserve,
                coin_reserve,
                fee_numerator,
                fee_denominator,
                coin_to_pc,
                amount,
                amount_specified_is_input,
                slippage_bps,
            );
            r is Ok ==> (if amount_specified_is_input {
                r->Ok_0.1 <= r->Ok_0.0
            } else {
                r->Ok_0.1 >= r->Ok_0.0
            })
        }),
{
    let (r_in, r_out) = sided(pc_reserve, coin_reserve, coin_to_pc);
    let num = fee_numerator as int;
    let den = fee_denominator as int;
    if r_in > 0 && r_out > 0 && den > 0 && num <= den {
        if amount_specified_is_input {
            let a = amount_after_fee(amount as int, num, den);
            assert(0 <= a) by (nonlinear_arith)
                requires
                    a == amount * (den - num) / den,
                    0 < den,
                    num <= den,
                    0 <= amount,
            ;
            let p = r_in * r_out;
            let kept = p / (r_in + a);
            assert(0 <= kept <= r_out) by {
                lemma_mul_bound(r_in, r_out, u64::MAX as int);
                vstd::arithmetic::div_mod::lemma_div_is_ordered_by_denominator(p, r_in, r_in + a);
                vstd::arithmetic::div_mod::lemma_div_by_multiple(r_out, r_in);
                assert(p == r_out * r_in) by (nonlinear_arith)
                    requires
                        p == r_in * r_out,
                ;
                lemma_div_le(p, r_in + a);
            }
            let out = exact_in_output(r_in, r_out, num, den, amount as int);
            assert(0 <= out <= r_out);
            lemma_threshold_bounds(out, slippage_bps as int);
        } else if !(num == den || amount as int >= r_out) {
            let needed = exact_out_input(r_in, r_out, num, den, amount as int);
            let net = net_input_needed(r_in, r_out, amount as int);
            let k = den - num;
            assert(needed >= 0) by (nonlinear_arith)
                requires
                    needed == (net * den + k - 1) / k,
                    net >= 0,
                    0 < k <= den,
            ;
            lemma_threshold_bounds(needed, slippage_bps as int);
        }
    }
}

} // verus!

verus! {

proof fn lemma_floor_le(y: int, d: int, t: int)
    requires
        0 < d,
    ensures
        (y / d <= t) <==> (y < (t + 1) * d),
{
    let q = y / d;
    let r = y % d;
    assert(y == q * d + r && 0 <= r < d) by {
        vstd::arithmetic::div_mod::lemma_fundamental_div_mod(y, d);
    }
    assert((q <= t) <==> (y < (t + 1) * d)) by (nonlinear_arith)
        requires
            y == q * d + r,
            0 <= r < d,
    ;
}

/// The exact-output amount is the least input that does the job: an input, fee
/// included, yields at least `amount_out` exactly when it is at least
/// `exact_out_input`.
pub proof fn lemma_exact_out_is_least(
    r_in: int,
    r_out: int,
    num: int,
    den: int,
    amount_out: int,
    x: int,
)
    requires
        0 < r_in,
        0 < r_out,
        0 <= num < den,
        0 <= amount_out < r_out,
        0 <= x,
    ensures
        (exact_in_output(r_in, r_out, num, den, x) >= amount_out) <==> (x >= exact_out_input(
            r_in,
            r_out,
            num,
            den,
            amount_out,
        )),
{
    let k = den - num;
    let p = r_in * r_out;
    let t = r_out - amount_out;
    let f = amount_after_fee(x, num, den);
    let a = net_input_needed(r_in, r_out, amount_out);
    assert(0 <= x * k) by (nonlinear_arith)
        requires
            0 <= x,
            0 < k,
    ;
    assert(0 <= f) by {
        lemma_div_le(x * k, den);
    }
    // the output reaches amount_out exactly when the net input reaches a
    lemma_floor_le(p, r_in + f, t);
    lemma_floor_le(p, t + 1, r_in + f - 1);
    assert((r_in + f) * (t + 1) == (t + 1) * (r_in + f)) by (nonlinear_arith);
    assert((exact_in_output(r_in, r_out, num, den, x) >= amount_out) <==> (f >= a));
    // the net input reaches a exactly when x reaches the gross amount
    lemma_floor_le(x * k, den, a - 1);
    lemma_floor_le(a * den + k - 1, k, x);
    assert((x + 1) * k == x * k + k) by (nonlinear_arith);
    assert((a - 1 + 1) * den == a * den);
}

} // verus!
