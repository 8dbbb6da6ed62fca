//! Constant-product swap engine: given the two reserves, an input amount and
//! the fee ratio, it prices the output amount. The token transfers that
//! realize a quoted swap are the host ledger's business; both transfers must
//! land atomically or the whole swap aborts.

use vstd::arithmetic::div_mod::{
    lemma_div_is_ordered, lemma_div_multiples_vanish, lemma_fundamental_div_mod, lemma_mod_bound,
};
use vstd::arithmetic::mul::{lemma_mul_inequality, lemma_mul_nonnegative};
use vstd::prelude::*;

use crate::math::lemma_u64_product_fits_u128;

verus! {

/// Failures of the swap engine. Arithmetic failures are distinguished from
/// business-rule failures so callers can react differently.
#[derive(Clone, Copy, Debug, PartialEq, Eq, Structural)]
pub enum ErrorCode {
    /// The first deposit into a pool must not be empty.
    InitialLiquidityMustBeNonZero,
    /// The computed output fell below the caller's stated minimum.
    SlippageExceeded,
    /// The fee ratio is not a proper fraction.
    InvalidFee,
    /// The pool holds no liquidity.
    InsufficientLiquidity,
    /// A token account did not match the swap configuration.
    InvalidTokenAccount,
    /// A mint did not match the swap configuration.
    InvalidMint,
    /// An intermediate product exceeded the 128-bit working width.
    ArithmeticOverflow,
    /// Both the input reserve and the input amount were zero.
    DivisionByZero,
}

/// Configuration of one swap market: token identities and the fee ratio.
/// Identifiers are opaque keys handed out by the host's entity store.
#[derive(Clone, Copy, Debug, PartialEq, Eq, Structural)]
pub struct SwapInfo {
    /// Token A mint address.
    pub token_a_mint: u64,
    /// Token B mint address.
    pub token_b_mint: u64,
    /// Token A account address.
    pub token_a_account: u64,
    /// Token B account address.
    pub token_b_account: u64,
    /// Fee numerator (fee = numerator / denominator).
    pub fee_numerator: u64,
    /// Fee denominator.
    pub fee_denominator: u64,
    /// Authority of the swap.
    pub authority: u64,
    /// Bump seed for the authority.
    pub bump: u8,
}

/// A user's recorded share of a pool.
#[derive(Clone, Copy, Debug, PartialEq, Eq, Structural)]
pub struct UserPosition {
    /// Owner of the position.
    pub owner: u64,
    /// LP token amount.
    pub lp_amount: u64,
    /// Token A amount contributed.
    pub token_a_amount: u64,
    /// Token B amount contributed.
    pub token_b_amount: u64,
}

/// A swap configuration is well formed when its fee is a proper fraction.
pub open spec fn swap_wf(s: SwapInfo) -> bool {
    0 < s.fee_denominator && s.fee_numerator < s.fee_denominator
}

/// The input amount scaled by the fee's complement: the portion of the input
/// that participates in pricing.
pub open spec fn fee_adjusted_input(amount_in: int, fee_numerator: int, fee_denominator: int) -> int {
    amount_in * (fee_denominator - fee_numerator)
}

/// Denominator of the constant-product quote: the input reserve scaled to
/// fee units plus the fee-adjusted input.
pub open spec fn swap_denominator(
    reserve_in: int,
    amount_in: int,
    fee_numerator: int,
    fee_denominator: int,
) -> int {
    reserve_in * fee_denominator + fee_adjusted_input(amount_in, fee_numerator, fee_denominator)
}

/// The constant-product output amount, floored:
/// `amount_in_with_fee * reserve_out / (reserve_in * fee_denominator + amount_in_with_fee)`.
pub open spec fn swap_output(
    reserve_in: int,
    reserve_out: int,
    amount_in: int,
    fee_numerator: int,
    fee_denominator: int,
) -> int {
    fee_adjusted_input(amount_in, fee_numerator, fee_denominator) * reserve_out / swap_denominator(
        reserve_in,
        amount_in,
        fee_numerator,
        fee_denominator,
    )
}

/// The quoted output never exceeds the output reserve, and paying the quote
/// never shrinks the reserve product: with `out` the quoted amount,
/// `(reserve_in + amount_in) * (reserve_out - out) >= reserve_in * reserve_out`.
pub proof fn lemma_swap_preserves_product(
    reserve_in: int,
    reserve_out: int,
    amount_in: int,
    fee_numerator: int,
    fee_denominator: int,
)
    requires
        0 <= reserve_in,
        0 <= reserve_out,
        0 <= amount_in,
        0 <= fee_numerator < fee_denominator,
        0 < swap_denominator(reserve_in, amount_in, fee_numerator, fee_denominator),
    ensures
        0 <= swap_output(reserve_in, reserve_out, amount_in, fee_numerator, fee_denominator)
            <= reserve_out,
        (reserve_in + amount_in) * (reserve_out - swap_output(
            reserve_in,
            reserve_out,
            amount_in,
            fee_numerator,
            fee_denominator,
        )) >= reserve_in * reserve_out,
{
    let adjusted = fee_adjusted_input(amount_in, fee_numerator, fee_denominator);
    let den = swap_denominator(reserve_in, amount_in, fee_numerator, fee_denominator);
    let num = adjusted * reserve_out;
    let out = swap_output(reserve_in, reserve_out, amount_in, fee_numerator, fee_denominator);

    lemma_mul_nonnegative(amount_in, fee_denominator - fee_numerator);
    lemma_mul_nonnegative(reserve_in, fee_denominator);
    lemma_mul_nonnegative(adjusted, reserve_out);
    assert(0 <= adjusted <= den);

    // out <= reserve_out, since num <= den * reserve_out.
    lemma_mul_inequality(adjusted, den, reserve_out);
    lemma_div_is_ordered(num, den * reserve_out, den);
    lemma_div_multiples_vanish(reserve_out, den);
    assert(out <= reserve_out);
    lemma_div_is_ordered(0, num, den);
    assert(0 <= out);

    // out * den <= num, the defining property of floor division.
    lemma_fundamental_div_mod(num, den);
    lemma_mod_bound(num, den);
    assert(out * den <= num) by {
        assert(num == den * (num / den) + num % den);
        assert(out * den == den * (num / den)) by (nonlinear_arith)
            requires
                out == num / den,
        ;
    }

    // From out * den <= num, scale the goal by fee_denominator and cancel.
    assert((reserve_in + amount_in) * (reserve_out - out) >= reserve_in * reserve_out)
        by (nonlinear_arith)
        requires
            0 <= reserve_in,
            0 <= amount_in,
            0 <= reserve_out,
            0 <= fee_numerator < fee_denominator,
            0 <= out <= reserve_out,
            out * (reserve_in * fee_denominator + amount_in * (fee_denominator - fee_numerator))
                <= (amount_in * (fee_denominator - fee_numerator)) * reserve_out,
    ;
}

/// Builds a validated swap configuration. Fails with `InvalidFee` exactly
/// when the fee ratio is not a proper fraction.
pub fn initialize(
    fee_numerator: u64,
    fee_denominator: u64,
    token_a_mint: u64,
    token_b_mint: u64,
    token_a_account: u64,
    token_b_account: u64,
    authority: u64,
    bump: u8,
) -> (r: Result<SwapInfo, ErrorCode>)
    ensures
        r.is_ok() <==> fee_denominator > 0 && fee_numerator < fee_denominator,
        r.is_err() ==> r == Err::<SwapInfo, ErrorCode>(ErrorCode::InvalidFee),
        r.is_ok() ==> r == Ok::<SwapInfo, ErrorCode>(
            (SwapInfo {
                token_a_mint,
                token_b_mint,
                token_a_account,
                token_b_account,
                fee_numerator,
                fee_denominator,
                authority,
                bump,
            }),
        ),
        r.is_ok() ==> swap_wf(r.unwrap()),
{
    if fee_denominator > 0 && fee_numerator < fee_denominator {
        Ok(
            SwapInfo {
                token_a_mint,
                token_b_mint,
                token_a_account,
                token_b_account,
                fee_numerator,
                fee_denominator,
                authority,
                bump,
            },
        )
    } else {
        Err(ErrorCode::InvalidFee)
    }
}

/// Prices a swap with the constant-product formula, all three products taken
/// at 128-bit width. Returns exactly `swap_output` of the inputs; fails with
/// `ArithmeticOverflow` when an intermediate exceeds 128 bits and with
/// `DivisionByZero` exactly when the input reserve and input amount are both
/// zero.
pub fn calculate_swap_amount(
    reserve_in: u64,
    reserve_out: u64,
    amount_in: u64,
    fee_numerator: u64,
    fee_denominator: u64,
) -> (r: Result<u64, ErrorCode>)
    requires
        fee_numerator < fee_denominator,
    ensures
        ({
            let adjusted = fee_adjusted_input(
                amount_in as int,
                fee_numerator as int,
                fee_denominator as int,
            );
            let den = swap_denominator(
                reserve_in as int,
                amount_in as int,
                fee_numerator as int,
                fee_denominator as int,
            );
            &&& 0 <= adjusted
            &&& 0 <= den
            &&& (den == 0 <==> (reserve_in == 0 && amount_in == 0))
            &&& (r == Err::<u64, ErrorCode>(ErrorCode::ArithmeticOverflow) <==> (adjusted
                * reserve_out > u128::MAX || den > u128::MAX))
            &&& (r == Err::<u64, ErrorCode>(ErrorCode::DivisionByZero) <==> (reserve_in == 0
                && amount_in == 0))
            &&& (adjusted * reserve_out <= u128::MAX && 0 < den <= u128::MAX) ==> ({
                let out = swap_output(
                    reserve_in as int,
                    reserve_out as int,
                    amount_in as int,
                    fee_numerator as int,
                    fee_denominator as int,
                );
                0 <= out <= reserve_out && r == Ok::<u64, ErrorCode>((out as u64))
            })
        }),
{
    let fee_multiplier = fee_denominator - fee_numerator;
    proof {
        lemma_u64_product_fits_u128(amount_in as int, fee_multiplier as int);
        lemma_u64_product_fits_u128(reserve_in as int, fee_denominator as int);
        assert(0 <= (amount_in as int) * (fee_multiplier as int) && ((amount_in as int)
            * (fee_multiplier as int) == 0 <==> amount_in == 0)) by (nonlinear_arith)
            requires
                0 <= amount_in,
                1 <= fee_multiplier,
        ;
        assert(0 <= (reserve_in as int) * (fee_denominator as int) && ((reserve_in as int)
            * (fee_denominator as int) == 0 <==> reserve_in == 0)) by (nonlinear_arith)
            requires
                0 <= reserve_in,
                1 <= fee_denominator,
        ;
    }
    let amount_in_with_fee: u128 = (amount_in as u128) * (fee_multiplier as u128);
    let numerator: u128 = match amount_in_with_fee.checked_mul(reserve_out as u128) {
        Some(n) => n,
        None => {
            return Err(ErrorCode::ArithmeticOverflow);
        },
    };
    let scaled_reserve: u128 = (reserve_in as u128) * (fee_denominator as u128);
    let denominator: u128 = match scaled_reserve.checked_add(amount_in_with_fee) {
        Some(d) => d,
        None => {
            return Err(ErrorCode::ArithmeticOverflow);
        },
    };
    if denominator == 0 {
        return Err(ErrorCode::DivisionByZero);
    }
    let quotient: u128 = numerator / denominator;
    proof {
        let num = numerator as int;
        let den = denominator as int;
        lemma_mul_inequality(amount_in_with_fee as int, den, reserve_out as int);
        lemma_div_is_ordered(num, den * reserve_out, den);
        lemma_div_multiples_vanish(reserve_out as int, den);
        assert(quotient <= reserve_out);
    }
    Ok(quotient as u64)
}

/// Quotes a swap and enforces the caller's slippage bound: fails with
/// `SlippageExceeded` exactly when the priced output falls below
/// `minimum_amount_out`. On success the host ledger must move `amount_in`
/// into the input reserve and the returned amount out of the output reserve
/// as one atomic step.
pub fn swap_tokens(
    swap: &SwapInfo,
    reserve_in: u64,
    reserve_out: u64,
    amount_in: u64,
    minimum_amount_out: u64,
) -> (r: Result<u64, ErrorCode>)
    requires
        swap_wf(*swap),
    ensures
        ({
            let adjusted = fee_adjusted_input(
                amount_in as int,
                swap.fee_numerator as int,
                swap.fee_denominator as int,
            );
            let den = swap_denominator(
                reserve_in as int,
                amount_in as int,
                swap.fee_numerator as int,
                swap.fee_denominator as int,
            );
            let out = swap_output(
                reserve_in as int,
                reserve_out as int,
                amount_in as int,
                swap.fee_numerator as int,
                swap.fee_denominator as int,
            );
            let quotable = adjusted * reserve_out <= u128::MAX && 0 < den <= u128::MAX;
            &&& (r == Err::<u64, ErrorCode>(ErrorCode::ArithmeticOverflow) <==> (adjusted
                * reserve_out > u128::MAX || den > u128::MAX))
            &&& (r == Err::<u64, ErrorCode>(ErrorCode::DivisionByZero) <==> (reserve_in == 0
                && amount_in == 0))
            &&& (r == Err::<u64, ErrorCode>(ErrorCode::SlippageExceeded) <==> (quotable && out
                < minimum_amount_out))
            &&& quotable ==> 0 <= out <= reserve_out
            &&& (quotable && out >= minimum_amount_out) ==> r == Ok::<u64, ErrorCode>((out as u64))
        }),
{
    let amount_out = match calculate_swap_amount(
        reserve_in,
        reserve_out,
        amount_in,
        swap.fee_numerator,
        swap.fee_denominator,
    ) {
        Ok(amount) => amount,
        Err(e) => {
            return Err(e);
        },
    };
    if amount_out < minimum_amount_out {
        return Err(ErrorCode::SlippageExceeded);
    }
    Ok(amount_out)
}

} // verus!
