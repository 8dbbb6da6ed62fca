//! Automated-market-maker liquidity pool: owns the pool configuration and
//! computes how many LP share tokens a deposit mints and how many reserve
//! tokens a withdrawal returns. The token transfers, the LP mint and the LP
//! burn that realize a computed amount are the host ledger's business and
//! must land atomically with the state commit.

use vstd::prelude::*;

use crate::math::{isqrt, lemma_u64_product_fits_u128, min_int, mul_div, sqrt_floor, MathError};

verus! {

/// Failures of the liquidity pool engine. Arithmetic failures are
/// distinguished from business-rule failures so callers can react
/// differently.
#[derive(Clone, Copy, Debug, PartialEq, Eq, Structural)]
pub enum ErrorCode {
    /// The fee ratio is not a proper fraction.
    InvalidFee,
    /// A computed amount fell below the caller's stated minimum.
    SlippageExceeded,
    /// No LP shares are outstanding, so nothing can be withdrawn.
    InsufficientLiquidity,
    /// A computed amount does not fit in 64 bits.
    ArithmeticOverflow,
    /// A proportional share was requested against an empty reserve.
    DivisionByZero,
}

/// Configuration of one pool: token identities, the fee ratio and the
/// authority. Identifiers are opaque keys handed out by the host's entity
/// store; the reserves themselves are tracked externally as token-account
/// balances and handed in per call.
#[derive(Clone, Copy, Debug, PartialEq, Eq, Structural)]
pub struct LiquidityPool {
    /// Token A mint address.
    pub token_a_mint: u64,
    /// Token B mint address.
    pub token_b_mint: u64,
    /// Token A reserve account address.
    pub token_a_account: u64,
    /// Token B reserve account address.
    pub token_b_account: u64,
    /// LP share mint address.
    pub lp_mint: u64,
    /// Fee numerator (fee = numerator / denominator).
    pub fee_numerator: u64,
    /// Fee denominator.
    pub fee_denominator: u64,
    /// Authority of the pool.
    pub authority: u64,
    /// Bump seed for the authority.
    pub bump: u8,
}

/// A pool is well formed when its fee is a proper fraction. Established by
/// `initialize_pool`; the fee fields are immutable thereafter.
pub open spec fn pool_wf(p: LiquidityPool) -> bool {
    0 < p.fee_denominator && p.fee_numerator < p.fee_denominator
}

/// The depositor's proportional claim on the outstanding LP supply, floored:
/// `amount * lp_total_supply / reserve`.
pub open spec fn proportional_share(amount: int, lp_total_supply: int, reserve: int) -> int {
    amount * lp_total_supply / reserve
}

/// LP tokens minted for a deposit: the geometric mean on the first deposit,
/// afterwards the smaller of the two proportional claims.
pub open spec fn minted_lp_tokens(
    reserve_a: int,
    reserve_b: int,
    lp_total_supply: int,
    amount_a: int,
    amount_b: int,
) -> int {
    if lp_total_supply == 0 {
        sqrt_floor(amount_a * amount_b)
    } else {
        min_int(
            proportional_share(amount_a, lp_total_supply, reserve_a),
            proportional_share(amount_b, lp_total_supply, reserve_b),
        )
    }
}

/// Builds a validated pool. Fails with `InvalidFee` exactly when the fee
/// ratio is not a proper fraction; on success every configuration field is
/// taken verbatim and the pool invariant holds.
pub fn initialize_pool(
    fee_numerator: u64,
    fee_denominator: u64,
    token_a_mint: u64,
    token_b_mint: u64,
    token_a_account: u64,
    token_b_account: u64,
    lp_mint: u64,
    authority: u64,
    bump: u8,
) -> (r: Result<LiquidityPool, ErrorCode>)
    ensures
        r.is_ok() <==> fee_denominator > 0 && fee_numerator < fee_denominator,
        r.is_err() ==> r == Err::<LiquidityPool, ErrorCode>(ErrorCode::InvalidFee),
        r.is_ok() ==> r == Ok::<LiquidityPool, ErrorCode>(
            (LiquidityPool {
                token_a_mint,
                token_b_mint,
                token_a_account,
                token_b_account,
                lp_mint,
                fee_numerator,
                fee_denominator,
                authority,
                bump,
            }),
        ),
        r.is_ok() ==> pool_wf(r.unwrap()),
{
    if fee_denominator > 0 && fee_numerator < fee_denominator {
        Ok(
            LiquidityPool {
                token_a_mint,
                token_b_mint,
                token_a_account,
                token_b_account,
                lp_mint,
                fee_numerator,
                fee_denominator,
                authority,
                bump,
            },
        )
    } else {
        Err(ErrorCode::InvalidFee)
    }
}

/// Computes the LP tokens minted for a deposit of `amount_a` and `amount_b`
/// against the given reserves and outstanding LP supply: the floored square
/// root of the amounts' product on the first deposit, otherwise the smaller
/// proportional claim, each division routed through `mul_div`. Fails with
/// `SlippageExceeded` exactly when the minted amount falls below
/// `min_lp_tokens`. On success the host ledger must transfer both amounts
/// into the reserves and mint the returned LP amount as one atomic step.
pub fn add_liquidity(
    pool: &LiquidityPool,
    reserve_a: u64,
    reserve_b: u64,
    lp_total_supply: u64,
    amount_a: u64,
    amount_b: u64,
    min_lp_tokens: u64,
) -> (r: Result<u64, ErrorCode>)
    requires
        pool_wf(*pool),
    ensures
        ({
            let share_a = proportional_share(
                amount_a as int,
                lp_total_supply as int,
                reserve_a as int,
            );
            let share_b = proportional_share(
                amount_b as int,
                lp_total_supply as int,
                reserve_b as int,
            );
            let minted = minted_lp_tokens(
                reserve_a as int,
                reserve_b as int,
                lp_total_supply as int,
                amount_a as int,
                amount_b as int,
            );
            &&& (r == Err::<u64, ErrorCode>(ErrorCode::DivisionByZero) <==> (lp_total_supply != 0
                && (reserve_a == 0 || (share_a <= u64::MAX && reserve_b == 0))))
            &&& (r == Err::<u64, ErrorCode>(ErrorCode::ArithmeticOverflow) <==> (lp_total_supply
                != 0 && ((reserve_a != 0 && share_a > u64::MAX) || (reserve_a != 0 && share_a
                <= u64::MAX && reserve_b != 0 && share_b > u64::MAX))))
            &&& (lp_total_supply == 0 || (reserve_a != 0 && reserve_b != 0 && share_a <= u64::MAX
                && share_b <= u64::MAX)) ==> {
                &&& 0 <= minted <= u64::MAX
                &&& (r == Err::<u64, ErrorCode>(ErrorCode::SlippageExceeded) <==> minted
                    < min_lp_tokens)
                &&& minted >= min_lp_tokens ==> r == Ok::<u64, ErrorCode>((minted as u64))
            }
        }),
{
    if lp_total_supply == 0 {
        proof {
            lemma_u64_product_fits_u128(amount_a as int, amount_b as int);
        }
        let product: u128 = (amount_a as u128) * (amount_b as u128);
        let minted = isqrt(product);
        if minted < min_lp_tokens {
            return Err(ErrorCode::SlippageExceeded);
        }
        return Ok(minted);
    }
    let share_a = match mul_div(amount_a, lp_total_supply, reserve_a) {
        Ok(v) => v,
        Err(MathError::DivisionByZero) => {
            return Err(ErrorCode::DivisionByZero);
        },
        Err(MathError::ArithmeticOverflow) => {
            return Err(ErrorCode::ArithmeticOverflow);
        },
    };
    let share_b = match mul_div(amount_b, lp_total_supply, reserve_b) {
        Ok(v) => v,
        Err(MathError::DivisionByZero) => {
            return Err(ErrorCode::DivisionByZero);
        },
        Err(MathError::ArithmeticOverflow) => {
            return Err(ErrorCode::ArithmeticOverflow);
        },
    };
    let minted = if share_a <= share_b {
        share_a
    } else {
        share_b
    };
    if minted < min_lp_tokens {
        return Err(ErrorCode::SlippageExceeded);
    }
    Ok(minted)
}

/// Computes the reserve amounts returned for burning `lp_amount` LP tokens:
/// each reserve's floored proportional share, routed through `mul_div`.
/// Fails with `InsufficientLiquidity` exactly when no LP shares are
/// outstanding — checked explicitly, so the division by zero can never be
/// reached — and with `SlippageExceeded` exactly when either amount falls
/// below its stated minimum. On success the host ledger must burn
/// `lp_amount` LP tokens and transfer both returned amounts out of the
/// reserves as one atomic step.
pub fn remove_liquidity(
    pool: &LiquidityPool,
    reserve_a: u64,
    reserve_b: u64,
    lp_total_supply: u64,
    lp_amount: u64,
    min_amount_a: u64,
    min_amount_b: u64,
) -> (r: Result<(u64, u64), ErrorCode>)
    requires
        pool_wf(*pool),
    ensures
        r == Err::<(u64, u64), ErrorCode>(ErrorCode::InsufficientLiquidity) <==> lp_total_supply
            == 0,
        r != Err::<(u64, u64), ErrorCode>(ErrorCode::DivisionByZero),
        ({
            let withdraw_a = proportional_share(
                lp_amount as int,
                reserve_a as int,
                lp_total_supply as int,
            );
            let withdraw_b = proportional_share(
                lp_amount as int,
                reserve_b as int,
                lp_total_supply as int,
            );
            &&& (r == Err::<(u64, u64), ErrorCode>(ErrorCode::ArithmeticOverflow)
                <==> (lp_total_supply != 0 && (withdraw_a > u64::MAX || (withdraw_a <= u64::MAX
                && withdraw_b > u64::MAX))))
            &&& (lp_total_supply != 0 && withdraw_a <= u64::MAX && withdraw_b <= u64::MAX) ==> {
                &&& (r == Err::<(u64, u64), ErrorCode>(ErrorCode::SlippageExceeded)
                    <==> (withdraw_a < min_amount_a || withdraw_b < min_amount_b))
                &&& (withdraw_a >= min_amount_a && withdraw_b >= min_amount_b) ==> r == Ok::<
                    (u64, u64),
                    ErrorCode,
                >(((withdraw_a as u64, withdraw_b as u64)))
            }
        }),
{
    if lp_total_supply == 0 {
        return Err(ErrorCode::InsufficientLiquidity);
    }
    let withdraw_a = match mul_div(lp_amount, reserve_a, lp_total_supply) {
        Ok(v) => v,
        Err(_) => {
            return Err(ErrorCode::ArithmeticOverflow);
        },
    };
    let withdraw_b = match mul_div(lp_amount, reserve_b, lp_total_supply) {
        Ok(v) => v,
        Err(_) => {
            return Err(ErrorCode::ArithmeticOverflow);
        },
    };
    if withdraw_a < min_amount_a || withdraw_b < min_amount_b {
        return Err(ErrorCode::SlippageExceeded);
    }
    Ok((withdraw_a, withdraw_b))
}

} // verus!
