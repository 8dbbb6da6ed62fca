//! Leveraged perpetual-futures market: market configuration, aggregate
//! exposure, and the individual position ledger. Entry validation, PnL and
//! funding settlement, liquidation eligibility and the periodic funding-rate
//! update are computed here; collateral transfers and position storage are
//! the host's business and must land atomically with the state commit.
//!
//! Two behaviours of this engine are deliberate and documented rather than
//! smoothed over: liquidation deducts the PnL magnitude from collateral
//! without consulting its direction, and the funding index accumulates the
//! unsigned rate magnitude whichever sign the rate takes. Both await product
//! sign-off; neither is silently corrected here. Likewise the residual
//! collateral left after a liquidation fee is paid has no specified
//! destination and is simply not disbursed.

use vstd::prelude::*;

use crate::math::{
    abs64, abs_i64, lemma_scaled_ratio_le, lemma_u64_product_fits_u128, max_int, min_int, mul_div,
};

verus! {

/// Failures of the perpetual market engine. Arithmetic failures are
/// distinguished from business-rule failures so callers can react
/// differently.
#[derive(Clone, Copy, Debug, PartialEq, Eq, Structural)]
pub enum ErrorCode {
    /// The caller does not own the position.
    Unauthorized,
    /// A position size of zero was requested.
    InvalidSize,
    /// A collateral amount of zero was posted.
    InvalidCollateral,
    /// Leverage outside 1..=20 was requested.
    InvalidLeverage,
    /// The posted collateral does not cover the required margin.
    InsufficientCollateral,
    /// The position would move the price more than the caller allows.
    PriceImpactTooHigh,
    /// The settlement fell below the caller's stated minimum.
    SlippageExceeded,
    /// The position's margin ratio is still at or above maintenance.
    CannotLiquidate,
    /// The remaining collateral cannot pay the liquidation fee.
    InsufficientCollateralForLiquidation,
    /// A computed amount does not fit in 64 bits.
    ArithmeticOverflow,
    /// A notional value of zero admits no margin ratio.
    DivisionByZero,
}

/// One perpetual market: configuration, vault identities and aggregate
/// exposure. Identifiers are opaque keys handed out by the host's entity
/// store. Margin ratios and the liquidation fee are in basis points; a sound
/// configuration keeps `maintenance_margin_ratio < initial_margin_ratio`,
/// which is expected of the host but not enforced here.
#[derive(Clone, Copy, Debug, PartialEq, Eq, Structural)]
pub struct PerpetualMarket {
    /// Base asset mint.
    pub base_asset_mint: u64,
    /// Quote asset mint.
    pub quote_asset_mint: u64,
    /// Vault for the base asset.
    pub base_asset_vault: u64,
    /// Vault for the quote asset.
    pub quote_asset_vault: u64,
    /// Authority of the market.
    pub authority: u64,
    /// Bump seed for the authority.
    pub bump: u8,
    /// Initial margin ratio in basis points.
    pub initial_margin_ratio: u64,
    /// Maintenance margin ratio in basis points.
    pub maintenance_margin_ratio: u64,
    /// Liquidation fee in basis points.
    pub liquidation_fee: u64,
    /// Total size of open long positions.
    pub total_long_positions: u64,
    /// Total size of open short positions.
    pub total_short_positions: u64,
    /// Current funding rate; positive when longs pay shorts.
    pub funding_rate: i64,
    /// Cumulative funding index; accumulates the unsigned rate magnitude.
    pub funding_index: u64,
    /// Timestamp of the last funding-rate update.
    pub last_funding_time: i64,
    /// Total open interest across both sides.
    pub open_interest: u64,
}

/// One leveraged position. Created by `open_position` and consumed — deleted
/// by the host store — on close or liquidation; exactly one terminal
/// transition, no reopen.
#[derive(Clone, Copy, Debug, PartialEq, Eq, Structural)]
pub struct Position {
    /// Owner of the position.
    pub owner: u64,
    /// Signed size: positive for long, negative for short.
    pub size: i64,
    /// Entry price of the position.
    pub entry_price: u64,
    /// Posted collateral.
    pub collateral: u64,
    /// Leverage used, 1..=20.
    pub leverage: u8,
    /// Funding index observed when the position was created.
    pub last_funding_index: u64,
    /// Creation timestamp.
    pub created_at: i64,
}

/// The aggregate invariant: open interest is exactly the long and short
/// totals together, at every quiescent point.
pub open spec fn market_wf(m: PerpetualMarket) -> bool {
    m.open_interest == m.total_long_positions + m.total_short_positions
}

/// What `open_position` establishes of every position it creates.
pub open spec fn position_wf(p: Position) -> bool {
    &&& p.size != 0
    &&& 0 < p.collateral
    &&& 1 <= p.leverage <= 20
}

/// The position's size is accounted for in the market's aggregate on its own
/// side. Opening establishes this, and it is what lets closing and
/// liquidating subtract the size back out.
pub open spec fn position_covered(m: PerpetualMarket, p: Position) -> bool {
    if p.size > 0 {
        abs64(p.size as int) <= m.total_long_positions
    } else {
        abs64(p.size as int) <= m.total_short_positions
    }
}

/// Notional value of a position: size magnitude times price.
pub open spec fn notional_value(size: int, price: int) -> int {
    abs64(size) * price
}

/// Margin required to open: the notional scaled by the initial margin ratio
/// in basis points, floored.
pub open spec fn required_margin(size: int, price: int, initial_margin_ratio: int) -> int {
    notional_value(size, price) * initial_margin_ratio / 10000
}

/// Estimated price impact of a new position in basis points: its size
/// against the open interest, capped at 1000 (10%). The divisor is floored
/// at one, so on an empty market any nonzero size takes the full cap.
pub open spec fn price_impact(size: int, open_interest: int) -> int {
    min_int(abs64(size) * 10000 / max_int(open_interest, 1), 1000)
}

/// Magnitude of the profit or loss between entry and exit.
pub open spec fn pnl_magnitude(size: int, entry_price: int, exit_price: int) -> int {
    abs64(exit_price - entry_price) * abs64(size)
}

/// Whether the move between entry and exit favours the position: up for a
/// long, down for a short.
pub open spec fn is_profit(size: int, entry_price: int, exit_price: int) -> bool {
    (size > 0 && exit_price >= entry_price) || (size < 0 && entry_price >= exit_price)
}

/// Magnitude of the funding owed between two index readings.
pub open spec fn funding_magnitude(last_index: int, current_index: int) -> int {
    abs64(current_index - last_index)
}

/// Whether the position receives funding rather than pays it: a long
/// receives when the index fell, a short when it rose.
pub open spec fn funding_received(size: int, last_index: int, current_index: int) -> bool {
    (size > 0 && current_index < last_index) || (size < 0 && current_index > last_index)
}

/// Settlement after profit or loss: profit is added; a loss is deducted when
/// affordable and otherwise the whole settlement is forfeited to zero.
pub open spec fn settle_pnl(amount: int, pnl: int, profit: bool) -> int {
    if profit {
        amount + pnl
    } else if pnl <= amount {
        amount - pnl
    } else {
        0
    }
}

/// Settlement after funding: received funding is added; owed funding is
/// deducted only when affordable and otherwise skipped — deliberately
/// asymmetric to the PnL step, which zeroes instead.
pub open spec fn settle_funding(amount: int, payment: int, received: bool) -> int {
    if received {
        amount + payment
    } else if payment <= amount {
        amount - payment
    } else {
        amount
    }
}

/// Collateral left after a liquidation-time deduction of the PnL magnitude —
/// deliberately ignoring the PnL's direction — clamped at zero.
pub open spec fn liquidation_remaining_collateral(collateral: int, pnl: int) -> int {
    if pnl <= collateral {
        collateral - pnl
    } else {
        0
    }
}

/// Margin ratio in basis points: remaining collateral against the notional,
/// floored.
pub open spec fn margin_ratio(remaining_collateral: int, position_notional: int) -> int {
    remaining_collateral * 10000 / position_notional
}

/// Long/short imbalance in basis points of the larger side.
pub open spec fn imbalance_rate(total_long: int, total_short: int) -> int {
    if total_long > total_short {
        (total_long - total_short) * 10000 / max_int(total_long, 1)
    } else {
        (total_short - total_long) * 10000 / max_int(total_short, 1)
    }
}

/// Unsigned funding-rate magnitude: a base rate of 5 basis points plus a
/// hundredth of the imbalance rate.
pub open spec fn funding_rate_magnitude(total_long: int, total_short: int) -> int {
    5 + imbalance_rate(total_long, total_short) / 100
}

/// Builds a fresh market with the given configuration and no exposure: both
/// side totals, the open interest, the funding rate and the funding index
/// all start at zero, so the aggregate invariant holds from the start.
pub fn initialize(
    initial_margin_ratio: u64,
    maintenance_margin_ratio: u64,
    liquidation_fee: u64,
    base_asset_mint: u64,
    quote_asset_mint: u64,
    base_asset_vault: u64,
    quote_asset_vault: u64,
    authority: u64,
    bump: u8,
) -> (m: PerpetualMarket)
    ensures
        m == (PerpetualMarket {
            base_asset_mint,
            quote_asset_mint,
            base_asset_vault,
            quote_asset_vault,
            authority,
            bump,
            initial_margin_ratio,
            maintenance_margin_ratio,
            liquidation_fee,
            total_long_positions: 0,
            total_short_positions: 0,
            funding_rate: 0,
            funding_index: 0,
            last_funding_time: 0,
            open_interest: 0,
        }),
        market_wf(m),
{
    PerpetualMarket {
        base_asset_mint,
        quote_asset_mint,
        base_asset_vault,
        quote_asset_vault,
        authority,
        bump,
        initial_margin_ratio,
        maintenance_margin_ratio,
        liquidation_fee,
        total_long_positions: 0,
        total_short_positions: 0,
        funding_rate: 0,
        funding_index: 0,
        last_funding_time: 0,
        open_interest: 0,
    }
}

/// Validates and opens a leveraged position against the oracle price read
/// for this call. Rejects, in order: a zero size, zero collateral, leverage
/// outside 1..=20, a notional or required margin beyond 64 bits, collateral
/// below the leverage-relaxed required margin, and a price impact above the
/// caller's bound. On success the market's matching side total and open
/// interest grow by the size magnitude — the aggregate invariant is
/// preserved — and the returned position records the entry price, the
/// current funding index and the creation time; the host must transfer the
/// collateral into the quote vault, store the position and commit the market
/// atomically. On any failure the market is untouched.
pub fn open_position(
    market: &mut PerpetualMarket,
    owner: u64,
    oracle_price: u64,
    size: i64,
    collateral: u64,
    leverage: u8,
    max_price_impact: u64,
    now: i64,
) -> (r: Result<Position, ErrorCode>)
    requires
        market_wf(*old(market)),
    ensures
        market_wf(*final(market)),
        r.is_err() ==> *final(market) == *old(market),
        ({
            let m = *old(market);
            let mag = abs64(size as int);
            let notional = notional_value(size as int, oracle_price as int);
            let margin = required_margin(
                size as int,
                oracle_price as int,
                m.initial_margin_ratio as int,
            );
            let impact = price_impact(size as int, m.open_interest as int);
            let params_ok = size != 0 && collateral != 0 && 1 <= leverage <= 20;
            let notional_ok = notional <= u64::MAX;
            let margin_fits = margin <= u64::MAX;
            let margin_ok = collateral >= margin / (leverage as int);
            let impact_ok = impact <= max_price_impact;
            let aggregate_ok = m.open_interest + mag <= u64::MAX;
            &&& (r == Err::<Position, ErrorCode>(ErrorCode::InvalidSize) <==> size == 0)
            &&& (r == Err::<Position, ErrorCode>(ErrorCode::InvalidCollateral) <==> (size != 0
                && collateral == 0))
            &&& (r == Err::<Position, ErrorCode>(ErrorCode::InvalidLeverage) <==> (size != 0
                && collateral != 0 && !(1 <= leverage <= 20)))
            &&& (r == Err::<Position, ErrorCode>(ErrorCode::ArithmeticOverflow) <==> (params_ok
                && (!notional_ok || (notional_ok && !margin_fits) || (notional_ok && margin_fits
                && margin_ok && impact_ok && !aggregate_ok))))
            &&& (r == Err::<Position, ErrorCode>(ErrorCode::InsufficientCollateral) <==> (params_ok
                && notional_ok && margin_fits && !margin_ok))
            &&& (r == Err::<Position, ErrorCode>(ErrorCode::PriceImpactTooHigh) <==> (params_ok
                && notional_ok && margin_fits && margin_ok && !impact_ok))
            &&& (params_ok && notional_ok && margin_fits && margin_ok && impact_ok && aggregate_ok)
                ==> {
                &&& r == Ok::<Position, ErrorCode>(
                    (Position {
                        owner,
                        size,
                        entry_price: oracle_price,
                        collateral,
                        leverage,
                        last_funding_index: m.funding_index,
                        created_at: now,
                    }),
                )
                &&& *final(market) == (PerpetualMarket {
                    total_long_positions: if size > 0 {
                        (m.total_long_positions + mag) as u64
                    } else {
                        m.total_long_positions
                    },
                    total_short_positions: if size < 0 {
                        (m.total_short_positions + mag) as u64
                    } else {
                        m.total_short_positions
                    },
                    open_interest: (m.open_interest + mag) as u64,
                    ..m
                })
                &&& position_wf(r.unwrap())
                &&& position_covered(*final(market), r.unwrap())
            }
        }),
{
    if size == 0 {
        return Err(ErrorCode::InvalidSize);
    }
    if collateral == 0 {
        return Err(ErrorCode::InvalidCollateral);
    }
    if leverage == 0 || leverage > 20 {
        return Err(ErrorCode::InvalidLeverage);
    }
    let magnitude = abs_i64(size);
    proof {
        lemma_u64_product_fits_u128(magnitude as int, oracle_price as int);
    }
    let wide_notional: u128 = (magnitude as u128) * (oracle_price as u128);
    if wide_notional > u64::MAX as u128 {
        return Err(ErrorCode::ArithmeticOverflow);
    }
    let notional = wide_notional as u64;
    let required = match mul_div(notional, market.initial_margin_ratio, 10000) {
        Ok(v) => v,
        Err(_) => {
            return Err(ErrorCode::ArithmeticOverflow);
        },
    };
    if collateral < required / (leverage as u64) {
        return Err(ErrorCode::InsufficientCollateral);
    }
    let impact = calculate_price_impact(size, market.open_interest);
    if impact > max_price_impact {
        return Err(ErrorCode::PriceImpactTooHigh);
    }
    let new_open_interest = match market.open_interest.checked_add(magnitude) {
        Some(v) => v,
        None => {
            return Err(ErrorCode::ArithmeticOverflow);
        },
    };
    if size > 0 {
        market.total_long_positions = market.total_long_positions + magnitude;
    } else {
        market.total_short_positions = market.total_short_positions + magnitude;
    }
    market.open_interest = new_open_interest;
    Ok(
        Position {
            owner,
            size,
            entry_price: oracle_price,
            collateral,
            leverage,
            last_funding_index: market.funding_index,
            created_at: now,
        },
    )
}

/// Computes the unsigned PnL magnitude and its direction between entry and
/// exit, the product taken at 128-bit width. Fails with
/// `ArithmeticOverflow` exactly when the magnitude does not fit in 64 bits.
pub fn calculate_pnl(size: i64, entry_price: u64, exit_price: u64) -> (r: Result<
    (u64, bool),
    ErrorCode,
>)
    ensures
        r.is_ok() <==> pnl_magnitude(size as int, entry_price as int, exit_price as int)
            <= u64::MAX,
        r.is_err() ==> r == Err::<(u64, bool), ErrorCode>(ErrorCode::ArithmeticOverflow),
        r.is_ok() ==> r == Ok::<(u64, bool), ErrorCode>(
            ((
                (pnl_magnitude(size as int, entry_price as int, exit_price as int) as u64),
                is_profit(size as int, entry_price as int, exit_price as int),
            )),
        ),
{
    let price_move = if exit_price >= entry_price {
        exit_price - entry_price
    } else {
        entry_price - exit_price
    };
    let magnitude = abs_i64(size);
    proof {
        lemma_u64_product_fits_u128(price_move as int, magnitude as int);
    }
    let wide: u128 = (price_move as u128) * (magnitude as u128);
    if wide > u64::MAX as u128 {
        return Err(ErrorCode::ArithmeticOverflow);
    }
    let profit = (size > 0 && exit_price >= entry_price) || (size < 0 && entry_price
        >= exit_price);
    Ok((wide as u64, profit))
}

/// Settles and closes a position at the exit price read for this call.
/// Starting from the posted collateral, the PnL is added on profit,
/// deducted when affordable on loss and otherwise forfeits the whole
/// settlement to zero; funding is then added when received, deducted when
/// affordable and otherwise skipped. Fails with `ArithmeticOverflow` when
/// the PnL magnitude or an addition exceeds 64 bits, and with
/// `SlippageExceeded` exactly when the settlement falls below
/// `min_receive_amount`. On success the matching side total and the open
/// interest shrink by the size magnitude — the aggregate invariant is
/// preserved — and the host must pay the returned settlement out of the
/// quote vault (when positive), delete the position and commit the market
/// atomically. On any failure the market is untouched.
pub fn close_position(
    market: &mut PerpetualMarket,
    position: &Position,
    exit_price: u64,
    min_receive_amount: u64,
) -> (r: Result<u64, ErrorCode>)
    requires
        market_wf(*old(market)),
        position_wf(*position),
        position_covered(*old(market), *position),
    ensures
        market_wf(*final(market)),
        r.is_err() ==> *final(market) == *old(market),
        ({
            let m = *old(market);
            let mag = abs64(position.size as int);
            let pnl = pnl_magnitude(position.size as int, position.entry_price as int, exit_price as int);
            let profit = is_profit(position.size as int, position.entry_price as int, exit_price as int);
            let payment = funding_magnitude(position.last_funding_index as int, m.funding_index as int);
            let received = funding_received(
                position.size as int,
                position.last_funding_index as int,
                m.funding_index as int,
            );
            let after_pnl = settle_pnl(position.collateral as int, pnl, profit);
            let settlement = settle_funding(after_pnl, payment, received);
            let pnl_fits = pnl <= u64::MAX;
            let after_pnl_fits = after_pnl <= u64::MAX;
            let settlement_fits = settlement <= u64::MAX;
            &&& (r == Err::<u64, ErrorCode>(ErrorCode::ArithmeticOverflow) <==> (!pnl_fits || (
                pnl_fits && !after_pnl_fits) || (pnl_fits && after_pnl_fits && !settlement_fits)))
            &&& (pnl_fits && after_pnl_fits && settlement_fits) ==> {
                &&& (r == Err::<u64, ErrorCode>(ErrorCode::SlippageExceeded) <==> settlement
                    < min_receive_amount)
                &&& settlement >= min_receive_amount ==> {
                    &&& r == Ok::<u64, ErrorCode>((settlement as u64))
                    &&& *final(market) == (PerpetualMarket {
                        total_long_positions: if position.size > 0 {
                            (m.total_long_positions - mag) as u64
                        } else {
                            m.total_long_positions
                        },
                        total_short_positions: if position.size < 0 {
                            (m.total_short_positions - mag) as u64
                        } else {
                            m.total_short_positions
                        },
                        open_interest: (m.open_interest - mag) as u64,
                        ..m
                    })
                }
            }
        }),
{
    let (pnl, profit) = match calculate_pnl(position.size, position.entry_price, exit_price) {
        Ok(v) => v,
        Err(e) => {
            return Err(e);
        },
    };
    let (payment, received) = calculate_funding_payment(
        position.size,
        position.last_funding_index,
        market.funding_index,
    );
    let mut settlement_amount = position.collateral;
    if profit {
        settlement_amount = match settlement_amount.checked_add(pnl) {
            Some(v) => v,
            None => {
                return Err(ErrorCode::ArithmeticOverflow);
            },
        };
    } else if pnl <= settlement_amount {
        settlement_amount = settlement_amount - pnl;
    } else {
        settlement_amount = 0;
    }
    if received {
        settlement_amount = match settlement_amount.checked_add(payment) {
            Some(v) => v,
            None => {
                return Err(ErrorCode::ArithmeticOverflow);
            },
        };
    } else if payment <= settlement_amount {
        settlement_amount = settlement_amount - payment;
    }
    if settlement_amount < min_receive_amount {
        return Err(ErrorCode::SlippageExceeded);
    }
    let magnitude = abs_i64(position.size);
    if position.size > 0 {
        market.total_long_positions = market.total_long_positions - magnitude;
    } else {
        market.total_short_positions = market.total_short_positions - magnitude;
    }
    market.open_interest = market.open_interest - magnitude;
    Ok(settlement_amount)
}

/// Computes the funding payment owed between two index readings and whether
/// the position receives it. Total: index differences always fit.
pub fn calculate_funding_payment(size: i64, last_index: u64, current_index: u64) -> (r: (u64, bool))
    ensures
        r.0 == funding_magnitude(last_index as int, current_index as int),
        r.1 == funding_received(size as int, last_index as int, current_index as int),
{
    let payment = if current_index > last_index {
        current_index - last_index
    } else {
        last_index - current_index
    };
    let received = (size > 0 && current_index < last_index) || (size < 0 && current_index
        > last_index);
    (payment, received)
}

/// Liquidates an undercollateralized position at the current oracle price.
/// The PnL magnitude is deducted from collateral without consulting its
/// direction — preserved deliberately, see the module notes — and the
/// margin ratio of what remains is held against the maintenance ratio: the
/// call succeeds only when `margin_ratio < maintenance_margin_ratio`, and
/// fails with `CannotLiquidate` exactly when the position is still
/// healthily margined. Fails with `DivisionByZero` when the notional is
/// zero (a zero price), with `ArithmeticOverflow` when an intermediate
/// exceeds 64 bits, and with `InsufficientCollateralForLiquidation` exactly
/// when the remaining collateral cannot pay the fee. On success the
/// returned fee goes to the liquidator, the matching side total and the
/// open interest shrink by the size magnitude — the aggregate invariant is
/// preserved — and the host must pay the fee from the quote vault, delete
/// the position and commit the market atomically; the residual collateral
/// is not disbursed. On any failure the market is untouched.
pub fn liquidate_position(
    market: &mut PerpetualMarket,
    position: &Position,
    current_price: u64,
) -> (r: Result<u64, ErrorCode>)
    requires
        market_wf(*old(market)),
        position_wf(*position),
        position_covered(*old(market), *position),
    ensures
        market_wf(*final(market)),
        r.is_err() ==> *final(market) == *old(market),
        ({
            let m = *old(market);
            let mag = abs64(position.size as int);
            let pnl = pnl_magnitude(position.size as int, position.entry_price as int, current_price as int);
            let remaining = liquidation_remaining_collateral(position.collateral as int, pnl);
            let notional = notional_value(position.size as int, current_price as int);
            let ratio = margin_ratio(remaining, notional);
            let fee = notional * m.liquidation_fee / 10000;
            let pnl_fits = pnl <= u64::MAX;
            let notional_fits = notional <= u64::MAX;
            let notional_pos = notional > 0;
            let ratio_fits = ratio <= u64::MAX;
            let eligible = ratio < m.maintenance_margin_ratio;
            let fee_fits = fee <= u64::MAX;
            &&& (r == Err::<u64, ErrorCode>(ErrorCode::DivisionByZero) <==> (pnl_fits
                && notional_fits && !notional_pos))
            &&& (r == Err::<u64, ErrorCode>(ErrorCode::ArithmeticOverflow) <==> (!pnl_fits || (
                pnl_fits && !notional_fits) || (pnl_fits && notional_fits && notional_pos
                && !ratio_fits) || (pnl_fits && notional_fits && notional_pos && ratio_fits
                && eligible && !fee_fits)))
            &&& (pnl_fits && notional_fits && notional_pos && ratio_fits) ==> {
                &&& (r == Err::<u64, ErrorCode>(ErrorCode::CannotLiquidate) <==> !eligible)
                &&& (eligible && fee_fits) ==> {
                    &&& (r == Err::<u64, ErrorCode>(
                        ErrorCode::InsufficientCollateralForLiquidation,
                    ) <==> remaining < fee)
                    &&& remaining >= fee ==> {
                        &&& r == Ok::<u64, ErrorCode>((fee as u64))
                        &&& *final(market) == (PerpetualMarket {
                            total_long_positions: if position.size > 0 {
                                (m.total_long_positions - mag) as u64
                            } else {
                                m.total_long_positions
                            },
                            total_short_positions: if position.size < 0 {
                                (m.total_short_positions - mag) as u64
                            } else {
                                m.total_short_positions
                            },
                            open_interest: (m.open_interest - mag) as u64,
                            ..m
                        })
                    }
                }
            }
            &&& r.is_ok() ==> eligible
        }),
{
    let (pnl, _) = match calculate_pnl(position.size, position.entry_price, current_price) {
        Ok(v) => v,
        Err(e) => {
            return Err(e);
        },
    };
    let magnitude = abs_i64(position.size);
    proof {
        lemma_u64_product_fits_u128(magnitude as int, current_price as int);
    }
    let wide_notional: u128 = (magnitude as u128) * (current_price as u128);
    if wide_notional > u64::MAX as u128 {
        return Err(ErrorCode::ArithmeticOverflow);
    }
    let position_notional = wide_notional as u64;
    if position_notional == 0 {
        return Err(ErrorCode::DivisionByZero);
    }
    let remaining_collateral = if pnl <= position.collateral {
        position.collateral - pnl
    } else {
        0
    };
    let current_ratio = match mul_div(remaining_collateral, 10000, position_notional) {
        Ok(v) => v,
        Err(_) => {
            return Err(ErrorCode::ArithmeticOverflow);
        },
    };
    if current_ratio >= market.maintenance_margin_ratio {
        return Err(ErrorCode::CannotLiquidate);
    }
    let liquidation_fee = match mul_div(position_notional, market.liquidation_fee, 10000) {
        Ok(v) => v,
        Err(_) => {
            return Err(ErrorCode::ArithmeticOverflow);
        },
    };
    if remaining_collateral < liquidation_fee {
        return Err(ErrorCode::InsufficientCollateralForLiquidation);
    }
    if position.size > 0 {
        market.total_long_positions = market.total_long_positions - magnitude;
    } else {
        market.total_short_positions = market.total_short_positions - magnitude;
    }
    market.open_interest = market.open_interest - magnitude;
    Ok(liquidation_fee)
}

/// Recomputes the funding rate and index from the aggregate long/short
/// imbalance. A no-op on a market with no open positions. Otherwise the
/// rate's magnitude is 5 basis points plus a hundredth of the imbalance
/// rate, its sign positive exactly when longs outweigh shorts (longs pay
/// shorts) — and the funding index grows by the unsigned magnitude
/// whichever sign the rate takes, so it never decreases; this asymmetry is
/// preserved deliberately, see the module notes.
pub fn update_funding_rate(market: &mut PerpetualMarket, now: i64)
    requires
        old(market).total_long_positions != 0 || old(market).total_short_positions != 0
            ==> old(market).funding_index + funding_rate_magnitude(
            old(market).total_long_positions as int,
            old(market).total_short_positions as int,
        ) <= u64::MAX,
    ensures
        market_wf(*old(market)) ==> market_wf(*final(market)),
        ({
            let m = *old(market);
            let idle = m.total_long_positions == 0 && m.total_short_positions == 0;
            let magnitude = funding_rate_magnitude(
                m.total_long_positions as int,
                m.total_short_positions as int,
            );
            &&& idle ==> *final(market) == m
            &&& !idle ==> {
                &&& 5 <= magnitude <= 105
                &&& *final(market) == (PerpetualMarket {
                    funding_rate: if m.total_long_positions > m.total_short_positions {
                        magnitude as i64
                    } else {
                        (-magnitude) as i64
                    },
                    funding_index: (m.funding_index + magnitude) as u64,
                    last_funding_time: now,
                    ..m
                })
            }
        }),
{
    let long_size = market.total_long_positions;
    let short_size = market.total_short_positions;
    if long_size == 0 && short_size == 0 {
        return ;
    }
    let current_imbalance_rate: u64 = if long_size > short_size {
        let gap = long_size - short_size;
        proof {
            lemma_u64_product_fits_u128(gap as int, 10000);
            lemma_scaled_ratio_le(gap as int, long_size as int, 10000);
        }
        ((gap as u128) * 10000 / (long_size as u128)) as u64
    } else {
        let gap = short_size - long_size;
        proof {
            lemma_u64_product_fits_u128(gap as int, 10000);
            lemma_scaled_ratio_le(gap as int, short_size as int, 10000);
        }
        ((gap as u128) * 10000 / (short_size as u128)) as u64
    };
    let is_positive = long_size > short_size;
    let rate_magnitude: u64 = 5 + current_imbalance_rate / 100;
    market.funding_rate = if is_positive {
        rate_magnitude as i64
    } else {
        -(rate_magnitude as i64)
    };
    market.funding_index = market.funding_index + rate_magnitude;
    market.last_funding_time = now;
}

/// Computes the price impact of a position in basis points, capped at 1000.
/// An empty market divides by one, so any nonzero size reaches the cap.
pub fn calculate_price_impact(size: i64, open_interest: u64) -> (r: u64)
    ensures
        r == price_impact(size as int, open_interest as int),
        r <= 1000,
{
    let magnitude = abs_i64(size);
    let denominator: u64 = if open_interest == 0 {
        1
    } else {
        open_interest
    };
    proof {
        lemma_u64_product_fits_u128(magnitude as int, 10000);
    }
    let impact: u128 = (magnitude as u128) * 10000 / (denominator as u128);
    if impact > 1000 {
        1000
    } else {
        impact as u64
    }
}

} // verus!
