use vstd::prelude::*;

use crate::config::{same_identity, Identity, ProtocolConfig};
use crate::error::StablecoinError;
use pyth_solana_receiver_sdk::price_update::PriceUpdateV2;

use crate::oracle::{posted_reading, price_is_valid, read_price, validate_price, PriceReading};
use crate::position::{check_health_factor, position_is_healthy, Position};

verus! {

/// The reading is acceptable under the configuration's limits at time `now`.
pub open spec fn config_accepts_price(config: ProtocolConfig, reading: PriceReading, now: i64) -> bool {
    price_is_valid(
        reading,
        now,
        config.max_price_age,
        config.max_confidence_bps,
        config.price_exponent,
    )
}

/// The reading that a posted update gives for the configured feed at time
/// `now`, under the configured age limit.
pub open spec fn posted_price(config: ProtocolConfig, update: PriceUpdateV2, now: i64) -> Option<
    PriceReading,
> {
    posted_reading(update, config.price_feed_id@, now as int, config.max_price_age as int)
}

/// What a deposit of `amount_collateral` that mints `amount_tokens` makes of
/// `position`: the new position, or the error that rejects it.
pub open spec fn deposit_outcome(
    config: ProtocolConfig,
    position: Position,
    depositor: Seq<u8>,
    reading: PriceReading,
    now: i64,
    amount_collateral: u64,
    amount_tokens: u64,
) -> Result<Position, StablecoinError> {
    let collateral = position.collateral_balance + amount_collateral;
    let debt = position.debt_amount + amount_tokens;
    if position.owner@ != depositor {
        Err(StablecoinError::Unauthorized)
    } else if !config_accepts_price(config, reading, now) {
        Err(StablecoinError::InvalidPrice)
    } else if collateral > u64::MAX || debt > u64::MAX {
        Err(StablecoinError::ArithmeticOverflow)
    } else {
        let next = Position {
            owner: position.owner,
            collateral_balance: collateral as u64,
            debt_amount: debt as u64,
        };
        if position_is_healthy(config, next, reading.price as int) {
            Ok(next)
        } else {
            Err(StablecoinError::BelowMinHealthFactor)
        }
    }
}

/// What burning `amount_to_burn` and withdrawing `amount_collateral` makes of
/// `position`: the new position, or the error that rejects it.
pub open spec fn redeem_outcome(
    config: ProtocolConfig,
    position: Position,
    redeemer: Seq<u8>,
    reading: PriceReading,
    now: i64,
    amount_to_burn: u64,
    amount_collateral: u64,
) -> Result<Position, StablecoinError> {
    if position.owner@ != redeemer {
        Err(StablecoinError::Unauthorized)
    } else if amount_collateral > position.collateral_balance || amount_to_burn
        > position.debt_amount {
        Err(StablecoinError::InsufficientBalance)
    } else if !config_accepts_price(config, reading, now) {
        Err(StablecoinError::InvalidPrice)
    } else {
        let next = Position {
            owner: position.owner,
            collateral_balance: (position.collateral_balance - amount_collateral) as u64,
            debt_amount: (position.debt_amount - amount_to_burn) as u64,
        };
        if position_is_healthy(config, next, reading.price as int) {
            Ok(next)
        } else {
            Err(StablecoinError::BelowMinHealthFactor)
        }
    }
}

/// Collateral units worth `amount` debt-token units at `price` (in units of
/// `1 / scale` debt tokens per collateral unit), rounded up.
pub open spec fn collateral_for_debt(amount: int, price: int, scale: int) -> int {
    (amount * scale + price - 1) / price
}

/// Collateral handed to a liquidator who repays `amount_to_burn`: the repaid
/// debt's worth in collateral, plus `bonus` percent of it, each rounded up,
/// and never more than the position holds.
pub open spec fn liquidation_seizure(
    amount_to_burn: int,
    price: int,
    scale: int,
    bonus: int,
    collateral: int,
) -> int {
    let owed = (collateral_for_debt(amount_to_burn, price, scale) * (100 + bonus) + 99) / 100;
    if owed > collateral {
        collateral
    } else {
        owed
    }
}

/// What repaying `amount_to_burn` of an unhealthy position's debt makes of it.
/// A liquidation that leaves debt behind must leave a healthy position.
pub open spec fn liquidate_outcome(
    config: ProtocolConfig,
    position: Position,
    reading: PriceReading,
    now: i64,
    amount_to_burn: u64,
) -> Result<Position, StablecoinError> {
    if !config_accepts_price(config, reading, now) {
        Err(StablecoinError::InvalidPrice)
    } else if position_is_healthy(config, position, reading.price as int) {
        Err(StablecoinError::AboveMinimumHealthFactor)
    } else if amount_to_burn > position.debt_amount {
        Err(StablecoinError::InsufficientBalance)
    } else {
        let seized = liquidation_seizure(
            amount_to_burn as int,
            reading.price as int,
            config.price_scale as int,
            config.liquidation_bonus as int,
            position.collateral_balance as int,
        );
        let next = Position {
            owner: position.owner,
            collateral_balance: (position.collateral_balance - seized) as u64,
            debt_amount: (position.debt_amount - amount_to_burn) as u64,
        };
        if next.debt_amount > 0 && !position_is_healthy(config, next, reading.price as int) {
            Err(StablecoinError::BelowMinHealthFactor)
        } else {
            Ok(next)
        }
    }
}

/// Deposits `amount_collateral` into `position` and mints `amount_tokens` of
/// debt against it, at the price of `reading`. The position changes only when
/// the result is healthy.
pub fn deposit_and_mint(
    config: &ProtocolConfig,
    position: &mut Position,
    depositor: &Identity,
    reading: &PriceReading,
    now: i64,
    amount_collateral: u64,
    amount_tokens: u64,
) -> (r: Result<(), StablecoinError>)
    requires
        config.wf(),
    ensures
        ({
            let outcome = deposit_outcome(
                *config,
                *old(position),
                depositor@,
                *reading,
                now,
                amount_collateral,
                amount_tokens,
            );
            &&& r is Ok <==> outcome is Ok
            &&& outcome matches Ok(p) ==> *final(position) == p
            &&& outcome matches Err(e) ==> r == Err::<(), StablecoinError>(e) && *final(position)
                == *old(position)
        }),
        r is Ok && final(position).debt_amount > 0 ==> position_is_healthy(
            *config,
            *final(position),
            reading.price as int,
        ),
{
    if !same_identity(&position.owner, depositor) {
        return Err(StablecoinError::Unauthorized);
    }
    let price = match validate_price(
        reading,
        now,
        config.max_price_age,
        config.max_confidence_bps,
        config.price_exponent,
    ) {
        Ok(p) => p,
        Err(e) => {
            return Err(e);
        },
    };
    if amount_collateral > u64::MAX - position.collateral_balance || amount_tokens > u64::MAX
        - position.debt_amount {
        return Err(StablecoinError::ArithmeticOverflow);
    }
    let next = Position {
        owner: position.owner,
        collateral_balance: position.collateral_balance + amount_collateral,
        debt_amount: position.debt_amount + amount_tokens,
    };
    match check_health_factor(&next, config, price) {
        Ok(()) => {
            *position = next;
            Ok(())
        },
        Err(e) => Err(e),
    }
}

/// Burns `amount_to_burn` of the debt of `position` and withdraws
/// `amount_collateral`, at the price of `reading`. The position changes only
/// when the result is healthy.
pub fn redeem_and_burn(
    config: &ProtocolConfig,
    position: &mut Position,
    redeemer: &Identity,
    reading: &PriceReading,
    now: i64,
    amount_to_burn: u64,
    amount_collateral: u64,
) -> (r: Result<(), StablecoinError>)
    requires
        config.wf(),
    ensures
        ({
            let outcome = redeem_outcome(
                *config,
                *old(position),
                redeemer@,
                *reading,
                now,
                amount_to_burn,
                amount_collateral,
            );
            &&& r is Ok <==> outcome is Ok
            &&& outcome matches Ok(p) ==> *final(position) == p
            &&& outcome matches Err(e) ==> r == Err::<(), StablecoinError>(e) && *final(position)
                == *old(position)
        }),
        r is Ok && final(position).debt_amount > 0 ==> position_is_healthy(
            *config,
            *final(position),
            reading.price as int,
        ),
{
    if !same_identity(&position.owner, redeemer) {
        return Err(StablecoinError::Unauthorized);
    }
    if amount_collateral > position.collateral_balance || amount_to_burn > position.debt_amount {
        return Err(StablecoinError::InsufficientBalance);
    }
    let price = match validate_price(
        reading,
        now,
        config.max_price_age,
        config.max_confidence_bps,
        config.price_exponent,
    ) {
        Ok(p) => p,
        Err(e) => {
            return Err(e);
        },
    };
    let next = Position {
        owner: position.owner,
        collateral_balance: position.collateral_balance - amount_collateral,
        debt_amount: position.debt_amount - amount_to_burn,
    };
    match check_health_factor(&next, config, price) {
        Ok(()) => {
            *position = next;
            Ok(())
        },
        Err(e) => Err(e),
    }
}

/// Repays `amount_to_burn` of an unhealthy position's debt at the price of
/// `reading` and returns the collateral the liquidator receives.
pub fn liquidate_position(
    config: &ProtocolConfig,
    position: &mut Position,
    reading: &PriceReading,
    now: i64,
    amount_to_burn: u64,
) -> (r: Result<u64, StablecoinError>)
    requires
        config.wf(),
    ensures
        ({
            let outcome = liquidate_outcome(*config, *old(position), *reading, now, amount_to_burn);
            &&& r is Ok <==> outcome is Ok
            &&& outcome matches Ok(p) ==> *final(position) == p
            &&& outcome matches Err(e) ==> r == Err::<u64, StablecoinError>(e) && *final(position)
                == *old(position)
        }),
        r matches Ok(seized) ==> seized == liquidation_seizure(
            amount_to_burn as int,
            reading.price as int,
            config.price_scale as int,
            config.liquidation_bonus as int,
            old(position).collateral_balance as int,
        ),
        position_is_healthy(*config, *old(position), reading.price as int) ==> r is Err,
{
    let price = match validate_price(
        reading,
        now,
        config.max_price_age,
        config.max_confidence_bps,
        config.price_exponent,
    ) {
        Ok(p) => p,
        Err(e) => {
            return Err(e);
        },
    };
    if check_health_factor(position, config, price).is_ok() {
        return Err(StablecoinError::AboveMinimumHealthFactor);
    }
    if amount_to_burn > position.debt_amount {
        return Err(StablecoinError::InsufficientBalance);
    }
    let ghost a = amount_to_burn as int;
    let ghost s = config.price_scale as int;
    proof {
        assert(0 <= a * s <= u64::MAX * u64::MAX) by (nonlinear_arith)
            requires
                0 <= a <= u64::MAX,
                0 <= s <= u64::MAX,
        ;
    }
    let base: u128 = (amount_to_burn as u128 * config.price_scale as u128 + (price as u128 - 1))
        / price as u128;
    let bonus: u128 = 100 + config.liquidation_bonus as u128;
    let ghost b = bonus as int;
    let ghost base_int = base as int;
    proof {
        assert(100 * base_int <= base_int * b + 99) by (nonlinear_arith)
            requires
                base_int >= 0,
                b >= 100,
        ;
        vstd::arithmetic::div_mod::lemma_div_is_ordered(100 * base_int, base_int * b + 99, 100);
        vstd::arithmetic::div_mod::lemma_div_multiples_vanish(base_int, 100);
    }
    let seized: u64 = if base > position.collateral_balance as u128 {
        position.collateral_balance
    } else {
        proof {
            assert(0 <= base_int * b <= u64::MAX * 200) by (nonlinear_arith)
                requires
                    0 <= base_int <= u64::MAX,
                    100 <= b <= 200,
            ;
        }
        let owed: u128 = (base * bonus + 99) / 100;
        if owed > position.collateral_balance as u128 {
            position.collateral_balance
        } else {
            owed as u64
        }
    };
    let next = Position {
        owner: position.owner,
        collateral_balance: position.collateral_balance - seized,
        debt_amount: position.debt_amount - amount_to_burn,
    };
    if next.debt_amount > 0 && check_health_factor(&next, config, price).is_err() {
        return Err(StablecoinError::BelowMinHealthFactor);
    }
    *position = next;
    Ok(seized)
}

/// Accounts of a deposit that mints debt tokens against it.
pub struct DepositCollateralAndMintTokens {
    pub depositor: Identity,
    pub price_update: PriceUpdateV2,
    pub unix_timestamp: i64,
    pub config_account: ProtocolConfig,
    pub collateral_account: Position,
}

/// Accounts of a redemption that burns debt tokens and releases collateral.
pub struct RedeemCollateralAndBurningTokens {
    pub redeemer: Identity,
    pub price_update: PriceUpdateV2,
    pub unix_timestamp: i64,
    pub config_account: ProtocolConfig,
    pub collateral_account: Position,
}

/// Accounts of a liquidation of another participant's position.
pub struct Liquidate {
    pub liquidator: Identity,
    pub price_update: PriceUpdateV2,
    pub unix_timestamp: i64,
    pub config_account: ProtocolConfig,
    pub collateral_account: Position,
}

/// Deposits collateral and mints debt tokens against it, at the price that
/// the posted update gives for the configured feed. On success the caller
/// moves the collateral in and mints; on failure nothing has changed.
pub fn deposit_collateral_and_mint_tokens(
    ctx: &mut DepositCollateralAndMintTokens,
    amount_collateral: u64,
    amount_tokens: u64,
) -> (r: Result<(), StablecoinError>)
    requires
        old(ctx).config_account.wf(),
    ensures
        final(ctx).depositor == old(ctx).depositor,
        final(ctx).price_update == old(ctx).price_update,
        final(ctx).unix_timestamp == old(ctx).unix_timestamp,
        final(ctx).config_account == old(ctx).config_account,
        r is Err ==> final(ctx).collateral_account == old(ctx).collateral_account,
        ({
            let config = old(ctx).config_account;
            let position = old(ctx).collateral_account;
            if position.owner@ != old(ctx).depositor@ {
                r == Err::<(), StablecoinError>(StablecoinError::Unauthorized)
            } else {
                match posted_price(config, old(ctx).price_update, old(ctx).unix_timestamp) {
                    None => r == Err::<(), StablecoinError>(StablecoinError::InvalidPrice),
                    Some(reading) => match deposit_outcome(
                        config,
                        position,
                        old(ctx).depositor@,
                        reading,
                        old(ctx).unix_timestamp,
                        amount_collateral,
                        amount_tokens,
                    ) {
                        Ok(p) => r is Ok && final(ctx).collateral_account == p,
                        Err(e) => r == Err::<(), StablecoinError>(e),
                    },
                }
            }
        }),
{
    if !same_identity(&ctx.collateral_account.owner, &ctx.depositor) {
        return Err(StablecoinError::Unauthorized);
    }
    let config = ctx.config_account;
    let reading = match read_price(
        &ctx.price_update,
        &config.price_feed_id,
        ctx.unix_timestamp,
        config.max_price_age,
        config.max_confidence_bps,
        config.price_exponent,
    ) {
        Ok(reading) => reading,
        Err(e) => {
            return Err(e);
        },
    };
    deposit_and_mint(
        &config,
        &mut ctx.collateral_account,
        &ctx.depositor,
        &reading,
        ctx.unix_timestamp,
        amount_collateral,
        amount_tokens,
    )
}

/// Burns debt tokens and withdraws collateral, at the price that the posted
/// update gives for the configured feed. On success the caller burns the
/// tokens and releases the collateral; on failure nothing has changed.
pub fn process_redeem_collateral_and_burning_tokens(
    ctx: &mut RedeemCollateralAndBurningTokens,
    amount_to_burn: u64,
    amount_collateral: u64,
) -> (r: Result<(), StablecoinError>)
    requires
        old(ctx).config_account.wf(),
    ensures
        final(ctx).redeemer == old(ctx).redeemer,
        final(ctx).price_update == old(ctx).price_update,
        final(ctx).unix_timestamp == old(ctx).unix_timestamp,
        final(ctx).config_account == old(ctx).config_account,
        r is Err ==> final(ctx).collateral_account == old(ctx).collateral_account,
        ({
            let config = old(ctx).config_account;
            let position = old(ctx).collateral_account;
            if position.owner@ != old(ctx).redeemer@ {
                r == Err::<(), StablecoinError>(StablecoinError::Unauthorized)
            } else if amount_collateral > position.collateral_balance || amount_to_burn
                > position.debt_amount {
                r == Err::<(), StablecoinError>(StablecoinError::InsufficientBalance)
            } else {
                match posted_price(config, old(ctx).price_update, old(ctx).unix_timestamp) {
                    None => r == Err::<(), StablecoinError>(StablecoinError::InvalidPrice),
                    Some(reading) => match redeem_outcome(
                        config,
                        position,
                        old(ctx).redeemer@,
                        reading,
                        old(ctx).unix_timestamp,
                        amount_to_burn,
                        amount_collateral,
                    ) {
                        Ok(p) => r is Ok && final(ctx).collateral_account == p,
                        Err(e) => r == Err::<(), StablecoinError>(e),
                    },
                }
            }
        }),
{
    if !same_identity(&ctx.collateral_account.owner, &ctx.redeemer) {
        return Err(StablecoinError::Unauthorized);
    }
    let current = ctx.collateral_account;
    if amount_collateral > current.collateral_balance || amount_to_burn > current.debt_amount {
        return Err(StablecoinError::InsufficientBalance);
    }
    let config = ctx.config_account;
    let reading = match read_price(
        &ctx.price_update,
        &config.price_feed_id,
        ctx.unix_timestamp,
        config.max_price_age,
        config.max_confidence_bps,
        config.price_exponent,
    ) {
        Ok(reading) => reading,
        Err(e) => {
            return Err(e);
        },
    };
    redeem_and_burn(
        &config,
        &mut ctx.collateral_account,
        &ctx.redeemer,
        &reading,
        ctx.unix_timestamp,
        amount_to_burn,
        amount_collateral,
    )
}

/// Liquidates part or all of an unhealthy position at the price that the
/// posted update gives for the configured feed, and returns the collateral
/// the liquidator receives. On failure nothing has changed.
pub fn liquidate(ctx: &mut Liquidate, amount_to_burn: u64) -> (r: Result<u64, StablecoinError>)
    requires
        old(ctx).config_account.wf(),
    ensures
        final(ctx).liquidator == old(ctx).liquidator,
        final(ctx).price_update == old(ctx).price_update,
        final(ctx).unix_timestamp == old(ctx).unix_timestamp,
        final(ctx).config_account == old(ctx).config_account,
        r is Err ==> final(ctx).collateral_account == old(ctx).collateral_account,
        ({
            let config = old(ctx).config_account;
            let position = old(ctx).collateral_account;
            match posted_price(config, old(ctx).price_update, old(ctx).unix_timestamp) {
                None => r == Err::<u64, StablecoinError>(StablecoinError::InvalidPrice),
                Some(reading) => match liquidate_outcome(
                    config,
                    position,
                    reading,
                    old(ctx).unix_timestamp,
                    amount_to_burn,
                ) {
                    Ok(p) => final(ctx).collateral_account == p && r == Ok::<u64, StablecoinError>(
                        liquidation_seizure(
                            amount_to_burn as int,
                            reading.price as int,
                            config.price_scale as int,
                            config.liquidation_bonus as int,
                            position.collateral_balance as int,
                        ) as u64,
                    ),
                    Err(e) => r == Err::<u64, StablecoinError>(e),
                },
            }
        }),
{
    let config = ctx.config_account;
    let reading = match read_price(
        &ctx.price_update,
        &config.price_feed_id,
        ctx.unix_timestamp,
        config.max_price_age,
        config.max_confidence_bps,
        config.price_exponent,
    ) {
        Ok(reading) => reading,
        Err(e) => {
            return Err(e);
        },
    };
    liquidate_position(&config, &mut ctx.collateral_account, &reading, ctx.unix_timestamp, amount_to_burn)
}

} // verus!
