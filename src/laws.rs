use vstd::prelude::*;

use crate::config::ProtocolConfig;
use crate::error::StablecoinError;
use crate::health::{health_factor, is_healthy};
use crate::operations::{
    config_accepts_price,
    deposit_outcome,
    collateral_for_debt,
    liquidate_outcome,
    redeem_outcome,
};
use crate::oracle::{is_stale, PriceReading};
use crate::position::{position_is_healthy, Position};

verus! {

/// A successful deposit or redemption never leaves an indebted position below
/// the minimum health factor.
pub proof fn lemma_successful_operations_stay_healthy(
    config: ProtocolConfig,
    position: Position,
    caller: Seq<u8>,
    reading: PriceReading,
    now: i64,
    amount_collateral: u64,
    amount_debt: u64,
)
    ensures
        deposit_outcome(config, position, caller, reading, now, amount_collateral, amount_debt) matches Ok(
            p,
        ) ==> p.debt_amount > 0 ==> position_is_healthy(config, p, reading.price as int),
        redeem_outcome(config, position, caller, reading, now, amount_debt, amount_collateral) matches Ok(
            p,
        ) ==> p.debt_amount > 0 ==> position_is_healthy(config, p, reading.price as int),
{
}

/// A position that is healthy at an acceptable price cannot be liquidated,
/// whatever amount the liquidator offers to repay.
pub proof fn lemma_healthy_position_cannot_be_liquidated(
    config: ProtocolConfig,
    position: Position,
    reading: PriceReading,
    now: i64,
    amount_to_burn: u64,
)
    requires
        config_accepts_price(config, reading, now),
        position_is_healthy(config, position, reading.price as int),
    ensures
        liquidate_outcome(config, position, reading, now, amount_to_burn) == Err::<
            Position,
            StablecoinError,
        >(StablecoinError::AboveMinimumHealthFactor),
{
}

/// Redeeming exactly what a deposit added, at the same price and time, gives
/// back the position held before the deposit, provided that position was
/// itself healthy at that price.
pub proof fn lemma_deposit_then_redeem_restores_position(
    config: ProtocolConfig,
    position: Position,
    caller: Seq<u8>,
    reading: PriceReading,
    now: i64,
    amount_collateral: u64,
    amount_debt: u64,
)
    requires
        deposit_outcome(config, position, caller, reading, now, amount_collateral, amount_debt) is Ok,
        position_is_healthy(config, position, reading.price as int),
    ensures
        ({
            let after = deposit_outcome(
                config,
                position,
                caller,
                reading,
                now,
                amount_collateral,
                amount_debt,
            )->Ok_0;
            redeem_outcome(config, after, caller, reading, now, amount_debt, amount_collateral)
                == Ok::<Position, StablecoinError>(position)
        }),
{
}

/// A position without debt is healthy, whatever its collateral (none
/// included), the price and the configuration.
pub proof fn lemma_debt_free_position_is_healthy(
    collateral: u64,
    price: int,
    scale: int,
    threshold: int,
    minimum: u64,
)
    ensures
        health_factor(collateral as int, 0, price, scale, threshold) == u64::MAX,
        is_healthy(collateral as int, 0, price, scale, threshold, minimum as int),
{
}

/// A deposit into a position without debt that mints nothing succeeds at any
/// acceptable price, whatever the collateral (none included), as long as the
/// new balance fits its counter.
pub proof fn lemma_debt_free_deposit_succeeds(
    config: ProtocolConfig,
    position: Position,
    reading: PriceReading,
    now: i64,
    amount_collateral: u64,
)
    requires
        config_accepts_price(config, reading, now),
        position.debt_amount == 0,
        position.collateral_balance + amount_collateral <= u64::MAX,
    ensures
        deposit_outcome(config, position, position.owner@, reading, now, amount_collateral, 0)
            == Ok::<Position, StablecoinError>(
            Position {
                owner: position.owner,
                collateral_balance: (position.collateral_balance + amount_collateral) as u64,
                debt_amount: 0,
            },
        ),
{
}

/// A successful liquidation repays some debt, takes some collateral whenever
/// the position held any, and leaves a position that cannot be liquidated
/// again at the same price.
pub proof fn lemma_liquidation_reduces_position(
    config: ProtocolConfig,
    position: Position,
    reading: PriceReading,
    now: i64,
    amount_to_burn: u64,
    next_amount: u64,
)
    requires
        config.wf(),
        liquidate_outcome(config, position, reading, now, amount_to_burn) is Ok,
    ensures
        ({
            let after = liquidate_outcome(config, position, reading, now, amount_to_burn)->Ok_0;
            &&& after.debt_amount < position.debt_amount
            &&& position.collateral_balance > 0 ==> after.collateral_balance
                < position.collateral_balance
            &&& liquidate_outcome(config, after, reading, now, next_amount) == Err::<
                Position,
                StablecoinError,
            >(StablecoinError::AboveMinimumHealthFactor)
        }),
{
    let a = amount_to_burn as int;
    let p = reading.price as int;
    let s = config.price_scale as int;
    let b = 100 + config.liquidation_bonus as int;
    assert(p > 0 && s > 0);
    let base = collateral_for_debt(a, p, s);
    if a == 0 {
        assert(a * s == 0) by (nonlinear_arith)
            requires
                a == 0,
        ;
        vstd::arithmetic::div_mod::lemma_basic_div(p - 1, p);
        assert(base == 0);
        assert(base * b == 0) by (nonlinear_arith)
            requires
                base == 0,
        ;
        vstd::arithmetic::div_mod::lemma_basic_div(99, 100);
    } else {
        assert(a * s >= 1) by (nonlinear_arith)
            requires
                a >= 1,
                s >= 1,
        ;
        vstd::arithmetic::div_mod::lemma_div_is_ordered(p, a * s + p - 1, p);
        vstd::arithmetic::div_mod::lemma_div_multiples_vanish(1, p);
        assert(p * 1 == p);
        assert(base >= 1);
        assert(base * b + 99 >= 100) by (nonlinear_arith)
            requires
                base >= 1,
                b >= 100,
        ;
        vstd::arithmetic::div_mod::lemma_div_is_ordered(100, base * b + 99, 100);
    }
}

/// Redeeming all the debt and all the collateral of a position at an
/// acceptable price always succeeds and leaves it empty: a position without
/// debt is healthy even with no collateral.
pub proof fn lemma_full_redemption_succeeds(
    config: ProtocolConfig,
    position: Position,
    reading: PriceReading,
    now: i64,
)
    requires
        config_accepts_price(config, reading, now),
    ensures
        redeem_outcome(
            config,
            position,
            position.owner@,
            reading,
            now,
            position.debt_amount,
            position.collateral_balance,
        ) == Ok::<Position, StablecoinError>(
            Position { owner: position.owner, collateral_balance: 0, debt_amount: 0 },
        ),
{
}

/// A stale price reading rejects every operation with `InvalidPrice`, unless
/// the operation was already refused for its caller or its amounts.
pub proof fn lemma_stale_price_is_rejected(
    config: ProtocolConfig,
    position: Position,
    reading: PriceReading,
    now: i64,
    amount_collateral: u64,
    amount_debt: u64,
)
    requires
        is_stale(reading.publish_time as int, now as int, config.max_price_age as int),
    ensures
        deposit_outcome(config, position, position.owner@, reading, now, amount_collateral, amount_debt)
            == Err::<Position, StablecoinError>(StablecoinError::InvalidPrice),
        amount_collateral <= position.collateral_balance && amount_debt <= position.debt_amount
            ==> redeem_outcome(
            config,
            position,
            position.owner@,
            reading,
            now,
            amount_debt,
            amount_collateral,
        ) == Err::<Position, StablecoinError>(StablecoinError::InvalidPrice),
        liquidate_outcome(config, position, reading, now, amount_debt) == Err::<
            Position,
            StablecoinError,
        >(StablecoinError::InvalidPrice),
{
}

/// A ledger of positions after a deposit into its entry `i`; a rejected
/// deposit leaves it as it was.
pub open spec fn deposit_at(
    config: ProtocolConfig,
    ledger: Seq<Position>,
    i: int,
    depositor: Seq<u8>,
    reading: PriceReading,
    now: i64,
    amount_collateral: u64,
    amount_debt: u64,
) -> Seq<Position> {
    match deposit_outcome(config, ledger[i], depositor, reading, now, amount_collateral, amount_debt) {
        Ok(p) => ledger.update(i, p),
        Err(_) => ledger,
    }
}

/// Deposits into two distinct positions do not interfere: either order gives
/// the same ledger, and each position ends as its own deposit alone makes it.
pub proof fn lemma_deposits_on_distinct_positions_commute(
    config: ProtocolConfig,
    ledger: Seq<Position>,
    i: int,
    depositor_i: Seq<u8>,
    reading_i: PriceReading,
    now_i: i64,
    collateral_i: u64,
    debt_i: u64,
    j: int,
    depositor_j: Seq<u8>,
    reading_j: PriceReading,
    now_j: i64,
    collateral_j: u64,
    debt_j: u64,
)
    requires
        0 <= i < ledger.len(),
        0 <= j < ledger.len(),
        i != j,
    ensures
        ({
            let first_i = deposit_at(
                config,
                deposit_at(config, ledger, i, depositor_i, reading_i, now_i, collateral_i, debt_i),
                j,
                depositor_j,
                reading_j,
                now_j,
                collateral_j,
                debt_j,
            );
            let first_j = deposit_at(
                config,
                deposit_at(config, ledger, j, depositor_j, reading_j, now_j, collateral_j, debt_j),
                i,
                depositor_i,
                reading_i,
                now_i,
                collateral_i,
                debt_i,
            );
            &&& first_i == first_j
            &&& first_i[i] == deposit_at(
                config,
                ledger,
                i,
                depositor_i,
                reading_i,
                now_i,
                collateral_i,
                debt_i,
            )[i]
            &&& first_i[j] == deposit_at(
                config,
                ledger,
                j,
                depositor_j,
                reading_j,
                now_j,
                collateral_j,
                debt_j,
            )[j]
        }),
{
    let after_i = deposit_at(config, ledger, i, depositor_i, reading_i, now_i, collateral_i, debt_i);
    let after_j = deposit_at(config, ledger, j, depositor_j, reading_j, now_j, collateral_j, debt_j);
    assert(after_i[j] == ledger[j]);
    assert(after_j[i] == ledger[i]);
    let first_i = deposit_at(
        config,
        after_i,
        j,
        depositor_j,
        reading_j,
        now_j,
        collateral_j,
        debt_j,
    );
    let first_j = deposit_at(
        config,
        after_j,
        i,
        depositor_i,
        reading_i,
        now_i,
        collateral_i,
        debt_i,
    );
    assert(first_i =~= first_j);
}

} // verus!
