use vstd::prelude::*;

verus! {

/// Value, in debt-token units, of `collateral` units at `price`, where the
/// price counts units of `1 / scale` debt tokens per collateral unit.
/// Truncated.
pub open spec fn collateral_value(collateral: int, price: int, scale: int) -> int {
    collateral * price / scale
}

/// Health factor of a position, in hundredths: the collateral's value,
/// counted at `threshold` percent, divided by the debt. A position without
/// debt has the largest health factor there is.
pub open spec fn health_factor(collateral: int, debt: int, price: int, scale: int, threshold: int) -> int {
    if debt == 0 {
        u64::MAX as int
    } else {
        collateral_value(collateral, price, scale) * threshold / debt
    }
}

/// A position is healthy when it has no debt, or when its health factor
/// reaches `minimum`.
pub open spec fn is_healthy(
    collateral: int,
    debt: int,
    price: int,
    scale: int,
    threshold: int,
    minimum: int,
) -> bool {
    debt == 0 || health_factor(collateral, debt, price, scale, threshold) >= minimum
}

pub open spec fn saturate(x: int) -> int {
    if x > u64::MAX {
        u64::MAX as int
    } else {
        x
    }
}

/// Computes `health_factor`, capped at `u64::MAX`.
pub fn calculate_health_factor(collateral: u64, debt: u64, price: u64, scale: u64, threshold: u64) -> (r:
    u64)
    requires
        scale > 0,
    ensures
        r == saturate(
            health_factor(collateral as int, debt as int, price as int, scale as int, threshold as int),
        ),
{
    if debt == 0 {
        return u64::MAX;
    }
    let ghost c = collateral as int;
    let ghost p = price as int;
    let ghost t = threshold as int;
    let ghost d = debt as int;
    proof {
        assert(0 <= c * p <= u64::MAX * u64::MAX) by (nonlinear_arith)
            requires
                0 <= c <= u64::MAX,
                0 <= p <= u64::MAX,
        ;
    }
    let value: u128 = (collateral as u128 * price as u128) / scale as u128;
    let ghost v = value as int;
    match value.checked_mul(threshold as u128) {
        None => {
            proof {
                let m = u64::MAX as int;
                assert(m * d <= v * t) by (nonlinear_arith)
                    requires
                        v * t > u128::MAX,
                        1 <= d <= m,
                        m == u64::MAX,
                ;
                vstd::arithmetic::div_mod::lemma_div_is_ordered(m * d, v * t, d);
                vstd::arithmetic::div_mod::lemma_div_multiples_vanish(m, d);
                assert(d * m == m * d) by (nonlinear_arith);
            }
            u64::MAX
        },
        Some(adjusted) => {
            let q: u128 = adjusted / debt as u128;
            if q > u64::MAX as u128 {
                u64::MAX
            } else {
                q as u64
            }
        },
    }
}

} // verus!
