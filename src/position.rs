use vstd::prelude::*;

use crate::config::{Identity, ProtocolConfig};
use crate::error::StablecoinError;
use crate::health::{calculate_health_factor, is_healthy};

verus! {

/// One participant's collateral and the debt minted against it.
#[derive(Clone, Copy, Debug, PartialEq, Eq)]
pub struct Position {
    pub owner: Identity,
    pub collateral_balance: u64,
    pub debt_amount: u64,
}

impl Position {
    /// The empty position of `owner`, as created on its first deposit.
    pub fn new(owner: Identity) -> (r: Position)
        ensures
            r.owner == owner,
            r.collateral_balance == 0,
            r.debt_amount == 0,
    {
        Position { owner, collateral_balance: 0, debt_amount: 0 }
    }
}

/// The position meets the configuration's minimum at `price`.
pub open spec fn position_is_healthy(config: ProtocolConfig, position: Position, price: int) -> bool {
    is_healthy(
        position.collateral_balance as int,
        position.debt_amount as int,
        price,
        config.price_scale as int,
        config.liquidation_threshold as int,
        config.minimum_health_factor as int,
    )
}

/// Accepts a position that is healthy at `price`, else `BelowMinHealthFactor`.
pub fn check_health_factor(position: &Position, config: &ProtocolConfig, price: u64) -> (r: Result<
    (),
    StablecoinError,
>)
    requires
        config.price_scale > 0,
    ensures
        r is Ok <==> position_is_healthy(*config, *position, price as int),
        r is Err ==> r == Err::<(), StablecoinError>(StablecoinError::BelowMinHealthFactor),
{
    if position.debt_amount == 0 {
        return Ok(());
    }
    let factor = calculate_health_factor(
        position.collateral_balance,
        position.debt_amount,
        price,
        config.price_scale,
        config.liquidation_threshold,
    );
    if factor >= config.minimum_health_factor {
        Ok(())
    } else {
        Err(StablecoinError::BelowMinHealthFactor)
    }
}

} // verus!
