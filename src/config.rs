use vstd::prelude::*;

use crate::error::StablecoinError;

verus! {

/// A 32-byte account address.
pub type Identity = [u8; 32];

/// Health factor, in hundredths, that a new configuration demands.
pub const DEFAULT_MINIMUM_HEALTH_FACTOR: u64 = 100;

/// Percentage of the collateral's value that counts towards the health factor.
pub const LIQUIDATION_THRESHOLD: u64 = 50;

/// Extra collateral, in percent of the repaid debt's value, that a liquidator receives.
pub const LIQUIDATION_BONUS: u64 = 10;

/// Decimal exponent of the prices accepted: a price counts debt-token units
/// of `10^PRICE_EXPONENT` per collateral unit.
pub const PRICE_EXPONENT: i32 = -8;

/// `10^-PRICE_EXPONENT`: the number of price units in one debt-token unit.
pub const PRICE_SCALE: u64 = 100_000_000;

/// Oldest price reading accepted, in seconds.
pub const MAXIMUM_PRICE_AGE: u64 = 100;

/// Widest confidence interval accepted, in basis points of the price.
pub const MAXIMUM_CONFIDENCE_BPS: u64 = 100;

/// The protocol's single set of parameters.
#[derive(Clone, Copy, Debug, PartialEq, Eq)]
pub struct ProtocolConfig {
    pub admin_authority: Identity,
    pub debt_token_identity: Identity,
    /// The price feed that collateral is valued against.
    pub price_feed_id: [u8; 32],
    /// Decimal exponent that every accepted price reading carries.
    pub price_exponent: i32,
    /// `10^-price_exponent`: the number of price units in one debt-token unit.
    pub price_scale: u64,
    pub minimum_health_factor: u64,
    pub liquidation_threshold: u64,
    pub liquidation_bonus: u64,
    pub max_price_age: u64,
    pub max_confidence_bps: u64,
}

impl ProtocolConfig {
    pub open spec fn wf(&self) -> bool {
        &&& self.minimum_health_factor > 0
        &&& self.liquidation_threshold <= 100
        &&& self.liquidation_bonus <= 100
        &&& self.max_price_age <= i64::MAX
        &&& self.price_exponent <= 0
        &&& self.price_scale > 0
        &&& self.price_scale as int == vstd::arithmetic::power::pow(10, (-self.price_exponent) as nat)
    }
}

/// Whether two addresses are the same.
pub fn same_identity(a: &Identity, b: &Identity) -> (r: bool)
    ensures
        r == (a@ == b@),
{
    let mut i: usize = 0;
    while i < 32
        invariant
            i <= 32,
            a@.len() == 32,
            b@.len() == 32,
            forall|k: int| 0 <= k < i ==> a@[k] == b@[k],
        decreases 32 - i,
    {
        if a[i] != b[i] {
            return false;
        }
        i = i + 1;
    }
    assert(a@ =~= b@);
    true
}

/// Creates the configuration owned by `admin_authority`, unless `existing`
/// already holds one.
pub fn initialize_config(
    existing: &Option<ProtocolConfig>,
    admin_authority: Identity,
    debt_token_identity: Identity,
    price_feed_id: [u8; 32],
) -> (r: Result<ProtocolConfig, StablecoinError>)
    ensures
        r is Ok <==> existing is None,
        existing is Some <==> r == Err::<ProtocolConfig, StablecoinError>(
            StablecoinError::ConfigAlreadyInitialized,
        ),
        r matches Ok(c) ==> {
            &&& c.wf()
            &&& c.admin_authority == admin_authority
            &&& c.debt_token_identity == debt_token_identity
            &&& c.price_feed_id == price_feed_id
            &&& c.price_exponent == PRICE_EXPONENT
            &&& c.price_scale == PRICE_SCALE
            &&& c.minimum_health_factor == DEFAULT_MINIMUM_HEALTH_FACTOR
            &&& c.liquidation_threshold == LIQUIDATION_THRESHOLD
            &&& c.liquidation_bonus == LIQUIDATION_BONUS
            &&& c.max_price_age == MAXIMUM_PRICE_AGE
            &&& c.max_confidence_bps == MAXIMUM_CONFIDENCE_BPS
        },
{
    if existing.is_some() {
        return Err(StablecoinError::ConfigAlreadyInitialized);
    }
    proof {
        reveal_with_fuel(vstd::arithmetic::power::pow, 9);
    }
    Ok(
        ProtocolConfig {
            admin_authority,
            debt_token_identity,
            price_feed_id,
            price_exponent: PRICE_EXPONENT,
            price_scale: PRICE_SCALE,
            minimum_health_factor: DEFAULT_MINIMUM_HEALTH_FACTOR,
            liquidation_threshold: LIQUIDATION_THRESHOLD,
            liquidation_bonus: LIQUIDATION_BONUS,
            max_price_age: MAXIMUM_PRICE_AGE,
            max_confidence_bps: MAXIMUM_CONFIDENCE_BPS,
        },
    )
}

/// Sets the minimum health factor; only the admin may, and never to zero.
pub fn update_config(config: &mut ProtocolConfig, caller: &Identity, minimum_health_factor: u64) -> (r:
    Result<(), StablecoinError>)
    ensures
        old(config).admin_authority@ != caller@ ==> r == Err::<(), StablecoinError>(
            StablecoinError::Unauthorized,
        ),
        old(config).admin_authority@ == caller@ && minimum_health_factor == 0 ==> r == Err::<
            (),
            StablecoinError,
        >(StablecoinError::InvalidHealthFactor),
        r is Ok <==> (old(config).admin_authority@ == caller@ && minimum_health_factor > 0),
        r is Ok ==> *final(config) == (ProtocolConfig {
            minimum_health_factor,
            ..*old(config)
        }),
        r is Err ==> *final(config) == *old(config),
        old(config).wf() ==> final(config).wf(),
{
    if !same_identity(&config.admin_authority, caller) {
        return Err(StablecoinError::Unauthorized);
    }
    if minimum_health_factor == 0 {
        return Err(StablecoinError::InvalidHealthFactor);
    }
    config.minimum_health_factor = minimum_health_factor;
    Ok(())
}

} // verus!
