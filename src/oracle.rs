use vstd::prelude::*;

use anchor_lang::prelude::Clock;
use pyth_solana_receiver_sdk::price_update::PriceUpdateV2;

use crate::error::StablecoinError;

verus! {

/// A posted price update account of the Pyth receiver. Its contents are read
/// only through `fresh_price_of`.
#[verifier::external_type_specification]
#[verifier::external_body]
pub struct ExPriceUpdateV2(PriceUpdateV2);

/// Confidence limits are expressed in basis points of the price.
pub const CONFIDENCE_SCALE: u64 = 10_000;

/// One reading of the collateral price feed.
#[derive(Clone, Copy, Debug, PartialEq, Eq)]
pub struct PriceReading {
    /// Price of one collateral unit, in units of `10^exponent` debt tokens.
    pub price: i64,
    /// Half-width of the feed's confidence interval, in the unit of `price`.
    pub confidence: u64,
    /// Decimal exponent of `price` and `confidence`.
    pub exponent: i32,
    /// Unix time, in seconds, at which the feed published this reading.
    pub publish_time: i64,
}

/// The reading was published more than `max_age` seconds before `now`.
pub open spec fn is_stale(publish_time: int, now: int, max_age: int) -> bool {
    publish_time + max_age < now
}

/// The confidence interval is wider than `max_confidence_bps` basis points of
/// the price.
pub open spec fn is_low_confidence(price: int, confidence: int, max_confidence_bps: int) -> bool {
    confidence * CONFIDENCE_SCALE > price * max_confidence_bps
}

/// A reading that may be used: a positive price at the expected decimal
/// exponent, fresh enough and precise enough.
pub open spec fn price_is_valid(
    reading: PriceReading,
    now: i64,
    max_age: u64,
    max_confidence_bps: u64,
    exponent: i32,
) -> bool {
    &&& reading.price > 0
    &&& reading.exponent == exponent
    &&& !is_stale(reading.publish_time as int, now as int, max_age as int)
    &&& !is_low_confidence(reading.price as int, reading.confidence as int, max_confidence_bps as int)
}

/// Checks a reading at time `now` for a positive price at decimal exponent
/// `exponent` and against the age and confidence limits, and yields its
/// price, or `InvalidPrice`.
pub fn validate_price(
    reading: &PriceReading,
    now: i64,
    max_age: u64,
    max_confidence_bps: u64,
    exponent: i32,
) -> (r: Result<u64, StablecoinError>)
    ensures
        r is Ok <==> price_is_valid(*reading, now, max_age, max_confidence_bps, exponent),
        r matches Ok(p) ==> p == reading.price,
        r matches Err(e) ==> e == StablecoinError::InvalidPrice,
{
    if reading.price <= 0 || reading.exponent != exponent {
        return Err(StablecoinError::InvalidPrice);
    }
    let deadline: i128 = reading.publish_time as i128 + max_age as i128;
    if deadline < now as i128 {
        return Err(StablecoinError::InvalidPrice);
    }
    let price: u64 = reading.price as u64;
    let spread: u128 = reading.confidence as u128 * CONFIDENCE_SCALE as u128;
    proof {
        let (p, b) = (price as int, max_confidence_bps as int);
        assert(0 <= p * b <= u64::MAX * u64::MAX) by (nonlinear_arith)
            requires
                0 <= p <= u64::MAX,
                0 <= b <= u64::MAX,
        ;
    }
    let allowed: u128 = price as u128 * max_confidence_bps as u128;
    if spread > allowed {
        Err(StablecoinError::InvalidPrice)
    } else {
        Ok(price)
    }
}

/// The reading that a posted update gives for feed `feed_id` at time `now`
/// with age limit `max_age`, or none where the update refuses one.
pub uninterp spec fn posted_reading(update: PriceUpdateV2, feed_id: Seq<u8>, now: int, max_age: int) -> Option<PriceReading>;

/// Relies on `PriceUpdateV2::get_price_no_older_than` of
/// pyth-solana-receiver-sdk: its answer depends on the update, the clock's
/// time, `max_age` and `feed_id` alone; it answers only for a fully verified
/// update of the feed `feed_id` whose publish time plus `max_age`
/// (saturating) is not before the clock's time, and then returns the
/// update's own price, confidence, exponent and publish time. It unwraps
/// `max_age` as an `i64`.
#[verifier::external_body]
fn fresh_price_of(update: &PriceUpdateV2, feed_id: &[u8; 32], now: i64, max_age: u64) -> (r: Option<
    PriceReading,
>)
    requires
        max_age <= i64::MAX,
    ensures
        r == posted_reading(*update, feed_id@, now as int, max_age as int),
        r matches Some(p) ==> !is_stale(p.publish_time as int, now as int, max_age as int),
{
    let clock = Clock { unix_timestamp: now, ..Clock::default() };
    let p = update.get_price_no_older_than(&clock, max_age, feed_id).ok()?;
    Some(PriceReading { price: p.price, confidence: p.conf, exponent: p.exponent, publish_time: p.publish_time })
}

/// Reads the price of feed `feed_id` from a posted update and checks it at
/// time `now`: the update's reading when it gives one and that reading is
/// valid, `InvalidPrice` otherwise.
pub fn read_price(
    update: &PriceUpdateV2,
    feed_id: &[u8; 32],
    now: i64,
    max_age: u64,
    max_confidence_bps: u64,
    exponent: i32,
) -> (r: Result<PriceReading, StablecoinError>)
    requires
        max_age <= i64::MAX,
    ensures
        ({
            let posted = posted_reading(*update, feed_id@, now as int, max_age as int);
            &&& r is Ok <==> (posted matches Some(p) && price_is_valid(
                p,
                now,
                max_age,
                max_confidence_bps,
                exponent,
            ))
            &&& r matches Ok(p) ==> posted == Some(p)
            &&& r matches Err(e) ==> e == StablecoinError::InvalidPrice
        }),
{
    match fresh_price_of(update, feed_id, now, max_age) {
        None => Err(StablecoinError::InvalidPrice),
        Some(reading) => match validate_price(&reading, now, max_age, max_confidence_bps, exponent) {
            Ok(_) => Ok(reading),
            Err(e) => Err(e),
        },
    }
}

} // verus!
