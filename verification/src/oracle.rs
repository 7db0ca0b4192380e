//! Reading the price of a base token from its oracle.
//!
//! An oracle account is classified by the tag in its first four bytes. How
//! the rest of each format is laid out is not this library's business: the
//! caller decodes the account into an `OracleAccount`.

use vstd::prelude::*;
use vstd::slice::slice_subrange;
use crate::error::{QuasarError, QuasarResult};
use crate::fixed_point::{checked_pow10, pow10_u64_spec, I80F48, ONE_BITS};
use crate::le_bytes::{le_value, read_u32_le};
use crate::state::BaseToken;

verus! {

/// Tag of a live price feed.
pub const PYTH_MAGIC: u32 = 0xa1b2c3d4;

/// Tag of a stub oracle, whose price the operator sets.
pub const STUB_MAGIC: u32 = 0x6F676E4D;

/// Format of an oracle account.
#[derive(Clone, Copy, Debug, PartialEq, Eq, Structural)]
pub enum OracleType {
    Pyth,
    Stub,
    Unknown,
}

/// The aggregate of a live price feed.
#[derive(Clone, Copy, Debug, PartialEq, Eq, Structural)]
pub struct PriceInfo {
    pub price: i64,
}

/// A live price feed: the aggregate price is `agg.price` times ten to the
/// power `expo`.
#[derive(Clone, Copy, Debug, PartialEq, Eq, Structural)]
pub struct Price {
    pub agg: PriceInfo,
    pub expo: i32,
}

/// A stub oracle.
#[derive(Clone, Copy, Debug, PartialEq, Eq, Structural)]
pub struct StubOracle {
    pub magic: u32,
    pub price: I80F48,
    pub last_update: u64,
}

/// An oracle account, decoded according to its format.
#[derive(Clone, Copy, Debug, PartialEq, Eq, Structural)]
pub enum OracleAccount {
    Pyth(Price),
    Stub(StubOracle),
    Unknown,
}

/// The format that the tag of `data` stands for: unknown where `data` has
/// no four bytes or another tag.
pub open spec fn oracle_type_spec(data: Seq<u8>) -> OracleType {
    if data.len() < 4 {
        OracleType::Unknown
    } else if le_value(data.subrange(0, 4)) == PYTH_MAGIC {
        OracleType::Pyth
    } else if le_value(data.subrange(0, 4)) == STUB_MAGIC {
        OracleType::Stub
    } else {
        OracleType::Unknown
    }
}

/// The exponent that scales a live price: the quote decimals plus the
/// feed's exponent, minus the quote decimals again, each step checked in 32
/// bits. So it is the feed's exponent, unless the sum does not fit.
pub open spec fn combined_exponent_spec(quote_decimals: u8, expo: i32) -> Option<i32> {
    if quote_decimals + expo > i32::MAX {
        None
    } else {
        Some(((quote_decimals + expo) - quote_decimals) as i32)
    }
}

/// The price that a live feed gives: the aggregate price times ten to the
/// combined exponent, or divided by ten to its absolute value where it is
/// negative. `None` where a checked operation fails.
pub open spec fn live_price_spec(price: Price, quote_decimals: u8) -> Option<I80F48> {
    match combined_exponent_spec(quote_decimals, price.expo) {
        Some(decimals) => {
            let magnitude = if decimals < 0 {
                -decimals
            } else {
                decimals as int
            };
            match pow10_u64_spec(magnitude as nat) {
                Some(adjustment) => {
                    let value = I80F48 { bits: (price.agg.price * ONE_BITS) as i128 };
                    let factor = I80F48 { bits: (adjustment * ONE_BITS) as i128 };
                    if decimals < 0 {
                        value.div_spec(factor)
                    } else {
                        value.mul_spec(factor)
                    }
                },
                None => None,
            }
        },
        None => None,
    }
}

/// What `read_oracle` returns: the scaled price of a live feed, the raw
/// price of a stub, and a failure for an unknown format.
pub open spec fn read_oracle_spec(base_token: BaseToken, oracle: OracleAccount) -> QuasarResult<I80F48> {
    match oracle {
        OracleAccount::Pyth(price) => match live_price_spec(price, base_token.decimals) {
            Some(value) => Ok(value),
            None => Err(QuasarError::MathError),
        },
        OracleAccount::Stub(stub) => Ok(stub.price),
        OracleAccount::Unknown => Err(QuasarError::UnknownOracle),
    }
}

/// Classifies an oracle account by the tag in its first four bytes.
pub fn determine_oracle_type(data: &[u8]) -> (r: OracleType)
    ensures
        r == oracle_type_spec(data@),
{
    if data.len() < 4 {
        return OracleType::Unknown;
    }
    let magic = read_u32_le(slice_subrange(data, 0, 4));
    if magic == PYTH_MAGIC {
        OracleType::Pyth
    } else if magic == STUB_MAGIC {
        OracleType::Stub
    } else {
        OracleType::Unknown
    }
}

impl OracleAccount {
    /// The format of the account.
    pub fn oracle_type(&self) -> (r: OracleType)
        ensures
            r == match *self {
                OracleAccount::Pyth(_) => OracleType::Pyth,
                OracleAccount::Stub(_) => OracleType::Stub,
                OracleAccount::Unknown => OracleType::Unknown,
            },
    {
        match self {
            OracleAccount::Pyth(_) => OracleType::Pyth,
            OracleAccount::Stub(_) => OracleType::Stub,
            OracleAccount::Unknown => OracleType::Unknown,
        }
    }
}

/// The exponent that scales a live price.
pub fn combined_exponent(quote_decimals: u8, expo: i32) -> (r: Option<i32>)
    ensures
        r == combined_exponent_spec(quote_decimals, expo),
{
    let quote: i32 = quote_decimals as i32;
    match quote.checked_add(expo) {
        Some(sum) => sum.checked_sub(quote),
        None => None,
    }
}

/// The price that a live feed gives, scaled by the combined exponent.
pub fn live_price(price: &Price, quote_decimals: u8) -> (r: Option<I80F48>)
    ensures
        r == live_price_spec(*price, quote_decimals),
{
    let decimals = match combined_exponent(quote_decimals, price.expo) {
        Some(d) => d,
        None => { return None; },
    };
    let magnitude: u32 = if decimals < 0 {
        (-(decimals as i64)) as u32
    } else {
        decimals as u32
    };
    let adjustment = match checked_pow10(magnitude) {
        Some(a) => a,
        None => { return None; },
    };
    let value = I80F48::from_i64(price.agg.price);
    let factor = I80F48::from_u64(adjustment);
    if decimals < 0 {
        value.checked_div(factor)
    } else {
        value.checked_mul(factor)
    }
}

/// Reads the price of a base token from its oracle, in the venue's
/// quote-decimal convention.
///
/// Fails with `UnknownOracle` for an account of unknown format, and with
/// `MathError` where a checked operation on a live price fails.
pub fn read_oracle(base_token: &BaseToken, oracle: &OracleAccount) -> (r: QuasarResult<I80F48>)
    ensures
        r == read_oracle_spec(*base_token, *oracle),
{
    match oracle {
        OracleAccount::Pyth(price) => match live_price(price, base_token.decimals) {
            Some(value) => Ok(value),
            None => Err(QuasarError::MathError),
        },
        OracleAccount::Stub(stub) => Ok(stub.price),
        OracleAccount::Unknown => Err(QuasarError::UnknownOracle),
    }
}

/// The quote decimals cancel: live prices with the same aggregate and
/// exponent are the same for any two counts of quote decimals with which the
/// combined exponent can be computed.
pub proof fn lemma_quote_decimals_cancel(price: Price, first: u8, second: u8)
    requires
        first + price.expo <= i32::MAX,
        second + price.expo <= i32::MAX,
    ensures
        combined_exponent_spec(first, price.expo) == Some(price.expo),
        live_price_spec(price, first) == live_price_spec(price, second),
{
}

} // verus!
