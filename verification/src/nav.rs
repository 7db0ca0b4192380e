//! Net asset value of a venue account: the spot and perpetual legs of every
//! listed market, added with checked addition.

use vstd::prelude::*;
use crate::error::{QuasarError, QuasarResult, math_result};
use crate::fixed_point::I80F48;
use crate::utils::{get_mango_spot_value, spot_value_spec};
use crate::venue::MarketState;

verus! {

/// Net asset value and, for each listed market, the base value of the
/// perpetual position in it.
#[derive(Clone, Debug)]
pub struct NetAssetValue {
    pub net_asset_value: I80F48,
    pub perp_exposure: Vec<I80F48>,
}

/// What one market adds to the net asset value: its spot value plus the sum
/// of the base and quote values of its perpetual position.
pub open spec fn market_value_spec(m: MarketState) -> Option<I80F48> {
    match spot_value_spec(m.balance, m.bank_cache, m.price) {
        Some(spot) => match m.perp.base_value.add_spec(m.perp.quote_value) {
            Some(perp) => spot.add_spec(perp),
            None => None,
        },
        None => None,
    }
}

/// Net asset value of the markets, added up in their order; `None` where a
/// checked operation fails.
pub open spec fn nav_spec(markets: Seq<MarketState>) -> Option<I80F48>
    decreases markets.len(),
{
    if markets.len() == 0 {
        Some(I80F48 { bits: 0 })
    } else {
        match nav_spec(markets.drop_last()) {
            Some(before) => match market_value_spec(markets.last()) {
                Some(value) => before.add_spec(value),
                None => None,
            },
            None => None,
        }
    }
}

/// The base value of the perpetual position in each market.
pub open spec fn perp_exposure_spec(markets: Seq<MarketState>) -> Seq<I80F48> {
    Seq::new(markets.len(), |i: int| markets[i].perp.base_value)
}

/// What one market adds to the net asset value.
pub fn market_value(m: &MarketState) -> (r: QuasarResult<I80F48>)
    ensures
        r == math_result(market_value_spec(*m)),
{
    let spot = match get_mango_spot_value(&m.balance, &m.bank_cache, m.price) {
        Ok(v) => v,
        Err(e) => { return Err(e); },
    };
    match m.perp.base_value.checked_add(m.perp.quote_value) {
        Some(perp) => match spot.checked_add(perp) {
            Some(v) => Ok(v),
            None => Err(QuasarError::MathError),
        },
        None => Err(QuasarError::MathError),
    }
}

/// Computes the net asset value of the listed markets and the perpetual
/// exposure of each. Fails with `MathError`, and only then, where a checked
/// operation fails.
pub fn compute(markets: &Vec<MarketState>) -> (r: QuasarResult<NetAssetValue>)
    ensures
        match nav_spec(markets@) {
            Some(nav) => r matches Ok(v) && v.net_asset_value == nav && v.perp_exposure@
                == perp_exposure_spec(markets@),
            None => r == Err::<NetAssetValue, QuasarError>(QuasarError::MathError),
        },
{
    let mut net_asset_value = I80F48::zero();
    let mut perp_exposure: Vec<I80F48> = Vec::new();
    let mut i: usize = 0;
    assert(markets@.subrange(0, 0) =~= Seq::<MarketState>::empty());
    while i < markets.len()
        invariant
            0 <= i <= markets@.len(),
            nav_spec(markets@.subrange(0, i as int)) == Some(net_asset_value),
            perp_exposure@ == perp_exposure_spec(markets@.subrange(0, i as int)),
        decreases markets@.len() - i,
    {
        let ghost before = markets@.subrange(0, i as int);
        let ghost upto = markets@.subrange(0, i + 1);
        proof {
            assert(upto.drop_last() =~= before);
            assert(upto.last() == markets@[i as int]);
        }
        let value = match market_value(&markets[i]) {
            Ok(v) => v,
            Err(e) => {
                proof {
                    lemma_nav_prefix_fails(markets@, i + 1);
                }
                return Err(QuasarError::MathError);
            },
        };
        net_asset_value = match net_asset_value.checked_add(value) {
            Some(v) => v,
            None => {
                proof {
                    lemma_nav_prefix_fails(markets@, i + 1);
                }
                return Err(QuasarError::MathError);
            },
        };
        perp_exposure.push(markets[i].perp.base_value);
        i = i + 1;
        assert(perp_exposure@ =~= perp_exposure_spec(upto));
    }
    assert(markets@.subrange(0, i as int) =~= markets@);
    Ok(NetAssetValue { net_asset_value, perp_exposure })
}

/// Where the net asset value of the first `k` markets fails, that of all of
/// them fails.
pub proof fn lemma_nav_prefix_fails(markets: Seq<MarketState>, k: int)
    requires
        0 <= k <= markets.len(),
        nav_spec(markets.subrange(0, k)) is None,
    ensures
        nav_spec(markets) is None,
    decreases markets.len() - k,
{
    if k == markets.len() {
        assert(markets.subrange(0, k) =~= markets);
    } else {
        let next = markets.subrange(0, k + 1);
        assert(next.drop_last() =~= markets.subrange(0, k));
        lemma_nav_prefix_fails(markets, k + 1);
    }
}

/// Whether a market holds nothing: no deposit, no borrow, and a perpetual
/// position without base or quote value.
pub open spec fn is_flat(m: MarketState) -> bool {
    &&& m.balance.deposit.bits == 0
    &&& m.balance.borrow.bits == 0
    &&& m.perp.base_value.bits == 0
    &&& m.perp.quote_value.bits == 0
}

/// A venue account whose balances are all zero has the net asset value
/// zero, whatever the prices and indexes are.
pub proof fn lemma_zero_balances_zero_nav(markets: Seq<MarketState>)
    requires
        forall|i: int| 0 <= i < markets.len() ==> is_flat(#[trigger] markets[i]),
    ensures
        nav_spec(markets) == Some(I80F48 { bits: 0 }),
    decreases markets.len(),
{
    if markets.len() > 0 {
        let before = markets.drop_last();
        assert forall|i: int| 0 <= i < before.len() implies is_flat(#[trigger] before[i]) by {
            assert(before[i] == markets[i]);
        }
        lemma_zero_balances_zero_nav(before);
        let m = markets.last();
        assert(is_flat(m));
        assert(0 * m.price.bits == 0);
        assert(market_value_spec(m) == Some(I80F48 { bits: 0 }));
    }
}

} // verus!
