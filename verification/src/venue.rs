//! What the vault reads from the margin-trading venue, and what it asks of it.
//!
//! The venue's own records are not read here. Whoever calls the library
//! copies from them the values below, one `MarketState` for each market that
//! the venue's group lists, in the group's order.

use vstd::prelude::*;
use crate::fixed_point::I80F48;
use crate::pubkey::Pubkey;

verus! {

/// The cached interest indexes of one token at the venue.
#[derive(Clone, Copy, Debug)]
pub struct RootBankCache {
    pub deposit_index: I80F48,
    pub borrow_index: I80F48,
}

/// What the venue account holds of one token: a deposit or a borrow.
#[derive(Clone, Copy, Debug)]
pub struct SpotBalance {
    pub deposit: I80F48,
    pub borrow: I80F48,
}

/// The notional value of the venue account's perpetual position in one
/// market at the cached price, as the venue's market-state module gives it.
#[derive(Clone, Copy, Debug)]
pub struct PerpValue {
    pub base_value: I80F48,
    pub quote_value: I80F48,
}

/// What the venue's group records of one perpetual market.
#[derive(Clone, Copy, Debug)]
pub struct PerpMarketInfo {
    /// Identity of the market.
    pub perp_market: Pubkey,
    /// Decimals of the market's base token.
    pub base_decimals: u8,
    pub base_lot_size: i64,
    pub quote_lot_size: i64,
}

/// One listed market: the group's record of it, the cached price and
/// indexes, and the venue account's position in it.
#[derive(Clone, Copy, Debug)]
pub struct MarketState {
    pub info: PerpMarketInfo,
    pub price: I80F48,
    pub bank_cache: RootBankCache,
    pub balance: SpotBalance,
    pub perp: PerpValue,
}

/// The venue account of one leverage token with the venue's group and cache,
/// as they stand when an instruction runs.
#[derive(Clone, Debug)]
pub struct VenueSnapshot {
    /// Identity of the venue account.
    pub account: Pubkey,
    /// Decimals of the quote token.
    pub quote_decimals: u8,
    /// The listed markets, in the group's order.
    pub markets: Vec<MarketState>,
}

/// Whether market `i` of `markets` has the identity `perp_market`.
pub open spec fn perp_market_at(markets: Seq<MarketState>, i: int, perp_market: Pubkey) -> bool {
    0 <= i < markets.len() && markets[i].info.perp_market@ == perp_market@
}

/// The first listed market with the identity `perp_market`, if there is one.
pub open spec fn perp_market_index_spec(markets: Seq<MarketState>, perp_market: Pubkey) -> Option<
    usize,
> {
    if exists|i: int| perp_market_at(markets, i, perp_market) {
        Some(
            (choose|i: int|
                perp_market_at(markets, i, perp_market) && forall|j: int|
                    0 <= j < i ==> !perp_market_at(markets, j, perp_market)) as usize,
        )
    } else {
        None
    }
}

/// The first market with the identity, where market `i` has it and none
/// before.
pub proof fn lemma_perp_market_index(markets: Seq<MarketState>, perp_market: Pubkey, i: int)
    requires
        perp_market_at(markets, i, perp_market),
        forall|j: int| 0 <= j < i ==> !perp_market_at(markets, j, perp_market),
    ensures
        perp_market_index_spec(markets, perp_market) == Some(i as usize),
{
    let c = choose|c: int|
        perp_market_at(markets, c, perp_market) && forall|j: int|
            0 <= j < c ==> !perp_market_at(markets, j, perp_market);
    assert(perp_market_at(markets, c, perp_market));
    assert(c == i);
}

/// The first market with the identity, given one that has it.
pub proof fn lemma_first_perp_market(markets: Seq<MarketState>, perp_market: Pubkey, i: int) -> (first:
    int)
    requires
        perp_market_at(markets, i, perp_market),
    ensures
        perp_market_at(markets, first, perp_market),
        forall|j: int| 0 <= j < first ==> !perp_market_at(markets, j, perp_market),
    decreases i,
{
    if exists|j: int| 0 <= j < i && perp_market_at(markets, j, perp_market) {
        let j = choose|j: int| 0 <= j < i && perp_market_at(markets, j, perp_market);
        lemma_first_perp_market(markets, perp_market, j)
    } else {
        i
    }
}

/// The market that `perp_market_index_spec` names has the identity, and
/// none before it has.
pub proof fn lemma_perp_market_index_is_first(markets: Seq<MarketState>, perp_market: Pubkey)
    requires
        perp_market_index_spec(markets, perp_market) is Some,
        markets.len() <= usize::MAX,
    ensures
        ({
            let i = perp_market_index_spec(markets, perp_market)->0 as int;
            &&& perp_market_at(markets, i, perp_market)
            &&& forall|j: int| 0 <= j < i ==> !perp_market_at(markets, j, perp_market)
        }),
{
    let some = choose|i: int| perp_market_at(markets, i, perp_market);
    let first = lemma_first_perp_market(markets, perp_market, some);
    lemma_perp_market_index(markets, perp_market, first);
}

/// Markets with the same identities, in the same order, list a market at
/// the same place.
pub proof fn lemma_perp_market_index_by_identities(
    first: Seq<MarketState>,
    second: Seq<MarketState>,
    perp_market: Pubkey,
    other: Pubkey,
)
    requires
        perp_market_index_spec(first, perp_market) is Some,
        first.len() <= usize::MAX,
        second.len() == first.len(),
        forall|i: int|
            0 <= i < first.len() ==> (#[trigger] second[i]).info.perp_market@
                == first[i].info.perp_market@,
        other@ == perp_market@,
    ensures
        perp_market_index_spec(second, other) == perp_market_index_spec(first, perp_market),
{
    let index = perp_market_index_spec(first, perp_market)->0 as int;
    lemma_perp_market_index_is_first(first, perp_market);
    assert(second[index].info.perp_market@ == first[index].info.perp_market@);
    assert forall|j: int| 0 <= j < index implies !perp_market_at(second, j, other) by {
        assert(second[j].info.perp_market@ == first[j].info.perp_market@);
        assert(!perp_market_at(first, j, perp_market));
    }
    lemma_perp_market_index(second, other, index);
}

impl VenueSnapshot {
    /// The index of the first listed market with the identity `perp_market`.
    pub fn find_perp_market_index(&self, perp_market: &Pubkey) -> (r: Option<usize>)
        ensures
            r == perp_market_index_spec(self.markets@, *perp_market),
            r matches Some(i) ==> i < self.markets@.len(),
    {
        let mut i: usize = 0;
        while i < self.markets.len()
            invariant
                0 <= i <= self.markets@.len(),
                forall|j: int| 0 <= j < i ==> !perp_market_at(self.markets@, j, *perp_market),
            decreases self.markets@.len() - i,
        {
            if self.markets[i].info.perp_market == *perp_market {
                proof {
                    lemma_perp_market_index(self.markets@, *perp_market, i as int);
                }
                return Some(i);
            }
            i = i + 1;
        }
        None
    }
}

/// Side of an order on a perpetual market.
#[derive(Clone, Copy, Debug, PartialEq, Eq, Structural)]
pub enum Side {
    Bid,
    Ask,
}

/// Kind of an order. The vault places limit orders only.
#[derive(Clone, Copy, Debug, PartialEq, Eq, Structural)]
pub enum OrderType {
    Limit,
}

/// An order on a perpetual market, price and quantity in lot units.
#[derive(Clone, Copy, Debug, PartialEq, Eq, Structural)]
pub struct PerpOrder {
    pub price: i64,
    pub quantity: i64,
    pub client_order_id: u64,
    pub side: Side,
    pub order_type: OrderType,
}

/// A nested call that an instruction asks for. The calls of one instruction
/// are made in the order given; the first that fails ends the instruction.
#[derive(Clone, Copy, Debug, PartialEq, Eq)]
pub enum NestedCall {
    /// Open the venue account with this identity.
    OpenAccount { account: Pubkey },
    /// Create the mint with this identity under the delegated authority.
    CreateMint { mint: Pubkey, decimals: u8 },
    /// Deposit quote tokens into the venue account.
    Deposit { quantity: u64 },
    /// Withdraw quote tokens from the venue account.
    Withdraw { quantity: u64, allow_borrow: bool },
    /// Mint leverage tokens to the caller under the delegated authority.
    MintTo { quantity: u64 },
    /// Burn leverage tokens of the caller.
    Burn { quantity: u64 },
}

} // verus!
