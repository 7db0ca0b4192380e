//! What each instruction decides: which checks it makes, what it changes in
//! the group, and which nested calls it asks for.

use vstd::prelude::*;
use crate::error::{
    check_assert, domain_error, math_result, QuasarError, QuasarErrorCode, QuasarResult, SourceFileId,
};
use crate::fixed_point::{
    between_zero_and, checked_pow10, div_towards_zero, lemma_div_towards_zero_bounds,
    lemma_div_towards_zero_scaled, lemma_div_towards_zero_shifted, pow10_u64_spec, I80F48, ONE_BITS,
};
use crate::nav::{compute, nav_spec};
use crate::pubkey::{AccountView, Pubkey};
use crate::state::{
    native_price_spec, BaseToken, DataType, LeverageToken, MetaData, QuasarGroup,
    LEVERGAE_TOKEN_DECIMALS,
};
use crate::token::{mint_data_valid, mint_info_spec, unpack_mint};
use crate::utils::{gen_signer_key, signer_key_spec};
use crate::venue::{
    lemma_perp_market_index_by_identities, lemma_perp_market_index_is_first, perp_market_index_spec, MarketState, NestedCall, OrderType, PerpMarketInfo, PerpOrder, Side,
    VenueSnapshot,
};

verus! {

/// The instruction processor.
pub struct Processor;

/// What a mint or a redemption moves, and the nested calls that move it.
#[derive(Debug)]
pub struct Transfer {
    /// Quote tokens to deposit for a mint, to withdraw for a redemption, in
    /// native units.
    pub amount: u64,
    /// The nested calls to make, in this order.
    pub calls: Vec<NestedCall>,
}

/// The test of the owner of the account that is to hold a new group:
/// `InvalidGroupOwner` where that is not this program.
pub open spec fn group_owner_check_spec(
    program_id: Pubkey,
    group_account: AccountView,
    line: u32,
) -> QuasarResult<()> {
    if group_account.owner@ != program_id@ {
        domain_error(QuasarErrorCode::InvalidGroupOwner, line, SourceFileId::Processor)
    } else {
        Ok(())
    }
}

/// The test of the balance of the account that is to hold a new group:
/// `GroupNotRentExempt` where it does not exempt the account from rent.
pub open spec fn rent_check_spec(rent_exempt: bool, line: u32) -> QuasarResult<()> {
    if !rent_exempt {
        domain_error(QuasarErrorCode::GroupNotRentExempt, line, SourceFileId::Processor)
    } else {
        Ok(())
    }
}

/// The checks of `init_quasar_group` that come before the delegated
/// authority is derived: the owner, then the rent, then that the record is
/// not initialized yet.
pub open spec fn init_check_spec(
    group: QuasarGroup,
    program_id: Pubkey,
    group_account: AccountView,
    rent_exempt: bool,
    line: u32,
) -> QuasarResult<()> {
    match group_owner_check_spec(program_id, group_account, line) {
        Err(e) => Err(e),
        Ok(_) => match rent_check_spec(rent_exempt, line) {
            Err(e) => Err(e),
            Ok(_) => if group.meta_data.is_initialized {
                domain_error(QuasarErrorCode::Default, line, SourceFileId::Processor)
            } else {
                Ok(())
            },
        },
    }
}

/// Whether `after` is `before` initialized with these identities, its
/// catalogue unchanged.
pub open spec fn is_initialized_from(
    after: QuasarGroup,
    before: QuasarGroup,
    signer: Pubkey,
    admin: Pubkey,
    mango_program: Pubkey,
    signer_nonce: u64,
) -> bool {
    &&& after.signer_nonce == signer_nonce
    &&& after.signer_key@ == signer@
    &&& after.admin_key@ == admin@
    &&& after.mango_program_id@ == mango_program@
    &&& after.meta_data.is_initialized
    &&& after.meta_data.data_type == DataType::QuasarGroup.to_u8_spec()
    &&& after.meta_data.version == 0
    &&& after.meta_data.padding@ == Seq::new(5, |i: int| 0u8)
    &&& after.num_base_tokens == before.num_base_tokens
    &&& after.base_tokens == before.base_tokens
    &&& after.num_leverage_tokens == before.num_leverage_tokens
    &&& after.leverage_tokens == before.leverage_tokens
}

/// The checks of `add_base_token` that come before the mint's record is
/// read, and the slot that they find.
pub open spec fn add_base_token_check_spec(
    group: QuasarGroup,
    admin: AccountView,
    mint: Pubkey,
    line: u32,
) -> QuasarResult<usize> {
    if !admin.is_signer || admin.key@ != group.admin_key@ {
        domain_error(QuasarErrorCode::InvalidSignerKey, line, SourceFileId::Processor)
    } else {
        match group.base_token_slot_spec(mint) {
            Ok(index) => Ok(index),
            Err(code) => domain_error(code, line, SourceFileId::Processor),
        }
    }
}

/// The checks of `add_leverage_token`, and the slot that they find.
pub open spec fn add_leverage_token_check_spec(
    group: QuasarGroup,
    admin: AccountView,
    base_token_mint: Pubkey,
    target_leverage: I80F48,
    authority: Pubkey,
    line: u32,
) -> QuasarResult<usize> {
    if !admin.is_signer {
        domain_error(QuasarErrorCode::SignerNecessary, line, SourceFileId::Processor)
    } else if admin.key@ != group.admin_key@ {
        domain_error(QuasarErrorCode::InvalidAdminKey, line, SourceFileId::Processor)
    } else {
        match group.leverage_token_slot_spec(base_token_mint, target_leverage) {
            Err(code) => domain_error(code, line, SourceFileId::Processor),
            Ok(index) => if authority@ != group.signer_key@ {
                domain_error(QuasarErrorCode::InvalidSignerKey, line, SourceFileId::Processor)
            } else {
                Ok(index)
            },
        }
    }
}

/// The nested calls of a successful `add_leverage_token`: open the venue
/// account, then create the token's mint.
pub open spec fn add_leverage_token_calls_spec(mango_account: Pubkey, mint: Pubkey) -> Seq<NestedCall> {
    seq![
        NestedCall::OpenAccount { account: mango_account },
        NestedCall::CreateMint { mint, decimals: LEVERGAE_TOKEN_DECIMALS },
    ]
}

/// The record of the leverage token with this mint, found by the mint and
/// held against the venue account that the caller supplied: `InvalidToken`
/// where no slot has the mint, `InvalidAccount` where the record names
/// another venue account.
pub open spec fn resolve_token_spec(
    group: QuasarGroup,
    token_mint: Pubkey,
    venue_account: Pubkey,
    line: u32,
) -> QuasarResult<usize> {
    match group.leverage_token_index_by_mint_spec(token_mint) {
        None => domain_error(QuasarErrorCode::InvalidToken, line, SourceFileId::Processor),
        Some(index) => if group.leverage_tokens@[index as int].mango_account@ != venue_account@ {
            domain_error(QuasarErrorCode::InvalidAccount, line, SourceFileId::Processor)
        } else {
            Ok(index)
        },
    }
}

/// Quote tokens, in native units, that `quantity` leverage tokens are worth
/// at `price`: the quantity times the price, a checked fixed-point product,
/// of which the whole part is taken. `None` where the product does not fit,
/// is negative, or has a whole part beyond 64 bits.
pub open spec fn transfer_amount_spec(quantity: u64, price: I80F48) -> Option<u64> {
    match (I80F48 { bits: (quantity * ONE_BITS) as i128 }).mul_spec(price) {
        Some(product) => if 0 <= product.floor_spec() <= u64::MAX {
            Some(product.floor_spec() as u64)
        } else {
            None
        },
        None => None,
    }
}

/// Quote tokens that `quantity` leverage tokens are worth, for a mint with
/// this supply, at the native price that the venue account gives.
pub open spec fn amount_spec(supply: u64, snapshot: VenueSnapshot, quantity: u64) -> Option<u64> {
    match native_price_spec(supply, snapshot.quote_decimals, snapshot.markets@) {
        Some(price) => transfer_amount_spec(quantity, price),
        None => None,
    }
}

/// The nested calls of a mint: none for the quantity zero; else the deposit
/// of the collateral, then the mint of the tokens.
pub open spec fn mint_calls_spec(quantity: u64, amount: u64) -> Seq<NestedCall> {
    if quantity == 0 {
        Seq::empty()
    } else {
        seq![NestedCall::Deposit { quantity: amount }, NestedCall::MintTo { quantity }]
    }
}

/// The nested calls of a redemption: none for the quantity zero; else the
/// burn of the tokens, then the withdrawal of the collateral, which may not
/// borrow.
pub open spec fn redeem_calls_spec(quantity: u64, amount: u64) -> Seq<NestedCall> {
    if quantity == 0 {
        Seq::empty()
    } else {
        seq![
            NestedCall::Burn { quantity },
            NestedCall::Withdraw { quantity: amount, allow_borrow: false },
        ]
    }
}

/// Quote tokens that `quantity` leverage tokens are worth at `price`.
pub fn transfer_amount(quantity: u64, price: I80F48) -> (r: Option<u64>)
    ensures
        r == transfer_amount_spec(quantity, price),
{
    match I80F48::from_u64(quantity).checked_mul(price) {
        Some(product) => product.checked_to_u64(),
        None => None,
    }
}

/// The exposure to add to reach the target: the net asset value times the
/// target leverage, minus the current exposure. `None` where a checked
/// operation fails.
pub open spec fn exposure_delta_spec(
    net_asset_value: I80F48,
    target_leverage: I80F48,
    current_exposure: I80F48,
) -> Option<I80F48> {
    match net_asset_value.mul_spec(target_leverage) {
        Some(target_exposure) => target_exposure.sub_spec(current_exposure),
        None => None,
    }
}

/// The fixed-point number equal to a power of ten, where that fits in 64
/// bits.
pub open spec fn unit_spec(decimals: u8) -> Option<I80F48> {
    match pow10_u64_spec(decimals as nat) {
        Some(unit) => Some(I80F48 { bits: (unit * ONE_BITS) as i128 }),
        None => None,
    }
}

/// The fixed-point number equal to a lot size.
pub open spec fn lot_size_spec(lot_size: i64) -> I80F48 {
    I80F48 { bits: (lot_size * ONE_BITS) as i128 }
}

/// The price of one base lot in quote lots: the price times the quote unit,
/// times the base lot size, divided by the quote lot size, divided by the
/// base unit, each step checked and rounded as the fixed-point type does.
pub open spec fn lot_price_spec(price: I80F48, quote_decimals: u8, info: PerpMarketInfo) -> Option<
    I80F48,
> {
    match (unit_spec(info.base_decimals), unit_spec(quote_decimals)) {
        (Some(base_unit), Some(quote_unit)) => match price.mul_spec(quote_unit) {
            Some(a) => match a.mul_spec(lot_size_spec(info.base_lot_size)) {
                Some(b) => match b.div_spec(lot_size_spec(info.quote_lot_size)) {
                    Some(c) => c.div_spec(base_unit),
                    None => None,
                },
                None => None,
            },
            None => None,
        },
        _ => None,
    }
}

/// The signed quantity to trade in base lots: the exposure delta divided by
/// the quote lot size, divided by the price of one base lot in quote lots.
pub open spec fn lot_quantity_spec(
    exposure_delta: I80F48,
    quote_lot_size: i64,
    lot_price: I80F48,
) -> Option<I80F48> {
    match exposure_delta.div_spec(lot_size_spec(quote_lot_size)) {
        Some(delta_lots) => delta_lots.div_spec(lot_price),
        None => None,
    }
}

/// The order for a price and a signed quantity in lots, both cut off
/// towards zero: none where the quantity cuts off to zero; else a limit
/// order to buy a positive quantity, to sell a negative one. The outer
/// `None` stands for a number that does not fit in 64 bits.
pub open spec fn order_spec(lot_price: I80F48, lot_quantity: I80F48) -> Option<Option<PerpOrder>> {
    let price = lot_price.trunc_spec();
    let quantity = lot_quantity.trunc_spec();
    if !(i64::MIN <= price <= i64::MAX) || !(i64::MIN < quantity <= i64::MAX) {
        None
    } else if quantity == 0 {
        Some(None)
    } else {
        Some(
            Some(
                PerpOrder {
                    price: price as i64,
                    quantity: (if quantity > 0 {
                        quantity
                    } else {
                        -quantity
                    }) as i64,
                    client_order_id: 0,
                    side: if quantity > 0 {
                        Side::Bid
                    } else {
                        Side::Ask
                    },
                    order_type: OrderType::Limit,
                },
            ),
        )
    }
}

/// The order that moves the perpetual position in market `market_index`
/// towards the target leverage. The outer `None` stands for a failed
/// checked operation.
pub open spec fn rebalance_order_spec(
    target_leverage: I80F48,
    quote_decimals: u8,
    markets: Seq<MarketState>,
    market_index: int,
) -> Option<Option<PerpOrder>> {
    let market = markets[market_index];
    match nav_spec(markets) {
        Some(net_asset_value) => match exposure_delta_spec(
            net_asset_value,
            target_leverage,
            market.perp.base_value,
        ) {
            Some(exposure_delta) => match lot_price_spec(market.price, quote_decimals, market.info) {
                Some(lot_price) => match lot_quantity_spec(
                    exposure_delta,
                    market.info.quote_lot_size,
                    lot_price,
                ) {
                    Some(lot_quantity) => order_spec(lot_price, lot_quantity),
                    None => None,
                },
                None => None,
            },
            None => None,
        },
        None => None,
    }
}

/// What `Processor::rebalance` returns.
pub open spec fn rebalance_spec(
    group: QuasarGroup,
    token_mint: Pubkey,
    perp_market: Pubkey,
    snapshot: VenueSnapshot,
    line: u32,
) -> QuasarResult<Option<PerpOrder>> {
    match group.leverage_token_index_by_mint_spec(token_mint) {
        None => domain_error(QuasarErrorCode::InvalidToken, line, SourceFileId::Processor),
        Some(index) => {
            let token = group.leverage_tokens@[index as int];
            if token.mango_account@ != snapshot.account@ {
                domain_error(QuasarErrorCode::InvalidAccount, line, SourceFileId::Processor)
            } else if token.mango_perp_market@ != perp_market@ {
                domain_error(QuasarErrorCode::InvalidAccount, line, SourceFileId::Processor)
            } else {
                match perp_market_index_spec(snapshot.markets@, token.mango_perp_market) {
                    None => domain_error(
                        QuasarErrorCode::InvalidAccount,
                        line,
                        SourceFileId::Processor,
                    ),
                    Some(market_index) => math_result(
                        rebalance_order_spec(
                            token.target_leverage,
                            snapshot.quote_decimals,
                            snapshot.markets@,
                            market_index as int,
                        ),
                    ),
                }
            }
        },
    }
}

/// The exposure to add to reach the target leverage.
pub fn exposure_delta(
    net_asset_value: I80F48,
    target_leverage: I80F48,
    current_exposure: I80F48,
) -> (r: Option<I80F48>)
    ensures
        r == exposure_delta_spec(net_asset_value, target_leverage, current_exposure),
{
    match net_asset_value.checked_mul(target_leverage) {
        Some(target_exposure) => target_exposure.checked_sub(current_exposure),
        None => None,
    }
}

/// The fixed-point number equal to ten to the power `decimals`.
pub fn unit(decimals: u8) -> (r: Option<I80F48>)
    ensures
        r == unit_spec(decimals),
{
    match checked_pow10(decimals as u32) {
        Some(unit) => Some(I80F48::from_u64(unit)),
        None => None,
    }
}

/// The price of one base lot in quote lots.
pub fn lot_price(price: I80F48, quote_decimals: u8, info: &PerpMarketInfo) -> (r: Option<I80F48>)
    ensures
        r == lot_price_spec(price, quote_decimals, *info),
{
    let base_unit = match unit(info.base_decimals) {
        Some(u) => u,
        None => { return None; },
    };
    let quote_unit = match unit(quote_decimals) {
        Some(u) => u,
        None => { return None; },
    };
    let a = match price.checked_mul(quote_unit) {
        Some(v) => v,
        None => { return None; },
    };
    let b = match a.checked_mul(I80F48::from_i64(info.base_lot_size)) {
        Some(v) => v,
        None => { return None; },
    };
    let c = match b.checked_div(I80F48::from_i64(info.quote_lot_size)) {
        Some(v) => v,
        None => { return None; },
    };
    c.checked_div(base_unit)
}

/// The signed quantity to trade in base lots.
pub fn lot_quantity(exposure_delta: I80F48, quote_lot_size: i64, lot_price: I80F48) -> (r: Option<
    I80F48,
>)
    ensures
        r == lot_quantity_spec(exposure_delta, quote_lot_size, lot_price),
{
    match exposure_delta.checked_div(I80F48::from_i64(quote_lot_size)) {
        Some(delta_lots) => delta_lots.checked_div(lot_price),
        None => None,
    }
}

/// The order for a price and a signed quantity in lots.
pub fn order_for(lot_price: I80F48, lot_quantity: I80F48) -> (r: Option<Option<PerpOrder>>)
    ensures
        r == order_spec(lot_price, lot_quantity),
        lot_quantity.trunc_spec() == 0 && i64::MIN <= lot_price.trunc_spec() <= i64::MAX ==> r
            == Some(None::<PerpOrder>),
{
    let price = match lot_price.checked_trunc_to_i64() {
        Some(p) => p,
        None => { return None; },
    };
    let quantity = match lot_quantity.checked_trunc_to_i64() {
        Some(q) => q,
        None => { return None; },
    };
    if quantity == i64::MIN {
        None
    } else if quantity == 0 {
        Some(None)
    } else if quantity > 0 {
        Some(
            Some(
                PerpOrder {
                    price,
                    quantity,
                    client_order_id: 0,
                    side: Side::Bid,
                    order_type: OrderType::Limit,
                },
            ),
        )
    } else {
        Some(
            Some(
                PerpOrder {
                    price,
                    quantity: -quantity,
                    client_order_id: 0,
                    side: Side::Ask,
                    order_type: OrderType::Limit,
                },
            ),
        )
    }
}

/// The order that moves the perpetual position in market `market_index`
/// towards the target leverage.
pub fn rebalance_order(
    target_leverage: I80F48,
    quote_decimals: u8,
    markets: &Vec<MarketState>,
    market_index: usize,
) -> (r: Option<Option<PerpOrder>>)
    requires
        market_index < markets@.len(),
    ensures
        r == rebalance_order_spec(target_leverage, quote_decimals, markets@, market_index as int),
{
    let value = match compute(markets) {
        Ok(v) => v,
        Err(_) => { return None; },
    };
    let market = &markets[market_index];
    let current_exposure = value.perp_exposure[market_index];
    let delta = match exposure_delta(value.net_asset_value, target_leverage, current_exposure) {
        Some(d) => d,
        None => { return None; },
    };
    let price = match lot_price(market.price, quote_decimals, &market.info) {
        Some(p) => p,
        None => { return None; },
    };
    let quantity = match lot_quantity(delta, market.info.quote_lot_size, price) {
        Some(q) => q,
        None => { return None; },
    };
    order_for(price, quantity)
}

impl Processor {
    /// Tests the owner of the account that is to hold a new group. It reads
    /// nothing of the record, so it can be made before the record is
    /// decoded.
    pub fn check_group_owner(program_id: &Pubkey, group_account: &AccountView, line: u32) -> (r:
        QuasarResult<()>)
        ensures
            r == group_owner_check_spec(*program_id, *group_account, line),
    {
        check_assert(
            group_account.owner == *program_id,
            QuasarErrorCode::InvalidGroupOwner,
            line,
            SourceFileId::Processor,
        )
    }

    /// Tests that the account that is to hold a new group is exempt from
    /// rent. It reads nothing of the record either.
    pub fn check_rent_exempt(rent_exempt: bool, line: u32) -> (r: QuasarResult<()>)
        ensures
            r == rent_check_spec(rent_exempt, line),
    {
        check_assert(rent_exempt, QuasarErrorCode::GroupNotRentExempt, line, SourceFileId::Processor)
    }

    /// Finds the record of the leverage token with the mint `token_mint`
    /// and holds it against the venue account that the caller supplied.
    pub fn resolve_token(
        group: &QuasarGroup,
        token_mint: &Pubkey,
        venue_account: &Pubkey,
        line: u32,
    ) -> (r: QuasarResult<usize>)
        ensures
            r == resolve_token_spec(*group, *token_mint, *venue_account, line),
            r matches Ok(index) ==> index < 32,
    {
        let index = match group.find_leverage_token_index_by_mint(token_mint) {
            Some(i) => i,
            None => {
                return Err(
                    QuasarError::QuasarErrorCode {
                        quasar_error_code: QuasarErrorCode::InvalidToken,
                        line,
                        source_file_id: SourceFileId::Processor,
                    },
                );
            },
        };
        if group.leverage_tokens[index].mango_account != *venue_account {
            return Err(
                QuasarError::QuasarErrorCode {
                    quasar_error_code: QuasarErrorCode::InvalidAccount,
                    line,
                    source_file_id: SourceFileId::Processor,
                },
            );
        }
        Ok(index)
    }

    /// Initializes a group's record: sets its identities and marks it
    /// initialized.
    ///
    /// `rent_exempt` says whether the record's account holds the balance
    /// that exempts it from rent. `signer` must be the delegated authority
    /// that `gen_signer_key` derives from the nonce, the group's identity
    /// and the program's. On failure the record is unchanged.
    pub fn init_quasar_group(
        program_id: &Pubkey,
        group: &mut QuasarGroup,
        group_account: &AccountView,
        rent_exempt: bool,
        signer: &Pubkey,
        admin: &AccountView,
        mango_program: &Pubkey,
        signer_nonce: u64,
        line: u32,
    ) -> (r: QuasarResult<()>)
        ensures
            match init_check_spec(*old(group), *program_id, *group_account, rent_exempt, line) {
                Err(e) => r == Err::<(), QuasarError>(e),
                Ok(_) => match signer_key_spec(signer_nonce, group_account.key, *program_id) {
                    None => r matches Err(QuasarError::ProgramError(_)),
                    Some(derived) => if derived != signer@ {
                        r == domain_error::<()>(
                            QuasarErrorCode::InvalidSignerKey,
                            line,
                            SourceFileId::Processor,
                        )
                    } else if !admin.is_signer {
                        r == domain_error::<()>(
                            QuasarErrorCode::Default,
                            line,
                            SourceFileId::Processor,
                        )
                    } else {
                        r == Ok::<(), QuasarError>(()) && is_initialized_from(
                            *final(group),
                            *old(group),
                            *signer,
                            admin.key,
                            *mango_program,
                            signer_nonce,
                        )
                    },
                },
            },
            r is Err ==> *final(group) == *old(group),
            r is Ok && old(group).wf() ==> final(group).wf(),
    {
        match Processor::check_group_owner(program_id, group_account, line) {
            Ok(_) => {},
            Err(e) => { return Err(e); },
        }
        match Processor::check_rent_exempt(rent_exempt, line) {
            Ok(_) => {},
            Err(e) => { return Err(e); },
        }
        if group.meta_data.is_initialized {
            return Err(
                QuasarError::QuasarErrorCode {
                    quasar_error_code: QuasarErrorCode::Default,
                    line,
                    source_file_id: SourceFileId::Processor,
                },
            );
        }
        let derived = match gen_signer_key(signer_nonce, &group_account.key, program_id) {
            Ok(key) => key,
            Err(e) => { return Err(QuasarError::ProgramError(e)); },
        };
        if derived != *signer {
            return Err(
                QuasarError::QuasarErrorCode {
                    quasar_error_code: QuasarErrorCode::InvalidSignerKey,
                    line,
                    source_file_id: SourceFileId::Processor,
                },
            );
        }
        if !admin.is_signer {
            return Err(
                QuasarError::QuasarErrorCode {
                    quasar_error_code: QuasarErrorCode::Default,
                    line,
                    source_file_id: SourceFileId::Processor,
                },
            );
        }
        group.signer_nonce = signer_nonce;
        group.signer_key = *signer;
        group.mango_program_id = *mango_program;
        group.admin_key = admin.key;
        group.meta_data = MetaData::new(DataType::QuasarGroup, 0, true);
        Ok(())
    }

    /// Registers a base token: the mint `mint`, the decimals that the mint's
    /// record `mint_data` gives, and the oracle `oracle`. Only the group's
    /// administrator, who must have signed, may do so. Returns the slot of
    /// the new record. On failure the group is unchanged.
    pub fn add_base_token(
        group: &mut QuasarGroup,
        admin: &AccountView,
        mint: &Pubkey,
        mint_data: &[u8],
        oracle: &Pubkey,
        line: u32,
    ) -> (r: QuasarResult<usize>)
        ensures
            match add_base_token_check_spec(*old(group), *admin, *mint, line) {
                Err(e) => r == Err::<usize, QuasarError>(e),
                Ok(index) => if !mint_data_valid(mint_data@) {
                    r matches Err(QuasarError::ProgramError(_))
                } else {
                    &&& r == Ok::<usize, QuasarError>(index)
                    &&& final(group).is_with_base_token(*old(group), final(group).base_tokens@[index as int])
                    &&& final(group).base_tokens@[index as int].mint@ == mint@
                    &&& final(group).base_tokens@[index as int].decimals == mint_info_spec(
                        mint_data@,
                    ).decimals
                    &&& final(group).base_tokens@[index as int].oracle@ == oracle@
                    &&& final(group).base_tokens@[index as int].padding@ == Seq::new(7, |i: int| 0u8)
                },
            },
            r is Err ==> *final(group) == *old(group),
            old(group).wf() ==> final(group).wf(),
    {
        if !admin.is_signer || admin.key != group.admin_key {
            return Err(
                QuasarError::QuasarErrorCode {
                    quasar_error_code: QuasarErrorCode::InvalidSignerKey,
                    line,
                    source_file_id: SourceFileId::Processor,
                },
            );
        }
        let index = match group.base_token_slot(mint) {
            Ok(i) => i,
            Err(code) => {
                return Err(
                    QuasarError::QuasarErrorCode {
                        quasar_error_code: code,
                        line,
                        source_file_id: SourceFileId::Processor,
                    },
                );
            },
        };
        let info = match unpack_mint(mint_data) {
            Ok(info) => info,
            Err(e) => { return Err(QuasarError::ProgramError(e)); },
        };
        let record = BaseToken { mint: *mint, decimals: info.decimals, oracle: *oracle, padding: [0u8; 7] };
        assert(record.padding@ =~= Seq::new(7, |i: int| 0u8));
        group.push_base_token(record);
        Ok(index)
    }

    /// Registers a leverage token on the base token `base_token_mint` with
    /// the target leverage `target_leverage`, which stays fixed. Only the
    /// group's administrator, who must have signed, may do so, and
    /// `authority` must be the group's delegated authority. Returns the
    /// nested calls to make. On failure the group is unchanged.
    pub fn add_leverage_token(
        group: &mut QuasarGroup,
        admin: &AccountView,
        mint: &Pubkey,
        base_token_mint: &Pubkey,
        mango_account: &Pubkey,
        mango_perp_market: &Pubkey,
        authority: &Pubkey,
        target_leverage: I80F48,
        line: u32,
    ) -> (r: QuasarResult<Vec<NestedCall>>)
        ensures
            match add_leverage_token_check_spec(
                *old(group),
                *admin,
                *base_token_mint,
                target_leverage,
                *authority,
                line,
            ) {
                Err(e) => r matches Err(f) && f == e,
                Ok(index) => {
                    &&& r matches Ok(calls) && calls@ == add_leverage_token_calls_spec(
                        *mango_account,
                        *mint,
                    )
                    &&& final(group).is_with_leverage_token(
                        *old(group),
                        LeverageToken {
                            mint: *mint,
                            base_token_mint: *base_token_mint,
                            target_leverage,
                            mango_account: *mango_account,
                            mango_perp_market: *mango_perp_market,
                        },
                    )
                },
            },
            r is Err ==> *final(group) == *old(group),
            old(group).wf() ==> final(group).wf(),
    {
        if !admin.is_signer {
            return Err(
                QuasarError::QuasarErrorCode {
                    quasar_error_code: QuasarErrorCode::SignerNecessary,
                    line,
                    source_file_id: SourceFileId::Processor,
                },
            );
        }
        if admin.key != group.admin_key {
            return Err(
                QuasarError::QuasarErrorCode {
                    quasar_error_code: QuasarErrorCode::InvalidAdminKey,
                    line,
                    source_file_id: SourceFileId::Processor,
                },
            );
        }
        match group.leverage_token_slot(base_token_mint, target_leverage) {
            Ok(_) => {},
            Err(code) => {
                return Err(
                    QuasarError::QuasarErrorCode {
                        quasar_error_code: code,
                        line,
                        source_file_id: SourceFileId::Processor,
                    },
                );
            },
        }
        if *authority != group.signer_key {
            return Err(
                QuasarError::QuasarErrorCode {
                    quasar_error_code: QuasarErrorCode::InvalidSignerKey,
                    line,
                    source_file_id: SourceFileId::Processor,
                },
            );
        }
        group.push_leverage_token(
            LeverageToken {
                mint: *mint,
                base_token_mint: *base_token_mint,
                target_leverage,
                mango_account: *mango_account,
                mango_perp_market: *mango_perp_market,
            },
        );
        let mut calls: Vec<NestedCall> = Vec::new();
        calls.push(NestedCall::OpenAccount { account: *mango_account });
        calls.push(NestedCall::CreateMint { mint: *mint, decimals: LEVERGAE_TOKEN_DECIMALS });
        assert(calls@ =~= add_leverage_token_calls_spec(*mango_account, *mint));
        Ok(calls)
    }

    /// Decides what minting `quantity` units of the leverage token with the
    /// mint `token_mint` takes: the collateral to deposit, and the nested
    /// calls, the deposit before the mint.
    ///
    /// `mint_data` is the record of the token's mint and `snapshot` the
    /// venue account that the caller supplied, which must be that of the
    /// token's record. The quantity zero is accepted and asks for no call.
    pub fn mint_leverage_token(
        group: &QuasarGroup,
        token_mint: &Pubkey,
        mint_data: &[u8],
        snapshot: &VenueSnapshot,
        quantity: u64,
        line: u32,
    ) -> (r: QuasarResult<Transfer>)
        ensures
            match resolve_token_spec(*group, *token_mint, snapshot.account, line) {
                Err(e) => r matches Err(f) && f == e,
                Ok(_) => if !mint_data_valid(mint_data@) {
                    r matches Err(QuasarError::ProgramError(_))
                } else {
                    match amount_spec(mint_info_spec(mint_data@).supply, *snapshot, quantity) {
                        None => r matches Err(QuasarError::MathError),
                        Some(amount) => r matches Ok(transfer) && transfer.amount == amount
                            && transfer.calls@ == mint_calls_spec(quantity, amount),
                    }
                },
            },
    {
        let amount = match Processor::quote_amount(group, token_mint, mint_data, snapshot, quantity, line) {
            Ok(a) => a,
            Err(e) => { return Err(e); },
        };
        let mut calls: Vec<NestedCall> = Vec::new();
        if quantity != 0 {
            calls.push(NestedCall::Deposit { quantity: amount });
            calls.push(NestedCall::MintTo { quantity });
        }
        assert(calls@ =~= mint_calls_spec(quantity, amount));
        Ok(Transfer { amount, calls })
    }

    /// Decides what redeeming `quantity` units of the leverage token with
    /// the mint `token_mint` gives: the collateral to withdraw, and the
    /// nested calls, the burn before the withdrawal, which may not borrow.
    ///
    /// `mint_data` is the record of the token's mint and `snapshot` the
    /// venue account that the caller supplied, which must be that of the
    /// token's record. The quantity zero is accepted and asks for no call.
    pub fn burn_leverage_token(
        group: &QuasarGroup,
        token_mint: &Pubkey,
        mint_data: &[u8],
        snapshot: &VenueSnapshot,
        quantity: u64,
        line: u32,
    ) -> (r: QuasarResult<Transfer>)
        ensures
            match resolve_token_spec(*group, *token_mint, snapshot.account, line) {
                Err(e) => r matches Err(f) && f == e,
                Ok(_) => if !mint_data_valid(mint_data@) {
                    r matches Err(QuasarError::ProgramError(_))
                } else {
                    match amount_spec(mint_info_spec(mint_data@).supply, *snapshot, quantity) {
                        None => r matches Err(QuasarError::MathError),
                        Some(amount) => r matches Ok(transfer) && transfer.amount == amount
                            && transfer.calls@ == redeem_calls_spec(quantity, amount),
                    }
                },
            },
    {
        let amount = match Processor::quote_amount(group, token_mint, mint_data, snapshot, quantity, line) {
            Ok(a) => a,
            Err(e) => { return Err(e); },
        };
        let mut calls: Vec<NestedCall> = Vec::new();
        if quantity != 0 {
            calls.push(NestedCall::Burn { quantity });
            calls.push(NestedCall::Withdraw { quantity: amount, allow_borrow: false });
        }
        assert(calls@ =~= redeem_calls_spec(quantity, amount));
        Ok(Transfer { amount, calls })
    }

    /// Quote tokens, in native units, that `quantity` units of the leverage
    /// token with the mint `token_mint` are worth: the quantity times the
    /// token's native price, of which the whole part is taken.
    pub fn quote_amount(
        group: &QuasarGroup,
        token_mint: &Pubkey,
        mint_data: &[u8],
        snapshot: &VenueSnapshot,
        quantity: u64,
        line: u32,
    ) -> (r: QuasarResult<u64>)
        ensures
            match resolve_token_spec(*group, *token_mint, snapshot.account, line) {
                Err(e) => r matches Err(f) && f == e,
                Ok(_) => if !mint_data_valid(mint_data@) {
                    r matches Err(QuasarError::ProgramError(_))
                } else {
                    r == math_result(
                        amount_spec(mint_info_spec(mint_data@).supply, *snapshot, quantity),
                    )
                },
            },
    {
        let index = match Processor::resolve_token(group, token_mint, &snapshot.account, line) {
            Ok(i) => i,
            Err(e) => { return Err(e); },
        };
        let price = match group.leverage_tokens[index].get_native_price(mint_data, snapshot) {
            Ok(p) => p,
            Err(e) => { return Err(e); },
        };
        match transfer_amount(quantity, price) {
            Some(amount) => Ok(amount),
            None => Err(QuasarError::MathError),
        }
    }

    /// Decides the order, if any, that moves the perpetual position of the
    /// leverage token with the mint `token_mint` towards its target
    /// leverage.
    ///
    /// `snapshot` is the venue account that the caller supplied and
    /// `perp_market` the market it supplied; both must be those of the
    /// token's record, and the market must be listed.
    pub fn rebalance(
        group: &QuasarGroup,
        token_mint: &Pubkey,
        perp_market: &Pubkey,
        snapshot: &VenueSnapshot,
        line: u32,
    ) -> (r: QuasarResult<Option<PerpOrder>>)
        ensures
            r == rebalance_spec(*group, *token_mint, *perp_market, *snapshot, line),
    {
        let index = match group.find_leverage_token_index_by_mint(token_mint) {
            Some(i) => i,
            None => {
                return Err(
                    QuasarError::QuasarErrorCode {
                        quasar_error_code: QuasarErrorCode::InvalidToken,
                        line,
                        source_file_id: SourceFileId::Processor,
                    },
                );
            },
        };
        let token = &group.leverage_tokens[index];
        if token.mango_account != snapshot.account || token.mango_perp_market != *perp_market {
            return Err(
                QuasarError::QuasarErrorCode {
                    quasar_error_code: QuasarErrorCode::InvalidAccount,
                    line,
                    source_file_id: SourceFileId::Processor,
                },
            );
        }
        let market_index = match snapshot.find_perp_market_index(&token.mango_perp_market) {
            Some(i) => i,
            None => {
                return Err(
                    QuasarError::QuasarErrorCode {
                        quasar_error_code: QuasarErrorCode::InvalidAccount,
                        line,
                        source_file_id: SourceFileId::Processor,
                    },
                );
            },
        };
        match rebalance_order(
            token.target_leverage,
            snapshot.quote_decimals,
            &snapshot.markets,
            market_index,
        ) {
            Some(order) => Ok(order),
            None => Err(QuasarError::MathError),
        }
    }
}

/// The amount of a transfer is the quantity times the price, cut down to a
/// whole number, and there is one exactly where that is a 64-bit number. So
/// the quantity zero is worth zero at any price.
pub proof fn lemma_transfer_amount_is_the_product(quantity: u64, price: I80F48)
    ensures
        transfer_amount_spec(quantity, price) == (if 0 <= (quantity * price.bits) / (ONE_BITS as int)
            <= u64::MAX {
            Some(((quantity * price.bits) / (ONE_BITS as int)) as u64)
        } else {
            None
        }),
        quantity == 0 ==> transfer_amount_spec(quantity, price) == Some(0u64),
{
    let one = ONE_BITS as int;
    let product = quantity * price.bits;
    assert(0 <= quantity * one <= 0xffff_ffff_ffff_ffff * 0x1_0000_0000_0000) by (nonlinear_arith)
        requires
            0 <= quantity <= 0xffff_ffff_ffff_ffff,
            one == 0x1_0000_0000_0000,
    ;
    assert((quantity * one) * price.bits == one * product) by (nonlinear_arith)
        requires
            product == quantity * price.bits,
    ;
    vstd::arithmetic::div_mod::lemma_div_multiples_vanish(product, one);
    if product > i128::MAX {
        vstd::arithmetic::div_mod::lemma_div_is_ordered(
            0x8000_0000_0000_0000_0000_0000_0000_0000,
            product,
            one,
        );
        assert(0x8000_0000_0000_0000_0000_0000_0000_0000int / 0x1_0000_0000_0000
            == 0x8000_0000_0000_0000_0000);
    }
    if product < i128::MIN {
        vstd::arithmetic::div_mod::lemma_div_is_ordered(
            product,
            -0x8000_0000_0000_0000_0000_0000_0000_0000,
            one,
        );
        assert((-0x8000_0000_0000_0000_0000_0000_0000_0000int) / 0x1_0000_0000_0000
            == -0x8000_0000_0000_0000_0000);
    }
    if quantity == 0 {
        assert(product == 0) by (nonlinear_arith)
            requires
                quantity == 0,
                product == quantity * price.bits,
        ;
    }
}

/// At a price that is a whole number, the amount of a transfer is the
/// quantity times that number.
pub proof fn lemma_transfer_amount_at_a_whole_price(quantity: u64, price: I80F48, whole: int)
    requires
        price.bits == whole * ONE_BITS,
        0 <= quantity * whole <= u64::MAX,
    ensures
        transfer_amount_spec(quantity, price) == Some((quantity * whole) as u64),
{
    let one = ONE_BITS as int;
    lemma_transfer_amount_is_the_product(quantity, price);
    assert(quantity * price.bits == one * (quantity * whole)) by (nonlinear_arith)
        requires
            price.bits == whole * one,
    ;
    vstd::arithmetic::div_mod::lemma_div_multiples_vanish(quantity * whole, one);
}

/// Minting a quantity and redeeming it again, with the venue account and
/// the mint's supply unchanged in between, withdraws what was deposited:
/// both take the same amount, the quantity times the native price cut down
/// to a whole number, and the deposit of the one is the withdrawal of the
/// other.
pub proof fn lemma_mint_redeem_round_trip(supply: u64, snapshot: VenueSnapshot, quantity: u64)
    requires
        quantity > 0,
        amount_spec(supply, snapshot, quantity) is Some,
    ensures
        ({
            let amount = amount_spec(supply, snapshot, quantity)->0;
            let price = native_price_spec(supply, snapshot.quote_decimals, snapshot.markets@);
            &&& price is Some
            &&& amount == (quantity * price->0.bits) / (ONE_BITS as int)
            &&& mint_calls_spec(quantity, amount)[0] == NestedCall::Deposit { quantity: amount }
            &&& redeem_calls_spec(quantity, amount)[1] == NestedCall::Withdraw {
                quantity: amount,
                allow_borrow: false,
            }
            &&& mint_calls_spec(quantity, amount)[1] == NestedCall::MintTo { quantity }
            &&& redeem_calls_spec(quantity, amount)[0] == NestedCall::Burn { quantity }
        }),
{
    let price = native_price_spec(supply, snapshot.quote_decimals, snapshot.markets@);
    lemma_transfer_amount_is_the_product(quantity, price->0);
}

/// A quantity that cuts off to zero lots gives no order.
pub proof fn lemma_zero_quantity_gives_no_order(lot_price: I80F48, lot_quantity: I80F48)
    requires
        lot_quantity.trunc_spec() == 0,
    ensures
        !(order_spec(lot_price, lot_quantity) matches Some(Some(_))),
        i64::MIN <= lot_price.trunc_spec() <= i64::MAX ==> order_spec(lot_price, lot_quantity)
            == Some(None::<PerpOrder>),
{
}

/// A quantity of less than one lot, in either direction, cuts off to zero
/// lots.
pub proof fn lemma_less_than_one_lot_is_zero(lot_quantity: I80F48)
    requires
        -(ONE_BITS as int) < lot_quantity.bits < ONE_BITS,
    ensures
        lot_quantity.trunc_spec() == 0,
{
    let q = lot_quantity.bits as int;
    if q >= 0 {
        vstd::arithmetic::div_mod::lemma_basic_div(q, ONE_BITS as int);
    } else {
        vstd::arithmetic::div_mod::lemma_basic_div(-q, ONE_BITS as int);
    }
}

/// An order never asks for more than the quantity it was computed from,
/// and it buys exactly where that quantity is positive.
pub proof fn lemma_order_within_quantity(lot_price: I80F48, lot_quantity: I80F48)
    requires
        order_spec(lot_price, lot_quantity) matches Some(Some(_)),
    ensures
        ({
            let order = order_spec(lot_price, lot_quantity)->0->0;
            &&& order.quantity > 0
            &&& lot_quantity.bits > 0 ==> order.side == Side::Bid && order.quantity * ONE_BITS
                <= lot_quantity.bits
            &&& lot_quantity.bits < 0 ==> order.side == Side::Ask && order.quantity * ONE_BITS
                <= -lot_quantity.bits
            &&& lot_quantity.bits != 0
        }),
{
    let q = lot_quantity.bits as int;
    let one = ONE_BITS as int;
    if q >= 0 {
        vstd::arithmetic::div_mod::lemma_fundamental_div_mod(q, one);
        vstd::arithmetic::div_mod::lemma_mod_bound(q, one);
        assert(one * (q / one) == (q / one) * one) by (nonlinear_arith);
    } else {
        vstd::arithmetic::div_mod::lemma_fundamental_div_mod(-q, one);
        vstd::arithmetic::div_mod::lemma_mod_bound(-q, one);
        assert(one * ((-q) / one) == ((-q) / one) * one) by (nonlinear_arith);
    }
}

/// A position that stands at its target is left alone: where the target
/// exposure equals the current exposure, rebalancing gives no order,
/// however often it is asked.
pub proof fn lemma_rebalance_at_target_gives_no_order(
    target_leverage: I80F48,
    quote_decimals: u8,
    markets: Seq<MarketState>,
    market_index: int,
)
    requires
        0 <= market_index < markets.len(),
        nav_spec(markets) matches Some(nav) && nav.mul_spec(target_leverage) == Some(
            markets[market_index].perp.base_value,
        ),
    ensures
        !(rebalance_order_spec(target_leverage, quote_decimals, markets, market_index) matches Some(
            Some(_),
        )),
{
    let market = markets[market_index];
    let nav = nav_spec(markets)->0;
    let delta = exposure_delta_spec(nav, target_leverage, market.perp.base_value);
    assert(delta == Some(I80F48 { bits: 0 }));
    let zero = I80F48 { bits: 0 };
    assert(0 * (ONE_BITS as int) == 0);
    assert forall|d: int| d != 0 implies #[trigger] div_towards_zero(0, d) == 0 by {
        if d > 0 {
            vstd::arithmetic::div_mod::lemma_div_basics_1(d);
        } else {
            vstd::arithmetic::div_mod::lemma_div_basics_1(-d);
        }
    }
    assert forall|rhs: I80F48| (#[trigger] zero.div_spec(rhs)) == Some(zero) || zero.div_spec(
        rhs,
    ).is_none() by {
        if rhs.bits != 0 {
            assert(div_towards_zero(0, rhs.bits as int) == 0);
        }
    }
    match lot_price_spec(market.price, quote_decimals, market.info) {
        Some(lot_price) => {
            let delta_lots = zero.div_spec(lot_size_spec(market.info.quote_lot_size));
            if delta_lots.is_some() {
                assert(delta_lots == Some(zero));
                let quantity = zero.div_spec(lot_price);
                if quantity.is_some() {
                    assert(quantity == Some(zero));
                    assert(zero.trunc_spec() == 0) by {
                        vstd::arithmetic::div_mod::lemma_div_basics_1(ONE_BITS as int);
                    }
                }
            }
        },
        None => {},
    }
}

/// The signed quantity of an order in base lots: positive to buy, negative
/// to sell, zero where there is no order.
pub open spec fn signed_quantity_spec(order: Option<PerpOrder>) -> int {
    match order {
        None => 0,
        Some(o) => if o.side == Side::Bid {
            o.quantity as int
        } else {
            -(o.quantity as int)
        },
    }
}

/// Whether `after` is `before` with `order` filled in full in market
/// `market_index`: the base value of the perpetual position there has moved
/// by the order's signed quantity times the price of one lot times the quote
/// lot size, and the net asset value, the market's price and what the group
/// records of each market are as before.
pub open spec fn is_filled_from(
    after: Seq<MarketState>,
    before: Seq<MarketState>,
    quote_decimals: u8,
    market_index: int,
    order: Option<PerpOrder>,
) -> bool {
    let old_market = before[market_index];
    let new_market = after[market_index];
    &&& after.len() == before.len()
    &&& nav_spec(after) == nav_spec(before)
    &&& new_market.price == old_market.price
    &&& forall|i: int| 0 <= i < before.len() ==> (#[trigger] after[i]).info == before[i].info
    &&& lot_price_spec(old_market.price, quote_decimals, old_market.info) matches Some(lot_price)
        && new_market.perp.base_value.bits == old_market.perp.base_value.bits + signed_quantity_spec(
        order,
    ) * lot_price.bits * old_market.info.quote_lot_size
}

/// Once the order of a rebalance, if there was one, has been filled in
/// full and nothing else has changed, the markets give no further order.
pub proof fn lemma_rebalance_after_fill_gives_no_order(
    target_leverage: I80F48,
    quote_decimals: u8,
    before: Seq<MarketState>,
    after: Seq<MarketState>,
    market_index: int,
)
    requires
        0 <= market_index < before.len(),
        rebalance_order_spec(target_leverage, quote_decimals, before, market_index) matches Some(order)
            && is_filled_from(after, before, quote_decimals, market_index, order),
    ensures
        rebalance_order_spec(target_leverage, quote_decimals, after, market_index) == Some(
            None::<PerpOrder>,
        ),
{
    let one = ONE_BITS as int;
    let old_market = before[market_index];
    let new_market = after[market_index];
    assert(new_market.info == old_market.info);
    let order = rebalance_order_spec(target_leverage, quote_decimals, before, market_index)->0;
    let nav = nav_spec(before)->0;
    let target = nav.mul_spec(target_leverage)->0;
    let lot_price = lot_price_spec(old_market.price, quote_decimals, old_market.info)->0;
    let p = lot_price.bits as int;
    let l = old_market.info.quote_lot_size as int;
    assert(-0x8000_0000_0000_0000 * 0x1_0000_0000_0000 <= l * one <= 0x7fff_ffff_ffff_ffff
        * 0x1_0000_0000_0000) by (nonlinear_arith)
        requires
            -0x8000_0000_0000_0000 <= l <= 0x7fff_ffff_ffff_ffff,
            one == 0x1_0000_0000_0000,
    ;
    assert(lot_size_spec(old_market.info.quote_lot_size).bits == l * one);
    assert(l != 0) by {
        if l == 0 {
            assert(l * one == 0);
        }
    }

    // The first rebalance, step by step.
    let d = target.bits - old_market.perp.base_value.bits;
    let delta = I80F48 { bits: d as i128 };
    assert(exposure_delta_spec(nav, target_leverage, old_market.perp.base_value) == Some(delta));
    let dl = div_towards_zero(d * one, l * one);
    lemma_div_towards_zero_scaled(d, l, one);
    let delta_lots = I80F48 { bits: dl as i128 };
    assert(delta.div_spec(lot_size_spec(old_market.info.quote_lot_size)) == Some(delta_lots));
    let qb = div_towards_zero(dl * one, p);
    let lot_quantity = I80F48 { bits: qb as i128 };
    assert(delta_lots.div_spec(lot_price) == Some(lot_quantity));
    assert(lot_quantity_spec(delta, old_market.info.quote_lot_size, lot_price) == Some(lot_quantity));
    assert(order_spec(lot_price, lot_quantity) == Some(order));
    let q = div_towards_zero(qb, one);
    assert(lot_quantity.trunc_spec() == q);
    assert(signed_quantity_spec(order) == q);

    // What was bought or sold lies between nothing and the whole delta.
    lemma_div_towards_zero_bounds(qb, one);
    lemma_div_towards_zero_bounds(dl * one, p);
    assert(between_zero_and((q * one) * p, qb * p)) by (nonlinear_arith)
        requires
            between_zero_and(q * one, qb),
    ;
    assert((q * one) * p == (q * p) * one) by (nonlinear_arith);
    assert(between_zero_and((q * p) * one, dl * one));
    assert(between_zero_and(q * p, dl)) by (nonlinear_arith)
        requires
            between_zero_and((q * p) * one, dl * one),
            one > 0,
    ;

    // The second rebalance, step by step.
    lemma_div_towards_zero_shifted(d, l, q * p);
    let d2 = d - (q * p) * l;
    assert(new_market.perp.base_value.bits == old_market.perp.base_value.bits + (q * p) * l);
    assert(target.bits - new_market.perp.base_value.bits == d2);
    let delta2 = I80F48 { bits: d2 as i128 };
    assert(exposure_delta_spec(nav, target_leverage, new_market.perp.base_value) == Some(delta2));
    lemma_div_towards_zero_scaled(d2, l, one);
    let dl2 = dl - q * p;
    assert(div_towards_zero(d2 * one, l * one) == dl2);
    let delta_lots2 = I80F48 { bits: dl2 as i128 };
    assert(delta2.div_spec(lot_size_spec(old_market.info.quote_lot_size)) == Some(delta_lots2));
    lemma_div_towards_zero_shifted(dl * one, p, q * one);
    assert(dl2 * one == dl * one - (q * one) * p) by (nonlinear_arith)
        requires
            dl2 == dl - q * p,
    ;
    let qb2 = qb - q * one;
    assert(div_towards_zero(dl2 * one, p) == qb2);
    let lot_quantity2 = I80F48 { bits: qb2 as i128 };
    assert(delta_lots2.div_spec(lot_price) == Some(lot_quantity2));
    lemma_div_towards_zero_shifted(qb, one, q);
    assert(lot_quantity2.trunc_spec() == 0);
    assert(lot_quantity_spec(delta2, new_market.info.quote_lot_size, lot_price) == Some(lot_quantity2));
    assert(order_spec(lot_price, lot_quantity2) == Some(None::<PerpOrder>));
}

/// Whether `second` is `first` after `order` was filled in full in market
/// `market_index` and nothing else has changed.
pub open spec fn is_after_fill(
    second: VenueSnapshot,
    first: VenueSnapshot,
    market_index: int,
    order: Option<PerpOrder>,
) -> bool {
    &&& second.account@ == first.account@
    &&& second.quote_decimals == first.quote_decimals
    &&& is_filled_from(second.markets@, first.markets@, first.quote_decimals, market_index, order)
}

/// Rebalancing twice gives no order the second time: where a rebalance
/// succeeds, its order, if there is one, is filled in full and nothing else
/// changes, the next rebalance succeeds and gives no order.
pub proof fn lemma_rebalance_twice_gives_no_order(
    group: QuasarGroup,
    token_mint: Pubkey,
    perp_market: Pubkey,
    first: VenueSnapshot,
    second: VenueSnapshot,
    line: u32,
)
    requires
        rebalance_spec(group, token_mint, perp_market, first, line) matches Ok(order)
            && perp_market_index_spec(first.markets@, perp_market) matches Some(index)
            && is_after_fill(second, first, index as int, order),
    ensures
        rebalance_spec(group, token_mint, perp_market, second, line) == Ok::<
            Option<PerpOrder>,
            QuasarError,
        >(None),
{
    let token = group.leverage_tokens@[group.leverage_token_index_by_mint_spec(token_mint)->0 as int];
    let market = token.mango_perp_market;
    assert(token.mango_perp_market@ == perp_market@);
    assert(perp_market_index_spec(first.markets@, market) is Some);
    assert(first.markets.len() == first.markets@.len());
    let before = first.markets@;
    let after = second.markets@;
    assert(after.len() == before.len());
    assert forall|i: int| 0 <= i < before.len() implies (#[trigger] after[i]).info.perp_market@
        == before[i].info.perp_market@ by {
        assert(after[i].info == before[i].info);
    }
    lemma_perp_market_index_by_identities(before, after, market, market);
    let index = perp_market_index_spec(before, market)->0;
    assert(perp_market_index_spec(after, market) == Some(index));
    lemma_perp_market_index_by_identities(before, before, perp_market, market);
    assert(perp_market_index_spec(before, perp_market) == Some(index));
    lemma_perp_market_index_is_first(before, market);
    assert(0 <= index < before.len());
    let order = rebalance_order_spec(token.target_leverage, first.quote_decimals, before, index as int);
    assert(order is Some);
    assert(is_filled_from(after, before, first.quote_decimals, index as int, order->0));
    lemma_rebalance_after_fill_gives_no_order(
        token.target_leverage,
        first.quote_decimals,
        before,
        after,
        index as int,
    );
    assert(rebalance_order_spec(token.target_leverage, second.quote_decimals, after, index as int)
        == Some(None::<PerpOrder>));
}

} // verus!
