use quasar::error::{QuasarError, QuasarErrorCode, SourceFileId};
use quasar::fixed_point::{I80F48, ONE_BITS};
use quasar::nav::{compute, market_value};
use quasar::processor::{
    exposure_delta, lot_price, lot_quantity, order_for, rebalance_order, transfer_amount, unit,
    Processor,
};
use quasar::pubkey::Pubkey;
use quasar::state::{native_price, DataType, LeverageToken, MetaData, QuasarGroup};
use quasar::utils::get_mango_spot_value;
use quasar::venue::{
    MarketState, NestedCall, OrderType, PerpMarketInfo, PerpOrder, PerpValue, RootBankCache, Side,
    SpotBalance, VenueSnapshot,
};
use solana_program::program_error::ProgramError;
use solana_program::program_option::COption;
use solana_program::program_pack::Pack;

fn key(n: u8) -> Pubkey {
    let mut bytes = [0u8; 32];
    bytes[0] = n;
    bytes[31] = 0xee;
    Pubkey::new_from_array(bytes)
}

fn fx(n: i64) -> I80F48 {
    I80F48::from_i64(n)
}

fn mint_record(supply: u64) -> Vec<u8> {
    let mint = spl_token::state::Mint {
        mint_authority: COption::Some(solana_program::pubkey::Pubkey::new_from_array([7; 32])),
        supply,
        decimals: 0,
        is_initialized: true,
        freeze_authority: COption::None,
    };
    let mut data = vec![0u8; 82];
    spl_token::state::Mint::pack(mint, &mut data).unwrap();
    data
}

fn market(n: u8, price: i64, deposit: i64, borrow: i64, base: i64, quote: i64) -> MarketState {
    MarketState {
        info: PerpMarketInfo {
            perp_market: key(n),
            base_decimals: 0,
            base_lot_size: 1,
            quote_lot_size: 1,
        },
        price: fx(price),
        bank_cache: RootBankCache { deposit_index: fx(1), borrow_index: fx(1) },
        balance: SpotBalance { deposit: fx(deposit), borrow: fx(borrow) },
        perp: PerpValue { base_value: fx(base), quote_value: fx(quote) },
    }
}

fn snapshot(markets: Vec<MarketState>) -> VenueSnapshot {
    VenueSnapshot { account: key(150), quote_decimals: 0, markets }
}

fn group(leverage: i64) -> QuasarGroup {
    let mut g = QuasarGroup::new();
    g.meta_data = MetaData::new(DataType::QuasarGroup, 0, true);
    g.leverage_tokens[0] = LeverageToken {
        mint: key(30),
        base_token_mint: key(1),
        target_leverage: fx(leverage),
        mango_account: key(150),
        mango_perp_market: key(60),
    };
    g.num_leverage_tokens = 1;
    g
}

fn domain(code: QuasarErrorCode, line: u32) -> QuasarError {
    QuasarError::QuasarErrorCode { quasar_error_code: code, line, source_file_id: SourceFileId::Processor }
}

#[test]
fn spot_value_of_a_deposit() {
    let balance = SpotBalance { deposit: fx(10), borrow: fx(0) };
    let cache = RootBankCache { deposit_index: I80F48::from_bits(3 * ONE_BITS / 2), borrow_index: fx(7) };
    assert_eq!(get_mango_spot_value(&balance, &cache, fx(2)), Ok(fx(30)));
}

#[test]
fn spot_value_of_a_borrow_is_negative() {
    let balance = SpotBalance { deposit: fx(0), borrow: fx(4) };
    let cache = RootBankCache { deposit_index: fx(9), borrow_index: fx(2) };
    assert_eq!(get_mango_spot_value(&balance, &cache, fx(5)), Ok(fx(-40)));
}

#[test]
fn spot_value_prefers_the_deposit_and_ignores_negative_balances() {
    let cache = RootBankCache { deposit_index: fx(2), borrow_index: fx(3) };
    let both = SpotBalance { deposit: fx(1), borrow: fx(1) };
    assert_eq!(get_mango_spot_value(&both, &cache, fx(1)), Ok(fx(2)));
    let negative = SpotBalance { deposit: fx(-5), borrow: fx(-5) };
    assert_eq!(get_mango_spot_value(&negative, &cache, fx(1)), Ok(fx(0)));
    let none = SpotBalance { deposit: fx(0), borrow: fx(0) };
    assert_eq!(get_mango_spot_value(&none, &cache, fx(1_000_000)), Ok(fx(0)));
}

#[test]
fn spot_value_overflow_is_a_math_error() {
    let cache = RootBankCache { deposit_index: fx(2), borrow_index: fx(2) };
    let huge = SpotBalance { deposit: I80F48::from_bits(i128::MAX), borrow: fx(0) };
    assert_eq!(get_mango_spot_value(&huge, &cache, fx(1)), Err(QuasarError::MathError));
    let fine = SpotBalance { deposit: fx(1), borrow: fx(0) };
    assert_eq!(
        get_mango_spot_value(&fine, &cache, I80F48::from_bits(i128::MAX)),
        Err(QuasarError::MathError)
    );
}

#[test]
fn market_value_adds_spot_and_perp() {
    assert_eq!(market_value(&market(1, 2, 10, 0, 7, -3)), Ok(fx(24)));
    assert_eq!(market_value(&market(1, 2, 0, 10, 7, -3)), Ok(fx(-16)));
}

#[test]
fn nav_of_nothing_is_zero() {
    let nav = compute(&vec![]).unwrap();
    assert_eq!(nav.net_asset_value, fx(0));
    assert!(nav.perp_exposure.is_empty());
}

#[test]
fn nav_of_zero_balances_is_zero() {
    let markets = vec![market(1, 50, 0, 0, 0, 0), market(2, 1_000_000, 0, 0, 0, 0), market(3, -4, 0, 0, 0, 0)];
    let nav = compute(&markets).unwrap();
    assert_eq!(nav.net_asset_value, fx(0));
    assert_eq!(nav.perp_exposure, vec![fx(0), fx(0), fx(0)]);
}

#[test]
fn nav_adds_every_market_and_records_each_exposure() {
    let markets = vec![market(1, 2, 10, 0, 100, -40), market(2, 3, 0, 5, -20, 30)];
    let nav = compute(&markets).unwrap();
    // 10*2 + 100 - 40 = 80, and -5*3 - 20 + 30 = -5.
    assert_eq!(nav.net_asset_value, fx(75));
    assert_eq!(nav.perp_exposure, vec![fx(100), fx(-20)]);
}

#[test]
fn nav_overflow_is_a_math_error() {
    let mut big = market(1, 1, 0, 0, 0, 0);
    big.perp.base_value = I80F48::from_bits(i128::MAX);
    big.perp.quote_value = I80F48::from_bits(1);
    assert_eq!(compute(&vec![market(2, 1, 1, 0, 0, 0), big]).err(), Some(QuasarError::MathError));
    let mut half = market(1, 1, 0, 0, 0, 0);
    half.perp.base_value = I80F48::from_bits(i128::MAX / 2 + 1);
    assert_eq!(compute(&vec![half, half]).err(), Some(QuasarError::MathError));
    assert!(compute(&vec![half]).is_ok());
}

#[test]
fn bootstrap_price_is_one_quote_token_whatever_the_nav() {
    let rich = vec![market(1, 2, 1_000_000, 0, 5, 5)];
    let poor = vec![market(1, 2, 0, 1_000_000, -5, -5)];
    assert_eq!(native_price(0, 6, &rich), Ok(fx(1_000_000)));
    assert_eq!(native_price(0, 6, &poor), Ok(fx(1_000_000)));
    assert_eq!(native_price(0, 6, &vec![]), Ok(fx(1_000_000)));
    assert_eq!(native_price(0, 0, &rich), Ok(fx(1)));
    assert_eq!(native_price(0, 19, &rich), Ok(I80F48::from_u64(10_000_000_000_000_000_000)));
    let mut broken = market(1, 1, 0, 0, 0, 0);
    broken.perp.base_value = I80F48::from_bits(i128::MAX);
    broken.perp.quote_value = I80F48::from_bits(i128::MAX);
    assert_eq!(native_price(0, 6, &vec![broken]), Ok(fx(1_000_000)));
    assert_eq!(native_price(1, 6, &vec![broken]), Err(QuasarError::MathError));
}

#[test]
fn bootstrap_price_with_too_many_decimals_is_a_math_error() {
    assert_eq!(native_price(0, 20, &vec![]), Err(QuasarError::MathError));
    assert_eq!(native_price(0, 255, &vec![]), Err(QuasarError::MathError));
}

#[test]
fn native_price_is_nav_over_supply() {
    let markets = vec![market(1, 2, 10, 0, 100, -40)];
    assert_eq!(native_price(8, 6, &markets), Ok(fx(10)));
    assert_eq!(native_price(1, 6, &markets), Ok(fx(80)));
    assert_eq!(native_price(32, 6, &markets), Ok(I80F48::from_bits(5 * ONE_BITS / 2)));
    assert_eq!(native_price(3, 6, &vec![]), Ok(fx(0)));
}

#[test]
fn get_native_price_reads_the_supply_from_the_mint_record() {
    let token = group(3).leverage_tokens[0];
    let snap = snapshot(vec![market(60, 2, 10, 0, 100, -40)]);
    assert_eq!(token.get_native_price(&mint_record(8), &snap), Ok(fx(10)));
    assert_eq!(token.get_native_price(&mint_record(0), &snap), Ok(fx(1)));
    assert_eq!(token.get_native_price(&mint_record(0x0102_0304_0506), &snap).is_ok(), true);
    assert_eq!(
        token.get_native_price(&mint_record(0x0100_0000_0000_0000), &snap),
        Ok(I80F48::from_bits(80 * ONE_BITS / 0x0100_0000_0000_0000))
    );
}

#[test]
fn get_native_price_hands_on_the_error_of_a_bad_mint_record() {
    let token = group(3).leverage_tokens[0];
    let snap = snapshot(vec![]);
    assert_eq!(
        token.get_native_price(&[0u8; 10], &snap),
        Err(QuasarError::ProgramError(ProgramError::InvalidAccountData))
    );
    let mut uninitialized = mint_record(5);
    uninitialized[45] = 0;
    assert_eq!(
        token.get_native_price(&uninitialized, &snap),
        Err(QuasarError::ProgramError(ProgramError::UninitializedAccount))
    );
    let mut bad_flag = mint_record(5);
    bad_flag[45] = 2;
    assert_eq!(
        token.get_native_price(&bad_flag, &snap),
        Err(QuasarError::ProgramError(ProgramError::InvalidAccountData))
    );
    let mut bad_tag = mint_record(5);
    bad_tag[1] = 1;
    assert_eq!(
        token.get_native_price(&bad_tag, &snap),
        Err(QuasarError::ProgramError(ProgramError::InvalidAccountData))
    );
    let mut bad_freeze = mint_record(5);
    bad_freeze[46] = 2;
    assert_eq!(
        token.get_native_price(&bad_freeze, &snap),
        Err(QuasarError::ProgramError(ProgramError::InvalidAccountData))
    );
    let mut long = mint_record(5);
    long.push(0);
    assert_eq!(
        token.get_native_price(&long, &snap),
        Err(QuasarError::ProgramError(ProgramError::InvalidAccountData))
    );
}

#[test]
fn transfer_amount_is_quantity_times_price_cut_to_a_whole_number() {
    let half = ONE_BITS / 2;
    assert_eq!(transfer_amount(3, fx(7)), Some(21));
    assert_eq!(transfer_amount(2, I80F48::from_bits(ONE_BITS + half)), Some(3));
    assert_eq!(transfer_amount(2, I80F48::from_bits(2 * ONE_BITS + half)), Some(5));
    assert_eq!(transfer_amount(3, I80F48::from_bits(2 * ONE_BITS + half)), Some(7));
    assert_eq!(transfer_amount(3, I80F48::from_bits(ONE_BITS - 1)), Some(2));
    assert_eq!(transfer_amount(1, I80F48::from_bits(ONE_BITS - 1)), Some(0));
    assert_eq!(transfer_amount(u64::MAX, fx(1)), Some(u64::MAX));
}

#[test]
fn transfer_amount_of_quantity_zero_is_zero_at_any_price() {
    assert_eq!(transfer_amount(0, fx(7)), Some(0));
    assert_eq!(transfer_amount(0, fx(-1)), Some(0));
    assert_eq!(transfer_amount(0, I80F48::from_bits(-1)), Some(0));
    assert_eq!(transfer_amount(0, I80F48::from_bits(i128::MAX)), Some(0));
    assert_eq!(transfer_amount(0, I80F48::from_bits(i128::MIN)), Some(0));
}

#[test]
fn transfer_amount_that_is_negative_or_beyond_64_bits_fails() {
    let half = ONE_BITS / 2;
    assert_eq!(transfer_amount(1, fx(-1)), None);
    assert_eq!(transfer_amount(1, I80F48::from_bits(-1)), None);
    assert_eq!(transfer_amount(u64::MAX, fx(2)), None);
    assert_eq!(transfer_amount(u64::MAX, I80F48::from_bits(ONE_BITS + half)), None);
    assert_eq!(transfer_amount(u64::MAX, I80F48::from_bits(ONE_BITS + 1)), None);
    assert_eq!(transfer_amount(1 << 32, fx(1 << 32)), None);
    assert_eq!(transfer_amount(2, I80F48::from_bits(i128::MAX)), None);
    assert_eq!(transfer_amount(2, I80F48::from_bits(i128::MIN)), None);
}

#[test]
fn transfer_amount_agrees_with_the_fixed_point_type() {
    let prices: [i128; 6] = [0, 1, ONE_BITS / 3, ONE_BITS + ONE_BITS / 2, 977 * ONE_BITS + 12345, 1 << 100];
    let quantities: [u64; 5] = [0, 1, 2, 1_000_003, u64::MAX];
    for p in prices {
        for q in quantities {
            let expected = fixed::types::I80F48::from_num(q)
                .checked_mul(fixed::types::I80F48::from_bits(p))
                .and_then(|v| v.checked_to_num::<u64>());
            assert_eq!(transfer_amount(q, I80F48::from_bits(p)), expected);
        }
    }
}

#[test]
fn mint_on_no_supply_uses_the_bootstrap_price() {
    let g = group(3);
    let mut snap = snapshot(vec![market(60, 2, 1_000, 0, 500, -100)]);
    snap.quote_decimals = 6;
    let transfer = Processor::mint_leverage_token(&g, &key(30), &mint_record(0), &snap, 5, 1).unwrap();
    assert_eq!(transfer.amount, 5_000_000);
    assert_eq!(
        transfer.calls,
        vec![NestedCall::Deposit { quantity: 5_000_000 }, NestedCall::MintTo { quantity: 5 }]
    );
}

#[test]
fn mint_deposits_before_it_mints() {
    let g = group(3);
    let snap = snapshot(vec![market(60, 2, 10, 0, 100, -40)]);
    let transfer = Processor::mint_leverage_token(&g, &key(30), &mint_record(8), &snap, 3, 1).unwrap();
    assert_eq!(transfer.amount, 30);
    assert_eq!(transfer.calls, vec![NestedCall::Deposit { quantity: 30 }, NestedCall::MintTo { quantity: 3 }]);
}

#[test]
fn redeem_burns_before_it_withdraws_and_may_not_borrow() {
    let g = group(3);
    let snap = snapshot(vec![market(60, 2, 10, 0, 100, -40)]);
    let transfer = Processor::burn_leverage_token(&g, &key(30), &mint_record(8), &snap, 3, 1).unwrap();
    assert_eq!(transfer.amount, 30);
    assert_eq!(
        transfer.calls,
        vec![NestedCall::Burn { quantity: 3 }, NestedCall::Withdraw { quantity: 30, allow_borrow: false }]
    );
}

#[test]
fn mint_then_redeem_moves_the_same_amount() {
    let g = group(3);
    let snap = snapshot(vec![market(60, 3, 17, 0, 1_000, -250), market(61, 5, 0, 2, 40, 1)]);
    for supply in [0u64, 1, 7, 100] {
        for quantity in [1u64, 2, 50] {
            let data = mint_record(supply);
            let minted = Processor::mint_leverage_token(&g, &key(30), &data, &snap, quantity, 1).unwrap();
            let redeemed = Processor::burn_leverage_token(&g, &key(30), &data, &snap, quantity, 2).unwrap();
            assert_eq!(minted.amount, redeemed.amount);
            assert_eq!(minted.calls[0], NestedCall::Deposit { quantity: minted.amount });
            assert_eq!(redeemed.calls[1], NestedCall::Withdraw { quantity: minted.amount, allow_borrow: false });
            assert_eq!(Processor::quote_amount(&g, &key(30), &data, &snap, quantity, 3), Ok(minted.amount));
        }
    }
}

#[test]
fn quantity_zero_is_accepted_and_asks_for_no_call() {
    let g = group(3);
    let snap = snapshot(vec![market(60, 2, 10, 0, 100, -40)]);
    let minted = Processor::mint_leverage_token(&g, &key(30), &mint_record(8), &snap, 0, 1).unwrap();
    assert_eq!(minted.amount, 0);
    assert!(minted.calls.is_empty());
    let redeemed = Processor::burn_leverage_token(&g, &key(30), &mint_record(8), &snap, 0, 1).unwrap();
    assert_eq!(redeemed.amount, 0);
    assert!(redeemed.calls.is_empty());
}

#[test]
fn mint_and_redeem_check_token_and_venue_account() {
    let g = group(3);
    let snap = snapshot(vec![market(60, 2, 10, 0, 100, -40)]);
    assert_eq!(
        Processor::mint_leverage_token(&g, &key(31), &mint_record(8), &snap, 3, 11).err(),
        Some(domain(QuasarErrorCode::InvalidToken, 11))
    );
    assert_eq!(
        Processor::burn_leverage_token(&g, &key(31), &mint_record(8), &snap, 3, 12).err(),
        Some(domain(QuasarErrorCode::InvalidToken, 12))
    );
    let mut other = snap.clone();
    other.account = key(151);
    assert_eq!(
        Processor::mint_leverage_token(&g, &key(30), &mint_record(8), &other, 3, 13).err(),
        Some(domain(QuasarErrorCode::InvalidAccount, 13))
    );
    assert_eq!(
        Processor::burn_leverage_token(&g, &key(30), &[0u8; 3], &other, 3, 14).err(),
        Some(domain(QuasarErrorCode::InvalidAccount, 14))
    );
    assert_eq!(Processor::resolve_token(&g, &key(30), &key(150), 1), Ok(0));
    assert_eq!(
        Processor::mint_leverage_token(&g, &key(30), &[0u8; 3], &snap, 3, 15).err(),
        Some(QuasarError::ProgramError(ProgramError::InvalidAccountData))
    );
}

#[test]
fn mint_with_a_negative_price_or_too_large_an_amount_is_a_math_error() {
    let g = group(3);
    let negative = snapshot(vec![market(60, 2, 0, 10, 0, 0)]);
    assert_eq!(
        Processor::mint_leverage_token(&g, &key(30), &mint_record(1), &negative, 1, 1).err(),
        Some(QuasarError::MathError)
    );
    let snap = snapshot(vec![market(60, 2, 10, 0, 0, 0)]);
    assert_eq!(
        Processor::burn_leverage_token(&g, &key(30), &mint_record(1), &snap, u64::MAX, 1).err(),
        Some(QuasarError::MathError)
    );
}

#[test]
fn mint_at_a_price_with_a_fraction_deposits_quantity_times_price() {
    // Net asset value 3 over a supply of 2: the price is 1.5.
    let g = group(3);
    let snap = snapshot(vec![market(60, 1, 3, 0, 0, 0)]);
    let transfer = Processor::mint_leverage_token(&g, &key(30), &mint_record(2), &snap, 2, 1).unwrap();
    assert_eq!(transfer.amount, 3);
    assert_eq!(transfer.calls, vec![NestedCall::Deposit { quantity: 3 }, NestedCall::MintTo { quantity: 2 }]);
    // Three units at 1.5 are worth 4.5: the whole part is deposited.
    assert_eq!(Processor::quote_amount(&g, &key(30), &mint_record(2), &snap, 3, 1), Ok(4));
}

#[test]
fn redeem_at_a_price_with_a_fraction_withdraws_quantity_times_price() {
    // Net asset value 10 over a supply of 4: the price is 2.5.
    let g = group(3);
    let snap = snapshot(vec![market(60, 1, 4, 0, 8, -2)]);
    let transfer = Processor::burn_leverage_token(&g, &key(30), &mint_record(4), &snap, 2, 1).unwrap();
    assert_eq!(transfer.amount, 5);
    assert_eq!(
        transfer.calls,
        vec![NestedCall::Burn { quantity: 2 }, NestedCall::Withdraw { quantity: 5, allow_borrow: false }]
    );
}

#[test]
fn an_amount_beyond_64_bits_is_a_math_error() {
    let g = group(3);
    // Price 2.
    let two = snapshot(vec![market(60, 1, 2, 0, 0, 0)]);
    assert_eq!(
        Processor::mint_leverage_token(&g, &key(30), &mint_record(1), &two, u64::MAX, 1).err(),
        Some(QuasarError::MathError)
    );
    // Price 1.5.
    let one_and_a_half = snapshot(vec![market(60, 1, 3, 0, 0, 0)]);
    assert_eq!(
        Processor::mint_leverage_token(&g, &key(30), &mint_record(2), &one_and_a_half, u64::MAX, 1).err(),
        Some(QuasarError::MathError)
    );
    assert_eq!(
        Processor::burn_leverage_token(&g, &key(30), &mint_record(2), &one_and_a_half, u64::MAX, 1).err(),
        Some(QuasarError::MathError)
    );
    // Price 1: the largest quantity still fits.
    let one = snapshot(vec![market(60, 1, 2, 0, 0, 0)]);
    assert_eq!(Processor::quote_amount(&g, &key(30), &mint_record(2), &one, u64::MAX, 1), Ok(u64::MAX));
}

#[test]
fn quantity_zero_is_accepted_at_a_negative_price() {
    let g = group(3);
    let negative = snapshot(vec![market(60, 2, 0, 10, 0, 0)]);
    let minted = Processor::mint_leverage_token(&g, &key(30), &mint_record(1), &negative, 0, 1).unwrap();
    assert_eq!(minted.amount, 0);
    assert!(minted.calls.is_empty());
    let redeemed = Processor::burn_leverage_token(&g, &key(30), &mint_record(1), &negative, 0, 1).unwrap();
    assert_eq!(redeemed.amount, 0);
    assert!(redeemed.calls.is_empty());
}

#[test]
fn exposure_delta_of_the_worked_example() {
    // Net asset value 1,000,000 at leverage 3 against an exposure of 2,000,000.
    assert_eq!(exposure_delta(fx(1_000_000), fx(3), fx(2_000_000)), Some(fx(1_000_000)));
    assert_eq!(exposure_delta(fx(1_000_000), fx(3), fx(3_000_000)), Some(fx(0)));
    assert_eq!(exposure_delta(fx(1_000_000), fx(3), fx(4_500_000)), Some(fx(-1_500_000)));
    assert_eq!(exposure_delta(I80F48::from_bits(i128::MAX), fx(3), fx(0)), None);
    assert_eq!(exposure_delta(fx(1), fx(1), I80F48::from_bits(i128::MIN)), None);
}

#[test]
fn unit_is_a_power_of_ten() {
    assert_eq!(unit(0), Some(fx(1)));
    assert_eq!(unit(6), Some(fx(1_000_000)));
    assert_eq!(unit(20), None);
}

#[test]
fn lot_price_scales_by_units_and_lot_sizes() {
    let info = PerpMarketInfo { perp_market: key(1), base_decimals: 6, base_lot_size: 100, quote_lot_size: 10 };
    // 50 * 10^6 * 100 / 10 / 10^6 = 500.
    assert_eq!(lot_price(fx(50), 6, &info), Some(fx(500)));
    let nine = PerpMarketInfo { perp_market: key(1), base_decimals: 9, base_lot_size: 1000, quote_lot_size: 100 };
    // 2 * 10^6 * 1000 / 100 / 10^9 = 0.02.
    let got = lot_price(fx(2), 6, &nine).unwrap();
    assert_eq!(got, fx(20_000_000).checked_div(fx(1_000_000_000)).unwrap());
    assert_eq!(got.checked_trunc_to_i64(), Some(0));
    let zero_lot = PerpMarketInfo { perp_market: key(1), base_decimals: 6, base_lot_size: 100, quote_lot_size: 0 };
    assert_eq!(lot_price(fx(50), 6, &zero_lot), None);
    let many = PerpMarketInfo { perp_market: key(1), base_decimals: 20, base_lot_size: 1, quote_lot_size: 1 };
    assert_eq!(lot_price(fx(50), 6, &many), None);
    assert_eq!(lot_price(fx(50), 20, &info), None);
}

#[test]
fn lot_quantity_divides_by_lot_size_then_price() {
    assert_eq!(lot_quantity(fx(1_000_000), 10, fx(500)), Some(fx(200)));
    assert_eq!(lot_quantity(fx(-1_000_000), 10, fx(500)), Some(fx(-200)));
    assert_eq!(lot_quantity(fx(5), 10, fx(1)), Some(I80F48::from_bits(ONE_BITS / 2)));
    assert_eq!(lot_quantity(fx(5), 0, fx(1)), None);
    assert_eq!(lot_quantity(fx(5), 10, fx(0)), None);
}

#[test]
fn order_buys_a_positive_and_sells_a_negative_quantity() {
    assert_eq!(
        order_for(fx(500), fx(200)),
        Some(Some(PerpOrder { price: 500, quantity: 200, client_order_id: 0, side: Side::Bid, order_type: OrderType::Limit }))
    );
    assert_eq!(
        order_for(fx(500), fx(-200)),
        Some(Some(PerpOrder { price: 500, quantity: 200, client_order_id: 0, side: Side::Ask, order_type: OrderType::Limit }))
    );
}

#[test]
fn order_cuts_off_towards_zero() {
    let two_and_a_half = I80F48::from_bits(5 * ONE_BITS / 2);
    let minus_two_and_a_half = I80F48::from_bits(-5 * ONE_BITS / 2);
    assert_eq!(order_for(two_and_a_half, two_and_a_half).unwrap().unwrap().quantity, 2);
    assert_eq!(order_for(two_and_a_half, two_and_a_half).unwrap().unwrap().price, 2);
    let sell = order_for(fx(1), minus_two_and_a_half).unwrap().unwrap();
    assert_eq!(sell.quantity, 2);
    assert_eq!(sell.side, Side::Ask);
}

#[test]
fn a_quantity_below_one_lot_gives_no_order() {
    assert_eq!(order_for(fx(500), fx(0)), Some(None));
    assert_eq!(order_for(fx(500), I80F48::from_bits(ONE_BITS - 1)), Some(None));
    assert_eq!(order_for(fx(500), I80F48::from_bits(-(ONE_BITS - 1))), Some(None));
    assert_eq!(order_for(fx(500), I80F48::from_bits(-1)), Some(None));
    assert!(order_for(fx(500), I80F48::from_bits(ONE_BITS)).unwrap().is_some());
    assert!(order_for(fx(500), I80F48::from_bits(-ONE_BITS)).unwrap().is_some());
}

#[test]
fn numbers_that_do_not_fit_in_an_order_are_a_math_error() {
    let too_big = I80F48::from_bits((i64::MAX as i128 + 1) * ONE_BITS);
    assert_eq!(order_for(too_big, fx(1)), None);
    assert_eq!(order_for(fx(1), too_big), None);
    assert_eq!(order_for(fx(1), fx(i64::MIN)), None);
    assert_eq!(order_for(too_big, fx(0)), None);
    assert_eq!(order_for(fx(1), fx(i64::MIN + 1)).unwrap().unwrap().quantity, i64::MAX);
}

#[test]
fn rebalance_of_the_worked_example_buys() {
    // Perp base value 2,000,000 and quote value -1,000,000: the net asset value is 1,000,000.
    let g = group(3);
    let snap = snapshot(vec![market(60, 1, 0, 0, 2_000_000, -1_000_000)]);
    let nav = compute(&snap.markets).unwrap();
    assert_eq!(nav.net_asset_value, fx(1_000_000));
    assert_eq!(nav.perp_exposure[0], fx(2_000_000));
    let order = Processor::rebalance(&g, &key(30), &key(60), &snap, 1).unwrap().unwrap();
    assert_eq!(
        order,
        PerpOrder { price: 1, quantity: 1_000_000, client_order_id: 0, side: Side::Bid, order_type: OrderType::Limit }
    );
}

#[test]
fn rebalance_sells_when_the_exposure_is_above_target() {
    let g = group(3);
    let snap = snapshot(vec![market(60, 4, 0, 0, 5_000_000, -4_000_000)]);
    let order = Processor::rebalance(&g, &key(30), &key(60), &snap, 1).unwrap().unwrap();
    // Target 3,000,000 against 5,000,000: sell 2,000,000 / 4 lots.
    assert_eq!(order.side, Side::Ask);
    assert_eq!(order.quantity, 500_000);
    assert_eq!(order.price, 4);
}

#[test]
fn rebalance_takes_the_exposure_of_the_token_s_market_only() {
    let g = group(2);
    let other = market(59, 7, 0, 0, 300, -300);
    let own = market(60, 1, 100, 0, 50, 0);
    let snap = snapshot(vec![other, own]);
    // Net asset value 150, target 300, own exposure 50: buy 250.
    let order = Processor::rebalance(&g, &key(30), &key(60), &snap, 1).unwrap().unwrap();
    assert_eq!(order.quantity, 250);
    assert_eq!(order.side, Side::Bid);
    assert_eq!(rebalance_order(fx(2), 0, &snap.markets, 1), Some(Some(order)));
    assert_eq!(snap.find_perp_market_index(&key(60)), Some(1));
    assert_eq!(snap.find_perp_market_index(&key(59)), Some(0));
    assert_eq!(snap.find_perp_market_index(&key(58)), None);
}

#[test]
fn rebalance_at_target_gives_no_order_however_often() {
    let g = group(3);
    let snap = snapshot(vec![market(60, 5, 0, 0, 3_000_000, -2_000_000)]);
    assert_eq!(Processor::rebalance(&g, &key(30), &key(60), &snap, 1), Ok(None));
    assert_eq!(Processor::rebalance(&g, &key(30), &key(60), &snap, 1), Ok(None));
}

#[test]
fn rebalance_after_its_order_is_filled_gives_no_order() {
    let g = group(3);
    let before = snapshot(vec![market(60, 4, 0, 0, 2_000_000, -1_000_000)]);
    let order = Processor::rebalance(&g, &key(30), &key(60), &before, 1).unwrap().unwrap();
    assert_eq!(order.side, Side::Bid);
    let bought = order.quantity * order.price;
    let after = snapshot(vec![market(60, 4, 0, 0, 2_000_000 + bought, -1_000_000 - bought)]);
    assert_eq!(Processor::rebalance(&g, &key(30), &key(60), &after, 1), Ok(None));
    assert_eq!(Processor::rebalance(&g, &key(30), &key(60), &after, 1), Ok(None));
}

#[test]
fn rebalance_after_a_fill_at_a_lot_price_with_a_fraction_gives_no_order() {
    let g = group(3);
    for (base, quote) in [(2_000_000i64, -1_000_000i64), (4_500_000, -3_500_000), (-700_000, 1_700_000)] {
        let mut m = market(60, 5, 0, 0, base, quote);
        m.info.base_lot_size = 3;
        m.info.quote_lot_size = 2;
        // One base lot costs 5 * 3 / 2 = 7.5 quote lots.
        let price = lot_price(m.price, 0, &m.info).unwrap();
        assert_eq!(price.to_bits(), 15 * ONE_BITS / 2);
        let before = snapshot(vec![m]);
        let order = Processor::rebalance(&g, &key(30), &key(60), &before, 1).unwrap().unwrap();
        let signed = if order.side == Side::Bid { order.quantity } else { -order.quantity };
        let moved = fx(signed).checked_mul(price).unwrap().checked_mul(fx(2)).unwrap();
        let mut filled = m;
        filled.perp.base_value = m.perp.base_value.checked_add(moved).unwrap();
        filled.perp.quote_value = m.perp.quote_value.checked_sub(moved).unwrap();
        let after = snapshot(vec![filled]);
        assert_eq!(Processor::rebalance(&g, &key(30), &key(60), &after, 1), Ok(None));
    }
}

#[test]
fn a_delta_below_one_lot_gives_no_order() {
    let g = group(3);
    // Target 3,000,000 against 2,999,999 at a lot price of 2: half a lot.
    let above = snapshot(vec![market(60, 2, 0, 0, 2_999_999, -1_999_999)]);
    assert_eq!(Processor::rebalance(&g, &key(30), &key(60), &above, 1), Ok(None));
    let below = snapshot(vec![market(60, 2, 0, 0, 3_000_001, -2_000_001)]);
    assert_eq!(Processor::rebalance(&g, &key(30), &key(60), &below, 1), Ok(None));
}

#[test]
fn rebalance_checks_token_account_and_market() {
    let g = group(3);
    let snap = snapshot(vec![market(60, 1, 0, 0, 2_000_000, -1_000_000)]);
    assert_eq!(
        Processor::rebalance(&g, &key(31), &key(60), &snap, 21),
        Err(domain(QuasarErrorCode::InvalidToken, 21))
    );
    let mut other = snap.clone();
    other.account = key(151);
    assert_eq!(
        Processor::rebalance(&g, &key(30), &key(60), &other, 22),
        Err(domain(QuasarErrorCode::InvalidAccount, 22))
    );
    assert_eq!(
        Processor::rebalance(&g, &key(30), &key(61), &snap, 23),
        Err(domain(QuasarErrorCode::InvalidAccount, 23))
    );
    let unlisted = snapshot(vec![market(59, 1, 0, 0, 2_000_000, -1_000_000)]);
    assert_eq!(
        Processor::rebalance(&g, &key(30), &key(60), &unlisted, 24),
        Err(domain(QuasarErrorCode::InvalidAccount, 24))
    );
}

#[test]
fn rebalance_with_a_zero_price_is_a_math_error() {
    let g = group(3);
    let snap = snapshot(vec![market(60, 0, 0, 0, 2_000_000, -1_000_000)]);
    assert_eq!(Processor::rebalance(&g, &key(30), &key(60), &snap, 1), Err(QuasarError::MathError));
}
