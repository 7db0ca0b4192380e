use quasar::error::{QuasarError, QuasarErrorCode, SourceFileId};
use quasar::fixed_point::I80F48;
use quasar::processor::Processor;
use quasar::pubkey::{AccountView, Pubkey};
use quasar::state::{
    BaseToken, DataType, LeverageToken, MetaData, QuasarGroup, INITIAL_LEVERAGE_TOKEN_PRICE,
    LEVERGAE_TOKEN_DECIMALS, MAX_BASE_TOKENS, MAX_LEVERAGE_TOKENS,
};
use quasar::venue::NestedCall;
use solana_program::program_error::ProgramError;
use solana_program::program_option::COption;
use solana_program::program_pack::Pack;

fn key(n: u8) -> Pubkey {
    let mut bytes = [0u8; 32];
    bytes[0] = n;
    bytes[31] = 0xee;
    Pubkey::new_from_array(bytes)
}

fn admin() -> AccountView {
    AccountView { key: key(200), owner: key(201), is_signer: true }
}

fn mint_record(supply: u64, decimals: u8) -> Vec<u8> {
    let mint = spl_token::state::Mint {
        mint_authority: COption::None,
        supply,
        decimals,
        is_initialized: true,
        freeze_authority: COption::None,
    };
    let mut data = vec![0u8; 82];
    spl_token::state::Mint::pack(mint, &mut data).unwrap();
    data
}

fn domain(code: QuasarErrorCode, line: u32, file: SourceFileId) -> QuasarError {
    QuasarError::QuasarErrorCode { quasar_error_code: code, line, source_file_id: file }
}

fn group() -> QuasarGroup {
    let mut g = QuasarGroup::new();
    g.admin_key = admin().key;
    g.signer_key = key(210);
    g.meta_data = MetaData::new(DataType::QuasarGroup, 0, true);
    g
}

fn add_base(g: &mut QuasarGroup, n: u8) -> Result<usize, QuasarError> {
    Processor::add_base_token(g, &admin(), &key(n), &mint_record(0, 6), &key(100 + n), 7)
}

fn add_leverage(g: &mut QuasarGroup, mint: u8, base: u8, leverage: i64) -> Result<Vec<NestedCall>, QuasarError> {
    Processor::add_leverage_token(
        g,
        &admin(),
        &key(mint),
        &key(base),
        &key(150),
        &key(151),
        &key(210),
        I80F48::from_i64(leverage),
        9,
    )
}

#[test]
fn constants() {
    assert_eq!(MAX_BASE_TOKENS, 16);
    assert_eq!(MAX_LEVERAGE_TOKENS, 32);
    assert_eq!(LEVERGAE_TOKEN_DECIMALS, 0);
    assert_eq!(INITIAL_LEVERAGE_TOKEN_PRICE, 1);
}

#[test]
fn data_type_numbers() {
    assert_eq!(DataType::QuasarGroup.to_u8(), 0);
    assert_eq!(DataType::BaseToken.to_u8(), 1);
    assert_eq!(DataType::LeverageToken.to_u8(), 2);
    assert_eq!(DataType::try_from_primitive(0), Some(DataType::QuasarGroup));
    assert_eq!(DataType::try_from_primitive(1), Some(DataType::BaseToken));
    assert_eq!(DataType::try_from_primitive(2), Some(DataType::LeverageToken));
    assert_eq!(DataType::try_from_primitive(3), None);
    assert_eq!(DataType::try_from_primitive(255), None);
}

#[test]
fn meta_data_new_sets_every_field() {
    let m = MetaData::new(DataType::LeverageToken, 3, true);
    assert_eq!(m.data_type, 2);
    assert_eq!(m.version, 3);
    assert!(m.is_initialized);
    assert_eq!(m.padding, [0u8; 5]);
    let n = MetaData::new(DataType::QuasarGroup, 0, false);
    assert_eq!(n.data_type, 0);
    assert!(!n.is_initialized);
}

#[test]
fn empty_slots_have_the_zero_mint() {
    assert!(BaseToken::empty().is_empty());
    assert!(LeverageToken::empty().is_empty());
    let token = BaseToken { mint: key(1), decimals: 6, oracle: key(2), padding: [0; 7] };
    assert!(!token.is_empty());
    let mut leverage = LeverageToken::empty();
    leverage.mint = key(3);
    assert!(!leverage.is_empty());
    assert_eq!(Pubkey::default().to_bytes(), [0u8; 32]);
}

#[test]
fn a_new_group_is_empty() {
    let g = QuasarGroup::new();
    assert_eq!(g.num_base_tokens, 0);
    assert_eq!(g.num_leverage_tokens, 0);
    assert!(!g.meta_data.is_initialized);
    assert!(g.base_tokens.iter().all(|t| t.is_empty()));
    assert!(g.leverage_tokens.iter().all(|t| t.is_empty()));
    assert_eq!(g.find_base_token_index(&key(1)), None);
    assert_eq!(g.find_leverage_token_index_by_mint(&key(1)), None);
}

#[test]
fn the_zero_mint_is_found_in_the_first_empty_slot() {
    let mut g = group();
    assert_eq!(g.find_base_token_index(&Pubkey::default()), Some(0));
    add_base(&mut g, 1).unwrap();
    assert_eq!(g.find_base_token_index(&Pubkey::default()), Some(1));
    assert_eq!(g.find_leverage_token_index_by_mint(&Pubkey::default()), Some(0));
    assert_eq!(g.find_leverage_token_index(&Pubkey::default(), I80F48::zero()), Some(0));
}

#[test]
fn add_base_token_appends_the_record() {
    let mut g = group();
    let data = mint_record(123, 9);
    assert_eq!(Processor::add_base_token(&mut g, &admin(), &key(1), &data, &key(50), 1), Ok(0));
    assert_eq!(add_base(&mut g, 2), Ok(1));
    assert_eq!(g.num_base_tokens, 2);
    assert_eq!(g.base_tokens[0].mint, key(1));
    assert_eq!(g.base_tokens[0].decimals, 9);
    assert_eq!(g.base_tokens[0].oracle, key(50));
    assert_eq!(g.base_tokens[0].padding, [0u8; 7]);
    assert_eq!(g.base_tokens[1].mint, key(2));
    assert_eq!(g.base_tokens[1].decimals, 6);
    assert!(g.base_tokens[2].is_empty());
    assert_eq!(g.find_base_token_index(&key(1)), Some(0));
    assert_eq!(g.find_base_token_index(&key(2)), Some(1));
    assert_eq!(g.find_base_token_index(&key(3)), None);
}

#[test]
fn base_token_mints_are_unique() {
    let mut g = group();
    assert_eq!(add_base(&mut g, 1), Ok(0));
    let before = g;
    assert_eq!(
        add_base(&mut g, 1),
        Err(domain(QuasarErrorCode::Default, 7, SourceFileId::Processor))
    );
    assert_eq!(g.num_base_tokens, before.num_base_tokens);
    assert_eq!(add_base(&mut g, 2), Ok(1));
    assert_eq!(
        add_base(&mut g, 1),
        Err(domain(QuasarErrorCode::Default, 7, SourceFileId::Processor))
    );
}

#[test]
fn the_seventeenth_base_token_is_refused() {
    let mut g = group();
    for n in 1..=16u8 {
        assert_eq!(add_base(&mut g, n), Ok(n as usize - 1));
    }
    assert_eq!(g.num_base_tokens, 16);
    assert_eq!(
        add_base(&mut g, 17),
        Err(domain(QuasarErrorCode::OutOfSpace, 7, SourceFileId::Processor))
    );
    assert_eq!(
        add_base(&mut g, 3),
        Err(domain(QuasarErrorCode::Default, 7, SourceFileId::Processor))
    );
    assert_eq!(g.num_base_tokens, 16);
    assert_eq!(g.base_token_slot(&key(17)), Err(QuasarErrorCode::OutOfSpace));
}

#[test]
fn add_base_token_needs_the_signing_administrator() {
    let mut g = group();
    let mut unsigned = admin();
    unsigned.is_signer = false;
    assert_eq!(
        Processor::add_base_token(&mut g, &unsigned, &key(1), &mint_record(0, 6), &key(2), 4),
        Err(domain(QuasarErrorCode::InvalidSignerKey, 4, SourceFileId::Processor))
    );
    let mut other = admin();
    other.key = key(99);
    assert_eq!(
        Processor::add_base_token(&mut g, &other, &key(1), &mint_record(0, 6), &key(2), 5),
        Err(domain(QuasarErrorCode::InvalidSignerKey, 5, SourceFileId::Processor))
    );
    assert_eq!(g.num_base_tokens, 0);
}

#[test]
fn add_base_token_hands_on_the_error_of_a_bad_mint_record() {
    let mut g = group();
    assert_eq!(
        Processor::add_base_token(&mut g, &admin(), &key(1), &[0u8; 81], &key(2), 4),
        Err(QuasarError::ProgramError(ProgramError::InvalidAccountData))
    );
    assert_eq!(
        Processor::add_base_token(&mut g, &admin(), &key(1), &[0u8; 82], &key(2), 4),
        Err(QuasarError::ProgramError(ProgramError::UninitializedAccount))
    );
    assert_eq!(g.num_base_tokens, 0);
    assert!(g.base_tokens[0].is_empty());
}

#[test]
fn a_slot_that_is_not_empty_at_the_cursor_is_refused() {
    let mut g = group();
    g.base_tokens[0].mint = key(77);
    assert_eq!(g.base_token_slot(&key(1)), Err(QuasarErrorCode::Default));
    let mut h = group();
    add_base(&mut h, 1).unwrap();
    h.leverage_tokens[0].mint = key(78);
    assert_eq!(h.leverage_token_slot(&key(1), I80F48::from_i64(2)), Err(QuasarErrorCode::Default));
}

#[test]
fn add_leverage_token_appends_the_record_and_asks_for_two_calls() {
    let mut g = group();
    add_base(&mut g, 1).unwrap();
    let calls = add_leverage(&mut g, 30, 1, 3).unwrap();
    assert_eq!(
        calls,
        vec![
            NestedCall::OpenAccount { account: key(150) },
            NestedCall::CreateMint { mint: key(30), decimals: 0 },
        ]
    );
    assert_eq!(g.num_leverage_tokens, 1);
    let token = g.leverage_tokens[0];
    assert_eq!(token.mint, key(30));
    assert_eq!(token.base_token_mint, key(1));
    assert_eq!(token.target_leverage, I80F48::from_i64(3));
    assert_eq!(token.mango_account, key(150));
    assert_eq!(token.mango_perp_market, key(151));
    assert_eq!(g.find_leverage_token_index(&key(1), I80F48::from_i64(3)), Some(0));
    assert_eq!(g.find_leverage_token_index(&key(1), I80F48::from_i64(2)), None);
    assert_eq!(g.find_leverage_token_index_by_mint(&key(30)), Some(0));
    assert_eq!(g.find_leverage_token_index_by_mint(&key(31)), None);
}

#[test]
fn leverage_tokens_are_unique_by_base_token_and_leverage() {
    let mut g = group();
    add_base(&mut g, 1).unwrap();
    add_base(&mut g, 2).unwrap();
    add_leverage(&mut g, 30, 1, 3).unwrap();
    assert_eq!(
        add_leverage(&mut g, 31, 1, 3),
        Err(domain(QuasarErrorCode::Default, 9, SourceFileId::Processor))
    );
    assert_eq!(g.num_leverage_tokens, 1);
    assert!(add_leverage(&mut g, 31, 1, -3).is_ok());
    assert!(add_leverage(&mut g, 32, 2, 3).is_ok());
    assert_eq!(g.num_leverage_tokens, 3);
    assert_eq!(
        add_leverage(&mut g, 33, 2, 3),
        Err(domain(QuasarErrorCode::Default, 9, SourceFileId::Processor))
    );
}

#[test]
fn add_leverage_token_needs_a_registered_base_token() {
    let mut g = group();
    for n in 1..=16u8 {
        add_base(&mut g, n).unwrap();
    }
    assert_eq!(
        add_leverage(&mut g, 30, 99, 3),
        Err(domain(QuasarErrorCode::InvalidAccount, 9, SourceFileId::Processor))
    );
    assert_eq!(g.num_leverage_tokens, 0);
}

#[test]
fn the_thirty_third_leverage_token_is_refused() {
    let mut g = group();
    add_base(&mut g, 1).unwrap();
    for n in 0..32u8 {
        assert!(add_leverage(&mut g, 30 + n, 1, 2 + n as i64).is_ok());
    }
    assert_eq!(g.num_leverage_tokens, 32);
    assert_eq!(
        add_leverage(&mut g, 90, 1, 100),
        Err(domain(QuasarErrorCode::OutOfSpace, 9, SourceFileId::Processor))
    );
    assert_eq!(g.num_leverage_tokens, 32);
}

#[test]
fn add_leverage_token_checks_signer_administrator_and_authority_in_turn() {
    let mut g = group();
    add_base(&mut g, 1).unwrap();
    let mut unsigned = admin();
    unsigned.is_signer = false;
    unsigned.key = key(99);
    let lev = I80F48::from_i64(3);
    assert_eq!(
        Processor::add_leverage_token(&mut g, &unsigned, &key(30), &key(1), &key(150), &key(151), &key(210), lev, 2),
        Err(domain(QuasarErrorCode::SignerNecessary, 2, SourceFileId::Processor))
    );
    let mut other = admin();
    other.key = key(99);
    assert_eq!(
        Processor::add_leverage_token(&mut g, &other, &key(30), &key(1), &key(150), &key(151), &key(210), lev, 2),
        Err(domain(QuasarErrorCode::InvalidAdminKey, 2, SourceFileId::Processor))
    );
    assert_eq!(
        Processor::add_leverage_token(&mut g, &admin(), &key(30), &key(1), &key(150), &key(151), &key(211), lev, 2),
        Err(domain(QuasarErrorCode::InvalidSignerKey, 2, SourceFileId::Processor))
    );
    assert_eq!(
        Processor::add_leverage_token(&mut g, &admin(), &key(30), &key(98), &key(150), &key(151), &key(211), lev, 2),
        Err(domain(QuasarErrorCode::InvalidAccount, 2, SourceFileId::Processor))
    );
    assert_eq!(g.num_leverage_tokens, 0);
}

#[test]
fn load_checked_checks_owner_then_record() {
    let g = group();
    let program = key(1);
    assert!(QuasarGroup::load_checked(&g, &program, &program, 3).is_ok());
    assert_eq!(
        QuasarGroup::load_checked(&g, &key(2), &program, 3).err(),
        Some(domain(QuasarErrorCode::InvalidOwner, 3, SourceFileId::State))
    );
    let fresh = QuasarGroup::new();
    assert_eq!(
        QuasarGroup::load_checked(&fresh, &program, &program, 4).err(),
        Some(domain(QuasarErrorCode::InvalidAccount, 4, SourceFileId::State))
    );
    assert_eq!(
        QuasarGroup::load_checked(&fresh, &key(2), &program, 4).err(),
        Some(domain(QuasarErrorCode::InvalidOwner, 4, SourceFileId::State))
    );
    let mut wrong_kind = group();
    wrong_kind.meta_data = MetaData::new(DataType::BaseToken, 0, true);
    assert_eq!(
        QuasarGroup::load_checked(&wrong_kind, &program, &program, 5).err(),
        Some(domain(QuasarErrorCode::InvalidAccount, 5, SourceFileId::State))
    );
}

#[test]
fn load_mut_checked_hands_out_the_group_for_writing() {
    let mut g = group();
    let program = key(1);
    {
        let loaded = QuasarGroup::load_mut_checked(&mut g, &program, &program, 3).unwrap();
        loaded.signer_nonce = 41;
    }
    assert_eq!(g.signer_nonce, 41);
    assert_eq!(
        QuasarGroup::load_mut_checked(&mut g, &key(2), &program, 6).err(),
        Some(domain(QuasarErrorCode::InvalidOwner, 6, SourceFileId::State))
    );
    assert_eq!(g.signer_nonce, 41);
}

#[test]
fn empty_records_and_a_new_group_are_zero_in_every_field() {
    let zero = Pubkey::default();
    let base = BaseToken::empty();
    assert!(base.mint == zero && base.oracle == zero);
    assert_eq!(base.decimals, 0);
    assert_eq!(base.padding, [0u8; 7]);
    let leverage = LeverageToken::empty();
    assert!(leverage.mint == zero && leverage.base_token_mint == zero);
    assert!(leverage.mango_account == zero && leverage.mango_perp_market == zero);
    assert_eq!(leverage.target_leverage.to_bits(), 0);
    let g = QuasarGroup::new();
    assert_eq!(g.meta_data.data_type, 0);
    assert_eq!(g.meta_data.version, 0);
    assert_eq!(g.meta_data.padding, [0u8; 5]);
    assert_eq!(g.signer_nonce, 0);
    assert!(g.signer_key == zero && g.admin_key == zero && g.mango_program_id == zero);
    assert!(g.base_tokens.iter().all(|t| t.oracle == zero && t.decimals == 0));
    assert!(g.leverage_tokens.iter().all(|t| t.target_leverage.to_bits() == 0));
}

#[test]
fn the_owner_of_a_group_s_account_is_tested_without_its_record() {
    assert_eq!(QuasarGroup::check_owner(&key(9), &key(9), 5), Ok(()));
    assert_eq!(
        QuasarGroup::check_owner(&key(8), &key(9), 5),
        Err(domain(QuasarErrorCode::InvalidOwner, 5, SourceFileId::State))
    );
    let account = AccountView { key: key(1), owner: key(9), is_signer: false };
    assert_eq!(Processor::check_group_owner(&key(9), &account, 6), Ok(()));
    assert_eq!(
        Processor::check_group_owner(&key(7), &account, 6),
        Err(domain(QuasarErrorCode::InvalidGroupOwner, 6, SourceFileId::Processor))
    );
    assert_eq!(Processor::check_rent_exempt(true, 7), Ok(()));
    assert_eq!(
        Processor::check_rent_exempt(false, 7),
        Err(domain(QuasarErrorCode::GroupNotRentExempt, 7, SourceFileId::Processor))
    );
}
