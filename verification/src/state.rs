//! The persisted record of one vault group: its identities and its
//! catalogue of base tokens and leverage tokens.

use vstd::prelude::*;
use crate::error::{
    check_assert, domain_error, math_result, QuasarError, QuasarErrorCode, QuasarResult, SourceFileId,
};
use crate::fixed_point::{checked_pow10, pow10_u64_spec, I80F48, ONE_BITS};
use crate::nav::{compute, nav_spec};
use crate::pubkey::Pubkey;
use crate::token::{mint_data_valid, mint_info_spec, unpack_mint};
use crate::venue::{MarketState, VenueSnapshot};

verus! {

/// Largest number of base tokens in one group.
pub const MAX_BASE_TOKENS: usize = 16;

/// Largest number of leverage tokens in one group.
pub const MAX_LEVERAGE_TOKENS: usize = 32;

/// Decimals of every leverage token's mint.
pub const LEVERGAE_TOKEN_DECIMALS: u8 = 0;

/// Price of a leverage token with no supply, in whole quote tokens.
pub const INITIAL_LEVERAGE_TOKEN_PRICE: u64 = 1;

/// Kind of a persisted record.
#[derive(Clone, Copy, Debug, PartialEq, Eq, Structural)]
pub enum DataType {
    QuasarGroup,
    BaseToken,
    LeverageToken,
}

impl DataType {
    /// The number under which the kind is persisted.
    pub open spec fn to_u8_spec(self) -> u8 {
        match self {
            DataType::QuasarGroup => 0,
            DataType::BaseToken => 1,
            DataType::LeverageToken => 2,
        }
    }

    /// The number under which the kind is persisted.
    pub fn to_u8(self) -> (r: u8)
        ensures
            r == self.to_u8_spec(),
    {
        match self {
            DataType::QuasarGroup => 0,
            DataType::BaseToken => 1,
            DataType::LeverageToken => 2,
        }
    }

    /// The kind persisted under `number`, if there is one.
    pub fn try_from_primitive(number: u8) -> (r: Option<DataType>)
        ensures
            match r {
                Some(kind) => kind.to_u8_spec() == number,
                None => number > 2,
            },
    {
        if number == 0 {
            Some(DataType::QuasarGroup)
        } else if number == 1 {
            Some(DataType::BaseToken)
        } else if number == 2 {
            Some(DataType::LeverageToken)
        } else {
            None
        }
    }
}

/// What every persisted record starts with.
#[derive(Clone, Copy, Debug)]
pub struct MetaData {
    pub data_type: u8,
    pub version: u8,
    pub is_initialized: bool,
    /// Fills the header up to eight bytes.
    pub padding: [u8; 5],
}

impl MetaData {
    /// The header of a record of the kind `data_type`, its padding zero.
    pub fn new(data_type: DataType, version: u8, is_initialized: bool) -> (r: MetaData)
        ensures
            r.data_type == data_type.to_u8_spec(),
            r.version == version,
            r.is_initialized == is_initialized,
            r.padding@ == Seq::new(5, |i: int| 0u8),
    {
        let r = MetaData { data_type: data_type.to_u8(), version, is_initialized, padding: [0u8; 5] };
        assert(r.padding@ =~= Seq::new(5, |i: int| 0u8));
        r
    }
}

/// A registered collateral asset.
#[derive(Clone, Copy, Debug)]
pub struct BaseToken {
    pub mint: Pubkey,
    pub decimals: u8,
    pub oracle: Pubkey,
    pub padding: [u8; 7],
}

impl BaseToken {
    /// Whether the slot is empty: its mint is the all-zero sentinel.
    pub open spec fn is_empty_spec(&self) -> bool {
        self.mint@ == Pubkey::zero_spec()
    }

    #[verifier::when_used_as_spec(is_empty_spec)]
    pub fn is_empty(&self) -> (r: bool)
        ensures
            r == self.is_empty_spec(),
    {
        self.mint == Pubkey::default()
    }

    /// Whether every field of the record is zero.
    pub open spec fn is_zeroed(&self) -> bool {
        &&& self.mint@ == Pubkey::zero_spec()
        &&& self.decimals == 0
        &&& self.oracle@ == Pubkey::zero_spec()
        &&& self.padding@ == Seq::new(7, |i: int| 0u8)
    }

    /// The record of an empty slot: every field zero.
    pub fn empty() -> (r: BaseToken)
        ensures
            r.is_zeroed(),
    {
        let padding = [0u8; 7];
        assert(padding@ =~= Seq::new(7, |i: int| 0u8));
        BaseToken { mint: Pubkey::default(), decimals: 0, oracle: Pubkey::default(), padding }
    }
}

/// A registered leverage token.
#[derive(Clone, Copy, Debug)]
pub struct LeverageToken {
    pub mint: Pubkey,
    pub base_token_mint: Pubkey,
    /// Fixed when the token is registered.
    pub target_leverage: I80F48,
    pub mango_account: Pubkey,
    pub mango_perp_market: Pubkey,
}

impl LeverageToken {
    /// Whether the slot is empty: its mint is the all-zero sentinel.
    pub open spec fn is_empty_spec(&self) -> bool {
        self.mint@ == Pubkey::zero_spec()
    }

    #[verifier::when_used_as_spec(is_empty_spec)]
    pub fn is_empty(&self) -> (r: bool)
        ensures
            r == self.is_empty_spec(),
    {
        self.mint == Pubkey::default()
    }

    /// Whether every field of the record is zero.
    pub open spec fn is_zeroed(&self) -> bool {
        &&& self.mint@ == Pubkey::zero_spec()
        &&& self.base_token_mint@ == Pubkey::zero_spec()
        &&& self.target_leverage.bits == 0
        &&& self.mango_account@ == Pubkey::zero_spec()
        &&& self.mango_perp_market@ == Pubkey::zero_spec()
    }

    /// The record of an empty slot: every field zero.
    pub fn empty() -> (r: LeverageToken)
        ensures
            r.is_zeroed(),
    {
        LeverageToken {
            mint: Pubkey::default(),
            base_token_mint: Pubkey::default(),
            target_leverage: I80F48::zero(),
            mango_account: Pubkey::default(),
            mango_perp_market: Pubkey::default(),
        }
    }

    /// Whether the token has this base token and this target leverage.
    pub open spec fn has_target(&self, base_token_mint: Pubkey, target_leverage: I80F48) -> bool {
        self.base_token_mint@ == base_token_mint@ && self.target_leverage == target_leverage
    }

    /// The price of one leverage-token unit in native quote units, read from
    /// the record of the token's mint and from the venue.
    ///
    /// Fails with the runtime's error where `mint_data` is not the record of
    /// an initialized mint; else it is `native_price` of the mint's supply.
    pub fn get_native_price(&self, mint_data: &[u8], snapshot: &VenueSnapshot) -> (r: QuasarResult<
        I80F48,
    >)
        ensures
            !mint_data_valid(mint_data@) ==> r matches Err(QuasarError::ProgramError(_)),
            mint_data_valid(mint_data@) ==> r == math_result(
                native_price_spec(
                    mint_info_spec(mint_data@).supply,
                    snapshot.quote_decimals,
                    snapshot.markets@,
                ),
            ),
    {
        match unpack_mint(mint_data) {
            Ok(mint) => native_price(mint.supply, snapshot.quote_decimals, &snapshot.markets),
            Err(e) => Err(QuasarError::ProgramError(e)),
        }
    }
}

/// The price of a leverage token with no supply: one quote token in native
/// units, that is ten to the power of the quote token's decimals.
pub open spec fn bootstrap_price_spec(quote_decimals: u8) -> Option<I80F48> {
    match pow10_u64_spec(quote_decimals as nat) {
        Some(quote_unit) => Some(
            I80F48 { bits: ((INITIAL_LEVERAGE_TOKEN_PRICE * quote_unit) * ONE_BITS) as i128 },
        ),
        None => None,
    }
}

/// The price of one leverage-token unit in native quote units: the bootstrap
/// price where there is no supply, whatever the venue account holds; else
/// the net asset value divided by the supply. `None` where a checked
/// operation fails.
pub open spec fn native_price_spec(
    supply: u64,
    quote_decimals: u8,
    markets: Seq<MarketState>,
) -> Option<I80F48> {
    if supply == 0 {
        bootstrap_price_spec(quote_decimals)
    } else {
        match nav_spec(markets) {
            Some(nav) => nav.div_spec(I80F48 { bits: (supply * ONE_BITS) as i128 }),
            None => None,
        }
    }
}

/// The price of one leverage-token unit in native quote units, for a mint
/// with this supply. Fails with `MathError`, and only then, where a checked
/// operation fails.
pub fn native_price(supply: u64, quote_decimals: u8, markets: &Vec<MarketState>) -> (r: QuasarResult<
    I80F48,
>)
    ensures
        r == math_result(native_price_spec(supply, quote_decimals, markets@)),
{
    if supply == 0 {
        return match checked_pow10(quote_decimals as u32) {
            Some(quote_unit) => Ok(I80F48::from_u64(INITIAL_LEVERAGE_TOKEN_PRICE * quote_unit)),
            None => Err(QuasarError::MathError),
        };
    }
    match compute(markets) {
        Ok(value) => match value.net_asset_value.checked_div(I80F48::from_u64(supply)) {
            Some(price) => Ok(price),
            None => Err(QuasarError::MathError),
        },
        Err(_) => Err(QuasarError::MathError),
    }
}

/// The persisted record of one vault group.
#[derive(Clone, Copy, Debug)]
pub struct QuasarGroup {
    pub meta_data: MetaData,
    /// Number of registered base tokens: the next free slot.
    pub num_base_tokens: usize,
    pub base_tokens: [BaseToken; 16],
    /// Number of registered leverage tokens: the next free slot.
    pub num_leverage_tokens: usize,
    pub leverage_tokens: [LeverageToken; 32],
    pub signer_nonce: u64,
    pub signer_key: Pubkey,
    pub admin_key: Pubkey,
    pub mango_program_id: Pubkey,
}

impl QuasarGroup {
    /// The invariant of a group's catalogue: neither cursor is beyond its
    /// array, the slots from a cursor on are empty, no two registered base
    /// tokens share a mint, and no two registered leverage tokens share
    /// both base token and target leverage.
    pub open spec fn wf(&self) -> bool {
        &&& self.num_base_tokens <= MAX_BASE_TOKENS
        &&& self.num_leverage_tokens <= MAX_LEVERAGE_TOKENS
        &&& forall|i: int|
            self.num_base_tokens <= i < MAX_BASE_TOKENS ==> (#[trigger] self.base_tokens@[i]).is_empty_spec()
        &&& forall|i: int|
            self.num_leverage_tokens <= i < MAX_LEVERAGE_TOKENS ==> (
            #[trigger] self.leverage_tokens@[i]).is_empty_spec()
        &&& forall|i: int, j: int|
            0 <= i < j < self.num_base_tokens ==> (#[trigger] self.base_tokens@[i]).mint@ != (
            #[trigger] self.base_tokens@[j]).mint@
        &&& forall|i: int, j: int|
            0 <= i < j < self.num_leverage_tokens ==> !(#[trigger] self.leverage_tokens@[i]).has_target(
                (#[trigger] self.leverage_tokens@[j]).base_token_mint,
                self.leverage_tokens@[j].target_leverage,
            )
    }

    /// Whether slot `i` holds a base token with this mint.
    pub open spec fn base_token_at(&self, i: int, mint: Pubkey) -> bool {
        0 <= i < MAX_BASE_TOKENS && self.base_tokens@[i].mint@ == mint@
    }

    /// Whether slot `i` holds a leverage token with this mint.
    pub open spec fn leverage_token_at(&self, i: int, mint: Pubkey) -> bool {
        0 <= i < MAX_LEVERAGE_TOKENS && self.leverage_tokens@[i].mint@ == mint@
    }

    /// Whether slot `i` holds a leverage token with this base token and this
    /// target leverage.
    pub open spec fn leverage_target_at(
        &self,
        i: int,
        base_token_mint: Pubkey,
        target_leverage: I80F48,
    ) -> bool {
        0 <= i < MAX_LEVERAGE_TOKENS && self.leverage_tokens@[i].has_target(
            base_token_mint,
            target_leverage,
        )
    }

    /// The first slot whose mint is `mint`, if there is one.
    pub open spec fn base_token_index_spec(&self, mint: Pubkey) -> Option<usize> {
        if exists|i: int| self.base_token_at(i, mint) {
            Some(
                (choose|i: int|
                    self.base_token_at(i, mint) && forall|j: int|
                        0 <= j < i ==> !self.base_token_at(j, mint)) as usize,
            )
        } else {
            None
        }
    }

    /// The first slot whose leverage token has the mint `mint`, if there is
    /// one.
    pub open spec fn leverage_token_index_by_mint_spec(&self, mint: Pubkey) -> Option<usize> {
        if exists|i: int| self.leverage_token_at(i, mint) {
            Some(
                (choose|i: int|
                    self.leverage_token_at(i, mint) && forall|j: int|
                        0 <= j < i ==> !self.leverage_token_at(j, mint)) as usize,
            )
        } else {
            None
        }
    }

    /// The first slot whose leverage token has this base token and this
    /// target leverage, if there is one.
    pub open spec fn leverage_token_index_spec(
        &self,
        base_token_mint: Pubkey,
        target_leverage: I80F48,
    ) -> Option<usize> {
        if exists|i: int| self.leverage_target_at(i, base_token_mint, target_leverage) {
            Some(
                (choose|i: int|
                    self.leverage_target_at(i, base_token_mint, target_leverage) && forall|j: int|
                        0 <= j < i ==> !self.leverage_target_at(j, base_token_mint, target_leverage)) as usize,
            )
        } else {
            None
        }
    }

    /// The first slot with the mint, where slot `i` has it and none before.
    pub proof fn lemma_base_token_index(&self, mint: Pubkey, i: int)
        requires
            self.base_token_at(i, mint),
            forall|j: int| 0 <= j < i ==> !self.base_token_at(j, mint),
        ensures
            self.base_token_index_spec(mint) == Some(i as usize),
    {
        let c = choose|c: int|
            self.base_token_at(c, mint) && forall|j: int| 0 <= j < c ==> !self.base_token_at(j, mint);
        assert(self.base_token_at(c, mint));
        assert(c == i);
    }

    /// The first slot with the mint, where slot `i` has it and none before.
    pub proof fn lemma_leverage_token_index_by_mint(&self, mint: Pubkey, i: int)
        requires
            self.leverage_token_at(i, mint),
            forall|j: int| 0 <= j < i ==> !self.leverage_token_at(j, mint),
        ensures
            self.leverage_token_index_by_mint_spec(mint) == Some(i as usize),
    {
        let c = choose|c: int|
            self.leverage_token_at(c, mint) && forall|j: int|
                0 <= j < c ==> !self.leverage_token_at(j, mint);
        assert(self.leverage_token_at(c, mint));
        assert(c == i);
    }

    /// The first slot with the target, where slot `i` has it and none before.
    pub proof fn lemma_leverage_token_index(
        &self,
        base_token_mint: Pubkey,
        target_leverage: I80F48,
        i: int,
    )
        requires
            self.leverage_target_at(i, base_token_mint, target_leverage),
            forall|j: int| 0 <= j < i ==> !self.leverage_target_at(j, base_token_mint, target_leverage),
        ensures
            self.leverage_token_index_spec(base_token_mint, target_leverage) == Some(i as usize),
    {
        let c = choose|c: int|
            self.leverage_target_at(c, base_token_mint, target_leverage) && forall|j: int|
                0 <= j < c ==> !self.leverage_target_at(j, base_token_mint, target_leverage);
        assert(self.leverage_target_at(c, base_token_mint, target_leverage));
        assert(c == i);
    }

    /// Where the next base token goes, if one with this mint can be
    /// registered: not where some slot already has the mint (`Default`),
    /// nor where every slot is taken (`OutOfSpace`), nor where the slot at
    /// the cursor is not empty (`Default`).
    pub open spec fn base_token_slot_spec(&self, mint: Pubkey) -> Result<usize, QuasarErrorCode> {
        if self.base_token_index_spec(mint).is_some() {
            Err(QuasarErrorCode::Default)
        } else if self.num_base_tokens >= MAX_BASE_TOKENS {
            Err(QuasarErrorCode::OutOfSpace)
        } else if !self.base_tokens@[self.num_base_tokens as int].is_empty_spec() {
            Err(QuasarErrorCode::Default)
        } else {
            Ok(self.num_base_tokens)
        }
    }

    /// Where the next leverage token goes, if one with this base token and
    /// this target leverage can be registered: not where no slot holds the
    /// base token (`InvalidAccount`), nor where some leverage token already
    /// has both (`Default`), nor where every slot is taken (`OutOfSpace`),
    /// nor where the slot at the cursor is not empty (`Default`).
    pub open spec fn leverage_token_slot_spec(
        &self,
        base_token_mint: Pubkey,
        target_leverage: I80F48,
    ) -> Result<usize, QuasarErrorCode> {
        if self.base_token_index_spec(base_token_mint).is_none() {
            Err(QuasarErrorCode::InvalidAccount)
        } else if self.leverage_token_index_spec(base_token_mint, target_leverage).is_some() {
            Err(QuasarErrorCode::Default)
        } else if self.num_leverage_tokens >= MAX_LEVERAGE_TOKENS {
            Err(QuasarErrorCode::OutOfSpace)
        } else if !self.leverage_tokens@[self.num_leverage_tokens as int].is_empty_spec() {
            Err(QuasarErrorCode::Default)
        } else {
            Ok(self.num_leverage_tokens)
        }
    }

    /// Whether `self` is `before` with `record` appended to the base tokens
    /// and nothing else changed.
    pub open spec fn is_with_base_token(&self, before: QuasarGroup, record: BaseToken) -> bool {
        &&& before.num_base_tokens < MAX_BASE_TOKENS
        &&& self.num_base_tokens == before.num_base_tokens + 1
        &&& self.base_tokens@ == before.base_tokens@.update(before.num_base_tokens as int, record)
        &&& self.meta_data == before.meta_data
        &&& self.num_leverage_tokens == before.num_leverage_tokens
        &&& self.leverage_tokens == before.leverage_tokens
        &&& self.signer_nonce == before.signer_nonce
        &&& self.signer_key == before.signer_key
        &&& self.admin_key == before.admin_key
        &&& self.mango_program_id == before.mango_program_id
    }

    /// Whether `self` is `before` with `record` appended to the leverage
    /// tokens and nothing else changed.
    pub open spec fn is_with_leverage_token(&self, before: QuasarGroup, record: LeverageToken) -> bool {
        &&& before.num_leverage_tokens < MAX_LEVERAGE_TOKENS
        &&& self.num_leverage_tokens == before.num_leverage_tokens + 1
        &&& self.leverage_tokens@ == before.leverage_tokens@.update(
            before.num_leverage_tokens as int,
            record,
        )
        &&& self.meta_data == before.meta_data
        &&& self.num_base_tokens == before.num_base_tokens
        &&& self.base_tokens == before.base_tokens
        &&& self.signer_nonce == before.signer_nonce
        &&& self.signer_key == before.signer_key
        &&& self.admin_key == before.admin_key
        &&& self.mango_program_id == before.mango_program_id
    }

    /// Finds the slot for a new base token with this mint.
    pub fn base_token_slot(&self, mint: &Pubkey) -> (r: Result<usize, QuasarErrorCode>)
        ensures
            r == self.base_token_slot_spec(*mint),
    {
        if self.find_base_token_index(mint).is_some() {
            return Err(QuasarErrorCode::Default);
        }
        let index = self.num_base_tokens;
        if index >= MAX_BASE_TOKENS {
            return Err(QuasarErrorCode::OutOfSpace);
        }
        if !self.base_tokens[index].is_empty() {
            return Err(QuasarErrorCode::Default);
        }
        Ok(index)
    }

    /// Finds the slot for a new leverage token with this base token and this
    /// target leverage.
    pub fn leverage_token_slot(&self, base_token_mint: &Pubkey, target_leverage: I80F48) -> (r: Result<
        usize,
        QuasarErrorCode,
    >)
        ensures
            r == self.leverage_token_slot_spec(*base_token_mint, target_leverage),
    {
        if self.find_base_token_index(base_token_mint).is_none() {
            return Err(QuasarErrorCode::InvalidAccount);
        }
        if self.find_leverage_token_index(base_token_mint, target_leverage).is_some() {
            return Err(QuasarErrorCode::Default);
        }
        let index = self.num_leverage_tokens;
        if index >= MAX_LEVERAGE_TOKENS {
            return Err(QuasarErrorCode::OutOfSpace);
        }
        if !self.leverage_tokens[index].is_empty() {
            return Err(QuasarErrorCode::Default);
        }
        Ok(index)
    }

    /// Appends a base token that `base_token_slot` has found a slot for.
    pub fn push_base_token(&mut self, record: BaseToken)
        requires
            old(self).base_token_slot_spec(record.mint) is Ok,
        ensures
            final(self).is_with_base_token(*old(self), record),
            old(self).wf() ==> final(self).wf(),
    {
        let index = self.num_base_tokens;
        self.base_tokens[index] = record;
        self.num_base_tokens = index + 1;
        proof {
            let before = *old(self);
            let after = *self;
            assert(after.base_tokens@ == before.base_tokens@.update(index as int, record));
            if before.wf() {
                assert forall|i: int, j: int| 0 <= i < j < after.num_base_tokens implies (
                #[trigger] after.base_tokens@[i]).mint@ != (#[trigger] after.base_tokens@[j]).mint@ by {
                    if j == index {
                        assert(!before.base_token_at(i, record.mint));
                    }
                }
            }
        }
    }

    /// Appends a leverage token that `leverage_token_slot` has found a slot
    /// for.
    pub fn push_leverage_token(&mut self, record: LeverageToken)
        requires
            old(self).leverage_token_slot_spec(record.base_token_mint, record.target_leverage) is Ok,
        ensures
            final(self).is_with_leverage_token(*old(self), record),
            old(self).wf() ==> final(self).wf(),
    {
        let index = self.num_leverage_tokens;
        self.leverage_tokens[index] = record;
        self.num_leverage_tokens = index + 1;
        proof {
            let before = *old(self);
            let after = *self;
            assert(after.leverage_tokens@ == before.leverage_tokens@.update(index as int, record));
            if before.wf() {
                assert forall|i: int, j: int|
                    0 <= i < j < after.num_leverage_tokens implies !(
                #[trigger] after.leverage_tokens@[i]).has_target(
                    (#[trigger] after.leverage_tokens@[j]).base_token_mint,
                    after.leverage_tokens@[j].target_leverage,
                ) by {
                    if j == index {
                        assert(!before.leverage_target_at(
                            i,
                            record.base_token_mint,
                            record.target_leverage,
                        ));
                    }
                }
            }
        }
    }

    /// The test of the owner of the account that a group's record is read
    /// from: `InvalidOwner` where that is not this program.
    pub open spec fn owner_check_spec(owner: Pubkey, program_id: Pubkey, line: u32) -> QuasarResult<()> {
        if owner@ != program_id@ {
            domain_error(QuasarErrorCode::InvalidOwner, line, SourceFileId::State)
        } else {
            Ok(())
        }
    }

    /// Tests the owner of the account that a group's record is read from.
    /// It reads nothing of the record, so it can be made before the record
    /// is decoded.
    pub fn check_owner(owner: &Pubkey, program_id: &Pubkey, line: u32) -> (r: QuasarResult<()>)
        ensures
            r == QuasarGroup::owner_check_spec(*owner, *program_id, line),
    {
        check_assert(*owner == *program_id, QuasarErrorCode::InvalidOwner, line, SourceFileId::State)
    }

    /// What loading a group's record yields: `InvalidOwner` where the
    /// record's owner is not this program, else `InvalidAccount` where the
    /// record is not initialized or not that of a group.
    pub open spec fn load_check_spec(
        &self,
        owner: Pubkey,
        program_id: Pubkey,
        line: u32,
    ) -> QuasarResult<()> {
        if QuasarGroup::owner_check_spec(owner, program_id, line) is Err {
            QuasarGroup::owner_check_spec(owner, program_id, line)
        } else if !self.meta_data.is_initialized || self.meta_data.data_type
            != DataType::QuasarGroup.to_u8_spec() {
            domain_error(QuasarErrorCode::InvalidAccount, line, SourceFileId::State)
        } else {
            Ok(())
        }
    }

    /// Checks a group's record, read from an account with this owner, for
    /// reading.
    pub fn load_checked<'a>(
        group: &'a QuasarGroup,
        owner: &Pubkey,
        program_id: &Pubkey,
        line: u32,
    ) -> (r: QuasarResult<&'a QuasarGroup>)
        ensures
            match group.load_check_spec(*owner, *program_id, line) {
                Ok(_) => r == Ok::<&QuasarGroup, QuasarError>(group),
                Err(e) => r == Err::<&QuasarGroup, QuasarError>(e),
            },
    {
        match QuasarGroup::check_owner(owner, program_id, line) {
            Ok(_) => {},
            Err(e) => { return Err(e); },
        }
        match check_assert(
            group.meta_data.is_initialized,
            QuasarErrorCode::InvalidAccount,
            line,
            SourceFileId::State,
        ) {
            Ok(_) => {},
            Err(e) => { return Err(e); },
        }
        match check_assert(
            group.meta_data.data_type == DataType::QuasarGroup.to_u8(),
            QuasarErrorCode::InvalidAccount,
            line,
            SourceFileId::State,
        ) {
            Ok(_) => {},
            Err(e) => { return Err(e); },
        }
        Ok(group)
    }

    /// Checks a group's record, read from an account with this owner, for
    /// writing.
    pub fn load_mut_checked<'a>(
        group: &'a mut QuasarGroup,
        owner: &Pubkey,
        program_id: &Pubkey,
        line: u32,
    ) -> (r: QuasarResult<&'a mut QuasarGroup>)
        ensures
            match old(group).load_check_spec(*owner, *program_id, line) {
                Ok(_) => r matches Ok(loaded) && *loaded == *old(group)
                    && *final(loaded) == *final(group),
                Err(e) => r matches Err(f) && f == e && *final(group) == *old(group),
            },
    {
        match QuasarGroup::load_checked(group, owner, program_id, line) {
            Ok(_) => Ok(group),
            Err(e) => Err(e),
        }
    }

    /// Whether the group is as the ledger hands out a fresh record: every
    /// field zero, every slot empty.
    pub open spec fn is_fresh(&self) -> bool {
        &&& self.meta_data.data_type == 0
        &&& self.meta_data.version == 0
        &&& !self.meta_data.is_initialized
        &&& self.meta_data.padding@ == Seq::new(5, |i: int| 0u8)
        &&& self.num_base_tokens == 0
        &&& forall|i: int| 0 <= i < MAX_BASE_TOKENS ==> (#[trigger] self.base_tokens@[i]).is_zeroed()
        &&& self.num_leverage_tokens == 0
        &&& forall|i: int|
            0 <= i < MAX_LEVERAGE_TOKENS ==> (#[trigger] self.leverage_tokens@[i]).is_zeroed()
        &&& self.signer_nonce == 0
        &&& self.signer_key@ == Pubkey::zero_spec()
        &&& self.admin_key@ == Pubkey::zero_spec()
        &&& self.mango_program_id@ == Pubkey::zero_spec()
    }

    /// A group as the ledger hands out a fresh record: every byte zero.
    pub fn new() -> (r: QuasarGroup)
        ensures
            r.is_fresh(),
            r.wf(),
    {
        let padding = [0u8; 5];
        assert(padding@ =~= Seq::new(5, |i: int| 0u8));
        QuasarGroup {
            meta_data: MetaData { data_type: 0, version: 0, is_initialized: false, padding },
            num_base_tokens: 0,
            base_tokens: [BaseToken::empty(); 16],
            num_leverage_tokens: 0,
            leverage_tokens: [LeverageToken::empty(); 32],
            signer_nonce: 0,
            signer_key: Pubkey::default(),
            admin_key: Pubkey::default(),
            mango_program_id: Pubkey::default(),
        }
    }

    /// The first slot, of all sixteen, whose mint is `base_token_mint`.
    pub fn find_base_token_index(&self, base_token_mint: &Pubkey) -> (r: Option<usize>)
        ensures
            r == self.base_token_index_spec(*base_token_mint),
            match r {
                Some(i) => self.base_token_at(i as int, *base_token_mint) && forall|j: int|
                    0 <= j < i ==> !self.base_token_at(j, *base_token_mint),
                None => forall|j: int| !self.base_token_at(j, *base_token_mint),
            },
    {
        let mut i: usize = 0;
        while i < MAX_BASE_TOKENS
            invariant
                0 <= i <= MAX_BASE_TOKENS,
                forall|j: int| 0 <= j < i ==> !self.base_token_at(j, *base_token_mint),
            decreases MAX_BASE_TOKENS - i,
        {
            if self.base_tokens[i].mint == *base_token_mint {
                proof {
                    self.lemma_base_token_index(*base_token_mint, i as int);
                }
                return Some(i);
            }
            i = i + 1;
        }
        None
    }

    /// The first slot, of all thirty-two, whose token has this base token and
    /// this target leverage.
    pub fn find_leverage_token_index(
        &self,
        base_token_mint: &Pubkey,
        target_leverage: I80F48,
    ) -> (r: Option<usize>)
        ensures
            r == self.leverage_token_index_spec(*base_token_mint, target_leverage),
            match r {
                Some(i) => self.leverage_target_at(i as int, *base_token_mint, target_leverage)
                    && forall|j: int|
                    0 <= j < i ==> !self.leverage_target_at(j, *base_token_mint, target_leverage),
                None => forall|j: int|
                    !self.leverage_target_at(j, *base_token_mint, target_leverage),
            },
    {
        let mut i: usize = 0;
        while i < MAX_LEVERAGE_TOKENS
            invariant
                0 <= i <= MAX_LEVERAGE_TOKENS,
                forall|j: int|
                    0 <= j < i ==> !self.leverage_target_at(j, *base_token_mint, target_leverage),
            decreases MAX_LEVERAGE_TOKENS - i,
        {
            if self.leverage_tokens[i].base_token_mint == *base_token_mint
                && self.leverage_tokens[i].target_leverage == target_leverage {
                proof {
                    self.lemma_leverage_token_index(*base_token_mint, target_leverage, i as int);
                }
                return Some(i);
            }
            i = i + 1;
        }
        None
    }

    /// The first slot, of all thirty-two, whose mint is `token_mint`.
    pub fn find_leverage_token_index_by_mint(&self, token_mint: &Pubkey) -> (r: Option<usize>)
        ensures
            r == self.leverage_token_index_by_mint_spec(*token_mint),
            match r {
                Some(i) => self.leverage_token_at(i as int, *token_mint) && forall|j: int|
                    0 <= j < i ==> !self.leverage_token_at(j, *token_mint),
                None => forall|j: int| !self.leverage_token_at(j, *token_mint),
            },
    {
        let mut i: usize = 0;
        while i < MAX_LEVERAGE_TOKENS
            invariant
                0 <= i <= MAX_LEVERAGE_TOKENS,
                forall|j: int| 0 <= j < i ==> !self.leverage_token_at(j, *token_mint),
            decreases MAX_LEVERAGE_TOKENS - i,
        {
            if self.leverage_tokens[i].mint == *token_mint {
                proof {
                    self.lemma_leverage_token_index_by_mint(*token_mint, i as int);
                }
                return Some(i);
            }
            i = i + 1;
        }
        None
    }
}

/// A leverage token with no supply has the bootstrap price, whatever the
/// venue account holds.
pub proof fn lemma_bootstrap_price_ignores_venue(
    quote_decimals: u8,
    first: Seq<MarketState>,
    second: Seq<MarketState>,
)
    ensures
        native_price_spec(0, quote_decimals, first) == bootstrap_price_spec(quote_decimals),
        native_price_spec(0, quote_decimals, first) == native_price_spec(0, quote_decimals, second),
{
}

/// No two registrations of a base token with the same mint both succeed:
/// once a mint stands in a slot, a registration with it fails.
pub proof fn lemma_registered_base_token_is_refused(group: QuasarGroup, mint: Pubkey, i: int)
    requires
        group.base_token_at(i, mint),
    ensures
        group.base_token_slot_spec(mint) == Err::<usize, QuasarErrorCode>(QuasarErrorCode::Default),
{
}

/// After a base token was registered, a second registration with its mint
/// fails, and so does every later one: the record stays in its slot.
pub proof fn lemma_base_token_registered_once(
    before: QuasarGroup,
    after: QuasarGroup,
    record: BaseToken,
)
    requires
        after.is_with_base_token(before, record),
    ensures
        after.base_token_slot_spec(record.mint) == Err::<usize, QuasarErrorCode>(
            QuasarErrorCode::Default,
        ),
        forall|i: int, mint: Pubkey| before.base_token_at(i, mint) && i != before.num_base_tokens
            ==> after.base_token_at(i, mint),
{
    assert(after.base_token_at(before.num_base_tokens as int, record.mint));
}

/// A group whose base-token slots are all taken takes no further one.
pub proof fn lemma_full_base_tokens_refuse(group: QuasarGroup, mint: Pubkey)
    requires
        group.num_base_tokens >= MAX_BASE_TOKENS,
    ensures
        group.base_token_slot_spec(mint) is Err,
{
}

/// No two registrations of a leverage token with the same base token and
/// the same target leverage both succeed: once a slot holds both, a
/// registration with them fails.
pub proof fn lemma_registered_leverage_token_is_refused(
    group: QuasarGroup,
    base_token_mint: Pubkey,
    target_leverage: I80F48,
    i: int,
)
    requires
        group.leverage_target_at(i, base_token_mint, target_leverage),
    ensures
        group.leverage_token_slot_spec(base_token_mint, target_leverage) is Err,
{
}

/// After a leverage token was registered, a second registration with its
/// base token and its target leverage fails.
pub proof fn lemma_leverage_token_registered_once(
    before: QuasarGroup,
    after: QuasarGroup,
    record: LeverageToken,
)
    requires
        after.is_with_leverage_token(before, record),
    ensures
        after.leverage_token_slot_spec(record.base_token_mint, record.target_leverage) is Err,
{
    assert(after.leverage_target_at(
        before.num_leverage_tokens as int,
        record.base_token_mint,
        record.target_leverage,
    ));
}

/// A group whose leverage-token slots are all taken takes no further one.
pub proof fn lemma_full_leverage_tokens_refuse(
    group: QuasarGroup,
    base_token_mint: Pubkey,
    target_leverage: I80F48,
)
    requires
        group.num_leverage_tokens >= MAX_LEVERAGE_TOKENS,
    ensures
        group.leverage_token_slot_spec(base_token_mint, target_leverage) is Err,
{
}

} // verus!
