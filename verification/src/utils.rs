//! The spot leg of a market's value, and the delegated authority's identity.

use vstd::prelude::*;
use crate::error::{math_result, QuasarError, QuasarResult};
use crate::fixed_point::I80F48;
use crate::le_bytes::{le_digits, u64_to_le_bytes};
use crate::pubkey::Pubkey;
use crate::venue::{RootBankCache, SpotBalance};

verus! {

/// The address that the ledger derives for a program from two seeds, or
/// `None` where the seeds give no valid address. It is a hash of its
/// arguments, which the ledger's own code computes.
pub uninterp spec fn derived_address(
    first_seed: Seq<u8>,
    second_seed: Seq<u8>,
    program_id: Seq<u8>,
) -> Option<Seq<u8>>;

/// Calls `solana_program::pubkey::Pubkey::create_program_address` with two
/// seeds. Trusted: the outcome is a function of the seeds and the program's
/// identity alone, here named `derived_address`; a failure is handed on as
/// the runtime's error.
#[verifier::external_body]
fn create_program_address(first_seed: &[u8; 32], second_seed: &[u8; 8], program_id: &[u8; 32]) -> (r:
    Result<[u8; 32], solana_program::program_error::ProgramError>)
    ensures
        match r {
            Ok(address) => derived_address(first_seed@, second_seed@, program_id@) == Some(address@),
            Err(_) => derived_address(first_seed@, second_seed@, program_id@).is_none(),
        },
{
    let program = solana_program::pubkey::Pubkey::new_from_array(*program_id);
    let seeds: [&[u8]; 2] = [first_seed, second_seed];
    match solana_program::pubkey::Pubkey::create_program_address(&seeds, &program) {
        Ok(address) => Ok(address.to_bytes()),
        Err(e) => Err(solana_program::program_error::ProgramError::from(e)),
    }
}

/// The seeds of a group's delegated authority: the bytes of the group's
/// identity, then the eight bytes of the nonce, least significant first.
pub fn gen_signer_seeds(nonce: u64, acc_pk: &Pubkey) -> (r: ([u8; 32], [u8; 8]))
    ensures
        r.0@ == acc_pk@,
        r.1@ == le_digits(nonce as nat, 8),
{
    (acc_pk.bytes, u64_to_le_bytes(nonce))
}

/// The identity of the delegated authority: the address derived for
/// `program_id` from the seeds of `gen_signer_seeds`. Fails with the
/// runtime's error where the seeds give no valid address.
pub fn gen_signer_key(nonce: u64, acc_pk: &Pubkey, program_id: &Pubkey) -> (r: Result<
    Pubkey,
    solana_program::program_error::ProgramError,
>)
    ensures
        match r {
            Ok(key) => signer_key_spec(nonce, *acc_pk, *program_id) == Some(key@),
            Err(_) => signer_key_spec(nonce, *acc_pk, *program_id).is_none(),
        },
{
    let seeds = gen_signer_seeds(nonce, acc_pk);
    match create_program_address(&seeds.0, &seeds.1, &program_id.bytes) {
        Ok(bytes) => Ok(Pubkey { bytes }),
        Err(e) => Err(e),
    }
}

/// The bytes of the delegated authority's identity, if the seeds give one.
pub open spec fn signer_key_spec(nonce: u64, acc_pk: Pubkey, program_id: Pubkey) -> Option<Seq<u8>> {
    derived_address(acc_pk@, le_digits(nonce as nat, 8), program_id@)
}

/// Value in the token's own units of a balance: the deposit times the
/// deposit index where there is a deposit, minus the borrow times the borrow
/// index where there is a borrow, else zero.
pub open spec fn base_net_spec(balance: SpotBalance, bank_cache: RootBankCache) -> Option<I80F48> {
    if balance.deposit.bits > 0 {
        balance.deposit.mul_spec(bank_cache.deposit_index)
    } else if balance.borrow.bits > 0 {
        match balance.borrow.mul_spec(bank_cache.borrow_index) {
            Some(owed) => owed.neg_spec(),
            None => None,
        }
    } else {
        Some(I80F48 { bits: 0 })
    }
}

/// Value in quote units of a balance at `price`; `None` where a checked
/// operation fails.
pub open spec fn spot_value_spec(
    balance: SpotBalance,
    bank_cache: RootBankCache,
    price: I80F48,
) -> Option<I80F48> {
    match base_net_spec(balance, bank_cache) {
        Some(base_net) => base_net.mul_spec(price),
        None => None,
    }
}

/// The spot leg of one market: the value in quote units of what the venue
/// account holds of the market's token.
pub fn get_mango_spot_value(
    balance: &SpotBalance,
    bank_cache: &RootBankCache,
    price: I80F48,
) -> (r: QuasarResult<I80F48>)
    ensures
        r == math_result(spot_value_spec(*balance, *bank_cache, price)),
{
    let base_net = if balance.deposit.is_positive() {
        balance.deposit.checked_mul(bank_cache.deposit_index)
    } else if balance.borrow.is_positive() {
        match balance.borrow.checked_mul(bank_cache.borrow_index) {
            Some(owed) => owed.checked_neg(),
            None => None,
        }
    } else {
        Some(I80F48::zero())
    };
    match base_net {
        Some(b) => match b.checked_mul(price) {
            Some(v) => Ok(v),
            None => Err(QuasarError::MathError),
        },
        None => Err(QuasarError::MathError),
    }
}

} // verus!
