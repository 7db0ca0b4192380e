//! What the vault reads of a token mint's record.

use vstd::prelude::*;
use crate::le_bytes::le_value;

verus! {

/// Length of a mint's record.
pub const MINT_LEN: usize = 82;

/// What the vault reads of a mint: its supply and its decimals.
#[derive(Clone, Copy, Debug, PartialEq, Eq, Structural)]
pub struct MintInfo {
    pub supply: u64,
    pub decimals: u8,
}

/// Whether the four bytes of `data` from `at` on are the tag of an optional
/// identity: zero or one as a 32-bit little-endian number.
pub open spec fn option_tag_valid(data: Seq<u8>, at: int) -> bool {
    (data[at] == 0 || data[at] == 1) && data[at + 1] == 0 && data[at + 2] == 0 && data[at + 3] == 0
}

/// Whether `data` is the record of an initialized mint: 82 bytes, of which
/// the optional mint authority stands first, at 36 the supply, at 44 the
/// decimals, at 45 the initialized flag, and at 46 the optional freeze
/// authority.
pub open spec fn mint_data_valid(data: Seq<u8>) -> bool {
    &&& data.len() == MINT_LEN
    &&& option_tag_valid(data, 0)
    &&& data[45] == 1
    &&& option_tag_valid(data, 46)
}

/// What a valid mint record holds.
pub open spec fn mint_info_spec(data: Seq<u8>) -> MintInfo {
    MintInfo { supply: le_value(data.subrange(36, 44)) as u64, decimals: data[44] }
}

/// Calls `spl_token::state::Mint::unpack`, that is
/// `solana_program::program_pack::Pack::unpack`, on `data`, and hands on the
/// supply and the decimals. Trusted: it succeeds on the record of an
/// initialized mint and on nothing else, the supply is the little-endian
/// number in bytes 36 to 43, and the decimals are byte 44.
#[verifier::external_body]
pub(crate) fn unpack_mint(data: &[u8]) -> (r: Result<
    MintInfo,
    solana_program::program_error::ProgramError,
>)
    ensures
        r is Ok <==> mint_data_valid(data@),
        r matches Ok(info) ==> info == mint_info_spec(data@),
{
    match <spl_token::state::Mint as solana_program::program_pack::Pack>::unpack(data) {
        Ok(mint) => Ok(MintInfo { supply: mint.supply, decimals: mint.decimals }),
        Err(e) => Err(e),
    }
}

} // verus!
