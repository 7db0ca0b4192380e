//! The instructions of the vault and their wire form: a discriminant of
//! four bytes, then a payload of fixed width, all little-endian.

use vstd::prelude::*;
use vstd::slice::slice_subrange;
use crate::fixed_point::I80F48;
use crate::le_bytes::{le_value, read_i128_le, read_u32_le, read_u64_le, signed128};

verus! {

/// An instruction of the vault.
#[derive(Clone, Copy, Debug, PartialEq, Eq, Structural)]
pub enum QuasarInstruction {
    /// Initialize a group. The nonce is that of the delegated authority.
    InitQuasarGroup { signer_nonce: u64 },
    /// Register a base token, on which leverage tokens build.
    AddBaseToken,
    /// Register a leverage token.
    AddLeverageToken { target_leverage: I80F48 },
    /// Mint leverage tokens against collateral.
    MintLeverageToken { quantity: u64 },
    /// Redeem leverage tokens for collateral.
    RedeemLeverageToken { quantity: u64 },
    /// Move the perpetual position towards the target leverage.
    Rebalance,
}

/// The unsigned 64-bit number at the start of `payload`, if it has eight
/// bytes.
pub open spec fn u64_payload_spec(payload: Seq<u8>) -> Option<u64> {
    if payload.len() >= 8 {
        Some(le_value(payload.subrange(0, 8)) as u64)
    } else {
        None
    }
}

/// The fixed-point number at the start of `payload`, if it has sixteen
/// bytes: they are its raw bits in two's complement.
pub open spec fn fixed_payload_spec(payload: Seq<u8>) -> Option<I80F48> {
    if payload.len() >= 16 {
        Some(I80F48 { bits: signed128(le_value(payload.subrange(0, 16))) as i128 })
    } else {
        None
    }
}

/// The instruction that `input` stands for: none where it is shorter than
/// the discriminant, where the discriminant is unknown, or where the
/// payload is too short. Bytes behind the payload are not read.
pub open spec fn unpack_spec(input: Seq<u8>) -> Option<QuasarInstruction> {
    if input.len() < 4 {
        None
    } else {
        let discriminant = le_value(input.subrange(0, 4));
        let payload = input.subrange(4, input.len() as int);
        if discriminant == 0 {
            match u64_payload_spec(payload) {
                Some(signer_nonce) => Some(QuasarInstruction::InitQuasarGroup { signer_nonce }),
                None => None,
            }
        } else if discriminant == 1 {
            Some(QuasarInstruction::AddBaseToken)
        } else if discriminant == 2 {
            match fixed_payload_spec(payload) {
                Some(target_leverage) => Some(QuasarInstruction::AddLeverageToken { target_leverage }),
                None => None,
            }
        } else if discriminant == 3 {
            match u64_payload_spec(payload) {
                Some(quantity) => Some(QuasarInstruction::MintLeverageToken { quantity }),
                None => None,
            }
        } else if discriminant == 4 {
            match u64_payload_spec(payload) {
                Some(quantity) => Some(QuasarInstruction::RedeemLeverageToken { quantity }),
                None => None,
            }
        } else if discriminant == 5 {
            Some(QuasarInstruction::Rebalance)
        } else {
            None
        }
    }
}

/// Reads the unsigned 64-bit number at the start of `payload`.
fn u64_payload(payload: &[u8]) -> (r: Option<u64>)
    ensures
        r == u64_payload_spec(payload@),
{
    if payload.len() >= 8 {
        Some(read_u64_le(slice_subrange(payload, 0, 8)))
    } else {
        None
    }
}

/// Reads the fixed-point number at the start of `payload`.
fn fixed_payload(payload: &[u8]) -> (r: Option<I80F48>)
    ensures
        r == fixed_payload_spec(payload@),
{
    if payload.len() >= 16 {
        Some(I80F48::from_bits(read_i128_le(slice_subrange(payload, 0, 16))))
    } else {
        None
    }
}

impl QuasarInstruction {
    /// Decodes an instruction from its wire form.
    pub fn unpack(input: &[u8]) -> (r: Option<QuasarInstruction>)
        ensures
            r == unpack_spec(input@),
    {
        if input.len() < 4 {
            return None;
        }
        let discriminant = read_u32_le(slice_subrange(input, 0, 4));
        let payload = slice_subrange(input, 4, input.len());
        if discriminant == 0 {
            match u64_payload(payload) {
                Some(signer_nonce) => Some(QuasarInstruction::InitQuasarGroup { signer_nonce }),
                None => None,
            }
        } else if discriminant == 1 {
            Some(QuasarInstruction::AddBaseToken)
        } else if discriminant == 2 {
            match fixed_payload(payload) {
                Some(target_leverage) => Some(QuasarInstruction::AddLeverageToken { target_leverage }),
                None => None,
            }
        } else if discriminant == 3 {
            match u64_payload(payload) {
                Some(quantity) => Some(QuasarInstruction::MintLeverageToken { quantity }),
                None => None,
            }
        } else if discriminant == 4 {
            match u64_payload(payload) {
                Some(quantity) => Some(QuasarInstruction::RedeemLeverageToken { quantity }),
                None => None,
            }
        } else if discriminant == 5 {
            Some(QuasarInstruction::Rebalance)
        } else {
            None
        }
    }

    /// Decodes an optional fixed-point number: a flag byte, zero for none,
    /// then the sixteen bytes of the number.
    pub fn unpack_i80f48_opt(data: &[u8; 17]) -> (r: Option<I80F48>)
        ensures
            r == (if data@[0] == 0 {
                None
            } else {
                fixed_payload_spec(data@.subrange(1, 17))
            }),
    {
        if data[0] == 0 {
            None
        } else {
            fixed_payload(slice_subrange(data.as_slice(), 1, 17))
        }
    }

    /// Decodes an optional unsigned 64-bit number: a flag byte, zero for
    /// none, then the eight bytes of the number.
    pub fn unpack_u64_opt(data: &[u8; 9]) -> (r: Option<u64>)
        ensures
            r == (if data@[0] == 0 {
                None
            } else {
                u64_payload_spec(data@.subrange(1, 9))
            }),
    {
        if data[0] == 0 {
            None
        } else {
            u64_payload(slice_subrange(data.as_slice(), 1, 9))
        }
    }
}

} // verus!
