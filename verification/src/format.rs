use crate::error::FaucetError;
use vstd::bytes::{spec_u64_from_le_bytes, spec_u64_to_le_bytes};
use vstd::prelude::*;

verus! {

/// Mathematical model of a faucet command: the same three variants as the
/// executable type, with the optional admin key held as a plain byte
/// sequence. All contracts of the codec are stated over this model.
pub enum InstructionView {
    /// Establish the faucet: an optional 32-byte admin key and the per-call
    /// mint bound for non-admin callers.
    InitFaucet { admin: Option<Seq<u8>>, amount: u64 },
    /// Mint `amount` units to a destination.
    MintTokens { amount: u64 },
    /// Terminate the faucet.
    CloseFaucet,
}

/// A command model is valid when the admin key, if present, holds exactly
/// the 32 bytes of a public key. Every constructible command value has a
/// valid model.
pub open spec fn wf(v: InstructionView) -> bool {
    match v {
        InstructionView::InitFaucet { admin, .. } => match admin {
            Some(key) => key.len() == 32,
            None => true,
        },
        InstructionView::MintTokens { .. } => true,
        InstructionView::CloseFaucet => true,
    }
}

/// Canonical encoding of the optional admin key: one discriminant byte
/// (0 = absent, 1 = present), then, when present, the raw key bytes.
pub open spec fn spec_pack_pubkey_option(admin: Option<Seq<u8>>) -> Seq<u8> {
    match admin {
        Some(key) => seq![1u8] + key,
        None => seq![0u8],
    }
}

/// Canonical encoding of a command: one tag byte (0 = InitFaucet,
/// 1 = MintTokens, 2 = CloseFaucet), then the variant's fields, amounts in
/// little-endian order.
pub open spec fn spec_pack(v: InstructionView) -> Seq<u8> {
    match v {
        InstructionView::InitFaucet { admin, amount } => seq![0u8]
            + spec_pack_pubkey_option(admin) + spec_u64_to_le_bytes(amount),
        InstructionView::MintTokens { amount } => seq![1u8] + spec_u64_to_le_bytes(amount),
        InstructionView::CloseFaucet => seq![2u8],
    }
}

/// Decoding of the optional admin key from the front of `s`: discriminant 0
/// yields an absent key and the remaining bytes unchanged; discriminant 1
/// followed by at least 32 bytes yields those 32 bytes as the key and the
/// bytes after them; anything else is rejected.
pub open spec fn spec_unpack_pubkey_option(s: Seq<u8>) -> Result<
    (Option<Seq<u8>>, Seq<u8>),
    FaucetError,
> {
    if s.len() >= 1 && s[0] == 0 {
        Ok((None, s.skip(1)))
    } else if s.len() >= 33 && s[0] == 1 {
        Ok((Some(s.subrange(1, 33)), s.skip(33)))
    } else {
        Err(FaucetError::InvalidInstruction)
    }
}

/// Decoding of a command: the first byte is the tag; each variant then reads
/// exactly the fields its layout demands and ignores any trailing bytes.
/// Empty input, an unknown tag, a bad optional-key field, or fewer than 8
/// bytes where an amount is due are rejected.
pub open spec fn spec_unpack(s: Seq<u8>) -> Result<InstructionView, FaucetError> {
    if s.len() == 0 {
        Err(FaucetError::InvalidInstruction)
    } else {
        let rest = s.skip(1);
        if s[0] == 0 {
            match spec_unpack_pubkey_option(rest) {
                Ok((admin, tail)) => {
                    if tail.len() >= 8 {
                        Ok(
                            InstructionView::InitFaucet {
                                admin,
                                amount: spec_u64_from_le_bytes(tail.subrange(0, 8)),
                            },
                        )
                    } else {
                        Err(FaucetError::InvalidInstruction)
                    }
                },
                Err(e) => Err(e),
            }
        } else if s[0] == 1 {
            if rest.len() >= 8 {
                Ok(
                    InstructionView::MintTokens {
                        amount: spec_u64_from_le_bytes(rest.subrange(0, 8)),
                    },
                )
            } else {
                Err(FaucetError::InvalidInstruction)
            }
        } else if s[0] == 2 {
            Ok(InstructionView::CloseFaucet)
        } else {
            Err(FaucetError::InvalidInstruction)
        }
    }
}

} // verus!
