use crate::error::FaucetError;
use crate::format::{
    spec_pack, spec_pack_pubkey_option, spec_unpack, spec_unpack_pubkey_option, wf,
    InstructionView,
};
use vstd::bytes::{u64_from_le_bytes, u64_to_le_bytes};
use vstd::prelude::*;
use vstd::slice::{slice_subrange, slice_to_vec};

verus! {

/// A 32-byte public key, held as its raw bytes. Its view is the byte
/// sequence.
#[derive(Debug, PartialEq)]
pub struct Pubkey {
    bytes: Vec<u8>,
}

impl View for Pubkey {
    type V = Seq<u8>;

    closed spec fn view(&self) -> Seq<u8> {
        self.bytes@
    }
}

impl Pubkey {
    /// Every key holds exactly 32 bytes.
    #[verifier::type_invariant]
    spec fn len_fixed(self) -> bool {
        self.bytes@.len() == 32
    }

    /// Builds a key from exactly 32 raw bytes.
    pub fn new(key: &[u8]) -> (r: Pubkey)
        requires
            key@.len() == 32,
        ensures
            r@ == key@,
    {
        Pubkey { bytes: slice_to_vec(key) }
    }

    /// The raw bytes of the key, copied out.
    pub fn to_bytes(&self) -> (r: Vec<u8>)
        ensures
            r@ == self@,
            r@.len() == 32,
    {
        proof {
            use_type_invariant(&*self);
        }
        slice_to_vec(self.bytes.as_slice())
    }
}

impl Clone for Pubkey {
    fn clone(&self) -> (r: Self)
        ensures
            r@ == self@,
    {
        proof {
            use_type_invariant(&*self);
        }
        let bytes = self.bytes.clone();
        proof {
            assert(bytes@ =~= self.bytes@);
        }
        Pubkey { bytes }
    }
}

/// The admin key of a command, as the model sees it: the key's bytes when
/// one is present.
pub open spec fn spec_admin(admin: Option<Pubkey>) -> Option<Seq<u8>> {
    match admin {
        Some(key) => Some(key@),
        None => None,
    }
}

/// An administrative command for the faucet. The view is the command's
/// mathematical model.
#[derive(Clone, Debug, PartialEq)]
pub enum FaucetInstruction {
    /// Initializes a faucet and transfers mint authority to it.
    InitFaucet {
        /// An admin may mint any amount of tokens per call.
        admin: Option<Pubkey>,
        /// All other callers may only mint this amount per call.
        amount: u64,
    },
    /// Mints tokens to a destination.
    MintTokens { amount: u64 },
    /// Closes the faucet.
    CloseFaucet,
}

impl View for FaucetInstruction {
    type V = InstructionView;

    open spec fn view(&self) -> InstructionView {
        match self {
            FaucetInstruction::InitFaucet { admin, amount } => InstructionView::InitFaucet {
                admin: spec_admin(*admin),
                amount: *amount,
            },
            FaucetInstruction::MintTokens { amount } => InstructionView::MintTokens {
                amount: *amount,
            },
            FaucetInstruction::CloseFaucet => InstructionView::CloseFaucet,
        }
    }
}

impl FaucetInstruction {
    /// Decodes a byte buffer into a command, exactly as `spec_unpack`
    /// describes: the result is `Ok` if and only if the model decoding
    /// succeeds, and then carries the decoded command, which is valid.
    pub fn unpack(input: &[u8]) -> (r: Result<FaucetInstruction, FaucetError>)
        ensures
            match r {
                Ok(c) => spec_unpack(input@) == Ok::<InstructionView, FaucetError>(c@) && wf(c@),
                Err(e) => spec_unpack(input@) == Err::<InstructionView, FaucetError>(e),
            },
    {
        if input.len() == 0 {
            return Err(FaucetError::InvalidInstruction);
        }
        let tag = input[0];
        let rest = slice_subrange(input, 1, input.len());
        proof {
            assert(rest@ =~= input@.skip(1));
        }
        if tag == 0 {
            match Self::unpack_pubkey_option(rest) {
                Ok((admin, tail)) => {
                    if tail.len() >= 8 {
                        let amount = u64_from_le_bytes(slice_subrange(tail, 0, 8));
                        Ok(FaucetInstruction::InitFaucet { admin, amount })
                    } else {
                        Err(FaucetError::InvalidInstruction)
                    }
                },
                Err(e) => Err(e),
            }
        } else if tag == 1 {
            if rest.len() >= 8 {
                let amount = u64_from_le_bytes(slice_subrange(rest, 0, 8));
                Ok(FaucetInstruction::MintTokens { amount })
            } else {
                Err(FaucetError::InvalidInstruction)
            }
        } else if tag == 2 {
            Ok(FaucetInstruction::CloseFaucet)
        } else {
            Err(FaucetError::InvalidInstruction)
        }
    }

    /// Encodes the command into its canonical byte sequence, exactly as
    /// `spec_pack` describes. Encoding is total and the encoded command is
    /// valid.
    pub fn pack(&self) -> (r: Vec<u8>)
        ensures
            r@ == spec_pack(self@),
            wf(self@),
    {
        let mut buf: Vec<u8> = Vec::new();
        match self {
            FaucetInstruction::InitFaucet { admin, amount } => {
                buf.push(0);
                proof {
                    assert(buf@ =~= seq![0u8]);
                }
                Self::pack_pubkey_option(admin, &mut buf);
                let amount_bytes = u64_to_le_bytes(*amount);
                buf.extend_from_slice(amount_bytes.as_slice());
                proof {
                    assert(buf@ =~= spec_pack(self@));
                }
            },
            FaucetInstruction::MintTokens { amount } => {
                buf.push(1);
                let amount_bytes = u64_to_le_bytes(*amount);
                buf.extend_from_slice(amount_bytes.as_slice());
                proof {
                    assert(buf@ =~= spec_pack(self@));
                }
            },
            FaucetInstruction::CloseFaucet => {
                buf.push(2);
                proof {
                    assert(buf@ =~= spec_pack(self@));
                }
            },
        }
        buf
    }

    /// Reads the optional admin key from the front of `input`, exactly as
    /// `spec_unpack_pubkey_option` describes: on success it returns the key,
    /// if present, and the bytes after the field.
    fn unpack_pubkey_option<'a>(input: &'a [u8]) -> (r: Result<
        (Option<Pubkey>, &'a [u8]),
        FaucetError,
    >)
        ensures
            match r {
                Ok(p) => {
                    &&& spec_unpack_pubkey_option(input@) matches Ok(q)
                    &&& spec_admin(p.0) == q.0
                    &&& p.1@ == q.1
                },
                Err(e) => spec_unpack_pubkey_option(input@) == Err::<
                    (Option<Seq<u8>>, Seq<u8>),
                    FaucetError,
                >(e),
            },
    {
        if input.len() == 0 {
            return Err(FaucetError::InvalidInstruction);
        }
        if input[0] == 0 {
            let rest = slice_subrange(input, 1, input.len());
            proof {
                assert(rest@ =~= input@.skip(1));
            }
            Ok((None, rest))
        } else if input[0] == 1 && input.len() >= 33 {
            let key = Pubkey::new(slice_subrange(input, 1, 33));
            let rest = slice_subrange(input, 33, input.len());
            proof {
                assert(rest@ =~= input@.skip(33));
            }
            Ok((Some(key), rest))
        } else {
            Err(FaucetError::InvalidInstruction)
        }
    }

    /// Writes the optional admin key field onto the end of `buf`:
    /// discriminant 0 for an absent key, discriminant 1 and the raw key
    /// bytes for a present one.
    fn pack_pubkey_option(value: &Option<Pubkey>, buf: &mut Vec<u8>)
        ensures
            final(buf)@ == old(buf)@ + spec_pack_pubkey_option(spec_admin(*value)),
            value matches Some(k) ==> k@.len() == 32,
    {
        match value {
            Some(key) => {
                buf.push(1);
                let key_bytes = key.to_bytes();
                buf.extend_from_slice(key_bytes.as_slice());
                proof {
                    assert(buf@ =~= old(buf)@ + spec_pack_pubkey_option(spec_admin(*value)));
                }
            },
            None => {
                buf.push(0);
                proof {
                    assert(buf@ =~= old(buf)@ + spec_pack_pubkey_option(spec_admin(*value)));
                }
            },
        }
    }
}

} // verus!
