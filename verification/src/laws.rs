use crate::error::FaucetError;
use crate::format::{spec_pack, spec_unpack, wf, InstructionView};
use vstd::bytes::{lemma_auto_spec_u64_to_from_le_bytes, spec_u64_to_le_bytes};
use vstd::prelude::*;

verus! {

/// Round-trip law: every valid command decodes from its own encoding,
/// unchanged.
pub proof fn lemma_round_trip(v: InstructionView)
    requires
        wf(v),
    ensures
        spec_unpack(spec_pack(v)) == Ok::<InstructionView, FaucetError>(v),
{
    lemma_auto_spec_u64_to_from_le_bytes();
    let s = spec_pack(v);
    match v {
        InstructionView::InitFaucet { admin, amount } => {
            let le = spec_u64_to_le_bytes(amount);
            match admin {
                Some(key) => {
                    let rest = s.skip(1);
                    assert(rest =~= seq![1u8] + key + le);
                    assert(rest.subrange(1, 33) =~= key);
                    assert(rest.skip(33) =~= le);
                    assert(rest.skip(33).subrange(0, 8) =~= le);
                },
                None => {
                    let rest = s.skip(1);
                    assert(rest =~= seq![0u8] + le);
                    assert(rest.skip(1) =~= le);
                    assert(rest.skip(1).subrange(0, 8) =~= le);
                },
            }
        },
        InstructionView::MintTokens { amount } => {
            let le = spec_u64_to_le_bytes(amount);
            assert(s.skip(1) =~= le);
            assert(s.skip(1).subrange(0, 8) =~= le);
        },
        InstructionView::CloseFaucet => {
            assert(s[0] == 2);
        },
    }
}

/// Truncation rejection: cutting the encoding of a valid command to fewer
/// bytes than its full length makes decoding fail.
pub proof fn lemma_truncation_rejected(v: InstructionView, n: int)
    requires
        wf(v),
        0 <= n < spec_pack(v).len(),
    ensures
        spec_unpack(spec_pack(v).take(n)) == Err::<InstructionView, FaucetError>(
            FaucetError::InvalidInstruction,
        ),
{
    lemma_auto_spec_u64_to_from_le_bytes();
    let s = spec_pack(v);
    let t = s.take(n);
    if n > 0 {
        assert(t[0] == s[0]);
        let rest = t.skip(1);
        match v {
            InstructionView::InitFaucet { admin, amount } => {
                let le = spec_u64_to_le_bytes(amount);
                if n > 1 {
                    assert(rest[0] == s[1]);
                    match admin {
                        Some(key) => {
                            assert(s =~= seq![0u8] + (seq![1u8] + key) + le);
                            assert(s[1] == 1);
                            if n >= 34 {
                                assert(rest.skip(33).len() == n - 34);
                            }
                        },
                        None => {
                            assert(s =~= seq![0u8] + seq![0u8] + le);
                            assert(s[1] == 0);
                            assert(rest.skip(1).len() == n - 2);
                        },
                    }
                }
            },
            InstructionView::MintTokens { .. } => {
                assert(rest.len() == n - 1);
            },
            InstructionView::CloseFaucet => {
            },
        }
    }
}

/// Unknown tag rejection: an input whose first byte is 3 or more fails,
/// whatever follows it.
pub proof fn lemma_unknown_tag_rejected(s: Seq<u8>)
    requires
        s.len() >= 1,
        s[0] >= 3,
    ensures
        spec_unpack(s) == Err::<InstructionView, FaucetError>(FaucetError::InvalidInstruction),
{
}

/// Empty input rejection: decoding an empty byte sequence fails.
pub proof fn lemma_empty_input_rejected(s: Seq<u8>)
    requires
        s.len() == 0,
    ensures
        spec_unpack(s) == Err::<InstructionView, FaucetError>(FaucetError::InvalidInstruction),
{
}

/// Trailing-byte tolerance: a CloseFaucet tag decodes to CloseFaucet, and
/// any bytes after the tag are ignored.
pub proof fn lemma_trailing_bytes_tolerated(s: Seq<u8>)
    requires
        s.len() >= 1,
        s[0] == 2,
    ensures
        spec_unpack(s) == Ok::<InstructionView, FaucetError>(InstructionView::CloseFaucet),
{
}

/// Invalid discriminant: an InitFaucet tag followed by an optional-key
/// discriminant that is neither 0 nor 1 fails, whatever trailing bytes
/// follow.
pub proof fn lemma_invalid_discriminant_rejected(s: Seq<u8>)
    requires
        s.len() >= 2,
        s[0] == 0,
        s[1] != 0,
        s[1] != 1,
    ensures
        spec_unpack(s) == Err::<InstructionView, FaucetError>(FaucetError::InvalidInstruction),
{
    assert(s.skip(1)[0] == s[1]);
}

} // verus!
