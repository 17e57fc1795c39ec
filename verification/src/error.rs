use vstd::prelude::*;

verus! {

/// The single failure the codec can report: the input bytes do not conform
/// to the layout demanded by the tag they declare (empty input, unknown tag,
/// bad optional-key discriminant, or a truncated field).
#[derive(Clone, Copy, Debug, PartialEq, Eq, Structural)]
pub enum FaucetError {
    InvalidInstruction,
}

} // verus!
