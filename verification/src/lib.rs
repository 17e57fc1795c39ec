//! Binary codec for the administrative commands of a token faucet.
//!
//! A command is one of three variants: initialize the faucet (with an
//! optional admin key and a per-call mint bound), mint tokens, or close the
//! faucet. The codec defines a tagged, little-endian wire layout for these
//! commands and converts between command values and their byte
//! representation. Decoding validates untrusted input and fails cleanly on
//! anything malformed; encoding is total and canonical.

pub mod error;
pub mod format;
pub mod instruction;
pub mod laws;
