//! Decoder for a proprietary game save format: strips a fixed binary
//! prologue, decodes the base64 payload, decrypts it with the game's
//! embedded key, parses the plaintext document, and derives a categorized
//! completion checklist from the decoded save data.

use vstd::prelude::*;

pub mod checks;
pub mod codec;
pub mod header;
pub mod json;
pub mod mapper;
pub mod parser;
pub mod save;

verus! {

/// Every way a decode attempt can fail. All errors are terminal for the
/// current attempt: the pipeline stops at the first failing stage, and a
/// failed decode never changes the checklist a decoder already holds.
#[derive(Debug)]
pub enum ParseError {
    /// The input is shorter than the fixed prologue plus its trailing
    /// sentinel, or the variable-length prefix has no terminating ASCII byte.
    MalformedHeader,
    /// The payload is not valid standard-alphabet base64; carries the
    /// decoder's reason.
    Base64DecodeError(String),
    /// The ciphertext length is not a whole number of cipher blocks or the
    /// padding is invalid; carries the reason.
    DecryptionError(String),
    /// The plaintext is not a structured document matching the save schema;
    /// carries the reason.
    DeserializationError(String),
    /// The document matches the second game variant, whose checklist mapping
    /// is not defined.
    UnsupportedVariant,
}

} // verus!
