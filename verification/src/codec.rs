//! The textual encoding of export payloads: standard base64 with padding.
//!
//! The encoding itself is the work of the `base64` crate. What this module
//! states of it is believed, not proved.

use vstd::prelude::*;
use base64::engine::general_purpose::STANDARD;
use base64::DecodeError;
use base64::Engine;

verus! {

/// Why a payload is not a valid encoding.
#[derive(Clone, Copy, Debug, PartialEq, Eq, Structural)]
pub enum DecodeFault {
    /// A symbol outside the alphabet, or padding where none may stand.
    InvalidByte { offset: usize, byte: u8 },
    /// The number of symbols cannot be the length of an encoding.
    InvalidLength { length: usize },
    /// The last symbol carries bits that no encoder would have set.
    InvalidLastSymbol { offset: usize, byte: u8 },
    /// Padding is missing or malformed.
    InvalidPadding,
}

/// What the standard engine of `base64` makes of a text: the decoded bytes,
/// or the fault it reports.
pub uninterp spec fn standard_decoding(text: Seq<char>) -> Result<Seq<u8>, DecodeFault>;

/// The text that the standard engine of `base64` produces for some bytes.
pub uninterp spec fn standard_encoding(bytes: Seq<u8>) -> Seq<char>;

/// The message with which `base64` describes a decoding fault.
pub uninterp spec fn decode_fault_text(fault: DecodeFault) -> Seq<char>;

/// The view of a decoding result: bytes as a sequence, the fault as it is.
pub open spec fn decoding_view(result: Result<Vec<u8>, DecodeFault>) -> Result<
    Seq<u8>,
    DecodeFault,
> {
    match result {
        Ok(bytes) => Ok(bytes@),
        Err(fault) => Err(fault),
    }
}

/// The decoding that succeeds with the given bytes.
pub open spec fn decoded(bytes: Seq<u8>) -> Result<Seq<u8>, DecodeFault> {
    Ok(bytes)
}

/// The largest input that `encode_standard` accepts: its encoding is then
/// well below the largest buffer that can be allocated.
pub open spec fn max_encodable_len() -> nat {
    (usize::MAX / 4) as nat
}

/// Calls `Engine::decode` on `base64::engine::general_purpose::STANDARD`.
///
/// Believed: the call is a function of the text alone, named
/// `standard_decoding`. Each variant of `base64::DecodeError` is carried over
/// to the variant of `DecodeFault` of the same name, with its fields.
#[verifier::external_body]
pub(crate) fn decode_standard(text: &str) -> (result: Result<Vec<u8>, DecodeFault>)
    ensures
        decoding_view(result) == standard_decoding(text@),
{
    match STANDARD.decode(text) {
        Ok(bytes) => Ok(bytes),
        Err(DecodeError::InvalidByte(offset, byte)) => Err(
            DecodeFault::InvalidByte { offset, byte },
        ),
        Err(DecodeError::InvalidLength(length)) => Err(DecodeFault::InvalidLength { length }),
        Err(DecodeError::InvalidLastSymbol(offset, byte)) => Err(
            DecodeFault::InvalidLastSymbol { offset, byte },
        ),
        Err(DecodeError::InvalidPadding) => Err(DecodeFault::InvalidPadding),
    }
}

/// Calls `Engine::encode` on `base64::engine::general_purpose::STANDARD`.
///
/// Believed: the call is a function of the bytes alone, named
/// `standard_encoding`, and the standard engine decodes what it encoded back
/// to the same bytes. The bound keeps the encoded length within what a buffer
/// can hold, where the call would otherwise panic.
#[verifier::external_body]
pub(crate) fn encode_standard(bytes: &[u8]) -> (text: String)
    requires
        bytes@.len() <= max_encodable_len(),
    ensures
        text@ == standard_encoding(bytes@),
        standard_decoding(text@) == decoded(bytes@),
{
    STANDARD.encode(bytes)
}

/// Calls `to_string` on the `base64::DecodeError` that the fault stands for,
/// which formats it with the crate's `Display` impl.
///
/// Believed: the message is a function of the fault alone, named
/// `decode_fault_text`.
#[verifier::external_body]
pub(crate) fn describe_fault(fault: DecodeFault) -> (text: String)
    ensures
        text@ == decode_fault_text(fault),
{
    let error = match fault {
        DecodeFault::InvalidByte { offset, byte } => DecodeError::InvalidByte(offset, byte),
        DecodeFault::InvalidLength { length } => DecodeError::InvalidLength(length),
        DecodeFault::InvalidLastSymbol { offset, byte } => DecodeError::InvalidLastSymbol(
            offset,
            byte,
        ),
        DecodeFault::InvalidPadding => DecodeError::InvalidPadding,
    };
    error.to_string()
}

} // verus!
