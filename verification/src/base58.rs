//! Base58 text, as the `bs58` crate reads and writes it.

use vstd::prelude::*;

verus! {

#[verifier::external_type_specification]
#[verifier::external_body]
pub struct ExBs58DecodeError(bs58::decode::Error);

/// The bytes that `bs58` decodes a text to with its default alphabet, or
/// `None` where it refuses the text.
pub uninterp spec fn bs58_decoded(text: Seq<char>) -> Option<Seq<u8>>;

/// The text that `bs58` encodes bytes to with its default alphabet.
pub uninterp spec fn bs58_encoded(bytes: Seq<u8>) -> Seq<char>;

/// `bs58::decode(text).into_vec()`: succeeds exactly on the texts that have
/// a decoding, and returns it.
#[verifier::external_body]
pub(crate) fn decode(text: &str) -> (decoded: Result<Vec<u8>, bs58::decode::Error>)
    ensures
        decoded.is_ok() == bs58_decoded(text@).is_some(),
        decoded.is_ok() ==> decoded.unwrap()@ == bs58_decoded(text@).unwrap(),
{
    bs58::decode(text).into_vec()
}

/// `bs58::encode(bytes).into_string()` on 32 bytes: returns their encoding.
#[verifier::external_body]
pub(crate) fn encode(bytes: &[u8; 32]) -> (text: String)
    ensures
        text@ == bs58_encoded(bytes@),
{
    bs58::encode(bytes).into_string()
}

/// Copies a slice of 32 bytes into an array.
pub fn array_from_slice(bytes: &[u8]) -> (array: [u8; 32])
    requires
        bytes@.len() == 32,
    ensures
        array@ == bytes@,
{
    let mut array = [0u8; 32];
    let mut i: usize = 0;
    while i < 32
        invariant
            i <= 32,
            bytes@.len() == 32,
            forall|k: int| 0 <= k < i ==> array@[k] == bytes@[k],
        decreases 32 - i,
    {
        array[i] = bytes[i];
        i = i + 1;
    }
    proof {
        assert(array@ =~= bytes@);
    }
    array
}

/// Why a text is not the base58 form of 32 bytes.
#[derive(Debug, Clone, Copy, PartialEq, Eq)]
pub enum Base58Error {
    /// The text decodes, but not to 32 bytes.
    WrongSize,
    /// The text is not base58.
    Invalid,
}

/// What a text stands for when it is read as the base58 form of 32 bytes.
pub open spec fn parsed_32(text: Seq<char>) -> Result<Seq<u8>, Base58Error> {
    match bs58_decoded(text) {
        None => Err(Base58Error::Invalid),
        Some(bytes) => if bytes.len() == 32 {
            Ok(bytes)
        } else {
            Err(Base58Error::WrongSize)
        },
    }
}

/// Takes decoded bytes as a 32-byte value: refused when there are not
/// exactly 32.
pub fn exactly_32(bytes: &[u8]) -> (result: Result<[u8; 32], Base58Error>)
    ensures
        match result {
            Ok(array) => bytes@.len() == 32 && array@ == bytes@,
            Err(e) => bytes@.len() != 32 && e == Base58Error::WrongSize,
        },
{
    if bytes.len() != 32 {
        Err(Base58Error::WrongSize)
    } else {
        Ok(array_from_slice(bytes))
    }
}

/// Reads a text as the base58 form of 32 bytes.
pub fn parse_32(text: &str) -> (result: Result<[u8; 32], Base58Error>)
    ensures
        match result {
            Ok(array) => parsed_32(text@) == Ok::<Seq<u8>, Base58Error>(array@),
            Err(e) => parsed_32(text@) == Err::<Seq<u8>, Base58Error>(e),
        },
{
    match decode(text) {
        Err(_) => Err(Base58Error::Invalid),
        Ok(bytes) => exactly_32(bytes.as_slice()),
    }
}

} // verus!
