//! Public keys: 32 bytes, written in base58.

use crate::base58::{array_from_slice, bs58_encoded, encode, parse_32, parsed_32, Base58Error};
use crate::json::{json_of_string, json_string, string_from_json, string_to_json};
use vstd::prelude::*;

verus! {

/// A public key.
#[derive(Clone, Copy, PartialEq, Eq, PartialOrd, Ord, Hash, Debug)]
pub struct Pubkey([u8; 32]);

/// Why a text is not a public key.
#[derive(Debug, Clone, Copy, PartialEq, Eq)]
pub enum ParsePubkeyError {
    /// The text decodes, but not to 32 bytes.
    WrongSize,
    /// The text is not base58.
    Invalid,
}

impl ParsePubkeyError {
    /// The error as a line of text.
    pub fn to_string(&self) -> (text: String)
        ensures
            text@ == (match *self {
                ParsePubkeyError::WrongSize => "ParsePubkeyError: WrongSize"@,
                ParsePubkeyError::Invalid => "ParsePubkeyError: Invalid"@,
            }),
    {
        match self {
            ParsePubkeyError::WrongSize => "ParsePubkeyError: WrongSize".to_owned(),
            ParsePubkeyError::Invalid => "ParsePubkeyError: Invalid".to_owned(),
        }
    }
}

/// One line of a key's log: five registers.
pub struct LogLine {
    pub arg1: u64,
    pub arg2: u64,
    pub arg3: u64,
    pub arg4: u64,
    pub arg5: u64,
}

/// `rand::random::<[u8; 32]>()`: 32 bytes from the thread's generator.
/// Nothing is promised of them.
#[verifier::external_body]
fn random_bytes() -> (bytes: [u8; 32]) {
    rand::random::<[u8; 32]>()
}

impl View for Pubkey {
    type V = Seq<u8>;

    closed spec fn view(&self) -> Seq<u8> {
        self.0@
    }
}

/// What a text stands for when it is read as a public key.
pub open spec fn parsed_pubkey(text: Seq<char>) -> Result<Seq<u8>, ParsePubkeyError> {
    match parsed_32(text) {
        Ok(bytes) => Ok(bytes),
        Err(Base58Error::WrongSize) => Err(ParsePubkeyError::WrongSize),
        Err(Base58Error::Invalid) => Err(ParsePubkeyError::Invalid),
    }
}

impl Pubkey {
    /// The key made of the 32 bytes of `pubkey_vec`.
    pub fn new(pubkey_vec: &[u8]) -> (key: Pubkey)
        requires
            pubkey_vec@.len() == 32,
        ensures
            key@ == pubkey_vec@,
    {
        Pubkey(array_from_slice(pubkey_vec))
    }

    /// A key of 32 random bytes.
    pub fn new_rand() -> (key: Pubkey) {
        let bytes = random_bytes();
        Pubkey::new(bytes.as_slice())
    }

    /// The lines that logging the key writes: one per byte, with the
    /// byte's index in the fourth register and the byte in the fifth.
    pub fn log(&self) -> (lines: Vec<LogLine>)
        ensures
            lines@.len() == 32,
            forall|i: int|
                0 <= i < 32 ==> {
                    &&& (#[trigger] lines@[i]).arg1 == 0
                    &&& lines@[i].arg2 == 0
                    &&& lines@[i].arg3 == 0
                    &&& lines@[i].arg4 == i
                    &&& lines@[i].arg5 == self@[i]
                },
    {
        let mut lines: Vec<LogLine> = Vec::new();
        let mut i: usize = 0;
        while i < 32
            invariant
                i <= 32,
                lines@.len() == i,
                forall|k: int|
                    0 <= k < i ==> {
                        &&& (#[trigger] lines@[k]).arg1 == 0
                        &&& lines@[k].arg2 == 0
                        &&& lines@[k].arg3 == 0
                        &&& lines@[k].arg4 == k
                        &&& lines@[k].arg5 == self@[k]
                    },
            decreases 32 - i,
        {
            lines.push(LogLine { arg1: 0, arg2: 0, arg3: 0, arg4: i as u64, arg5: self.0[i] as u64 });
            i = i + 1;
        }
        lines
    }

    /// The key's bytes.
    pub fn to_bytes(self) -> (bytes: [u8; 32])
        ensures
            bytes@ == self@,
    {
        self.0
    }

    /// The key's bytes, borrowed.
    pub fn as_ref(&self) -> (bytes: &[u8])
        ensures
            bytes@ == self@,
    {
        self.0.as_slice()
    }

    /// The key in base58.
    pub fn to_string(&self) -> (text: String)
        ensures
            text@ == bs58_encoded(self@),
    {
        encode(&self.0)
    }

    /// The key that a base58 text stands for. A text that is not base58 is
    /// `Invalid`; one that decodes to another number of bytes than 32 is of
    /// the `WrongSize`.
    pub fn from_base58(text: &str) -> (result: Result<Pubkey, ParsePubkeyError>)
        ensures
            match result {
                Ok(key) => parsed_pubkey(text@) == Ok::<Seq<u8>, ParsePubkeyError>(key@),
                Err(e) => parsed_pubkey(text@) == Err::<Seq<u8>, ParsePubkeyError>(e),
            },
    {
        match parse_32(text) {
            Ok(bytes) => Ok(Pubkey(bytes)),
            Err(Base58Error::WrongSize) => Err(ParsePubkeyError::WrongSize),
            Err(Base58Error::Invalid) => Err(ParsePubkeyError::Invalid),
        }
    }
}

/// Why a key file's text gives no key.
#[derive(Debug, Clone, Copy, PartialEq, Eq)]
pub enum PubkeyFileError {
    /// The text is not a JSON string.
    Json,
    /// The JSON string is not a public key.
    Parse(ParsePubkeyError),
}

/// The key that a key file's text stands for: the text is a JSON string,
/// and the string a key in base58.
pub open spec fn key_of_file_text(text: Seq<char>) -> Result<Seq<u8>, PubkeyFileError> {
    match json_string(text) {
        None => Err(PubkeyFileError::Json),
        Some(printable) => match parsed_pubkey(printable) {
            Ok(bytes) => Ok(bytes),
            Err(e) => Err(PubkeyFileError::Parse(e)),
        },
    }
}

/// The text of the file that holds `pubkey`: the key in base58, as a JSON
/// string. `None` where the string cannot be written as JSON.
pub fn pubkey_file_text(pubkey: Pubkey) -> (text: Option<String>)
    ensures
        text.is_some() == json_of_string(bs58_encoded(pubkey@)).is_some(),
        text.is_some() ==> text.unwrap()@ == json_of_string(bs58_encoded(pubkey@)).unwrap(),
{
    let printable = pubkey.to_string();
    match string_to_json(printable.as_str()) {
        Ok(serialized) => Some(serialized),
        Err(_) => None,
    }
}

/// The key that the text of a key file holds.
pub fn pubkey_from_file_text(text: &str) -> (result: Result<Pubkey, PubkeyFileError>)
    ensures
        match result {
            Ok(key) => key_of_file_text(text@) == Ok::<Seq<u8>, PubkeyFileError>(key@),
            Err(e) => key_of_file_text(text@) == Err::<Seq<u8>, PubkeyFileError>(e),
        },
{
    match string_from_json(text) {
        Err(_) => Err(PubkeyFileError::Json),
        Ok(printable) => match Pubkey::from_base58(printable.as_str()) {
            Ok(key) => Ok(key),
            Err(e) => Err(PubkeyFileError::Parse(e)),
        },
    }
}

impl Default for Pubkey {
    fn default() -> (key: Pubkey)
        ensures
            key@ == Seq::new(32, |i: int| 0u8),
    {
        let key = Pubkey([0u8; 32]);
        proof {
            assert(key@ =~= Seq::new(32, |i: int| 0u8));
        }
        key
    }
}

impl core::str::FromStr for Pubkey {
    type Err = ParsePubkeyError;

    /// The key that a base58 text stands for, as `Pubkey::from_base58`
    /// reads it.
    fn from_str(s: &str) -> (result: Result<Pubkey, ParsePubkeyError>)
        ensures
            match result {
                Ok(key) => parsed_pubkey(s@) == Ok::<Seq<u8>, ParsePubkeyError>(key@),
                Err(e) => parsed_pubkey(s@) == Err::<Seq<u8>, ParsePubkeyError>(e),
            },
    {
        Pubkey::from_base58(s)
    }
}

} // verus!
