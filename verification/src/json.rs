//! JSON texts, as `serde_json` reads and writes them.

use vstd::prelude::*;

verus! {

#[verifier::external_type_specification]
#[verifier::external_body]
pub struct ExJsonError(serde_json::Error);

/// The pair of a string and an unsigned 64-bit number that `serde_json`
/// reads a text as, or `None` where it refuses the text.
pub uninterp spec fn json_string_and_number(text: Seq<char>) -> Option<(Seq<char>, u64)>;

/// The unsigned 64-bit number that `serde_json` reads a text as, or `None`
/// where it refuses the text.
pub uninterp spec fn json_number(text: Seq<char>) -> Option<u64>;

/// The string that `serde_json` reads a text as, or `None` where it refuses
/// the text.
pub uninterp spec fn json_string(text: Seq<char>) -> Option<Seq<char>>;

/// The JSON text that `serde_json` writes for a string, or `None` where it
/// fails.
pub uninterp spec fn json_of_string(value: Seq<char>) -> Option<Seq<char>>;

/// `serde_json::from_str::<(String, u64)>`: succeeds exactly on the texts
/// that read as such a pair, and returns it.
#[verifier::external_body]
pub(crate) fn string_and_number_from_json(text: &str) -> (parsed: Result<
    (String, u64),
    serde_json::Error,
>)
    ensures
        parsed.is_ok() == json_string_and_number(text@).is_some(),
        parsed.is_ok() ==> (parsed.unwrap().0@, parsed.unwrap().1) == json_string_and_number(
            text@,
        ).unwrap(),
{
    serde_json::from_str::<(String, u64)>(text)
}

/// `serde_json::from_str::<u64>`: succeeds exactly on the texts that read
/// as such a number, and returns it.
#[verifier::external_body]
pub(crate) fn number_from_json(text: &str) -> (parsed: Result<u64, serde_json::Error>)
    ensures
        parsed.is_ok() == json_number(text@).is_some(),
        parsed.is_ok() ==> parsed.unwrap() == json_number(text@).unwrap(),
{
    serde_json::from_str::<u64>(text)
}

/// `serde_json::from_str::<String>`: succeeds exactly on the texts that
/// read as a string, and returns it.
#[verifier::external_body]
pub(crate) fn string_from_json(text: &str) -> (parsed: Result<String, serde_json::Error>)
    ensures
        parsed.is_ok() == json_string(text@).is_some(),
        parsed.is_ok() ==> parsed.unwrap()@ == json_string(text@).unwrap(),
{
    serde_json::from_str::<String>(text)
}

/// `serde_json::to_string` on a string: returns the JSON text written for
/// it.
#[verifier::external_body]
pub(crate) fn string_to_json(value: &str) -> (written: Result<String, serde_json::Error>)
    ensures
        written.is_ok() == json_of_string(value@).is_some(),
        written.is_ok() ==> written.unwrap()@ == json_of_string(value@).unwrap(),
{
    serde_json::to_string(value)
}

} // verus!
