//! Signing a turn's blockhash with the storage key, and the segment that
//! the signature selects.

use crate::segment::{get_slot_from_signature, selected_slot, turn_is_valid};
use crate::turn::Turn;
use ed25519_dalek::Signer;
use vstd::prelude::*;

verus! {

#[verifier::external_type_specification]
#[verifier::external_body]
pub struct ExSignatureError(ed25519_dalek::SignatureError);

/// The signature that `ed25519_dalek` makes of a message with a keypair
/// given by its 64 bytes, or `None` where it refuses the keypair.
pub uninterp spec fn ed25519_signature(keypair: Seq<u8>, message: Seq<u8>) -> Option<Seq<u8>>;

/// `Keypair::from_bytes` and `Signer::try_sign` of `ed25519_dalek`: the
/// keypair is read from its bytes and signs the message. The signature is
/// determined by the keypair and the message.
#[verifier::external_body]
fn ed25519_sign(keypair: &[u8; 64], message: &[u8]) -> (signature: Result<
    [u8; 64],
    ed25519_dalek::SignatureError,
>)
    ensures
        signature.is_ok() == ed25519_signature(keypair@, message@).is_some(),
        signature.is_ok() ==> signature.unwrap()@ == ed25519_signature(
            keypair@,
            message@,
        ).unwrap(),
{
    let pair = ed25519_dalek::Keypair::from_bytes(keypair)?;
    let signature = pair.try_sign(message)?;
    Ok(signature.to_bytes())
}

/// Why no segment was chosen.
#[derive(Debug, Clone, Copy, PartialEq, Eq)]
pub enum ChoiceError {
    /// The storage keypair could not sign.
    BadKeypair,
    /// No whole segment lies before the turn.
    NoSegment,
}

/// A segment chosen: the signature that chose it, and its start slot.
#[derive(Debug, Clone, Copy, PartialEq, Eq)]
pub struct Choice {
    pub signature: [u8; 64],
    pub slot: u64,
}

/// The signature of `blockhash` under the storage keypair, or `None` where
/// the keypair cannot sign.
pub fn sign_blockhash(storage_keypair: &[u8; 64], blockhash: &[u8; 32]) -> (signature: Option<
    [u8; 64],
>)
    ensures
        signature.is_some() == ed25519_signature(storage_keypair@, blockhash@).is_some(),
        signature.is_some() ==> signature.unwrap()@ == ed25519_signature(
            storage_keypair@,
            blockhash@,
        ).unwrap(),
{
    match ed25519_sign(storage_keypair, blockhash.as_slice()) {
        Ok(signature) => Some(signature),
        Err(_) => None,
    }
}

/// The segment that a signature chooses at a turn, where one can be
/// chosen.
pub fn choose_with_signature(signature: Option<[u8; 64]>, turn_slot: u64, slots_per_segment: u64) -> (choice:
    Result<Choice, ChoiceError>)
    ensures
        match choice {
            Ok(c) => {
                &&& signature == Some(c.signature)
                &&& turn_is_valid(turn_slot, slots_per_segment)
                &&& c.slot == selected_slot(c.signature@, turn_slot, slots_per_segment)
            },
            Err(ChoiceError::BadKeypair) => signature.is_none(),
            Err(ChoiceError::NoSegment) => signature.is_some() && !turn_is_valid(
                turn_slot,
                slots_per_segment,
            ),
        },
{
    match signature {
        None => Err(ChoiceError::BadKeypair),
        Some(signature) => {
            if slots_per_segment == 0 || turn_slot / slots_per_segment == 0 {
                Err(ChoiceError::NoSegment)
            } else {
                Ok(
                    Choice {
                        signature,
                        slot: get_slot_from_signature(&signature, turn_slot, slots_per_segment),
                    },
                )
            }
        },
    }
}

/// Chooses the segment to store: the storage key signs the turn's
/// blockhash, and the signature selects a segment among those that lie
/// before the turn's slot. The same keypair at the same turn always chooses
/// the same segment.
pub fn choose_segment(storage_keypair: &[u8; 64], turn: &Turn, slots_per_segment: u64) -> (choice:
    Result<Choice, ChoiceError>)
    ensures
        match choice {
            Ok(c) => {
                &&& ed25519_signature(storage_keypair@, turn.blockhash@) == Some(c.signature@)
                &&& turn_is_valid(turn.slot, slots_per_segment)
                &&& c.slot == selected_slot(c.signature@, turn.slot, slots_per_segment)
            },
            Err(ChoiceError::BadKeypair) => ed25519_signature(
                storage_keypair@,
                turn.blockhash@,
            ).is_none(),
            Err(ChoiceError::NoSegment) => {
                &&& ed25519_signature(storage_keypair@, turn.blockhash@).is_some()
                &&& !turn_is_valid(turn.slot, slots_per_segment)
            },
        },
{
    let signature = sign_blockhash(storage_keypair, &turn.blockhash);
    choose_with_signature(signature, turn.slot, slots_per_segment)
}

} // verus!
