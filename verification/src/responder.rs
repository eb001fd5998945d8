//! The slot service: peers ask an archiver for the start slot of the segment
//! it stores, and the archiver answers with the slot in `bincode`'s form.

use crate::packet::{carries, Address, Packet, Packets, PACKET_DATA_SIZE};
use vstd::bytes::{spec_u64_from_le_bytes, spec_u64_to_le_bytes};
use vstd::prelude::*;

verus! {

/// How often a client asks for the slot before it gives up.
pub const SLOT_QUERY_ATTEMPTS: u64 = 10;

/// Milliseconds between two of a client's attempts.
pub const SLOT_QUERY_INTERVAL_MILLIS: u64 = 500;

#[verifier::external_type_specification]
#[verifier::external_body]
pub struct ExBincodeErrorKind(bincode::ErrorKind);

/// The slot that a reply's data holds: the number in its first eight
/// bytes, lowest byte first. Data of fewer bytes holds none; bytes after the
/// eighth do not count.
pub open spec fn slot_of_reply(data: Seq<u8>) -> Option<u64> {
    if data.len() >= 8 {
        Some(spec_u64_from_le_bytes(data.subrange(0, 8)))
    } else {
        None
    }
}

/// What was written as a slot's payload reads as that slot, whatever
/// follows it in the packet.
pub proof fn lemma_slot_payload_round_trip(slot: u64, rest: Seq<u8>)
    ensures
        slot_of_reply(spec_u64_to_le_bytes(slot) + rest) == Some(slot),
{
    vstd::bytes::lemma_auto_spec_u64_to_from_le_bytes();
    let payload = spec_u64_to_le_bytes(slot);
    assert((payload + rest).subrange(0, 8) =~= payload);
}

/// `bincode::serialize` on a `u64`: the eight bytes of the number, lowest
/// first. Writing a number into a vector does not fail.
#[verifier::external_body]
fn bincode_serialize_u64(value: u64) -> (bytes: Result<Vec<u8>, Box<bincode::ErrorKind>>)
    ensures
        bytes.is_ok(),
        bytes.unwrap()@ == spec_u64_to_le_bytes(value),
{
    bincode::serialize(&value)
}

/// `bincode::config().limit(PACKET_DATA_SIZE).deserialize::<u64>` on a
/// slice: the first eight bytes are read as a number, lowest byte first.
/// The call fails on fewer than eight bytes and on nothing else: bytes that
/// follow are left alone, and the limit is never less than eight.
#[verifier::external_body]
fn bincode_deserialize_u64(data: &[u8]) -> (value: Result<u64, Box<bincode::ErrorKind>>)
    ensures
        value.is_ok() == (data@.len() >= 8),
        value.is_ok() ==> value.unwrap() == spec_u64_from_le_bytes(data@.subrange(0, 8)),
{
    bincode::config().limit(PACKET_DATA_SIZE as u64).deserialize::<u64>(data)
}

/// What a peer can ask of an archiver.
#[derive(Debug, Clone, Copy, PartialEq, Eq)]
pub enum ArchiverRequest {
    /// Asks for the start slot of the archiver's segment; the answer goes
    /// to the address given.
    GetSlotHeight(Address),
}

/// Reads a packet's data as a slot.
pub fn limited_deserialize(data: &[u8]) -> (slot: Option<u64>)
    ensures
        slot == slot_of_reply(data@),
{
    match bincode_deserialize_u64(data) {
        Ok(slot) => Some(slot),
        Err(_) => None,
    }
}

/// The bytes that carry a slot to a peer.
pub fn slot_payload(slot: u64) -> (payload: Vec<u8>)
    ensures
        payload@ == spec_u64_to_le_bytes(slot),
        payload@.len() == 8,
{
    let payload = match bincode_serialize_u64(slot) {
        Ok(bytes) => bytes,
        Err(_) => Vec::new(),
    };
    proof {
        vstd::bytes::lemma_auto_spec_u64_to_from_le_bytes();
    }
    payload
}

/// One wait of the slot service for the slot that setup chooses: the slot
/// once it has come; zero where the exit flag is set before it came; `None`
/// where the service is to wait again.
pub fn poll_for_slot(received: Option<u64>, exit: bool) -> (slot: Option<u64>)
    ensures
        slot == (match received {
            Some(s) => Some(s),
            None => if exit {
                Some(0u64)
            } else {
                None
            },
        }),
{
    match received {
        Some(s) => Some(s),
        None => if exit {
            Some(0)
        } else {
            None
        },
    }
}

/// Serves one request: `request` is what a packet read as, `None` where it
/// was malformed. A malformed request is dropped; a slot request is
/// answered with one packet that carries the slot to the address that the
/// request names.
pub fn answer_request(request: Option<ArchiverRequest>, slot: u64) -> (reply: Option<Packets>)
    ensures
        match request {
            None => reply.is_none(),
            Some(ArchiverRequest::GetSlotHeight(from)) => {
                &&& reply.is_some()
                &&& reply.unwrap().packets@.len() == 1
                &&& carries(reply.unwrap().packets@[0], Some(from), spec_u64_to_le_bytes(slot))
            },
        },
{
    match request {
        None => None,
        Some(ArchiverRequest::GetSlotHeight(from)) => {
            let payload = slot_payload(slot);
            let packet = Packet::from_data(Some(from), payload.as_slice());
            let mut packets: Vec<Packet> = Vec::new();
            packets.push(packet);
            Some(Packets::new(packets))
        },
    }
}

/// What a client does after an attempt to get an archiver's slot.
#[derive(Debug, Clone, Copy, PartialEq, Eq)]
pub enum SlotQueryStep {
    /// The archiver's slot.
    Slot(u64),
    /// Wait `SLOT_QUERY_INTERVAL_MILLIS` and ask again.
    Retry,
    /// No attempt is left.
    GiveUp,
}

/// A client's query for an archiver's slot: the attempts made so far.
pub struct SlotQuery {
    pub attempts_made: u64,
}

impl SlotQuery {
    /// A query before its first attempt.
    pub fn new() -> (query: SlotQuery)
        ensures
            query.attempts_made == 0,
    {
        SlotQuery { attempts_made: 0 }
    }

    /// Counts an attempt and judges it: `reply` is the data that came
    /// back, if any came. A reply that reads as a slot ends the query; any
    /// other is ignored, and the client asks again until
    /// `SLOT_QUERY_ATTEMPTS` attempts are made.
    pub fn after_attempt(&mut self, reply: Option<&[u8]>) -> (step: SlotQueryStep)
        requires
            old(self).attempts_made < SLOT_QUERY_ATTEMPTS,
        ensures
            final(self).attempts_made == old(self).attempts_made + 1,
            step == slot_query_verdict(
                final(self).attempts_made,
                match reply {
                    Some(data) => slot_of_reply(data@),
                    None => None,
                },
            ),
            step == SlotQueryStep::Retry ==> final(self).attempts_made < SLOT_QUERY_ATTEMPTS,
    {
        self.attempts_made = self.attempts_made + 1;
        slot_query_step(self.attempts_made, reply)
    }
}

/// Judges a client's attempt to get an archiver's slot. `attempts_made`
/// counts the attempts including this one, and `reply` is the data that
/// came back, if any came.
pub fn slot_query_step(attempts_made: u64, reply: Option<&[u8]>) -> (step: SlotQueryStep)
    ensures
        step == slot_query_verdict(
            attempts_made,
            match reply {
                Some(data) => slot_of_reply(data@),
                None => None,
            },
        ),
{
    let read = match reply {
        Some(data) => limited_deserialize(data),
        None => None,
    };
    judge_slot_reply(attempts_made, read)
}

/// The outcome of an attempt by what the reply read as.
pub open spec fn slot_query_verdict(attempts_made: u64, read: Option<u64>) -> SlotQueryStep {
    match read {
        Some(slot) => SlotQueryStep::Slot(slot),
        None => if attempts_made < SLOT_QUERY_ATTEMPTS {
            SlotQueryStep::Retry
        } else {
            SlotQueryStep::GiveUp
        },
    }
}

/// Judges an attempt by what its reply read as.
pub fn judge_slot_reply(attempts_made: u64, read: Option<u64>) -> (step: SlotQueryStep)
    ensures
        step == slot_query_verdict(attempts_made, read),
{
    match read {
        Some(slot) => SlotQueryStep::Slot(slot),
        None => if attempts_made < SLOT_QUERY_ATTEMPTS {
            SlotQueryStep::Retry
        } else {
            SlotQueryStep::GiveUp
        },
    }
}

} // verus!
