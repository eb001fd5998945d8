//! Polling for the cluster's storage turn: what one answer of the cluster
//! means for an archiver that waits for a turn newer than the last it saw.

use crate::base58::{parse_32, parsed_32};
use crate::json::{
    json_number, json_string_and_number, number_from_json, string_and_number_from_json,
};
use crate::segment::{
    get_complete_segment_from_slot, get_segment_from_slot, segment_of, turn_is_valid,
};
use rand::Rng;
use vstd::prelude::*;

verus! {

/// Seconds to wait between two polls.
pub const POLL_INTERVAL_SECS: u64 = 5;

/// A storage turn: the cluster's turn blockhash and the slot it was taken
/// at.
#[derive(Debug, Clone, Copy, PartialEq, Eq)]
pub struct Turn {
    pub blockhash: [u8; 32],
    pub slot: u64,
}

/// Why polling for a turn failed.
#[derive(Debug, Clone, Copy, PartialEq, Eq)]
pub enum PollError {
    /// The request failed.
    Rpc,
    /// The response is not a pair of a string and a slot.
    BadResponse,
    /// The blockhash in the response is not the base58 form of 32 bytes.
    BadBlockhash,
    /// The exit flag was set.
    ExitSignalled,
}

impl PollError {
    /// The message that goes with the error.
    pub fn message(&self) -> (text: &'static str)
        ensures
            text@ == (match *self {
                PollError::Rpc => "rpc error"@,
                PollError::BadResponse => "Couldn't parse response"@,
                PollError::BadBlockhash => "Blockhash parse failure"@,
                PollError::ExitSignalled => "exit signalled..."@,
            }),
    {
        match self {
            PollError::Rpc => "rpc error",
            PollError::BadResponse => "Couldn't parse response",
            PollError::BadBlockhash => "Blockhash parse failure",
            PollError::ExitSignalled => "exit signalled...",
        }
    }
}

/// What one round of asking the cluster gave.
#[derive(Debug)]
pub enum RpcReply {
    /// No peer is known that could be asked.
    NoPeers,
    /// The request failed.
    Failed,
    /// The response's JSON text.
    Response(String),
}

/// Why the segment width could not be had.
#[derive(Debug, Clone, Copy, PartialEq, Eq)]
pub enum ConfigError {
    /// No peer is known that could be asked.
    NoPeers,
    /// The request failed.
    Rpc,
    /// The response is not a number of slots.
    BadResponse,
}

impl ConfigError {
    /// The message that goes with the error.
    pub fn message(&self) -> (text: &'static str)
        ensures
            text@ == (match *self {
                ConfigError::NoPeers => "No RPC peers..."@,
                ConfigError::Rpc => "rpc error"@,
                ConfigError::BadResponse => "Couldn't parse response"@,
            }),
    {
        match self {
            ConfigError::NoPeers => "No RPC peers...",
            ConfigError::Rpc => "rpc error",
            ConfigError::BadResponse => "Couldn't parse response",
        }
    }
}

/// The segment width that the cluster's answer gives.
pub open spec fn segment_config(reply: RpcReply) -> Result<u64, ConfigError> {
    match reply {
        RpcReply::NoPeers => Err(ConfigError::NoPeers),
        RpcReply::Failed => Err(ConfigError::Rpc),
        RpcReply::Response(text) => match json_number(text@) {
            Some(width) => Ok(width),
            None => Err(ConfigError::BadResponse),
        },
    }
}

/// The number of slots that a response holds.
pub fn parse_segment_config(response: &str) -> (result: Result<u64, ConfigError>)
    ensures
        result == (match json_number(response@) {
            Some(width) => Ok::<u64, ConfigError>(width),
            None => Err(ConfigError::BadResponse),
        }),
{
    match number_from_json(response) {
        Ok(width) => Ok(width),
        Err(_) => Err(ConfigError::BadResponse),
    }
}

/// Reads the cluster's answer to the question for the segment width. There
/// is no second try: without a peer, with a failed request or with a
/// response that is no number the width cannot be had.
pub fn get_segment_config(reply: &RpcReply) -> (result: Result<u64, ConfigError>)
    ensures
        result == segment_config(*reply),
{
    match reply {
        RpcReply::NoPeers => Err(ConfigError::NoPeers),
        RpcReply::Failed => Err(ConfigError::Rpc),
        RpcReply::Response(text) => parse_segment_config(text.as_str()),
    }
}

/// What a round of polling comes to.
#[derive(Debug, Clone, Copy, PartialEq, Eq)]
pub enum PollStep {
    /// A turn newer than the previous one, with a whole segment before it.
    Found(Turn),
    /// Nothing new: wait `POLL_INTERVAL_SECS` and ask again.
    Retry,
    /// Polling ends with an error.
    Failed(PollError),
}

/// A `PollStep` with the blockhash as a sequence of bytes.
pub enum Verdict {
    Found(Seq<u8>, u64),
    Retry,
    Failed(PollError),
}

impl View for PollStep {
    type V = Verdict;

    open spec fn view(&self) -> Verdict {
        match *self {
            PollStep::Found(turn) => Verdict::Found(turn.blockhash@, turn.slot),
            PollStep::Retry => Verdict::Retry,
            PollStep::Failed(e) => Verdict::Failed(e),
        }
    }
}

/// `thread_rng().gen_range(0, count)`: an index below `count`, chosen at
/// random. The call panics when `count` is zero.
#[verifier::external_body]
fn random_below(count: usize) -> (index: usize)
    requires
        count > 0,
    ensures
        index < count,
{
    rand::thread_rng().gen_range(0, count)
}

/// Picks the peer to ask among `peer_count` peers: none where there is no
/// peer, else any one of them.
pub fn pick_peer(peer_count: usize) -> (index: Option<usize>)
    ensures
        index.is_some() <==> peer_count > 0,
        index.is_some() ==> index.unwrap() < peer_count,
{
    if peer_count == 0 {
        None
    } else {
        Some(random_below(peer_count))
    }
}

/// Whether two hashes are the same.
pub fn same_hash(first: &[u8; 32], second: &[u8; 32]) -> (same: bool)
    ensures
        same == (first@ == second@),
{
    let mut i: usize = 0;
    while i < 32
        invariant
            i <= 32,
            forall|k: int| 0 <= k < i ==> first@[k] == second@[k],
        decreases 32 - i,
    {
        if first[i] != second[i] {
            return false;
        }
        i = i + 1;
    }
    proof {
        assert(first@ =~= second@);
    }
    true
}

/// What a turn means to one who saw `previous` last: it is taken when its
/// blockhash differs from `previous` and a whole segment lies before its
/// slot. Else polling fails where the exit flag is set, and goes on where it
/// is not.
pub open spec fn judged(
    blockhash: Seq<u8>,
    turn_slot: u64,
    slots_per_segment: u64,
    previous: Seq<u8>,
    exit: bool,
) -> Verdict {
    if blockhash != previous && segment_of(turn_slot, slots_per_segment) != 0 {
        Verdict::Found(blockhash, turn_slot)
    } else if exit {
        Verdict::Failed(PollError::ExitSignalled)
    } else {
        Verdict::Retry
    }
}

/// The turn that a response stands for.
pub open spec fn parsed_turn(text: Seq<char>) -> Result<(Seq<u8>, u64), PollError> {
    match json_string_and_number(text) {
        None => Err(PollError::BadResponse),
        Some((blockhash, slot)) => match parsed_32(blockhash) {
            Ok(bytes) => Ok((bytes, slot)),
            Err(_) => Err(PollError::BadBlockhash),
        },
    }
}

/// What a round of polling comes to, by what the cluster answered.
pub open spec fn poll_verdict(
    reply: RpcReply,
    slots_per_segment: u64,
    previous: Seq<u8>,
    exit: bool,
) -> Verdict {
    match reply {
        RpcReply::NoPeers => if exit {
            Verdict::Failed(PollError::ExitSignalled)
        } else {
            Verdict::Retry
        },
        RpcReply::Failed => Verdict::Failed(PollError::Rpc),
        RpcReply::Response(text) => match parsed_turn(text@) {
            Err(e) => Verdict::Failed(e),
            Ok((blockhash, slot)) => judged(blockhash, slot, slots_per_segment, previous, exit),
        },
    }
}

/// Judges a turn that the cluster reported.
pub fn judge_turn(turn: Turn, slots_per_segment: u64, previous_blockhash: &[u8; 32], exit: bool) -> (step:
    PollStep)
    requires
        slots_per_segment > 0,
    ensures
        step@ == judged(turn.blockhash@, turn.slot, slots_per_segment, previous_blockhash@, exit),
        step is Found ==> turn_is_valid(turn.slot, slots_per_segment),
{
    if !same_hash(&turn.blockhash, previous_blockhash) && get_segment_from_slot(
        turn.slot,
        slots_per_segment,
    ) != 0 {
        PollStep::Found(turn)
    } else if exit {
        PollStep::Failed(PollError::ExitSignalled)
    } else {
        PollStep::Retry
    }
}

/// Reads the cluster's response to a storage-turn request: a JSON pair of
/// the blockhash in base58 and the turn's slot.
pub fn parse_turn(response: &str) -> (result: Result<Turn, PollError>)
    ensures
        match result {
            Ok(turn) => parsed_turn(response@) == Ok::<(Seq<u8>, u64), PollError>(
                (turn.blockhash@, turn.slot),
            ),
            Err(e) => parsed_turn(response@) == Err::<(Seq<u8>, u64), PollError>(e),
        },
{
    match string_and_number_from_json(response) {
        Err(_) => Err(PollError::BadResponse),
        Ok((text, slot)) => match parse_32(text.as_str()) {
            Ok(blockhash) => Ok(Turn { blockhash, slot }),
            Err(_) => Err(PollError::BadBlockhash),
        },
    }
}

/// One round of polling for a blockhash other than `previous_blockhash`.
///
/// With no peer to ask, the round is lost. A failed request or a response
/// that cannot be read ends polling. A turn that is new and has a whole
/// segment before it is returned. In every other case polling ends where
/// the exit flag is set, and is to be repeated after `POLL_INTERVAL_SECS`
/// where it is not.
pub fn poll_for_blockhash_and_slot(
    reply: &RpcReply,
    slots_per_segment: u64,
    previous_blockhash: &[u8; 32],
    exit: bool,
) -> (step: PollStep)
    requires
        slots_per_segment > 0,
    ensures
        step@ == poll_verdict(*reply, slots_per_segment, previous_blockhash@, exit),
        step is Found ==> turn_is_valid(step->Found_0.slot, slots_per_segment),
{
    match reply {
        RpcReply::NoPeers => if exit {
            PollStep::Failed(PollError::ExitSignalled)
        } else {
            PollStep::Retry
        },
        RpcReply::Failed => PollStep::Failed(PollError::Rpc),
        RpcReply::Response(text) => match parse_turn(text.as_str()) {
            Err(e) => PollStep::Failed(e),
            Ok(turn) => judge_turn(turn, slots_per_segment, previous_blockhash, exit),
        },
    }
}

/// One round of polling for the first segment: a round of
/// `poll_for_blockhash_and_slot` whose turn is taken only if a complete
/// segment lies before it.
pub fn poll_for_segment(
    reply: &RpcReply,
    slots_per_segment: u64,
    previous_blockhash: &[u8; 32],
    exit: bool,
) -> (step: PollStep)
    requires
        slots_per_segment > 0,
    ensures
        step@ == poll_verdict(*reply, slots_per_segment, previous_blockhash@, exit),
        step is Found ==> turn_is_valid(step->Found_0.slot, slots_per_segment),
{
    let step = poll_for_blockhash_and_slot(reply, slots_per_segment, previous_blockhash, exit);
    match step {
        PollStep::Found(turn) => {
            if get_complete_segment_from_slot(turn.slot, slots_per_segment).is_some() {
                PollStep::Found(turn)
            } else {
                PollStep::Retry
            }
        },
        other => other,
    }
}

} // verus!
