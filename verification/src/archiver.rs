//! The archiver's control loop as a state machine.
//!
//! The loop's owner performs each `Action` (a query, a download, a
//! transaction) and reports what came of it as an `Event`; `ArchiverMeta::step`
//! decides what the archiver's state becomes and what is done next.

use crate::sampling::{
    create_sampling_offsets, sample_file, sample_outcome, sampling_offsets, SampleError,
};
use crate::segment::{
    get_segment_from_slot, get_slot_from_signature, lemma_selected_slot_bounds, segment_of,
    selected_slot, turn_is_valid,
};
use crate::turn::{same_hash, PollError, Turn};
use vstd::prelude::*;

verus! {

/// Name of the encrypted segment file under the ledger directory.
pub const ENCRYPTED_FILENAME: &'static str = "ledger.enc";

/// Where the control loop stands.
#[derive(Debug, Clone, Copy, PartialEq, Eq)]
pub enum Stage {
    /// Waiting for the cluster's segment width.
    AwaitConfig,
    /// Waiting for the first turn that has a whole segment before it.
    AwaitFirstTurn,
    /// Waiting for the storage key's signature of the first turn's blockhash.
    Signing,
    /// Waiting for the chosen slot to reach the slot responder.
    Announcing,
    /// Waiting for the segment's download.
    Repairing,
    /// Waiting for the node to leave the data plane.
    Detaching,
    /// Waiting for the segment's encryption.
    Encrypting,
    /// Waiting for the encrypted file's bytes, to sample them.
    Sampling,
    /// Waiting for the proof's submission.
    Proving,
    /// Waiting for the next turn.
    AwaitNextTurn,
    /// Waiting for the rewards' redemption.
    Redeeming,
    /// The loop has ended.
    Exited,
}

/// Why the loop ended.
#[derive(Debug, Clone, Copy, PartialEq, Eq)]
pub enum ExitReason {
    /// The segment width could not be had, or was zero.
    ConfigFailed,
    /// Polling for a turn failed.
    TurnFailed(PollError),
    /// The slot responder could not be told the slot.
    AnnounceFailed,
    /// The segment could not be encrypted.
    EncryptFailed,
    /// The encrypted file holds no cipher block.
    NothingToSample,
    /// The encrypted file could not be read.
    ReadFailed,
    /// The encrypted file could not be sampled.
    SampleFailed(SampleError),
    /// The proof could not be submitted.
    ProofFailed,
    /// The exit flag was set.
    ExitSignalled,
    /// An event came that the stage does not wait for.
    UnexpectedEvent,
}

/// What the loop's owner reports.
#[derive(Debug)]
pub enum Event {
    /// The cluster's segment width, or `None` where the query failed.
    SegmentConfig(Option<u64>),
    /// What polling for a turn gave.
    Turn(Result<Turn, PollError>),
    /// The storage key's signature of the blockhash handed out for signing.
    Signed([u8; 64]),
    /// Whether the slot reached the slot responder.
    SlotAnnounced(bool),
    /// The wait for the segment's download is over.
    SegmentDownloaded,
    /// The node has left the data plane.
    Detached,
    /// The number of encrypted bytes written, or `None` on an I/O error.
    Encrypted(Option<u64>),
    /// The bytes of the encrypted file, or `None` on an I/O error.
    EncryptedFile(Option<Vec<u8>>),
    /// Whether the proof was submitted.
    ProofSubmitted(bool),
    /// The rewards' redemption was tried.
    Redeemed,
}

/// What the loop's owner is to do next.
#[derive(Debug, Clone, Copy, PartialEq, Eq)]
pub enum Action {
    /// Ask the cluster for the segment width.
    QuerySegmentConfig,
    /// Poll until the cluster's turn blockhash differs from this one.
    PollTurn { previous_blockhash: [u8; 32], slots_per_segment: u64 },
    /// Sign the blockhash with the storage key.
    Sign { blockhash: [u8; 32] },
    /// Tell the slot responder the segment's start slot.
    AnnounceSlot { slot: u64 },
    /// Download the slots from `start` up to `end`, which is excluded.
    Repair { start: u64, end: u64 },
    /// Take the node's data-plane address out of its gossip record.
    LeaveDataPlane,
    /// Encrypt the segment with `ivec` as the cipher's first chaining block.
    Encrypt { slot: u64, slots_per_segment: u64, ivec: [u8; 64] },
    /// Read the encrypted file.
    ReadEncrypted,
    /// Submit the mining proof.
    SubmitProof { sha_state: [u8; 32], segment_index: u64, signature: [u8; 64], blockhash: [u8; 32] },
    /// Redeem the rewards accrued.
    RedeemRewards,
    /// Set the exit flag and end.
    Exit(ExitReason),
}

/// The archiver's state. Only the control loop changes it.
#[derive(Debug)]
pub struct ArchiverMeta {
    /// Where the loop stands.
    pub stage: Stage,
    /// Start slot of the segment being proven.
    pub slot: u64,
    /// Segment width in slots.
    pub slots_per_segment: u64,
    /// Slot of the first turn, at which the segment was chosen.
    pub turn_slot: u64,
    /// Signature of the first turn's blockhash under the storage key.
    pub signature: [u8; 64],
    /// The last turn blockhash seen.
    pub blockhash: [u8; 32],
    /// The block indices sampled this turn.
    pub sampling_offsets: Vec<u64>,
    /// Hash of the sampled blocks.
    pub sha_state: [u8; 32],
    /// Number of cipher blocks in the encrypted file.
    pub num_chacha_blocks: u64,
}

/// Whether the stage comes after the segment was chosen.
pub open spec fn segment_chosen(stage: Stage) -> bool {
    match stage {
        Stage::AwaitConfig | Stage::AwaitFirstTurn | Stage::Signing | Stage::Exited => false,
        _ => true,
    }
}

/// Whether the stage comes before the first sampling.
pub open spec fn before_sampling(stage: Stage) -> bool {
    match stage {
        Stage::AwaitConfig
        | Stage::AwaitFirstTurn
        | Stage::Signing
        | Stage::Announcing
        | Stage::Repairing
        | Stage::Detaching
        | Stage::Encrypting => true,
        _ => false,
    }
}

/// The step changed nothing of what identifies the segment.
pub open spec fn same_segment(pre: ArchiverMeta, post: ArchiverMeta) -> bool {
    &&& post.slot == pre.slot
    &&& post.slots_per_segment == pre.slots_per_segment
    &&& post.turn_slot == pre.turn_slot
    &&& post.signature == pre.signature
}

/// The step changed nothing of the challenge and its answer.
pub open spec fn same_challenge(pre: ArchiverMeta, post: ArchiverMeta) -> bool {
    &&& post.blockhash == pre.blockhash
    &&& post.sampling_offsets@ == pre.sampling_offsets@
    &&& post.sha_state == pre.sha_state
    &&& post.num_chacha_blocks == pre.num_chacha_blocks
}

/// The step changed the stage only.
pub open spec fn moves_to(pre: ArchiverMeta, post: ArchiverMeta, stage: Stage) -> bool {
    &&& same_segment(pre, post)
    &&& same_challenge(pre, post)
    &&& post.stage == stage
}

/// The step ended the loop for `reason`.
pub open spec fn exits(
    pre: ArchiverMeta,
    post: ArchiverMeta,
    action: Action,
    reason: ExitReason,
) -> bool {
    moves_to(pre, post, Stage::Exited) && action == Action::Exit(reason)
}

/// Whether a turn is one to take: its blockhash is not the one seen last,
/// and a whole segment lies before its slot.
pub open spec fn turn_is_fresh(pre: ArchiverMeta, turn: Turn) -> bool {
    turn.blockhash@ != pre.blockhash@ && turn_is_valid(turn.slot, pre.slots_per_segment)
}

/// The top of the prove loop, entered with `num_chacha_blocks` blocks and
/// `blockhash` as the turn's blockhash: the loop ends where the exit flag is
/// set or there is no block to sample; else fresh offsets are drawn from the
/// blockhash and the encrypted file is asked for.
pub open spec fn begins_turn(
    pre: ArchiverMeta,
    post: ArchiverMeta,
    action: Action,
    exit: bool,
    blockhash: [u8; 32],
    num_chacha_blocks: u64,
) -> bool {
    &&& same_segment(pre, post)
    &&& post.sha_state == pre.sha_state
    &&& post.blockhash == blockhash
    &&& post.num_chacha_blocks == num_chacha_blocks
    &&& if exit {
        &&& post.sampling_offsets@ == pre.sampling_offsets@
        &&& post.stage == Stage::Exited
        &&& action == Action::Exit(ExitReason::ExitSignalled)
    } else if num_chacha_blocks == 0 {
        &&& post.sampling_offsets@ == pre.sampling_offsets@
        &&& post.stage == Stage::Exited
        &&& action == Action::Exit(ExitReason::NothingToSample)
    } else {
        &&& post.sampling_offsets@ == sampling_offsets(blockhash@, num_chacha_blocks)
        &&& post.stage == Stage::Sampling
        &&& action == Action::ReadEncrypted
    }
}

/// The control loop's transition relation: from `pre`, on `event` and with
/// the exit flag as `exit`, the state becomes `post` and `action` is next.
/// For every `pre`, `event` and `exit` it fixes `action` and every field of
/// `post`.
pub open spec fn transition(
    pre: ArchiverMeta,
    event: Event,
    exit: bool,
    post: ArchiverMeta,
    action: Action,
) -> bool {
    match pre.stage {
        Stage::AwaitConfig => match event {
            Event::SegmentConfig(Some(width)) => if width > 0 {
                &&& post.slots_per_segment == width
                &&& post.slot == pre.slot
                &&& post.turn_slot == pre.turn_slot
                &&& post.signature == pre.signature
                &&& same_challenge(pre, post)
                &&& post.stage == Stage::AwaitFirstTurn
                &&& action == (Action::PollTurn {
                    previous_blockhash: pre.blockhash,
                    slots_per_segment: width,
                })
            } else {
                exits(pre, post, action, ExitReason::ConfigFailed)
            },
            Event::SegmentConfig(None) => exits(pre, post, action, ExitReason::ConfigFailed),
            _ => exits(pre, post, action, ExitReason::UnexpectedEvent),
        },
        Stage::AwaitFirstTurn => match event {
            Event::Turn(Ok(turn)) => if turn_is_fresh(pre, turn) {
                &&& post.turn_slot == turn.slot
                &&& post.blockhash == turn.blockhash
                &&& post.slot == pre.slot
                &&& post.slots_per_segment == pre.slots_per_segment
                &&& post.signature == pre.signature
                &&& post.sampling_offsets@ == pre.sampling_offsets@
                &&& post.sha_state == pre.sha_state
                &&& post.num_chacha_blocks == pre.num_chacha_blocks
                &&& post.stage == Stage::Signing
                &&& action == (Action::Sign { blockhash: turn.blockhash })
            } else {
                &&& moves_to(pre, post, Stage::AwaitFirstTurn)
                &&& action == (Action::PollTurn {
                    previous_blockhash: pre.blockhash,
                    slots_per_segment: pre.slots_per_segment,
                })
            },
            Event::Turn(Err(e)) => exits(pre, post, action, ExitReason::TurnFailed(e)),
            _ => exits(pre, post, action, ExitReason::UnexpectedEvent),
        },
        Stage::Signing => match event {
            Event::Signed(signature) => {
                &&& post.signature == signature
                &&& post.slot == selected_slot(signature@, pre.turn_slot, pre.slots_per_segment)
                &&& post.slots_per_segment == pre.slots_per_segment
                &&& post.turn_slot == pre.turn_slot
                &&& same_challenge(pre, post)
                &&& post.stage == Stage::Announcing
                &&& action == (Action::AnnounceSlot { slot: post.slot })
            },
            _ => exits(pre, post, action, ExitReason::UnexpectedEvent),
        },
        Stage::Announcing => match event {
            Event::SlotAnnounced(true) => {
                &&& moves_to(pre, post, Stage::Repairing)
                &&& pre.slot + pre.slots_per_segment <= u64::MAX
                &&& action == (Action::Repair {
                    start: pre.slot,
                    end: (pre.slot + pre.slots_per_segment) as u64,
                })
            },
            Event::SlotAnnounced(false) => exits(pre, post, action, ExitReason::AnnounceFailed),
            _ => exits(pre, post, action, ExitReason::UnexpectedEvent),
        },
        Stage::Repairing => match event {
            Event::SegmentDownloaded => {
                &&& moves_to(pre, post, Stage::Detaching)
                &&& action == Action::LeaveDataPlane
            },
            _ => exits(pre, post, action, ExitReason::UnexpectedEvent),
        },
        Stage::Detaching => match event {
            Event::Detached => {
                &&& moves_to(pre, post, Stage::Encrypting)
                &&& action == (Action::Encrypt {
                    slot: pre.slot,
                    slots_per_segment: pre.slots_per_segment,
                    ivec: pre.signature,
                })
            },
            _ => exits(pre, post, action, ExitReason::UnexpectedEvent),
        },
        Stage::Encrypting => match event {
            Event::Encrypted(Some(bytes)) => begins_turn(
                pre,
                post,
                action,
                exit,
                pre.blockhash,
                bytes / 64,
            ),
            Event::Encrypted(None) => exits(pre, post, action, ExitReason::EncryptFailed),
            _ => exits(pre, post, action, ExitReason::UnexpectedEvent),
        },
        Stage::Sampling => match event {
            Event::EncryptedFile(Some(data)) => match sample_outcome(
                data@,
                pre.sampling_offsets@,
            ) {
                Ok(digest) => {
                    &&& same_segment(pre, post)
                    &&& post.blockhash == pre.blockhash
                    &&& post.sampling_offsets@ == pre.sampling_offsets@
                    &&& post.num_chacha_blocks == pre.num_chacha_blocks
                    &&& post.sha_state@ == digest
                    &&& post.stage == Stage::Proving
                    &&& action == (Action::SubmitProof {
                        sha_state: post.sha_state,
                        segment_index: segment_of(pre.slot, pre.slots_per_segment) as u64,
                        signature: pre.signature,
                        blockhash: pre.blockhash,
                    })
                },
                Err(e) => exits(pre, post, action, ExitReason::SampleFailed(e)),
            },
            Event::EncryptedFile(None) => exits(pre, post, action, ExitReason::ReadFailed),
            _ => exits(pre, post, action, ExitReason::UnexpectedEvent),
        },
        Stage::Proving => match event {
            Event::ProofSubmitted(true) => {
                &&& moves_to(pre, post, Stage::AwaitNextTurn)
                &&& action == (Action::PollTurn {
                    previous_blockhash: pre.blockhash,
                    slots_per_segment: pre.slots_per_segment,
                })
            },
            Event::ProofSubmitted(false) => exits(pre, post, action, ExitReason::ProofFailed),
            _ => exits(pre, post, action, ExitReason::UnexpectedEvent),
        },
        Stage::AwaitNextTurn => match event {
            Event::Turn(Ok(turn)) => if turn_is_fresh(pre, turn) {
                &&& same_segment(pre, post)
                &&& post.blockhash == turn.blockhash
                &&& post.sampling_offsets@ == pre.sampling_offsets@
                &&& post.sha_state == pre.sha_state
                &&& post.num_chacha_blocks == pre.num_chacha_blocks
                &&& post.stage == Stage::Redeeming
                &&& action == Action::RedeemRewards
            } else {
                &&& moves_to(pre, post, Stage::AwaitNextTurn)
                &&& action == (Action::PollTurn {
                    previous_blockhash: pre.blockhash,
                    slots_per_segment: pre.slots_per_segment,
                })
            },
            Event::Turn(Err(e)) => exits(pre, post, action, ExitReason::TurnFailed(e)),
            _ => exits(pre, post, action, ExitReason::UnexpectedEvent),
        },
        Stage::Redeeming => match event {
            Event::Redeemed => begins_turn(
                pre,
                post,
                action,
                exit,
                pre.blockhash,
                pre.num_chacha_blocks,
            ),
            _ => exits(pre, post, action, ExitReason::UnexpectedEvent),
        },
        Stage::Exited => exits(pre, post, action, ExitReason::UnexpectedEvent),
    }
}

/// Once the segment is chosen no step changes it: the signature, the start
/// slot, the segment width and the turn it was chosen at stay what they
/// were, whatever the event.
pub proof fn lemma_segment_is_chosen_once(
    pre: ArchiverMeta,
    event: Event,
    exit: bool,
    post: ArchiverMeta,
    action: Action,
)
    requires
        transition(pre, event, exit, post, action),
        segment_chosen(pre.stage),
    ensures
        same_segment(pre, post),
{
}

/// A turn changes the blockhash and nothing else that a proof names: after
/// the step that takes the next turn, the signature and the slot are those
/// of the first turn, and the blockhash is the new turn's, which is not the
/// one before. A turn that brings the old blockhash again is not taken.
pub proof fn lemma_next_turn_keeps_signature(
    pre: ArchiverMeta,
    turn: Turn,
    exit: bool,
    post: ArchiverMeta,
    action: Action,
)
    requires
        pre.stage == Stage::AwaitNextTurn,
        transition(pre, Event::Turn(Ok(turn)), exit, post, action),
    ensures
        post.signature == pre.signature,
        post.slot == pre.slot,
        post.sha_state == pre.sha_state,
        post.stage == Stage::Redeeming ==> post.blockhash == turn.blockhash && post.blockhash@
            != pre.blockhash@,
        post.stage != Stage::Redeeming ==> post.stage == Stage::AwaitNextTurn && post.blockhash
            == pre.blockhash,
{
}

/// The loop never leaves its end, and asks for nothing there but to exit.
pub proof fn lemma_exit_is_final(
    pre: ArchiverMeta,
    event: Event,
    exit: bool,
    post: ArchiverMeta,
    action: Action,
)
    requires
        pre.stage == Stage::Exited,
        transition(pre, event, exit, post, action),
    ensures
        post.stage == Stage::Exited,
        action is Exit,
{
}

/// The segment that a proof names is the one chosen at the first turn: its
/// index is the signature's number reduced by the number of segments before
/// that turn.
pub proof fn lemma_proof_names_chosen_segment(meta: ArchiverMeta)
    requires
        meta.wf(),
        segment_chosen(meta.stage),
    ensures
        segment_of(meta.slot, meta.slots_per_segment) == crate::segment::signature_seed(
            meta.signature@,
        ) % segment_of(meta.turn_slot, meta.slots_per_segment),
        meta.slot % meta.slots_per_segment == 0,
        meta.slot + meta.slots_per_segment <= meta.turn_slot,
{
    lemma_selected_slot_bounds(meta.signature@, meta.turn_slot, meta.slots_per_segment);
}

impl ArchiverMeta {
    /// What holds of the state at every stage: each sampling offset names a
    /// block of the encrypted file; before the first turn the blockhash is
    /// still the zero hash; once a turn is taken it has a whole segment
    /// before it; and once the segment is chosen its start slot is the one
    /// that the selector gives for the signature at that turn.
    pub open spec fn wf(&self) -> bool {
        &&& self.sampling_offsets@.len() <= crate::sampling::NUM_STORAGE_SAMPLES
        &&& forall|i: int|
            0 <= i < self.sampling_offsets@.len() ==> self.sampling_offsets@[i]
                < self.num_chacha_blocks
        &&& (self.stage == Stage::Signing || segment_chosen(self.stage)) ==> turn_is_valid(
            self.turn_slot,
            self.slots_per_segment,
        )
        &&& segment_chosen(self.stage) ==> self.slot == selected_slot(
            self.signature@,
            self.turn_slot,
            self.slots_per_segment,
        )
        &&& (self.stage == Stage::AwaitConfig || self.stage == Stage::AwaitFirstTurn)
            ==> self.blockhash@ == Seq::new(32, |i: int| 0u8)
        &&& before_sampling(self.stage) ==> self.sampling_offsets@.len() == 0
        &&& self.stage == Stage::Sampling ==> self.sampling_offsets@ == sampling_offsets(
            self.blockhash@,
            self.num_chacha_blocks,
        )
    }

    /// The state before anything is known: the loop waits for the segment
    /// width, and the first thing to do is to ask for it.
    pub fn new() -> (meta: ArchiverMeta)
        ensures
            meta.wf(),
            meta.stage == Stage::AwaitConfig,
            meta.slot == 0,
            meta.slots_per_segment == 0,
            meta.turn_slot == 0,
            meta.num_chacha_blocks == 0,
            meta.sampling_offsets@.len() == 0,
            meta.signature@ == Seq::new(64, |i: int| 0u8),
            meta.blockhash@ == Seq::new(32, |i: int| 0u8),
            meta.sha_state@ == Seq::new(32, |i: int| 0u8),
    {
        let meta = ArchiverMeta {
            stage: Stage::AwaitConfig,
            slot: 0,
            slots_per_segment: 0,
            turn_slot: 0,
            signature: [0u8; 64],
            blockhash: [0u8; 32],
            sampling_offsets: Vec::new(),
            sha_state: [0u8; 32],
            num_chacha_blocks: 0,
        };
        proof {
            assert(meta.signature@ =~= Seq::new(64, |i: int| 0u8));
            assert(meta.blockhash@ =~= Seq::new(32, |i: int| 0u8));
            assert(meta.sha_state@ =~= Seq::new(32, |i: int| 0u8));
        }
        meta
    }

    /// Whether `turn` is one to take.
    fn takes(&self, turn: &Turn) -> (fresh: bool)
        ensures
            fresh == turn_is_fresh(*self, *turn),
    {
        !same_hash(&turn.blockhash, &self.blockhash) && self.slots_per_segment > 0 && turn.slot
            / self.slots_per_segment >= 1
    }

    /// Ends the loop for `reason`.
    fn exit(&mut self, reason: ExitReason) -> (action: Action)
        requires
            old(self).wf(),
        ensures
            exits(*old(self), *final(self), action, reason),
            final(self).wf(),
    {
        self.stage = Stage::Exited;
        Action::Exit(reason)
    }

    /// The top of the prove loop.
    fn begin_turn(&mut self, exit: bool) -> (action: Action)
        requires
            old(self).wf(),
            segment_chosen(old(self).stage),
        ensures
            begins_turn(
                *old(self),
                *final(self),
                action,
                exit,
                old(self).blockhash,
                old(self).num_chacha_blocks,
            ),
            final(self).wf(),
    {
        if exit {
            self.stage = Stage::Exited;
            Action::Exit(ExitReason::ExitSignalled)
        } else if self.num_chacha_blocks == 0 {
            self.stage = Stage::Exited;
            Action::Exit(ExitReason::NothingToSample)
        } else {
            self.sampling_offsets = create_sampling_offsets(&self.blockhash, self.num_chacha_blocks);
            self.stage = Stage::Sampling;
            Action::ReadEncrypted
        }
    }

    /// Takes one event and decides what the state becomes and what is done
    /// next. `exit` is the shared exit flag as it stands now; it is looked
    /// at where a turn of the prove loop begins.
    pub fn step(&mut self, event: Event, exit: bool) -> (action: Action)
        requires
            old(self).wf(),
        ensures
            transition(*old(self), event, exit, *final(self), action),
            final(self).wf(),
            segment_chosen(old(self).stage) ==> same_segment(*old(self), *final(self)),
    {
        proof {
            if segment_chosen(self.stage) || self.stage == Stage::Signing {
                lemma_selected_slot_bounds(self.signature@, self.turn_slot, self.slots_per_segment);
            }
        }
        match self.stage {
            Stage::AwaitConfig => match event {
                Event::SegmentConfig(Some(width)) => {
                    if width > 0 {
                        self.slots_per_segment = width;
                        self.stage = Stage::AwaitFirstTurn;
                        Action::PollTurn {
                            previous_blockhash: self.blockhash,
                            slots_per_segment: width,
                        }
                    } else {
                        self.exit(ExitReason::ConfigFailed)
                    }
                },
                Event::SegmentConfig(None) => self.exit(ExitReason::ConfigFailed),
                _ => self.exit(ExitReason::UnexpectedEvent),
            },
            Stage::AwaitFirstTurn => match event {
                Event::Turn(Ok(turn)) => {
                    if self.takes(&turn) {
                        self.turn_slot = turn.slot;
                        self.blockhash = turn.blockhash;
                        self.stage = Stage::Signing;
                        Action::Sign { blockhash: turn.blockhash }
                    } else {
                        Action::PollTurn {
                            previous_blockhash: self.blockhash,
                            slots_per_segment: self.slots_per_segment,
                        }
                    }
                },
                Event::Turn(Err(e)) => self.exit(ExitReason::TurnFailed(e)),
                _ => self.exit(ExitReason::UnexpectedEvent),
            },
            Stage::Signing => match event {
                Event::Signed(signature) => {
                    let slot = get_slot_from_signature(
                        &signature,
                        self.turn_slot,
                        self.slots_per_segment,
                    );
                    self.signature = signature;
                    self.slot = slot;
                    self.stage = Stage::Announcing;
                    Action::AnnounceSlot { slot }
                },
                _ => self.exit(ExitReason::UnexpectedEvent),
            },
            Stage::Announcing => match event {
                Event::SlotAnnounced(sent) => {
                    if sent {
                        self.stage = Stage::Repairing;
                        Action::Repair { start: self.slot, end: self.slot + self.slots_per_segment }
                    } else {
                        self.exit(ExitReason::AnnounceFailed)
                    }
                },
                _ => self.exit(ExitReason::UnexpectedEvent),
            },
            Stage::Repairing => match event {
                Event::SegmentDownloaded => {
                    self.stage = Stage::Detaching;
                    Action::LeaveDataPlane
                },
                _ => self.exit(ExitReason::UnexpectedEvent),
            },
            Stage::Detaching => match event {
                Event::Detached => {
                    self.stage = Stage::Encrypting;
                    Action::Encrypt {
                        slot: self.slot,
                        slots_per_segment: self.slots_per_segment,
                        ivec: self.signature,
                    }
                },
                _ => self.exit(ExitReason::UnexpectedEvent),
            },
            Stage::Encrypting => match event {
                Event::Encrypted(Some(bytes)) => {
                    self.num_chacha_blocks = bytes / 64;
                    self.begin_turn(exit)
                },
                Event::Encrypted(None) => self.exit(ExitReason::EncryptFailed),
                _ => self.exit(ExitReason::UnexpectedEvent),
            },
            Stage::Sampling => match event {
                Event::EncryptedFile(Some(data)) => {
                    match sample_file(data.as_slice(), self.sampling_offsets.as_slice()) {
                        Ok(digest) => {
                            self.sha_state = digest;
                            self.stage = Stage::Proving;
                            Action::SubmitProof {
                                sha_state: digest,
                                segment_index: get_segment_from_slot(
                                    self.slot,
                                    self.slots_per_segment,
                                ),
                                signature: self.signature,
                                blockhash: self.blockhash,
                            }
                        },
                        Err(e) => self.exit(ExitReason::SampleFailed(e)),
                    }
                },
                Event::EncryptedFile(None) => self.exit(ExitReason::ReadFailed),
                _ => self.exit(ExitReason::UnexpectedEvent),
            },
            Stage::Proving => match event {
                Event::ProofSubmitted(submitted) => {
                    if submitted {
                        self.stage = Stage::AwaitNextTurn;
                        Action::PollTurn {
                            previous_blockhash: self.blockhash,
                            slots_per_segment: self.slots_per_segment,
                        }
                    } else {
                        self.exit(ExitReason::ProofFailed)
                    }
                },
                _ => self.exit(ExitReason::UnexpectedEvent),
            },
            Stage::AwaitNextTurn => match event {
                Event::Turn(Ok(turn)) => {
                    if self.takes(&turn) {
                        self.blockhash = turn.blockhash;
                        self.stage = Stage::Redeeming;
                        Action::RedeemRewards
                    } else {
                        Action::PollTurn {
                            previous_blockhash: self.blockhash,
                            slots_per_segment: self.slots_per_segment,
                        }
                    }
                },
                Event::Turn(Err(e)) => self.exit(ExitReason::TurnFailed(e)),
                _ => self.exit(ExitReason::UnexpectedEvent),
            },
            Stage::Redeeming => match event {
                Event::Redeemed => self.begin_turn(exit),
                _ => self.exit(ExitReason::UnexpectedEvent),
            },
            Stage::Exited => self.exit(ExitReason::UnexpectedEvent),
        }
    }
}

} // verus!
