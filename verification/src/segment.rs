//! Segments and the deterministic choice of the segment an archiver stores.

use vstd::prelude::*;

verus! {

/// Number of bytes in a signature.
pub const SIGNATURE_BYTES: usize = 64;

/// Index of the segment that `slot` lies in, for segments of
/// `slots_per_segment` slots.
pub open spec fn segment_of(slot: u64, slots_per_segment: u64) -> nat
    recommends
        slots_per_segment > 0,
{
    (slot as nat) / (slots_per_segment as nat)
}

/// A turn at `turn_slot` can be proven against when one whole segment lies
/// before it.
pub open spec fn turn_is_valid(turn_slot: u64, slots_per_segment: u64) -> bool {
    slots_per_segment > 0 && segment_of(turn_slot, slots_per_segment) >= 1
}

/// The number that the selector reads from a signature: bytes 0, 1, 1 and 2
/// at bit offsets 0, 8, 16 and 24. Byte 1 is used twice; the network
/// depends on exactly this packing.
pub open spec fn signature_seed(signature: Seq<u8>) -> nat
    recommends
        signature.len() >= 3,
{
    (signature[0] as nat) + (signature[1] as nat) * 0x100 + (signature[1] as nat) * 0x1_0000 + (
    signature[2] as nat) * 0x100_0000
}

/// The first slot of the segment chosen by `signature` at `turn_slot`.
pub open spec fn selected_slot(signature: Seq<u8>, turn_slot: u64, slots_per_segment: u64) -> nat
    recommends
        signature.len() >= 3,
        turn_is_valid(turn_slot, slots_per_segment),
{
    (signature_seed(signature) % segment_of(turn_slot, slots_per_segment)) * (
    slots_per_segment as nat)
}

/// The packing written with shifts is the packing written with sums.
proof fn lemma_seed_bits(b0: u8, b1: u8, b2: u8)
    ensures
        ((b0 as u64) | ((b1 as u64) << 8) | ((b1 as u64) << 16) | ((b2 as u64) << 24)) == (
        b0 as u64) + (b1 as u64) * 0x100 + (b1 as u64) * 0x1_0000 + (b2 as u64) * 0x100_0000,
{
    assert(((b0 as u64) | ((b1 as u64) << 8) | ((b1 as u64) << 16) | ((b2 as u64) << 24)) == (
    b0 as u64) + (b1 as u64) * 0x100 + (b1 as u64) * 0x1_0000 + (b2 as u64) * 0x100_0000)
        by (bit_vector);
}

/// A selected slot is the start of a segment that ends at or before the
/// turn: it is a multiple of the segment width and lies strictly below the
/// turn slot.
pub proof fn lemma_selected_slot_bounds(signature: Seq<u8>, turn_slot: u64, slots_per_segment: u64)
    requires
        turn_is_valid(turn_slot, slots_per_segment),
    ensures
        selected_slot(signature, turn_slot, slots_per_segment) % (slots_per_segment as nat) == 0,
        selected_slot(signature, turn_slot, slots_per_segment) + slots_per_segment <= turn_slot,
        selected_slot(signature, turn_slot, slots_per_segment) < turn_slot,
        segment_of(
            selected_slot(signature, turn_slot, slots_per_segment) as u64,
            slots_per_segment,
        ) == signature_seed(signature) % segment_of(turn_slot, slots_per_segment),
{
    let w = slots_per_segment as int;
    let t = turn_slot as int;
    let m = t / w;
    let k = (signature_seed(signature) as int) % m;
    assert(0 <= k < m);
    assert(m * w <= t) by (nonlinear_arith)
        requires
            m == t / w,
            w > 0,
            t >= 0,
    ;
    assert((k + 1) * w <= m * w) by (nonlinear_arith)
        requires
            k + 1 <= m,
            w > 0,
    ;
    assert((k + 1) * w == k * w + w) by (nonlinear_arith);
    assert((k * w) % w == 0 && (k * w) / w == k) by (nonlinear_arith)
        requires
            w > 0,
            k >= 0,
    ;
    assert(k * w >= 0) by (nonlinear_arith)
        requires
            w > 0,
            k >= 0,
    ;
}

/// Two signatures that agree in their first three bytes choose the same
/// segment at the same turn; in particular the choice is a function of the
/// signature, the turn slot and the segment width alone.
pub proof fn lemma_selection_deterministic(
    first: Seq<u8>,
    second: Seq<u8>,
    turn_slot: u64,
    slots_per_segment: u64,
)
    requires
        first.len() >= 3,
        second.len() >= 3,
        first[0] == second[0],
        first[1] == second[1],
        first[2] == second[2],
    ensures
        selected_slot(first, turn_slot, slots_per_segment) == selected_slot(
            second,
            turn_slot,
            slots_per_segment,
        ),
{
}

/// The segment that `slot` lies in.
pub fn get_segment_from_slot(slot: u64, slots_per_segment: u64) -> (segment: u64)
    requires
        slots_per_segment > 0,
    ensures
        segment == segment_of(slot, slots_per_segment),
{
    slot / slots_per_segment
}

/// The last segment that is complete at `slot`, if there is one: segment
/// `floor(slot / slots_per_segment)`, unless that is zero.
pub fn get_complete_segment_from_slot(slot: u64, slots_per_segment: u64) -> (segment: Option<u64>)
    requires
        slots_per_segment > 0,
    ensures
        segment.is_some() <==> turn_is_valid(slot, slots_per_segment),
        segment.is_some() ==> segment.unwrap() == segment_of(slot, slots_per_segment),
{
    let completed: u64 = slot / slots_per_segment;
    if completed == 0 {
        None
    } else {
        Some(completed)
    }
}

/// The start slot of the segment that an archiver with `signature` stores
/// when its first turn is at `storage_turn`.
pub fn get_slot_from_signature(
    signature: &[u8; 64],
    storage_turn: u64,
    slots_per_segment: u64,
) -> (slot: u64)
    requires
        turn_is_valid(storage_turn, slots_per_segment),
    ensures
        slot == selected_slot(signature@, storage_turn, slots_per_segment),
        slot % slots_per_segment == 0,
        slot < storage_turn,
        slot + slots_per_segment <= storage_turn,
{
    let b0: u8 = signature[0];
    let b1: u8 = signature[1];
    let b2: u8 = signature[2];
    let seed: u64 = (b0 as u64) | ((b1 as u64) << 8) | ((b1 as u64) << 16) | ((b2 as u64) << 24);
    let max_segment_index: u64 = storage_turn / slots_per_segment;
    let segment_index: u64 = seed % max_segment_index;
    proof {
        lemma_seed_bits(b0, b1, b2);
        lemma_selected_slot_bounds(signature@, storage_turn, slots_per_segment);
        assert(seed == signature_seed(signature@));
        assert(segment_index == signature_seed(signature@) % segment_of(
            storage_turn,
            slots_per_segment,
        ));
    }
    segment_index * slots_per_segment
}

/// The selector for callers that cannot promise a valid turn: `None` when no
/// whole segment lies before `storage_turn` (or the width is zero), else the
/// slot that `get_slot_from_signature` gives.
pub fn select_segment(signature: &[u8; 64], storage_turn: u64, slots_per_segment: u64) -> (slot:
    Option<u64>)
    ensures
        slot.is_some() <==> turn_is_valid(storage_turn, slots_per_segment),
        slot.is_some() ==> slot.unwrap() == selected_slot(
            signature@,
            storage_turn,
            slots_per_segment,
        ),
{
    if slots_per_segment == 0 || storage_turn / slots_per_segment == 0 {
        None
    } else {
        Some(get_slot_from_signature(signature, storage_turn, slots_per_segment))
    }
}

} // verus!
