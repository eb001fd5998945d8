//! The sampling challenge: block offsets drawn from a generator seeded by
//! the turn's blockhash, and the digest of the blocks at those offsets.

use crate::hash::{sha256, Hasher, HASH_BYTES};
use rand::{Rng, SeedableRng};
use vstd::prelude::*;
use vstd::slice::slice_subrange;

verus! {

/// Number of offsets sampled per turn. A protocol constant: the verifier
/// draws the same number.
pub const NUM_STORAGE_SAMPLES: usize = 4;

/// Most offsets that one digest can cover.
pub const MAX_SAMPLE_OFFSETS: u64 = 0x100_0000_0000_0000;

#[verifier::external_type_specification]
#[verifier::external_body]
pub struct ExChaChaRng(rand_chacha::ChaChaRng);

/// The words that make up a generator's state: key, counter, stream,
/// buffered block and position in it.
pub uninterp spec fn chacha_state(rng: rand_chacha::ChaChaRng) -> Seq<u32>;

/// The state of the generator that `ChaChaRng::from_seed` makes of a seed.
pub uninterp spec fn chacha_seeded(seed: Seq<u8>) -> Seq<u32>;

/// What `gen_range(0, high)` draws from a generator in `state`, and the state
/// it leaves the generator in.
pub uninterp spec fn chacha_gen_range(state: Seq<u32>, high: u64) -> (u64, Seq<u32>);

/// `ChaChaRng::from_seed`: the generator's state is determined by the seed.
#[verifier::external_body]
fn chacha_from_seed(seed: [u8; 32]) -> (rng: rand_chacha::ChaChaRng)
    ensures
        chacha_state(rng) == chacha_seeded(seed@),
{
    rand_chacha::ChaChaRng::from_seed(seed)
}

/// `Rng::gen_range(0u64, high)` on a `ChaChaRng`: the value drawn and the
/// state afterwards are determined by the state before and by `high`, and
/// the value lies below `high`. The call panics when `high` is zero.
#[verifier::external_body]
fn chacha_draw_below(rng: &mut rand_chacha::ChaChaRng, high: u64) -> (value: u64)
    requires
        high > 0,
    ensures
        value == chacha_gen_range(chacha_state(*old(rng)), high).0,
        chacha_state(*final(rng)) == chacha_gen_range(chacha_state(*old(rng)), high).1,
        value < high,
{
    rng.gen_range(0u64, high)
}

/// The first `count` draws below `high` from a generator in `state`.
pub open spec fn draws_from(state: Seq<u32>, high: u64, count: nat) -> Seq<u64>
    decreases count,
{
    if count == 0 {
        Seq::<u64>::empty()
    } else {
        seq![chacha_gen_range(state, high).0] + draws_from(
            chacha_gen_range(state, high).1,
            high,
            (count - 1) as nat,
        )
    }
}

/// The offsets that a turn with `blockhash` asks of a file of
/// `num_chacha_blocks` cipher blocks.
pub open spec fn sampling_offsets(blockhash: Seq<u8>, num_chacha_blocks: u64) -> Seq<u64> {
    draws_from(chacha_seeded(blockhash), num_chacha_blocks, NUM_STORAGE_SAMPLES as nat)
}

/// Draws the turn's sampling offsets: a generator is seeded with the
/// blockhash and asked `NUM_STORAGE_SAMPLES` times for a block index below
/// `num_chacha_blocks`.
pub fn create_sampling_offsets(blockhash: &[u8; 32], num_chacha_blocks: u64) -> (offsets: Vec<u64>)
    requires
        num_chacha_blocks > 0,
    ensures
        offsets@ == sampling_offsets(blockhash@, num_chacha_blocks),
        offsets@.len() == NUM_STORAGE_SAMPLES,
        forall|i: int| 0 <= i < offsets@.len() ==> offsets@[i] < num_chacha_blocks,
{
    let mut offsets: Vec<u64> = Vec::new();
    let mut rng = chacha_from_seed(*blockhash);
    let mut drawn: usize = 0;
    while drawn < NUM_STORAGE_SAMPLES
        invariant
            drawn <= NUM_STORAGE_SAMPLES,
            num_chacha_blocks > 0,
            offsets@.len() == drawn,
            forall|i: int| 0 <= i < offsets@.len() ==> offsets@[i] < num_chacha_blocks,
            offsets@ + draws_from(
                chacha_state(rng),
                num_chacha_blocks,
                (NUM_STORAGE_SAMPLES - drawn) as nat,
            ) == sampling_offsets(blockhash@, num_chacha_blocks),
        decreases NUM_STORAGE_SAMPLES - drawn,
    {
        let ghost before = chacha_state(rng);
        let ghost rest = draws_from(
            chacha_gen_range(before, num_chacha_blocks).1,
            num_chacha_blocks,
            (NUM_STORAGE_SAMPLES - drawn - 1) as nat,
        );
        let ghost so_far = offsets@;
        let value = chacha_draw_below(&mut rng, num_chacha_blocks);
        offsets.push(value);
        proof {
            assert(so_far + (seq![value] + rest) =~= so_far.push(value) + rest);
        }
        drawn = drawn + 1;
    }
    proof {
        assert(offsets@ + Seq::<u64>::empty() =~= offsets@);
    }
    offsets
}

/// Why a file could not be sampled.
#[derive(Debug, Clone, Copy, PartialEq, Eq)]
pub enum SampleError {
    /// The file holds less than one sample.
    FileTooShort,
    /// An offset names a sample that would reach past the end of the file.
    OffsetTooLarge,
}

impl SampleError {
    /// The message that goes with the error.
    pub fn message(&self) -> (text: &'static str)
        ensures
            text@ == (match *self {
                SampleError::FileTooShort => "file too short!"@,
                SampleError::OffsetTooLarge => "offset too large"@,
            }),
    {
        match self {
            SampleError::FileTooShort => "file too short!",
            SampleError::OffsetTooLarge => "offset too large",
        }
    }
}

/// Whether the sample at `offset` lies within a file of `file_len` bytes.
pub open spec fn offset_in_file(file_len: nat, offset: u64) -> bool {
    file_len >= HASH_BYTES && offset <= (file_len - HASH_BYTES) / (HASH_BYTES as int)
}

/// The sample at `offset`: `HASH_BYTES` bytes from byte `offset * HASH_BYTES`
/// on.
pub open spec fn sample_at(data: Seq<u8>, offset: u64) -> Seq<u8>
    recommends
        offset_in_file(data.len(), offset),
{
    data.subrange(offset * HASH_BYTES, offset * HASH_BYTES + HASH_BYTES)
}

/// The samples at `offsets`, one after the other.
pub open spec fn sampled_bytes(data: Seq<u8>, offsets: Seq<u64>) -> Seq<u8>
    decreases offsets.len(),
{
    if offsets.len() == 0 {
        Seq::<u8>::empty()
    } else {
        sampled_bytes(data, offsets.drop_last()) + sample_at(data, offsets.last())
    }
}

/// Whether every offset names a sample within the file.
pub open spec fn offsets_in_file(file_len: nat, offsets: Seq<u64>) -> bool {
    forall|i: int| 0 <= i < offsets.len() ==> offset_in_file(file_len, #[trigger] offsets[i])
}

/// What sampling a file of `data` at `offsets` gives: the digest of the
/// sampled bytes, or the reason for which the file is refused.
pub open spec fn sample_outcome(data: Seq<u8>, offsets: Seq<u64>) -> Result<Seq<u8>, SampleError> {
    if data.len() < HASH_BYTES {
        Err(SampleError::FileTooShort)
    } else if !offsets_in_file(data.len(), offsets) {
        Err(SampleError::OffsetTooLarge)
    } else {
        Ok(sha256(sampled_bytes(data, offsets)))
    }
}

/// A file shorter than one sample is never sampled, whatever the offsets;
/// nor is a file with an offset above `(len - 32) / 32`, whatever the other
/// offsets.
pub proof fn lemma_sample_refusals(data: Seq<u8>, offsets: Seq<u64>, i: int)
    ensures
        data.len() < HASH_BYTES ==> sample_outcome(data, offsets) == Err::<Seq<u8>, SampleError>(
            SampleError::FileTooShort,
        ),
        data.len() >= HASH_BYTES && 0 <= i < offsets.len() && offsets[i] > (data.len()
            - HASH_BYTES) / (HASH_BYTES as int) ==> sample_outcome(data, offsets) == Err::<
            Seq<u8>,
            SampleError,
        >(SampleError::OffsetTooLarge),
{
    if data.len() >= HASH_BYTES && 0 <= i < offsets.len() && offsets[i] > (data.len() - HASH_BYTES)
        / (HASH_BYTES as int) {
        assert(!offset_in_file(data.len(), offsets[i]));
    }
}

/// Offsets that name cipher blocks of a file always name samples within it:
/// a file of `num_chacha_blocks` blocks of 64 bytes, with at least one
/// block, is sampled at any offsets below `num_chacha_blocks`.
pub proof fn lemma_block_offsets_fit(data: Seq<u8>, offsets: Seq<u64>, num_chacha_blocks: u64)
    requires
        num_chacha_blocks > 0,
        data.len() == 64 * num_chacha_blocks,
        forall|i: int| 0 <= i < offsets.len() ==> offsets[i] < num_chacha_blocks,
    ensures
        offsets_in_file(data.len(), offsets),
        sample_outcome(data, offsets) == Ok::<Seq<u8>, SampleError>(
            sha256(sampled_bytes(data, offsets)),
        ),
{
    assert forall|i: int| 0 <= i < offsets.len() implies offset_in_file(
        data.len(),
        #[trigger] offsets[i],
    ) by {
        assert(offsets[i] < num_chacha_blocks);
    }
}

/// The samples are as long as their number says.
pub proof fn lemma_sampled_len(data: Seq<u8>, offsets: Seq<u64>)
    requires
        offsets_in_file(data.len(), offsets),
    ensures
        sampled_bytes(data, offsets).len() == offsets.len() * HASH_BYTES,
    decreases offsets.len(),
{
    if offsets.len() > 0 {
        let head = offsets.drop_last();
        assert forall|i: int| 0 <= i < head.len() implies offset_in_file(
            data.len(),
            #[trigger] head[i],
        ) by {
            assert(head[i] == offsets[i]);
        }
        lemma_sampled_len(data, head);
        assert(offset_in_file(data.len(), offsets[offsets.len() - 1]));
    }
}

/// Sampling reads nothing but the samples: two files that hold the same
/// bytes in every sampled block give the same sampled bytes, hence the same
/// digest. In particular one file and one list of offsets always give one
/// digest.
pub proof fn lemma_sampling_deterministic(first: Seq<u8>, second: Seq<u8>, offsets: Seq<u64>)
    requires
        forall|i: int|
            0 <= i < offsets.len() ==> sample_at(first, #[trigger] offsets[i]) == sample_at(
                second,
                offsets[i],
            ),
    ensures
        sampled_bytes(first, offsets) == sampled_bytes(second, offsets),
        sha256(sampled_bytes(first, offsets)) == sha256(sampled_bytes(second, offsets)),
    decreases offsets.len(),
{
    if offsets.len() > 0 {
        let head = offsets.drop_last();
        assert forall|i: int| 0 <= i < head.len() implies sample_at(first, #[trigger] head[i])
            == sample_at(second, head[i]) by {
            assert(head[i] == offsets[i]);
        }
        lemma_sampling_deterministic(first, second, head);
        assert(sample_at(first, offsets[offsets.len() - 1]) == sample_at(
            second,
            offsets[offsets.len() - 1],
        ));
    }
}

/// Hashes the samples of `data` at `sample_offsets`, in the order given.
///
/// `data` is the content of the encrypted file. A file shorter than one
/// sample is refused, and so is any offset whose sample would reach past
/// the end of the file.
pub fn sample_file(data: &[u8], sample_offsets: &[u64]) -> (result: Result<[u8; 32], SampleError>)
    requires
        sample_offsets@.len() < MAX_SAMPLE_OFFSETS,
    ensures
        match result {
            Ok(digest) => sample_outcome(data@, sample_offsets@) == Ok::<Seq<u8>, SampleError>(
                digest@,
            ),
            Err(e) => sample_outcome(data@, sample_offsets@) == Err::<Seq<u8>, SampleError>(e),
        },
{
    let mut hasher = Hasher::new();
    let file_len: usize = data.len();
    if file_len < HASH_BYTES {
        return Err(SampleError::FileTooShort);
    }
    let last_sample: usize = (file_len - HASH_BYTES) / HASH_BYTES;
    let mut i: usize = 0;
    while i < sample_offsets.len()
        invariant
            i <= sample_offsets@.len(),
            sample_offsets@.len() < MAX_SAMPLE_OFFSETS,
            file_len == data@.len(),
            file_len >= HASH_BYTES,
            last_sample == (file_len - HASH_BYTES) / (HASH_BYTES as int),
            offsets_in_file(data@.len(), sample_offsets@.take(i as int)),
            hasher@ == sampled_bytes(data@, sample_offsets@.take(i as int)),
            hasher@.len() == i * HASH_BYTES,
        decreases sample_offsets@.len() - i,
    {
        let offset: u64 = sample_offsets[i];
        if offset > last_sample as u64 {
            proof {
                assert(!offset_in_file(data@.len(), sample_offsets@[i as int]));
            }
            return Err(SampleError::OffsetTooLarge);
        }
        let start: usize = (offset as usize) * HASH_BYTES;
        let sample = slice_subrange(data, start, start + HASH_BYTES);
        hasher.hash(sample);
        proof {
            let next = sample_offsets@.take(i + 1);
            assert(next.drop_last() =~= sample_offsets@.take(i as int));
            assert(next.last() == offset);
            assert(sample@ == sample_at(data@, offset));
            assert forall|k: int| 0 <= k < next.len() implies offset_in_file(
                data@.len(),
                #[trigger] next[k],
            ) by {
                if k < i {
                    assert(next[k] == sample_offsets@.take(i as int)[k]);
                }
            }
        }
        i = i + 1;
    }
    proof {
        assert(sample_offsets@.take(i as int) =~= sample_offsets@);
    }
    Ok(hasher.result())
}

} // verus!
