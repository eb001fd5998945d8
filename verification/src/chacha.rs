//! Encrypting a segment: the shreds' payloads are joined, filled up with
//! zeros to whole cipher blocks, and run through the chained cipher.
//!
//! The cipher works on blocks of 64 bytes. Each block is combined with the
//! cipher block before it, the first with the initial chaining block, and
//! then with the keystream block.

use vstd::prelude::*;

verus! {

/// Number of bytes in one cipher block.
pub const CHACHA_BLOCK_SIZE: usize = 64;

/// Why a segment could not be encrypted.
#[derive(Debug, Clone, Copy, PartialEq, Eq)]
pub enum EncryptError {
    /// The padded segment would be longer than memory can hold.
    TooLarge,
}

/// The length that `len` bytes have once they are filled up to whole
/// blocks.
pub open spec fn padded_len(len: nat) -> nat {
    ((len + 63) / 64) * 64
}

/// `data` followed by as many zeros as fill its last block.
pub open spec fn padded(data: Seq<u8>) -> Seq<u8> {
    data + Seq::new((padded_len(data.len()) - data.len()) as nat, |i: int| 0u8)
}

/// The payloads one after the other.
pub open spec fn joined(payloads: Seq<Vec<u8>>) -> Seq<u8>
    decreases payloads.len(),
{
    if payloads.len() == 0 {
        Seq::<u8>::empty()
    } else {
        joined(payloads.drop_last()) + payloads.last()@
    }
}

/// Block `k` of the plain text.
pub open spec fn plain_block(input: Seq<u8>, k: int) -> Seq<u8> {
    input.subrange(k * 64, k * 64 + 64)
}

/// One block of the cipher: the plain block combined with the chaining
/// block and the keystream block, byte by byte.
pub open spec fn cbc_block(block: Seq<u8>, chain: Seq<u8>, keystream: Seq<u8>) -> Seq<u8> {
    Seq::new(64, |i: int| block[i] ^ chain[i] ^ keystream[i])
}

/// The chaining block after `k` blocks: `ivec` before the first, and the
/// cipher block last written after that.
pub open spec fn chain_block(input: Seq<u8>, ivec: Seq<u8>, keystream: Seq<u8>, k: nat) -> Seq<u8>
    decreases k,
{
    if k == 0 {
        ivec
    } else {
        cbc_block(
            plain_block(input, k - 1),
            chain_block(input, ivec, keystream, (k - 1) as nat),
            keystream,
        )
    }
}

/// Whether `output` is the encryption of `input`: as long as it, and block
/// by block what the chain gives.
pub open spec fn is_encryption(
    output: Seq<u8>,
    input: Seq<u8>,
    ivec: Seq<u8>,
    keystream: Seq<u8>,
) -> bool {
    &&& output.len() == input.len()
    &&& forall|k: int|
        0 <= k < input.len() / 64 ==> #[trigger] plain_block(output, k) == chain_block(
            input,
            ivec,
            keystream,
            (k + 1) as nat,
        )
}

/// The chaining block that block `k` of an encryption was made with: the
/// initial one for the first block, and the cipher block before it for
/// every other.
pub open spec fn chain_before(output: Seq<u8>, ivec: Seq<u8>, k: int) -> Seq<u8> {
    if k == 0 {
        ivec
    } else {
        plain_block(output, k - 1)
    }
}

/// Combining twice with the same chaining and keystream blocks gives the
/// block back.
pub proof fn lemma_cbc_block_inverts(block: Seq<u8>, chain: Seq<u8>, keystream: Seq<u8>)
    requires
        block.len() == 64,
    ensures
        cbc_block(cbc_block(block, chain, keystream), chain, keystream) == block,
{
    let twice = cbc_block(cbc_block(block, chain, keystream), chain, keystream);
    assert forall|i: int| 0 <= i < 64 implies twice[i] == block[i] by {
        let a = block[i];
        let b = chain[i];
        let c = keystream[i];
        assert((a ^ b ^ c) ^ b ^ c == a) by (bit_vector);
    }
    assert(twice =~= block);
}

/// Encryption loses nothing: each block of the plain text is had back from
/// its cipher block, the cipher block before it (the initial chaining block
/// for the first) and the keystream block.
pub proof fn lemma_encryption_inverts(
    output: Seq<u8>,
    input: Seq<u8>,
    ivec: Seq<u8>,
    keystream: Seq<u8>,
    k: int,
)
    requires
        is_encryption(output, input, ivec, keystream),
        0 <= k < input.len() / 64,
    ensures
        plain_block(input, k) == cbc_block(
            plain_block(output, k),
            chain_before(output, ivec, k),
            keystream,
        ),
{
    let chain = chain_block(input, ivec, keystream, k as nat);
    assert(plain_block(output, k) == chain_block(input, ivec, keystream, (k + 1) as nat));
    assert(plain_block(output, k) == cbc_block(plain_block(input, k), chain, keystream));
    if k > 0 {
        assert(plain_block(output, k - 1) == chain_block(input, ivec, keystream, k as nat));
    }
    assert(chain == chain_before(output, ivec, k));
    lemma_cbc_block_inverts(plain_block(input, k), chain, keystream);
}

/// Padding gives whole blocks, keeps the data in front and adds less than
/// one block.
pub proof fn lemma_padded_len(len: nat)
    ensures
        padded_len(len) % 64 == 0,
        len <= padded_len(len) < len + 64,
        len % 64 == 0 ==> padded_len(len) == len,
{
}

/// The payloads before the `i`-th are no longer than all of them.
pub proof fn lemma_joined_prefix(payloads: Seq<Vec<u8>>, i: int)
    requires
        0 <= i <= payloads.len(),
    ensures
        joined(payloads.take(i)).len() <= joined(payloads).len(),
    decreases payloads.len() - i,
{
    if i < payloads.len() {
        lemma_joined_prefix(payloads, i + 1);
        assert(payloads.take(i + 1).drop_last() =~= payloads.take(i));
    } else {
        assert(payloads.take(i) =~= payloads);
    }
}

/// Encrypts `input`, a number of whole blocks, and leaves the last cipher
/// block in `ivec` for the next call.
pub fn chacha_cbc_encrypt(input: &[u8], keystream: &[u8; 64], ivec: &mut [u8; 64]) -> (output: Vec<
    u8,
>)
    requires
        input@.len() % 64 == 0,
    ensures
        is_encryption(output@, input@, old(ivec)@, keystream@),
        final(ivec)@ == chain_block(
            input@,
            old(ivec)@,
            keystream@,
            (input@.len() / 64) as nat,
        ),
{
    let len: usize = input.len();
    let blocks: usize = len / 64;
    let mut output: Vec<u8> = Vec::new();
    let mut k: usize = 0;
    while k < blocks
        invariant
            k <= blocks,
            len == input@.len(),
            blocks == input@.len() / 64,
            input@.len() % 64 == 0,
            output@.len() == k * 64,
            ivec@ == chain_block(input@, old(ivec)@, keystream@, k as nat),
            forall|j: int|
                0 <= j < k ==> #[trigger] plain_block(output@, j) == chain_block(
                    input@,
                    old(ivec)@,
                    keystream@,
                    (j + 1) as nat,
                ),
        decreases blocks - k,
    {
        let ghost done = output@;
        let ghost chain = ivec@;
        let mut block = [0u8; 64];
        let mut i: usize = 0;
        while i < 64
            invariant
                i <= 64,
                k < blocks,
                blocks == input@.len() / 64,
                input@.len() % 64 == 0,
                len == input@.len(),
                k * 64 + 64 <= len,
                done.len() == k * 64,
                output@.len() == k * 64 + i,
                output@.subrange(0, k * 64) == done,
                ivec@ == chain,
                forall|t: int|
                    0 <= t < i ==> output@[k * 64 + t] == input@[k * 64 + t] ^ chain[t]
                        ^ keystream@[t],
                forall|t: int| 0 <= t < i ==> block@[t] == output@[k * 64 + t],
            decreases 64 - i,
        {
            let c: u8 = input[k * 64 + i] ^ ivec[i] ^ keystream[i];
            output.push(c);
            block[i] = c;
            proof {
                assert(output@.subrange(0, k * 64) =~= done);
            }
            i = i + 1;
        }
        *ivec = block;
        proof {
            let next = cbc_block(plain_block(input@, k as int), chain, keystream@);
            assert(plain_block(output@, k as int) =~= next);
            assert(ivec@ =~= next);
            assert forall|j: int| 0 <= j < k + 1 implies #[trigger] plain_block(output@, j)
                == chain_block(input@, old(ivec)@, keystream@, (j + 1) as nat) by {
                if j < k {
                    assert(plain_block(output@, j) =~= plain_block(done, j));
                }
            }
        }
        k = k + 1;
    }
    output
}

/// Fills `data` up with zeros to whole blocks.
pub fn pad_to_block(data: &mut Vec<u8>)
    requires
        old(data)@.len() + 63 <= usize::MAX,
    ensures
        final(data)@ == padded(old(data)@),
        final(data)@.len() == padded_len(old(data)@.len()),
        final(data)@.len() % 64 == 0,
{
    let len: usize = data.len();
    let target: usize = (len + 63) / 64 * 64;
    while data.len() < target
        invariant
            len == old(data)@.len(),
            target == padded_len(len as nat),
            len <= data@.len() <= target,
            data@.subrange(0, len as int) == old(data)@,
            forall|i: int| len <= i < data@.len() ==> data@[i] == 0u8,
        decreases target - data@.len(),
    {
        let ghost before = data@;
        data.push(0u8);
        proof {
            assert(data@.subrange(0, len as int) =~= before.subrange(0, len as int));
        }
    }
    proof {
        assert(data@ =~= padded(old(data)@));
    }
}

/// Joins the payloads, in their order.
pub fn join_payloads(payloads: &Vec<Vec<u8>>) -> (result: Result<Vec<u8>, EncryptError>)
    ensures
        match result {
            Ok(data) => data@ == joined(payloads@) && data@.len() + 63 <= usize::MAX,
            Err(e) => joined(payloads@).len() + 63 > usize::MAX,
        },
{
    let mut data: Vec<u8> = Vec::new();
    let mut i: usize = 0;
    while i < payloads.len()
        invariant
            i <= payloads@.len(),
            data@ == joined(payloads@.take(i as int)),
            data@.len() + 63 <= usize::MAX,
        decreases payloads@.len() - i,
    {
        let payload = &payloads[i];
        proof {
            assert(payloads@.take(i + 1).drop_last() =~= payloads@.take(i as int));
            lemma_joined_prefix(payloads@, i + 1);
        }
        if payload.len() > usize::MAX - 63 - data.len() {
            return Err(EncryptError::TooLarge);
        }
        data.extend_from_slice(payload.as_slice());
        i = i + 1;
    }
    proof {
        assert(payloads@.take(i as int) =~= payloads@);
    }
    Ok(data)
}

/// Encrypts a segment: the payloads of its shreds, in slot order, are
/// joined, filled up with zeros to whole blocks and encrypted with the
/// signature as the initial chaining block. The bytes returned are the
/// encrypted file; their number is a multiple of the block size.
pub fn encrypt_ledger(signature: &[u8; 64], payloads: &Vec<Vec<u8>>, keystream: &[u8; 64]) -> (result:
    Result<Vec<u8>, EncryptError>)
    ensures
        match result {
            Ok(encrypted) => {
                &&& joined(payloads@).len() + 63 <= usize::MAX
                &&& is_encryption(encrypted@, padded(joined(payloads@)), signature@, keystream@)
                &&& encrypted@.len() == padded_len(joined(payloads@).len())
                &&& encrypted@.len() % 64 == 0
            },
            Err(e) => joined(payloads@).len() + 63 > usize::MAX,
        },
{
    match join_payloads(payloads) {
        Err(e) => Err(e),
        Ok(data) => {
            let mut data = data;
            pad_to_block(&mut data);
            let mut ivec: [u8; 64] = *signature;
            Ok(chacha_cbc_encrypt(data.as_slice(), keystream, &mut ivec))
        },
    }
}

/// The number of whole cipher blocks in `num_encrypted_bytes` bytes.
pub fn num_chacha_blocks(num_encrypted_bytes: usize) -> (blocks: usize)
    ensures
        blocks == num_encrypted_bytes / 64,
{
    num_encrypted_bytes / CHACHA_BLOCK_SIZE
}

} // verus!
