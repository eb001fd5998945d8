use archiver::chacha::{
    chacha_cbc_encrypt, encrypt_ledger, join_payloads, num_chacha_blocks, pad_to_block,
    CHACHA_BLOCK_SIZE,
};
use archiver::packet::{
    to_packets, to_packets_chunked, to_packets_with_destination, Address, Meta, Packet, Packets,
    NUM_PACKETS, NUM_RCVMMSGS,
};
use archiver::pinned_vec::{pin_after_growth, unpin_before_growth, PinnedVec};

#[test]
fn test_pinned_vec() {
    let mut mem = PinnedVec::with_capacity(10);
    mem.set_pinnable();
    mem.push(50);
    mem.resize(2, 10);
    assert_eq!(mem[0], 50);
    assert_eq!(mem[1], 10);
    assert_eq!(mem.len(), 2);
    assert_eq!(mem.is_empty(), false);
    let mut iter = mem.iter();
    assert_eq!(*iter.next().unwrap(), 50);
    assert_eq!(*iter.next().unwrap(), 10);
    assert_eq!(iter.next(), None);
}

fn round_trip(backend: bool, pinnable: bool, reserve: bool) -> Vec<u32> {
    let mut mem: PinnedVec<u32> = PinnedVec::with_capacity(1);
    mem.set_backend(backend);
    if pinnable {
        mem.set_pinnable();
    }
    if reserve {
        mem.reserve_and_pin(4);
    }
    for i in 0..100u32 {
        mem.push(i);
    }
    mem.resize(150, 7);
    mem.resize(120, 9);
    mem.append(&mut vec![1000, 1001]);
    let mut other = PinnedVec::from_vec(vec![2000, 2001]);
    mem.append_pinned(&mut other);
    assert!(other.is_empty());
    mem.truncate(123);
    mem.set(0, 5);
    let mut out = Vec::new();
    let mut iter = mem.iter();
    while let Some(item) = iter.next() {
        out.push(*item);
    }
    assert_eq!(out.len(), mem.len());
    for (i, item) in out.iter().enumerate() {
        assert_eq!(mem[i], *item);
        assert_eq!(mem.get(i), item);
    }
    out
}

#[test]
fn pinned_vec_contents_do_not_depend_on_pinning() {
    let mut expected: Vec<u32> = (0..100).collect();
    expected[0] = 5;
    expected.extend(std::iter::repeat(7).take(20));
    expected.extend([1000, 1001, 2000]);
    for backend in [false, true] {
        for pinnable in [false, true] {
            for reserve in [false, true] {
                assert_eq!(round_trip(backend, pinnable, reserve), expected);
            }
        }
    }
}

#[test]
fn pinned_vec_flags() {
    let mut mem: PinnedVec<u8> = PinnedVec::from_vec(vec![1, 2, 3]);
    assert!(!mem.is_pinned());
    assert!(!mem.is_pinnable());
    mem.set_pinnable();
    assert!(mem.is_pinnable());
    assert!(!mem.is_pinned());
    // without a backend growth never pins
    for i in 0..100 {
        mem.push(i);
    }
    assert!(!mem.is_pinned());
    mem.reserve_and_pin(1000);
    assert!(mem.is_pinned());
    assert!(mem.is_pinnable());
    assert_eq!(mem.len(), 103);
    // growth within the capacity leaves the buffer pinned
    mem.push(0);
    assert!(mem.is_pinned());
    // growth past the capacity unpins it, and without a backend it stays so
    mem.resize(100_000, 0);
    assert!(!mem.is_pinned());

    let mut mem: PinnedVec<u8> = PinnedVec::new();
    mem.set_backend(true);
    mem.push(1);
    assert!(!mem.is_pinned());
    mem.set_pinnable();
    mem.resize(10_000, 0);
    assert!(mem.is_pinned());
    let copy = mem.clone();
    assert!(copy.is_pinned());
    assert!(copy.is_pinnable());
    assert_eq!(copy.len(), 10_000);
    assert_eq!(copy[0], 1);

    let blank: PinnedVec<u8> = PinnedVec::default();
    assert!(blank.is_empty());
    assert!(!blank.is_pinned());
}

#[test]
fn pinning_decisions() {
    assert!(unpin_before_growth(true, 4, 5));
    assert!(!unpin_before_growth(true, 5, 5));
    assert!(!unpin_before_growth(false, 4, 5));
    assert!(pin_after_growth(true, true, 4, 8));
    assert!(!pin_after_growth(true, true, 8, 8));
    assert!(!pin_after_growth(false, true, 4, 8));
    assert!(!pin_after_growth(true, false, 4, 8));
}

#[test]
fn pinned_vec_shuffle_keeps_the_elements() {
    let mut mem: PinnedVec<u32> = PinnedVec::from_vec((0..200).collect());
    mem.shuffle();
    let mut out = Vec::new();
    let mut iter = mem.iter();
    while let Some(item) = iter.next() {
        out.push(*item);
    }
    assert_ne!(out, (0..200).collect::<Vec<u32>>());
    out.sort();
    assert_eq!(out, (0..200).collect::<Vec<u32>>());
}

#[test]
fn test_packets_reset() {
    let mut packets = Packets::default();
    packets.packets.resize(10, Packet::default());
    assert_eq!(packets.packets.len(), 10);
    packets.reset();
    assert_eq!(packets.packets.len(), 0);
}

#[test]
fn test_to_packets() {
    let tx: Vec<u8> = vec![1; 32];
    let rv = to_packets(&vec![tx.clone(); 1]);
    assert_eq!(rv.len(), 1);
    assert_eq!(rv[0].packets.len(), 1);

    let rv = to_packets(&vec![tx.clone(); NUM_PACKETS]);
    assert_eq!(rv.len(), 1);
    assert_eq!(rv[0].packets.len(), NUM_PACKETS);

    let rv = to_packets(&vec![tx.clone(); NUM_PACKETS + 1]);
    assert_eq!(rv.len(), 2);
    assert_eq!(rv[0].packets.len(), NUM_PACKETS);
    assert_eq!(rv[1].packets.len(), 1);
}

#[test]
fn packets_carry_their_payloads_in_order() {
    let payloads: Vec<Vec<u8>> = (0..7u8).map(|i| vec![i; i as usize + 1]).collect();
    let batches = to_packets_chunked(&payloads, 3);
    assert_eq!(batches.len(), 3);
    assert_eq!(batches[0].packets.len(), 3);
    assert_eq!(batches[1].packets.len(), 3);
    assert_eq!(batches[2].packets.len(), 1);
    let mut seen = 0;
    for batch in &batches {
        for k in 0..batch.packets.len() {
            let packet = batch.packets[k];
            let payload = &payloads[seen];
            assert_eq!(packet.meta.size, payload.len());
            assert_eq!(&packet.data[..payload.len()], &payload[..]);
            assert!(packet.data[payload.len()..].iter().all(|b| *b == 0));
            assert_eq!(packet.meta.addr, None);
            seen += 1;
        }
    }
    assert_eq!(seen, 7);
    assert!(to_packets_chunked(&[], 3).is_empty());
    assert_eq!(to_packets_chunked(&payloads, 7).len(), 1);
    assert_eq!(to_packets_chunked(&payloads, 100).len(), 1);
    assert_eq!(to_packets_chunked(&payloads, 1).len(), 7);
}

#[test]
fn packets_with_destination() {
    let a = Address::V4([10, 0, 0, 1], 80);
    let b = Address::V6([2u8; 16], 443);
    let batch = to_packets_with_destination(&[
        (a, vec![1, 2, 3]),
        (b, vec![9u8; 1233]),
        (b, vec![4u8; 1232]),
    ]);
    assert_eq!(batch.packets.len(), 3);
    assert_eq!(batch.packets[0].meta.addr, Some(a));
    assert_eq!(batch.packets[0].meta.size, 3);
    assert_eq!(&batch.packets[0].data[..4], &[1, 2, 3, 0]);
    // too long for a packet: skipped
    assert_eq!(batch.packets[1], Packet::default());
    assert_eq!(batch.packets[2].meta.addr, Some(b));
    assert_eq!(batch.packets[2].meta.size, 1232);
    assert_eq!(batch.packets[2].data, [4u8; 1232]);
}

#[test]
fn packet_batches() {
    let blank = Packet::default();
    assert_eq!(blank.meta.size, 0);
    assert_eq!(blank.meta.addr, None);
    assert_eq!(blank.data, [0u8; 1232]);

    let mut batch = Packets::new(vec![blank, Packet::from_data(None, &[1, 2])]);
    assert!(!batch.is_empty());
    let to = Address::V4([1, 2, 3, 4], 5);
    batch.set_addr(to);
    assert_eq!(batch.packets[0].meta.addr, Some(to));
    assert_eq!(batch.packets[1].meta.addr, Some(to));
    assert_eq!(batch.packets[1].meta.size, 2);
    assert_eq!(&batch.packets[1].data[..2], &[1, 2]);

    batch.warm(4);
    assert_eq!(batch.packets.len(), 4);
    assert!(batch.packets.is_pinnable());
    assert_eq!(batch.packets[1].meta.size, 2);
    assert_eq!(batch.packets[3], Packet::default());
    batch.warm(1);
    assert_eq!(batch.packets.len(), 1);
    batch.reset();
    assert!(batch.is_empty());
    assert!(Packets::default().is_empty());
    assert_eq!(NUM_RCVMMSGS, 128);

    let recycled = Packets::new_with_recycler(PinnedVec::from_vec(vec![blank]), 64);
    assert_eq!(recycled.packets.len(), 1);
    assert!(recycled.packets.is_pinned());
    assert!(recycled.packets.is_pinnable());

    assert_eq!(Packet::from_data(None, &[1, 2]).payload().unwrap(), &[1, 2]);
    assert_eq!(blank.payload().unwrap(), &[0u8; 0]);
    let broken = Packet { data: [0u8; 1232], meta: Meta { size: 1233, addr: None } };
    assert!(broken.payload().is_none());

    let mut packet = Packet::from_data(Some(to), &[7, 7, 7]);
    assert!(!Packet::populate_packet(&mut packet, None, &[0u8; 1233]));
    assert_eq!(packet, Packet::from_data(Some(to), &[7, 7, 7]));
    assert!(Packet::populate_packet(&mut packet, None, &[1]));
    assert_eq!(packet.meta.size, 1);
    assert_eq!(packet.meta.addr, Some(to));
    assert_eq!(&packet.data[..4], &[1, 7, 7, 0]);
}

#[test]
fn encryption_output_is_whole_blocks() {
    let keystream = [0x5Au8; 64];
    let signature = [0xC3u8; 64];
    for len in [0usize, 1, 63, 64, 65, 127, 128, 129, 1000, 4096] {
        let payloads = vec![vec![7u8; len / 2], vec![], vec![8u8; len - len / 2]];
        let encrypted = encrypt_ledger(&signature, &payloads, &keystream).unwrap();
        assert_eq!(encrypted.len() % CHACHA_BLOCK_SIZE, 0);
        assert_eq!(encrypted.len(), (len + 63) / 64 * 64);
        assert_eq!(num_chacha_blocks(encrypted.len()) * 64, encrypted.len());
    }
    assert_eq!(num_chacha_blocks(130), 2);
}

#[test]
fn encryption_chains_the_blocks() {
    let keystream: [u8; 64] = core::array::from_fn(|i| i as u8);
    let signature: [u8; 64] = core::array::from_fn(|i| 255 - i as u8);
    let payloads = vec![vec![0x11u8; 70], vec![0x22u8; 30]];
    let encrypted = encrypt_ledger(&signature, &payloads, &keystream).unwrap();
    assert_eq!(encrypted.len(), 128);
    let mut plain = vec![0x11u8; 70];
    plain.extend(vec![0x22u8; 30]);
    plain.resize(128, 0);
    for i in 0..64 {
        assert_eq!(encrypted[i], plain[i] ^ signature[i] ^ keystream[i]);
        assert_eq!(encrypted[64 + i], plain[64 + i] ^ encrypted[i] ^ keystream[i]);
    }
    assert_eq!(encrypted[0], 0x11 ^ 255 ^ 0);
    assert_eq!(encrypted[64], 0x11 ^ encrypted[0] ^ 0);
    assert_ne!(&encrypted[..], &plain[..]);
    // the same segment under another signature encrypts otherwise
    let other = encrypt_ledger(&[0u8; 64], &payloads, &keystream).unwrap();
    assert_ne!(other, encrypted);
    assert_eq!(encrypt_ledger(&signature, &payloads, &keystream).unwrap(), encrypted);
}

#[test]
fn cbc_leaves_the_last_block_as_chain() {
    let keystream = [1u8; 64];
    let mut ivec = [2u8; 64];
    let out = chacha_cbc_encrypt(&[4u8; 128], &keystream, &mut ivec);
    assert_eq!(&out[..64], &[4 ^ 2 ^ 1u8; 64][..]);
    assert_eq!(&out[64..], &[4 ^ (4 ^ 2 ^ 1) ^ 1u8; 64][..]);
    assert_eq!(&ivec[..], &out[64..]);
    let mut untouched = [9u8; 64];
    assert!(chacha_cbc_encrypt(&[], &keystream, &mut untouched).is_empty());
    assert_eq!(untouched, [9u8; 64]);
}

#[test]
fn payloads_are_joined_and_padded() {
    let joined = join_payloads(&vec![vec![1, 2], vec![], vec![3]]).unwrap();
    assert_eq!(joined, vec![1, 2, 3]);
    let mut data = joined;
    pad_to_block(&mut data);
    assert_eq!(data.len(), 64);
    assert_eq!(&data[..3], &[1, 2, 3]);
    assert!(data[3..].iter().all(|b| *b == 0));
    let mut whole = vec![5u8; 64];
    pad_to_block(&mut whole);
    assert_eq!(whole, vec![5u8; 64]);
    let mut empty: Vec<u8> = Vec::new();
    pad_to_block(&mut empty);
    assert!(empty.is_empty());
}

#[test]
fn pinned_vec_reset_and_warm() {
    let mut mem: PinnedVec<u16> = PinnedVec::from_vec(vec![1, 2, 3]);
    mem.warm(5);
    assert!(mem.is_pinnable());
    assert_eq!(mem.as_slice(), &[1, 2, 3, 0, 0]);
    mem.warm(2);
    assert_eq!(mem.as_slice(), &[1, 2]);
    mem.reset();
    assert!(mem.is_empty());
    assert!(mem.is_pinnable());
}

#[test]
fn packets_clone_keeps_the_packets() {
    let batch = Packets::new(vec![Packet::from_data(None, &[1, 2, 3]), Packet::default()]);
    let copy = batch.clone();
    assert_eq!(copy.packets.as_slice(), batch.packets.as_slice());
    assert_eq!(copy.packets.len(), 2);
}

#[test]
fn batches_count_is_rounded_up() {
    let payloads: Vec<Vec<u8>> = (0..10u8).map(|i| vec![i]).collect();
    for chunks in 1..=12usize {
        let batches = to_packets_chunked(&payloads, chunks);
        assert_eq!(batches.len(), (10 + chunks - 1) / chunks);
        let total: usize = batches.iter().map(|b| b.packets.len()).sum();
        assert_eq!(total, 10);
    }
}
