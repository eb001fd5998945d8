//! Packets and batches of packets.

use crate::pinned_vec::PinnedVec;
use vstd::prelude::*;

verus! {

/// Most bytes of data in one packet.
pub const PACKET_DATA_SIZE: usize = 1232;

/// A socket address in plain values.
#[derive(Debug, Clone, Copy, PartialEq, Eq)]
pub enum Address {
    /// The four bytes of an IPv4 address, and the port.
    V4([u8; 4], u16),
    /// The sixteen bytes of an IPv6 address, and the port.
    V6([u8; 16], u16),
}

/// Most items that go into one batch made by `to_packets`.
pub const NUM_PACKETS: usize = 1024 * 8;

pub const PACKETS_PER_BATCH: usize = 256;

/// Number of packets that a fresh batch has room for.
pub const NUM_RCVMMSGS: usize = 128;

pub const PACKETS_BATCH_SIZE: usize = PACKETS_PER_BATCH * PACKET_DATA_SIZE;

/// What is known of a packet besides its data.
#[derive(Debug, Clone, Copy, PartialEq, Eq)]
pub struct Meta {
    /// Number of bytes of the data that are in use.
    pub size: usize,
    /// Where the packet goes to, or came from.
    pub addr: Option<Address>,
}

/// A packet: a fixed buffer of data, of which the first `meta.size` bytes
/// are in use.
#[derive(Debug, Clone, Copy, PartialEq, Eq)]
pub struct Packet {
    pub data: [u8; 1232],
    pub meta: Meta,
}

/// Whether `packet` carries `payload` to `dest`: the payload stands at the
/// front of the data, zeros follow it, and size and address are set.
pub open spec fn carries(packet: Packet, dest: Option<Address>, payload: Seq<u8>) -> bool {
    &&& packet.meta.size == payload.len()
    &&& packet.meta.addr == dest
    &&& payload.len() <= PACKET_DATA_SIZE
    &&& packet.data@.subrange(0, payload.len() as int) == payload
    &&& forall|i: int| payload.len() <= i < PACKET_DATA_SIZE ==> packet.data@[i] == 0u8
}

/// Whether `packet` is an empty packet without address.
pub open spec fn is_blank(packet: Packet) -> bool {
    carries(packet, None, Seq::<u8>::empty())
}

impl Packet {
    /// The packet that carries `payload` to `dest`.
    pub fn from_data(dest: Option<Address>, payload: &[u8]) -> (packet: Packet)
        requires
            payload@.len() <= PACKET_DATA_SIZE,
        ensures
            carries(packet, dest, payload@),
    {
        let mut data = [0u8; 1232];
        let mut i: usize = 0;
        while i < payload.len()
            invariant
                i <= payload@.len() <= PACKET_DATA_SIZE,
                forall|k: int| 0 <= k < i ==> data@[k] == payload@[k],
                forall|k: int| i <= k < PACKET_DATA_SIZE ==> data@[k] == 0u8,
            decreases payload@.len() - i,
        {
            data[i] = payload[i];
            i = i + 1;
        }
        proof {
            assert(data@.subrange(0, payload@.len() as int) =~= payload@);
        }
        Packet { data, meta: Meta { size: payload.len(), addr: dest } }
    }

    /// The bytes of the data that are in use, or `None` where the size is
    /// more than the data can be.
    pub fn payload(&self) -> (bytes: Option<&[u8]>)
        ensures
            bytes.is_some() == (self.meta.size <= PACKET_DATA_SIZE),
            bytes.is_some() ==> bytes.unwrap()@ == self.data@.subrange(0, self.meta.size as int),
    {
        if self.meta.size <= PACKET_DATA_SIZE {
            Some(vstd::slice::slice_subrange(self.data.as_slice(), 0, self.meta.size))
        } else {
            None
        }
    }

    /// Writes `payload` into the packet, and `dest` where one is given.
    /// A payload that is longer than a packet's data is refused, and the
    /// packet stays as it is.
    pub fn populate_packet(packet: &mut Packet, dest: Option<Address>, payload: &[u8]) -> (written:
        bool)
        ensures
            written == (payload@.len() <= PACKET_DATA_SIZE),
            !written ==> *final(packet) == *old(packet),
            written ==> {
                &&& final(packet).meta.size == payload@.len()
                &&& final(packet).meta.addr == (if dest.is_some() {
                    dest
                } else {
                    old(packet).meta.addr
                })
                &&& final(packet).data@.subrange(0, payload@.len() as int) == payload@
                &&& forall|i: int|
                    payload@.len() <= i < PACKET_DATA_SIZE ==> final(packet).data@[i] == old(
                        packet,
                    ).data@[i]
            },
    {
        if payload.len() > PACKET_DATA_SIZE {
            return false;
        }
        let mut data = packet.data;
        let mut i: usize = 0;
        while i < payload.len()
            invariant
                i <= payload@.len() <= PACKET_DATA_SIZE,
                forall|k: int| 0 <= k < i ==> data@[k] == payload@[k],
                forall|k: int| i <= k < PACKET_DATA_SIZE ==> data@[k] == old(packet).data@[k],
            decreases payload@.len() - i,
        {
            data[i] = payload[i];
            i = i + 1;
        }
        proof {
            assert(data@.subrange(0, payload@.len() as int) =~= payload@);
        }
        packet.data = data;
        packet.meta.size = payload.len();
        if dest.is_some() {
            packet.meta.addr = dest;
        }
        true
    }
}

impl Default for Packet {
    fn default() -> (packet: Packet)
        ensures
            is_blank(packet),
    {
        let packet = Packet { data: [0u8; 1232], meta: Meta { size: 0, addr: None } };
        proof {
            assert(packet.data@.subrange(0, 0) =~= Seq::<u8>::empty());
        }
        packet
    }
}

/// A batch of packets.
#[derive(Debug)]
pub struct Packets {
    pub packets: PinnedVec<Packet>,
}

impl Clone for Packets {
    /// A batch with the same packets, on a buffer with the same flags.
    fn clone(&self) -> (copy: Packets)
        ensures
            copy.packets@ == self.packets@,
            copy.packets.pinned() == self.packets.pinned(),
            copy.packets.pinnable() == self.packets.pinnable(),
            copy.packets.backend() == self.packets.backend(),
    {
        let copy = Packets { packets: self.packets.clone() };
        proof {
            assert(copy.packets@ =~= self.packets@);
        }
        copy
    }
}

impl Default for Packets {
    fn default() -> (batch: Packets)
        ensures
            batch.packets@ == Seq::<Packet>::empty(),
            !batch.packets.pinned(),
            !batch.packets.pinnable(),
            !batch.packets.backend(),
    {
        Packets { packets: PinnedVec::with_capacity(NUM_RCVMMSGS) }
    }
}

impl Packets {
    /// The batch of the packets given.
    pub fn new(packets: Vec<Packet>) -> (batch: Packets)
        ensures
            batch.packets@ == packets@,
            !batch.packets.pinned(),
            !batch.packets.pinnable(),
            !batch.packets.backend(),
    {
        Packets { packets: PinnedVec::from_vec(packets) }
    }

    /// The batch on a buffer taken from a recycler, with room for `size`
    /// packets and pinned.
    pub fn new_with_recycler(recycled: PinnedVec<Packet>, size: usize) -> (batch: Packets)
        ensures
            batch.packets@ == recycled@,
            batch.packets.pinned(),
            batch.packets.pinnable(),
            batch.packets.backend() == recycled.backend(),
    {
        let mut packets = recycled;
        packets.reserve_and_pin(size);
        Packets { packets }
    }

    /// Gives every packet of the batch the address `addr`.
    pub fn set_addr(&mut self, addr: Address)
        ensures
            final(self).packets@.len() == old(self).packets@.len(),
            forall|i: int|
                0 <= i < old(self).packets@.len() ==> {
                    &&& (#[trigger] final(self).packets@[i]).meta.addr == Some(addr)
                    &&& final(self).packets@[i].meta.size == old(self).packets@[i].meta.size
                    &&& final(self).packets@[i].data == old(self).packets@[i].data
                },
            final(self).packets.pinned() == old(self).packets.pinned(),
            final(self).packets.pinnable() == old(self).packets.pinnable(),
            final(self).packets.backend() == old(self).packets.backend(),
    {
        let mut i: usize = 0;
        while i < self.packets.len()
            invariant
                i <= self.packets@.len(),
                self.packets@.len() == old(self).packets@.len(),
                self.packets.pinned() == old(self).packets.pinned(),
                self.packets.pinnable() == old(self).packets.pinnable(),
                self.packets.backend() == old(self).packets.backend(),
                forall|k: int|
                    0 <= k < i ==> {
                        &&& (#[trigger] self.packets@[k]).meta.addr == Some(addr)
                        &&& self.packets@[k].meta.size == old(self).packets@[k].meta.size
                        &&& self.packets@[k].data == old(self).packets@[k].data
                    },
                forall|k: int|
                    i <= k < self.packets@.len() ==> self.packets@[k] == old(self).packets@[k],
            decreases self.packets@.len() - i,
        {
            let mut packet = *self.packets.get(i);
            packet.meta.addr = Some(addr);
            self.packets.set(i, packet);
            i = i + 1;
        }
    }

    /// Whether the batch holds no packet.
    pub fn is_empty(&self) -> (empty: bool)
        ensures
            empty == (self.packets@.len() == 0),
    {
        self.packets.is_empty()
    }

    /// Empties the batch.
    pub fn reset(&mut self)
        ensures
            final(self).packets@ == Seq::<Packet>::empty(),
            final(self).packets.pinnable() == old(self).packets.pinnable(),
            final(self).packets.backend() == old(self).packets.backend(),
            final(self).packets.pinned() ==> old(self).packets.pinned() || (old(
                self,
            ).packets.backend() && old(self).packets.pinnable()),
            old(self).packets.pinned() ==> final(self).packets.pinned(),
    {
        self.packets.resize(0, Packet::default());
        proof {
            assert(final(self).packets@ =~= Seq::<Packet>::empty());
        }
    }

    /// Marks the batch's buffer pinnable and makes it `size_hint` packets
    /// long: a longer one is cut, a shorter one is filled up with blank
    /// packets.
    pub fn warm(&mut self, size_hint: usize)
        ensures
            final(self).packets@.len() == size_hint,
            final(self).packets.pinnable(),
            final(self).packets.backend() == old(self).packets.backend(),
            final(self).packets.pinned() ==> old(self).packets.pinned() || old(
                self,
            ).packets.backend(),
            forall|i: int|
                0 <= i < size_hint && i < old(self).packets@.len() ==> final(self).packets@[i]
                    == old(self).packets@[i],
            forall|i: int|
                old(self).packets@.len() <= i < size_hint ==> is_blank(
                    #[trigger] final(self).packets@[i],
                ),
    {
        self.packets.set_pinnable();
        let ghost before = self.packets@;
        self.packets.truncate(size_hint);
        while self.packets.len() < size_hint
            invariant
                self.packets.pinnable(),
                self.packets.backend() == old(self).packets.backend(),
                self.packets.pinned() ==> old(self).packets.pinned() || old(self).packets.backend(),
                before == old(self).packets@,
                self.packets@.len() <= size_hint,
                self.packets@.len() >= before.len() || self.packets@.len() == size_hint,
                forall|i: int|
                    0 <= i < self.packets@.len() && i < before.len() ==> (
                    #[trigger] self.packets@[i]) == before[i],
                forall|i: int|
                    before.len() <= i < self.packets@.len() ==> is_blank(
                        #[trigger] self.packets@[i],
                    ),
            decreases size_hint - self.packets@.len(),
        {
            self.packets.push(Packet::default());
        }
    }
}

/// The number of packets in the batches before the `j`-th.
pub open spec fn packets_before(batches: Seq<Packets>, j: int) -> int
    decreases j,
{
    if j <= 0 {
        0
    } else {
        packets_before(batches, j - 1) + batches[j - 1].packets@.len()
    }
}

/// The place among all payloads of the one in packet `k` of batch `j`.
pub open spec fn payload_index(batches: Seq<Packets>, j: int, k: int) -> int {
    packets_before(batches, j) + k
}

/// Adding a batch changes nothing of the count before the batches there.
proof fn lemma_packets_before_push(batches: Seq<Packets>, batch: Packets, j: int)
    requires
        0 <= j <= batches.len(),
    ensures
        packets_before(batches.push(batch), j) == packets_before(batches, j),
    decreases j,
{
    if j > 0 {
        lemma_packets_before_push(batches, batch, j - 1);
        assert(batches.push(batch)[j - 1] == batches[j - 1]);
    }
}

/// Whether `batches` hold the payloads `xs` in batches of `chunks`: every
/// batch but the last holds `chunks` packets, the last at least one and at
/// most `chunks`, and the packets carry the payloads in their order,
/// without address.
pub open spec fn is_chunked(batches: Seq<Packets>, xs: Seq<Vec<u8>>, chunks: usize) -> bool {
    &&& packets_before(batches, batches.len() as int) == xs.len()
    &&& forall|j: int|
        0 <= j < batches.len() - 1 ==> (#[trigger] batches[j]).packets@.len() == chunks
    &&& batches.len() > 0 ==> 1 <= batches.last().packets@.len() <= chunks
    &&& forall|j: int, k: int|
        0 <= j < batches.len() && 0 <= k < batches[j].packets@.len() ==> {
            &&& 0 <= #[trigger] payload_index(batches, j, k) < xs.len()
            &&& carries(batches[j].packets@[k], None, xs[payload_index(batches, j, k)]@)
        }
}

/// Before batch `j` of batches that are all full lie `j * chunks` packets.
proof fn lemma_full_batches(batches: Seq<Packets>, chunks: usize, j: int)
    requires
        0 <= j <= batches.len(),
        forall|i: int| 0 <= i < j ==> (#[trigger] batches[i]).packets@.len() == chunks,
    ensures
        packets_before(batches, j) == j * chunks,
    decreases j,
{
    let c = chunks as int;
    if j > 0 {
        lemma_full_batches(batches, chunks, j - 1);
        assert(batches[j - 1].packets@.len() == chunks);
        assert(j * c == (j - 1) * c + c) by (nonlinear_arith);
    } else {
        assert(j * c == 0) by (nonlinear_arith)
            requires
                j == 0,
        ;
    }
}

/// Payloads in batches of `chunks` make as many batches as `chunks` goes
/// into their number, rounded up; none where there is no payload.
pub proof fn lemma_chunked_count(batches: Seq<Packets>, xs: Seq<Vec<u8>>, chunks: usize)
    requires
        chunks > 0,
        is_chunked(batches, xs, chunks),
    ensures
        batches.len() == (xs.len() + chunks - 1) / (chunks as int),
{
    let count = batches.len() as int;
    if count == 0 {
        assert(packets_before(batches, 0) == 0);
        vstd::arithmetic::div_mod::lemma_fundamental_div_mod_converse(
            xs.len() + chunks - 1,
            chunks as int,
            0,
            chunks - 1,
        );
    } else {
        lemma_full_batches(batches, chunks, count - 1);
        let last = batches.last().packets@.len() as int;
        let c = chunks as int;
        assert(packets_before(batches, count) == packets_before(batches, count - 1) + last);
        assert(count * c == (count - 1) * c + c) by (nonlinear_arith);
        vstd::arithmetic::div_mod::lemma_fundamental_div_mod_converse(
            xs.len() + chunks - 1,
            chunks as int,
            count,
            last - 1,
        );
    }
}

/// Puts the payloads into packets, `chunks` to a batch.
pub fn to_packets_chunked(xs: &[Vec<u8>], chunks: usize) -> (batches: Vec<Packets>)
    requires
        chunks > 0,
        forall|i: int| 0 <= i < xs@.len() ==> (#[trigger] xs@[i])@.len() <= PACKET_DATA_SIZE,
    ensures
        is_chunked(batches@, xs@, chunks),
{
    let n: usize = xs.len();
    let mut out: Vec<Packets> = Vec::new();
    let mut start: usize = 0;
    while start < n
        invariant
            chunks > 0,
            n == xs@.len(),
            start <= n,
            forall|i: int| 0 <= i < xs@.len() ==> (#[trigger] xs@[i])@.len() <= PACKET_DATA_SIZE,
            packets_before(out@, out@.len() as int) == start,
            forall|j: int|
                0 <= j < out@.len() - 1 ==> (#[trigger] out@[j]).packets@.len() == chunks,
            out@.len() > 0 ==> 1 <= out@.last().packets@.len() <= chunks,
            start < n && out@.len() > 0 ==> out@.last().packets@.len() == chunks,
            forall|j: int, k: int|
                0 <= j < out@.len() && 0 <= k < out@[j].packets@.len() ==> {
                    &&& 0 <= #[trigger] payload_index(out@, j, k) < xs@.len()
                    &&& carries(out@[j].packets@[k], None, xs@[payload_index(out@, j, k)]@)
                },
        decreases n - start,
    {
        let end: usize = if n - start > chunks {
            start + chunks
        } else {
            n
        };
        let mut p = Packets::default();
        let mut i: usize = start;
        while i < end
            invariant
                start <= i <= end <= n,
                n == xs@.len(),
                forall|t: int| 0 <= t < xs@.len() ==> (#[trigger] xs@[t])@.len() <= PACKET_DATA_SIZE,
                p.packets@.len() == i - start,
                forall|k: int|
                    0 <= k < i - start ==> carries(
                        #[trigger] p.packets@[k],
                        None,
                        xs@[start + k]@,
                    ),
            decreases end - i,
        {
            let packet = Packet::from_data(None, xs[i].as_slice());
            p.packets.push(packet);
            i = i + 1;
        }
        let ghost before = out@;
        let ghost batch = p;
        out.push(p);
        proof {
            let after = out@;
            let p = batch;
            assert(after == before.push(p));
            assert forall|j: int| 0 <= j <= before.len() implies packets_before(after, j)
                == packets_before(before, j) by {
                lemma_packets_before_push(before, p, j);
            }
            assert(after[before.len() as int] == p);
            assert(packets_before(after, after.len() as int) == end);
            assert forall|j: int, k: int|
                0 <= j < after.len() && 0 <= k < after[j].packets@.len() implies {
                &&& 0 <= #[trigger] payload_index(after, j, k) < xs@.len()
                &&& carries(after[j].packets@[k], None, xs@[payload_index(after, j, k)]@)
            } by {
                if j < before.len() {
                    assert(after[j] == before[j]);
                    assert(payload_index(after, j, k) == payload_index(before, j, k));
                } else {
                    assert(after[j] == p);
                    assert(payload_index(after, j, k) == start + k);
                    assert(carries(p.packets@[k], None, xs@[start + k]@));
                }
            }
            assert forall|j: int| 0 <= j < after.len() - 1 implies (#[trigger] after[j]).packets@.len()
                == chunks by {
                assert(after[j] == before[j]);
            }
        }
        start = end;
    }
    out
}

/// Puts the payloads into packets, `NUM_PACKETS` to a batch.
pub fn to_packets(xs: &[Vec<u8>]) -> (batches: Vec<Packets>)
    requires
        forall|i: int| 0 <= i < xs@.len() ==> (#[trigger] xs@[i])@.len() <= PACKET_DATA_SIZE,
    ensures
        is_chunked(batches@, xs@, NUM_PACKETS),
{
    to_packets_chunked(xs, NUM_PACKETS)
}

/// Puts each payload into a packet for its destination, all in one batch.
/// A payload that is longer than a packet's data is skipped: its packet
/// stays blank.
pub fn to_packets_with_destination(dests_and_data: &[(Address, Vec<u8>)]) -> (batch: Packets)
    ensures
        batch.packets@.len() == dests_and_data@.len(),
        forall|i: int|
            0 <= i < dests_and_data@.len() ==> (if dests_and_data@[i].1@.len()
                <= PACKET_DATA_SIZE {
                carries(
                    #[trigger] batch.packets@[i],
                    Some(dests_and_data@[i].0),
                    dests_and_data@[i].1@,
                )
            } else {
                is_blank(batch.packets@[i])
            }),
{
    let mut out = Packets::default();
    let mut i: usize = 0;
    while i < dests_and_data.len()
        invariant
            i <= dests_and_data@.len(),
            out.packets@.len() == i,
            forall|k: int|
                0 <= k < i ==> (if dests_and_data@[k].1@.len() <= PACKET_DATA_SIZE {
                    carries(
                        #[trigger] out.packets@[k],
                        Some(dests_and_data@[k].0),
                        dests_and_data@[k].1@,
                    )
                } else {
                    is_blank(out.packets@[k])
                }),
        decreases dests_and_data@.len() - i,
    {
        let item = &dests_and_data[i];
        let packet = if item.1.len() <= PACKET_DATA_SIZE {
            Packet::from_data(Some(item.0), item.1.as_slice())
        } else {
            Packet::default()
        };
        out.packets.push(packet);
        i = i + 1;
    }
    out
}

} // verus!
