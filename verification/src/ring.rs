//! A byte ring that carries length-prefixed packets from one core to the other.
//!
//! Packet framing: `[length : u16 little-endian][payload bytes]`.
//!
//! The write index counts the bytes ever stored and the read index the bytes
//! ever taken, both modulo 2^32. In a payload area of `size` bytes, the byte with
//! index `i` lies in slot `i % size`. Only the producer moves the write index and
//! only the consumer moves the read index.
use vstd::prelude::*;

verus! {

/// The number of values that an index can take.
pub const INDEX_SPAN: u64 = 0x1_0000_0000;

/// The longest payload whose length the two bytes before it can tell.
pub const MAX_PACKET_LEN: usize = 0xFFFF;

/// The two index words at the head of a ring buffer.
#[derive(Clone, Copy, Debug, PartialEq, Eq, Structural)]
pub struct RingHeader {
    /// Bytes ever stored, modulo 2^32.
    pub write_idx: u32,
    /// Bytes ever taken, modulo 2^32.
    pub read_idx: u32,
}

/// The index `n` bytes further on in the count of stored or taken bytes.
pub open spec fn advance(idx: u32, n: int) -> u32 {
    ((idx + n) % (INDEX_SPAN as int)) as u32
}

/// The slot of the byte whose index is `i`, counted without wrapping, in a
/// payload area of `size` bytes.
pub open spec fn slot(size: int, i: int) -> int {
    (i % (INDEX_SPAN as int)) % size
}

impl RingHeader {
    /// Bytes stored and not yet taken.
    pub open spec fn used(self) -> int {
        (self.write_idx - self.read_idx) % (INDEX_SPAN as int)
    }

    /// Bytes that a ring of `size` bytes can still store. On indices further apart
    /// than the ring is long the difference wraps.
    pub open spec fn free(self, size: int) -> int {
        (size - self.used()) % (INDEX_SPAN as int)
    }

    /// A payload of `len` bytes fits into a ring of `size` bytes with its length
    /// prefix.
    pub open spec fn has_room(self, size: int, len: int) -> bool {
        2 + len <= size && 2 + len <= self.free(size)
    }
}

/// The bytes that stand for a packet in the ring. The prefix holds the low 16 bits
/// of the length.
pub open spec fn frame(payload: Seq<u8>) -> Seq<u8> {
    seq![(payload.len() % 256) as u8, ((payload.len() / 256) % 256) as u8] + payload
}

/// The payload area after `bytes` went in, one after the other, from index `at` on.
pub open spec fn stored(data: Seq<u8>, at: int, bytes: Seq<u8>) -> Seq<u8>
    decreases bytes.len(),
{
    if bytes.len() == 0 {
        data
    } else {
        stored(data, at, bytes.drop_last()).update(
            slot(data.len() as int, at + bytes.len() - 1),
            bytes.last(),
        )
    }
}

/// The `n` bytes that lie in the payload area from index `at` on.
pub open spec fn loaded(data: Seq<u8>, at: int, n: int) -> Seq<u8> {
    Seq::new(n as nat, |i: int| data[slot(data.len() as int, at + i)])
}

/// The length prefix that lies at index `at`.
pub open spec fn prefix_at(data: Seq<u8>, at: int) -> int {
    data[slot(data.len() as int, at)] + 256 * data[slot(data.len() as int, at + 1)]
}

/// The ring after an attempt to put `payload` into it: the header words and the
/// payload area. A packet without room leaves both as they are.
pub open spec fn after_write(header: RingHeader, data: Seq<u8>, payload: Seq<u8>) -> (
    RingHeader,
    Seq<u8>,
) {
    if header.has_room(data.len() as int, payload.len() as int) {
        (
            RingHeader {
                write_idx: advance(header.write_idx, 2 + payload.len() as int),
                read_idx: header.read_idx,
            },
            stored(data, header.write_idx as int, frame(payload)),
        )
    } else {
        (header, data)
    }
}

/// The header words after an attempt to take a packet out. The payload area
/// stays as it is.
pub open spec fn after_read(header: RingHeader, data: Seq<u8>) -> RingHeader {
    if header.write_idx == header.read_idx {
        header
    } else {
        RingHeader {
            write_idx: header.write_idx,
            read_idx: advance(header.read_idx, 2 + prefix_at(data, header.read_idx as int)),
        }
    }
}

/// The packet that a reader gets who has room for `capacity` bytes: none if the
/// ring is empty or the oldest packet is longer than that.
pub open spec fn packet_read(header: RingHeader, data: Seq<u8>, capacity: int) -> Option<Seq<u8>> {
    let len = prefix_at(data, header.read_idx as int);
    if header.write_idx == header.read_idx || len > capacity {
        None
    } else {
        Some(loaded(data, header.read_idx + 2, len))
    }
}

proof fn lemma_stored_push(data: Seq<u8>, at: int, bytes: Seq<u8>, b: u8)
    ensures
        stored(data, at, bytes.push(b)) == stored(data, at, bytes).update(
            slot(data.len() as int, at + bytes.len()),
            b,
        ),
{
    assert(bytes.push(b).drop_last() =~= bytes);
}

impl RingHeader {
    /// Bytes that a ring of `size` bytes can still store.
    fn free_bytes(&self, size: u32) -> (free: u32)
        ensures
            free == self.free(size as int),
    {
        let used: u32 = self.write_idx.wrapping_sub(self.read_idx);
        size.wrapping_sub(used)
    }
}

/// Index `idx`, moved on by `n` bytes.
fn moved(idx: u32, n: u32) -> (next: u32)
    ensures
        next == advance(idx, n as int),
{
    idx.wrapping_add(n)
}

/// The slot, among `size`, of the byte `offset` places behind index `idx`.
fn slot_of(size: usize, idx: u32, offset: u32) -> (s: usize)
    requires
        size > 0,
    ensures
        s == slot(size as int, idx + offset),
        s < size,
{
    moved(idx, offset) as usize % size
}

/// Puts a packet into the ring whose payload area is `data`.
///
/// Returns `false`, and leaves the ring as it is, if the packet does not fit:
/// because it is longer than the ring, or because the ring is too full.
pub fn rb_write(header: &mut RingHeader, data: &mut [u8], payload: &[u8]) -> (written: bool)
    requires
        old(data)@.len() <= u32::MAX,
    ensures
        written == old(header).has_room(old(data)@.len() as int, payload@.len() as int),
        (*final(header), final(data)@) == after_write(*old(header), old(data)@, payload@),
{
    let size: usize = data.len();
    if size < 2 || payload.len() > size - 2 {
        return false;
    }
    let len: u32 = payload.len() as u32;
    let total: u32 = 2 + len;
    if header.free_bytes(size as u32) < total {
        return false;
    }
    let w: u32 = header.write_idx;
    let ghost bytes = frame(payload@);
    let ghost before = data@;
    let lo: u8 = (len % 256) as u8;
    let hi: u8 = ((len / 256) % 256) as u8;
    data[slot_of(size, w, 0)] = lo;
    data[slot_of(size, w, 1)] = hi;
    proof {
        assert(bytes.take(0) =~= Seq::<u8>::empty());
        assert(bytes.take(1) =~= bytes.take(0).push(lo));
        assert(bytes.take(2) =~= bytes.take(1).push(hi));
        lemma_stored_push(before, w as int, bytes.take(0), lo);
        lemma_stored_push(before, w as int, bytes.take(1), hi);
    }
    let mut i: u32 = 0;
    while i < len
        invariant
            i <= len,
            len == payload@.len(),
            2 + len <= size,
            size <= u32::MAX,
            size == before.len(),
            size == data@.len(),
            bytes == frame(payload@),
            data@ == stored(before, w as int, bytes.take(2 + i)),
        decreases len - i,
    {
        let b: u8 = payload[i as usize];
        data[slot_of(size, w, 2 + i)] = b;
        proof {
            assert(bytes.take(2 + i + 1) =~= bytes.take(2 + i).push(b));
            lemma_stored_push(before, w as int, bytes.take(2 + i), b);
        }
        i = i + 1;
    }
    assert(bytes.take(2 + len) =~= bytes);
    header.write_idx = moved(w, total);
    true
}

/// Takes the oldest packet out of the ring and copies it to the start of `out`.
///
/// Returns the packet's length, or `None` if the ring is empty. A packet longer
/// than `out` is taken out and dropped: the answer is `None` then too.
pub fn rb_read(header: &mut RingHeader, data: &[u8], out: &mut [u8]) -> (taken: Option<usize>)
    requires
        old(header).write_idx != old(header).read_idx ==> data@.len() > 0,
    ensures
        *final(header) == after_read(*old(header), data@),
        match packet_read(*old(header), data@, old(out)@.len() as int) {
            Some(packet) => {
                &&& taken == Some(packet.len() as usize)
                &&& packet.len() <= old(out)@.len()
                &&& final(out)@ == packet + old(out)@.skip(packet.len() as int)
            },
            None => taken is None && final(out)@ == old(out)@,
        },
{
    let w: u32 = header.write_idx;
    let r: u32 = header.read_idx;
    if w == r {
        return None;
    }
    let size: usize = data.len();
    let lo: u8 = data[slot_of(size, r, 0)];
    let hi: u8 = data[slot_of(size, r, 1)];
    let len: u32 = lo as u32 + 256 * hi as u32;
    if len as usize > out.len() {
        header.read_idx = moved(r, 2 + len);
        return None;
    }
    let ghost before = out@;
    let mut i: u32 = 0;
    while i < len
        invariant
            i <= len,
            len <= 0xFFFF,
            size > 0,
            size == data@.len(),
            len <= out@.len(),
            out@.len() == before.len(),
            forall|k: int| 0 <= k < i ==> out@[k] == data@[slot(size as int, r + 2 + k)],
            forall|k: int| i <= k < out@.len() ==> out@[k] == before[k],
        decreases len - i,
    {
        out[i as usize] = data[slot_of(size, r, 2 + i)];
        i = i + 1;
    }
    assert(out@ =~= loaded(data@, r + 2, len as int) + before.skip(len as int));
    header.read_idx = moved(r, 2 + len);
    Some(len as usize)
}

/// A slot is the index, wrapped to 32 bits, modulo the size of the payload area.
pub proof fn law_slot_of_an_index(size: int, i: int)
    requires
        size > 0,
    ensures
        slot(size, i) == (i % 0x1_0000_0000) % size,
        0 <= slot(size, i) < size,
{
}

/// The pending bytes lead from the read index to the write index, and the rest of
/// the ring is room: a payload fits exactly if its length and two more do.
pub proof fn law_room_is_what_is_not_pending(header: RingHeader, size: int, len: int)
    requires
        0 <= size <= u32::MAX,
        0 <= len,
    ensures
        0 <= header.used() < 0x1_0000_0000,
        (header.read_idx + header.used()) % 0x1_0000_0000 == header.write_idx,
        header.used() <= size ==> (header.has_room(size, len) <==> header.used() + 2 + len <= size),
        header.used() > size ==> (header.has_room(size, len) <==> 2 + len <= size && header.used()
            + 2 + len <= size + 0x1_0000_0000),
{
}

/// A write that has no room changes nothing. One that has room moves the write
/// index on by the payload and two bytes, and nothing else in the header words.
pub proof fn law_write_moves_the_write_index(header: RingHeader, data: Seq<u8>, payload: Seq<u8>)
    ensures
        !header.has_room(data.len() as int, payload.len() as int) ==> after_write(
            header,
            data,
            payload,
        ) == (header, data),
        header.has_room(data.len() as int, payload.len() as int) ==> after_write(
            header,
            data,
            payload,
        ).0.write_idx as int == (header.write_idx + 2 + payload.len()) % 0x1_0000_0000,
        after_write(header, data, payload).0.read_idx == header.read_idx,
{
}

/// A write stores the length, low byte first, and then the payload, byte for
/// byte, from the write index on. A byte stays unless a later one of the same
/// packet comes to lie in its slot.
pub proof fn law_write_stores_length_and_payload(
    header: RingHeader,
    data: Seq<u8>,
    payload: Seq<u8>,
    i: int,
)
    requires
        header.has_room(data.len() as int, payload.len() as int),
        0 <= i < 2 + payload.len(),
        forall|j: int|
            i < j < 2 + payload.len() ==> #[trigger] slot(data.len() as int, header.write_idx + j)
                != slot(data.len() as int, header.write_idx + i),
    ensures
        after_write(header, data, payload).1[slot(data.len() as int, header.write_idx + i)] == if i
            == 0 {
            (payload.len() % 256) as u8
        } else if i == 1 {
            ((payload.len() / 256) % 256) as u8
        } else {
            payload[i - 2]
        },
{
    lemma_stored_at(data, header.write_idx as int, frame(payload), i);
}

/// A write touches only the slots of the packet it stores, and does not change
/// how long the payload area is.
pub proof fn law_write_leaves_other_slots(
    header: RingHeader,
    data: Seq<u8>,
    payload: Seq<u8>,
    s: int,
)
    requires
        0 <= s < data.len(),
        forall|j: int|
            0 <= j < 2 + payload.len() ==> #[trigger] slot(data.len() as int, header.write_idx + j)
                != s,
    ensures
        after_write(header, data, payload).1.len() == data.len(),
        after_write(header, data, payload).1[s] == data[s],
{
    lemma_stored_elsewhere(data, header.write_idx as int, frame(payload), s);
}

proof fn lemma_stored_elsewhere(data: Seq<u8>, at: int, bytes: Seq<u8>, s: int)
    requires
        0 <= s < data.len(),
        forall|j: int| 0 <= j < bytes.len() ==> #[trigger] slot(data.len() as int, at + j) != s,
    ensures
        stored(data, at, bytes).len() == data.len(),
        stored(data, at, bytes)[s] == data[s],
    decreases bytes.len(),
{
    if bytes.len() != 0 {
        lemma_stored_elsewhere(data, at, bytes.drop_last(), s);
        let n = bytes.len() - 1;
        assert(at + n == at + bytes.len() - 1);
        assert(slot(data.len() as int, at + n) != s);
    }
}

proof fn lemma_stored_at(data: Seq<u8>, at: int, bytes: Seq<u8>, i: int)
    requires
        data.len() > 0,
        0 <= i < bytes.len(),
        forall|j: int|
            i < j < bytes.len() ==> #[trigger] slot(data.len() as int, at + j) != slot(
                data.len() as int,
                at + i,
            ),
    ensures
        stored(data, at, bytes).len() == data.len(),
        stored(data, at, bytes)[slot(data.len() as int, at + i)] == bytes[i],
    decreases bytes.len(),
{
    let size = data.len() as int;
    let n = bytes.len() - 1;
    assert(at + n == at + bytes.len() - 1);
    law_slot_of_an_index(size, at + i);
    if i == n {
        lemma_stored_keeps_len(data, at, bytes.drop_last());
    } else {
        lemma_stored_at(data, at, bytes.drop_last(), i);
        assert(slot(size, at + n) != slot(size, at + i));
    }
}

proof fn lemma_stored_keeps_len(data: Seq<u8>, at: int, bytes: Seq<u8>)
    requires
        data.len() > 0,
    ensures
        stored(data, at, bytes).len() == data.len(),
    decreases bytes.len(),
{
    if bytes.len() != 0 {
        lemma_stored_keeps_len(data, at, bytes.drop_last());
    }
}

/// A read from an empty ring changes nothing. Any other read moves the read index
/// behind the packet that starts there, whether or not the reader had room for it,
/// and nothing else in the header words.
pub proof fn law_read_moves_the_read_index(header: RingHeader, data: Seq<u8>)
    ensures
        header.write_idx == header.read_idx ==> after_read(header, data) == header,
        after_read(header, data).write_idx == header.write_idx,
        header.write_idx != header.read_idx ==> ({
            let size = data.len() as int;
            let len = data[slot(size, header.read_idx as int)] + 256 * data[slot(
                size,
                header.read_idx + 1,
            )];
            after_read(header, data).read_idx as int == (header.read_idx + 2 + len)
                % 0x1_0000_0000
        }),
{
}

/// A reader gets the bytes from behind the length on, as many as the length tells,
/// unless the ring is empty or that is more than it has room for.
pub proof fn law_read_loads_the_payload(header: RingHeader, data: Seq<u8>, capacity: int, i: int)
    ensures
        ({
            let size = data.len() as int;
            let len = data[slot(size, header.read_idx as int)] + 256 * data[slot(
                size,
                header.read_idx + 1,
            )];
            match packet_read(header, data, capacity) {
                None => header.write_idx == header.read_idx || len > capacity,
                Some(packet) => {
                    &&& header.write_idx != header.read_idx
                    &&& len <= capacity
                    &&& packet.len() == len
                    &&& 0 <= i < len ==> packet[i] == data[slot(size, header.read_idx + 2 + i)]
                },
            }
        }),
{
}

} // verus!
