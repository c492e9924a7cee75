//! The ring buffer as a queue of packets, and what holds of it.
use vstd::arithmetic::div_mod::{
    lemma_add_mod_noop, lemma_fundamental_div_mod, lemma_fundamental_div_mod_converse,
    lemma_mod_equivalence, lemma_small_mod,
};
use vstd::prelude::*;

use crate::ring;
use crate::ring::{RingHeader, INDEX_SPAN, MAX_PACKET_LEN};

verus! {

/// The bytes that stand for `packets`, the oldest first.
pub open spec fn frames(packets: Seq<Seq<u8>>) -> Seq<u8>
    decreases packets.len(),
{
    if packets.len() == 0 {
        Seq::empty()
    } else {
        ring::frame(packets.first()) + frames(packets.drop_first())
    }
}

/// The ring holds exactly `packets`, the oldest first.
pub open spec fn holds(header: RingHeader, data: Seq<u8>, packets: Seq<Seq<u8>>) -> bool {
    &&& data.len() <= u32::MAX
    &&& frames(packets).len() <= data.len()
    &&& header.used() == frames(packets).len()
    &&& ring::loaded(data, header.read_idx as int, header.used()) == frames(packets)
    &&& forall|i: int| 0 <= i < packets.len() ==> (#[trigger] packets[i]).len() <= MAX_PACKET_LEN
}

/// Wherever two of the bytes `content`, laid out from index `at` on in a ring of
/// `size` bytes, share a slot, they are the same byte.
pub open spec fn undisturbed(size: int, at: int, content: Seq<u8>) -> bool {
    forall|i: int, j: int|
        0 <= i < j < content.len() && #[trigger] ring::slot(size, at + i)
            == #[trigger] ring::slot(size, at + j) ==> content[i] == content[j]
}

/// In a ring of `size` bytes, no two of the `n` bytes from index `at` on share a
/// slot.
pub open spec fn slots_distinct(size: int, at: int, n: int) -> bool {
    forall|i: int, j: int|
        0 <= i < j < n ==> #[trigger] ring::slot(size, at + i) != #[trigger] ring::slot(
            size,
            at + j,
        )
}

proof fn lemma_frames_push(packets: Seq<Seq<u8>>, payload: Seq<u8>)
    ensures
        frames(packets.push(payload)) == frames(packets) + ring::frame(payload),
    decreases packets.len(),
{
    if packets.len() == 0 {
        reveal_with_fuel(frames, 2);
        assert(packets.push(payload).drop_first() =~= Seq::<Seq<u8>>::empty());
        assert(frames(packets.push(payload)) =~= frames(packets) + ring::frame(payload));
    } else {
        assert(packets.push(payload).drop_first() =~= packets.drop_first().push(payload));
        lemma_frames_push(packets.drop_first(), payload);
        assert(frames(packets.push(payload)) =~= frames(packets) + ring::frame(payload));
    }
}

proof fn lemma_frames_empty(packets: Seq<Seq<u8>>)
    ensures
        packets.len() > 0 ==> frames(packets).len() >= 2,
        frames(packets).len() == 0 <==> packets.len() == 0,
{
}

/// Storing `bytes` behind bytes that lie undisturbed leaves all of them in place,
/// the old and the new.
proof fn lemma_store_behind(data: Seq<u8>, at: int, old_bytes: Seq<u8>, bytes: Seq<u8>)
    requires
        data.len() > 0,
        ring::loaded(data, at, old_bytes.len() as int) == old_bytes,
        undisturbed(data.len() as int, at, old_bytes + bytes),
    ensures
        ring::stored(data, at + old_bytes.len(), bytes).len() == data.len(),
        ring::loaded(
            ring::stored(data, at + old_bytes.len(), bytes),
            at,
            (old_bytes + bytes).len() as int,
        ) == old_bytes + bytes,
    decreases bytes.len(),
{
    let all = old_bytes + bytes;
    let size = data.len() as int;
    if bytes.len() == 0 {
        assert(all =~= old_bytes);
    } else {
        let less = bytes.drop_last();
        assert forall|i: int, j: int|
            0 <= i < j < (old_bytes + less).len() && #[trigger] ring::slot(size, at + i)
                == #[trigger] ring::slot(size, at + j) implies (old_bytes + less)[i] == (old_bytes
            + less)[j] by {
            assert(all[i] == all[j]);
        }
        lemma_store_behind(data, at, old_bytes, less);
        let mid = ring::stored(data, at + old_bytes.len(), less);
        let end = ring::stored(data, at + old_bytes.len(), bytes);
        let n = all.len() - 1;
        let s = ring::slot(size, at + n);
        assert(end == mid.update(s, bytes.last()));
        assert forall|i: int| 0 <= i < all.len() implies end[#[trigger] ring::slot(
            size,
            at + i,
        )] == all[i] by {
            if i < n {
                assert(ring::loaded(mid, at, n)[i] == (old_bytes + less)[i]);
                if ring::slot(size, at + i) == s {
                    assert(all[i] == all[n]);
                }
            }
        }
        assert(ring::loaded(end, at, all.len() as int) =~= all);
    }
}

/// The room that a ring has left is what its packets do not take up: a payload
/// fits exactly if it and its two prefix bytes do.
pub proof fn law_room(header: RingHeader, data: Seq<u8>, packets: Seq<Seq<u8>>, len: int)
    requires
        holds(header, data, packets),
        0 <= len,
    ensures
        header.has_room(data.len() as int, len) <==> frames(packets).len() + 2 + len <= data.len(),
{
}

/// A packet that is put in stands last in the queue, and the packets before it
/// are as they were. This is so exactly if no byte of the queue is stored over
/// another one that differs from it.
pub proof fn law_write(header: RingHeader, data: Seq<u8>, packets: Seq<Seq<u8>>, payload: Seq<u8>)
    requires
        holds(header, data, packets),
        header.has_room(data.len() as int, payload.len() as int),
        payload.len() <= MAX_PACKET_LEN,
    ensures
        ({
            let (header2, data2) = ring::after_write(header, data, payload);
            holds(header2, data2, packets.push(payload)) <==> undisturbed(
                data.len() as int,
                header.read_idx as int,
                frames(packets.push(payload)),
            )
        }),
{
    let (header2, data2) = ring::after_write(header, data, payload);
    let r = header.read_idx as int;
    let old_bytes = frames(packets);
    let bytes = ring::frame(payload);
    let all = old_bytes + bytes;
    lemma_frames_push(packets, payload);
    lemma_write_moves(header, data.len() as int, payload.len() as int);
    lemma_same_slots(header.write_idx as int, r + old_bytes.len(), data, bytes);
    if undisturbed(data.len() as int, r, all) {
        lemma_store_behind(data, r, old_bytes, bytes);
    }
    lemma_stored_len(data, header.write_idx as int, bytes);
    if holds(header2, data2, packets.push(payload)) {
        lemma_loaded_is_undisturbed(data2, r, all);
    }
}

/// Storing bytes leaves the payload area as long as it is.
proof fn lemma_stored_len(data: Seq<u8>, at: int, bytes: Seq<u8>)
    requires
        data.len() > 0,
    ensures
        ring::stored(data, at, bytes).len() == data.len(),
    decreases bytes.len(),
{
    if bytes.len() != 0 {
        lemma_stored_len(data, at, bytes.drop_last());
    }
}

/// What lies in the ring is undisturbed.
proof fn lemma_loaded_is_undisturbed(data: Seq<u8>, at: int, content: Seq<u8>)
    requires
        ring::loaded(data, at, content.len() as int) == content,
    ensures
        undisturbed(data.len() as int, at, content),
{
    let size = data.len() as int;
    let l = ring::loaded(data, at, content.len() as int);
    assert forall|i: int, j: int|
        0 <= i < j < content.len() && #[trigger] ring::slot(size, at + i)
            == #[trigger] ring::slot(size, at + j) implies content[i] == content[j] by {
        assert(l[i] == content[i]);
        assert(l[j] == content[j]);
    }
}

/// How a write moves the header words of a ring that is not overfull.
proof fn lemma_write_moves(header: RingHeader, size: int, len: int)
    requires
        header.used() <= size <= u32::MAX,
        0 <= len,
        header.has_room(size, len),
    ensures
        header.used() + 2 + len <= size,
        header.write_idx as int % (INDEX_SPAN as int) == (header.read_idx + header.used()) % (
        INDEX_SPAN as int),
        (RingHeader {
            write_idx: ring::advance(header.write_idx, 2 + len),
            read_idx: header.read_idx,
        }).used() == header.used() + 2 + len,
{
}

/// Indices that are equal modulo 2^32 name the same slots.
proof fn lemma_same_slots(at1: int, at2: int, data: Seq<u8>, bytes: Seq<u8>)
    requires
        at1 % (INDEX_SPAN as int) == at2 % (INDEX_SPAN as int),
    ensures
        ring::stored(data, at1, bytes) == ring::stored(data, at2, bytes),
    decreases bytes.len(),
{
    if bytes.len() != 0 {
        lemma_same_slots(at1, at2, data, bytes.drop_last());
        let k = bytes.len() - 1;
        lemma_add_mod_noop(at1, k, INDEX_SPAN as int);
        lemma_add_mod_noop(at2, k, INDEX_SPAN as int);
        assert(ring::slot(data.len() as int, at1 + k) == ring::slot(data.len() as int, at2 + k));
    }
}

/// The oldest packet lies at the read index, its length before it.
proof fn lemma_first_packet(header: RingHeader, data: Seq<u8>, packets: Seq<Seq<u8>>)
    requires
        holds(header, data, packets),
        packets.len() > 0,
    ensures
        ring::prefix_at(data, header.read_idx as int) == packets.first().len(),
        ring::loaded(data, header.read_idx + 2, packets.first().len() as int) == packets.first(),
{
    let r = header.read_idx as int;
    let first = packets.first();
    let all = frames(packets);
    let l = ring::loaded(data, r, header.used());
    assert(packets[0].len() <= MAX_PACKET_LEN);
    assert(l[0] == all[0] && l[1] == all[1]);
    assert(all[0] == (first.len() % 256) as u8);
    assert(all[1] == ((first.len() / 256) % 256) as u8);
    assert forall|i: int| 0 <= i < first.len() implies #[trigger] ring::loaded(
        data,
        r + 2,
        first.len() as int,
    )[i] == first[i] by {
        assert(l[2 + i] == all[2 + i]);
        assert(r + 2 + i == r + (2 + i));
    }
    assert(ring::loaded(data, r + 2, first.len() as int) =~= first);
}

/// A byte has the same slot, counted from an index that was moved on or from
/// where the index stood before.
proof fn lemma_slot_moved(size: int, idx: u32, n: int, i: int)
    ensures
        ring::slot(size, ring::advance(idx, n) + i) == ring::slot(size, idx + (n + i)),
{
    let span = INDEX_SPAN as int;
    lemma_add_mod_noop(ring::advance(idx, n) as int, i, span);
    lemma_add_mod_noop(idx + n, i, span);
    assert(idx + n + i == idx + (n + i));
}

/// How a read moves the header words.
proof fn lemma_read_moves(header: RingHeader, n: int)
    requires
        0 <= n <= header.used(),
    ensures
        (RingHeader {
            write_idx: header.write_idx,
            read_idx: ring::advance(header.read_idx, n),
        }).used() == header.used() - n,
{
}

/// The other packets lie where the oldest one ends.
proof fn lemma_other_packets(header: RingHeader, data: Seq<u8>, packets: Seq<Seq<u8>>)
    requires
        holds(header, data, packets),
        packets.len() > 0,
    ensures
        ({
            let n = 2 + packets.first().len() as int;
            let header2 = RingHeader {
                write_idx: header.write_idx,
                read_idx: ring::advance(header.read_idx, n),
            };
            &&& header2.used() == header.used() - n
            &&& ring::loaded(data, header2.read_idx as int, header.used() - n) == frames(
                packets.drop_first(),
            )
        }),
{
    let r = header.read_idx as int;
    let n = 2 + packets.first().len() as int;
    let r2 = ring::advance(header.read_idx, n) as int;
    let rest = frames(packets.drop_first());
    let all = frames(packets);
    let l = ring::loaded(data, r, header.used());
    assert(all.len() == n + rest.len());
    lemma_read_moves(header, n);
    assert forall|i: int| 0 <= i < rest.len() implies #[trigger] ring::loaded(
        data,
        r2,
        header.used() - n,
    )[i] == rest[i] by {
        assert(l[n + i] == all[n + i]);
        lemma_slot_moved(data.len() as int, header.read_idx, n, i);
    }
    assert(ring::loaded(data, r2, header.used() - n) =~= rest);
}

/// The ring is empty exactly if it holds no packet. Otherwise a reader with
/// enough room gets the oldest packet, and whether or not the reader had the
/// room, the ring then holds the other packets.
pub proof fn law_read(header: RingHeader, data: Seq<u8>, packets: Seq<Seq<u8>>, capacity: int)
    requires
        holds(header, data, packets),
    ensures
        packets.len() == 0 <==> header.write_idx == header.read_idx,
        packets.len() == 0 ==> ring::after_read(header, data) == header,
        packets.len() == 0 ==> ring::packet_read(header, data, capacity) is None,
        packets.len() > 0 ==> ring::prefix_at(data, header.read_idx as int)
            == packets.first().len(),
        packets.len() > 0 ==> holds(
            ring::after_read(header, data),
            data,
            packets.drop_first(),
        ),
        packets.len() > 0 ==> ring::packet_read(header, data, capacity) == if packets.first().len()
            <= capacity {
            Some(packets.first())
        } else {
            None
        },
{
    lemma_frames_empty(packets);
    if packets.len() > 0 {
        lemma_first_packet(header, data, packets);
        lemma_other_packets(header, data, packets);
        assert forall|i: int| 0 <= i < packets.drop_first().len() implies (
        #[trigger] packets.drop_first()[i]).len() <= MAX_PACKET_LEN by {
            assert(packets[i + 1].len() <= MAX_PACKET_LEN);
        }
    }
}

/// Each side moves its own index: a write leaves the read index alone, and a read
/// the write index.
pub proof fn law_each_side_moves_its_own_index(
    header: RingHeader,
    data: Seq<u8>,
    payload: Seq<u8>,
)
    ensures
        ring::after_write(header, data, payload).0.read_idx == header.read_idx,
        ring::after_read(header, data).write_idx == header.write_idx,
{
}

/// A consumer that has not yet seen the new write index finds the queue as it
/// was, at every moment of the write: with the first `k` bytes of the new packet's
/// frame stored behind it, for any `k` up to the whole frame.
pub proof fn law_unseen_write_keeps_the_queue(
    header: RingHeader,
    data: Seq<u8>,
    packets: Seq<Seq<u8>>,
    payload: Seq<u8>,
    k: int,
)
    requires
        holds(header, data, packets),
        header.has_room(data.len() as int, payload.len() as int),
        payload.len() <= MAX_PACKET_LEN,
        undisturbed(data.len() as int, header.read_idx as int, frames(packets.push(payload))),
        0 <= k <= 2 + payload.len(),
    ensures
        holds(
            header,
            ring::stored(data, header.write_idx as int, ring::frame(payload).take(k)),
            packets,
        ),
        k == 2 + payload.len() ==> ring::stored(
            data,
            header.write_idx as int,
            ring::frame(payload).take(k),
        ) == ring::after_write(header, data, payload).1,
{
    let size = data.len() as int;
    let r = header.read_idx as int;
    let old_bytes = frames(packets);
    let bytes = ring::frame(payload).take(k);
    let part = old_bytes + bytes;
    let all = frames(packets.push(payload));
    lemma_frames_push(packets, payload);
    lemma_write_moves(header, size, payload.len() as int);
    lemma_same_slots(header.write_idx as int, r + old_bytes.len(), data, bytes);
    assert forall|i: int, j: int|
        0 <= i < j < part.len() && #[trigger] ring::slot(size, r + i) == #[trigger] ring::slot(
            size,
            r + j,
        ) implies part[i] == part[j] by {
        assert(all[i] == all[j]);
    }
    lemma_store_behind(data, r, old_bytes, bytes);
    let data2 = ring::stored(data, header.write_idx as int, bytes);
    assert forall|i: int| 0 <= i < header.used() implies #[trigger] ring::loaded(
        data2,
        r,
        header.used(),
    )[i] == old_bytes[i] by {
        assert(ring::loaded(data2, r, part.len() as int)[i] == part[i]);
    }
    assert(ring::loaded(data2, r, header.used()) =~= old_bytes);
    if k == 2 + payload.len() {
        assert(bytes =~= ring::frame(payload));
    }
}

/// A producer that has not yet seen the new read index is only the more careful:
/// what fits before a packet is taken out also fits after it.
pub proof fn law_unseen_read_leaves_room(
    header: RingHeader,
    data: Seq<u8>,
    packets: Seq<Seq<u8>>,
    len: int,
)
    requires
        holds(header, data, packets),
        0 <= len,
        header.has_room(data.len() as int, len),
    ensures
        ring::after_read(header, data).has_room(data.len() as int, len),
{
    law_read(header, data, packets, 0);
    if packets.len() > 0 {
        law_room(header, data, packets, len);
        law_room(ring::after_read(header, data), data, packets.drop_first(), len);
    }
}

/// The bytes from index `at` on have slots of their own as long as the count
/// does not wrap among them, or the wrap falls on the end of a round, or they are
/// no more than the slots that the last round before the wrap takes up.
pub proof fn law_slots_distinct(size: int, at: u32, n: int)
    requires
        0 < size <= INDEX_SPAN,
        0 <= n <= size,
    ensures
        slots_distinct(size, at as int, n) <==> at + n <= INDEX_SPAN || INDEX_SPAN as int % size
            == 0 || n <= INDEX_SPAN as int % size,
{
    let m = INDEX_SPAN as int % size;
    let p = INDEX_SPAN - at;
    if at + n <= INDEX_SPAN || m == 0 || n <= m {
        assert forall|i: int, j: int| 0 <= i < j < n implies #[trigger] ring::slot(size, at + i)
            != #[trigger] ring::slot(size, at + j) by {
            lemma_slot(size, at + i);
            lemma_slot(size, at + j);
            if at + j < INDEX_SPAN {
                lemma_mod_equivalence(at + j, at + i, size);
                lemma_small_mod((j - i) as nat, size as nat);
            } else if at + i < INDEX_SPAN {
                lemma_slot_before_wrap(size, p - i);
            }
        }
    } else if p > m {
        // A round ends at the wrap: the bytes at the end of it and behind it meet in slot 0.
        lemma_slot_before_wrap(size, m);
        lemma_slot(size, at + p);
        assert(ring::slot(size, at + (p - m)) == ring::slot(size, at + p));
    } else {
        // The first byte lies in a slot that a byte behind the wrap takes too.
        lemma_slot_before_wrap(size, p);
        lemma_slot(size, at + m);
        assert(ring::slot(size, at + 0) == ring::slot(size, at + m));
    }
}

/// Slots before and behind the point where the count wraps.
proof fn lemma_slot(size: int, i: int)
    requires
        0 < size <= INDEX_SPAN,
        0 <= i < INDEX_SPAN + size,
    ensures
        i < INDEX_SPAN ==> ring::slot(size, i) == i % size,
        i >= INDEX_SPAN ==> ring::slot(size, i) == i - INDEX_SPAN,
{
    assert(ring::slot(size, i) == (i % 0x1_0000_0000) % size);
    if i >= INDEX_SPAN {
        lemma_small_mod((i - INDEX_SPAN) as nat, size as nat);
    }
}

/// The slot of the byte `k` places before the point where the count wraps.
proof fn lemma_slot_before_wrap(size: int, k: int)
    requires
        0 < size <= INDEX_SPAN,
        1 <= k <= size,
    ensures
        ring::slot(size, INDEX_SPAN - k) == if k <= INDEX_SPAN as int % size {
            INDEX_SPAN as int % size - k
        } else {
            size + INDEX_SPAN as int % size - k
        },
{
    let span = INDEX_SPAN as int;
    let m = span % size;
    let q = span / size;
    lemma_slot(size, span - k);
    lemma_fundamental_div_mod(span, size);
    assert(q * size == size * q) by (nonlinear_arith);
    if k <= m {
        lemma_fundamental_div_mod_converse(span - k, size, q, m - k);
    } else {
        assert((q - 1) * size == q * size - size) by (nonlinear_arith);
        lemma_fundamental_div_mod_converse(span - k, size, q - 1, size + m - k);
    }
}

/// Bytes in slots of their own are undisturbed, whatever they are.
pub proof fn law_distinct_slots_are_undisturbed(size: int, at: int, content: Seq<u8>)
    requires
        slots_distinct(size, at, content.len() as int),
    ensures
        undisturbed(size, at, content),
{
}

/// Bytes before the point where the count wraps are undisturbed.
proof fn lemma_undisturbed_before_wrap(size: int, at: u32, content: Seq<u8>)
    requires
        content.len() <= size <= u32::MAX,
        at + content.len() <= INDEX_SPAN,
    ensures
        undisturbed(size, at as int, content),
{
    if content.len() > 0 {
        law_slots_distinct(size, at, content.len() as int);
        law_distinct_slots_are_undisturbed(size, at as int, content);
    }
}

/// The read index is not beyond the write index, and no further behind it than
/// the ring is long.
pub open spec fn in_step(header: RingHeader, size: int) -> bool {
    header.read_idx <= header.write_idx <= header.read_idx + size
}

/// A write keeps the ring whole: as long as the write index does not reach the
/// end of its range, no pending byte is overwritten, and the packet is appended
/// if it has room. The pending bytes are still those between the two indices.
pub proof fn law_write_keeps_the_ring_whole(
    header: RingHeader,
    data: Seq<u8>,
    packets: Seq<Seq<u8>>,
    payload: Seq<u8>,
)
    requires
        holds(header, data, packets),
        in_step(header, data.len() as int),
        header.write_idx + 2 + payload.len() <= u32::MAX,
        payload.len() <= MAX_PACKET_LEN,
    ensures
        ({
            let (header2, data2) = ring::after_write(header, data, payload);
            &&& holds(
                header2,
                data2,
                if header.has_room(data.len() as int, payload.len() as int) {
                    packets.push(payload)
                } else {
                    packets
                },
            )
            &&& in_step(header2, data.len() as int)
        }),
{
    let size = data.len() as int;
    if header.has_room(size, payload.len() as int) {
        lemma_write_moves(header, size, payload.len() as int);
        lemma_unwrapped_is_undisturbed(header, data, packets, payload);
        law_write(header, data, packets, payload);
    }
}

/// Without a wrap no byte of the queue meets another one in its slot.
proof fn lemma_unwrapped_is_undisturbed(
    header: RingHeader,
    data: Seq<u8>,
    packets: Seq<Seq<u8>>,
    payload: Seq<u8>,
)
    requires
        holds(header, data, packets),
        header.read_idx <= header.write_idx,
        header.write_idx + 2 + payload.len() <= u32::MAX,
        header.used() + 2 + payload.len() <= data.len(),
    ensures
        undisturbed(
            data.len() as int,
            header.read_idx as int,
            frames(packets.push(payload)),
        ),
{
    lemma_frames_push(packets, payload);
    lemma_undisturbed_before_wrap(
        data.len() as int,
        header.read_idx,
        frames(packets.push(payload)),
    );
}

/// A read keeps the ring whole: the oldest packet goes, if there is one, and the
/// others stay. The pending bytes are still those between the two indices.
pub proof fn law_read_keeps_the_ring_whole(
    header: RingHeader,
    data: Seq<u8>,
    packets: Seq<Seq<u8>>,
)
    requires
        holds(header, data, packets),
        in_step(header, data.len() as int),
    ensures
        holds(
            ring::after_read(header, data),
            data,
            if packets.len() > 0 {
                packets.drop_first()
            } else {
                packets
            },
        ),
        in_step(ring::after_read(header, data), data.len() as int),
{
    law_read(header, data, packets, 0);
    if packets.len() > 0 {
        let n = 2 + packets.first().len();
        assert(frames(packets).len() == n + frames(packets.drop_first()).len());
        assert(header.used() == header.write_idx - header.read_idx);
        assert(ring::after_read(header, data).read_idx == header.read_idx + n);
    }
}

/// What is put into an empty ring is what comes out of it, wherever in the ring
/// the indices stand: a payload that the ring is long enough for is taken in, a
/// reader with room for it gets it byte for byte, and the ring is empty again.
/// Only where the count wraps among its bytes must none of them share a slot with
/// one that differs from it.
pub proof fn law_read_returns_what_was_written(
    header: RingHeader,
    data: Seq<u8>,
    payload: Seq<u8>,
    capacity: int,
)
    requires
        header.write_idx == header.read_idx,
        2 + payload.len() <= data.len() <= u32::MAX,
        payload.len() <= MAX_PACKET_LEN,
        payload.len() <= capacity,
        header.write_idx + 2 + payload.len() <= INDEX_SPAN || undisturbed(
            data.len() as int,
            header.write_idx as int,
            ring::frame(payload),
        ),
    ensures
        ({
            let (header2, data2) = ring::after_write(header, data, payload);
            let end = ring::advance(header.write_idx, 2 + payload.len() as int);
            &&& header.has_room(data.len() as int, payload.len() as int)
            &&& holds(header2, data2, seq![payload])
            &&& ring::packet_read(header2, data2, capacity) == Some(payload)
            &&& ring::after_read(header2, data2) == (RingHeader { write_idx: end, read_idx: end })
            &&& holds(ring::after_read(header2, data2), data2, Seq::empty())
        }),
{
    let at = header.read_idx;
    let none = Seq::<Seq<u8>>::empty();
    let one = none.push(payload);
    let bytes = ring::frame(payload);
    let (header2, data2) = ring::after_write(header, data, payload);
    assert(ring::loaded(data, at as int, 0) =~= Seq::<u8>::empty());
    assert(holds(header, data, none));
    lemma_frames_push(none, payload);
    assert(frames(one) =~= bytes);
    assert(one =~= seq![payload]);
    if at + bytes.len() <= INDEX_SPAN {
        lemma_undisturbed_before_wrap(data.len() as int, at, bytes);
    }
    law_room(header, data, none, payload.len() as int);
    law_write(header, data, none, payload);
    law_read(header2, data2, one, capacity);
    assert(one.drop_first() =~= none);
    law_read(ring::after_read(header2, data2), data2, none, capacity);
}

/// One operation on a ring.
pub enum RingOp {
    /// Put a packet in.
    Write(Seq<u8>),
    /// Take the oldest packet out.
    Read,
}

/// The ring after one operation.
pub open spec fn step(header: RingHeader, data: Seq<u8>, op: RingOp) -> (RingHeader, Seq<u8>) {
    match op {
        RingOp::Write(payload) => ring::after_write(header, data, payload),
        RingOp::Read => (ring::after_read(header, data), data),
    }
}

/// The ring after `ops`, one after the other.
pub open spec fn run(header: RingHeader, data: Seq<u8>, ops: Seq<RingOp>) -> (RingHeader, Seq<u8>)
    decreases ops.len(),
{
    if ops.len() == 0 {
        (header, data)
    } else {
        let (header1, data1) = run(header, data, ops.drop_last());
        step(header1, data1, ops.last())
    }
}

/// A queue of `packets` in a ring of `size` bytes takes in `payload`.
pub open spec fn fits(size: int, packets: Seq<Seq<u8>>, payload: Seq<u8>) -> bool {
    frames(packets).len() + 2 + payload.len() <= size
}

/// The queue after one operation.
pub open spec fn queue_step(size: int, packets: Seq<Seq<u8>>, op: RingOp) -> Seq<Seq<u8>> {
    match op {
        RingOp::Write(payload) => if fits(size, packets, payload) {
            packets.push(payload)
        } else {
            packets
        },
        RingOp::Read => if packets.len() > 0 {
            packets.drop_first()
        } else {
            packets
        },
    }
}

/// The queue after `ops`, one after the other.
pub open spec fn queue_run(size: int, packets: Seq<Seq<u8>>, ops: Seq<RingOp>) -> Seq<Seq<u8>>
    decreases ops.len(),
{
    if ops.len() == 0 {
        packets
    } else {
        queue_step(size, queue_run(size, packets, ops.drop_last()), ops.last())
    }
}

/// The packets that `ops` put in, in that order.
pub open spec fn accepted(size: int, packets: Seq<Seq<u8>>, ops: Seq<RingOp>) -> Seq<Seq<u8>>
    decreases ops.len(),
{
    if ops.len() == 0 {
        Seq::empty()
    } else {
        let before = accepted(size, packets, ops.drop_last());
        match ops.last() {
            RingOp::Write(payload) => if fits(
                size,
                queue_run(size, packets, ops.drop_last()),
                payload,
            ) {
                before.push(payload)
            } else {
                before
            },
            RingOp::Read => before,
        }
    }
}

/// The packets that `ops` take out, in that order.
pub open spec fn removed(size: int, packets: Seq<Seq<u8>>, ops: Seq<RingOp>) -> Seq<Seq<u8>>
    decreases ops.len(),
{
    if ops.len() == 0 {
        Seq::empty()
    } else {
        let before = removed(size, packets, ops.drop_last());
        let queue = queue_run(size, packets, ops.drop_last());
        match ops.last() {
            RingOp::Write(_) => before,
            RingOp::Read => if queue.len() > 0 {
                before.push(queue.first())
            } else {
                before
            },
        }
    }
}

/// No write among `ops` puts in a packet that is too long for its prefix, or
/// stores a byte of the queue over another one that differs from it.
pub open spec fn calm(
    header: RingHeader,
    data: Seq<u8>,
    packets: Seq<Seq<u8>>,
    ops: Seq<RingOp>,
) -> bool
    decreases ops.len(),
{
    ops.len() > 0 ==> {
        let size = data.len() as int;
        let less = ops.drop_last();
        let queue = queue_run(size, packets, less);
        &&& calm(header, data, packets, less)
        &&& ops.last() matches RingOp::Write(payload) ==> fits(size, queue, payload) ==> {
            &&& payload.len() <= MAX_PACKET_LEN
            &&& undisturbed(
                size,
                run(header, data, less).0.read_idx as int,
                frames(queue.push(payload)),
            )
        }
    }
}

/// No operation changes how long the payload area is.
proof fn lemma_run_len(header: RingHeader, data: Seq<u8>, ops: Seq<RingOp>)
    ensures
        run(header, data, ops).1.len() == data.len(),
    decreases ops.len(),
{
    if ops.len() > 0 {
        let less = ops.drop_last();
        lemma_run_len(header, data, less);
        let (header1, data1) = run(header, data, less);
        if let RingOp::Write(payload) = ops.last() {
            if header1.has_room(data1.len() as int, payload.len() as int) {
                lemma_stored_len(data1, header1.write_idx as int, ring::frame(payload));
            }
        }
    }
}

/// Through any number of operations the ring holds what a queue would hold, as
/// long as none of them stores over bytes of the queue.
pub proof fn law_ring_is_a_queue(
    header: RingHeader,
    data: Seq<u8>,
    packets: Seq<Seq<u8>>,
    ops: Seq<RingOp>,
)
    requires
        holds(header, data, packets),
        calm(header, data, packets, ops),
    ensures
        holds(
            run(header, data, ops).0,
            run(header, data, ops).1,
            queue_run(data.len() as int, packets, ops),
        ),
    decreases ops.len(),
{
    if ops.len() > 0 {
        let size = data.len() as int;
        let less = ops.drop_last();
        law_ring_is_a_queue(header, data, packets, less);
        lemma_run_len(header, data, less);
        let (header1, data1) = run(header, data, less);
        let queue = queue_run(size, packets, less);
        match ops.last() {
            RingOp::Write(payload) => {
                law_room(header1, data1, queue, payload.len() as int);
                if fits(size, queue, payload) {
                    law_write(header1, data1, queue, payload);
                }
            },
            RingOp::Read => {
                law_read(header1, data1, queue, 0);
            },
        }
    }
}

/// First in, first out: the packets taken out, followed by those still queued,
/// are the packets queued at first, followed by those put in. None is lost, none
/// comes twice and none overtakes another.
pub proof fn law_fifo(size: int, packets: Seq<Seq<u8>>, ops: Seq<RingOp>)
    ensures
        removed(size, packets, ops) + queue_run(size, packets, ops) == packets + accepted(
            size,
            packets,
            ops,
        ),
    decreases ops.len(),
{
    if ops.len() > 0 {
        let less = ops.drop_last();
        law_fifo(size, packets, less);
        let queue = queue_run(size, packets, less);
        let out = removed(size, packets, less);
        let taken_in = accepted(size, packets, less);
        match ops.last() {
            RingOp::Write(payload) => {
                assert(out + queue.push(payload) =~= (out + queue).push(payload));
                assert(packets + taken_in.push(payload) =~= (packets + taken_in).push(payload));
            },
            RingOp::Read => {
                if queue.len() > 0 {
                    assert(out.push(queue.first()) + queue.drop_first() =~= out + queue);
                }
            },
        }
    } else {
        assert(removed(size, packets, ops) + queue_run(size, packets, ops) =~= packets + accepted(
            size,
            packets,
            ops,
        ));
    }
}

/// As many reads, one after the other.
pub open spec fn reads(n: int) -> Seq<RingOp> {
    Seq::new(n as nat, |i: int| RingOp::Read)
}

/// Reading on until the ring is empty drains it: read by read the packets come in
/// the order they are queued in, one too long for the reader is passed over, and
/// after as many reads as there are packets, not earlier and not later, the
/// indices are equal and the ring holds none.
pub proof fn law_reads_drain_the_ring(
    header: RingHeader,
    data: Seq<u8>,
    packets: Seq<Seq<u8>>,
    n: int,
    capacity: int,
)
    requires
        holds(header, data, packets),
        0 <= n <= packets.len(),
    ensures
        ({
            let (header2, data2) = run(header, data, reads(n));
            &&& data2 == data
            &&& holds(header2, data, packets.skip(n))
            &&& header2.write_idx == header2.read_idx <==> n == packets.len()
            &&& n < packets.len() ==> ring::packet_read(header2, data, capacity)
                == if packets[n].len() <= capacity {
                Some(packets[n])
            } else {
                None
            }
        }),
    decreases n,
{
    let (header2, data2) = run(header, data, reads(n));
    if n == 0 {
        assert(packets.skip(0) =~= packets);
    } else {
        law_reads_drain_the_ring(header, data, packets, n - 1, capacity);
        assert(reads(n).drop_last() =~= reads(n - 1));
        let header1 = run(header, data, reads(n - 1)).0;
        law_read(header1, data, packets.skip(n - 1), capacity);
        assert(packets.skip(n - 1).drop_first() =~= packets.skip(n));
    }
    law_read(header2, data, packets.skip(n), capacity);
}

/// The packets that a reader with room for `capacity` bytes gets in `n` reads.
pub open spec fn handed_out(header: RingHeader, data: Seq<u8>, n: int, capacity: int) -> Seq<
    Seq<u8>,
>
    decreases n,
{
    if n <= 0 {
        Seq::empty()
    } else {
        let before = handed_out(header, data, n - 1, capacity);
        match ring::packet_read(run(header, data, reads(n - 1)).0, data, capacity) {
            Some(packet) => before.push(packet),
            None => before,
        }
    }
}

/// A reader that goes on until the ring is empty gets every queued packet that it
/// has room for, in order: one that is too long holds none of the others back.
pub proof fn law_drain_hands_out_every_packet(
    header: RingHeader,
    data: Seq<u8>,
    packets: Seq<Seq<u8>>,
    capacity: int,
)
    requires
        holds(header, data, packets),
    ensures
        handed_out(header, data, packets.len() as int, capacity) == packets.filter(
            |packet: Seq<u8>| packet.len() <= capacity,
        ),
{
    lemma_handed_out(header, data, packets, packets.len() as int, capacity);
    assert(packets.take(packets.len() as int) =~= packets);
}

proof fn lemma_handed_out(
    header: RingHeader,
    data: Seq<u8>,
    packets: Seq<Seq<u8>>,
    n: int,
    capacity: int,
)
    requires
        holds(header, data, packets),
        0 <= n <= packets.len(),
    ensures
        handed_out(header, data, n, capacity) == packets.take(n).filter(
            |packet: Seq<u8>| packet.len() <= capacity,
        ),
    decreases n,
{
    reveal(Seq::filter);
    if n > 0 {
        lemma_handed_out(header, data, packets, n - 1, capacity);
        law_reads_drain_the_ring(header, data, packets, n - 1, capacity);
        assert(packets.take(n).drop_last() =~= packets.take(n - 1));
    }
}

proof fn lemma_frames_add(packets1: Seq<Seq<u8>>, packets2: Seq<Seq<u8>>)
    ensures
        frames(packets1 + packets2).len() == frames(packets1).len() + frames(packets2).len(),
    decreases packets1.len(),
{
    if packets1.len() == 0 {
        assert(packets1 + packets2 =~= packets2);
    } else {
        assert((packets1 + packets2).drop_first() =~= packets1.drop_first() + packets2);
        lemma_frames_add(packets1.drop_first(), packets2);
    }
}

proof fn lemma_advance_twice(idx: u32, a: int, b: int)
    requires
        0 <= a,
        0 <= b,
    ensures
        ring::advance(ring::advance(idx, a), b) == ring::advance(idx, a + b),
{
    lemma_add_mod_noop(idx + a, b, INDEX_SPAN as int);
    lemma_add_mod_noop(ring::advance(idx, a) as int, b, INDEX_SPAN as int);
}

/// The read index counts the bytes of the packets taken out.
pub proof fn law_read_index_counts(
    header: RingHeader,
    data: Seq<u8>,
    packets: Seq<Seq<u8>>,
    ops: Seq<RingOp>,
)
    requires
        holds(header, data, packets),
        calm(header, data, packets, ops),
    ensures
        run(header, data, ops).0.read_idx == ring::advance(
            header.read_idx,
            frames(removed(data.len() as int, packets, ops)).len() as int,
        ),
    decreases ops.len(),
{
    if ops.len() > 0 {
        let size = data.len() as int;
        let less = ops.drop_last();
        law_read_index_counts(header, data, packets, less);
        law_ring_is_a_queue(header, data, packets, less);
        let (header1, data1) = run(header, data, less);
        let queue = queue_run(size, packets, less);
        law_read(header1, data1, queue, 0);
        if ops.last() is Read && queue.len() > 0 {
            let out = removed(size, packets, less);
            lemma_frames_push(out, queue.first());
            lemma_advance_twice(
                header.read_idx,
                frames(out).len() as int,
                2 + queue.first().len() as int,
            );
        }
    }
}

/// The bytes taken out, those queued and those of a packet put in behind them are
/// those queued at first and those put in.
proof fn lemma_bytes_add_up(
    size: int,
    packets: Seq<Seq<u8>>,
    ops: Seq<RingOp>,
    payload: Seq<u8>,
)
    ensures
        frames(removed(size, packets, ops)).len() + frames(
            queue_run(size, packets, ops).push(payload),
        ).len() == frames(packets + accepted(size, packets, ops).push(payload)).len(),
{
    let queue = queue_run(size, packets, ops);
    let out = removed(size, packets, ops);
    let taken_in = accepted(size, packets, ops);
    law_fifo(size, packets, ops);
    lemma_frames_add(out, queue);
    lemma_frames_add(packets, taken_in);
    lemma_frames_add(packets, taken_in.push(payload));
    lemma_frames_push(taken_in, payload);
    lemma_frames_push(queue, payload);
}

/// A write that the count of bytes does not wrap in leaves the queue undisturbed.
proof fn lemma_write_is_calm(
    read_idx: u32,
    size: int,
    packets: Seq<Seq<u8>>,
    ops: Seq<RingOp>,
    payload: Seq<u8>,
)
    requires
        size <= u32::MAX,
        fits(size, queue_run(size, packets, ops), payload),
        read_idx + frames(packets + accepted(size, packets, ops).push(payload)).len()
            <= INDEX_SPAN,
    ensures
        undisturbed(
            size,
            ring::advance(read_idx, frames(removed(size, packets, ops)).len() as int) as int,
            frames(queue_run(size, packets, ops).push(payload)),
        ),
{
    let queue = queue_run(size, packets, ops);
    let out = frames(removed(size, packets, ops)).len() as int;
    lemma_bytes_add_up(size, packets, ops, payload);
    lemma_frames_push(queue, payload);
    lemma_advance_short(read_idx, out);
    lemma_undisturbed_before_wrap(
        size,
        ring::advance(read_idx, out),
        frames(queue.push(payload)),
    );
}

/// An index moves on without wrapping as long as it stays in its range.
proof fn lemma_advance_short(idx: u32, n: int)
    requires
        0 <= n,
        idx + n < INDEX_SPAN,
    ensures
        ring::advance(idx, n) == idx + n,
{
}

/// Every payload that `ops` would put into a ring of `size` bytes is one whose
/// length its prefix can tell, or too long for the ring anyway.
pub open spec fn lengths_told(size: int, ops: Seq<RingOp>) -> bool {
    forall|i: int|
        0 <= i < ops.len() ==> (#[trigger] ops[i] matches RingOp::Write(payload) ==> payload.len()
            <= MAX_PACKET_LEN || 2 + payload.len() > size)
}

/// As long as the byte count does not wrap, nothing is ever stored over a byte
/// that is still to be read.
pub proof fn law_calm_until_the_count_wraps(
    header: RingHeader,
    data: Seq<u8>,
    packets: Seq<Seq<u8>>,
    ops: Seq<RingOp>,
)
    requires
        holds(header, data, packets),
        lengths_told(data.len() as int, ops),
        header.read_idx + frames(packets + accepted(data.len() as int, packets, ops)).len()
            <= INDEX_SPAN,
    ensures
        calm(header, data, packets, ops),
    decreases ops.len(),
{
    if ops.len() > 0 {
        let size = data.len() as int;
        let less = ops.drop_last();
        let before = accepted(size, packets, less);
        lemma_frames_add(packets, before);
        lemma_frames_add(packets, accepted(size, packets, ops));
        if let RingOp::Write(payload) = ops.last() {
            lemma_frames_push(before, payload);
        }
        assert forall|i: int| 0 <= i < less.len() implies (
        #[trigger] less[i] matches RingOp::Write(payload) ==> payload.len() <= MAX_PACKET_LEN || 2
            + payload.len() > size) by {
            assert(ops[i] == less[i]);
        }
        law_calm_until_the_count_wraps(header, data, packets, less);
        assert(ops.last() == ops[ops.len() - 1]);
        if let RingOp::Write(payload) = ops.last() {
            if fits(size, queue_run(size, packets, less), payload) {
                law_read_index_counts(header, data, packets, less);
                lemma_write_is_calm(header.read_idx, size, packets, less, payload);
            }
        }
    }
}

/// A packet can be put behind `packets` without a byte being stored over another
/// one that differs from it: because the byte count does not wrap, or because no
/// two such bytes share a slot.
pub open spec fn appends_safely(
    header: RingHeader,
    size: int,
    packets: Seq<Seq<u8>>,
    payload: Seq<u8>,
) -> bool {
    ||| in_step(header, size) && header.write_idx + 2 + payload.len() <= u32::MAX
    ||| undisturbed(size, header.read_idx as int, frames(packets.push(payload)))
}

/// A packet with room for it is appended to the queue.
pub proof fn law_append(
    header: RingHeader,
    data: Seq<u8>,
    packets: Seq<Seq<u8>>,
    payload: Seq<u8>,
)
    requires
        holds(header, data, packets),
        payload.len() <= MAX_PACKET_LEN,
        appends_safely(header, data.len() as int, packets, payload),
    ensures
        header.has_room(data.len() as int, payload.len() as int) <==> frames(packets).len() + 2
            + payload.len() <= data.len(),
        ({
            let (header2, data2) = ring::after_write(header, data, payload);
            header.has_room(data.len() as int, payload.len() as int) ==> holds(
                header2,
                data2,
                packets.push(payload),
            )
        }),
{
    law_room(header, data, packets, payload.len() as int);
    if header.has_room(data.len() as int, payload.len() as int) {
        if in_step(header, data.len() as int) && header.write_idx + 2 + payload.len() <= u32::MAX {
            law_write_keeps_the_ring_whole(header, data, packets, payload);
        } else {
            law_write(header, data, packets, payload);
        }
    }
}

} // verus!
