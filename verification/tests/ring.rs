use thingy53_hci_usb::layout::RING_BUF_SIZE;
use thingy53_hci_usb::ring::{rb_read, rb_write, RingHeader};

fn empty_at(idx: u32) -> RingHeader {
    RingHeader { write_idx: idx, read_idx: idx }
}

fn pattern(len: usize, seed: usize) -> Vec<u8> {
    (0..len).map(|i| ((i * 7 + i / 256 * 13 + seed) % 251) as u8).collect()
}

#[test]
fn packet_is_stored_with_a_little_endian_length() {
    let mut header = empty_at(0);
    let mut data = [0u8; RING_BUF_SIZE];
    let payload = pattern(0x0102, 1);
    assert!(rb_write(&mut header, &mut data, &payload));
    assert_eq!(header, RingHeader { write_idx: 0x0104, read_idx: 0 });
    assert_eq!(&data[..2], &[0x02, 0x01]);
    assert_eq!(&data[2..0x0104], &payload[..]);
    assert_eq!(data[0x0104], 0);
}

#[test]
fn empty_ring_has_nothing_to_read() {
    let mut header = empty_at(17);
    let data = [9u8; RING_BUF_SIZE];
    let mut out = [5u8; 8];
    assert_eq!(rb_read(&mut header, &data, &mut out), None);
    assert_eq!(header, empty_at(17));
    assert_eq!(out, [5u8; 8]);
}

#[test]
fn packets_come_out_in_the_order_they_went_in() {
    let mut header = empty_at(0);
    let mut data = [0u8; RING_BUF_SIZE];
    let mut out = [0u8; 2000];
    for round in 0..40usize {
        let a = pattern(round * 31, round);
        let b = pattern(1 + round * 17, round + 100);
        assert!(rb_write(&mut header, &mut data, &a));
        assert!(rb_write(&mut header, &mut data, &b));
        assert_eq!(rb_read(&mut header, &data, &mut out), Some(a.len()));
        assert_eq!(&out[..a.len()], &a[..]);
        assert_eq!(rb_read(&mut header, &data, &mut out), Some(b.len()));
        assert_eq!(&out[..b.len()], &b[..]);
        assert_eq!(header.write_idx, header.read_idx);
    }
    assert!(header.write_idx as usize > 2 * RING_BUF_SIZE);
}

#[test]
fn reader_leaves_the_rest_of_its_buffer_alone() {
    let mut header = empty_at(0);
    let mut data = [0u8; RING_BUF_SIZE];
    let mut out = [0xAAu8; 6];
    assert!(rb_write(&mut header, &mut data, &[1, 2, 3]));
    assert_eq!(rb_read(&mut header, &data, &mut out), Some(3));
    assert_eq!(out, [1, 2, 3, 0xAA, 0xAA, 0xAA]);
}

#[test]
fn longest_packet_fills_the_ring() {
    let mut header = empty_at(0);
    let mut data = [0u8; RING_BUF_SIZE];
    let payload = pattern(RING_BUF_SIZE - 2, 3);
    assert!(rb_write(&mut header, &mut data, &payload));
    assert!(!rb_write(&mut header, &mut data, &[]));
    let mut out = [0u8; RING_BUF_SIZE];
    assert_eq!(rb_read(&mut header, &data, &mut out), Some(RING_BUF_SIZE - 2));
    assert_eq!(&out[..RING_BUF_SIZE - 2], &payload[..]);
    assert!(rb_write(&mut header, &mut data, &[]));
}

#[test]
fn packet_longer_than_the_ring_is_refused() {
    let mut header = empty_at(3);
    let mut data = [0u8; RING_BUF_SIZE];
    let payload = pattern(RING_BUF_SIZE - 1, 3);
    assert!(!rb_write(&mut header, &mut data, &payload));
    assert_eq!(header, empty_at(3));
    assert!(data == [0u8; RING_BUF_SIZE]);
}

#[test]
fn full_ring_refuses_and_stays_as_it_is() {
    let mut header = empty_at(0);
    let mut data = [0u8; RING_BUF_SIZE];
    assert!(rb_write(&mut header, &mut data, &pattern(14000, 5)));
    let before = data;
    let header_before = header;
    // 326 bytes are left: a payload of 324 fits, one of 325 does not.
    assert!(!rb_write(&mut header, &mut data, &pattern(325, 6)));
    assert_eq!(header, header_before);
    assert!(data == before);
    assert!(rb_write(&mut header, &mut data, &pattern(324, 6)));
}

#[test]
fn packet_too_long_for_the_reader_is_dropped() {
    let mut header = empty_at(0);
    let mut data = [0u8; RING_BUF_SIZE];
    assert!(rb_write(&mut header, &mut data, &[1, 2, 3, 4, 5]));
    assert!(rb_write(&mut header, &mut data, &[6, 7]));
    let mut out = [0u8; 4];
    assert_eq!(rb_read(&mut header, &data, &mut out), None);
    assert_eq!(out, [0u8; 4]);
    assert_eq!(header.read_idx, 7);
    assert_eq!(rb_read(&mut header, &data, &mut out), Some(2));
    assert_eq!(&out[..2], &[6, 7]);
}

#[test]
fn empty_packet_is_a_packet() {
    let mut header = empty_at(0);
    let mut data = [0u8; RING_BUF_SIZE];
    let mut out = [0u8; 4];
    assert!(rb_write(&mut header, &mut data, &[]));
    assert_eq!(rb_read(&mut header, &data, &mut out), Some(0));
    assert_eq!(rb_read(&mut header, &data, &mut out), None);
}

#[test]
fn packet_goes_around_the_end_of_the_payload_area() {
    let mut header = empty_at((RING_BUF_SIZE - 1) as u32);
    let mut data = [0u8; RING_BUF_SIZE];
    let mut out = [0u8; 4];
    assert!(rb_write(&mut header, &mut data, &[8, 9]));
    assert_eq!(data[RING_BUF_SIZE - 1], 2);
    assert_eq!(&data[..4], &[0, 8, 9, 0]);
    assert_eq!(rb_read(&mut header, &data, &mut out), Some(2));
    assert_eq!(&out[..2], &[8, 9]);
}

#[test]
fn count_wraps_at_two_to_the_thirty_two() {
    let mut header = empty_at(0xFFFF_FFFF);
    let mut data = [0u8; RING_BUF_SIZE];
    let mut out = [0u8; 6100];
    assert!(rb_write(&mut header, &mut data, &[4, 5, 6]));
    assert_eq!(header.write_idx, 4);
    assert_eq!(data[6015], 3);
    assert_eq!(&data[..4], &[0, 4, 5, 6]);
    assert_eq!(rb_read(&mut header, &data, &mut out), Some(3));
    assert_eq!(&out[..3], &[4, 5, 6]);
    // No more bytes than the last round before the wrap leaves over: undisturbed.
    let mut header = empty_at(0xFFFF_FFFF - 99);
    let payload = pattern(6014, 11);
    assert!(rb_write(&mut header, &mut data, &payload));
    assert_eq!(rb_read(&mut header, &data, &mut out), Some(6014));
    assert_eq!(&out[..6014], &payload[..]);
}

#[test]
fn long_queue_across_the_wrap_is_disturbed() {
    let mut header = empty_at(0xFFFF_FFFF - 99);
    let mut data = [0u8; RING_BUF_SIZE];
    let mut out = [0u8; RING_BUF_SIZE];
    let payload = pattern(8000, 11);
    assert!(rb_write(&mut header, &mut data, &payload));
    rb_read(&mut header, &data, &mut out);
    assert!(out[..8000] != payload[..]);
}

#[test]
fn indices_further_apart_than_the_ring_is_long_leave_wrapped_room() {
    let mut header = RingHeader { write_idx: 20000, read_idx: 0 };
    let mut data = [0u8; RING_BUF_SIZE];
    assert!(rb_write(&mut header, &mut data, &[1]));
    assert_eq!(header, RingHeader { write_idx: 20003, read_idx: 0 });
}

#[test]
fn consumer_with_an_old_write_index_sees_the_old_queue() {
    let mut header = empty_at(14_000);
    let mut data = [0u8; RING_BUF_SIZE];
    let a = pattern(700, 1);
    let b = pattern(9_000, 2);
    assert!(rb_write(&mut header, &mut data, &a));
    let mut seen = header;
    assert!(rb_write(&mut header, &mut data, &b));
    assert_eq!(header.read_idx, seen.read_idx);
    let mut out = [0u8; 1000];
    assert_eq!(rb_read(&mut seen, &data, &mut out), Some(700));
    assert_eq!(&out[..700], &a[..]);
    assert_eq!(rb_read(&mut seen, &data, &mut out), None);
}

#[test]
fn producer_with_an_old_read_index_is_more_careful() {
    let mut header = empty_at(0);
    let mut data = [0u8; RING_BUF_SIZE];
    assert!(rb_write(&mut header, &mut data, &pattern(RING_BUF_SIZE - 10, 3)));
    let mut seen = header;
    let mut out = [0u8; RING_BUF_SIZE];
    assert_eq!(rb_read(&mut header, &data, &mut out), Some(RING_BUF_SIZE - 10));
    assert_eq!(header.write_idx, seen.write_idx);
    assert!(!rb_write(&mut seen, &mut data, &[0u8; 7]));
    assert!(rb_write(&mut seen, &mut data, &[0u8; 6]));
    assert!(rb_write(&mut header, &mut data, &[0u8; 7]));
}

#[test]
fn ring_of_eight_bytes() {
    let mut header = empty_at(6);
    let mut data = [0u8; 8];
    let mut out = [9u8; 8];
    assert!(!rb_write(&mut header, &mut data, &[1; 7]));
    assert!(rb_write(&mut header, &mut data, &[1, 2]));
    assert!(!rb_write(&mut header, &mut data, &[3; 3]));
    assert!(rb_write(&mut header, &mut data, &[3, 4]));
    assert!(!rb_write(&mut header, &mut data, &[]));
    assert_eq!(data, [1, 2, 2, 0, 3, 4, 2, 0]);
    assert_eq!(rb_read(&mut header, &data, &mut out), Some(2));
    assert_eq!(out, [1, 2, 9, 9, 9, 9, 9, 9]);
    assert_eq!(rb_read(&mut header, &data, &mut out), Some(2));
    assert_eq!(out, [3, 4, 9, 9, 9, 9, 9, 9]);
    assert_eq!(header, empty_at(14));
    assert_eq!(rb_read(&mut header, &data, &mut out), None);
}

#[test]
fn ring_whose_size_divides_the_range_of_an_index_takes_the_wrap() {
    let mut header = empty_at(0xFFFF_FFFD);
    let mut data = [0u8; 16];
    let mut out = [0u8; 14];
    let payload = pattern(14, 5);
    assert!(rb_write(&mut header, &mut data, &payload));
    assert_eq!(header.write_idx, 13);
    assert_eq!(rb_read(&mut header, &data, &mut out), Some(14));
    assert_eq!(&out[..], &payload[..]);
    assert_eq!(header, empty_at(13));
}

#[test]
fn ring_without_room_for_a_prefix_takes_nothing() {
    let mut header = empty_at(0);
    let mut data = [0u8; 1];
    assert!(!rb_write(&mut header, &mut data, &[]));
    assert!(!rb_write(&mut header, &mut [], &[]));
    assert_eq!(header, empty_at(0));
}

#[test]
fn prefix_tells_the_low_bits_of_a_length() {
    let mut data = vec![0u8; 70_000];
    let mut out = vec![0u8; 70_000];
    let mut header = empty_at(0);
    let longest = pattern(65_535, 6);
    assert!(rb_write(&mut header, &mut data, &longest));
    assert_eq!(&data[..2], &[0xFF, 0xFF]);
    assert_eq!(rb_read(&mut header, &data, &mut out), Some(65_535));
    assert_eq!(&out[..65_535], &longest[..]);
    let mut header = empty_at(0);
    assert!(rb_write(&mut header, &mut data, &pattern(65_538, 7)));
    assert_eq!(&data[..2], &[0x02, 0x00]);
    assert_eq!(rb_read(&mut header, &data, &mut out), Some(2));
}

#[test]
fn consumer_sees_the_old_queue_while_a_packet_is_half_stored() {
    let start = RING_BUF_SIZE as u32 - 5;
    let mut before = [0u8; RING_BUF_SIZE];
    let mut header = empty_at(start);
    assert!(rb_write(&mut header, &mut before, &[1, 2, 3]));
    let seen = header;
    let mut after = before;
    assert!(rb_write(&mut header, &mut after, &[7; 20]));
    for k in 0..=22usize {
        let mut data = before;
        for i in 0..k {
            let slot = (seen.write_idx as usize + i) % RING_BUF_SIZE;
            data[slot] = after[slot];
        }
        let mut reader = seen;
        let mut out = [0u8; 8];
        assert_eq!(rb_read(&mut reader, &data, &mut out), Some(3));
        assert_eq!(&out[..3], &[1, 2, 3]);
        assert_eq!(rb_read(&mut reader, &data, &mut out), None);
    }
}
