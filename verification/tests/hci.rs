use thingy53_hci_usb::hci::{hci_packet_len, send_cc_event, send_cs_event, MAX_REPLY_LEN};
use thingy53_hci_usb::ipc::{ipc_recv_from_net, IpcEvent, IpcHeaders};
use thingy53_hci_usb::layout::RING_BUF_SIZE;
use thingy53_hci_usb::ring::RingHeader;

fn fresh() -> IpcHeaders {
    let zero = RingHeader { write_idx: 0, read_idx: 0 };
    IpcHeaders { n2a: zero, a2n: zero }
}

#[test]
fn packet_length_follows_the_header() {
    assert_eq!(hci_packet_len(0x04, &[0x0E, 4, 1, 3, 0x0C, 0, 99, 99]), 6);
    assert_eq!(hci_packet_len(0x04, &[0x0E, 255]), 257);
    assert_eq!(hci_packet_len(0x02, &[0x40, 0x20, 0x05, 0x01, 9]), 4 + 0x0105);
    assert_eq!(hci_packet_len(0x02, &[0, 0, 0, 0]), 4);
}

#[test]
fn packet_without_a_whole_header_is_all_there_is() {
    assert_eq!(hci_packet_len(0x04, &[0x0E]), 1);
    assert_eq!(hci_packet_len(0x02, &[1, 2, 3]), 3);
    assert_eq!(hci_packet_len(0x01, &[3, 0x0C, 0, 0, 0]), 5);
    assert_eq!(hci_packet_len(0x04, &[]), 0);
}

#[test]
fn command_complete_has_its_format() {
    let mut headers = fresh();
    let mut n2a = [0u8; RING_BUF_SIZE];
    let mut out = [0u8; 100];
    let trigger = send_cc_event(&mut headers, &mut n2a, 0x1009, 0x00, &[1, 2, 3, 4, 5, 6]);
    assert_eq!(trigger, Some(IpcEvent::Event0));
    let n = ipc_recv_from_net(&mut headers, &n2a, &mut out).unwrap();
    let event = [0x04, 0x0E, 10, 0x01, 0x09, 0x10, 0x00, 1, 2, 3, 4, 5, 6];
    assert_eq!(&out[..n], &event);
    assert_eq!(hci_packet_len(0x04, &out[1..n]), n - 1);
}

#[test]
fn return_data_is_cut_at_its_room() {
    let mut headers = fresh();
    let mut n2a = [0u8; RING_BUF_SIZE];
    let mut out = [0u8; 100];
    send_cc_event(&mut headers, &mut n2a, 0x1002, 0x00, &[7u8; 65]);
    let n = ipc_recv_from_net(&mut headers, &n2a, &mut out).unwrap();
    assert_eq!(n, MAX_REPLY_LEN);
    assert_eq!(n, 71);
    assert_eq!(out[2], 68);
    assert_eq!(&out[7..71], &[7u8; 64]);
}

#[test]
fn command_status_has_its_format() {
    let mut headers = fresh();
    let mut n2a = [0u8; RING_BUF_SIZE];
    let mut out = [0u8; 100];
    let trigger = send_cs_event(&mut headers, &mut n2a, 0x200D, 0x0C);
    assert_eq!(trigger, Some(IpcEvent::Event0));
    let n = ipc_recv_from_net(&mut headers, &n2a, &mut out).unwrap();
    assert_eq!(&out[..n], &[0x04, 0x0F, 0x04, 0x0C, 0x01, 0x0D, 0x20]);
    assert_eq!(hci_packet_len(0x04, &out[1..n]), n - 1);
}

#[test]
fn answer_is_dropped_when_the_ring_is_full() {
    let mut headers = fresh();
    headers.n2a.write_idx = 14320;
    let before = headers;
    let mut n2a = [0u8; RING_BUF_SIZE];
    assert_eq!(send_cs_event(&mut headers, &mut n2a, 0x200D, 0), None);
    assert_eq!(headers, before);
}
