use thingy53_hci_usb::ipc::{
    awaited_event, ipc_init, ipc_recv_from_app, ipc_recv_from_net, ipc_send_to_app,
    ipc_send_to_net, notify_app, notify_net, Core, IpcEvent, IpcHeaders,
};
use thingy53_hci_usb::layout::RING_BUF_SIZE;
use thingy53_hci_usb::ring::RingHeader;

fn fresh() -> IpcHeaders {
    let word = RingHeader { write_idx: 77, read_idx: 3 };
    let mut headers = IpcHeaders { n2a: word, a2n: word };
    ipc_init(&mut headers);
    headers
}

#[test]
fn init_zeroes_the_header_words() {
    let zero = RingHeader { write_idx: 0, read_idx: 0 };
    assert_eq!(fresh(), IpcHeaders { n2a: zero, a2n: zero });
    let data = [1u8; RING_BUF_SIZE];
    let mut out = [0u8; 16];
    assert_eq!(ipc_recv_from_net(&mut fresh(), &data, &mut out), None);
    assert_eq!(ipc_recv_from_app(&mut fresh(), &data, &mut out), None);
}

#[test]
fn what_the_app_core_sends_the_net_core_receives() {
    let mut headers = fresh();
    let mut a2n = [0u8; RING_BUF_SIZE];
    let mut out = [0u8; 16];
    assert!(ipc_send_to_net(&mut headers, &mut a2n, &[0x01, 0x03, 0x0C, 0x00]));
    assert_eq!(headers.a2n, RingHeader { write_idx: 6, read_idx: 0 });
    assert_eq!(headers.n2a, RingHeader { write_idx: 0, read_idx: 0 });
    assert_eq!(ipc_recv_from_app(&mut headers, &a2n, &mut out), Some(4));
    assert_eq!(&out[..4], &[0x01, 0x03, 0x0C, 0x00]);
    assert_eq!(headers.a2n, RingHeader { write_idx: 6, read_idx: 6 });
}

#[test]
fn what_the_net_core_sends_the_app_core_receives() {
    let mut headers = fresh();
    let mut n2a = [0u8; RING_BUF_SIZE];
    let mut out = [0u8; 16];
    assert!(ipc_send_to_app(&mut headers, &mut n2a, &[0x04, 0x0F, 0x00]));
    assert_eq!(headers.n2a, RingHeader { write_idx: 5, read_idx: 0 });
    assert_eq!(headers.a2n, RingHeader { write_idx: 0, read_idx: 0 });
    assert_eq!(ipc_recv_from_net(&mut headers, &n2a, &mut out), Some(3));
    assert_eq!(&out[..3], &[0x04, 0x0F, 0x00]);
}

#[test]
fn receiver_is_woken_only_if_the_packet_went_in() {
    let mut headers = fresh();
    let mut n2a = [0u8; RING_BUF_SIZE];
    let mut a2n = [0u8; RING_BUF_SIZE];
    let big = [0u8; RING_BUF_SIZE - 2];
    assert_eq!(notify_app(&mut headers, &mut n2a, &big), Some(IpcEvent::Event0));
    assert_eq!(notify_app(&mut headers, &mut n2a, &[4]), None);
    assert_eq!(notify_net(&mut headers, &mut a2n, &big), Some(IpcEvent::Event1));
    assert_eq!(notify_net(&mut headers, &mut a2n, &[1]), None);
    let full = RingHeader { write_idx: RING_BUF_SIZE as u32, read_idx: 0 };
    assert_eq!(headers, IpcHeaders { n2a: full, a2n: full });
}

#[test]
fn received_packet_starts_with_its_indicator() {
    let mut headers = fresh();
    let mut n2a = [0u8; RING_BUF_SIZE];
    let mut out = [0u8; 16];
    assert!(ipc_send_to_app(&mut headers, &mut n2a, &[0x02]));
    let n = ipc_recv_from_net(&mut headers, &n2a, &mut out).unwrap();
    assert!(n >= 1);
    assert_eq!(out[0], 0x02);
}

#[test]
fn each_core_awaits_the_event_that_the_other_triggers() {
    let mut headers = fresh();
    let mut n2a = [0u8; RING_BUF_SIZE];
    let mut a2n = [0u8; RING_BUF_SIZE];
    assert_eq!(awaited_event(Core::Application), IpcEvent::Event0);
    assert_eq!(awaited_event(Core::Network), IpcEvent::Event1);
    let to_app = notify_app(&mut headers, &mut n2a, &[0x04]);
    assert_eq!(to_app, Some(awaited_event(Core::Application)));
    let to_net = notify_net(&mut headers, &mut a2n, &[0x01]);
    assert_eq!(to_net, Some(awaited_event(Core::Network)));
}
