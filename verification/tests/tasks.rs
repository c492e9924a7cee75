use thingy53_hci_usb::app_core::{
    forward_command, ipc_recv_step, packet_for_host, usb_read_step, usb_write_step, RecvStep,
    UsbReadStep, UsbWriteEvent, UsbWriteState, NET_PACKET_LEN,
};
use thingy53_hci_usb::ipc::{
    ipc_recv_from_app, ipc_send_to_app, ipc_send_to_net, IpcEvent, IpcHeaders,
};
use thingy53_hci_usb::layout::RING_BUF_SIZE;
use thingy53_hci_usb::led::LedColor;
use thingy53_hci_usb::net_core::{
    forward_from_controller, indicator_for, ipc_rx_step, rx_action, PacketKind, RxAction,
};
use thingy53_hci_usb::ring::RingHeader;
use thingy53_hci_usb::usb_hci::{
    control_out, ControlRequest, Recipient, RequestType, MAX_ACL_LEN,
};

fn fresh() -> IpcHeaders {
    let zero = RingHeader { write_idx: 0, read_idx: 0 };
    IpcHeaders { n2a: zero, a2n: zero }
}

#[test]
fn writer_follows_the_host() {
    let s = UsbWriteState::AwaitHost;
    let (s, led) = usb_write_step(s, UsbWriteEvent::HostReady);
    assert_eq!((s, led), (UsbWriteState::AwaitPacket, Some(LedColor::Blue)));
    let (s, led) = usb_write_step(s, UsbWriteEvent::Packet { indicator: 0x04 });
    assert_eq!((s, led), (UsbWriteState::WritingEvent, None));
    let (s, led) = usb_write_step(s, UsbWriteEvent::Written);
    assert_eq!((s, led), (UsbWriteState::AwaitPacket, None));
    let (s, led) = usb_write_step(s, UsbWriteEvent::Packet { indicator: 0x02 });
    assert_eq!((s, led), (UsbWriteState::WritingAcl, None));
    let (s, led) = usb_write_step(s, UsbWriteEvent::WriteFailed);
    assert_eq!((s, led), (UsbWriteState::AwaitHost, Some(LedColor::Yellow)));
}

#[test]
fn writer_skips_packets_of_other_kinds() {
    for indicator in [0x00, 0x01, 0x03, 0x05, 0xFF] {
        let event = UsbWriteEvent::Packet { indicator };
        let next = usb_write_step(UsbWriteState::AwaitPacket, event);
        assert_eq!(next, (UsbWriteState::AwaitPacket, None));
    }
}

#[test]
fn writer_ignores_what_it_does_not_wait_for() {
    let next = usb_write_step(UsbWriteState::AwaitHost, UsbWriteEvent::WriteFailed);
    assert_eq!(next, (UsbWriteState::AwaitHost, None));
    let next = usb_write_step(UsbWriteState::WritingAcl, UsbWriteEvent::HostReady);
    assert_eq!(next, (UsbWriteState::WritingAcl, None));
}

#[test]
fn acl_data_from_the_host_goes_to_the_net_core() {
    let mut headers = fresh();
    let mut a2n = [0u8; RING_BUF_SIZE];
    let mut buf = [0u8; MAX_ACL_LEN];
    buf[..3].copy_from_slice(&[7, 8, 9]);
    let step = usb_read_step(&mut headers, &mut a2n, &buf, Some(3));
    assert_eq!(step, UsbReadStep::ReadOn { trigger: Some(IpcEvent::Event1) });
    let mut out = [0u8; 8];
    assert_eq!(ipc_recv_from_app(&mut headers, &a2n, &mut out), Some(4));
    assert_eq!(&out[..4], &[0x02, 7, 8, 9]);
    let step = usb_read_step(&mut headers, &mut a2n, &buf, None);
    assert_eq!(step, UsbReadStep::AwaitHost);
    assert_eq!(headers.a2n, RingHeader { write_idx: 6, read_idx: 6 });
}

#[test]
fn longest_acl_data_goes_to_the_net_core() {
    let mut headers = fresh();
    let mut a2n = [0u8; RING_BUF_SIZE];
    let buf = [6u8; MAX_ACL_LEN];
    usb_read_step(&mut headers, &mut a2n, &buf, Some(MAX_ACL_LEN));
    let mut out = [0u8; 1 + MAX_ACL_LEN];
    assert_eq!(ipc_recv_from_app(&mut headers, &a2n, &mut out), Some(1025));
    assert_eq!(out[0], 0x02);
    assert_eq!(&out[1..], &buf[..]);
}

#[test]
fn command_from_the_host_gets_to_the_dispatcher() {
    let mut headers = fresh();
    let mut a2n = [0u8; RING_BUF_SIZE];
    let req = ControlRequest {
        request_type: RequestType::Class,
        recipient: Recipient::Device,
        request: 0,
    };
    let cmd = control_out(req, &[0x03, 0x0C, 0x00]).unwrap();
    assert_eq!(forward_command(&mut headers, &mut a2n, &cmd), Some(IpcEvent::Event1));
    let mut buf = [0u8; 259];
    match ipc_rx_step(&mut headers, &a2n, &mut buf) {
        Some(RxAction::Command { payload }) => assert_eq!(payload, &[0x03, 0x0C, 0x00]),
        other => panic!("{:?}", other),
    }
    assert!(ipc_rx_step(&mut headers, &a2n, &mut buf).is_none());
}

#[test]
fn packets_for_the_controller_are_told_apart() {
    match rx_action(&[0x02, 5, 6, 99], 3) {
        RxAction::AclData { payload } => assert_eq!(payload, &[5, 6]),
        other => panic!("{:?}", other),
    }
    match rx_action(&[0x01], 1) {
        RxAction::Command { payload } => assert_eq!(payload.len(), 0),
        other => panic!("{:?}", other),
    }
    assert!(matches!(rx_action(&[0x04, 1], 2), RxAction::Unknown { indicator: 0x04 }));
    assert!(matches!(rx_action(&[0x01, 1], 0), RxAction::Skip));
}

#[test]
fn empty_packet_is_skipped_on_both_sides() {
    let mut headers = fresh();
    let mut a2n = [0u8; RING_BUF_SIZE];
    let mut n2a = [0u8; RING_BUF_SIZE];
    ipc_send_to_net(&mut headers, &mut a2n, &[]);
    ipc_send_to_app(&mut headers, &mut n2a, &[]);
    let mut buf = [0u8; 259];
    assert!(matches!(ipc_rx_step(&mut headers, &a2n, &mut buf), Some(RxAction::Skip)));
    let mut buf = [0u8; NET_PACKET_LEN];
    assert!(matches!(ipc_recv_step(&mut headers, &n2a, &mut buf), RecvStep::Skip));
    assert!(matches!(ipc_recv_step(&mut headers, &n2a, &mut buf), RecvStep::Idle));
}

#[test]
fn controller_event_gets_to_the_host() {
    let mut headers = fresh();
    let mut n2a = [0u8; RING_BUF_SIZE];
    let mut ipc_buf = [0u8; 259];
    let mut buf = [0xEEu8; 258];
    buf[..5].copy_from_slice(&[0x3E, 3, 1, 2, 3]);
    let kind = PacketKind::Event;
    let trigger = forward_from_controller(&mut headers, &mut n2a, kind, &buf, &mut ipc_buf);
    assert_eq!(trigger, Some(IpcEvent::Event0));
    let mut out = [0u8; NET_PACKET_LEN];
    match ipc_recv_step(&mut headers, &n2a, &mut out) {
        RecvStep::Deliver { packet } => {
            assert_eq!(packet.indicator, 0x04);
            assert_eq!(packet.bytes(), &[0x3E, 3, 1, 2, 3]);
        }
        _ => panic!("no packet"),
    }
}

#[test]
fn controller_acl_data_gets_to_the_host() {
    let mut headers = fresh();
    let mut n2a = [0u8; RING_BUF_SIZE];
    let mut ipc_buf = [0u8; 259];
    let mut buf = [0xEEu8; 258];
    buf[..6].copy_from_slice(&[0x40, 0x20, 2, 0, 8, 9]);
    let kind = PacketKind::AclData;
    forward_from_controller(&mut headers, &mut n2a, kind, &buf, &mut ipc_buf);
    let mut out = [0u8; NET_PACKET_LEN];
    match ipc_recv_step(&mut headers, &n2a, &mut out) {
        RecvStep::Deliver { packet } => {
            assert_eq!(packet.indicator, 0x02);
            assert_eq!(packet.bytes(), &[0x40, 0x20, 2, 0, 8, 9]);
        }
        _ => panic!("no packet"),
    }
}

#[test]
fn isochronous_and_synchronous_data_is_not_forwarded() {
    let mut headers = fresh();
    let mut n2a = [0u8; RING_BUF_SIZE];
    let mut ipc_buf = [0u8; 9];
    let buf = [0xFFu8; 8];
    for kind in [PacketKind::IsoData, PacketKind::SyncData, PacketKind::Cmd] {
        assert_eq!(indicator_for(kind), None);
        let trigger = forward_from_controller(&mut headers, &mut n2a, kind, &buf, &mut ipc_buf);
        assert_eq!(trigger, None);
    }
    assert_eq!(headers, fresh());
}

#[test]
fn packet_for_the_host_is_taken_apart() {
    let mut buf = [3u8; NET_PACKET_LEN];
    buf[0] = 0x04;
    assert!(packet_for_host(&buf, 0).is_none());
    let packet = packet_for_host(&buf, 4).unwrap();
    assert_eq!((packet.indicator, packet.bytes()), (0x04, &[3u8, 3, 3][..]));
    assert_eq!(packet.payload[3], 0);
    assert_eq!(packet_for_host(&buf, 1).unwrap().len, 0);
    assert_eq!(packet_for_host(&buf, 5000).unwrap().len, 1024);
}

#[test]
fn packet_too_long_for_the_host_does_not_hold_up_the_next_one() {
    let mut headers = fresh();
    let mut n2a = [0u8; RING_BUF_SIZE];
    let complete = [0x04, 0x0E, 0x04, 0x01, 0x03, 0x0C, 0x00];
    assert!(ipc_send_to_app(&mut headers, &mut n2a, &[0x02; 1026]));
    assert!(ipc_send_to_app(&mut headers, &mut n2a, &complete));
    let mut buf = [7u8; NET_PACKET_LEN];
    assert!(matches!(ipc_recv_step(&mut headers, &n2a, &mut buf), RecvStep::Skip));
    assert_eq!(buf, [7u8; NET_PACKET_LEN]);
    match ipc_recv_step(&mut headers, &n2a, &mut buf) {
        RecvStep::Deliver { packet } => {
            assert_eq!(packet.indicator, 0x04);
            assert_eq!(packet.len, 6);
            assert_eq!(packet.bytes(), &complete[1..]);
        }
        _ => panic!("no packet"),
    }
    assert_eq!(headers.n2a.write_idx, headers.n2a.read_idx);
    assert!(matches!(ipc_recv_step(&mut headers, &n2a, &mut buf), RecvStep::Idle));
}

#[test]
fn packet_too_long_for_the_controller_does_not_hold_up_the_next_one() {
    let mut headers = fresh();
    let mut a2n = [0u8; RING_BUF_SIZE];
    assert!(ipc_send_to_net(&mut headers, &mut a2n, &[0x02; 260]));
    assert!(ipc_send_to_net(&mut headers, &mut a2n, &[0x01, 0x03, 0x0C, 0x00]));
    let mut buf = [0u8; 259];
    let first = ipc_rx_step(&mut headers, &a2n, &mut buf);
    assert!(matches!(first, Some(RxAction::Skip)));
    match ipc_rx_step(&mut headers, &a2n, &mut buf) {
        Some(RxAction::Command { payload }) => assert_eq!(payload, &[0x03, 0x0C, 0x00]),
        _ => panic!("no command"),
    }
    assert_eq!(headers.a2n.write_idx, headers.a2n.read_idx);
    assert!(ipc_rx_step(&mut headers, &a2n, &mut buf).is_none());
}

#[test]
fn one_round_drains_the_ring() {
    let mut headers = fresh();
    let mut n2a = [0u8; RING_BUF_SIZE];
    let sent: [&[u8]; 5] = [&[0x04, 1], &[], &[0x02; 1200], &[0x02, 2, 3], &[0x04]];
    for packet in sent {
        assert!(ipc_send_to_app(&mut headers, &mut n2a, packet));
    }
    let mut buf = [0u8; NET_PACKET_LEN];
    let mut got: Vec<Vec<u8>> = Vec::new();
    let mut steps = 0;
    loop {
        match ipc_recv_step(&mut headers, &n2a, &mut buf) {
            RecvStep::Idle => break,
            RecvStep::Skip => {}
            RecvStep::Deliver { packet } => {
                let mut bytes = vec![packet.indicator];
                bytes.extend_from_slice(packet.bytes());
                got.push(bytes);
            }
        }
        steps += 1;
    }
    assert_eq!(steps, 5);
    assert_eq!(got, vec![vec![0x04, 1], vec![0x02, 2, 3], vec![0x04]]);
    assert_eq!(headers.n2a.write_idx, headers.n2a.read_idx);
}
