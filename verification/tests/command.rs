use thingy53_hci_usb::command::{
    command_of, complete_hci_cmd, dispatch_hci_cmd, CommandShape, Dispatch, HciCommand,
    STATUS_INVALID_PARAMS,
};
use thingy53_hci_usb::ipc::{ipc_recv_from_net, IpcEvent, IpcHeaders};
use thingy53_hci_usb::layout::RING_BUF_SIZE;
use thingy53_hci_usb::ring::RingHeader;

fn fresh() -> IpcHeaders {
    let zero = RingHeader { write_idx: 0, read_idx: 0 };
    IpcHeaders { n2a: zero, a2n: zero }
}

fn answer(headers: &mut IpcHeaders, n2a: &[u8; RING_BUF_SIZE]) -> Vec<u8> {
    let mut out = [0u8; 100];
    let n = ipc_recv_from_net(headers, n2a, &mut out).unwrap();
    out[..n].to_vec()
}

#[test]
fn every_opcode_is_the_opcode_of_its_command() {
    let mut known = 0;
    for opcode in 0..=0xFFFFu16 {
        if let Some(command) = HciCommand::from_opcode(opcode) {
            assert_eq!(command.opcode(), opcode);
            known += 1;
        }
    }
    assert_eq!(known, 92);
}

#[test]
fn some_opcodes() {
    assert_eq!(HciCommand::from_opcode(0x0C03), Some(HciCommand::CbReset));
    assert_eq!(HciCommand::from_opcode(0x0406), Some(HciCommand::LcDisconnect));
    assert_eq!(HciCommand::from_opcode(0x1009), Some(HciCommand::IpReadBdAddr));
    assert_eq!(HciCommand::from_opcode(0x2076), Some(HciCommand::LeReadIsoLinkQuality));
    assert_eq!(HciCommand::from_opcode(0x206D), None);
    assert_eq!(HciCommand::from_opcode(0x0000), None);
}

#[test]
fn one_command_of_each_shape() {
    assert_eq!(HciCommand::CbReset.shape(), CommandShape::Plain);
    assert_eq!(HciCommand::LeSetAdvData.shape(), CommandShape::Params);
    assert_eq!(HciCommand::LeRand.shape(), CommandShape::Return);
    assert_eq!(HciCommand::LeEncrypt.shape(), CommandShape::ParamsReturn);
    assert_eq!(HciCommand::LeCreateConnCancel.shape(), CommandShape::AsyncPlain);
    assert_eq!(HciCommand::LeBigCreateSync.shape(), CommandShape::AsyncParams);
}

#[test]
fn unknown_and_short_packets_are_not_handled() {
    let mut headers = fresh();
    let mut n2a = [0u8; RING_BUF_SIZE];
    let empty: [u8; 0] = [];
    assert!(matches!(dispatch_hci_cmd(&mut headers, &mut n2a, &empty, 0), Dispatch::Unhandled));
    assert!(matches!(dispatch_hci_cmd(&mut headers, &mut n2a, &[0x03], 0), Dispatch::Unhandled));
    let unknown = [0xFF, 0xFC, 0x00];
    assert!(matches!(dispatch_hci_cmd(&mut headers, &mut n2a, &unknown, 0), Dispatch::Unhandled));
    assert_eq!(command_of(&unknown), None);
    assert_eq!(headers, fresh());
}

#[test]
fn command_with_enough_parameters_is_called() {
    let mut headers = fresh();
    let mut n2a = [0u8; RING_BUF_SIZE];
    let packet = [0x01, 0x0C, 8, 1, 2, 3, 4, 5, 6, 7, 8];
    assert_eq!(command_of(&packet), Some(HciCommand::CbSetEventMask));
    match dispatch_hci_cmd(&mut headers, &mut n2a, &packet, 8) {
        Dispatch::Call { command, params } => {
            assert_eq!(command, HciCommand::CbSetEventMask);
            assert_eq!(params, &[1, 2, 3, 4, 5, 6, 7, 8]);
        }
        other => panic!("{:?}", other),
    }
    assert_eq!(headers, fresh());
}

#[test]
fn two_bytes_are_enough_for_a_command_without_parameters() {
    let mut headers = fresh();
    let mut n2a = [0u8; RING_BUF_SIZE];
    match dispatch_hci_cmd(&mut headers, &mut n2a, &[0x03, 0x0C], 99) {
        Dispatch::Call { command, params } => {
            assert_eq!(command, HciCommand::CbReset);
            assert_eq!(params.len(), 0);
        }
        other => panic!("{:?}", other),
    }
}

#[test]
fn short_parameters_are_refused_as_invalid() {
    assert_eq!(STATUS_INVALID_PARAMS, 0x12);
    let mut headers = fresh();
    let mut n2a = [0u8; RING_BUF_SIZE];
    // Three bytes hold no parameters at all.
    let refused = dispatch_hci_cmd(&mut headers, &mut n2a, &[0x15, 0x20, 0], 2);
    assert!(matches!(refused, Dispatch::Refused { trigger: Some(IpcEvent::Event0) }));
    let event = answer(&mut headers, &n2a);
    assert_eq!(event, [0x04, 0x0E, 0x04, 0x01, 0x15, 0x20, 0x12]);
}

#[test]
fn short_parameters_of_an_asynchronous_command_are_refused_by_status() {
    let mut headers = fresh();
    let mut n2a = [0u8; RING_BUF_SIZE];
    let refused = dispatch_hci_cmd(&mut headers, &mut n2a, &[0x06, 0x04, 3, 1, 2], 3);
    assert!(matches!(refused, Dispatch::Refused { trigger: Some(IpcEvent::Event0) }));
    let event = answer(&mut headers, &n2a);
    assert_eq!(event, [0x04, 0x0F, 0x04, 0x12, 0x01, 0x06, 0x04]);
}

#[test]
fn answer_follows_the_shape_of_the_command() {
    let mut headers = fresh();
    let mut n2a = [0u8; RING_BUF_SIZE];
    let data = [0xA1, 0xA2];
    complete_hci_cmd(&mut headers, &mut n2a, HciCommand::CbReset, 0, &data);
    complete_hci_cmd(&mut headers, &mut n2a, HciCommand::LeReadPhy, 0x02, &data);
    complete_hci_cmd(&mut headers, &mut n2a, HciCommand::LeSetPhy, 0x00, &data);
    assert_eq!(answer(&mut headers, &n2a), [0x04, 0x0E, 4, 1, 0x03, 0x0C, 0]);
    assert_eq!(answer(&mut headers, &n2a), [0x04, 0x0E, 6, 1, 0x30, 0x20, 2, 0xA1, 0xA2]);
    assert_eq!(answer(&mut headers, &n2a), [0x04, 0x0F, 4, 0, 1, 0x32, 0x20]);
}
