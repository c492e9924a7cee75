use thingy53_hci_usb::usb_hci::{
    control_out, hci_endpoints, write_ep, ControlRequest, HciPacket, Recipient, RequestType,
    MAX_CMD_LEN, MAX_HCI_PAYLOAD,
};

fn command_request() -> ControlRequest {
    ControlRequest { request_type: RequestType::Class, recipient: Recipient::Device, request: 0 }
}

fn transfer(data: &[u8]) -> Vec<Vec<u8>> {
    let mut packets = Vec::new();
    while let Some(packet) = write_ep(data, packets.len()) {
        packets.push(packet.to_vec());
    }
    packets
}

#[test]
fn class_request_carries_a_command() {
    let cmd = control_out(command_request(), &[0x03, 0x0C, 0x00]).unwrap();
    assert_eq!(cmd.bytes(), &[0x03, 0x0C, 0x00]);
    assert_eq!(cmd.len, 3);
    assert!(cmd.data[3..].iter().all(|&b| b == 0));
    let req = ControlRequest { recipient: Recipient::Interface, ..command_request() };
    assert_eq!(control_out(req, &[1, 2]).unwrap().bytes(), &[1, 2]);
}

#[test]
fn other_requests_are_left_to_others() {
    for request_type in [RequestType::Standard, RequestType::Vendor, RequestType::Reserved] {
        let req = ControlRequest { request_type, ..command_request() };
        assert!(control_out(req, &[1]).is_none());
    }
    for recipient in [Recipient::Endpoint, Recipient::Other, Recipient::Reserved] {
        let req = ControlRequest { recipient, ..command_request() };
        assert!(control_out(req, &[1]).is_none());
    }
    let req = ControlRequest { request: 1, ..command_request() };
    assert!(control_out(req, &[1]).is_none());
}

#[test]
fn long_command_is_cut() {
    let data: Vec<u8> = (0..300).map(|i| (i % 256) as u8).collect();
    let cmd = control_out(command_request(), &data).unwrap();
    assert_eq!(cmd.len, 258);
    assert_eq!(cmd.bytes(), &data[..MAX_CMD_LEN]);
}

#[test]
fn transfer_ends_with_a_short_packet() {
    let data: Vec<u8> = (0..130).collect();
    let packets = transfer(&data);
    assert_eq!(packets.iter().map(|p| p.len()).collect::<Vec<_>>(), [64, 64, 2]);
    assert_eq!(packets.concat(), data);
}

#[test]
fn transfer_of_whole_packets_ends_with_an_empty_one() {
    let data: Vec<u8> = (0..128).collect();
    let packets = transfer(&data);
    assert_eq!(packets.iter().map(|p| p.len()).collect::<Vec<_>>(), [64, 64, 0]);
    assert_eq!(packets.concat(), data);
    assert_eq!(transfer(&[]), vec![Vec::<u8>::new()]);
    assert_eq!(transfer(&[9]), vec![vec![9]]);
    assert!(write_ep(&[9], usize::MAX).is_none());
}

#[test]
fn endpoints_have_the_addresses_that_hosts_expect() {
    let endpoints = hci_endpoints();
    assert_eq!(endpoints.event_in, 0x81);
    assert_eq!(endpoints.acl_in, 0x82);
    assert_eq!(endpoints.acl_out, 0x02);
}

#[test]
fn packet_gives_its_bytes() {
    let mut payload = [0u8; MAX_HCI_PAYLOAD];
    payload[0] = 5;
    payload[1] = 6;
    let packet = HciPacket { indicator: 0x04, payload, len: 2 };
    assert_eq!(packet.bytes(), &[5, 6]);
}
