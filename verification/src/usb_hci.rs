//! The USB side: a Bluetooth HCI device.
//!
//! | EP   | Type      | Dir | Use |
//! |------|-----------|-----|-----|
//! | EP0  | Control   | OUT | HCI commands, as class requests |
//! | EP1  | Interrupt | IN  | HCI events |
//! | EP2  | Bulk      | IN  | HCI ACL data to the host |
//! | EP2  | Bulk      | OUT | HCI ACL data from the host |
use embassy_usb::driver::{Direction, EndpointAddress};
use vstd::prelude::*;

use crate::hci::copy_to;

verus! {

/// USB class of a wireless controller.
pub const BT_CLASS: u8 = 0xE0;

/// USB subclass of a radio frequency controller.
pub const BT_SUBCLASS: u8 = 0x01;

/// USB protocol of a Bluetooth programming interface.
pub const BT_PROTOCOL: u8 = 0x01;

/// Longest HCI command: opcode (2 bytes), parameter length (1 byte) and up to
/// 255 bytes of parameters.
pub const MAX_CMD_LEN: usize = 258;

/// Longest ACL packet: header (4 bytes) and up to 1020 bytes of data.
pub const MAX_ACL_LEN: usize = 1024;

/// Longest packet of any kind.
pub const MAX_HCI_PAYLOAD: usize = MAX_ACL_LEN;

/// Packets that wait between two tasks at most.
pub const CHANNEL_DEPTH: usize = 4;

/// Longest packet on one of the three data endpoints.
pub const EP_PACKET_SIZE: usize = 64;

/// Milliseconds between two polls of the event endpoint.
pub const EVENT_POLL_MS: u8 = 1;

/// An HCI packet on its way to the host.
pub struct HciPacket {
    /// Indicator byte: `0x01` command, `0x02` ACL data, `0x04` event.
    pub indicator: u8,
    /// The packet, then bytes without meaning.
    pub payload: [u8; MAX_HCI_PAYLOAD],
    /// Bytes of the packet.
    pub len: usize,
}

impl HciPacket {
    /// The length is one that the packet can have.
    pub open spec fn wf(self) -> bool {
        self.len <= MAX_HCI_PAYLOAD
    }

    /// The bytes of the packet.
    pub open spec fn content(self) -> Seq<u8> {
        self.payload@.take(self.len as int)
    }

    /// The bytes of the packet.
    pub fn bytes(&self) -> (bytes: &[u8])
        requires
            self.wf(),
        ensures
            bytes@ == self.content(),
    {
        &self.payload[0..self.len]
    }
}

/// An HCI command on its way to the network core.
pub struct HciCmdBuf {
    /// The command, then bytes without meaning.
    pub data: [u8; MAX_CMD_LEN],
    /// Bytes of the command.
    pub len: usize,
}

impl HciCmdBuf {
    /// The length is one that the command can have.
    pub open spec fn wf(self) -> bool {
        self.len <= MAX_CMD_LEN
    }

    /// The bytes of the command.
    pub open spec fn content(self) -> Seq<u8> {
        self.data@.take(self.len as int)
    }

    /// The bytes of the command.
    pub fn bytes(&self) -> (bytes: &[u8])
        requires
            self.wf(),
        ensures
            bytes@ == self.content(),
    {
        &self.data[0..self.len]
    }
}

/// Who defines a control request.
#[derive(Clone, Copy, Debug, PartialEq, Eq, Structural)]
pub enum RequestType {
    /// The USB standard.
    Standard,
    /// The device class.
    Class,
    /// The vendor.
    Vendor,
    /// Nobody.
    Reserved,
}

/// What a control request is addressed to.
#[derive(Clone, Copy, Debug, PartialEq, Eq, Structural)]
pub enum Recipient {
    /// The device.
    Device,
    /// An interface.
    Interface,
    /// An endpoint.
    Endpoint,
    /// Something else.
    Other,
    /// Nothing.
    Reserved,
}

/// What the handler looks at in a control request.
#[derive(Clone, Copy, Debug, PartialEq, Eq, Structural)]
pub struct ControlRequest {
    /// Who defines it.
    pub request_type: RequestType,
    /// What it is addressed to.
    pub recipient: Recipient,
    /// The request code.
    pub request: u8,
}

impl ControlRequest {
    /// The request carries an HCI command: class request 0 to the device, as the
    /// Bluetooth USB transport has it, or to an interface, as some hosts do.
    pub open spec fn carries_command(self) -> bool {
        &&& self.request_type is Class
        &&& self.request == 0
        &&& self.recipient is Device || self.recipient is Interface
    }
}

/// The bytes of an HCI command that are kept of the `data` of a control request.
pub open spec fn kept_command(data: Seq<u8>) -> Seq<u8> {
    if data.len() <= MAX_CMD_LEN {
        data
    } else {
        data.take(MAX_CMD_LEN as int)
    }
}

/// The HCI command that a control request with `data` carries. A request that
/// carries none is left to others. Data beyond the longest command is cut off.
///
/// The request counts as accepted whether or not there is room for the command.
pub fn control_out(req: ControlRequest, data: &[u8]) -> (command: Option<HciCmdBuf>)
    ensures
        command is Some <==> req.carries_command(),
        command matches Some(cmd) ==> {
            &&& cmd.wf()
            &&& cmd.content() == kept_command(data@)
            &&& forall|i: int| cmd.len <= i < MAX_CMD_LEN ==> cmd.data@[i] == 0
        },
{
    let for_us = match req.recipient {
        Recipient::Device | Recipient::Interface => true,
        Recipient::Endpoint | Recipient::Other | Recipient::Reserved => false,
    };
    if req.request_type == RequestType::Class && req.request == 0x00 && for_us {
        let len: usize = if data.len() <= MAX_CMD_LEN {
            data.len()
        } else {
            MAX_CMD_LEN
        };
        let mut buf = [0u8; MAX_CMD_LEN];
        copy_to(&mut buf, 0, &data[0..len]);
        let cmd = HciCmdBuf { data: buf, len };
        assert(cmd.content() =~= kept_command(data@));
        Some(cmd)
    } else {
        None
    }
}

/// The packets that carry `data` over an IN endpoint: as many full ones as there
/// are, then a short one, which ends the transfer. The short one is empty if
/// `data` fills whole packets.
pub open spec fn transfer(data: Seq<u8>) -> Seq<Seq<u8>> {
    Seq::new(
        (data.len() / (EP_PACKET_SIZE as nat) + 1) as nat,
        |k: int|
            if (k + 1) * EP_PACKET_SIZE <= data.len() {
                data.subrange(k * EP_PACKET_SIZE, (k + 1) * EP_PACKET_SIZE)
            } else {
                data.skip(k * EP_PACKET_SIZE)
            },
    )
}

/// The next packet to write to an IN endpoint when `written` packets of `data`
/// have been written, or `None` if the transfer is complete.
pub fn write_ep(data: &[u8], written: usize) -> (packet: Option<&[u8]>)
    ensures
        match packet {
            Some(bytes) => written < transfer(data@).len() && bytes@ == transfer(
                data@,
            )[written as int],
            None => written >= transfer(data@).len(),
        },
{
    let len: usize = data.len();
    if written > len / EP_PACKET_SIZE {
        return None;
    }
    let start: usize = written * EP_PACKET_SIZE;
    let end: usize = if len - start >= EP_PACKET_SIZE {
        start + EP_PACKET_SIZE
    } else {
        len
    };
    let bytes = &data[start..end];
    assert(bytes@ =~= transfer(data@)[written as int]);
    Some(bytes)
}

/// The first `n` packets of a transfer, put together.
pub open spec fn joined(packets: Seq<Seq<u8>>, n: int) -> Seq<u8>
    decreases n,
{
    if n <= 0 {
        Seq::empty()
    } else {
        joined(packets, n - 1) + packets[n - 1]
    }
}

/// The host gets `data` and knows where it ends: the packets of a transfer, put
/// together, are `data`; all but the last are full, and the last is not.
pub proof fn law_transfer_is_complete(data: Seq<u8>)
    ensures
        joined(transfer(data), transfer(data).len() as int) == data,
        transfer(data).len() >= 1,
        forall|k: int|
            0 <= k < transfer(data).len() - 1 ==> (#[trigger] transfer(data)[k]).len()
                == EP_PACKET_SIZE,
        transfer(data).last().len() < EP_PACKET_SIZE,
        transfer(data).last().len() == 0 <==> data.len() % (EP_PACKET_SIZE as nat) == 0,
{
    let packets = transfer(data);
    let n = packets.len() - 1;
    lemma_joined(data, n);
    assert(joined(packets, n + 1) =~= data);
}

proof fn lemma_joined(data: Seq<u8>, n: int)
    requires
        0 <= n < transfer(data).len(),
    ensures
        n * EP_PACKET_SIZE <= data.len(),
        joined(transfer(data), n) == data.take(n * EP_PACKET_SIZE),
    decreases n,
{
    if n == 0 {
        assert(data.take(0) =~= Seq::<u8>::empty());
    } else {
        lemma_joined(data, n - 1);
        assert(joined(transfer(data), n) =~= data.take(n * EP_PACKET_SIZE));
    }
}

/// Which way an endpoint carries data, as the host sees it.
#[derive(Clone, Copy, Debug, PartialEq, Eq, Structural)]
pub enum EndpointDirection {
    /// From the device to the host.
    In,
    /// From the host to the device.
    Out,
}

/// The addresses of the three data endpoints.
#[derive(Clone, Copy, Debug, PartialEq, Eq, Structural)]
pub struct HciEndpoints {
    /// Interrupt endpoint for HCI events.
    pub event_in: u8,
    /// Bulk endpoint for ACL data to the host.
    pub acl_in: u8,
    /// Bulk endpoint for ACL data from the host.
    pub acl_out: u8,
}

/// Calls `embassy_usb::driver::EndpointAddress::from_parts` and converts the
/// address to the byte that stands for it: the low eight bits of the index, with
/// the top bit set for an IN endpoint.
#[verifier::external_body]
fn endpoint_address(index: usize, direction: EndpointDirection) -> (address: u8)
    ensures
        address == (index as u8) | if direction is In {
            0x80u8
        } else {
            0x00u8
        },
{
    let dir = match direction {
        EndpointDirection::In => Direction::In,
        EndpointDirection::Out => Direction::Out,
    };
    u8::from(EndpointAddress::from_parts(index, dir))
}

/// The addresses of the three data endpoints. Hosts look for these very ones, so
/// they are not left to the order in which endpoints are allocated.
pub fn hci_endpoints() -> (endpoints: HciEndpoints)
    ensures
        endpoints.event_in == 0x81,
        endpoints.acl_in == 0x82,
        endpoints.acl_out == 0x02,
{
    assert(1u8 | 0x80 == 0x81 && 2u8 | 0x80 == 0x82 && 2u8 | 0x00 == 0x02) by (bit_vector);
    HciEndpoints {
        event_in: endpoint_address(1, EndpointDirection::In),
        acl_in: endpoint_address(2, EndpointDirection::In),
        acl_out: endpoint_address(2, EndpointDirection::Out),
    }
}

/// A packet is the first bytes of its buffer, as many as its length says, in
/// their order; so is a command.
pub proof fn law_content_is_the_first_bytes(packet: HciPacket, cmd: HciCmdBuf, i: int)
    ensures
        packet.wf() <==> packet.len <= 1024,
        cmd.wf() <==> cmd.len <= 258,
        packet.len <= 1024 ==> packet.content().len() == packet.len,
        0 <= i < packet.len <= 1024 ==> packet.content()[i] == packet.payload@[i],
        cmd.len <= 258 ==> cmd.content().len() == cmd.len,
        0 <= i < cmd.len <= 258 ==> cmd.content()[i] == cmd.data@[i],
{
}

/// Which control requests carry a command: class requests with code 0, to the
/// device or to an interface, and no others.
pub proof fn law_class_requests_carry_commands(req: ControlRequest)
    ensures
        req.request != 0 ==> !req.carries_command(),
        req.request_type != RequestType::Class ==> !req.carries_command(),
        req.recipient == Recipient::Endpoint ==> !req.carries_command(),
        req.recipient == Recipient::Other ==> !req.carries_command(),
        req.recipient == Recipient::Reserved ==> !req.carries_command(),
        req.request == 0 && req.request_type == RequestType::Class && (req.recipient
            == Recipient::Device || req.recipient == Recipient::Interface)
            ==> req.carries_command(),
{
}

/// A command is kept as the host gave it, byte for byte; beyond 258 bytes it is
/// cut off.
pub proof fn law_command_is_kept_as_given(data: Seq<u8>, i: int)
    ensures
        data.len() <= 258 ==> kept_command(data) == data,
        data.len() > 258 ==> kept_command(data).len() == 258,
        0 <= i < data.len() && i < 258 ==> kept_command(data)[i] == data[i],
{
}

/// Every byte of a transfer goes over in its place: byte `i` is byte `i % 64` of
/// packet `i / 64`. There is one packet for each 64 bytes and one more, and no
/// packet holds anything else.
pub proof fn law_transfer_keeps_every_byte(data: Seq<u8>, i: int, k: int)
    ensures
        transfer(data).len() == data.len() / 64 + 1,
        0 <= k < data.len() / 64 ==> transfer(data)[k].len() == 64,
        k == data.len() / 64 ==> transfer(data)[k].len() == data.len() % 64,
        0 <= i < data.len() ==> transfer(data)[i / 64][i % 64] == data[i],
{
    if 0 <= i < data.len() {
        let q = i / 64;
        assert(i == 64 * q + i % 64);
        assert(0 <= q < transfer(data).len());
    }
}

} // verus!
