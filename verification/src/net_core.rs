//! What the loops of the network core decide.
use vstd::prelude::*;

use crate::hci;
use crate::hci::{hci_packet_len, put_packet, HCI_ACL_DATA, HCI_COMMAND, HCI_EVENT};
use crate::ipc;
use crate::ipc::{ipc_recv_from_app, notify_app, IpcEvent, IpcHeaders};
use crate::layout::RING_BUF_SIZE;
use crate::ring;

verus! {

/// The kinds of packet that the controller hands out.
#[derive(Clone, Copy, Debug, PartialEq, Eq, Structural)]
pub enum PacketKind {
    /// Command.
    Cmd,
    /// ACL data.
    AclData,
    /// Synchronous data.
    SyncData,
    /// Event.
    Event,
    /// Isochronous data.
    IsoData,
}

/// The indicator under which a packet of this kind goes to the application core.
/// Only events and ACL data go there.
pub open spec fn forwarded_as(kind: PacketKind) -> Option<u8> {
    match kind {
        PacketKind::Event => Some(HCI_EVENT),
        PacketKind::AclData => Some(HCI_ACL_DATA),
        _ => None,
    }
}

/// The indicator under which a packet of this kind goes to the application core,
/// or `None` if it does not go there.
pub fn indicator_for(kind: PacketKind) -> (indicator: Option<u8>)
    ensures
        indicator == forwarded_as(kind),
{
    match kind {
        PacketKind::Event => Some(HCI_EVENT),
        PacketKind::AclData => Some(HCI_ACL_DATA),
        PacketKind::Cmd | PacketKind::SyncData | PacketKind::IsoData => None,
    }
}

/// Sends the packet at the start of `buf`, which came from the controller, to the
/// application core. Returns the event to trigger; there is none if the packet is
/// of a kind that is not forwarded, or dropped for want of room. `ipc_buf` is
/// scratch space.
pub fn forward_from_controller(
    headers: &mut IpcHeaders,
    n2a: &mut [u8; RING_BUF_SIZE],
    kind: PacketKind,
    buf: &[u8],
    ipc_buf: &mut [u8],
) -> (trigger: Option<IpcEvent>)
    requires
        forwarded_as(kind) matches Some(indicator) ==> hci::packet_len(indicator, buf@)
            <= buf@.len(),
        1 + buf@.len() <= old(ipc_buf)@.len(),
    ensures
        match forwarded_as(kind) {
            Some(indicator) => {
                let packet = seq![indicator] + buf@.take(hci::packet_len(indicator, buf@));
                &&& (*final(headers), final(n2a)@, trigger) == ipc::app_notified(
                    *old(headers),
                    old(n2a)@,
                    packet,
                )
                &&& final(ipc_buf)@ == packet + old(ipc_buf)@.skip(packet.len() as int)
            },
            None => {
                &&& trigger is None
                &&& *final(headers) == *old(headers)
                &&& final(n2a)@ == old(n2a)@
                &&& final(ipc_buf)@ == old(ipc_buf)@
            },
        },
{
    match indicator_for(kind) {
        Some(indicator) => {
            let pkt_len: usize = hci_packet_len(indicator, buf);
            let len: usize = put_packet(indicator, &buf[0..pkt_len], ipc_buf);
            let packet = &ipc_buf[0..len];
            assert(packet@ =~= seq![indicator] + buf@.take(pkt_len as int));
            notify_app(headers, n2a, packet)
        },
        None => None,
    }
}

/// What becomes of a packet from the application core.
#[derive(Clone, Copy, Debug)]
pub enum RxAction<'a> {
    /// It is empty, or too long and dropped: nothing.
    Skip,
    /// It is an HCI command: dispatch it.
    Command {
        /// The packet behind its indicator.
        payload: &'a [u8],
    },
    /// It is ACL data: hand it to the controller.
    AclData {
        /// The packet behind its indicator.
        payload: &'a [u8],
    },
    /// It is of no known kind: drop it.
    Unknown {
        /// Its indicator.
        indicator: u8,
    },
}

/// The same, with the bytes of the packet in place of a slice.
pub enum RxMeaning {
    /// Nothing is done.
    Skip,
    /// A command is dispatched.
    Command(Seq<u8>),
    /// ACL data goes to the controller.
    AclData(Seq<u8>),
    /// A packet of no known kind is dropped.
    Unknown(u8),
}

impl<'a> RxAction<'a> {
    /// The action, with the bytes of the packet in place of a slice.
    pub open spec fn meaning(self) -> RxMeaning {
        match self {
            RxAction::Skip => RxMeaning::Skip,
            RxAction::Command { payload } => RxMeaning::Command(payload@),
            RxAction::AclData { payload } => RxMeaning::AclData(payload@),
            RxAction::Unknown { indicator } => RxMeaning::Unknown(indicator),
        }
    }
}

/// What becomes of a packet from the application core: its first byte tells.
pub open spec fn rx_meaning(packet: Seq<u8>) -> RxMeaning {
    if packet.len() == 0 {
        RxMeaning::Skip
    } else if packet[0] == HCI_COMMAND {
        RxMeaning::Command(packet.skip(1))
    } else if packet[0] == HCI_ACL_DATA {
        RxMeaning::AclData(packet.skip(1))
    } else {
        RxMeaning::Unknown(packet[0])
    }
}

/// Decides what becomes of the packet in the first `n` bytes of `buf`, which
/// came from the application core.
pub fn rx_action<'a>(buf: &'a [u8], n: usize) -> (action: RxAction<'a>)
    requires
        n <= buf@.len(),
    ensures
        action.meaning() == rx_meaning(buf@.take(n as int)),
{
    if n == 0 {
        return RxAction::Skip;
    }
    let indicator: u8 = buf[0];
    let payload = &buf[1..n];
    assert(payload@ =~= buf@.take(n as int).skip(1));
    if indicator == HCI_COMMAND {
        RxAction::Command { payload }
    } else if indicator == HCI_ACL_DATA {
        RxAction::AclData { payload }
    } else {
        RxAction::Unknown { indicator }
    }
}

/// Takes the next packet of the application core out of its ring buffer, by way
/// of `buf`, and decides what becomes of it. A packet longer than `buf` is
/// dropped. One interrupt may stand for several packets, so a round ends, with
/// `None`, only when the ring buffer is empty.
pub fn ipc_rx_step<'a>(
    headers: &mut IpcHeaders,
    a2n: &[u8; RING_BUF_SIZE],
    buf: &'a mut [u8],
) -> (action: Option<RxAction<'a>>)
    ensures
        final(headers).a2n == ring::after_read(old(headers).a2n, a2n@),
        final(headers).n2a == old(headers).n2a,
        match ring::packet_read(old(headers).a2n, a2n@, old(buf)@.len() as int) {
            Some(packet) => {
                &&& action matches Some(a)
                &&& a.meaning() == rx_meaning(packet)
                &&& final(buf)@ == packet + old(buf)@.skip(packet.len() as int)
            },
            None => {
                &&& final(buf)@ == old(buf)@
                &&& if old(headers).a2n.write_idx == old(headers).a2n.read_idx {
                    action is None
                } else {
                    action == Some(RxAction::<'a>::Skip)
                }
            },
        },
        action is None <==> old(headers).a2n.write_idx == old(headers).a2n.read_idx,
{
    if headers.a2n.write_idx == headers.a2n.read_idx {
        return None;
    }
    match ipc_recv_from_app(headers, a2n, buf) {
        Some(n) => {
            let received: &'a [u8] = buf;
            let action = rx_action(received, n);
            proof {
                let packet = ring::packet_read(old(headers).a2n, a2n@, old(buf)@.len() as int)->0;
                assert(received@.take(n as int) =~= packet);
            }
            Some(action)
        },
        None => Some(RxAction::Skip),
    }
}

/// Events and ACL data are forwarded, each under its own indicator, and packets of
/// other kinds are not.
pub proof fn law_kinds_that_are_forwarded(kind: PacketKind)
    ensures
        match kind {
            PacketKind::Event => forwarded_as(kind) == Some(0x04u8),
            PacketKind::AclData => forwarded_as(kind) == Some(0x02u8),
            PacketKind::Cmd => forwarded_as(kind) is None,
            PacketKind::SyncData => forwarded_as(kind) is None,
            PacketKind::IsoData => forwarded_as(kind) is None,
        },
{
}

/// What becomes of a packet rests on its first byte alone, and what follows it is
/// handed on as it stands.
pub proof fn law_indicator_tells_the_meaning(indicator: u8, payload: Seq<u8>)
    ensures
        rx_meaning(Seq::empty()) == RxMeaning::Skip,
        indicator == 0x01 ==> rx_meaning(seq![indicator] + payload) == RxMeaning::Command(payload),
        indicator == 0x02 ==> rx_meaning(seq![indicator] + payload) == RxMeaning::AclData(payload),
        indicator != 0x01 && indicator != 0x02 ==> rx_meaning(seq![indicator] + payload)
            == RxMeaning::Unknown(indicator),
{
    assert((seq![indicator] + payload).skip(1) =~= payload);
}

/// The meaning of an action is the action itself, with the bytes of its slice.
pub proof fn law_action_means_what_it_says<'a>(action: RxAction<'a>)
    ensures
        match action {
            RxAction::Skip => action.meaning() == RxMeaning::Skip,
            RxAction::Command { payload } => action.meaning() == RxMeaning::Command(payload@),
            RxAction::AclData { payload } => action.meaning() == RxMeaning::AclData(payload@),
            RxAction::Unknown { indicator } => action.meaning() == RxMeaning::Unknown(indicator),
        },
{
}

} // verus!
