//! What the tasks of the application core decide.
use vstd::prelude::*;

use crate::hci::{copy_to, put_packet, HCI_ACL_DATA, HCI_COMMAND, HCI_EVENT};
use crate::ipc;
use crate::ipc::{ipc_recv_from_net, notify_net, IpcEvent, IpcHeaders};
use crate::layout::RING_BUF_SIZE;
use crate::led::LedColor;
use crate::ring;
use crate::usb_hci::{HciCmdBuf, HciPacket, MAX_ACL_LEN, MAX_CMD_LEN, MAX_HCI_PAYLOAD};

verus! {

/// Longest ACL packet with its indicator.
pub const ACL_PACKET_LEN: usize = 1 + MAX_ACL_LEN;

/// Longest command with its indicator.
pub const CMD_PACKET_LEN: usize = 1 + MAX_CMD_LEN;

/// Longest packet of any kind with its indicator.
pub const NET_PACKET_LEN: usize = 1 + MAX_HCI_PAYLOAD;

/// What the task that writes to the host waits for.
#[derive(Clone, Copy, Debug, PartialEq, Eq, Structural)]
pub enum UsbWriteState {
    /// The host, to configure the device.
    AwaitHost,
    /// A packet from the network core.
    AwaitPacket,
    /// The event endpoint, to take the packet.
    WritingEvent,
    /// The ACL endpoint, to take the packet.
    WritingAcl,
}

/// What happens to the task that writes to the host.
#[derive(Clone, Copy, Debug, PartialEq, Eq, Structural)]
pub enum UsbWriteEvent {
    /// The host has configured the device.
    HostReady,
    /// There is a packet with this indicator.
    Packet {
        /// The packet's first byte.
        indicator: u8,
    },
    /// The endpoint has taken the whole packet.
    Written,
    /// The endpoint has failed.
    WriteFailed,
}

impl UsbWriteState {
    /// The host has the device configured, as far as the task knows.
    pub open spec fn connected(self) -> bool {
        !(self is AwaitHost)
    }

    /// A packet is being written.
    pub open spec fn writing(self) -> bool {
        self is WritingEvent || self is WritingAcl
    }

    /// `event` is one that the task waits for.
    pub open spec fn awaits(self, event: UsbWriteEvent) -> bool {
        match event {
            UsbWriteEvent::HostReady => self is AwaitHost,
            UsbWriteEvent::Packet { .. } => self is AwaitPacket,
            UsbWriteEvent::Written => self.writing(),
            UsbWriteEvent::WriteFailed => self.writing(),
        }
    }
}

/// The state that the task which writes to the host goes to, and the colour to
/// show, if that changes.
pub open spec fn usb_write_next(state: UsbWriteState, event: UsbWriteEvent) -> (
    UsbWriteState,
    Option<LedColor>,
) {
    match (state, event) {
        (UsbWriteState::AwaitHost, UsbWriteEvent::HostReady) => (
            UsbWriteState::AwaitPacket,
            Some(LedColor::Blue),
        ),
        (UsbWriteState::AwaitPacket, UsbWriteEvent::Packet { indicator }) => (
            if indicator == HCI_EVENT {
                UsbWriteState::WritingEvent
            } else if indicator == HCI_ACL_DATA {
                UsbWriteState::WritingAcl
            } else {
                UsbWriteState::AwaitPacket
            },
            None,
        ),
        (UsbWriteState::WritingEvent, UsbWriteEvent::Written) => (UsbWriteState::AwaitPacket, None),
        (UsbWriteState::WritingAcl, UsbWriteEvent::Written) => (UsbWriteState::AwaitPacket, None),
        (UsbWriteState::WritingEvent, UsbWriteEvent::WriteFailed) => (
            UsbWriteState::AwaitHost,
            Some(LedColor::Yellow),
        ),
        (UsbWriteState::WritingAcl, UsbWriteEvent::WriteFailed) => (
            UsbWriteState::AwaitHost,
            Some(LedColor::Yellow),
        ),
        _ => (state, None),
    }
}

/// What the task that writes to the host does next: the state it goes to, and
/// the colour to show, if that changes.
///
/// Events go to the event endpoint and ACL data to the ACL endpoint; a packet
/// with another indicator is skipped. The indicator is blue while the host is
/// there and yellow once a write has failed. An event that the task does not
/// wait for changes nothing.
pub fn usb_write_step(state: UsbWriteState, event: UsbWriteEvent) -> (next: (
    UsbWriteState,
    Option<LedColor>,
))
    ensures
        next == usb_write_next(state, event),
        (state is WritingEvent || state is WritingAcl) && event is Written ==> next == (
            UsbWriteState::AwaitPacket,
            None::<LedColor>,
        ),
        (state is WritingEvent || state is WritingAcl) && event is WriteFailed ==> next == (
            UsbWriteState::AwaitHost,
            Some(LedColor::Yellow),
        ),
        !state.awaits(event) ==> next == (state, None::<LedColor>),
        state.awaits(event) ==> match event {
            UsbWriteEvent::HostReady => next == (UsbWriteState::AwaitPacket, Some(LedColor::Blue)),
            UsbWriteEvent::Packet { indicator } => {
                &&& next.1 is None
                &&& next.0 is WritingEvent <==> indicator == HCI_EVENT
                &&& next.0 is WritingAcl <==> indicator == HCI_ACL_DATA
                &&& next.0 is AwaitPacket <==> indicator != HCI_EVENT && indicator != HCI_ACL_DATA
            },
            UsbWriteEvent::Written => next == (UsbWriteState::AwaitPacket, None::<LedColor>),
            UsbWriteEvent::WriteFailed => next == (
                UsbWriteState::AwaitHost,
                Some(LedColor::Yellow),
            ),
        },
        next.1 == if next.0.connected() && !state.connected() {
            Some(LedColor::Blue)
        } else if !next.0.connected() && state.connected() {
            Some(LedColor::Yellow)
        } else {
            None
        },
{
    match (state, event) {
        (UsbWriteState::AwaitHost, UsbWriteEvent::HostReady) => (
            UsbWriteState::AwaitPacket,
            Some(LedColor::Blue),
        ),
        (UsbWriteState::AwaitPacket, UsbWriteEvent::Packet { indicator }) => {
            if indicator == HCI_EVENT {
                (UsbWriteState::WritingEvent, None)
            } else if indicator == HCI_ACL_DATA {
                (UsbWriteState::WritingAcl, None)
            } else {
                (UsbWriteState::AwaitPacket, None)
            }
        },
        (UsbWriteState::WritingEvent, UsbWriteEvent::Written)
        | (UsbWriteState::WritingAcl, UsbWriteEvent::Written) => (UsbWriteState::AwaitPacket, None),
        (UsbWriteState::WritingEvent, UsbWriteEvent::WriteFailed)
        | (UsbWriteState::WritingAcl, UsbWriteEvent::WriteFailed) => (
            UsbWriteState::AwaitHost,
            Some(LedColor::Yellow),
        ),
        _ => (state, None),
    }
}

/// What the task that reads from the host does next.
#[derive(Clone, Copy, Debug, PartialEq, Eq, Structural)]
pub enum UsbReadStep {
    /// Read on. The packet was sent to the network core, or dropped if there was
    /// no room for it.
    ReadOn {
        /// The event to trigger.
        trigger: Option<IpcEvent>,
    },
    /// Wait until the host configures the device again.
    AwaitHost,
}

/// Sends ACL data that came from the host to the network core. `received` is the
/// number of bytes that the endpoint put at the start of `buf`, or `None` if it
/// was disabled.
pub fn usb_read_step(
    headers: &mut IpcHeaders,
    a2n: &mut [u8; RING_BUF_SIZE],
    buf: &[u8; MAX_ACL_LEN],
    received: Option<usize>,
) -> (step: UsbReadStep)
    requires
        received matches Some(n) ==> n <= MAX_ACL_LEN,
    ensures
        match received {
            Some(n) => {
                &&& step matches UsbReadStep::ReadOn { trigger }
                &&& (*final(headers), final(a2n)@, trigger) == ipc::net_notified(
                    *old(headers),
                    old(a2n)@,
                    seq![HCI_ACL_DATA] + buf@.take(n as int),
                )
            },
            None => {
                &&& step is AwaitHost
                &&& *final(headers) == *old(headers)
                &&& final(a2n)@ == old(a2n)@
            },
        },
{
    match received {
        Some(n) => {
            let mut pkt = [0u8; ACL_PACKET_LEN];
            let len: usize = put_packet(HCI_ACL_DATA, &buf[0..n], &mut pkt);
            let packet = &pkt[0..len];
            assert(packet@ =~= seq![HCI_ACL_DATA] + buf@.take(n as int));
            UsbReadStep::ReadOn { trigger: notify_net(headers, a2n, packet) }
        },
        None => UsbReadStep::AwaitHost,
    }
}

/// Sends an HCI command of the host to the network core. Returns the event to
/// trigger, or `None` if there is no room and the command is dropped.
pub fn forward_command(
    headers: &mut IpcHeaders,
    a2n: &mut [u8; RING_BUF_SIZE],
    cmd: &HciCmdBuf,
) -> (trigger: Option<IpcEvent>)
    requires
        cmd.wf(),
    ensures
        (*final(headers), final(a2n)@, trigger) == ipc::net_notified(
            *old(headers),
            old(a2n)@,
            seq![HCI_COMMAND] + cmd.content(),
        ),
{
    let mut pkt = [0u8; CMD_PACKET_LEN];
    let len: usize = put_packet(HCI_COMMAND, cmd.bytes(), &mut pkt);
    let packet = &pkt[0..len];
    assert(packet@ =~= seq![HCI_COMMAND] + cmd.content());
    notify_net(headers, a2n, packet)
}

/// The packet for the host in the first `n` bytes of `buf`, which came from the
/// network core. An empty one is skipped. Of a number of bytes beyond `buf`, all
/// of `buf` is taken.
pub fn packet_for_host(buf: &[u8; NET_PACKET_LEN], n: usize) -> (packet: Option<HciPacket>)
    ensures
        packet is None <==> n == 0,
        packet matches Some(p) ==> {
            &&& p.wf()
            &&& p.indicator == buf@[0]
            &&& p.content() == if n <= NET_PACKET_LEN {
                buf@.subrange(1, n as int)
            } else {
                buf@.skip(1)
            }
            &&& forall|i: int| p.len <= i < MAX_HCI_PAYLOAD ==> p.payload@[i] == 0
        },
{
    if n == 0 {
        return None;
    }
    let len: usize = if n - 1 <= MAX_HCI_PAYLOAD {
        n - 1
    } else {
        MAX_HCI_PAYLOAD
    };
    let mut payload = [0u8; MAX_HCI_PAYLOAD];
    copy_to(&mut payload, 0, &buf[1..1 + len]);
    let packet = HciPacket { indicator: buf[0], payload, len };
    assert(packet.content() =~= buf@.subrange(1, 1 + len));
    Some(packet)
}

/// What the task that receives from the network core does next.
pub enum RecvStep {
    /// Wait for the next interrupt: the ring buffer is empty.
    Idle,
    /// Look for the next packet: this one was empty, or too long for the host and
    /// dropped.
    Skip,
    /// Pass the packet on to the task that writes to the host, then look for the
    /// next one.
    Deliver {
        /// The packet.
        packet: HciPacket,
    },
}

/// Takes the next packet of the network core out of its ring buffer, by way of
/// `buf`. One interrupt may stand for several packets, so a round ends only when
/// the ring buffer is empty.
pub fn ipc_recv_step(
    headers: &mut IpcHeaders,
    n2a: &[u8; RING_BUF_SIZE],
    buf: &mut [u8; NET_PACKET_LEN],
) -> (step: RecvStep)
    ensures
        final(headers).n2a == ring::after_read(old(headers).n2a, n2a@),
        final(headers).a2n == old(headers).a2n,
        match ring::packet_read(old(headers).n2a, n2a@, NET_PACKET_LEN as int) {
            Some(bytes) => {
                &&& final(buf)@ == bytes + old(buf)@.skip(bytes.len() as int)
                &&& if bytes.len() == 0 {
                    step is Skip
                } else {
                    &&& step matches RecvStep::Deliver { packet }
                    &&& packet.wf()
                    &&& packet.indicator == bytes[0]
                    &&& packet.content() == bytes.skip(1)
                    &&& forall|i: int| packet.len <= i < MAX_HCI_PAYLOAD ==> packet.payload@[i] == 0
                }
            },
            None => {
                &&& final(buf)@ == old(buf)@
                &&& if old(headers).n2a.write_idx == old(headers).n2a.read_idx {
                    step is Idle
                } else {
                    step is Skip
                }
            },
        },
        step is Idle <==> old(headers).n2a.write_idx == old(headers).n2a.read_idx,
{
    if headers.n2a.write_idx == headers.n2a.read_idx {
        return RecvStep::Idle;
    }
    match ipc_recv_from_net(headers, n2a, buf) {
        Some(n) => match packet_for_host(buf, n) {
            Some(packet) => {
                proof {
                    let bytes = ring::packet_read(
                        old(headers).n2a,
                        n2a@,
                        NET_PACKET_LEN as int,
                    )->0;
                    assert(packet.content() =~= bytes.skip(1));
                }
                RecvStep::Deliver { packet }
            },
            None => RecvStep::Skip,
        },
        None => RecvStep::Skip,
    }
}

/// The states from which a packet is being written lead back to waiting for the
/// next one when the endpoint has taken it, and to waiting for the host when the
/// endpoint has failed.
pub proof fn law_write_ends(state: UsbWriteState)
    requires
        state is WritingEvent || state is WritingAcl,
    ensures
        usb_write_next(state, UsbWriteEvent::Written) == (
            UsbWriteState::AwaitPacket,
            None::<LedColor>,
        ),
        usb_write_next(state, UsbWriteEvent::WriteFailed) == (
            UsbWriteState::AwaitHost,
            Some(LedColor::Yellow),
        ),
{
}

/// The host turns up: the task goes on to packets, and shows blue.
pub proof fn law_host_starts_the_writer(state: UsbWriteState)
    ensures
        state is AwaitHost ==> usb_write_next(state, UsbWriteEvent::HostReady) == (
            UsbWriteState::AwaitPacket,
            Some(LedColor::Blue),
        ),
{
}

/// A packet goes to the endpoint for its kind: `0x04` to the event endpoint, `0x02`
/// to the ACL endpoint, any other to none. No packet changes the colour.
pub proof fn law_packet_goes_to_its_endpoint(indicator: u8)
    ensures
        ({
            let (next, color) = usb_write_next(
                UsbWriteState::AwaitPacket,
                UsbWriteEvent::Packet { indicator },
            );
            &&& color is None
            &&& indicator == 0x04 ==> next is WritingEvent
            &&& indicator == 0x02 ==> next is WritingAcl
            &&& indicator != 0x04 && indicator != 0x02 ==> next is AwaitPacket
        }),
{
}

/// What cannot happen in a state changes nothing there.
pub proof fn law_stray_events_change_nothing(state: UsbWriteState, event: UsbWriteEvent)
    requires
        event is HostReady ==> !(state is AwaitHost),
        event is Packet ==> !(state is AwaitPacket),
        event is Written || event is WriteFailed ==> state is AwaitHost || state is AwaitPacket,
    ensures
        usb_write_next(state, event) == (state, None::<LedColor>),
{
}

/// The state after packets with these indicators came one after the other, and the
/// endpoint took each that was written to it.
pub open spec fn after_packets(state: UsbWriteState, indicators: Seq<u8>) -> UsbWriteState
    decreases indicators.len(),
{
    if indicators.len() == 0 {
        state
    } else {
        let before = after_packets(state, indicators.drop_last());
        let taken = usb_write_next(
            before,
            UsbWriteEvent::Packet { indicator: indicators.last() },
        ).0;
        if taken is WritingEvent || taken is WritingAcl {
            usb_write_next(taken, UsbWriteEvent::Written).0
        } else {
            taken
        }
    }
}

/// The writer takes packet after packet: however many have come, and of whatever
/// kinds, it is ready for the next.
pub proof fn law_writer_is_ready_for_the_next_packet(indicators: Seq<u8>)
    ensures
        after_packets(UsbWriteState::AwaitPacket, indicators) is AwaitPacket,
    decreases indicators.len(),
{
    if indicators.len() > 0 {
        law_writer_is_ready_for_the_next_packet(indicators.drop_last());
        law_packet_goes_to_its_endpoint(indicators.last());
    }
}

} // verus!
