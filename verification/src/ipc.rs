//! The two directions between the cores, and the interrupt that goes with each.
//!
//! | Direction  | IPC event | Who triggers | Who waits |
//! |------------|-----------|--------------|-----------|
//! | net -> app | Event0    | net core     | app core  |
//! | app -> net | Event1    | app core     | net core  |
//!
//! The index words are handed in as values: the caller loads them before a call
//! and stores the one it owns after it, with the ordering that the other core
//! relies on.
use vstd::prelude::*;

use crate::layout::RING_BUF_SIZE;
use crate::queue;
use crate::ring;
use crate::ring::{rb_read, rb_write, RingHeader, MAX_PACKET_LEN};

verus! {

/// The index words of both ring buffers.
#[derive(Clone, Copy, Debug, PartialEq, Eq, Structural)]
pub struct IpcHeaders {
    /// The net -> app ring buffer.
    pub n2a: RingHeader,
    /// The app -> net ring buffer.
    pub a2n: RingHeader,
}

/// An event of the interrupt peripheral between the cores.
#[derive(Clone, Copy, Debug, PartialEq, Eq, Structural)]
pub enum IpcEvent {
    /// Wakes the application core.
    Event0,
    /// Wakes the network core.
    Event1,
}

/// One of the two cores.
#[derive(Clone, Copy, Debug, PartialEq, Eq, Structural)]
pub enum Core {
    /// The one that speaks USB to the host.
    Application,
    /// The one that runs the radio controller.
    Network,
}

/// The event that a core waits for.
pub open spec fn awaited_by(core: Core) -> IpcEvent {
    match core {
        Core::Application => IpcEvent::Event0,
        Core::Network => IpcEvent::Event1,
    }
}

/// What it comes to when the network core sends `packet` and wakes the other
/// core if it could: the index words, the payload area of the net -> app ring
/// buffer and the event to trigger.
pub open spec fn app_notified(headers: IpcHeaders, n2a: Seq<u8>, packet: Seq<u8>) -> (
    IpcHeaders,
    Seq<u8>,
    Option<IpcEvent>,
) {
    let (n2a_header, n2a_data) = ring::after_write(headers.n2a, n2a, packet);
    (
        IpcHeaders { n2a: n2a_header, a2n: headers.a2n },
        n2a_data,
        if headers.n2a.has_room(n2a.len() as int, packet.len() as int) {
            Some(IpcEvent::Event0)
        } else {
            None
        },
    )
}

/// What it comes to when the application core sends `packet` and wakes the other
/// core if it could.
pub open spec fn net_notified(headers: IpcHeaders, a2n: Seq<u8>, packet: Seq<u8>) -> (
    IpcHeaders,
    Seq<u8>,
    Option<IpcEvent>,
) {
    let (a2n_header, a2n_data) = ring::after_write(headers.a2n, a2n, packet);
    (
        IpcHeaders { n2a: headers.n2a, a2n: a2n_header },
        a2n_data,
        if headers.a2n.has_room(a2n.len() as int, packet.len() as int) {
            Some(IpcEvent::Event1)
        } else {
            None
        },
    )
}

/// Empties both ring buffers, so that the network core finds a clean state when
/// it starts.
pub fn ipc_init(headers: &mut IpcHeaders)
    ensures
        final(headers).n2a == (RingHeader { write_idx: 0, read_idx: 0 }),
        final(headers).a2n == (RingHeader { write_idx: 0, read_idx: 0 }),
{
    headers.n2a.write_idx = 0;
    headers.n2a.read_idx = 0;
    headers.a2n.write_idx = 0;
    headers.a2n.read_idx = 0;
}

/// Puts an HCI packet into the app -> net ring buffer. Returns `false` if it has
/// no room.
pub fn ipc_send_to_net(
    headers: &mut IpcHeaders,
    a2n: &mut [u8; RING_BUF_SIZE],
    packet: &[u8],
) -> (sent: bool)
    ensures
        sent == old(headers).a2n.has_room(RING_BUF_SIZE as int, packet@.len() as int),
        (final(headers).a2n, final(a2n)@) == ring::after_write(
            old(headers).a2n,
            old(a2n)@,
            packet@,
        ),
        final(headers).n2a == old(headers).n2a,
{
    rb_write(&mut headers.a2n, a2n, packet)
}

/// Takes the next HCI packet out of the net -> app ring buffer and copies it to
/// the start of `out`.
///
/// Returns the number of bytes copied, or `None` if the ring buffer is empty. A
/// packet longer than `out` is dropped, with `None` for an answer.
pub fn ipc_recv_from_net(
    headers: &mut IpcHeaders,
    n2a: &[u8; RING_BUF_SIZE],
    out: &mut [u8],
) -> (received: Option<usize>)
    ensures
        final(headers).n2a == ring::after_read(old(headers).n2a, n2a@),
        final(headers).a2n == old(headers).a2n,
        match ring::packet_read(old(headers).n2a, n2a@, old(out)@.len() as int) {
            Some(packet) => {
                &&& received == Some(packet.len() as usize)
                &&& packet.len() <= old(out)@.len()
                &&& final(out)@ == packet + old(out)@.skip(packet.len() as int)
            },
            None => received is None && final(out)@ == old(out)@,
        },
{
    rb_read(&mut headers.n2a, n2a, out)
}

/// Puts an HCI packet into the net -> app ring buffer. Returns `false` if it has
/// no room.
pub fn ipc_send_to_app(
    headers: &mut IpcHeaders,
    n2a: &mut [u8; RING_BUF_SIZE],
    packet: &[u8],
) -> (sent: bool)
    ensures
        sent == old(headers).n2a.has_room(RING_BUF_SIZE as int, packet@.len() as int),
        (final(headers).n2a, final(n2a)@) == ring::after_write(
            old(headers).n2a,
            old(n2a)@,
            packet@,
        ),
        final(headers).a2n == old(headers).a2n,
{
    rb_write(&mut headers.n2a, n2a, packet)
}

/// Takes the next HCI packet out of the app -> net ring buffer and copies it to
/// the start of `out`.
///
/// Returns the number of bytes copied, or `None` if the ring buffer is empty. A
/// packet longer than `out` is dropped, with `None` for an answer.
pub fn ipc_recv_from_app(
    headers: &mut IpcHeaders,
    a2n: &[u8; RING_BUF_SIZE],
    out: &mut [u8],
) -> (received: Option<usize>)
    ensures
        final(headers).a2n == ring::after_read(old(headers).a2n, a2n@),
        final(headers).n2a == old(headers).n2a,
        match ring::packet_read(old(headers).a2n, a2n@, old(out)@.len() as int) {
            Some(packet) => {
                &&& received == Some(packet.len() as usize)
                &&& packet.len() <= old(out)@.len()
                &&& final(out)@ == packet + old(out)@.skip(packet.len() as int)
            },
            None => received is None && final(out)@ == old(out)@,
        },
{
    rb_read(&mut headers.a2n, a2n, out)
}

/// Sends a packet to the application core. Returns the event to trigger, or
/// `None` if the ring buffer is full and the packet is dropped.
pub fn notify_app(
    headers: &mut IpcHeaders,
    n2a: &mut [u8; RING_BUF_SIZE],
    packet: &[u8],
) -> (trigger: Option<IpcEvent>)
    ensures
        (*final(headers), final(n2a)@, trigger) == app_notified(*old(headers), old(n2a)@, packet@),
{
    if ipc_send_to_app(headers, n2a, packet) {
        Some(IpcEvent::Event0)
    } else {
        None
    }
}

/// Sends a packet to the network core. Returns the event to trigger, or `None`
/// if the ring buffer is full.
pub fn notify_net(
    headers: &mut IpcHeaders,
    a2n: &mut [u8; RING_BUF_SIZE],
    packet: &[u8],
) -> (trigger: Option<IpcEvent>)
    ensures
        (*final(headers), final(a2n)@, trigger) == net_notified(*old(headers), old(a2n)@, packet@),
{
    if ipc_send_to_net(headers, a2n, packet) {
        Some(IpcEvent::Event1)
    } else {
        None
    }
}

/// The event that a core waits for before it drains the ring buffer to it.
pub fn awaited_event(core: Core) -> (event: IpcEvent)
    ensures
        event == awaited_by(core),
{
    match core {
        Core::Application => IpcEvent::Event0,
        Core::Network => IpcEvent::Event1,
    }
}

/// A packet that is sent wakes the core it is for, and a packet that is dropped
/// wakes none: the event to trigger is the one that the receiver waits for, and
/// there is one exactly if the ring buffer has room.
pub proof fn law_send_wakes_the_receiver(headers: IpcHeaders, data: Seq<u8>, packet: Seq<u8>)
    ensures
        app_notified(headers, data, packet).2 == if headers.n2a.has_room(
            data.len() as int,
            packet.len() as int,
        ) {
            Some(awaited_by(Core::Application))
        } else {
            None
        },
        net_notified(headers, data, packet).2 == if headers.a2n.has_room(
            data.len() as int,
            packet.len() as int,
        ) {
            Some(awaited_by(Core::Network))
        } else {
            None
        },
{
}

/// The cores wait for different events, so neither wakes itself.
pub proof fn law_cores_await_different_events(core1: Core, core2: Core)
    requires
        core1 != core2,
    ensures
        awaited_by(core1) != awaited_by(core2),
{
}

/// A ring buffer whose index words are zero holds no packet, whatever lies in
/// its payload area.
pub proof fn law_init_empties(data: Seq<u8>)
    requires
        data.len() == RING_BUF_SIZE,
    ensures
        queue::holds(RingHeader { write_idx: 0, read_idx: 0 }, data, Seq::empty()),
{
    assert(ring::loaded(data, 0, 0) =~= Seq::<u8>::empty());
}

/// What is sent through a fresh ring buffer is what comes out: every packet that
/// the ring can hold is taken in, a reader with enough room gets it byte for
/// byte, and the ring is empty again.
pub proof fn law_receive_returns_what_was_sent(data: Seq<u8>, packet: Seq<u8>, capacity: int)
    requires
        data.len() == RING_BUF_SIZE,
        packet.len() + 2 <= RING_BUF_SIZE,
        packet.len() <= capacity,
    ensures
        ({
            let fresh = RingHeader { write_idx: 0, read_idx: 0 };
            let (header, data2) = ring::after_write(fresh, data, packet);
            let last = ring::after_read(header, data2);
            &&& fresh.has_room(RING_BUF_SIZE as int, packet.len() as int)
            &&& ring::packet_read(header, data2, capacity) == Some(packet)
            &&& queue::holds(last, data2, Seq::empty())
            &&& last.write_idx == last.read_idx
        }),
{
    let fresh = RingHeader { write_idx: 0, read_idx: 0 };
    queue::law_read_returns_what_was_written(fresh, data, packet, capacity);
}

/// As long as no empty packet is sent, a receiver never gets one: what it gets is
/// the oldest packet, of at least one byte, the indicator.
pub proof fn law_received_is_not_empty(
    header: RingHeader,
    data: Seq<u8>,
    packets: Seq<Seq<u8>>,
    capacity: int,
)
    requires
        queue::holds(header, data, packets),
        forall|i: int| 0 <= i < packets.len() ==> (#[trigger] packets[i]).len() >= 1,
    ensures
        ring::packet_read(header, data, capacity) matches Some(packet) ==> packet.len() >= 1
            && packet == packets.first(),
{
    queue::law_read(header, data, packets, capacity);
}

/// Each core waits for an event of its own.
pub proof fn law_awaited_events(core: Core)
    ensures
        core is Application ==> awaited_by(core) is Event0,
        core is Network ==> awaited_by(core) is Event1,
{
}

/// To send a packet is to write it into the ring buffer of its direction, whatever
/// the packet is. The other ring buffer stays as it is.
pub proof fn law_send_is_a_write(headers: IpcHeaders, data: Seq<u8>, packet: Seq<u8>)
    ensures
        ({
            let (headers2, data2, trigger) = app_notified(headers, data, packet);
            &&& (headers2.n2a, data2) == ring::after_write(headers.n2a, data, packet)
            &&& headers2.a2n == headers.a2n
            &&& trigger is Some <==> headers.n2a.has_room(data.len() as int, packet.len() as int)
            &&& trigger != Some(IpcEvent::Event1)
        }),
        ({
            let (headers2, data2, trigger) = net_notified(headers, data, packet);
            &&& (headers2.a2n, data2) == ring::after_write(headers.a2n, data, packet)
            &&& headers2.n2a == headers.n2a
            &&& trigger is Some <==> headers.a2n.has_room(data.len() as int, packet.len() as int)
            &&& trigger != Some(IpcEvent::Event0)
        }),
{
}

/// A packet that the application core sends stands last in the queue to the
/// network core, behind the packets that waited there already, and the network
/// core is woken. Without room for it the queue stays as it is and nobody is
/// woken. Where the byte count wraps, no byte of the queue may be stored over
/// another one that differs from it.
pub proof fn law_packet_to_net_is_queued(
    headers: IpcHeaders,
    data: Seq<u8>,
    packets: Seq<Seq<u8>>,
    packet: Seq<u8>,
)
    requires
        queue::holds(headers.a2n, data, packets),
        packet.len() <= MAX_PACKET_LEN,
        queue::appends_safely(headers.a2n, data.len() as int, packets, packet),
    ensures
        ({
            let (headers2, data2, trigger) = net_notified(headers, data, packet);
            let fits = queue::frames(packets).len() + 2 + packet.len() <= data.len();
            &&& fits ==> queue::holds(headers2.a2n, data2, packets.push(packet))
            &&& fits ==> headers2.a2n.write_idx != headers2.a2n.read_idx
            &&& fits ==> trigger == Some(IpcEvent::Event1)
            &&& !fits ==> headers2 == headers && data2 == data && trigger is None
            &&& headers2.n2a == headers.n2a
        }),
{
    queue::law_append(headers.a2n, data, packets, packet);
    if headers.a2n.has_room(data.len() as int, packet.len() as int) {
        let (headers2, data2, _) = net_notified(headers, data, packet);
        queue::law_read(headers2.a2n, data2, packets.push(packet), 0);
    }
}

/// A packet that the network core sends stands last in the queue to the
/// application core, behind the packets that waited there already, and the
/// application core is woken. Without room for it the queue stays as it is and
/// nobody is woken. Where the byte count wraps, no byte of the queue may be stored
/// over another one that differs from it.
pub proof fn law_packet_to_app_is_queued(
    headers: IpcHeaders,
    data: Seq<u8>,
    packets: Seq<Seq<u8>>,
    packet: Seq<u8>,
)
    requires
        queue::holds(headers.n2a, data, packets),
        packet.len() <= MAX_PACKET_LEN,
        queue::appends_safely(headers.n2a, data.len() as int, packets, packet),
    ensures
        ({
            let (headers2, data2, trigger) = app_notified(headers, data, packet);
            let fits = queue::frames(packets).len() + 2 + packet.len() <= data.len();
            &&& fits ==> queue::holds(headers2.n2a, data2, packets.push(packet))
            &&& fits ==> headers2.n2a.write_idx != headers2.n2a.read_idx
            &&& fits ==> trigger == Some(IpcEvent::Event0)
            &&& !fits ==> headers2 == headers && data2 == data && trigger is None
            &&& headers2.a2n == headers.a2n
        }),
{
    queue::law_append(headers.n2a, data, packets, packet);
    if headers.n2a.has_room(data.len() as int, packet.len() as int) {
        let (headers2, data2, _) = app_notified(headers, data, packet);
        queue::law_read(headers2.n2a, data2, packets.push(packet), 0);
    }
}

} // verus!
