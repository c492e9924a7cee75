//! The bridge from end to end: what one core sends is what the other one acts on.
//!
//! `queue` has the way through the ring buffer: a packet that is sent stands last
//! in the queue, and the queue is first in, first out. Here is what comes of a
//! packet whose turn it is.
use vstd::prelude::*;

use crate::app_core;
use crate::app_core::{UsbWriteEvent, UsbWriteState, NET_PACKET_LEN};
use crate::command;
use crate::command::HciCommand;
use crate::hci;
use crate::hci::{HCI_ACL_DATA, HCI_COMMAND, HCI_EVENT};
use crate::ipc;
use crate::ipc::{IpcEvent, IpcHeaders};
use crate::net_core;
use crate::net_core::{PacketKind, RxMeaning};
use crate::queue;
use crate::ring;
use crate::ring::{RingHeader, MAX_PACKET_LEN};
use crate::usb_hci;
use crate::usb_hci::{MAX_CMD_LEN, MAX_HCI_PAYLOAD};

verus! {

/// A reader with room for it gets the packet whose turn it is, and the others
/// stay queued.
proof fn lemma_turn(
    header: RingHeader,
    data: Seq<u8>,
    packet: Seq<u8>,
    rest: Seq<Seq<u8>>,
    capacity: int,
)
    requires
        queue::holds(header, data, seq![packet] + rest),
        packet.len() <= capacity,
    ensures
        ring::packet_read(header, data, capacity) == Some(packet),
        queue::holds(ring::after_read(header, data), data, rest),
{
    let packets = seq![packet] + rest;
    assert(packets.first() == packet);
    assert(packets.drop_first() =~= rest);
    queue::law_read(header, data, packets, capacity);
}

/// A command that the host gives in a control request is dispatched by the
/// network core as it was given, up to the length of the longest command.
pub proof fn law_command_reaches_the_controller(
    header: RingHeader,
    data: Seq<u8>,
    rest: Seq<Seq<u8>>,
    given: Seq<u8>,
    capacity: int,
)
    requires
        queue::holds(header, data, seq![seq![HCI_COMMAND] + usb_hci::kept_command(given)] + rest),
        capacity >= 1 + MAX_CMD_LEN,
    ensures
        ring::packet_read(header, data, capacity) matches Some(packet)
            && net_core::rx_meaning(packet) == RxMeaning::Command(usb_hci::kept_command(given)),
        queue::holds(ring::after_read(header, data), data, rest),
{
    let packet = seq![HCI_COMMAND] + usb_hci::kept_command(given);
    lemma_turn(header, data, packet, rest, capacity);
    assert(packet.skip(1) =~= usb_hci::kept_command(given));
}

/// ACL data from the host is handed to the controller as the host sent it, if
/// the network core has room for it.
pub proof fn law_acl_data_reaches_the_controller(
    header: RingHeader,
    data: Seq<u8>,
    rest: Seq<Seq<u8>>,
    sent: Seq<u8>,
    capacity: int,
)
    requires
        queue::holds(header, data, seq![seq![HCI_ACL_DATA] + sent] + rest),
        capacity >= 1 + sent.len(),
    ensures
        ring::packet_read(header, data, capacity) matches Some(packet)
            && net_core::rx_meaning(packet) == RxMeaning::AclData(sent),
        queue::holds(ring::after_read(header, data), data, rest),
{
    let packet = seq![HCI_ACL_DATA] + sent;
    lemma_turn(header, data, packet, rest, capacity);
    assert(packet.skip(1) =~= sent);
}

/// An event or ACL data from the controller gets to the host as the controller
/// made it: under its indicator, with every byte that its header accounts for,
/// and cut into packets that the host can put together again.
pub proof fn law_controller_packet_reaches_the_host(
    header: RingHeader,
    data: Seq<u8>,
    rest: Seq<Seq<u8>>,
    kind: PacketKind,
    buf: Seq<u8>,
    indicator: u8,
)
    requires
        net_core::forwarded_as(kind) == Some(indicator),
        hci::packet_len(indicator, buf) <= buf.len(),
        hci::packet_len(indicator, buf) <= MAX_HCI_PAYLOAD,
        queue::holds(
            header,
            data,
            seq![seq![indicator] + buf.take(hci::packet_len(indicator, buf))] + rest,
        ),
    ensures
        ({
            let content = buf.take(hci::packet_len(indicator, buf));
            let transfer = usb_hci::transfer(content);
            &&& ring::packet_read(header, data, NET_PACKET_LEN as int) matches Some(packet)
            &&& packet[0] == indicator
            &&& packet.skip(1) == content
            &&& indicator == HCI_EVENT || indicator == HCI_ACL_DATA
            &&& usb_hci::joined(transfer, transfer.len() as int) == content
        }),
        queue::holds(ring::after_read(header, data), data, rest),
{
    let content = buf.take(hci::packet_len(indicator, buf));
    let packet = seq![indicator] + content;
    lemma_turn(header, data, packet, rest, NET_PACKET_LEN as int);
    assert(packet.skip(1) =~= content);
    usb_hci::law_transfer_is_complete(content);
}

/// The answer to a command gets to the host as an event, whole, whatever the
/// controller said and however much data it gave back.
pub proof fn law_answer_reaches_the_host(
    header: RingHeader,
    data: Seq<u8>,
    rest: Seq<Seq<u8>>,
    command: HciCommand,
    status: u8,
    return_data: Seq<u8>,
)
    requires
        queue::holds(header, data, seq![command::reply(command, status, return_data)] + rest),
    ensures
        ring::packet_read(header, data, NET_PACKET_LEN as int) == Some(
            command::reply(command, status, return_data),
        ),
        command::reply(command, status, return_data)[0] == HCI_EVENT,
        queue::holds(ring::after_read(header, data), data, rest),
{
    let packet = command::reply(command, status, return_data);
    hci::law_reply_tells_its_length(command.code(), status, return_data);
    hci::law_reply_tells_its_length(command.code(), status, Seq::empty());
    lemma_turn(header, data, packet, rest, NET_PACKET_LEN as int);
}

/// A packet that was put last comes out after the packets before it.
proof fn lemma_last_comes_out(
    header: RingHeader,
    data: Seq<u8>,
    packets: Seq<Seq<u8>>,
    packet: Seq<u8>,
    capacity: int,
)
    requires
        queue::holds(header, data, packets.push(packet)),
        packet.len() <= capacity,
    ensures
        ({
            let turn = queue::run(header, data, queue::reads(packets.len() as int)).0;
            &&& turn.write_idx != turn.read_idx
            &&& ring::packet_read(turn, data, capacity) == Some(packet)
        }),
{
    let all = packets.push(packet);
    queue::law_reads_drain_the_ring(header, data, all, packets.len() as int, capacity);
    assert(all[packets.len() as int] == packet);
}

/// From the host to the controller: ACL data that the application core sends is
/// what the network core hands to the controller, byte for byte, once it has
/// drained the packets that were sent before.
pub proof fn law_acl_data_of_the_host_gets_through(
    headers: IpcHeaders,
    data: Seq<u8>,
    packets: Seq<Seq<u8>>,
    sent: Seq<u8>,
    capacity: int,
)
    requires
        queue::holds(headers.a2n, data, packets),
        queue::frames(packets).len() + 3 + sent.len() <= data.len(),
        queue::appends_safely(headers.a2n, data.len() as int, packets, seq![0x02u8] + sent),
        1 + sent.len() <= MAX_PACKET_LEN,
        1 + sent.len() <= capacity,
    ensures
        ({
            let (headers2, data2, trigger) = ipc::net_notified(headers, data, seq![0x02u8] + sent);
            let turn = queue::run(headers2.a2n, data2, queue::reads(packets.len() as int)).0;
            &&& trigger == Some(IpcEvent::Event1)
            &&& turn.write_idx != turn.read_idx
            &&& ring::packet_read(turn, data2, capacity) matches Some(packet)
            &&& net_core::rx_meaning(packet) == RxMeaning::AclData(sent)
        }),
{
    let packet = seq![0x02u8] + sent;
    let (headers2, data2, trigger) = ipc::net_notified(headers, data, packet);
    ipc::law_packet_to_net_is_queued(headers, data, packets, packet);
    lemma_last_comes_out(headers2.a2n, data2, packets, packet, capacity);
    net_core::law_indicator_tells_the_meaning(0x02, sent);
}

/// From the host to the controller: a command that the application core sends is
/// what the network core dispatches, byte for byte, once it has drained the packets
/// that were sent before.
pub proof fn law_command_of_the_host_gets_through(
    headers: IpcHeaders,
    data: Seq<u8>,
    packets: Seq<Seq<u8>>,
    given: Seq<u8>,
    capacity: int,
)
    requires
        given.len() <= 258,
        queue::holds(headers.a2n, data, packets),
        queue::frames(packets).len() + 3 + given.len() <= data.len(),
        queue::appends_safely(headers.a2n, data.len() as int, packets, seq![0x01u8] + given),
        1 + given.len() <= capacity,
    ensures
        ({
            let (headers2, data2, trigger) = ipc::net_notified(
                headers,
                data,
                seq![0x01u8] + usb_hci::kept_command(given),
            );
            let turn = queue::run(headers2.a2n, data2, queue::reads(packets.len() as int)).0;
            &&& trigger == Some(IpcEvent::Event1)
            &&& turn.write_idx != turn.read_idx
            &&& ring::packet_read(turn, data2, capacity) matches Some(packet)
            &&& net_core::rx_meaning(packet) == RxMeaning::Command(given)
        }),
{
    usb_hci::law_command_is_kept_as_given(given, 0);
    let packet = seq![0x01u8] + given;
    let (headers2, data2, trigger) = ipc::net_notified(headers, data, packet);
    ipc::law_packet_to_net_is_queued(headers, data, packets, packet);
    lemma_last_comes_out(headers2.a2n, data2, packets, packet, capacity);
    net_core::law_indicator_tells_the_meaning(0x01, given);
}

/// From the controller to the host: an event, of any code and with all of its
/// parameters, that lies at the start of the controller's buffer is what the
/// application core receives, whatever lies behind it, and it goes to the event
/// endpoint.
pub proof fn law_event_of_the_controller_gets_through(
    headers: IpcHeaders,
    data: Seq<u8>,
    packets: Seq<Seq<u8>>,
    event_code: u8,
    params: Seq<u8>,
    behind: Seq<u8>,
)
    requires
        params.len() <= 255,
        queue::holds(headers.n2a, data, packets),
        queue::frames(packets).len() + 5 + params.len() <= data.len(),
        queue::appends_safely(
            headers.n2a,
            data.len() as int,
            packets,
            seq![0x04u8, event_code, params.len() as u8] + params,
        ),
    ensures
        ({
            let buf = seq![event_code, params.len() as u8] + params + behind;
            let indicator = net_core::forwarded_as(PacketKind::Event)->0;
            let (headers2, data2, trigger) = ipc::app_notified(
                headers,
                data,
                seq![indicator] + buf.take(hci::packet_len(indicator, buf)),
            );
            let turn = queue::run(headers2.n2a, data2, queue::reads(packets.len() as int)).0;
            &&& trigger == Some(IpcEvent::Event0)
            &&& turn.write_idx != turn.read_idx
            &&& ring::packet_read(turn, data2, NET_PACKET_LEN as int) == Some(
                seq![0x04u8, event_code, params.len() as u8] + params,
            )
            &&& app_core::usb_write_next(
                UsbWriteState::AwaitPacket,
                UsbWriteEvent::Packet { indicator },
            ).0 is WritingEvent
        }),
{
    let event = seq![event_code, params.len() as u8] + params;
    let packet = seq![0x04u8, event_code, params.len() as u8] + params;
    hci::law_packet_is_cut_where_it_ends(event_code, 0, 0, params, behind);
    net_core::law_kinds_that_are_forwarded(PacketKind::Event);
    assert(seq![0x04u8] + event =~= packet);
    let (headers2, data2, trigger) = ipc::app_notified(headers, data, packet);
    ipc::law_packet_to_app_is_queued(headers, data, packets, packet);
    lemma_last_comes_out(headers2.n2a, data2, packets, packet, NET_PACKET_LEN as int);
    app_core::law_packet_goes_to_its_endpoint(0x04);
}

/// From the controller to the host: ACL data, with all of its payload, that lies at
/// the start of the controller's buffer is what the application core receives,
/// whatever lies behind it, and it goes to the ACL endpoint.
pub proof fn law_acl_data_of_the_controller_gets_through(
    headers: IpcHeaders,
    data: Seq<u8>,
    packets: Seq<Seq<u8>>,
    handle_lo: u8,
    handle_hi: u8,
    content: Seq<u8>,
    behind: Seq<u8>,
)
    requires
        4 + content.len() <= MAX_HCI_PAYLOAD,
        queue::holds(headers.n2a, data, packets),
        queue::frames(packets).len() + 7 + content.len() <= data.len(),
        queue::appends_safely(
            headers.n2a,
            data.len() as int,
            packets,
            seq![
                0x02u8,
                handle_lo,
                handle_hi,
                (content.len() % 256) as u8,
                (content.len() / 256) as u8,
            ] + content,
        ),
    ensures
        ({
            let acl = seq![
                handle_lo,
                handle_hi,
                (content.len() % 256) as u8,
                (content.len() / 256) as u8,
            ] + content;
            let buf = acl + behind;
            let indicator = net_core::forwarded_as(PacketKind::AclData)->0;
            let (headers2, data2, trigger) = ipc::app_notified(
                headers,
                data,
                seq![indicator] + buf.take(hci::packet_len(indicator, buf)),
            );
            let turn = queue::run(headers2.n2a, data2, queue::reads(packets.len() as int)).0;
            &&& trigger == Some(IpcEvent::Event0)
            &&& turn.write_idx != turn.read_idx
            &&& ring::packet_read(turn, data2, NET_PACKET_LEN as int) == Some(seq![0x02u8] + acl)
            &&& app_core::usb_write_next(
                UsbWriteState::AwaitPacket,
                UsbWriteEvent::Packet { indicator },
            ).0 is WritingAcl
        }),
{
    let acl = seq![
        handle_lo,
        handle_hi,
        (content.len() % 256) as u8,
        (content.len() / 256) as u8,
    ] + content;
    let packet = seq![0x02u8] + acl;
    hci::law_packet_is_cut_where_it_ends(0, handle_lo, handle_hi, content, behind);
    net_core::law_kinds_that_are_forwarded(PacketKind::AclData);
    assert(packet =~= seq![
        0x02u8,
        handle_lo,
        handle_hi,
        (content.len() % 256) as u8,
        (content.len() / 256) as u8,
    ] + content);
    let (headers2, data2, trigger) = ipc::app_notified(headers, data, packet);
    ipc::law_packet_to_app_is_queued(headers, data, packets, packet);
    lemma_last_comes_out(headers2.n2a, data2, packets, packet, NET_PACKET_LEN as int);
    app_core::law_packet_goes_to_its_endpoint(0x02);
}

} // verus!
