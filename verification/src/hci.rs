//! HCI packets: indicators, lengths, and the events that answer a command.
//!
//! A packet between the cores starts with one indicator byte, as on an HCI UART:
//! `0x01` command, `0x02` ACL data, `0x04` event.
use vstd::prelude::*;

use crate::ipc;
use crate::ipc::{notify_app, IpcEvent, IpcHeaders};
use crate::layout::RING_BUF_SIZE;

verus! {

/// Indicator of an HCI command.
pub const HCI_COMMAND: u8 = 0x01;

/// Indicator of HCI ACL data.
pub const HCI_ACL_DATA: u8 = 0x02;

/// Indicator of an HCI event.
pub const HCI_EVENT: u8 = 0x04;

/// Event code of a Command Complete event.
pub const EVENT_CMD_COMPLETE: u8 = 0x0E;

/// Event code of a Command Status event.
pub const EVENT_CMD_STATUS: u8 = 0x0F;

/// Return data that a Command Complete event has room for.
pub const MAX_RETURN_DATA: usize = 64;

/// Bytes of the longest event that answers a command, its indicator included.
pub const MAX_REPLY_LEN: usize = 7 + 64;

/// The 16-bit number in two bytes, the low one first.
pub open spec fn le16(lo: u8, hi: u8) -> int {
    lo + 256 * hi
}

/// Bytes of the packet that starts `buf`, as its header tells: two bytes and the
/// parameters of an event, four bytes and the payload of ACL data. Of anything
/// else, or without a whole header, all of `buf`.
pub open spec fn packet_len(indicator: u8, buf: Seq<u8>) -> int {
    if indicator == HCI_EVENT && buf.len() >= 2 {
        2 + buf[1]
    } else if indicator == HCI_ACL_DATA && buf.len() >= 4 {
        4 + le16(buf[2], buf[3])
    } else {
        buf.len() as int
    }
}

/// The return data that goes into a Command Complete event.
pub open spec fn kept_return_data(return_data: Seq<u8>) -> Seq<u8> {
    if return_data.len() <= MAX_RETURN_DATA {
        return_data
    } else {
        return_data.take(MAX_RETURN_DATA as int)
    }
}

/// A Command Complete event, its indicator first.
pub open spec fn cc_event(opcode: u16, status: u8, return_data: Seq<u8>) -> Seq<u8> {
    let kept = kept_return_data(return_data);
    seq![
        HCI_EVENT,
        EVENT_CMD_COMPLETE,
        (4 + kept.len()) as u8,
        0x01,
        (opcode % 256) as u8,
        (opcode / 256) as u8,
        status,
    ] + kept
}

/// A Command Status event, its indicator first.
pub open spec fn cs_event(opcode: u16, status: u8) -> Seq<u8> {
    seq![
        HCI_EVENT,
        EVENT_CMD_STATUS,
        0x04,
        status,
        0x01,
        (opcode % 256) as u8,
        (opcode / 256) as u8,
    ]
}

/// Copies `src` to `dst`, from position `at` on.
pub(crate) fn copy_to(dst: &mut [u8], at: usize, src: &[u8])
    requires
        at + src@.len() <= old(dst)@.len(),
    ensures
        final(dst)@ == old(dst)@.take(at as int) + src@ + old(dst)@.skip(at + src@.len()),
{
    let ghost before = dst@;
    let dst_len: usize = dst.len();
    let mut i: usize = 0;
    while i < src.len()
        invariant
            i <= src@.len(),
            at + src@.len() <= dst_len,
            dst_len == dst@.len(),
            dst_len == before.len(),
            forall|k: int| 0 <= k < i ==> dst@[at + k] == src@[k],
            forall|k: int| 0 <= k < at ==> dst@[k] == before[k],
            forall|k: int| at + i <= k < dst@.len() ==> dst@[k] == before[k],
        decreases src@.len() - i,
    {
        dst[at + i] = src[i];
        i = i + 1;
    }
    assert(dst@ =~= before.take(at as int) + src@ + before.skip(at + src@.len()));
}

/// Writes `indicator` and `payload` to the start of `out` and returns how many
/// bytes that makes.
pub(crate) fn put_packet(indicator: u8, payload: &[u8], out: &mut [u8]) -> (len: usize)
    requires
        1 + payload@.len() <= old(out)@.len(),
    ensures
        len == 1 + payload@.len(),
        final(out)@ == seq![indicator] + payload@ + old(out)@.skip(1 + payload@.len() as int),
{
    let ghost before = out@;
    out[0] = indicator;
    copy_to(out, 1, payload);
    assert(out@ =~= seq![indicator] + payload@ + before.skip(1 + payload@.len() as int));
    1 + payload.len()
}

/// Bytes of the packet that starts `buf`, by its header.
pub fn hci_packet_len(indicator: u8, buf: &[u8]) -> (len: usize)
    ensures
        len == packet_len(indicator, buf@),
        indicator == 0x04 && buf@.len() >= 2 ==> len == 2 + buf@[1],
        indicator == 0x02 && buf@.len() >= 4 ==> len == 4 + buf@[2] + 256 * buf@[3],
{
    if indicator == HCI_EVENT && buf.len() >= 2 {
        2 + buf[1] as usize
    } else if indicator == HCI_ACL_DATA && buf.len() >= 4 {
        4 + buf[2] as usize + 256 * buf[3] as usize
    } else {
        buf.len()
    }
}

/// Sends a Command Complete event to the application core. Return data beyond
/// the room for it is cut off.
///
/// Format: `[0x04][0x0E][param_len][0x01][op_lo][op_hi][status][return_data...]`
pub fn send_cc_event(
    headers: &mut IpcHeaders,
    n2a: &mut [u8; RING_BUF_SIZE],
    opcode: u16,
    status: u8,
    return_data: &[u8],
) -> (trigger: Option<IpcEvent>)
    ensures
        (*final(headers), final(n2a)@, trigger) == ipc::app_notified(
            *old(headers),
            old(n2a)@,
            cc_event(opcode, status, return_data@),
        ),
{
    let ret_len: usize = if return_data.len() <= MAX_RETURN_DATA {
        return_data.len()
    } else {
        MAX_RETURN_DATA
    };
    let mut buf = [0u8; MAX_REPLY_LEN];
    buf[0] = HCI_EVENT;
    buf[1] = EVENT_CMD_COMPLETE;
    buf[2] = (4 + ret_len) as u8;
    buf[3] = 0x01;
    buf[4] = (opcode % 256) as u8;
    buf[5] = (opcode / 256) as u8;
    buf[6] = status;
    let kept = &return_data[0..ret_len];
    copy_to(&mut buf, 7, kept);
    let event = &buf[0..7 + ret_len];
    assert(kept@ =~= kept_return_data(return_data@));
    assert(event@ =~= cc_event(opcode, status, return_data@));
    notify_app(headers, n2a, event)
}

/// Sends a Command Status event, the first answer to an asynchronous command, to
/// the application core.
///
/// Format: `[0x04][0x0F][0x04][status][0x01][op_lo][op_hi]`
pub fn send_cs_event(
    headers: &mut IpcHeaders,
    n2a: &mut [u8; RING_BUF_SIZE],
    opcode: u16,
    status: u8,
) -> (trigger: Option<IpcEvent>)
    ensures
        (*final(headers), final(n2a)@, trigger) == ipc::app_notified(
            *old(headers),
            old(n2a)@,
            cs_event(opcode, status),
        ),
{
    let buf = [
        HCI_EVENT,
        EVENT_CMD_STATUS,
        0x04,
        status,
        0x01,
        (opcode % 256) as u8,
        (opcode / 256) as u8,
    ];
    assert(buf@ =~= cs_event(opcode, status));
    notify_app(headers, n2a, &buf)
}

/// An event that answers a command tells its own length: behind the indicator,
/// its header accounts for every byte. The longest one has a length that the
/// buffer for it has room for.
pub proof fn law_reply_tells_its_length(opcode: u16, status: u8, return_data: Seq<u8>)
    ensures
        packet_len(HCI_EVENT, cc_event(opcode, status, return_data).skip(1)) == cc_event(
            opcode,
            status,
            return_data,
        ).len() - 1,
        packet_len(HCI_EVENT, cs_event(opcode, status).skip(1)) == cs_event(opcode, status).len()
            - 1,
        cc_event(opcode, status, return_data).len() <= MAX_REPLY_LEN,
        cs_event(opcode, status).len() <= MAX_REPLY_LEN,
{
}

/// An event that answers a command says which command it answers: the two bytes
/// for it make up the opcode.
pub proof fn law_reply_names_its_command(opcode: u16, status: u8, return_data: Seq<u8>)
    ensures
        le16(
            cc_event(opcode, status, return_data)[4],
            cc_event(opcode, status, return_data)[5],
        ) == opcode,
        le16(cs_event(opcode, status)[5], cs_event(opcode, status)[6]) == opcode,
{
}

/// A packet is as long as its header tells, whatever is in it: an event has two
/// bytes and as many parameters as its second byte says, ACL data has four bytes
/// and as many as the 16-bit number in its third and fourth says.
pub proof fn law_header_tells_the_length(buf: Seq<u8>)
    ensures
        buf.len() >= 2 ==> packet_len(0x04, buf) == 2 + buf[1],
        buf.len() >= 4 ==> packet_len(0x02, buf) == 4 + buf[2] + 256 * buf[3],
{
}

/// Where no header tells a length, all bytes count.
pub proof fn law_without_a_header_all_bytes_count(indicator: u8, buf: Seq<u8>)
    requires
        indicator == 0x04 ==> buf.len() < 2,
        indicator == 0x02 ==> buf.len() < 4,
    ensures
        packet_len(indicator, buf) == buf.len(),
{
}

/// Put a packet together from its header and what the header accounts for, with
/// anything behind it: cut to its length, it is the packet again, without a byte
/// missing or to spare.
pub proof fn law_packet_is_cut_where_it_ends(
    event_code: u8,
    handle_lo: u8,
    handle_hi: u8,
    content: Seq<u8>,
    behind: Seq<u8>,
)
    ensures
        content.len() <= 255 ==> ({
            let event = seq![event_code, content.len() as u8] + content;
            (event + behind).take(packet_len(0x04, event + behind)) == event
        }),
        content.len() <= 65535 ==> ({
            let acl = seq![
                handle_lo,
                handle_hi,
                (content.len() % 256) as u8,
                (content.len() / 256) as u8,
            ] + content;
            (acl + behind).take(packet_len(0x02, acl + behind)) == acl
        }),
{
    if content.len() <= 255 {
        let event = seq![event_code, content.len() as u8] + content;
        assert((event + behind)[1] == content.len());
        assert((event + behind).take(event.len() as int) =~= event);
    }
    if content.len() <= 65535 {
        let acl = seq![
            handle_lo,
            handle_hi,
            (content.len() % 256) as u8,
            (content.len() / 256) as u8,
        ] + content;
        assert((acl + behind)[2] == (content.len() % 256) as u8);
        assert((acl + behind)[3] == (content.len() / 256) as u8);
        assert((acl + behind).take(acl.len() as int) =~= acl);
    }
}

/// A 16-bit number has its low byte first.
pub proof fn law_low_byte_first(lo: u8, hi: u8)
    ensures
        le16(lo, hi) == lo + 256 * hi,
{
}

/// The bytes of a Command Complete event, one by one. Of the return data the
/// first 64 bytes go in, each in its place.
pub proof fn law_command_complete_bytes(opcode: u16, status: u8, return_data: Seq<u8>, i: int)
    ensures
        ({
            let event = cc_event(opcode, status, return_data);
            let n = if return_data.len() < 64 {
                return_data.len() as int
            } else {
                64
            };
            &&& event.len() == 7 + n
            &&& event[0] == 0x04
            &&& event[1] == 0x0E
            &&& event[2] == 4 + n
            &&& event[3] == 1
            &&& event[4] + 256 * event[5] == opcode
            &&& event[6] == status
            &&& 0 <= i < n ==> event[7 + i] == return_data[i]
        }),
{
}

/// The bytes of a Command Status event, one by one.
pub proof fn law_command_status_bytes(opcode: u16, status: u8)
    ensures
        ({
            let event = cs_event(opcode, status);
            &&& event.len() == 7
            &&& event[0] == 0x04
            &&& event[1] == 0x0F
            &&& event[2] == 4
            &&& event[3] == status
            &&& event[4] == 1
            &&& event[5] + 256 * event[6] == opcode
        }),
{
}

} // verus!
