//! The UMGR WebSocket lighting sub-protocol: binary packets of
//! `{version, opcode, payload_len, payload}` that paint the lighting slot or
//! ask for a reply.

use vstd::prelude::*;
use crate::state::{paint_spec, SliderLights};

verus! {

/// Protocol version spoken here.
pub const UMGR_VERSION: u8 = 0x01;

/// Opcode of a lighting frame.
pub const UMGR_OP_SET_LED: u8 = 0x10;

/// Opcode of the initialize request.
pub const UMGR_OP_INITIALIZE: u8 = 0x11;

/// Opcode of a ping.
pub const UMGR_OP_PING: u8 = 0x12;

/// Opcode of the ready reply.
pub const UMGR_OP_READY: u8 = 0x19;

/// Opcode of the pong reply.
pub const UMGR_OP_PONG: u8 = 0x1a;

/// Opcode of the server-info request.
pub const UMGR_OP_REQUEST_INFO: u8 = 0xd0;

/// Opcode of the server-info reply.
pub const UMGR_OP_REPORT_INFO: u8 = 0xd8;

/// What handling one binary packet decided.
pub enum UmgrReply {
    /// Nothing to send back.
    Quiet,
    /// Send this binary packet back.
    Send(Vec<u8>),
    /// A malformed or unknown packet ends the connection.
    Close,
}

/// Whether a packet is well formed: a header and exactly the payload its
/// length byte announces.
pub open spec fn umgr_packet_ok(msg: Seq<u8>) -> bool {
    msg.len() >= 3 && msg.len() == 3 + msg[2]
}

/// The lighting ground strip painted by a SetLED payload: the first payload
/// byte is skipped, 16 pad colors land on the even pixels and 15 divider
/// colors on the odd pixels.
pub open spec fn umgr_ground_spec(ground0: Seq<u8>, payload: Seq<u8>, n: int) -> Seq<u8>
    decreases n,
{
    if n <= 0 {
        ground0
    } else if n <= 16 {
        paint_spec(
            umgr_ground_spec(ground0, payload, n - 1),
            2 * (n - 1),
            payload.subrange(1 + 3 * (n - 1), 1 + 3 * (n - 1) + 3),
        )
    } else {
        paint_spec(
            umgr_ground_spec(ground0, payload, n - 1),
            1 + 2 * (n - 17),
            payload.subrange(49 + 3 * (n - 17), 49 + 3 * (n - 17) + 3),
        )
    }
}

/// The pong reply to a ping payload: the four payload bytes echoed, then the
/// server magic.
pub open spec fn umgr_pong_spec(payload: Seq<u8>) -> Seq<u8> {
    seq![
        UMGR_VERSION,
        UMGR_OP_PONG,
        6u8,
        payload[0],
        payload[1],
        payload[2],
        payload[3],
        0x51u8,
        0xedu8,
    ]
}

/// The 47-byte server-info record: the header, the 16-byte server name
/// `slider-io`, the big-endian server version, the 16-byte hardware name
/// `generic-slider` and the hardware version, with reserved bytes between.
pub open spec fn umgr_info_spec(server_major: u16, server_minor: u16) -> Seq<u8> {
    seq![
        UMGR_VERSION,
        UMGR_OP_REPORT_INFO,
        44u8,
        0x73u8,
        0x6cu8,
        0x69u8,
        0x64u8,
        0x65u8,
        0x72u8,
        0x2du8,
        0x69u8,
        0x6fu8,
        0u8,
        0u8,
        0u8,
        0u8,
        0u8,
        0u8,
        0u8,
        ((server_major >> 8u16) as u8),
        ((server_major & 0xffu16) as u8),
        ((server_minor >> 8u16) as u8),
        ((server_minor & 0xffu16) as u8),
        0u8,
        0u8,
        0x67u8,
        0x65u8,
        0x6eu8,
        0x65u8,
        0x72u8,
        0x69u8,
        0x63u8,
        0x2du8,
        0x73u8,
        0x6cu8,
        0x69u8,
        0x64u8,
        0x65u8,
        0x72u8,
        0u8,
        0u8,
        0x00u8,
        0x01u8,
        0x00u8,
        0x01u8,
        0u8,
        0u8,
    ]
}

/// Builds the 47-byte server-info reply.
pub fn umgr_server_info(server_major: u16, server_minor: u16) -> (r: Vec<u8>)
    ensures
        r@.len() == 47,
        r@ =~= umgr_info_spec(server_major, server_minor),
{
    let mut r: Vec<u8> = Vec::new();
    r.push(UMGR_VERSION);
    r.push(UMGR_OP_REPORT_INFO);
    r.push(44);
    // Server name, 16 bytes: "slider-io" padded with zeros.
    r.push(0x73);
    r.push(0x6c);
    r.push(0x69);
    r.push(0x64);
    r.push(0x65);
    r.push(0x72);
    r.push(0x2d);
    r.push(0x69);
    r.push(0x6f);
    r.push(0);
    r.push(0);
    r.push(0);
    r.push(0);
    r.push(0);
    r.push(0);
    r.push(0);
    proof {
        assert((server_major >> 8u16) < 256 && (server_major & 0xffu16) < 256 && (server_minor
            >> 8u16) < 256 && (server_minor & 0xffu16) < 256) by (bit_vector);
    }
    // Server version, big endian major then minor.
    r.push((server_major >> 8) as u8);
    r.push((server_major & 0xff) as u8);
    r.push((server_minor >> 8) as u8);
    r.push((server_minor & 0xff) as u8);
    // Reserved.
    r.push(0);
    r.push(0);
    // Hardware name, 16 bytes: "generic-slider" padded with zeros.
    r.push(0x67);
    r.push(0x65);
    r.push(0x6e);
    r.push(0x65);
    r.push(0x72);
    r.push(0x69);
    r.push(0x63);
    r.push(0x2d);
    r.push(0x73);
    r.push(0x6c);
    r.push(0x69);
    r.push(0x64);
    r.push(0x65);
    r.push(0x72);
    r.push(0);
    r.push(0);
    // Hardware version.
    r.push(0x00);
    r.push(0x01);
    r.push(0x00);
    r.push(0x01);
    // Reserved.
    r.push(0);
    r.push(0);
    r
}

/// Handles one binary packet. A SetLED packet paints the 16 pad pixels, the
/// 15 divider pixels and the 3 air pixels (top first, on both strips), and
/// marks the slot dirty exactly when the caller's throttle is open. An
/// initialize packet is answered with the ready packet, a ping with the pong
/// carrying its payload and the server magic, and a server-info request with
/// the server-info record. A short packet, a payload not matching the length
/// byte, or an unknown header closes the connection.
pub fn umgr_handle(
    msg: &Vec<u8>,
    lights: &mut SliderLights,
    mark_dirty: bool,
    server_major: u16,
    server_minor: u16,
) -> (r: UmgrReply)
    requires
        old(lights).wf(),
    ensures
        final(lights).wf(),
        !umgr_packet_ok(msg@) ==> (r is Close) && *final(lights) == *old(lights),
        umgr_packet_ok(msg@) ==> {
            let version = msg@[0];
            let opcode = msg@[1];
            let payload_len = msg@[2];
            let payload = msg@.subrange(3, msg@.len() as int);
            if version == UMGR_VERSION && opcode == UMGR_OP_SET_LED && payload_len == 103 {
                &&& r is Quiet
                &&& final(lights).ground@ == umgr_ground_spec(old(lights).ground@, payload, 31)
                &&& final(lights).air_left@ == paint_spec(
                    paint_spec(
                        paint_spec(old(lights).air_left@, 2, payload.subrange(94, 97)),
                        1,
                        payload.subrange(97, 100),
                    ),
                    0,
                    payload.subrange(100, 103),
                )
                &&& final(lights).air_right@ == paint_spec(
                    paint_spec(
                        paint_spec(old(lights).air_right@, 2, payload.subrange(94, 97)),
                        1,
                        payload.subrange(97, 100),
                    ),
                    0,
                    payload.subrange(100, 103),
                )
                &&& final(lights).dirty == (old(lights).dirty || mark_dirty)
            } else if version == UMGR_VERSION && opcode == UMGR_OP_INITIALIZE && payload_len == 0 {
                &&& *final(lights) == *old(lights)
                &&& r matches UmgrReply::Send(reply) && reply@ =~= seq![
                    UMGR_VERSION,
                    UMGR_OP_READY,
                    0u8,
                ]
            } else if version == UMGR_VERSION && opcode == UMGR_OP_PING && payload_len == 4 {
                &&& *final(lights) == *old(lights)
                &&& r matches UmgrReply::Send(reply) && reply@ =~= umgr_pong_spec(payload)
            } else if version == UMGR_VERSION && opcode == UMGR_OP_REQUEST_INFO && payload_len
                == 0 {
                &&& *final(lights) == *old(lights)
                &&& r matches UmgrReply::Send(reply) && reply@ =~= umgr_info_spec(
                    server_major,
                    server_minor,
                )
            } else {
                (r is Close) && *final(lights) == *old(lights)
            }
        },
{
    if msg.len() < 3 {
        return UmgrReply::Close;
    }
    let version = msg[0];
    let opcode = msg[1];
    let payload_len = msg[2];
    if msg.len() - 3 != payload_len as usize {
        return UmgrReply::Close;
    }
    let ghost payload = msg@.subrange(3, msg@.len() as int);
    if version == UMGR_VERSION && opcode == UMGR_OP_SET_LED && payload_len == 103 {
        let mut i: usize = 0;
        while i < 16
            invariant
                lights.wf(),
                msg@.len() == 106,
                payload == msg@.subrange(3, msg@.len() as int),
                i <= 16,
                lights.ground@ == umgr_ground_spec(old(lights).ground@, payload, i as int),
                lights.air_left@ == old(lights).air_left@,
                lights.air_right@ == old(lights).air_right@,
                lights.dirty == old(lights).dirty,
            decreases 16 - i,
        {
            let pos = 3 + 1 + i * 3;
            let color: [u8; 3] = [msg[pos], msg[pos + 1], msg[pos + 2]];
            lights.paint(i * 2, &color);
            proof {
                assert(color@ =~= payload.subrange(1 + 3 * i as int, 1 + 3 * i as int + 3));
            }
            i = i + 1;
        }
        let mut i: usize = 0;
        while i < 15
            invariant
                lights.wf(),
                msg@.len() == 106,
                payload == msg@.subrange(3, msg@.len() as int),
                i <= 15,
                lights.ground@ == umgr_ground_spec(old(lights).ground@, payload, 16 + i as int),
                lights.air_left@ == old(lights).air_left@,
                lights.air_right@ == old(lights).air_right@,
                lights.dirty == old(lights).dirty,
            decreases 15 - i,
        {
            let pos = 3 + 49 + i * 3;
            let color: [u8; 3] = [msg[pos], msg[pos + 1], msg[pos + 2]];
            lights.paint(1 + i * 2, &color);
            proof {
                assert(color@ =~= payload.subrange(49 + 3 * (i as int + 1) - 3 + 3 - 3, 49 + 3 * (
                i as int) + 3));
                assert(color@ =~= payload.subrange(49 + 3 * (16 + i as int + 1 - 17), 49 + 3 * (16
                    + i as int + 1 - 17) + 3));
            }
            i = i + 1;
        }
        let mut i: usize = 0;
        while i < 3
            invariant
                lights.wf(),
                msg@.len() == 106,
                payload == msg@.subrange(3, msg@.len() as int),
                i <= 3,
                lights.ground@ == umgr_ground_spec(old(lights).ground@, payload, 31),
                lights.dirty == old(lights).dirty,
                i == 0 ==> lights.air_left@ == old(lights).air_left@ && lights.air_right@ == old(
                    lights,
                ).air_right@,
                i == 1 ==> lights.air_left@ == paint_spec(
                    old(lights).air_left@,
                    2,
                    payload.subrange(94, 97),
                ) && lights.air_right@ == paint_spec(
                    old(lights).air_right@,
                    2,
                    payload.subrange(94, 97),
                ),
                i == 2 ==> lights.air_left@ == paint_spec(
                    paint_spec(old(lights).air_left@, 2, payload.subrange(94, 97)),
                    1,
                    payload.subrange(97, 100),
                ) && lights.air_right@ == paint_spec(
                    paint_spec(old(lights).air_right@, 2, payload.subrange(94, 97)),
                    1,
                    payload.subrange(97, 100),
                ),
                i == 3 ==> lights.air_left@ == paint_spec(
                    paint_spec(
                        paint_spec(old(lights).air_left@, 2, payload.subrange(94, 97)),
                        1,
                        payload.subrange(97, 100),
                    ),
                    0,
                    payload.subrange(100, 103),
                ) && lights.air_right@ == paint_spec(
                    paint_spec(
                        paint_spec(old(lights).air_right@, 2, payload.subrange(94, 97)),
                        1,
                        payload.subrange(97, 100),
                    ),
                    0,
                    payload.subrange(100, 103),
                ),
            decreases 3 - i,
        {
            let pos = 3 + 94 + i * 3;
            let color: [u8; 3] = [msg[pos], msg[pos + 1], msg[pos + 2]];
            lights.paint_air(2 - i, &color);
            proof {
                assert(color@ =~= payload.subrange(94 + 3 * i as int, 94 + 3 * i as int + 3));
            }
            i = i + 1;
        }
        if mark_dirty {
            lights.dirty = true;
        }
        UmgrReply::Quiet
    } else if version == UMGR_VERSION && opcode == UMGR_OP_INITIALIZE && payload_len == 0 {
        let mut reply: Vec<u8> = Vec::new();
        reply.push(UMGR_VERSION);
        reply.push(UMGR_OP_READY);
        reply.push(0);
        UmgrReply::Send(reply)
    } else if version == UMGR_VERSION && opcode == UMGR_OP_PING && payload_len == 4 {
        let mut reply: Vec<u8> = Vec::new();
        reply.push(UMGR_VERSION);
        reply.push(UMGR_OP_PONG);
        reply.push(6);
        reply.push(msg[3]);
        reply.push(msg[4]);
        reply.push(msg[5]);
        reply.push(msg[6]);
        reply.push(0x51);
        reply.push(0xed);
        proof {
            assert(payload[0] == msg@[3] && payload[1] == msg@[4] && payload[2] == msg@[5]
                && payload[3] == msg@[6]);
        }
        UmgrReply::Send(reply)
    } else if version == UMGR_VERSION && opcode == UMGR_OP_REQUEST_INFO && payload_len == 0 {
        UmgrReply::Send(umgr_server_info(server_major, server_minor))
    } else {
        UmgrReply::Close
    }
}

} // verus!
