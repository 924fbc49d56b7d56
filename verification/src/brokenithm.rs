//! The embedded touch-surface server's sub-protocols: the routing of HTTP
//! requests and the WebSocket text messages that carry heartbeats and touch
//! payloads.

use vstd::prelude::*;
use crate::state::SliderInput;

verus! {

/// What a received WebSocket text message asks for.
#[derive(PartialEq, Eq, Structural, Clone, Copy, Debug)]
pub enum BrokenithmReply {
    /// A heartbeat: answer with the text `alive`.
    Alive,
    /// A touch payload was applied to the input slot; no answer.
    Applied,
    /// Nothing to do: a well-sized message with an unknown tag.
    Ignored,
    /// A message of unexpected length ends the connection.
    Close,
}

/// Length of a heartbeat message.
pub const HEARTBEAT_LEN: usize = 6;

/// Length of a touch payload message: a tag and 38 state characters.
pub const TOUCH_LEN: usize = 39;

/// Handles one WebSocket text message, given as its characters. A six-long
/// message tagged `a` is a heartbeat. A 39-long message tagged `b` carries 32
/// ground characters and then 6 air characters: character `1 + i` presses
/// ground pad `i` to full pressure, character `33 + i` interrupts air beam
/// `i`. Any other length closes the connection.
pub fn brokenithm_handle_text(chars: &Vec<char>, input: &mut SliderInput) -> (r: BrokenithmReply)
    requires
        old(input).wf(),
    ensures
        final(input).wf(),
        final(input).extra@ == old(input).extra@,
        chars@.len() == HEARTBEAT_LEN && chars@[0] == 'a' ==> r == BrokenithmReply::Alive
            && *final(input) == *old(input),
        chars@.len() == HEARTBEAT_LEN && chars@[0] != 'a' ==> r == BrokenithmReply::Ignored
            && *final(input) == *old(input),
        chars@.len() == TOUCH_LEN && chars@[0] == 'b' ==> r == BrokenithmReply::Applied && (forall|i: int|
            0 <= i < 32 ==> final(input).ground@[i] == (if chars@[1 + i] == '1' {
                255u8
            } else {
                0u8
            })) && (forall|i: int|
            0 <= i < 6 ==> final(input).air@[i] == (if chars@[33 + i] == '1' {
                1u8
            } else {
                0u8
            })),
        chars@.len() == TOUCH_LEN && chars@[0] != 'b' ==> r == BrokenithmReply::Ignored
            && *final(input) == *old(input),
        chars@.len() != HEARTBEAT_LEN && chars@.len() != TOUCH_LEN ==> r == BrokenithmReply::Close
            && *final(input) == *old(input),
{
    if chars.len() == HEARTBEAT_LEN {
        if chars[0] == 'a' {
            BrokenithmReply::Alive
        } else {
            BrokenithmReply::Ignored
        }
    } else if chars.len() == TOUCH_LEN {
        if chars[0] == 'b' {
            let mut i: usize = 0;
            while i < 32
                invariant
                    chars@.len() == TOUCH_LEN,
                    input.wf(),
                    input.air@ == old(input).air@,
                    input.extra@ == old(input).extra@,
                    i <= 32,
                    forall|j: int|
                        0 <= j < i ==> input.ground@[j] == (if chars@[1 + j] == '1' {
                            255u8
                        } else {
                            0u8
                        }),
                decreases 32 - i,
            {
                input.ground[i] = if chars[1 + i] == '1' {
                    255
                } else {
                    0
                };
                i = i + 1;
            }
            let mut i: usize = 0;
            while i < 6
                invariant
                    chars@.len() == TOUCH_LEN,
                    input.wf(),
                    input.extra@ == old(input).extra@,
                    forall|j: int|
                        0 <= j < 32 ==> input.ground@[j] == (if chars@[1 + j] == '1' {
                            255u8
                        } else {
                            0u8
                        }),
                    i <= 6,
                    forall|j: int|
                        0 <= j < i ==> input.air@[j] == (if chars@[33 + j] == '1' {
                            1u8
                        } else {
                            0u8
                        }),
                decreases 6 - i,
            {
                input.air[i] = if chars[33 + i] == '1' {
                    1
                } else {
                    0
                };
                i = i + 1;
            }
            BrokenithmReply::Applied
        } else {
            BrokenithmReply::Ignored
        }
    } else {
        BrokenithmReply::Close
    }
}

/// Where an HTTP request of the embedded server is routed.
#[derive(PartialEq, Eq, Structural, Clone, Copy, Debug)]
pub enum BrokenithmRoute {
    /// Serve the full client page.
    IndexFull,
    /// Serve the ground-only client page.
    IndexGroundOnly,
    /// Serve the named static asset.
    Asset,
    /// Upgrade the connection to the WebSocket sub-protocol.
    Websocket,
    /// Answer with a plain not-found page.
    NotFound,
}

/// Routes one request of the embedded server: only `GET` is served; the root
/// and the index name serve the client page picked by the ground-only
/// setting; `/ws` with an upgrade header becomes the WebSocket; any other
/// path without an upgrade header is looked up as a static asset.
pub fn route_request(
    is_get: bool,
    path: &str,
    has_upgrade: bool,
    ground_only: bool,
) -> (r: BrokenithmRoute)
    ensures
        !is_get ==> r == BrokenithmRoute::NotFound,
        is_get && !has_upgrade && (path@ == "/"@ || path@ == "/index.html"@) ==> r == (if ground_only {
            BrokenithmRoute::IndexGroundOnly
        } else {
            BrokenithmRoute::IndexFull
        }),
        is_get && !has_upgrade && path@ != "/"@ && path@ != "/index.html"@ ==> r
            == BrokenithmRoute::Asset,
        is_get && has_upgrade && path@ == "/ws"@ ==> r == BrokenithmRoute::Websocket,
        is_get && has_upgrade && path@ != "/ws"@ ==> r == BrokenithmRoute::NotFound,
{
    if !is_get {
        return BrokenithmRoute::NotFound;
    }
    if !has_upgrade {
        if crate::output::str_eq(path, "/") || crate::output::str_eq(path, "/index.html") {
            if ground_only {
                BrokenithmRoute::IndexGroundOnly
            } else {
                BrokenithmRoute::IndexFull
            }
        } else {
            BrokenithmRoute::Asset
        }
    } else {
        if crate::output::str_eq(path, "/ws") {
            BrokenithmRoute::Websocket
        } else {
            BrokenithmRoute::NotFound
        }
    }
}

} // verus!
