//! Verified core of a slider-controller I/O bridge.
//!
//! The library models the input and lighting state of a 32-pad arcade slider
//! controller, the framed byte protocols spoken to the supported hardware
//! models, the serial byte-stuffing codec with its handshake state machine,
//! the WebSocket touch and lighting sub-protocols, and the output projections
//! (keyboard key sets, virtual-gamepad reports, reactive lighting layouts).
//! The surrounding process plumbing (USB, serial and network transfers,
//! threads and async tasks) lives outside the library and calls into it with
//! plain values.

pub mod state;
pub mod voltex;
pub mod hori;
pub mod gamepad;
pub mod output;
pub mod keyboard;
pub mod diva;
pub mod hid;
pub mod brokenithm;
pub mod umgr;
pub mod lights;
pub mod device;
pub mod config;
pub mod session;
pub mod system;
pub mod worker;
