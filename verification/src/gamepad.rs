//! Virtual XInput gamepad output: the laser "wind" hysteresis machines and
//! the report computed from the Voltex view of the flat input.

use vstd::prelude::*;
use crate::state::FLAT_LEN;
use crate::voltex::{any_in, VoltexState};

verus! {

/// XInput button bit: A.
pub const XBTN_A: u16 = 0x1000;

/// XInput button bit: B.
pub const XBTN_B: u16 = 0x2000;

/// XInput button bit: X.
pub const XBTN_X: u16 = 0x4000;

/// XInput button bit: Y.
pub const XBTN_Y: u16 = 0x8000;

/// XInput button bit: left shoulder.
pub const XBTN_LB: u16 = 0x0100;

/// XInput button bit: right shoulder.
pub const XBTN_RB: u16 = 0x0200;

/// XInput button bit: start.
pub const XBTN_START: u16 = 0x0010;

/// XInput button bit: back.
pub const XBTN_BACK: u16 = 0x0020;

/// XInput button bit: guide.
pub const XBTN_GUIDE: u16 = 0x0400;

/// A hysteresis state machine that converts a two-sided boolean laser input
/// into a signed direction. When both sides are pressed, precedence goes to
/// whichever became active later.
#[derive(PartialEq, Eq, Structural, Clone, Copy, Debug)]
pub struct LastWind {
    /// The left side as of the previous update.
    pub left: bool,
    /// The right side as of the previous update.
    pub right: bool,
    /// The direction emitted by the previous update: -1, 0 or +1.
    pub out: i16,
}

/// The direction a wind machine in state `s` emits for the sides
/// `(left, right)`: 0 for neither, -1 for left only, +1 for right only; when
/// both are held, the side that became active later wins, and if both were
/// already held the previous direction persists.
pub open spec fn wind_update(left: bool, right: bool, s: LastWind) -> i16 {
    if !left && !right {
        0i16
    } else if left && !right {
        -1i16
    } else if !left && right {
        1i16
    } else if !s.left && !s.right {
        0i16
    } else if s.left && !s.right {
        1i16
    } else if !s.left && s.right {
        -1i16
    } else {
        s.out
    }
}

impl LastWind {
    /// The emitted direction is one of -1, 0, +1.
    pub open spec fn wf(&self) -> bool {
        -1 <= self.out <= 1
    }

    /// A wind machine with both sides released.
    pub fn new() -> (r: Self)
        ensures
            r == (LastWind { left: false, right: false, out: 0i16 }),
    {
        LastWind { left: false, right: false, out: 0 }
    }

    /// Feeds one sample of the two sides and returns the emitted direction.
    pub fn update(&mut self, left: bool, right: bool) -> (r: i16)
        requires
            old(self).wf(),
        ensures
            final(self).wf(),
            r == wind_update(left, right, *old(self)),
            *final(self) == (LastWind { left, right, out: r }),
    {
        let out: i16 = if !left && !right {
            0
        } else if left && !right {
            -1
        } else if !left && right {
            1
        } else if !self.left && !self.right {
            0
        } else if self.left && !self.right {
            1
        } else if !self.left && self.right {
            -1
        } else {
            self.out
        };
        self.left = left;
        self.right = right;
        self.out = out;
        out
    }
}

/// A virtual XInput report: the button word and the two stick X axes driven
/// by the wind machines.
#[derive(PartialEq, Eq, Structural, Clone, Copy, Debug)]
pub struct GamepadReport {
    /// XInput button bitmap.
    pub buttons: u16,
    /// Left stick X axis.
    pub thumb_lx: i16,
    /// Right stick X axis.
    pub thumb_rx: i16,
}

/// The XInput button word of a flat input: the four Voltex buttons map to
/// A, B, X, Y, the two pedals to the shoulders, and the extra buttons to
/// start, back and guide.
pub open spec fn gamepad_buttons(flat: Seq<bool>) -> u16 {
    let b0 = if flat[9] || flat[11] {
        0u16 | XBTN_A
    } else {
        0u16
    };
    let b1 = if flat[13] || flat[15] {
        b0 | XBTN_B
    } else {
        b0
    };
    let b2 = if flat[17] || flat[19] {
        b1 | XBTN_X
    } else {
        b1
    };
    let b3 = if flat[21] || flat[23] {
        b2 | XBTN_Y
    } else {
        b2
    };
    let b4 = if flat[8] || flat[10] || flat[12] || flat[14] {
        b3 | XBTN_LB
    } else {
        b3
    };
    let b5 = if flat[16] || flat[18] || flat[20] || flat[22] {
        b4 | XBTN_RB
    } else {
        b4
    };
    let b6 = if flat[38] {
        b5 | XBTN_START
    } else {
        b5
    };
    let b7 = if flat[39] {
        b6 | XBTN_BACK
    } else {
        b6
    };
    if flat[40] {
        b7 | XBTN_GUIDE
    } else {
        b7
    }
}

/// The left side of the left laser: its pad group, or the lowest air beam in
/// the air-assisted variant.
pub open spec fn left_wind_left(flat: Seq<bool>, use_air: bool) -> bool {
    any_in(flat, 0, 4) || (use_air && flat[32])
}

/// The right side of the left laser.
pub open spec fn left_wind_right(flat: Seq<bool>, use_air: bool) -> bool {
    any_in(flat, 4, 8) || (use_air && (flat[33] || flat[34]))
}

/// The left side of the right laser.
pub open spec fn right_wind_left(flat: Seq<bool>, use_air: bool) -> bool {
    any_in(flat, 24, 28) || (use_air && (flat[35] || flat[36]))
}

/// The right side of the right laser: its pad group, or the highest air beam
/// in the air-assisted variant.
pub open spec fn right_wind_right(flat: Seq<bool>, use_air: bool) -> bool {
    any_in(flat, 28, 32) || (use_air && flat[37])
}

/// The verified core of the XInput gamepad output: holds the two wind
/// machines and the report most recently pushed to the virtual device.
pub struct GamepadCore {
    /// Whether air beams act as additional laser inputs.
    pub use_air: bool,
    /// Wind machine of the left laser.
    pub left_wind: LastWind,
    /// Wind machine of the right laser.
    pub right_wind: LastWind,
    /// The report as last pushed.
    pub gamepad: GamepadReport,
}

impl GamepadCore {
    /// Both wind machines hold a valid direction.
    pub open spec fn wf(&self) -> bool {
        &&& self.left_wind.wf()
        &&& self.right_wind.wf()
    }

    /// A fresh core with both winds released and a zeroed report.
    pub fn new(use_air: bool) -> (r: Self)
        ensures
            r.wf(),
            r.use_air == use_air,
            r.left_wind == (LastWind { left: false, right: false, out: 0i16 }),
            r.right_wind == (LastWind { left: false, right: false, out: 0i16 }),
            r.gamepad == (GamepadReport { buttons: 0u16, thumb_lx: 0i16, thumb_rx: 0i16 }),
    {
        GamepadCore {
            use_air,
            left_wind: LastWind::new(),
            right_wind: LastWind::new(),
            gamepad: GamepadReport { buttons: 0, thumb_lx: 0, thumb_rx: 0 },
        }
    }

    /// The report one tick on `flat` produces from state `s`.
    pub open spec fn report_spec(s: GamepadCore, flat: Seq<bool>) -> GamepadReport {
        GamepadReport {
            buttons: gamepad_buttons(flat),
            thumb_lx: (wind_update(
                left_wind_left(flat, s.use_air),
                left_wind_right(flat, s.use_air),
                s.left_wind,
            ) * 20000) as i16,
            thumb_rx: (wind_update(
                right_wind_left(flat, s.use_air),
                right_wind_right(flat, s.use_air),
                s.right_wind,
            ) * 20000) as i16,
        }
    }

    /// Computes the report of one tick, stores it, and returns it exactly when
    /// it differs from the last pushed report: only then does the caller push
    /// it to the virtual device.
    pub fn tick(&mut self, flat_input: &Vec<bool>) -> (r: Option<GamepadReport>)
        requires
            old(self).wf(),
            flat_input@.len() == FLAT_LEN,
        ensures
            final(self).wf(),
            final(self).use_air == old(self).use_air,
            final(self).gamepad == Self::report_spec(*old(self), flat_input@),
            final(self).left_wind.left == left_wind_left(flat_input@, old(self).use_air),
            final(self).left_wind.right == left_wind_right(flat_input@, old(self).use_air),
            final(self).right_wind.left == right_wind_left(flat_input@, old(self).use_air),
            final(self).right_wind.right == right_wind_right(flat_input@, old(self).use_air),
            r == if Self::report_spec(*old(self), flat_input@) == old(self).gamepad {
                None::<GamepadReport>
            } else {
                Some(Self::report_spec(*old(self), flat_input@))
            },
    {
        let voltex_state = VoltexState::from_flat(flat_input);

        let mut buttons: u16 = 0;
        if voltex_state.bt[0] {
            buttons = buttons | XBTN_A;
        }
        if voltex_state.bt[1] {
            buttons = buttons | XBTN_B;
        }
        if voltex_state.bt[2] {
            buttons = buttons | XBTN_X;
        }
        if voltex_state.bt[3] {
            buttons = buttons | XBTN_Y;
        }
        if voltex_state.fx[0] {
            buttons = buttons | XBTN_LB;
        }
        if voltex_state.fx[1] {
            buttons = buttons | XBTN_RB;
        }
        if voltex_state.extra[0] {
            buttons = buttons | XBTN_START;
        }
        if voltex_state.extra[1] {
            buttons = buttons | XBTN_BACK;
        }
        if voltex_state.extra[2] {
            buttons = buttons | XBTN_GUIDE;
        }
        assert(buttons == gamepad_buttons(flat_input@));

        let lx = self.left_wind.update(
            voltex_state.laser[0] || (self.use_air && flat_input[32]),
            voltex_state.laser[1] || (self.use_air && (flat_input[33] || flat_input[34])),
        ) * 20000;
        let rx = self.right_wind.update(
            voltex_state.laser[2] || (self.use_air && (flat_input[35] || flat_input[36])),
            voltex_state.laser[3] || (self.use_air && flat_input[37]),
        ) * 20000;

        let report = GamepadReport { buttons, thumb_lx: lx, thumb_rx: rx };
        let dirty = report.buttons != self.gamepad.buttons || report.thumb_lx
            != self.gamepad.thumb_lx || report.thumb_rx != self.gamepad.thumb_rx;
        self.gamepad = report;
        if dirty {
            Some(report)
        } else {
            None
        }
    }

    /// Resets the stored report to all zero, as pushed on shutdown.
    pub fn reset(&mut self) -> (r: GamepadReport)
        requires
            old(self).wf(),
        ensures
            final(self).wf(),
            final(self).gamepad == (GamepadReport { buttons: 0u16, thumb_lx: 0i16, thumb_rx: 0i16 }),
            r == final(self).gamepad,
            final(self).use_air == old(self).use_air,
            final(self).left_wind == old(self).left_wind,
            final(self).right_wind == old(self).right_wind,
    {
        let report = GamepadReport { buttons: 0, thumb_lx: 0, thumb_rx: 0 };
        self.gamepad = report;
        report
    }
}

} // verus!
