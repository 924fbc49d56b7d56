//! Output emulation configuration: the target families, keyboard layouts and
//! polling rates.

use vstd::prelude::*;

verus! {

/// Compares two string slices by their character sequences.
pub fn str_eq(a: &str, b: &str) -> (r: bool)
    ensures
        r == (a@ == b@),
{
    let oa = a.to_owned();
    let ob = b.to_owned();
    oa == ob
}

/// The output polling rate, in ticks per second.
#[derive(PartialEq, Eq, Structural, Clone, Copy, Debug)]
pub enum PollingRate {
    /// 60 Hz.
    Sixty,
    /// 100 Hz.
    Hundred,
    /// 250 Hz.
    TwoHundredFifty,
    /// 500 Hz.
    FiveHundred,
    /// 1000 Hz.
    Thousand,
}

/// The polling rate a decimal name spells, for the five supported rates.
pub open spec fn polling_rate_spec(s: Seq<char>) -> Option<PollingRate> {
    if s == "60"@ {
        Some(PollingRate::Sixty)
    } else if s == "100"@ {
        Some(PollingRate::Hundred)
    } else if s == "250"@ {
        Some(PollingRate::TwoHundredFifty)
    } else if s == "500"@ {
        Some(PollingRate::FiveHundred)
    } else if s == "1000"@ {
        Some(PollingRate::Thousand)
    } else {
        None
    }
}

impl PollingRate {
    /// Parses a rate from its decimal name. Returns `Some` exactly for the
    /// five supported rates.
    pub fn from_str(s: &str) -> (r: Option<Self>)
        ensures
            r == polling_rate_spec(s@),
    {
        if str_eq(s, "60") {
            Some(PollingRate::Sixty)
        } else if str_eq(s, "100") {
            Some(PollingRate::Hundred)
        } else if str_eq(s, "250") {
            Some(PollingRate::TwoHundredFifty)
        } else if str_eq(s, "500") {
            Some(PollingRate::FiveHundred)
        } else if str_eq(s, "1000") {
            Some(PollingRate::Thousand)
        } else {
            None
        }
    }

    /// The inter-tick interval of this rate in microseconds.
    pub fn to_t_u64(&self) -> (r: u64)
        ensures
            r == match *self {
                PollingRate::Sixty => 16666u64,
                PollingRate::Hundred => 10000u64,
                PollingRate::TwoHundredFifty => 4000u64,
                PollingRate::FiveHundred => 2000u64,
                PollingRate::Thousand => 1000u64,
            },
    {
        match self {
            PollingRate::Sixty => 16666,
            PollingRate::Hundred => 10000,
            PollingRate::TwoHundredFifty => 4000,
            PollingRate::FiveHundred => 2000,
            PollingRate::Thousand => 1000,
        }
    }
}

/// The keyboard layout: which keycode each flat index maps to.
#[derive(PartialEq, Eq, Structural, Clone, Copy, Debug)]
pub enum KeyboardLayout {
    /// Tasoller-style 32-zone layout.
    Tasoller,
    /// Yuancon-style 32-zone layout.
    Yuancon,
    /// Umiguri-style 32-zone layout.
    Umiguri,
    /// 16-column layout: both pads of a column share a key.
    TasollerHalf,
    /// Eight wide keys.
    EightK,
    /// Six wide keys.
    SixK,
    /// Four wide keys.
    FourK,
    /// Voltex-style layout.
    Voltex,
    /// Voltex-style layout with air beams mapped to keys.
    Neardayo,
    /// Project-Diva-style layout.
    PDFTA,
}

/// The virtual XInput gamepad layout.
#[derive(PartialEq, Eq, Structural, Clone, Copy, Debug)]
pub enum GamepadLayout {
    /// Lasers from the outer pad groups only.
    Voltex,
    /// Lasers also fed by the air beams.
    Neardayo,
}

/// The virtual DualShock gamepad layout.
#[derive(PartialEq, Eq, Structural, Clone, Copy, Debug)]
pub enum HoriLayout {
    /// Buttons from the bottom pads, slider from the top pads.
    Full,
    /// Slider from all pads, no buttons.
    SliderOnly,
}

/// The output target family.
#[derive(Clone, Debug)]
pub enum OutputMode {
    /// No output worker.
    Off,
    /// Keyboard event synthesis.
    Keyboard {
        /// The keycode mapping.
        layout: KeyboardLayout,
        /// The tick rate.
        polling: PollingRate,
        /// Ground pressure threshold of the flat projection.
        sensitivity: u8,
        /// Whether to inject scancodes through the kernel-level facility.
        direct_input: bool,
    },
    /// Virtual XInput gamepad.
    Gamepad {
        /// The gamepad layout.
        layout: GamepadLayout,
        /// The tick rate.
        polling: PollingRate,
        /// Ground pressure threshold of the flat projection.
        sensitivity: u8,
    },
    /// Virtual DualShock gamepad.
    Hori {
        /// The gamepad layout.
        layout: HoriLayout,
        /// The tick rate.
        polling: PollingRate,
        /// Ground pressure threshold of the flat projection.
        sensitivity: u8,
    },
    /// Outbound WebSocket messages.
    Websocket {
        /// The destination URL.
        url: String,
        /// The tick rate.
        polling: PollingRate,
    },
}

} // verus!
