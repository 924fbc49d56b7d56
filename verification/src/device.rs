//! Device configuration: which controller model or bridge feeds the input
//! slot, and the per-model USB identity and endpoints.

use vstd::prelude::*;
use crate::hid::{LedSpec, WriteType};

verus! {

/// The supported USB controller models.
#[derive(PartialEq, Eq, Structural, Clone, Copy, Debug)]
pub enum HardwareSpec {
    /// Tasoller, revision one firmware.
    TasollerOne,
    /// Tasoller, revision two firmware.
    TasollerTwo,
    /// Yuancon.
    Yuancon,
    /// Yubideck.
    Yubideck,
    /// Yubideck, revision three firmware.
    YubideckThree,
    /// HoriPad.
    HoriPad,
}

/// The flavors of the embedded touch-surface server.
#[derive(PartialEq, Eq, Structural, Clone, Copy, Debug)]
pub enum BrokenithmSpec {
    /// The full client.
    Basic,
    /// The ground-only client.
    GroundOnly,
    /// The nostalgia client.
    Nostalgia,
}

/// Which device feeds the input slot.
#[derive(Clone, Debug)]
pub enum DeviceMode {
    /// No input device.
    Off,
    /// A USB controller.
    Hardware {
        /// The model.
        model: HardwareSpec,
        /// Force the air beams to zero after every decode.
        disable_air: bool,
    },
    /// The embedded touch-surface server.
    Brokenithm {
        /// The client flavor.
        spec: BrokenithmSpec,
        /// Stream lighting frames back to the client.
        lights_enabled: bool,
        /// The TCP port to listen on.
        port: u16,
    },
    /// A serial slider.
    DivaSlider {
        /// The serial port name.
        port: String,
        /// Brightness byte of outbound lighting frames.
        brightness: u8,
    },
}

impl DeviceMode {
    /// The TCP port of the embedded server, when this mode runs one.
    pub fn get_port(&self) -> (r: Option<u16>)
        ensures
            r == match *self {
                DeviceMode::Brokenithm { port, .. } => Some(port),
                _ => None::<u16>,
            },
    {
        match self {
            DeviceMode::Brokenithm { port, .. } => Some(*port),
            _ => None,
        }
    }
}

impl HardwareSpec {
    /// The USB vendor and product id this model is opened by.
    pub fn vid_pid(&self) -> (r: (u16, u16))
        ensures
            r == match *self {
                HardwareSpec::TasollerOne => (0x1ccfu16, 0x2333u16),
                HardwareSpec::TasollerTwo => (0x1ccfu16, 0x2333u16),
                HardwareSpec::Yuancon => (0x1973u16, 0x2001u16),
                HardwareSpec::Yubideck => (0x1973u16, 0x2001u16),
                HardwareSpec::YubideckThree => (0x1973u16, 0x2001u16),
                HardwareSpec::HoriPad => (0x0f0du16, 0x0092u16),
            },
    {
        match self {
            HardwareSpec::TasollerOne => (0x1ccf, 0x2333),
            HardwareSpec::TasollerTwo => (0x1ccf, 0x2333),
            HardwareSpec::Yuancon => (0x1973, 0x2001),
            HardwareSpec::Yubideck => (0x1973, 0x2001),
            HardwareSpec::YubideckThree => (0x1973, 0x2001),
            HardwareSpec::HoriPad => (0x0f0d, 0x0092),
        }
    }

    /// The interrupt-IN endpoint input frames are read from.
    pub fn read_endpoint(&self) -> (r: u8)
        ensures
            r == match *self {
                HardwareSpec::TasollerOne => 0x84u8,
                HardwareSpec::TasollerTwo => 0x84u8,
                HardwareSpec::Yuancon => 0x81u8,
                HardwareSpec::Yubideck => 0x81u8,
                HardwareSpec::YubideckThree => 0x81u8,
                HardwareSpec::HoriPad => 0x84u8,
            },
    {
        match self {
            HardwareSpec::TasollerOne => 0x84,
            HardwareSpec::TasollerTwo => 0x84,
            HardwareSpec::Yuancon => 0x81,
            HardwareSpec::Yubideck => 0x81,
            HardwareSpec::YubideckThree => 0x81,
            HardwareSpec::HoriPad => 0x84,
        }
    }

    /// The LED output channels of this model, with empty staging buffers: one
    /// bulk channel for the Tasollers, one interrupt channel for the Yuancon
    /// and Yubideck, two for the Yubideck-three frames, and four for the
    /// HoriPad stripes and compressed stream.
    pub fn led_channels(&self) -> (r: Vec<LedSpec>)
        ensures
            forall|i: int| 0 <= i < r@.len() ==> (#[trigger] r@[i]).wf() && r@[i].led_buf.len == 0,
            match *self {
                HardwareSpec::TasollerOne => r@.len() == 1 && r@[0].led_write_type
                    == WriteType::Bulk && r@[0].led_endpoint == 0x03,
                HardwareSpec::TasollerTwo => r@.len() == 1 && r@[0].led_write_type
                    == WriteType::Bulk && r@[0].led_endpoint == 0x03,
                HardwareSpec::Yuancon => r@.len() == 1 && r@[0].led_write_type
                    == WriteType::Interrupt && r@[0].led_endpoint == 0x02,
                HardwareSpec::Yubideck => r@.len() == 1 && r@[0].led_write_type
                    == WriteType::Interrupt && r@[0].led_endpoint == 0x02,
                HardwareSpec::YubideckThree => r@.len() == 2 && r@[0].led_write_type
                    == WriteType::Interrupt && r@[0].led_endpoint == 0x02 && r@[1].led_write_type
                    == WriteType::Interrupt && r@[1].led_endpoint == 0x02,
                HardwareSpec::HoriPad => r@.len() == 4 && (forall|i: int|
                    0 <= i < 4 ==> (#[trigger] r@[i]).led_write_type == WriteType::Interrupt)
                    && r@[0].led_endpoint == 0x04 && r@[1].led_endpoint == 0x05
                    && r@[2].led_endpoint == 0x06 && r@[3].led_endpoint == 0x0b,
            },
    {
        let mut r: Vec<LedSpec> = Vec::new();
        match self {
            HardwareSpec::TasollerOne => {
                r.push(LedSpec::new(WriteType::Bulk, 0x03));
            },
            HardwareSpec::TasollerTwo => {
                r.push(LedSpec::new(WriteType::Bulk, 0x03));
            },
            HardwareSpec::Yuancon => {
                r.push(LedSpec::new(WriteType::Interrupt, 0x02));
            },
            HardwareSpec::Yubideck => {
                r.push(LedSpec::new(WriteType::Interrupt, 0x02));
            },
            HardwareSpec::YubideckThree => {
                r.push(LedSpec::new(WriteType::Interrupt, 0x02));
                r.push(LedSpec::new(WriteType::Interrupt, 0x02));
            },
            HardwareSpec::HoriPad => {
                r.push(LedSpec::new(WriteType::Interrupt, 0x04));
                r.push(LedSpec::new(WriteType::Interrupt, 0x05));
                r.push(LedSpec::new(WriteType::Interrupt, 0x06));
                r.push(LedSpec::new(WriteType::Interrupt, 0x0b));
            },
        }
        r
    }
}

} // verus!
