//! The session plan: which workers a configuration instantiates. The
//! surrounding controller spawns one worker per planned slot and drops them
//! all before building the next session.

use vstd::prelude::*;
use crate::config::Config;
use crate::device::DeviceMode;
use crate::lights::LightsMode;
use crate::output::OutputMode;

verus! {

/// Which workers one configuration asks for: at most one input producer, at
/// most one output consumer and at most one lighting producer.
#[derive(PartialEq, Eq, Structural, Clone, Copy, Debug)]
pub struct SessionPlan {
    /// A thread worker driving a USB controller.
    pub hid_worker: bool,
    /// A thread worker driving a serial slider.
    pub diva_worker: bool,
    /// A haltable async worker hosting the embedded touch-surface server.
    pub brokenithm_worker: bool,
    /// A ticking async worker running the output emulation.
    pub output_worker: bool,
    /// A ticking async worker computing lighting frames.
    pub lights_worker: bool,
    /// A haltable async worker hosting the UMGR lighting server.
    pub umgr_worker: bool,
}

impl SessionPlan {
    /// At most one input producer and at most one lighting producer are
    /// planned.
    pub open spec fn wf(&self) -> bool {
        &&& !(self.hid_worker && self.diva_worker)
        &&& !(self.hid_worker && self.brokenithm_worker)
        &&& !(self.diva_worker && self.brokenithm_worker)
        &&& !(self.lights_worker && self.umgr_worker)
    }
}

/// Plans the workers of a session: the device mode picks exactly one input
/// worker or none, any output mode but off gets the output worker, and the
/// lighting mode gets either the ticking lighting worker or the UMGR server.
pub fn session_plan(config: &Config) -> (r: SessionPlan)
    ensures
        r.wf(),
        r.hid_worker == (config.device_mode matches DeviceMode::Hardware { .. }),
        r.diva_worker == (config.device_mode matches DeviceMode::DivaSlider { .. }),
        r.brokenithm_worker == (config.device_mode matches DeviceMode::Brokenithm { .. }),
        r.output_worker == !(config.output_mode is Off),
        r.lights_worker == (config.lights_mode matches LightsMode::Reactive { .. }
            || config.lights_mode matches LightsMode::Attract { .. }
            || config.lights_mode matches LightsMode::Serial { .. }
            || config.lights_mode matches LightsMode::Websocket { .. }),
        r.umgr_worker == (config.lights_mode matches LightsMode::UmgrWebsocket { .. }),
{
    let hid_worker = match &config.device_mode {
        DeviceMode::Hardware { .. } => true,
        _ => false,
    };
    let diva_worker = match &config.device_mode {
        DeviceMode::DivaSlider { .. } => true,
        _ => false,
    };
    let brokenithm_worker = match &config.device_mode {
        DeviceMode::Brokenithm { .. } => true,
        _ => false,
    };
    let output_worker = match &config.output_mode {
        OutputMode::Off => false,
        _ => true,
    };
    let lights_worker = match &config.lights_mode {
        LightsMode::Reactive { .. } => true,
        LightsMode::Attract { .. } => true,
        LightsMode::Serial { .. } => true,
        LightsMode::Websocket { .. } => true,
        _ => false,
    };
    let umgr_worker = match &config.lights_mode {
        LightsMode::UmgrWebsocket { .. } => true,
        _ => false,
    };
    SessionPlan {
        hid_worker,
        diva_worker,
        brokenithm_worker,
        output_worker,
        lights_worker,
        umgr_worker,
    }
}

} // verus!
