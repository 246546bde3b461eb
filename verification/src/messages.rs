//! Typed messages exchanged with the vehicle.
//!
//! Every wire frame decodes to exactly one of these variants or is rejected.
//! The catalog of vehicle-domain payloads is deliberately small and uniform:
//! the link layer treats them all alike.

use vstd::prelude::*;
use vstd::string::StrSliceExecFns;
use crate::axes::CommandVector;
use crate::toast::{Toast, ToastView};

verus! {

/// Firmware flavour running on the vehicle's motor microcontroller.
#[derive(Clone, Copy, PartialEq, Eq, Structural, Debug)]
pub enum MicroControllerFirmwareVariant {
    Pwm,
    Dshot300,
}

/// Water the vehicle is trimmed for.
#[derive(Clone, Copy, PartialEq, Eq, Structural, Debug)]
pub enum FluidType {
    Saltwater,
    Freshwater,
}

/// Which output pin each of the eight thrusters is wired to, and the spin
/// direction of each (1 or -1).
#[derive(Clone, Debug)]
pub struct ThrusterPinSetup {
    pub identifiers: Vec<u8>,
    pub spin_directions: Vec<i8>,
}

/// The mathematical value of a pin setup.
pub struct ThrusterPinsView {
    pub identifiers: Seq<u8>,
    pub spin_directions: Seq<i8>,
}

impl View for ThrusterPinSetup {
    type V = ThrusterPinsView;

    open spec fn view(&self) -> ThrusterPinsView {
        ThrusterPinsView { identifiers: self.identifiers@, spin_directions: self.spin_directions@ }
    }
}

impl ThrusterPinsView {
    /// Exactly one entry per thruster.
    pub open spec fn wf(self) -> bool {
        self.identifiers.len() == 8 && self.spin_directions.len() == 8
    }
}

impl ThrusterPinSetup {
    /// Exactly one entry per thruster.
    pub open spec fn wf(self) -> bool {
        self@.wf()
    }
}

/// Health of the vehicle's sensor and control hardware.
#[derive(Clone, Copy, PartialEq, Eq, Structural, Debug)]
pub struct SystemHealth {
    pub imu_ok: bool,
    pub pressure_sensor_ok: bool,
    pub microcontroller_ok: bool,
}

/// Vehicle-side status: which stabilizations are engaged, battery charge and
/// hardware health.
#[derive(Clone, Copy, PartialEq, Eq, Structural, Debug)]
pub struct RovStatus {
    pub pitch_stabilization: bool,
    pub roll_stabilization: bool,
    pub depth_hold: bool,
    pub battery_percentage: u8,
    pub health: SystemHealth,
}

/// The vehicle-side configuration carried by the configuration messages.
#[derive(Clone, Debug)]
pub struct VehicleConfig {
    pub firmware_variant: MicroControllerFirmwareVariant,
    pub fluid_type: FluidType,
    pub thruster_pins: ThrusterPinSetup,
}

/// The mathematical value of a vehicle configuration.
pub struct VehicleConfigView {
    pub firmware_variant: MicroControllerFirmwareVariant,
    pub fluid_type: FluidType,
    pub thruster_pins: ThrusterPinsView,
}

impl View for VehicleConfig {
    type V = VehicleConfigView;

    open spec fn view(&self) -> VehicleConfigView {
        VehicleConfigView {
            firmware_variant: self.firmware_variant,
            fluid_type: self.fluid_type,
            thruster_pins: self.thruster_pins@,
        }
    }
}

impl VehicleConfigView {
    /// Well-formedness: the pin setup covers all eight thrusters.
    pub open spec fn wf(self) -> bool {
        self.thruster_pins.wf()
    }
}

impl VehicleConfig {
    /// Well-formedness: the pin setup covers all eight thrusters.
    pub open spec fn wf(self) -> bool {
        self@.wf()
    }
}

/// Severity of a log line.
#[derive(Clone, Copy, PartialEq, Eq, Structural, Debug)]
pub enum LogLevel {
    Info,
    Warn,
    Error,
}

/// Where a log line was produced.
#[derive(Clone, Copy, PartialEq, Eq, Structural, Debug)]
pub enum LogOrigin {
    Firmware,
    Backend,
    Frontend,
}

/// One log line forwarded over the link.
#[derive(Clone, Debug)]
pub struct LogEntry {
    pub level: LogLevel,
    pub origin: LogOrigin,
    pub message: String,
}

/// The mathematical value of a log entry.
pub struct LogEntryView {
    pub level: LogLevel,
    pub origin: LogOrigin,
    pub message: Seq<char>,
}

impl View for LogEntry {
    type V = LogEntryView;

    open spec fn view(&self) -> LogEntryView {
        LogEntryView { level: self.level, origin: self.origin, message: self.message@ }
    }
}

/// A typed message on the wire: the tagged union every frame decodes into.
#[derive(Clone, Debug)]
pub enum TypedMessage {
    /// A fresh operator command vector.
    Command(CommandVector),
    /// Station-to-vehicle heartbeat, carrying the send time in milliseconds.
    Ping(u64),
    /// Heartbeat echo, carrying back the timestamp of the matching ping.
    Pong(u64),
    /// Vehicle status broadcast.
    StatusUpdate(RovStatus),
    /// Request for the vehicle configuration.
    ConfigGet,
    /// New vehicle configuration to apply.
    ConfigSet(VehicleConfig),
    /// The vehicle's answer to a configuration request.
    ConfigResponse(VehicleConfig),
    /// A user-facing notification from the vehicle.
    Notification(Toast),
    /// A forwarded log line.
    LogMessage(LogEntry),
}

/// The mathematical value of a typed message.
pub enum MessageView {
    Command(CommandVector),
    Ping(u64),
    Pong(u64),
    StatusUpdate(RovStatus),
    ConfigGet,
    ConfigSet(VehicleConfigView),
    ConfigResponse(VehicleConfigView),
    Notification(ToastView),
    LogMessage(LogEntryView),
}

impl View for TypedMessage {
    type V = MessageView;

    open spec fn view(&self) -> MessageView {
        match self {
            TypedMessage::Command(v) => MessageView::Command(*v),
            TypedMessage::Ping(t) => MessageView::Ping(*t),
            TypedMessage::Pong(t) => MessageView::Pong(*t),
            TypedMessage::StatusUpdate(s) => MessageView::StatusUpdate(*s),
            TypedMessage::ConfigGet => MessageView::ConfigGet,
            TypedMessage::ConfigSet(c) => MessageView::ConfigSet(c@),
            TypedMessage::ConfigResponse(c) => MessageView::ConfigResponse(c@),
            TypedMessage::Notification(t) => MessageView::Notification(t@),
            TypedMessage::LogMessage(e) => MessageView::LogMessage(e@),
        }
    }
}

impl TypedMessage {
    /// Test the encoder's precondition at run time: callers outside the
    /// crate check this before asking for a frame.
    pub fn can_encode(&self) -> (r: bool)
        ensures
            r == self@.encodable(),
    {
        match self {
            TypedMessage::Command(v) => v.is_in_range(),
            TypedMessage::ConfigSet(c) => c.thruster_pins.identifiers.len() == 8
                && c.thruster_pins.spin_directions.len() == 8,
            TypedMessage::ConfigResponse(c) => c.thruster_pins.identifiers.len() == 8
                && c.thruster_pins.spin_directions.len() == 8,
            TypedMessage::Notification(t) => {
                let id_ok = match &t.id {
                    Option::Some(s) => (s.unicode_len() as u64) < 0x1_0000_0000,
                    Option::None => true,
                };
                let desc_ok = match &t.description {
                    Option::Some(s) => (s.unicode_len() as u64) < 0x1_0000_0000,
                    Option::None => true,
                };
                id_ok && desc_ok && (t.message.unicode_len() as u64) < 0x1_0000_0000
            },
            TypedMessage::LogMessage(e) => (e.message.unicode_len() as u64) < 0x1_0000_0000,
            _ => true,
        }
    }
}

impl MessageView {
    /// Messages the encoder is defined on: command vectors must be clamped,
    /// pin setups complete, and text short enough for a 32-bit length prefix.
    pub open spec fn encodable(self) -> bool {
        match self {
            MessageView::Command(v) => v.in_range(),
            MessageView::ConfigSet(c) => c.wf(),
            MessageView::ConfigResponse(c) => c.wf(),
            MessageView::Notification(t) => {
                &&& t.message.len() < 0x1_0000_0000
                &&& (t.id matches Option::Some(s) ==> s.len() < 0x1_0000_0000)
                &&& (t.description matches Option::Some(s) ==> s.len() < 0x1_0000_0000)
            },
            MessageView::LogMessage(e) => e.message.len() < 0x1_0000_0000,
            _ => true,
        }
    }
}

} // verus!
