//! Station-side configuration.
//!
//! A configuration names the remote endpoint, UI preferences and the
//! per-axis device bindings. Only a change of endpoint (host or port) is a
//! reason to restart the active session; every other field may change freely
//! at runtime.

use vstd::prelude::*;
use vstd::string::StringExecFns;

verus! {

/// Which physical control of a gamepad drives a pair of logical axes.
#[derive(Clone, Copy, PartialEq, Eq, Structural, Debug)]
pub enum ControlSource {
    LeftStick,
    RightStick,
    DPad,
    FaceButtons,
}

/// How the attitude of the vehicle is drawn for the operator.
#[derive(Clone, Copy, PartialEq, Eq, Structural, Debug)]
pub enum AttitudeIndicator {
    Scientific,
    Dimensional3D,
    Disabled,
}

/// Which key drives each logical input, named by UI key codes.
#[derive(Clone, Debug)]
pub struct KeyboardBindings {
    pub surge_forward: String,
    pub surge_backward: String,
    pub sway_left: String,
    pub sway_right: String,
    pub heave_up: String,
    pub heave_down: String,
    pub yaw_left: String,
    pub yaw_right: String,
    pub pitch_up: String,
    pub pitch_down: String,
    pub roll_left: String,
    pub roll_right: String,
    pub action1_positive: String,
    pub action1_negative: String,
    pub action2_positive: String,
    pub action2_negative: String,
    pub pitch_stabilization: String,
    pub roll_stabilization: String,
    pub depth_hold: String,
    pub record: String,
}

/// Which gamepad control drives each logical input. Button bindings are
/// decimal button indices.
#[derive(Clone, Debug)]
pub struct GamepadBindings {
    pub surge_sway: ControlSource,
    pub heave_up: String,
    pub heave_down: String,
    pub pitch_yaw: ControlSource,
    pub roll_left: String,
    pub roll_right: String,
    pub action1_positive: String,
    pub action1_negative: String,
    pub action2_positive: String,
    pub action2_negative: String,
    pub pitch_stabilization: String,
    pub roll_stabilization: String,
    pub depth_hold: String,
    pub record: String,
}

/// The whole station configuration.
#[derive(Clone, Debug)]
pub struct Config {
    pub auto_update: bool,
    pub attitude_indicator: AttitudeIndicator,
    pub work_indicator: bool,
    pub thruster_rpm_overlay: bool,
    pub video_directory: String,
    pub ip_address: String,
    pub webrtc_signaling_api_port: u16,
    pub webrtc_signaling_api_path: String,
    pub web_socket_port: u16,
    pub info_logging: bool,
    pub keyboard: KeyboardBindings,
    pub gamepad: GamepadBindings,
}

/// Two configurations name different endpoints: the one hard reason to
/// restart an established session.
pub open spec fn endpoint_changed(a: Config, b: Config) -> bool {
    a.ip_address@ != b.ip_address@ || a.web_socket_port != b.web_socket_port
}

/// Decide whether replacing configuration `a` by `b` must restart the
/// session: exactly when host or port differ.
pub fn requires_reconnect(a: &Config, b: &Config) -> (r: bool)
    ensures
        r == endpoint_changed(*a, *b),
{
    let same_host = a.ip_address == b.ip_address;
    let same_port = a.web_socket_port == b.web_socket_port;
    !(same_host && same_port)
}

impl Default for KeyboardBindings {
    /// The stock keyboard layout.
    fn default() -> (c: KeyboardBindings)
        ensures
            c.surge_forward@ == "KeyW"@,
            c.surge_backward@ == "KeyS"@,
            c.sway_left@ == "KeyA"@,
            c.sway_right@ == "KeyD"@,
            c.heave_up@ == "Space"@,
            c.heave_down@ == "ShiftLeft"@,
            c.pitch_up@ == "KeyI"@,
            c.pitch_down@ == "KeyK"@,
            c.yaw_left@ == "KeyJ"@,
            c.yaw_right@ == "KeyL"@,
            c.roll_left@ == "KeyQ"@,
            c.roll_right@ == "KeyE"@,
            c.action1_positive@ == "Digit1"@,
            c.action1_negative@ == "Digit2"@,
            c.action2_positive@ == "Digit3"@,
            c.action2_negative@ == "Digit4"@,
            c.pitch_stabilization@ == "KeyU"@,
            c.roll_stabilization@ == "KeyU"@,
            c.depth_hold@ == "KeyO"@,
            c.record@ == "KeyR"@,
    {
        KeyboardBindings {
            surge_forward: String::from_str("KeyW"),
            surge_backward: String::from_str("KeyS"),
            sway_left: String::from_str("KeyA"),
            sway_right: String::from_str("KeyD"),
            heave_up: String::from_str("Space"),
            heave_down: String::from_str("ShiftLeft"),
            pitch_up: String::from_str("KeyI"),
            pitch_down: String::from_str("KeyK"),
            yaw_left: String::from_str("KeyJ"),
            yaw_right: String::from_str("KeyL"),
            roll_left: String::from_str("KeyQ"),
            roll_right: String::from_str("KeyE"),
            action1_positive: String::from_str("Digit1"),
            action1_negative: String::from_str("Digit2"),
            action2_positive: String::from_str("Digit3"),
            action2_negative: String::from_str("Digit4"),
            pitch_stabilization: String::from_str("KeyU"),
            roll_stabilization: String::from_str("KeyU"),
            depth_hold: String::from_str("KeyO"),
            record: String::from_str("KeyR"),
        }
    }
}

impl Default for GamepadBindings {
    /// The stock gamepad layout.
    fn default() -> (c: GamepadBindings)
        ensures
            c.surge_sway == ControlSource::LeftStick,
            c.heave_up@ == "7"@,
            c.heave_down@ == "6"@,
            c.pitch_yaw == ControlSource::RightStick,
            c.roll_left@ == "4"@,
            c.roll_right@ == "5"@,
            c.action1_positive@ == "0"@,
            c.action1_negative@ == "1"@,
            c.action2_positive@ == "2"@,
            c.action2_negative@ == "3"@,
            c.pitch_stabilization@ == "12"@,
            c.roll_stabilization@ == "12"@,
            c.depth_hold@ == "13"@,
            c.record@ == "9"@,
    {
        GamepadBindings {
            surge_sway: ControlSource::LeftStick,
            heave_up: String::from_str("7"),
            heave_down: String::from_str("6"),
            pitch_yaw: ControlSource::RightStick,
            roll_left: String::from_str("4"),
            roll_right: String::from_str("5"),
            action1_positive: String::from_str("0"),
            action1_negative: String::from_str("1"),
            action2_positive: String::from_str("2"),
            action2_negative: String::from_str("3"),
            pitch_stabilization: String::from_str("12"),
            roll_stabilization: String::from_str("12"),
            depth_hold: String::from_str("13"),
            record: String::from_str("9"),
        }
    }
}

impl Default for Config {
    /// The safe fallback used whenever no stored configuration can be read.
    /// The video directory is left empty; the host platform layer chooses a
    /// concrete path for it.
    fn default() -> (c: Config)
        ensures
            c.auto_update == false,
            c.attitude_indicator == AttitudeIndicator::Scientific,
            c.work_indicator == false,
            c.thruster_rpm_overlay == false,
            c.video_directory@ == Seq::<char>::empty(),
            c.ip_address@ == "10.10.10.10"@,
            c.webrtc_signaling_api_port == 1984,
            c.webrtc_signaling_api_path@ == "/api/webrtc?src=cam"@,
            c.web_socket_port == 9000,
            c.info_logging == false,
            c.keyboard.surge_forward@ == "KeyW"@,
            c.keyboard.surge_backward@ == "KeyS"@,
            c.keyboard.sway_left@ == "KeyA"@,
            c.keyboard.sway_right@ == "KeyD"@,
            c.keyboard.heave_up@ == "Space"@,
            c.keyboard.heave_down@ == "ShiftLeft"@,
            c.keyboard.pitch_up@ == "KeyI"@,
            c.keyboard.pitch_down@ == "KeyK"@,
            c.keyboard.yaw_left@ == "KeyJ"@,
            c.keyboard.yaw_right@ == "KeyL"@,
            c.keyboard.roll_left@ == "KeyQ"@,
            c.keyboard.roll_right@ == "KeyE"@,
            c.keyboard.action1_positive@ == "Digit1"@,
            c.keyboard.action1_negative@ == "Digit2"@,
            c.keyboard.action2_positive@ == "Digit3"@,
            c.keyboard.action2_negative@ == "Digit4"@,
            c.keyboard.pitch_stabilization@ == "KeyU"@,
            c.keyboard.roll_stabilization@ == "KeyU"@,
            c.keyboard.depth_hold@ == "KeyO"@,
            c.keyboard.record@ == "KeyR"@,
            c.gamepad.surge_sway == ControlSource::LeftStick,
            c.gamepad.heave_up@ == "7"@,
            c.gamepad.heave_down@ == "6"@,
            c.gamepad.pitch_yaw == ControlSource::RightStick,
            c.gamepad.roll_left@ == "4"@,
            c.gamepad.roll_right@ == "5"@,
            c.gamepad.action1_positive@ == "0"@,
            c.gamepad.action1_negative@ == "1"@,
            c.gamepad.action2_positive@ == "2"@,
            c.gamepad.action2_negative@ == "3"@,
            c.gamepad.pitch_stabilization@ == "12"@,
            c.gamepad.roll_stabilization@ == "12"@,
            c.gamepad.depth_hold@ == "13"@,
            c.gamepad.record@ == "9"@,
    {
        Config {
            auto_update: false,
            attitude_indicator: AttitudeIndicator::Scientific,
            work_indicator: false,
            thruster_rpm_overlay: false,
            video_directory: String::new(),
            ip_address: String::from_str("10.10.10.10"),
            webrtc_signaling_api_port: 1984,
            webrtc_signaling_api_path: String::from_str("/api/webrtc?src=cam"),
            web_socket_port: 9000,
            info_logging: false,
            keyboard: KeyboardBindings::default(),
            gamepad: GamepadBindings::default(),
        }
    }
}

} // verus!
