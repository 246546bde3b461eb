//! Wire codec for typed messages.
//!
//! One frame carries one [`TypedMessage`]: a one-byte tag followed by the
//! variant's payload. Integers are little-endian, text is a 32-bit character
//! count followed by one 32-bit Unicode scalar per character, and options are
//! a presence byte followed by the value. Every frame decodes to exactly one
//! message or is rejected with a [`DecodeError`]; decoding is the exact
//! inverse of encoding ([`lemma_codec_round_trip`]).

use vstd::prelude::*;
use vstd::bytes::*;
use vstd::slice::slice_subrange;
use vstd::slice::slice_to_vec;
use vstd::string::StrSliceExecFns;
use vstd::utf8::is_scalar;
use crate::axes::CommandVector;
use crate::axes::AXIS_UNIT;
use crate::axes::axis_in_range;
use crate::messages::{
    FluidType, LogEntry, LogEntryView, LogLevel, LogOrigin, MessageView,
    MicroControllerFirmwareVariant, RovStatus, SystemHealth, ThrusterPinSetup, ThrusterPinsView,
    TypedMessage, VehicleConfig, VehicleConfigView,
};
use crate::toast::{Toast, ToastType, ToastCancel, ToastView};

verus! {

broadcast use vstd::utf8::char_is_scalar;

/// Why a frame was rejected.
#[derive(Clone, Copy, PartialEq, Eq, Structural, Debug)]
pub enum DecodeError {
    /// The frame held no bytes at all.
    EmptyFrame,
    /// The leading tag byte names no known message kind.
    UnknownTag,
    /// The payload did not have the shape the tag demands.
    Malformed,
    /// A well-formed message was followed by extra bytes.
    TrailingBytes,
}

/// Converts a scalar value back to the character it encodes.
///
/// Relies on `char::from_u32` of core: it returns the character with the
/// given code point, and `None` exactly on surrogates and values above
/// the Unicode maximum.
pub assume_specification[ char::from_u32 ](v: u32) -> (r: Option<char>)
    ensures
        is_scalar(v) ==> r == Option::Some(v as char),
        !is_scalar(v) ==> r is None,
;

/// Appends one character to an owned string.
///
/// Relies on `String::push` of alloc: it appends the given character.
pub assume_specification[ String::push ](s: &mut String, c: char)
    ensures
        final(s)@ == old(s)@.push(c),
;

// ---------------------------------------------------------------------------
// Spec-level encoders: the byte image of each field shape.
// ---------------------------------------------------------------------------

/// Byte image of a `u8`.
pub open spec fn e_u8(x: u8) -> Seq<u8> {
    seq![x]
}

/// Byte image of a `u16`, little-endian.
pub open spec fn e_u16(x: u16) -> Seq<u8> {
    spec_u16_to_le_bytes(x)
}

/// Byte image of a `u32`, little-endian.
pub open spec fn e_u32(x: u32) -> Seq<u8> {
    spec_u32_to_le_bytes(x)
}

/// Byte image of a `u64`, little-endian.
pub open spec fn e_u64(x: u64) -> Seq<u8> {
    spec_u64_to_le_bytes(x)
}

/// Byte image of a `bool`: one byte, 0 or 1.
pub open spec fn e_bool(b: bool) -> Seq<u8> {
    seq![if b { 1u8 } else { 0u8 }]
}

/// Byte image of one character: its Unicode scalar value.
pub open spec fn e_char(c: char) -> Seq<u8> {
    e_u32(c as u32)
}

/// Byte image of a character sequence, one scalar after another.
pub open spec fn e_chars(cs: Seq<char>) -> Seq<u8>
    decreases cs.len(),
{
    if cs.len() == 0 {
        Seq::empty()
    } else {
        e_char(cs[0]) + e_chars(cs.drop_first())
    }
}

/// Byte image of a string: character count, then the characters.
pub open spec fn e_string(cs: Seq<char>) -> Seq<u8> {
    e_u32(cs.len() as u32) + e_chars(cs)
}

/// Byte image of an optional string: a presence byte, then the string.
pub open spec fn e_opt_string(o: Option<Seq<char>>) -> Seq<u8> {
    match o {
        Option::Some(cs) => seq![1u8] + e_string(cs),
        Option::None => seq![0u8],
    }
}

/// Byte image of one clamped axis value, offset into an unsigned range.
pub open spec fn e_axis(v: i32) -> Seq<u8> {
    e_u16((v + AXIS_UNIT) as u16)
}

/// Byte image of a command vector: its six axes in order.
pub open spec fn e_command(v: CommandVector) -> Seq<u8> {
    e_axis(v.surge) + e_axis(v.sway) + e_axis(v.heave) + e_axis(v.pitch) + e_axis(v.yaw)
        + e_axis(v.roll)
}

/// Byte image of the hardware-health record.
pub open spec fn e_health(h: SystemHealth) -> Seq<u8> {
    e_bool(h.imu_ok) + e_bool(h.pressure_sensor_ok) + e_bool(h.microcontroller_ok)
}

/// Byte image of a vehicle status record.
pub open spec fn e_status(s: RovStatus) -> Seq<u8> {
    e_bool(s.pitch_stabilization) + e_bool(s.roll_stabilization) + e_bool(s.depth_hold) + e_u8(
        s.battery_percentage,
    ) + e_health(s.health)
}

/// Byte image of one spin direction, offset into an unsigned byte.
pub open spec fn e_spin(d: i8) -> u8 {
    (d + 128) as u8
}

/// Byte image of a thruster pin setup: eight pin numbers, then eight offset
/// spin directions.
pub open spec fn e_pins(p: ThrusterPinsView) -> Seq<u8> {
    p.identifiers + Seq::new(p.spin_directions.len(), |k: int| e_spin(p.spin_directions[k]))
}

/// Tag byte of a firmware variant.
pub open spec fn e_firmware(v: MicroControllerFirmwareVariant) -> u8 {
    match v {
        MicroControllerFirmwareVariant::Pwm => 0u8,
        MicroControllerFirmwareVariant::Dshot300 => 1u8,
    }
}

/// Tag byte of a fluid type.
pub open spec fn e_fluid(f: FluidType) -> u8 {
    match f {
        FluidType::Saltwater => 0u8,
        FluidType::Freshwater => 1u8,
    }
}

/// Byte image of a vehicle configuration.
pub open spec fn e_vehicle_config(c: VehicleConfigView) -> Seq<u8> {
    seq![e_firmware(c.firmware_variant), e_fluid(c.fluid_type)] + e_pins(c.thruster_pins)
}

/// Tag byte of a toast severity.
pub open spec fn e_toast_type(t: ToastType) -> u8 {
    match t {
        ToastType::Success => 0u8,
        ToastType::Info => 1u8,
        ToastType::Warn => 2u8,
        ToastType::Error => 3u8,
        ToastType::Loading => 4u8,
    }
}

/// Byte image of an optional toast severity.
pub open spec fn e_opt_toast_type(o: Option<ToastType>) -> Seq<u8> {
    match o {
        Option::Some(t) => seq![1u8, e_toast_type(t)],
        Option::None => seq![0u8],
    }
}

/// Byte image of an optional cancel action.
pub open spec fn e_opt_cancel(o: Option<ToastCancel>) -> Seq<u8> {
    match o {
        Option::Some(ToastCancel::CancelThrusterTest(n)) => seq![1u8, 0u8, n],
        Option::Some(ToastCancel::CancelRegulatorAutoTuning) => seq![1u8, 1u8],
        Option::None => seq![0u8],
    }
}

/// Byte image of a toast.
pub open spec fn e_toast(t: ToastView) -> Seq<u8> {
    e_opt_string(t.id) + e_opt_toast_type(t.toast_type) + e_string(t.message) + e_opt_string(
        t.description,
    ) + e_opt_cancel(t.cancel)
}

/// Tag byte of a log level.
pub open spec fn e_level(l: LogLevel) -> u8 {
    match l {
        LogLevel::Info => 0u8,
        LogLevel::Warn => 1u8,
        LogLevel::Error => 2u8,
    }
}

/// Tag byte of a log origin.
pub open spec fn e_origin(o: LogOrigin) -> u8 {
    match o {
        LogOrigin::Firmware => 0u8,
        LogOrigin::Backend => 1u8,
        LogOrigin::Frontend => 2u8,
    }
}

/// Byte image of a log entry.
pub open spec fn e_log(e: LogEntryView) -> Seq<u8> {
    seq![e_level(e.level), e_origin(e.origin)] + e_string(e.message)
}

/// Byte image of a whole message: tag byte, then the variant's payload.
pub open spec fn encode_message(m: MessageView) -> Seq<u8> {
    match m {
        MessageView::Command(v) => seq![1u8] + e_command(v),
        MessageView::Ping(t) => seq![2u8] + e_u64(t),
        MessageView::Pong(t) => seq![3u8] + e_u64(t),
        MessageView::StatusUpdate(s) => seq![4u8] + e_status(s),
        MessageView::ConfigGet => seq![5u8],
        MessageView::ConfigSet(c) => seq![6u8] + e_vehicle_config(c),
        MessageView::ConfigResponse(c) => seq![7u8] + e_vehicle_config(c),
        MessageView::Notification(t) => seq![8u8] + e_toast(t),
        MessageView::LogMessage(e) => seq![9u8] + e_log(e),
    }
}

// ---------------------------------------------------------------------------
// Spec-level parsers: each consumes a prefix starting at index `i` and
// yields the value and the index just past it, or rejects.
// ---------------------------------------------------------------------------

/// `n` more bytes are available at index `i`.
pub open spec fn can_take(s: Seq<u8>, i: int, n: int) -> bool {
    0 <= i && i + n <= s.len()
}

/// Parse a `u8`.
pub open spec fn p_u8(s: Seq<u8>, i: int) -> Option<(u8, int)> {
    if can_take(s, i, 1) {
        Option::Some((s[i], i + 1))
    } else {
        Option::None
    }
}

/// Parse a little-endian `u16`.
pub open spec fn p_u16(s: Seq<u8>, i: int) -> Option<(u16, int)> {
    if can_take(s, i, 2) {
        Option::Some((spec_u16_from_le_bytes(s.subrange(i, i + 2)), i + 2))
    } else {
        Option::None
    }
}

/// Parse a little-endian `u32`.
pub open spec fn p_u32(s: Seq<u8>, i: int) -> Option<(u32, int)> {
    if can_take(s, i, 4) {
        Option::Some((spec_u32_from_le_bytes(s.subrange(i, i + 4)), i + 4))
    } else {
        Option::None
    }
}

/// Parse a little-endian `u64`.
pub open spec fn p_u64(s: Seq<u8>, i: int) -> Option<(u64, int)> {
    if can_take(s, i, 8) {
        Option::Some((spec_u64_from_le_bytes(s.subrange(i, i + 8)), i + 8))
    } else {
        Option::None
    }
}

/// Parse a `bool`: the bytes 0 and 1 and no others.
pub open spec fn p_bool(s: Seq<u8>, i: int) -> Option<(bool, int)> {
    match p_u8(s, i) {
        Option::Some((b, j)) => if b == 0 {
            Option::Some((false, j))
        } else if b == 1 {
            Option::Some((true, j))
        } else {
            Option::None
        },
        Option::None => Option::None,
    }
}

/// Parse one character: a `u32` that must be a Unicode scalar.
pub open spec fn p_char(s: Seq<u8>, i: int) -> Option<(char, int)> {
    match p_u32(s, i) {
        Option::Some((v, j)) => if is_scalar(v) {
            Option::Some((v as char, j))
        } else {
            Option::None
        },
        Option::None => Option::None,
    }
}

/// Parse exactly `n` characters.
pub open spec fn p_chars(s: Seq<u8>, i: int, n: nat) -> Option<(Seq<char>, int)>
    decreases n,
{
    if n == 0 {
        Option::Some((Seq::empty(), i))
    } else {
        match p_char(s, i) {
            Option::Some((c, j)) => match p_chars(s, j, (n - 1) as nat) {
                Option::Some((cs, k)) => Option::Some((seq![c] + cs, k)),
                Option::None => Option::None,
            },
            Option::None => Option::None,
        }
    }
}

/// Parse a string: character count, then that many characters.
pub open spec fn p_string(s: Seq<u8>, i: int) -> Option<(Seq<char>, int)> {
    match p_u32(s, i) {
        Option::Some((n, j)) => p_chars(s, j, n as nat),
        Option::None => Option::None,
    }
}

/// Parse an optional string.
pub open spec fn p_opt_string(s: Seq<u8>, i: int) -> Option<(Option<Seq<char>>, int)> {
    match p_u8(s, i) {
        Option::Some((b, j)) => if b == 0 {
            Option::Some((Option::None, j))
        } else if b == 1 {
            match p_string(s, j) {
                Option::Some((cs, k)) => Option::Some((Option::Some(cs), k)),
                Option::None => Option::None,
            }
        } else {
            Option::None
        },
        Option::None => Option::None,
    }
}

/// Parse one clamped axis value.
pub open spec fn p_axis(s: Seq<u8>, i: int) -> Option<(i32, int)> {
    match p_u16(s, i) {
        Option::Some((x, j)) => if x <= 2 * AXIS_UNIT {
            Option::Some(((x - AXIS_UNIT) as i32, j))
        } else {
            Option::None
        },
        Option::None => Option::None,
    }
}

/// Parse a command vector: six axes in order.
pub open spec fn p_command(s: Seq<u8>, i: int) -> Option<(CommandVector, int)> {
    match p_axis(s, i) {
        Option::Some((surge, i1)) => match p_axis(s, i1) {
            Option::Some((sway, i2)) => match p_axis(s, i2) {
                Option::Some((heave, i3)) => match p_axis(s, i3) {
                    Option::Some((pitch, i4)) => match p_axis(s, i4) {
                        Option::Some((yaw, i5)) => match p_axis(s, i5) {
                            Option::Some((roll, i6)) => Option::Some(
                                (CommandVector { surge, sway, heave, pitch, yaw, roll }, i6),
                            ),
                            Option::None => Option::None,
                        },
                        Option::None => Option::None,
                    },
                    Option::None => Option::None,
                },
                Option::None => Option::None,
            },
            Option::None => Option::None,
        },
        Option::None => Option::None,
    }
}

/// Parse the hardware-health record.
pub open spec fn p_health(s: Seq<u8>, i: int) -> Option<(SystemHealth, int)> {
    match p_bool(s, i) {
        Option::Some((imu_ok, i1)) => match p_bool(s, i1) {
            Option::Some((pressure_sensor_ok, i2)) => match p_bool(s, i2) {
                Option::Some((microcontroller_ok, i3)) => Option::Some(
                    (SystemHealth { imu_ok, pressure_sensor_ok, microcontroller_ok }, i3),
                ),
                Option::None => Option::None,
            },
            Option::None => Option::None,
        },
        Option::None => Option::None,
    }
}

/// Parse a vehicle status record.
pub open spec fn p_status(s: Seq<u8>, i: int) -> Option<(RovStatus, int)> {
    match p_bool(s, i) {
        Option::Some((pitch_stabilization, i1)) => match p_bool(s, i1) {
            Option::Some((roll_stabilization, i2)) => match p_bool(s, i2) {
                Option::Some((depth_hold, i3)) => match p_u8(s, i3) {
                    Option::Some((battery_percentage, i4)) => match p_health(s, i4) {
                        Option::Some((health, i5)) => Option::Some(
                            (
                                RovStatus {
                                    pitch_stabilization,
                                    roll_stabilization,
                                    depth_hold,
                                    battery_percentage,
                                    health,
                                },
                                i5,
                            ),
                        ),
                        Option::None => Option::None,
                    },
                    Option::None => Option::None,
                },
                Option::None => Option::None,
            },
            Option::None => Option::None,
        },
        Option::None => Option::None,
    }
}

/// The spin direction a stored byte stands for.
pub open spec fn spin_of(b: u8) -> i8 {
    (b - 128) as i8
}

/// Parse a thruster pin setup: eight pin numbers, then eight spin bytes.
pub open spec fn p_pins(s: Seq<u8>, i: int) -> Option<(ThrusterPinsView, int)> {
    if can_take(s, i, 16) {
        Option::Some(
            (
                ThrusterPinsView {
                    identifiers: s.subrange(i, i + 8),
                    spin_directions: Seq::new(8, |k: int| spin_of(s[i + 8 + k])),
                },
                i + 16,
            ),
        )
    } else {
        Option::None
    }
}

/// Parse a firmware-variant tag byte.
pub open spec fn p_firmware(s: Seq<u8>, i: int) -> Option<(MicroControllerFirmwareVariant, int)> {
    match p_u8(s, i) {
        Option::Some((b, j)) => if b == 0 {
            Option::Some((MicroControllerFirmwareVariant::Pwm, j))
        } else if b == 1 {
            Option::Some((MicroControllerFirmwareVariant::Dshot300, j))
        } else {
            Option::None
        },
        Option::None => Option::None,
    }
}

/// Parse a fluid-type tag byte.
pub open spec fn p_fluid(s: Seq<u8>, i: int) -> Option<(FluidType, int)> {
    match p_u8(s, i) {
        Option::Some((b, j)) => if b == 0 {
            Option::Some((FluidType::Saltwater, j))
        } else if b == 1 {
            Option::Some((FluidType::Freshwater, j))
        } else {
            Option::None
        },
        Option::None => Option::None,
    }
}

/// Parse a vehicle configuration.
pub open spec fn p_vehicle_config(s: Seq<u8>, i: int) -> Option<(VehicleConfigView, int)> {
    match p_firmware(s, i) {
        Option::Some((firmware_variant, i1)) => match p_fluid(s, i1) {
            Option::Some((fluid_type, i2)) => match p_pins(s, i2) {
                Option::Some((thruster_pins, i3)) => Option::Some(
                    (VehicleConfigView { firmware_variant, fluid_type, thruster_pins }, i3),
                ),
                Option::None => Option::None,
            },
            Option::None => Option::None,
        },
        Option::None => Option::None,
    }
}

/// Parse a toast-severity tag byte.
pub open spec fn p_toast_type(s: Seq<u8>, i: int) -> Option<(ToastType, int)> {
    match p_u8(s, i) {
        Option::Some((b, j)) => if b == 0 {
            Option::Some((ToastType::Success, j))
        } else if b == 1 {
            Option::Some((ToastType::Info, j))
        } else if b == 2 {
            Option::Some((ToastType::Warn, j))
        } else if b == 3 {
            Option::Some((ToastType::Error, j))
        } else if b == 4 {
            Option::Some((ToastType::Loading, j))
        } else {
            Option::None
        },
        Option::None => Option::None,
    }
}

/// Parse an optional toast severity.
pub open spec fn p_opt_toast_type(s: Seq<u8>, i: int) -> Option<(Option<ToastType>, int)> {
    match p_u8(s, i) {
        Option::Some((b, j)) => if b == 0 {
            Option::Some((Option::None, j))
        } else if b == 1 {
            match p_toast_type(s, j) {
                Option::Some((t, k)) => Option::Some((Option::Some(t), k)),
                Option::None => Option::None,
            }
        } else {
            Option::None
        },
        Option::None => Option::None,
    }
}

/// Parse an optional cancel action.
pub open spec fn p_opt_cancel(s: Seq<u8>, i: int) -> Option<(Option<ToastCancel>, int)> {
    match p_u8(s, i) {
        Option::Some((b, j)) => if b == 0 {
            Option::Some((Option::None, j))
        } else if b == 1 {
            match p_u8(s, j) {
                Option::Some((k, j2)) => if k == 0 {
                    match p_u8(s, j2) {
                        Option::Some((n, j3)) => Option::Some(
                            (Option::Some(ToastCancel::CancelThrusterTest(n)), j3),
                        ),
                        Option::None => Option::None,
                    }
                } else if k == 1 {
                    Option::Some((Option::Some(ToastCancel::CancelRegulatorAutoTuning), j2))
                } else {
                    Option::None
                },
                Option::None => Option::None,
            }
        } else {
            Option::None
        },
        Option::None => Option::None,
    }
}

/// Parse a toast.
pub open spec fn p_toast(s: Seq<u8>, i: int) -> Option<(ToastView, int)> {
    match p_opt_string(s, i) {
        Option::Some((id, i1)) => match p_opt_toast_type(s, i1) {
            Option::Some((toast_type, i2)) => match p_string(s, i2) {
                Option::Some((message, i3)) => match p_opt_string(s, i3) {
                    Option::Some((description, i4)) => match p_opt_cancel(s, i4) {
                        Option::Some((cancel, i5)) => Option::Some(
                            (ToastView { id, toast_type, message, description, cancel }, i5),
                        ),
                        Option::None => Option::None,
                    },
                    Option::None => Option::None,
                },
                Option::None => Option::None,
            },
            Option::None => Option::None,
        },
        Option::None => Option::None,
    }
}

/// Parse a log-level tag byte.
pub open spec fn p_level(s: Seq<u8>, i: int) -> Option<(LogLevel, int)> {
    match p_u8(s, i) {
        Option::Some((b, j)) => if b == 0 {
            Option::Some((LogLevel::Info, j))
        } else if b == 1 {
            Option::Some((LogLevel::Warn, j))
        } else if b == 2 {
            Option::Some((LogLevel::Error, j))
        } else {
            Option::None
        },
        Option::None => Option::None,
    }
}

/// Parse a log-origin tag byte.
pub open spec fn p_origin(s: Seq<u8>, i: int) -> Option<(LogOrigin, int)> {
    match p_u8(s, i) {
        Option::Some((b, j)) => if b == 0 {
            Option::Some((LogOrigin::Firmware, j))
        } else if b == 1 {
            Option::Some((LogOrigin::Backend, j))
        } else if b == 2 {
            Option::Some((LogOrigin::Frontend, j))
        } else {
            Option::None
        },
        Option::None => Option::None,
    }
}

/// Parse a log entry.
pub open spec fn p_log(s: Seq<u8>, i: int) -> Option<(LogEntryView, int)> {
    match p_level(s, i) {
        Option::Some((level, i1)) => match p_origin(s, i1) {
            Option::Some((origin, i2)) => match p_string(s, i2) {
                Option::Some((message, i3)) => Option::Some(
                    (LogEntryView { level, origin, message }, i3),
                ),
                Option::None => Option::None,
            },
            Option::None => Option::None,
        },
        Option::None => Option::None,
    }
}

/// A tag byte the decoder knows.
pub open spec fn known_tag(t: u8) -> bool {
    1 <= t <= 9
}

/// Parse one whole message starting at index `i`.
pub open spec fn p_message(s: Seq<u8>, i: int) -> Option<(MessageView, int)> {
    match p_u8(s, i) {
        Option::Some((tag, j)) => if tag == 1 {
            match p_command(s, j) {
                Option::Some((v, k)) => Option::Some((MessageView::Command(v), k)),
                Option::None => Option::None,
            }
        } else if tag == 2 {
            match p_u64(s, j) {
                Option::Some((t, k)) => Option::Some((MessageView::Ping(t), k)),
                Option::None => Option::None,
            }
        } else if tag == 3 {
            match p_u64(s, j) {
                Option::Some((t, k)) => Option::Some((MessageView::Pong(t), k)),
                Option::None => Option::None,
            }
        } else if tag == 4 {
            match p_status(s, j) {
                Option::Some((st, k)) => Option::Some((MessageView::StatusUpdate(st), k)),
                Option::None => Option::None,
            }
        } else if tag == 5 {
            Option::Some((MessageView::ConfigGet, j))
        } else if tag == 6 {
            match p_vehicle_config(s, j) {
                Option::Some((c, k)) => Option::Some((MessageView::ConfigSet(c), k)),
                Option::None => Option::None,
            }
        } else if tag == 7 {
            match p_vehicle_config(s, j) {
                Option::Some((c, k)) => Option::Some((MessageView::ConfigResponse(c), k)),
                Option::None => Option::None,
            }
        } else if tag == 8 {
            match p_toast(s, j) {
                Option::Some((t, k)) => Option::Some((MessageView::Notification(t), k)),
                Option::None => Option::None,
            }
        } else if tag == 9 {
            match p_log(s, j) {
                Option::Some((e, k)) => Option::Some((MessageView::LogMessage(e), k)),
                Option::None => Option::None,
            }
        } else {
            Option::None
        },
        Option::None => Option::None,
    }
}

/// The message a frame holds, if the whole frame is exactly one message.
pub open spec fn message_of(s: Seq<u8>) -> Option<MessageView> {
    match p_message(s, 0) {
        Option::Some((m, k)) => if k == s.len() {
            Option::Some(m)
        } else {
            Option::None
        },
        Option::None => Option::None,
    }
}

/// The error a rejected frame is reported with.
pub open spec fn decode_err_of(s: Seq<u8>) -> DecodeError {
    if s.len() == 0 {
        DecodeError::EmptyFrame
    } else if !known_tag(s[0]) {
        DecodeError::UnknownTag
    } else if p_message(s, 0) is Some {
        DecodeError::TrailingBytes
    } else {
        DecodeError::Malformed
    }
}

// ---------------------------------------------------------------------------
// Executable readers. Each consumes from `buf` at `*pos` and agrees exactly
// with its spec parser.
// ---------------------------------------------------------------------------

fn read_u8(buf: &[u8], pos: &mut usize) -> (r: Option<u8>)
    requires
        *old(pos) <= buf@.len(),
    ensures
        *final(pos) <= buf@.len(),
        match r {
            Option::Some(x) => p_u8(buf@, *old(pos) as int) == Option::Some(
                (x, *final(pos) as int),
            ),
            Option::None => p_u8(buf@, *old(pos) as int) is None,
        },
{
    if *pos < buf.len() {
        let b = buf[*pos];
        *pos = *pos + 1;
        Some(b)
    } else {
        None
    }
}

fn read_u16(buf: &[u8], pos: &mut usize) -> (r: Option<u16>)
    requires
        *old(pos) <= buf@.len(),
    ensures
        *final(pos) <= buf@.len(),
        match r {
            Option::Some(x) => p_u16(buf@, *old(pos) as int) == Option::Some(
                (x, *final(pos) as int),
            ),
            Option::None => p_u16(buf@, *old(pos) as int) is None,
        },
{
    if buf.len() - *pos >= 2 {
        let x = u16_from_le_bytes(slice_subrange(buf, *pos, *pos + 2));
        *pos = *pos + 2;
        Some(x)
    } else {
        None
    }
}

fn read_u32(buf: &[u8], pos: &mut usize) -> (r: Option<u32>)
    requires
        *old(pos) <= buf@.len(),
    ensures
        *final(pos) <= buf@.len(),
        match r {
            Option::Some(x) => p_u32(buf@, *old(pos) as int) == Option::Some(
                (x, *final(pos) as int),
            ),
            Option::None => p_u32(buf@, *old(pos) as int) is None,
        },
{
    if buf.len() - *pos >= 4 {
        let x = u32_from_le_bytes(slice_subrange(buf, *pos, *pos + 4));
        *pos = *pos + 4;
        Some(x)
    } else {
        None
    }
}

fn read_u64(buf: &[u8], pos: &mut usize) -> (r: Option<u64>)
    requires
        *old(pos) <= buf@.len(),
    ensures
        *final(pos) <= buf@.len(),
        match r {
            Option::Some(x) => p_u64(buf@, *old(pos) as int) == Option::Some(
                (x, *final(pos) as int),
            ),
            Option::None => p_u64(buf@, *old(pos) as int) is None,
        },
{
    if buf.len() - *pos >= 8 {
        let x = u64_from_le_bytes(slice_subrange(buf, *pos, *pos + 8));
        *pos = *pos + 8;
        Some(x)
    } else {
        None
    }
}

fn read_bool(buf: &[u8], pos: &mut usize) -> (r: Option<bool>)
    requires
        *old(pos) <= buf@.len(),
    ensures
        *final(pos) <= buf@.len(),
        match r {
            Option::Some(x) => p_bool(buf@, *old(pos) as int) == Option::Some(
                (x, *final(pos) as int),
            ),
            Option::None => p_bool(buf@, *old(pos) as int) is None,
        },
{
    match read_u8(buf, pos) {
        Some(0u8) => Some(false),
        Some(1u8) => Some(true),
        _ => None,
    }
}

fn read_char(buf: &[u8], pos: &mut usize) -> (r: Option<char>)
    requires
        *old(pos) <= buf@.len(),
    ensures
        *final(pos) <= buf@.len(),
        match r {
            Option::Some(c) => p_char(buf@, *old(pos) as int) == Option::Some(
                (c, *final(pos) as int),
            ),
            Option::None => p_char(buf@, *old(pos) as int) is None,
        },
{
    match read_u32(buf, pos) {
        Some(v) => char::from_u32(v),
        None => None,
    }
}

fn read_string(buf: &[u8], pos: &mut usize) -> (r: Option<String>)
    requires
        *old(pos) <= buf@.len(),
    ensures
        *final(pos) <= buf@.len(),
        match r {
            Option::Some(x) => p_string(buf@, *old(pos) as int) == Option::Some(
                (x@, *final(pos) as int),
            ),
            Option::None => p_string(buf@, *old(pos) as int) is None,
        },
{
    let ghost i0: int = *pos as int;
    let n = match read_u32(buf, pos) {
        Some(n) => n,
        None => {
            return None;
        },
    };
    let ghost j0: int = *pos as int;
    let mut acc = String::new();
    let mut k: u32 = 0;
    while k < n
        invariant
            k <= n,
            *pos <= buf@.len(),
            acc@.len() == k,
            i0 == *old(pos) as int,
            p_string(buf@, i0) == p_chars(buf@, j0, n as nat),
            match p_chars(buf@, *pos as int, (n - k) as nat) {
                Option::Some((cs, end)) => p_chars(buf@, j0, n as nat) == Option::Some(
                    (acc@ + cs, end),
                ),
                Option::None => p_chars(buf@, j0, n as nat) is None,
            },
        decreases n - k,
    {
        let ghost pos0: int = *pos as int;
        match read_char(buf, pos) {
            Some(c) => {
                let ghost acc_pre: Seq<char> = acc@;
                acc.push(c);
                k = k + 1;
                proof {
                    let rem_pre = (n - (k - 1)) as nat;
                    let rem_post = (n - k) as nat;
                    match p_chars(buf@, *pos as int, rem_post) {
                        Option::Some((cs2, end2)) => {
                            assert(p_chars(buf@, pos0, rem_pre) == Option::Some(
                                (seq![c] + cs2, end2),
                            ));
                            assert(acc_pre + (seq![c] + cs2) =~= acc@ + cs2);
                        },
                        Option::None => {
                            assert(p_chars(buf@, pos0, rem_pre) is None);
                        },
                    }
                }
            },
            None => {
                proof {
                    assert(p_chars(buf@, pos0, (n - k) as nat) is None);
                }
                return None;
            },
        }
    }
    proof {
        assert(p_chars(buf@, *pos as int, 0) == Option::Some(
            (Seq::<char>::empty(), *pos as int),
        ));
        assert(acc@ + Seq::<char>::empty() =~= acc@);
    }
    Some(acc)
}

fn read_opt_string(buf: &[u8], pos: &mut usize) -> (r: Option<Option<String>>)
    requires
        *old(pos) <= buf@.len(),
    ensures
        *final(pos) <= buf@.len(),
        match r {
            Option::Some(x) => p_opt_string(buf@, *old(pos) as int) == Option::Some(
                (
                    match x {
                        Option::Some(s) => Option::Some(s@),
                        Option::None => Option::None,
                    },
                    *final(pos) as int,
                ),
            ),
            Option::None => p_opt_string(buf@, *old(pos) as int) is None,
        },
{
    match read_u8(buf, pos) {
        Some(0u8) => Some(None),
        Some(1u8) => match read_string(buf, pos) {
            Some(s) => Some(Some(s)),
            None => None,
        },
        _ => None,
    }
}

fn read_axis(buf: &[u8], pos: &mut usize) -> (r: Option<i32>)
    requires
        *old(pos) <= buf@.len(),
    ensures
        *final(pos) <= buf@.len(),
        match r {
            Option::Some(v) => p_axis(buf@, *old(pos) as int) == Option::Some(
                (v, *final(pos) as int),
            ) && axis_in_range(v as int),
            Option::None => p_axis(buf@, *old(pos) as int) is None,
        },
{
    match read_u16(buf, pos) {
        Some(x) => if x <= 2000 {
            Some(x as i32 - AXIS_UNIT)
        } else {
            None
        },
        None => None,
    }
}

fn read_command(buf: &[u8], pos: &mut usize) -> (r: Option<CommandVector>)
    requires
        *old(pos) <= buf@.len(),
    ensures
        *final(pos) <= buf@.len(),
        match r {
            Option::Some(v) => p_command(buf@, *old(pos) as int) == Option::Some(
                (v, *final(pos) as int),
            ) && v.in_range(),
            Option::None => p_command(buf@, *old(pos) as int) is None,
        },
{
    let surge = match read_axis(buf, pos) {
        Some(v) => v,
        None => {
            return None;
        },
    };
    let sway = match read_axis(buf, pos) {
        Some(v) => v,
        None => {
            return None;
        },
    };
    let heave = match read_axis(buf, pos) {
        Some(v) => v,
        None => {
            return None;
        },
    };
    let pitch = match read_axis(buf, pos) {
        Some(v) => v,
        None => {
            return None;
        },
    };
    let yaw = match read_axis(buf, pos) {
        Some(v) => v,
        None => {
            return None;
        },
    };
    let roll = match read_axis(buf, pos) {
        Some(v) => v,
        None => {
            return None;
        },
    };
    Some(CommandVector { surge, sway, heave, pitch, yaw, roll })
}

fn read_health(buf: &[u8], pos: &mut usize) -> (r: Option<SystemHealth>)
    requires
        *old(pos) <= buf@.len(),
    ensures
        *final(pos) <= buf@.len(),
        match r {
            Option::Some(h) => p_health(buf@, *old(pos) as int) == Option::Some(
                (h, *final(pos) as int),
            ),
            Option::None => p_health(buf@, *old(pos) as int) is None,
        },
{
    let imu_ok = match read_bool(buf, pos) {
        Some(b) => b,
        None => {
            return None;
        },
    };
    let pressure_sensor_ok = match read_bool(buf, pos) {
        Some(b) => b,
        None => {
            return None;
        },
    };
    let microcontroller_ok = match read_bool(buf, pos) {
        Some(b) => b,
        None => {
            return None;
        },
    };
    Some(SystemHealth { imu_ok, pressure_sensor_ok, microcontroller_ok })
}

fn read_status(buf: &[u8], pos: &mut usize) -> (r: Option<RovStatus>)
    requires
        *old(pos) <= buf@.len(),
    ensures
        *final(pos) <= buf@.len(),
        match r {
            Option::Some(st) => p_status(buf@, *old(pos) as int) == Option::Some(
                (st, *final(pos) as int),
            ),
            Option::None => p_status(buf@, *old(pos) as int) is None,
        },
{
    let pitch_stabilization = match read_bool(buf, pos) {
        Some(b) => b,
        None => {
            return None;
        },
    };
    let roll_stabilization = match read_bool(buf, pos) {
        Some(b) => b,
        None => {
            return None;
        },
    };
    let depth_hold = match read_bool(buf, pos) {
        Some(b) => b,
        None => {
            return None;
        },
    };
    let battery_percentage = match read_u8(buf, pos) {
        Some(b) => b,
        None => {
            return None;
        },
    };
    let health = match read_health(buf, pos) {
        Some(h) => h,
        None => {
            return None;
        },
    };
    Some(
        RovStatus {
            pitch_stabilization,
            roll_stabilization,
            depth_hold,
            battery_percentage,
            health,
        },
    )
}

fn read_pins(buf: &[u8], pos: &mut usize) -> (r: Option<ThrusterPinSetup>)
    requires
        *old(pos) <= buf@.len(),
    ensures
        *final(pos) <= buf@.len(),
        match r {
            Option::Some(p) => p_pins(buf@, *old(pos) as int) == Option::Some(
                (p@, *final(pos) as int),
            ) && p.wf(),
            Option::None => p_pins(buf@, *old(pos) as int) is None,
        },
{
    if buf.len() - *pos < 16 {
        return None;
    }
    let ghost i0: int = *pos as int;
    let identifiers = slice_to_vec(slice_subrange(buf, *pos, *pos + 8));
    *pos = *pos + 8;
    let mut spin_directions: Vec<i8> = Vec::new();
    let mut k: usize = 0;
    while k < 8
        invariant
            k <= 8,
            *pos == i0 + 8 + k,
            i0 + 16 <= buf@.len(),
            spin_directions@.len() == k,
            forall|j: int| 0 <= j < k ==> spin_directions@[j] == spin_of(buf@[i0 + 8 + j]),
        decreases 8 - k,
    {
        let b = buf[*pos];
        spin_directions.push((b as i32 - 128) as i8);
        *pos = *pos + 1;
        k = k + 1;
    }
    proof {
        assert(spin_directions@ =~= Seq::new(8, |j: int| spin_of(buf@[i0 + 8 + j])));
        assert(identifiers@ =~= buf@.subrange(i0, i0 + 8));
    }
    Some(ThrusterPinSetup { identifiers, spin_directions })
}

fn read_firmware(buf: &[u8], pos: &mut usize) -> (r: Option<MicroControllerFirmwareVariant>)
    requires
        *old(pos) <= buf@.len(),
    ensures
        *final(pos) <= buf@.len(),
        match r {
            Option::Some(v) => p_firmware(buf@, *old(pos) as int) == Option::Some(
                (v, *final(pos) as int),
            ),
            Option::None => p_firmware(buf@, *old(pos) as int) is None,
        },
{
    match read_u8(buf, pos) {
        Some(0u8) => Some(MicroControllerFirmwareVariant::Pwm),
        Some(1u8) => Some(MicroControllerFirmwareVariant::Dshot300),
        _ => None,
    }
}

fn read_fluid(buf: &[u8], pos: &mut usize) -> (r: Option<FluidType>)
    requires
        *old(pos) <= buf@.len(),
    ensures
        *final(pos) <= buf@.len(),
        match r {
            Option::Some(v) => p_fluid(buf@, *old(pos) as int) == Option::Some(
                (v, *final(pos) as int),
            ),
            Option::None => p_fluid(buf@, *old(pos) as int) is None,
        },
{
    match read_u8(buf, pos) {
        Some(0u8) => Some(FluidType::Saltwater),
        Some(1u8) => Some(FluidType::Freshwater),
        _ => None,
    }
}

fn read_vehicle_config(buf: &[u8], pos: &mut usize) -> (r: Option<VehicleConfig>)
    requires
        *old(pos) <= buf@.len(),
    ensures
        *final(pos) <= buf@.len(),
        match r {
            Option::Some(c) => p_vehicle_config(buf@, *old(pos) as int) == Option::Some(
                (c@, *final(pos) as int),
            ) && c.wf(),
            Option::None => p_vehicle_config(buf@, *old(pos) as int) is None,
        },
{
    let firmware_variant = match read_firmware(buf, pos) {
        Some(v) => v,
        None => {
            return None;
        },
    };
    let fluid_type = match read_fluid(buf, pos) {
        Some(v) => v,
        None => {
            return None;
        },
    };
    let thruster_pins = match read_pins(buf, pos) {
        Some(p) => p,
        None => {
            return None;
        },
    };
    Some(VehicleConfig { firmware_variant, fluid_type, thruster_pins })
}

fn read_opt_toast_type(buf: &[u8], pos: &mut usize) -> (r: Option<Option<ToastType>>)
    requires
        *old(pos) <= buf@.len(),
    ensures
        *final(pos) <= buf@.len(),
        match r {
            Option::Some(x) => p_opt_toast_type(buf@, *old(pos) as int) == Option::Some(
                (x, *final(pos) as int),
            ),
            Option::None => p_opt_toast_type(buf@, *old(pos) as int) is None,
        },
{
    match read_u8(buf, pos) {
        Some(0u8) => Some(None),
        Some(1u8) => match read_u8(buf, pos) {
            Some(0u8) => Some(Some(ToastType::Success)),
            Some(1u8) => Some(Some(ToastType::Info)),
            Some(2u8) => Some(Some(ToastType::Warn)),
            Some(3u8) => Some(Some(ToastType::Error)),
            Some(4u8) => Some(Some(ToastType::Loading)),
            _ => None,
        },
        _ => None,
    }
}

fn read_opt_cancel(buf: &[u8], pos: &mut usize) -> (r: Option<Option<ToastCancel>>)
    requires
        *old(pos) <= buf@.len(),
    ensures
        *final(pos) <= buf@.len(),
        match r {
            Option::Some(x) => p_opt_cancel(buf@, *old(pos) as int) == Option::Some(
                (x, *final(pos) as int),
            ),
            Option::None => p_opt_cancel(buf@, *old(pos) as int) is None,
        },
{
    match read_u8(buf, pos) {
        Some(0u8) => Some(None),
        Some(1u8) => match read_u8(buf, pos) {
            Some(0u8) => match read_u8(buf, pos) {
                Some(n) => Some(Some(ToastCancel::CancelThrusterTest(n))),
                None => None,
            },
            Some(1u8) => Some(Some(ToastCancel::CancelRegulatorAutoTuning)),
            _ => None,
        },
        _ => None,
    }
}

fn read_toast(buf: &[u8], pos: &mut usize) -> (r: Option<Toast>)
    requires
        *old(pos) <= buf@.len(),
    ensures
        *final(pos) <= buf@.len(),
        match r {
            Option::Some(t) => p_toast(buf@, *old(pos) as int) == Option::Some(
                (t@, *final(pos) as int),
            ),
            Option::None => p_toast(buf@, *old(pos) as int) is None,
        },
{
    let id = match read_opt_string(buf, pos) {
        Some(x) => x,
        None => {
            return None;
        },
    };
    let toast_type = match read_opt_toast_type(buf, pos) {
        Some(x) => x,
        None => {
            return None;
        },
    };
    let message = match read_string(buf, pos) {
        Some(x) => x,
        None => {
            return None;
        },
    };
    let description = match read_opt_string(buf, pos) {
        Some(x) => x,
        None => {
            return None;
        },
    };
    let cancel = match read_opt_cancel(buf, pos) {
        Some(x) => x,
        None => {
            return None;
        },
    };
    Some(Toast { id, toast_type, message, description, cancel })
}

fn read_level(buf: &[u8], pos: &mut usize) -> (r: Option<LogLevel>)
    requires
        *old(pos) <= buf@.len(),
    ensures
        *final(pos) <= buf@.len(),
        match r {
            Option::Some(v) => p_level(buf@, *old(pos) as int) == Option::Some(
                (v, *final(pos) as int),
            ),
            Option::None => p_level(buf@, *old(pos) as int) is None,
        },
{
    match read_u8(buf, pos) {
        Some(0u8) => Some(LogLevel::Info),
        Some(1u8) => Some(LogLevel::Warn),
        Some(2u8) => Some(LogLevel::Error),
        _ => None,
    }
}

fn read_origin(buf: &[u8], pos: &mut usize) -> (r: Option<LogOrigin>)
    requires
        *old(pos) <= buf@.len(),
    ensures
        *final(pos) <= buf@.len(),
        match r {
            Option::Some(v) => p_origin(buf@, *old(pos) as int) == Option::Some(
                (v, *final(pos) as int),
            ),
            Option::None => p_origin(buf@, *old(pos) as int) is None,
        },
{
    match read_u8(buf, pos) {
        Some(0u8) => Some(LogOrigin::Firmware),
        Some(1u8) => Some(LogOrigin::Backend),
        Some(2u8) => Some(LogOrigin::Frontend),
        _ => None,
    }
}

fn read_log(buf: &[u8], pos: &mut usize) -> (r: Option<LogEntry>)
    requires
        *old(pos) <= buf@.len(),
    ensures
        *final(pos) <= buf@.len(),
        match r {
            Option::Some(e) => p_log(buf@, *old(pos) as int) == Option::Some(
                (e@, *final(pos) as int),
            ),
            Option::None => p_log(buf@, *old(pos) as int) is None,
        },
{
    let level = match read_level(buf, pos) {
        Some(v) => v,
        None => {
            return None;
        },
    };
    let origin = match read_origin(buf, pos) {
        Some(v) => v,
        None => {
            return None;
        },
    };
    let message = match read_string(buf, pos) {
        Some(v) => v,
        None => {
            return None;
        },
    };
    Some(LogEntry { level, origin, message })
}

/// Decode one frame into the typed message it carries, or say exactly why it
/// is rejected. A frame is accepted if and only if it is precisely the byte
/// image of one message.
pub fn decode(frame: &[u8]) -> (r: Result<TypedMessage, DecodeError>)
    ensures
        match r {
            Result::Ok(m) => message_of(frame@) == Option::Some(m@),
            Result::Err(e) => message_of(frame@) is None && e == decode_err_of(frame@),
        },
{
    let mut pos: usize = 0;
    let tag = match read_u8(frame, &mut pos) {
        Some(t) => t,
        None => {
            return Err(DecodeError::EmptyFrame);
        },
    };
    let msg = if tag == 1 {
        match read_command(frame, &mut pos) {
            Some(v) => TypedMessage::Command(v),
            None => {
                return Err(DecodeError::Malformed);
            },
        }
    } else if tag == 2 {
        match read_u64(frame, &mut pos) {
            Some(t) => TypedMessage::Ping(t),
            None => {
                return Err(DecodeError::Malformed);
            },
        }
    } else if tag == 3 {
        match read_u64(frame, &mut pos) {
            Some(t) => TypedMessage::Pong(t),
            None => {
                return Err(DecodeError::Malformed);
            },
        }
    } else if tag == 4 {
        match read_status(frame, &mut pos) {
            Some(st) => TypedMessage::StatusUpdate(st),
            None => {
                return Err(DecodeError::Malformed);
            },
        }
    } else if tag == 5 {
        TypedMessage::ConfigGet
    } else if tag == 6 {
        match read_vehicle_config(frame, &mut pos) {
            Some(c) => TypedMessage::ConfigSet(c),
            None => {
                return Err(DecodeError::Malformed);
            },
        }
    } else if tag == 7 {
        match read_vehicle_config(frame, &mut pos) {
            Some(c) => TypedMessage::ConfigResponse(c),
            None => {
                return Err(DecodeError::Malformed);
            },
        }
    } else if tag == 8 {
        match read_toast(frame, &mut pos) {
            Some(t) => TypedMessage::Notification(t),
            None => {
                return Err(DecodeError::Malformed);
            },
        }
    } else if tag == 9 {
        match read_log(frame, &mut pos) {
            Some(e) => TypedMessage::LogMessage(e),
            None => {
                return Err(DecodeError::Malformed);
            },
        }
    } else {
        return Err(DecodeError::UnknownTag);
    };
    if pos == frame.len() {
        Ok(msg)
    } else {
        Err(DecodeError::TrailingBytes)
    }
}

// ---------------------------------------------------------------------------
// Executable writers. Each appends to `out` exactly the byte image its spec
// encoder gives.
// ---------------------------------------------------------------------------

/// Appending one more character appends its image.
proof fn lemma_e_chars_push(t: Seq<char>, c: char)
    ensures
        e_chars(t.push(c)) == e_chars(t) + e_char(c),
    decreases t.len(),
{
    if t.len() == 0 {
        let tp = t.push(c);
        assert(tp[0] == c);
        assert(tp.drop_first() =~= Seq::<char>::empty());
        assert(e_chars(Seq::<char>::empty()) == Seq::<u8>::empty());
        assert(e_chars(tp) == e_char(c) + Seq::<u8>::empty());
        assert(e_char(c) + Seq::<u8>::empty() =~= e_char(c));
        assert(t =~= Seq::<char>::empty());
        assert(e_chars(t) + e_char(c) =~= e_char(c));
    } else {
        assert(t.push(c)[0] == t[0]);
        assert(t.push(c).drop_first() =~= t.drop_first().push(c));
        lemma_e_chars_push(t.drop_first(), c);
        assert(e_chars(t.push(c)) =~= e_chars(t) + e_char(c));
    }
}

fn write_u8(out: &mut Vec<u8>, x: u8)
    ensures
        final(out)@ == old(out)@ + e_u8(x),
{
    out.push(x);
    proof {
        assert(old(out)@.push(x) =~= old(out)@ + e_u8(x));
    }
}

fn write_u16(out: &mut Vec<u8>, x: u16)
    ensures
        final(out)@ == old(out)@ + e_u16(x),
{
    let mut b = u16_to_le_bytes(x);
    out.append(&mut b);
}

fn write_u32(out: &mut Vec<u8>, x: u32)
    ensures
        final(out)@ == old(out)@ + e_u32(x),
{
    let mut b = u32_to_le_bytes(x);
    out.append(&mut b);
}

fn write_u64(out: &mut Vec<u8>, x: u64)
    ensures
        final(out)@ == old(out)@ + e_u64(x),
{
    let mut b = u64_to_le_bytes(x);
    out.append(&mut b);
}

fn write_bool(out: &mut Vec<u8>, b: bool)
    ensures
        final(out)@ == old(out)@ + e_bool(b),
{
    let x: u8 = if b {
        1
    } else {
        0
    };
    out.push(x);
    proof {
        assert(old(out)@.push(x) =~= old(out)@ + e_bool(b));
    }
}

fn write_char(out: &mut Vec<u8>, c: char)
    ensures
        final(out)@ == old(out)@ + e_char(c),
{
    write_u32(out, c as u32);
}

fn write_str(out: &mut Vec<u8>, s: &str)
    requires
        s@.len() < 0x1_0000_0000,
    ensures
        final(out)@ == old(out)@ + e_string(s@),
{
    let n = s.unicode_len();
    write_u32(out, n as u32);
    let ghost base: Seq<u8> = out@;
    let mut k: usize = 0;
    while k < n
        invariant
            k <= n,
            n == s@.len(),
            out@ == base + e_chars(s@.subrange(0, k as int)),
        decreases n - k,
    {
        let c = s.get_char(k);
        proof {
            assert(s@.subrange(0, k + 1 as int) =~= s@.subrange(0, k as int).push(s@[k as int]));
            lemma_e_chars_push(s@.subrange(0, k as int), s@[k as int]);
        }
        write_char(out, c);
        k = k + 1;
    }
    proof {
        assert(s@.subrange(0, n as int) =~= s@);
        assert(base + e_chars(s@) =~= old(out)@ + e_string(s@));
    }
}

fn write_opt_string(out: &mut Vec<u8>, o: &Option<String>)
    requires
        (*o matches Option::Some(s) ==> s@.len() < 0x1_0000_0000),
    ensures
        final(out)@ == old(out)@ + e_opt_string(
            match *o {
                Option::Some(s) => Option::Some(s@),
                Option::None => Option::None,
            },
        ),
{
    match o {
        Some(s) => {
            write_u8(out, 1);
            write_str(out, s.as_str());
            proof {
                assert((old(out)@ + e_u8(1)) + e_string(s@) =~= old(out)@ + (seq![1u8] + e_string(
                    s@,
                )));
            }
        },
        None => {
            write_u8(out, 0);
            proof {
                assert(old(out)@ + e_u8(0) =~= old(out)@ + seq![0u8]);
            }
        },
    }
}

fn write_axis(out: &mut Vec<u8>, v: i32)
    requires
        axis_in_range(v as int),
    ensures
        final(out)@ == old(out)@ + e_axis(v),
{
    write_u16(out, (v + AXIS_UNIT) as u16);
}

fn write_command(out: &mut Vec<u8>, v: &CommandVector)
    requires
        v.in_range(),
    ensures
        final(out)@ == old(out)@ + e_command(*v),
{
    write_axis(out, v.surge);
    write_axis(out, v.sway);
    write_axis(out, v.heave);
    write_axis(out, v.pitch);
    write_axis(out, v.yaw);
    write_axis(out, v.roll);
    proof {
        assert(final(out)@ =~= old(out)@ + e_command(*v));
    }
}

fn write_health(out: &mut Vec<u8>, h: &SystemHealth)
    ensures
        final(out)@ == old(out)@ + e_health(*h),
{
    write_bool(out, h.imu_ok);
    write_bool(out, h.pressure_sensor_ok);
    write_bool(out, h.microcontroller_ok);
    proof {
        assert(final(out)@ =~= old(out)@ + e_health(*h));
    }
}

fn write_status(out: &mut Vec<u8>, s: &RovStatus)
    ensures
        final(out)@ == old(out)@ + e_status(*s),
{
    write_bool(out, s.pitch_stabilization);
    write_bool(out, s.roll_stabilization);
    write_bool(out, s.depth_hold);
    write_u8(out, s.battery_percentage);
    write_health(out, &s.health);
    proof {
        assert(final(out)@ =~= old(out)@ + e_status(*s));
    }
}

fn write_pins(out: &mut Vec<u8>, p: &ThrusterPinSetup)
    requires
        p.wf(),
    ensures
        final(out)@ == old(out)@ + e_pins(p@),
{
    out.extend_from_slice(p.identifiers.as_slice());
    let ghost base: Seq<u8> = out@;
    let mut k: usize = 0;
    while k < 8
        invariant
            k <= 8,
            p.wf(),
            out@ == base + Seq::new(k as nat, |j: int| e_spin(p.spin_directions@[j])),
        decreases 8 - k,
    {
        let d = p.spin_directions[k];
        out.push((d as i32 + 128) as u8);
        k = k + 1;
        proof {
            assert(out@ =~= base + Seq::new(k as nat, |j: int| e_spin(p.spin_directions@[j])));
        }
    }
    proof {
        assert(Seq::new(8, |j: int| e_spin(p.spin_directions@[j])) =~= Seq::new(
            p.spin_directions@.len(),
            |j: int| e_spin(p.spin_directions@[j]),
        ));
        assert(final(out)@ =~= old(out)@ + e_pins(p@));
    }
}

fn write_vehicle_config(out: &mut Vec<u8>, c: &VehicleConfig)
    requires
        c.wf(),
    ensures
        final(out)@ == old(out)@ + e_vehicle_config(c@),
{
    let fw: u8 = match c.firmware_variant {
        MicroControllerFirmwareVariant::Pwm => 0,
        MicroControllerFirmwareVariant::Dshot300 => 1,
    };
    let fl: u8 = match c.fluid_type {
        FluidType::Saltwater => 0,
        FluidType::Freshwater => 1,
    };
    write_u8(out, fw);
    write_u8(out, fl);
    write_pins(out, &c.thruster_pins);
    proof {
        assert(final(out)@ =~= old(out)@ + e_vehicle_config(c@));
    }
}

fn write_opt_toast_type(out: &mut Vec<u8>, o: &Option<ToastType>)
    ensures
        final(out)@ == old(out)@ + e_opt_toast_type(*o),
{
    match o {
        Some(t) => {
            let b: u8 = match t {
                ToastType::Success => 0,
                ToastType::Info => 1,
                ToastType::Warn => 2,
                ToastType::Error => 3,
                ToastType::Loading => 4,
            };
            write_u8(out, 1);
            write_u8(out, b);
            proof {
                assert(final(out)@ =~= old(out)@ + e_opt_toast_type(*o));
            }
        },
        None => {
            write_u8(out, 0);
            proof {
                assert(final(out)@ =~= old(out)@ + e_opt_toast_type(*o));
            }
        },
    }
}

fn write_opt_cancel(out: &mut Vec<u8>, o: &Option<ToastCancel>)
    ensures
        final(out)@ == old(out)@ + e_opt_cancel(*o),
{
    match o {
        Some(ToastCancel::CancelThrusterTest(n)) => {
            write_u8(out, 1);
            write_u8(out, 0);
            write_u8(out, *n);
            proof {
                assert(final(out)@ =~= old(out)@ + e_opt_cancel(*o));
            }
        },
        Some(ToastCancel::CancelRegulatorAutoTuning) => {
            write_u8(out, 1);
            write_u8(out, 1);
            proof {
                assert(final(out)@ =~= old(out)@ + e_opt_cancel(*o));
            }
        },
        None => {
            write_u8(out, 0);
            proof {
                assert(final(out)@ =~= old(out)@ + e_opt_cancel(*o));
            }
        },
    }
}

fn write_toast(out: &mut Vec<u8>, t: &Toast)
    requires
        t@.message.len() < 0x1_0000_0000,
        (t@.id matches Option::Some(s) ==> s.len() < 0x1_0000_0000),
        (t@.description matches Option::Some(s) ==> s.len() < 0x1_0000_0000),
    ensures
        final(out)@ == old(out)@ + e_toast(t@),
{
    write_opt_string(out, &t.id);
    write_opt_toast_type(out, &t.toast_type);
    write_str(out, t.message.as_str());
    write_opt_string(out, &t.description);
    write_opt_cancel(out, &t.cancel);
    proof {
        assert(final(out)@ =~= old(out)@ + e_toast(t@));
    }
}

fn write_log(out: &mut Vec<u8>, e: &LogEntry)
    requires
        e@.message.len() < 0x1_0000_0000,
    ensures
        final(out)@ == old(out)@ + e_log(e@),
{
    let lv: u8 = match e.level {
        LogLevel::Info => 0,
        LogLevel::Warn => 1,
        LogLevel::Error => 2,
    };
    let og: u8 = match e.origin {
        LogOrigin::Firmware => 0,
        LogOrigin::Backend => 1,
        LogOrigin::Frontend => 2,
    };
    write_u8(out, lv);
    write_u8(out, og);
    write_str(out, e.message.as_str());
    proof {
        assert(final(out)@ =~= old(out)@ + e_log(e@));
    }
}

/// Encode a typed message into the one frame that decodes back to it.
pub fn encode(msg: &TypedMessage) -> (r: Vec<u8>)
    requires
        msg@.encodable(),
    ensures
        r@ == encode_message(msg@),
{
    let mut out: Vec<u8> = Vec::new();
    match msg {
        TypedMessage::Command(v) => {
            write_u8(&mut out, 1);
            write_command(&mut out, v);
        },
        TypedMessage::Ping(t) => {
            write_u8(&mut out, 2);
            write_u64(&mut out, *t);
        },
        TypedMessage::Pong(t) => {
            write_u8(&mut out, 3);
            write_u64(&mut out, *t);
        },
        TypedMessage::StatusUpdate(s) => {
            write_u8(&mut out, 4);
            write_status(&mut out, s);
        },
        TypedMessage::ConfigGet => {
            write_u8(&mut out, 5);
        },
        TypedMessage::ConfigSet(c) => {
            write_u8(&mut out, 6);
            write_vehicle_config(&mut out, c);
        },
        TypedMessage::ConfigResponse(c) => {
            write_u8(&mut out, 7);
            write_vehicle_config(&mut out, c);
        },
        TypedMessage::Notification(t) => {
            write_u8(&mut out, 8);
            write_toast(&mut out, t);
        },
        TypedMessage::LogMessage(e) => {
            write_u8(&mut out, 9);
            write_log(&mut out, e);
        },
    }
    proof {
        assert(out@ =~= encode_message(msg@));
    }
    out
}

// ---------------------------------------------------------------------------
// Round trip: a frame written by the encoder parses back to the message it
// was written from, with nothing left over.
// ---------------------------------------------------------------------------

/// Byte length of an encoded string.
pub open spec fn len_string(cs: Seq<char>) -> int {
    4 + 4 * cs.len() as int
}

/// Byte length of an encoded optional string.
pub open spec fn len_opt_string(o: Option<Seq<char>>) -> int {
    match o {
        Option::Some(cs) => 1 + len_string(cs),
        Option::None => 1,
    }
}

/// Byte length of an encoded optional toast severity.
pub open spec fn len_opt_toast_type(o: Option<ToastType>) -> int {
    match o {
        Option::Some(_) => 2,
        Option::None => 1,
    }
}

/// Byte length of an encoded optional cancel action.
pub open spec fn len_opt_cancel(o: Option<ToastCancel>) -> int {
    match o {
        Option::Some(ToastCancel::CancelThrusterTest(_)) => 3,
        Option::Some(ToastCancel::CancelRegulatorAutoTuning) => 2,
        Option::None => 1,
    }
}

/// Byte length of an encoded toast.
pub open spec fn len_toast(t: ToastView) -> int {
    len_opt_string(t.id) + len_opt_toast_type(t.toast_type) + len_string(t.message)
        + len_opt_string(t.description) + len_opt_cancel(t.cancel)
}

proof fn lemma_e_chars_len(cs: Seq<char>)
    ensures
        e_chars(cs).len() == 4 * cs.len(),
    decreases cs.len(),
{
    lemma_auto_spec_u32_to_from_le_bytes();
    if cs.len() > 0 {
        lemma_e_chars_len(cs.drop_first());
    }
}

proof fn lemma_e_string_len(cs: Seq<char>)
    ensures
        e_string(cs).len() == len_string(cs),
{
    lemma_auto_spec_u32_to_from_le_bytes();
    lemma_e_chars_len(cs);
}

proof fn lemma_e_opt_string_len(o: Option<Seq<char>>)
    ensures
        e_opt_string(o).len() == len_opt_string(o),
{
    match o {
        Option::Some(cs) => lemma_e_string_len(cs),
        Option::None => {},
    }
}

proof fn lemma_e_toast_len(t: ToastView)
    ensures
        e_toast(t).len() == len_toast(t),
{
    lemma_e_opt_string_len(t.id);
    lemma_e_string_len(t.message);
    lemma_e_opt_string_len(t.description);
}

/// A window of `s` that is known to equal `t` has `t`'s subranges as its own.
proof fn lemma_nested_subrange(s: Seq<u8>, i: int, j: int, t: Seq<u8>, a: int, b: int)
    requires
        0 <= i <= j <= s.len(),
        s.subrange(i, j) == t,
        0 <= a <= b <= j - i,
    ensures
        s.subrange(i + a, i + b) == t.subrange(a, b),
{
    assert forall|k: int| 0 <= k < b - a implies s.subrange(i + a, i + b)[k] == t.subrange(a, b)[k] by {
        assert(s.subrange(i, j)[a + k] == s[i + a + k]);
    }
    assert(s.subrange(i + a, i + b) =~= t.subrange(a, b));
}

proof fn lemma_p_u8_at(s: Seq<u8>, i: int, x: u8)
    requires
        0 <= i,
        i + 1 <= s.len(),
        s.subrange(i, i + 1) == e_u8(x),
    ensures
        p_u8(s, i) == Option::Some((x, i + 1)),
{
    assert(s[i] == s.subrange(i, i + 1)[0]);
}

proof fn lemma_p_u16_at(s: Seq<u8>, i: int, x: u16)
    requires
        0 <= i,
        i + 2 <= s.len(),
        s.subrange(i, i + 2) == e_u16(x),
    ensures
        p_u16(s, i) == Option::Some((x, i + 2)),
{
    lemma_auto_spec_u16_to_from_le_bytes();
    assert(spec_u16_to_le_bytes(x).len() == 2);
    assert(spec_u16_from_le_bytes(spec_u16_to_le_bytes(x)) == x);
    assert(s.subrange(i, i + 2) == spec_u16_to_le_bytes(x));
}

proof fn lemma_p_u32_at(s: Seq<u8>, i: int, x: u32)
    requires
        0 <= i,
        i + 4 <= s.len(),
        s.subrange(i, i + 4) == e_u32(x),
    ensures
        p_u32(s, i) == Option::Some((x, i + 4)),
{
    lemma_auto_spec_u32_to_from_le_bytes();
    assert(spec_u32_to_le_bytes(x).len() == 4);
    assert(spec_u32_from_le_bytes(spec_u32_to_le_bytes(x)) == x);
    assert(s.subrange(i, i + 4) == spec_u32_to_le_bytes(x));
}

proof fn lemma_p_u64_at(s: Seq<u8>, i: int, x: u64)
    requires
        0 <= i,
        i + 8 <= s.len(),
        s.subrange(i, i + 8) == e_u64(x),
    ensures
        p_u64(s, i) == Option::Some((x, i + 8)),
{
    lemma_auto_spec_u64_to_from_le_bytes();
    assert(spec_u64_to_le_bytes(x).len() == 8);
    assert(spec_u64_from_le_bytes(spec_u64_to_le_bytes(x)) == x);
    assert(s.subrange(i, i + 8) == spec_u64_to_le_bytes(x));
}

proof fn lemma_p_bool_at(s: Seq<u8>, i: int, b: bool)
    requires
        0 <= i,
        i + 1 <= s.len(),
        s.subrange(i, i + 1) == e_bool(b),
    ensures
        p_bool(s, i) == Option::Some((b, i + 1)),
{
    lemma_p_u8_at(
        s,
        i,
        if b {
            1u8
        } else {
            0u8
        },
    );
}

proof fn lemma_p_char_at(s: Seq<u8>, i: int, c: char)
    requires
        0 <= i,
        i + 4 <= s.len(),
        s.subrange(i, i + 4) == e_char(c),
    ensures
        p_char(s, i) == Option::Some((c, i + 4)),
{
    lemma_p_u32_at(s, i, c as u32);
    vstd::utf8::char_u32_cast(c, c as u32);
}

proof fn lemma_p_chars_at(s: Seq<u8>, i: int, cs: Seq<char>)
    requires
        0 <= i,
        i + 4 * cs.len() <= s.len(),
        s.subrange(i, i + 4 * cs.len()) == e_chars(cs),
    ensures
        p_chars(s, i, cs.len()) == Option::Some((cs, i + 4 * cs.len())),
    decreases cs.len(),
{
    lemma_auto_spec_u32_to_from_le_bytes();
    if cs.len() == 0 {
        assert(cs =~= Seq::<char>::empty());
    } else {
        let rest = cs.drop_first();
        let all = e_chars(cs);
        let w: int = 4 * cs.len() as int;
        lemma_e_chars_len(rest);
        assert(all == e_char(cs[0]) + e_chars(rest));
        lemma_nested_subrange(s, i, i + w, all, 0, 4);
        assert(all.subrange(0, 4) =~= e_char(cs[0]));
        lemma_p_char_at(s, i, cs[0]);
        lemma_nested_subrange(s, i, i + w, all, 4, w);
        assert(all.subrange(4, w) =~= e_chars(rest));
        lemma_p_chars_at(s, i + 4, rest);
        assert(seq![cs[0]] + rest =~= cs);
    }
}

proof fn lemma_p_string_at(s: Seq<u8>, i: int, cs: Seq<char>)
    requires
        0 <= i,
        cs.len() < 0x1_0000_0000,
        i + len_string(cs) <= s.len(),
        s.subrange(i, i + len_string(cs)) == e_string(cs),
    ensures
        p_string(s, i) == Option::Some((cs, i + len_string(cs))),
{
    lemma_auto_spec_u32_to_from_le_bytes();
    assert(spec_u32_to_le_bytes(cs.len() as u32).len() == 4);
    lemma_e_chars_len(cs);
    let all = e_string(cs);
    let w = len_string(cs);
    assert(all == e_u32(cs.len() as u32) + e_chars(cs));
    lemma_nested_subrange(s, i, i + w, all, 0, 4);
    assert(all.subrange(0, 4) =~= e_u32(cs.len() as u32));
    lemma_p_u32_at(s, i, cs.len() as u32);
    lemma_nested_subrange(s, i, i + w, all, 4, w);
    assert(all.subrange(4, w) =~= e_chars(cs));
    lemma_p_chars_at(s, i + 4, cs);
}

proof fn lemma_p_opt_string_at(s: Seq<u8>, i: int, o: Option<Seq<char>>)
    requires
        0 <= i,
        (o matches Option::Some(cs) ==> cs.len() < 0x1_0000_0000),
        i + len_opt_string(o) <= s.len(),
        s.subrange(i, i + len_opt_string(o)) == e_opt_string(o),
    ensures
        p_opt_string(s, i) == Option::Some((o, i + len_opt_string(o))),
{
    match o {
        Option::Some(cs) => {
            lemma_e_string_len(cs);
            let all = e_opt_string(o);
            let w = len_opt_string(o);
            assert(all == seq![1u8] + e_string(cs));
            lemma_nested_subrange(s, i, i + w, all, 0, 1);
            assert(all.subrange(0, 1) =~= e_u8(1));
            lemma_p_u8_at(s, i, 1);
            lemma_nested_subrange(s, i, i + w, all, 1, w);
            assert(all.subrange(1, w) =~= e_string(cs));
            lemma_p_string_at(s, i + 1, cs);
        },
        Option::None => {
            assert(s.subrange(i, i + 1) =~= e_u8(0));
            lemma_p_u8_at(s, i, 0);
        },
    }
}

proof fn lemma_p_axis_at(s: Seq<u8>, i: int, v: i32)
    requires
        0 <= i,
        axis_in_range(v as int),
        i + 2 <= s.len(),
        s.subrange(i, i + 2) == e_axis(v),
    ensures
        p_axis(s, i) == Option::Some((v, i + 2)),
{
    lemma_p_u16_at(s, i, (v + AXIS_UNIT) as u16);
}

proof fn lemma_p_command_at(s: Seq<u8>, i: int, v: CommandVector)
    requires
        0 <= i,
        v.in_range(),
        i + 12 <= s.len(),
        s.subrange(i, i + 12) == e_command(v),
    ensures
        p_command(s, i) == Option::Some((v, i + 12)),
{
    lemma_auto_spec_u16_to_from_le_bytes();
    assert(spec_u16_to_le_bytes((v.surge + AXIS_UNIT) as u16).len() == 2);
    assert(spec_u16_to_le_bytes((v.sway + AXIS_UNIT) as u16).len() == 2);
    assert(spec_u16_to_le_bytes((v.heave + AXIS_UNIT) as u16).len() == 2);
    assert(spec_u16_to_le_bytes((v.pitch + AXIS_UNIT) as u16).len() == 2);
    assert(spec_u16_to_le_bytes((v.yaw + AXIS_UNIT) as u16).len() == 2);
    assert(spec_u16_to_le_bytes((v.roll + AXIS_UNIT) as u16).len() == 2);
    let all = e_command(v);
    lemma_nested_subrange(s, i, i + 12, all, 0, 2);
    assert(all.subrange(0, 2) =~= e_axis(v.surge));
    lemma_p_axis_at(s, i, v.surge);
    lemma_nested_subrange(s, i, i + 12, all, 2, 4);
    assert(all.subrange(2, 4) =~= e_axis(v.sway));
    lemma_p_axis_at(s, i + 2, v.sway);
    lemma_nested_subrange(s, i, i + 12, all, 4, 6);
    assert(all.subrange(4, 6) =~= e_axis(v.heave));
    lemma_p_axis_at(s, i + 4, v.heave);
    lemma_nested_subrange(s, i, i + 12, all, 6, 8);
    assert(all.subrange(6, 8) =~= e_axis(v.pitch));
    lemma_p_axis_at(s, i + 6, v.pitch);
    lemma_nested_subrange(s, i, i + 12, all, 8, 10);
    assert(all.subrange(8, 10) =~= e_axis(v.yaw));
    lemma_p_axis_at(s, i + 8, v.yaw);
    lemma_nested_subrange(s, i, i + 12, all, 10, 12);
    assert(all.subrange(10, 12) =~= e_axis(v.roll));
    lemma_p_axis_at(s, i + 10, v.roll);
}

proof fn lemma_p_status_at(s: Seq<u8>, i: int, st: RovStatus)
    requires
        0 <= i,
        i + 7 <= s.len(),
        s.subrange(i, i + 7) == e_status(st),
    ensures
        p_status(s, i) == Option::Some((st, i + 7)),
{
    let all = e_status(st);
    lemma_nested_subrange(s, i, i + 7, all, 0, 1);
    assert(all.subrange(0, 1) =~= e_bool(st.pitch_stabilization));
    lemma_p_bool_at(s, i, st.pitch_stabilization);
    lemma_nested_subrange(s, i, i + 7, all, 1, 2);
    assert(all.subrange(1, 2) =~= e_bool(st.roll_stabilization));
    lemma_p_bool_at(s, i + 1, st.roll_stabilization);
    lemma_nested_subrange(s, i, i + 7, all, 2, 3);
    assert(all.subrange(2, 3) =~= e_bool(st.depth_hold));
    lemma_p_bool_at(s, i + 2, st.depth_hold);
    lemma_nested_subrange(s, i, i + 7, all, 3, 4);
    assert(all.subrange(3, 4) =~= e_u8(st.battery_percentage));
    lemma_p_u8_at(s, i + 3, st.battery_percentage);
    lemma_nested_subrange(s, i, i + 7, all, 4, 5);
    assert(all.subrange(4, 5) =~= e_bool(st.health.imu_ok));
    lemma_p_bool_at(s, i + 4, st.health.imu_ok);
    lemma_nested_subrange(s, i, i + 7, all, 5, 6);
    assert(all.subrange(5, 6) =~= e_bool(st.health.pressure_sensor_ok));
    lemma_p_bool_at(s, i + 5, st.health.pressure_sensor_ok);
    lemma_nested_subrange(s, i, i + 7, all, 6, 7);
    assert(all.subrange(6, 7) =~= e_bool(st.health.microcontroller_ok));
    lemma_p_bool_at(s, i + 6, st.health.microcontroller_ok);
    assert(st.health == SystemHealth {
        imu_ok: st.health.imu_ok,
        pressure_sensor_ok: st.health.pressure_sensor_ok,
        microcontroller_ok: st.health.microcontroller_ok,
    });
}

proof fn lemma_p_pins_at(s: Seq<u8>, i: int, p: ThrusterPinsView)
    requires
        0 <= i,
        p.wf(),
        i + 16 <= s.len(),
        s.subrange(i, i + 16) == e_pins(p),
    ensures
        p_pins(s, i) == Option::Some((p, i + 16)),
{
    let all = e_pins(p);
    lemma_nested_subrange(s, i, i + 16, all, 0, 8);
    assert(all.subrange(0, 8) =~= p.identifiers);
    assert(s.subrange(i, i + 8) == p.identifiers);
    assert forall|k: int| 0 <= k < 8 implies spin_of(s[i + 8 + k]) == p.spin_directions[k] by {
        assert(s.subrange(i, i + 16)[8 + k] == s[i + 8 + k]);
        assert(all[8 + k] == e_spin(p.spin_directions[k]));
    }
    assert(Seq::new(8, |k: int| spin_of(s[i + 8 + k])) =~= p.spin_directions);
}

proof fn lemma_p_vehicle_config_at(s: Seq<u8>, i: int, c: VehicleConfigView)
    requires
        0 <= i,
        c.wf(),
        i + 18 <= s.len(),
        s.subrange(i, i + 18) == e_vehicle_config(c),
    ensures
        p_vehicle_config(s, i) == Option::Some((c, i + 18)),
{
    let all = e_vehicle_config(c);
    lemma_nested_subrange(s, i, i + 18, all, 0, 1);
    assert(all.subrange(0, 1) =~= e_u8(e_firmware(c.firmware_variant)));
    lemma_p_u8_at(s, i, e_firmware(c.firmware_variant));
    lemma_nested_subrange(s, i, i + 18, all, 1, 2);
    assert(all.subrange(1, 2) =~= e_u8(e_fluid(c.fluid_type)));
    lemma_p_u8_at(s, i + 1, e_fluid(c.fluid_type));
    lemma_nested_subrange(s, i, i + 18, all, 2, 18);
    assert(all.subrange(2, 18) =~= e_pins(c.thruster_pins));
    lemma_p_pins_at(s, i + 2, c.thruster_pins);
    assert(c == VehicleConfigView {
        firmware_variant: c.firmware_variant,
        fluid_type: c.fluid_type,
        thruster_pins: c.thruster_pins,
    });
}

proof fn lemma_p_opt_toast_type_at(s: Seq<u8>, i: int, o: Option<ToastType>)
    requires
        0 <= i,
        i + len_opt_toast_type(o) <= s.len(),
        s.subrange(i, i + len_opt_toast_type(o)) == e_opt_toast_type(o),
    ensures
        p_opt_toast_type(s, i) == Option::Some((o, i + len_opt_toast_type(o))),
{
    match o {
        Option::Some(t) => {
            let all = e_opt_toast_type(o);
            lemma_nested_subrange(s, i, i + 2, all, 0, 1);
            assert(all.subrange(0, 1) =~= e_u8(1));
            lemma_p_u8_at(s, i, 1);
            lemma_nested_subrange(s, i, i + 2, all, 1, 2);
            assert(all.subrange(1, 2) =~= e_u8(e_toast_type(t)));
            lemma_p_u8_at(s, i + 1, e_toast_type(t));
        },
        Option::None => {
            assert(s.subrange(i, i + 1) =~= e_u8(0));
            lemma_p_u8_at(s, i, 0);
        },
    }
}

proof fn lemma_p_opt_cancel_at(s: Seq<u8>, i: int, o: Option<ToastCancel>)
    requires
        0 <= i,
        i + len_opt_cancel(o) <= s.len(),
        s.subrange(i, i + len_opt_cancel(o)) == e_opt_cancel(o),
    ensures
        p_opt_cancel(s, i) == Option::Some((o, i + len_opt_cancel(o))),
{
    match o {
        Option::Some(ToastCancel::CancelThrusterTest(n)) => {
            let all = e_opt_cancel(o);
            lemma_nested_subrange(s, i, i + 3, all, 0, 1);
            assert(all.subrange(0, 1) =~= e_u8(1));
            lemma_p_u8_at(s, i, 1);
            lemma_nested_subrange(s, i, i + 3, all, 1, 2);
            assert(all.subrange(1, 2) =~= e_u8(0));
            lemma_p_u8_at(s, i + 1, 0);
            lemma_nested_subrange(s, i, i + 3, all, 2, 3);
            assert(all.subrange(2, 3) =~= e_u8(n));
            lemma_p_u8_at(s, i + 2, n);
        },
        Option::Some(ToastCancel::CancelRegulatorAutoTuning) => {
            let all = e_opt_cancel(o);
            lemma_nested_subrange(s, i, i + 2, all, 0, 1);
            assert(all.subrange(0, 1) =~= e_u8(1));
            lemma_p_u8_at(s, i, 1);
            lemma_nested_subrange(s, i, i + 2, all, 1, 2);
            assert(all.subrange(1, 2) =~= e_u8(1));
            lemma_p_u8_at(s, i + 1, 1);
        },
        Option::None => {
            assert(s.subrange(i, i + 1) =~= e_u8(0));
            lemma_p_u8_at(s, i, 0);
        },
    }
}

proof fn lemma_p_toast_at(s: Seq<u8>, i: int, t: ToastView)
    requires
        0 <= i,
        t.message.len() < 0x1_0000_0000,
        (t.id matches Option::Some(cs) ==> cs.len() < 0x1_0000_0000),
        (t.description matches Option::Some(cs) ==> cs.len() < 0x1_0000_0000),
        i + len_toast(t) <= s.len(),
        s.subrange(i, i + len_toast(t)) == e_toast(t),
    ensures
        p_toast(s, i) == Option::Some((t, i + len_toast(t))),
{
    lemma_e_opt_string_len(t.id);
    lemma_e_string_len(t.message);
    lemma_e_opt_string_len(t.description);
    let i1 = i + len_opt_string(t.id);
    let i2 = i1 + len_opt_toast_type(t.toast_type);
    let i3 = i2 + len_string(t.message);
    let i4 = i3 + len_opt_string(t.description);
    let i5 = i4 + len_opt_cancel(t.cancel);
    let all = e_toast(t);
    let w = len_toast(t);
    lemma_nested_subrange(s, i, i + w, all, 0, i1 - i);
    assert(all.subrange(0, i1 - i) =~= e_opt_string(t.id));
    lemma_p_opt_string_at(s, i, t.id);
    lemma_nested_subrange(s, i, i + w, all, i1 - i, i2 - i);
    assert(all.subrange(i1 - i, i2 - i) =~= e_opt_toast_type(t.toast_type));
    lemma_p_opt_toast_type_at(s, i1, t.toast_type);
    lemma_nested_subrange(s, i, i + w, all, i2 - i, i3 - i);
    assert(all.subrange(i2 - i, i3 - i) =~= e_string(t.message));
    lemma_p_string_at(s, i2, t.message);
    lemma_nested_subrange(s, i, i + w, all, i3 - i, i4 - i);
    assert(all.subrange(i3 - i, i4 - i) =~= e_opt_string(t.description));
    lemma_p_opt_string_at(s, i3, t.description);
    lemma_nested_subrange(s, i, i + w, all, i4 - i, i5 - i);
    assert(all.subrange(i4 - i, i5 - i) =~= e_opt_cancel(t.cancel));
    lemma_p_opt_cancel_at(s, i4, t.cancel);
    assert(t == ToastView {
        id: t.id,
        toast_type: t.toast_type,
        message: t.message,
        description: t.description,
        cancel: t.cancel,
    });
}

proof fn lemma_p_log_at(s: Seq<u8>, i: int, e: LogEntryView)
    requires
        0 <= i,
        e.message.len() < 0x1_0000_0000,
        i + 2 + len_string(e.message) <= s.len(),
        s.subrange(i, i + 2 + len_string(e.message)) == e_log(e),
    ensures
        p_log(s, i) == Option::Some((e, i + 2 + len_string(e.message))),
{
    lemma_e_string_len(e.message);
    let all = e_log(e);
    let w = 2 + len_string(e.message);
    lemma_nested_subrange(s, i, i + w, all, 0, 1);
    assert(all.subrange(0, 1) =~= e_u8(e_level(e.level)));
    lemma_p_u8_at(s, i, e_level(e.level));
    lemma_nested_subrange(s, i, i + w, all, 1, 2);
    assert(all.subrange(1, 2) =~= e_u8(e_origin(e.origin)));
    lemma_p_u8_at(s, i + 1, e_origin(e.origin));
    lemma_nested_subrange(s, i, i + w, all, 2, w);
    assert(all.subrange(2, w) =~= e_string(e.message));
    lemma_p_string_at(s, i + 2, e.message);
    assert(e == LogEntryView { level: e.level, origin: e.origin, message: e.message });
}

/// Decoding inverts encoding: the frame an encodable message encodes to
/// holds exactly that message.
#[verifier::spinoff_prover]
#[verifier::rlimit(60)]
pub proof fn lemma_codec_round_trip(m: MessageView)
    requires
        m.encodable(),
    ensures
        message_of(encode_message(m)) == Option::Some(m),
{
    let s = encode_message(m);
    match m {
        MessageView::Command(v) => {
            lemma_auto_spec_u16_to_from_le_bytes();
            assert(s.len() == 13);
            assert(s.subrange(0, 1) =~= e_u8(1));
            lemma_p_u8_at(s, 0, 1);
            assert(s.subrange(1, 13) =~= e_command(v));
            lemma_p_command_at(s, 1, v);
        },
        MessageView::Ping(t) => {
            lemma_auto_spec_u64_to_from_le_bytes();
            assert(s.len() == 9);
            assert(s.subrange(0, 1) =~= e_u8(2));
            lemma_p_u8_at(s, 0, 2);
            assert(s.subrange(1, 9) =~= e_u64(t));
            lemma_p_u64_at(s, 1, t);
        },
        MessageView::Pong(t) => {
            lemma_auto_spec_u64_to_from_le_bytes();
            assert(s.len() == 9);
            assert(s.subrange(0, 1) =~= e_u8(3));
            lemma_p_u8_at(s, 0, 3);
            assert(s.subrange(1, 9) =~= e_u64(t));
            lemma_p_u64_at(s, 1, t);
        },
        MessageView::StatusUpdate(st) => {
            assert(s.len() == 8);
            assert(s.subrange(0, 1) =~= e_u8(4));
            lemma_p_u8_at(s, 0, 4);
            assert(s.subrange(1, 8) =~= e_status(st));
            lemma_p_status_at(s, 1, st);
        },
        MessageView::ConfigGet => {
            assert(s.len() == 1);
            assert(s.subrange(0, 1) =~= e_u8(5));
            lemma_p_u8_at(s, 0, 5);
        },
        MessageView::ConfigSet(c) => {
            assert(s.len() == 19);
            assert(s.subrange(0, 1) =~= e_u8(6));
            lemma_p_u8_at(s, 0, 6);
            assert(s.subrange(1, 19) =~= e_vehicle_config(c));
            lemma_p_vehicle_config_at(s, 1, c);
        },
        MessageView::ConfigResponse(c) => {
            assert(s.len() == 19);
            assert(s.subrange(0, 1) =~= e_u8(7));
            lemma_p_u8_at(s, 0, 7);
            assert(s.subrange(1, 19) =~= e_vehicle_config(c));
            lemma_p_vehicle_config_at(s, 1, c);
        },
        MessageView::Notification(t) => {
            lemma_e_toast_len(t);
            assert(s.len() == 1 + len_toast(t));
            assert(s.subrange(0, 1) =~= e_u8(8));
            lemma_p_u8_at(s, 0, 8);
            assert(s.subrange(1, 1 + len_toast(t)) =~= e_toast(t));
            lemma_p_toast_at(s, 1, t);
        },
        MessageView::LogMessage(e) => {
            lemma_e_string_len(e.message);
            assert(s.len() == 3 + len_string(e.message));
            assert(s.subrange(0, 1) =~= e_u8(9));
            lemma_p_u8_at(s, 0, 9);
            assert(s.subrange(1, 3 + len_string(e.message)) =~= e_log(e));
            lemma_p_log_at(s, 1, e);
        },
    }
}

} // verus!
