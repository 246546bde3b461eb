//! Gamepad input: device snapshots and the gamepad half of the command
//! vector.
//!
//! The platform layer polls the device and hands over plain values: milli
//! axis deflections and button states. Everything that decides — which
//! physical control drives which logical axis, the dead zone, clamping —
//! happens here.

use vstd::prelude::*;
use vstd::string::StrSliceExecFns;
use crate::axes::{apply_dead_zone, axis_in_range, clamp_axis, clamp_axis_spec, dead_zone_spec,
    CommandVector};
use crate::config::{ControlSource, GamepadBindings};
use crate::keys::key_pair_spec;
use crate::keys::process_key_pair;

verus! {

/// What just happened on the gamepad.
#[derive(Clone, Copy, PartialEq, Eq, Structural, Debug)]
pub enum GamepadEventType {
    Connected,
    Disconnected,
    ButtonPressed,
    ButtonReleased,
    ButtonChanged,
    AxisChanged,
    Dropped,
}

/// One snapshot of a gamepad, shown to the operator. Axis and button values
/// are in thousandths of full deflection.
#[derive(Clone, Debug)]
pub struct GamepadData {
    pub id: usize,
    pub uuid: String,
    pub connected: bool,
    pub vibration: bool,
    pub event: GamepadEventType,
    pub timestamp: u64,
    pub name: String,
    pub buttons: Vec<i32>,
    pub axes: Vec<i32>,
    pub mapping: String,
    pub power_info: String,
}

/// The lowercase hex digit of a nibble value.
pub open spec fn hex_digit(n: int) -> char {
    if n == 0 {
        '0'
    } else if n == 1 {
        '1'
    } else if n == 2 {
        '2'
    } else if n == 3 {
        '3'
    } else if n == 4 {
        '4'
    } else if n == 5 {
        '5'
    } else if n == 6 {
        '6'
    } else if n == 7 {
        '7'
    } else if n == 8 {
        '8'
    } else if n == 9 {
        '9'
    } else if n == 10 {
        'a'
    } else if n == 11 {
        'b'
    } else if n == 12 {
        'c'
    } else if n == 13 {
        'd'
    } else if n == 14 {
        'e'
    } else {
        'f'
    }
}

/// The two lowercase hex digits of one byte.
pub open spec fn hex_byte(b: u8) -> Seq<char> {
    seq![hex_digit(b as int / 16), hex_digit(b as int % 16)]
}

/// The lowercase hex image of a byte sequence.
pub open spec fn hex_of(s: Seq<u8>) -> Seq<char>
    decreases s.len(),
{
    if s.len() == 0 {
        Seq::empty()
    } else {
        hex_byte(s[0]) + hex_of(s.drop_first())
    }
}

/// The canonical hyphenated form of a 16-byte device identity: lowercase
/// hex pairs with hyphens after the 4th, 6th, 8th and 10th byte.
pub open spec fn uuid_hyphenated(b: Seq<u8>) -> Seq<char>
    recommends
        b.len() == 16,
{
    hex_of(b.subrange(0, 4)) + seq!['-'] + hex_of(b.subrange(4, 6)) + seq!['-'] + hex_of(
        b.subrange(6, 8),
    ) + seq!['-'] + hex_of(b.subrange(8, 10)) + seq!['-'] + hex_of(b.subrange(10, 16))
}

/// Formats a device identity the way the operator UI shows it.
///
/// Relies on `uuid::Uuid::from_bytes` and its hyphenated formatter: the
/// result is the lowercase hex pairs of the 16 bytes, with hyphens after
/// the 4th, 6th, 8th and 10th byte.
#[verifier::external_body]
fn hyphenated_uuid(bytes: &[u8; 16]) -> (r: String)
    ensures
        r@ == uuid_hyphenated(bytes@),
{
    uuid::Uuid::from_bytes(*bytes).as_hyphenated().to_string()
}

/// Assemble the snapshot of a gamepad from what the platform layer read off
/// the device, formatting the identity bytes on the way.
pub fn gamepad_snapshot(
    id: usize,
    uuid_bytes: &[u8; 16],
    connected: bool,
    vibration: bool,
    event: GamepadEventType,
    timestamp: u64,
    name: String,
    buttons: Vec<i32>,
    axes: Vec<i32>,
    mapping: String,
    power_info: String,
) -> (g: GamepadData)
    ensures
        g.id == id,
        g.uuid@ == uuid_hyphenated(uuid_bytes@),
        g.connected == connected,
        g.vibration == vibration,
        g.event == event,
        g.timestamp == timestamp,
        g.name@ == name@,
        g.buttons@ == buttons@,
        g.axes@ == axes@,
        g.mapping@ == mapping@,
        g.power_info@ == power_info@,
{
    GamepadData {
        id,
        uuid: hyphenated_uuid(uuid_bytes),
        connected,
        vibration,
        event,
        timestamp,
        name,
        buttons,
        axes,
        mapping,
        power_info,
    }
}

// ---------------------------------------------------------------------------
// Button-index bindings are decimal strings; parse them exactly.
// ---------------------------------------------------------------------------

/// A decimal digit character.
pub open spec fn is_digit_char(c: char) -> bool {
    48 <= c as u32 <= 57
}

/// Every character is a decimal digit.
pub open spec fn all_digits(s: Seq<char>) -> bool {
    forall|k: int| 0 <= k < s.len() ==> is_digit_char(#[trigger] s[k])
}

/// The value a digit string denotes.
pub open spec fn dec_val(s: Seq<char>) -> int
    decreases s.len(),
{
    if s.len() == 0 {
        0
    } else {
        dec_val(s.drop_last()) * 10 + (s.last() as u32 - 48)
    }
}

/// The button index a binding string names: defined exactly for nonempty
/// all-digit strings whose value fits a byte.
pub open spec fn spec_parse_index(s: Seq<char>) -> Option<u8> {
    if s.len() > 0 && all_digits(s) && dec_val(s) < 256 {
        Option::Some(dec_val(s) as u8)
    } else {
        Option::None
    }
}

proof fn lemma_dec_val_nonneg(s: Seq<char>)
    requires
        all_digits(s),
    ensures
        dec_val(s) >= 0,
    decreases s.len(),
{
    if s.len() > 0 {
        assert(is_digit_char(s[s.len() - 1]));
        assert(all_digits(s.drop_last())) by {
            assert(forall|k: int|
                0 <= k < s.drop_last().len() ==> #[trigger] s.drop_last()[k] == s[k]);
        }
        lemma_dec_val_nonneg(s.drop_last());
    }
}

proof fn lemma_dec_val_prefix_le(s: Seq<char>, m: int)
    requires
        all_digits(s),
        0 <= m <= s.len(),
    ensures
        dec_val(s.subrange(0, m)) <= dec_val(s),
    decreases s.len() - m,
{
    if m == s.len() {
        assert(s.subrange(0, m) =~= s);
    } else {
        let p = s.subrange(0, m);
        let q = s.subrange(0, m + 1);
        assert(q.drop_last() =~= p);
        assert(is_digit_char(s[m]));
        assert(all_digits(p)) by {
            assert(forall|k: int| 0 <= k < p.len() ==> #[trigger] p[k] == s[k]);
        }
        lemma_dec_val_nonneg(p);
        assert(dec_val(q) == dec_val(p) * 10 + (s[m] as u32 - 48));
        assert(dec_val(p) <= dec_val(q));
        lemma_dec_val_prefix_le(s, m + 1);
    }
}

/// Parse a button-index binding. Returns the index exactly for nonempty
/// all-digit strings with a value below 256; anything else reads as "no
/// such button".
pub fn parse_index(s: &str) -> (r: Option<u8>)
    ensures
        r == spec_parse_index(s@),
{
    let n = s.unicode_len();
    if n == 0 {
        return None;
    }
    let mut acc: u32 = 0;
    let mut k: usize = 0;
    while k < n
        invariant
            0 < n == s@.len(),
            k <= n,
            acc == dec_val(s@.subrange(0, k as int)),
            acc <= 255,
            all_digits(s@.subrange(0, k as int)),
        decreases n - k,
    {
        let c = s.get_char(k);
        let code = c as u32;
        if code < 48 || code > 57 {
            proof {
                assert(!is_digit_char(s@[k as int]));
                assert(!all_digits(s@));
            }
            return None;
        }
        let d = code - 48;
        let next = acc * 10 + d;
        proof {
            let p = s@.subrange(0, k as int);
            let q = s@.subrange(0, k + 1 as int);
            assert(q.drop_last() =~= p);
            assert(dec_val(q) == dec_val(p) * 10 + (s@[k as int] as u32 - 48));
            assert(all_digits(q)) by {
                assert(forall|j: int| 0 <= j < q.len() ==> q[j] == s@[j]);
            }
        }
        if next > 255 {
            proof {
                let q = s@.subrange(0, k + 1 as int);
                if all_digits(s@) {
                    lemma_dec_val_prefix_le(s@, k + 1);
                    assert(dec_val(s@) >= dec_val(q));
                    assert(dec_val(s@) >= 256);
                }
            }
            return None;
        }
        acc = next;
        k = k + 1;
    }
    proof {
        assert(s@.subrange(0, n as int) =~= s@);
    }
    Some(acc as u8)
}

// ---------------------------------------------------------------------------
// From a polled device state to the gamepad half of the command vector.
// ---------------------------------------------------------------------------

/// What the platform layer polled off the device this tick: per-axis milli
/// deflections and per-button pressed states, indexed as the device numbers
/// them.
#[derive(Clone, Debug)]
pub struct GamepadReading {
    pub axes: Vec<i32>,
    pub buttons: Vec<bool>,
}

/// Device axis numbering: left stick is axes 1 and 2, right stick 4 and 5,
/// directional pad 7 and 8.
pub open spec fn source_x_index(src: ControlSource) -> int {
    match src {
        ControlSource::LeftStick => 1,
        ControlSource::RightStick => 4,
        ControlSource::DPad => 7,
        ControlSource::FaceButtons => 0,
    }
}

/// The vertical partner of [`source_x_index`].
pub open spec fn source_y_index(src: ControlSource) -> int {
    match src {
        ControlSource::LeftStick => 2,
        ControlSource::RightStick => 5,
        ControlSource::DPad => 8,
        ControlSource::FaceButtons => 0,
    }
}

/// An analog axis read: missing axes read neutral, everything else is
/// clamped and passed through the dead zone.
pub open spec fn axis_read_spec(axes: Seq<i32>, idx: int) -> int {
    if 0 <= idx < axes.len() {
        dead_zone_spec(clamp_axis_spec(axes[idx] as int))
    } else {
        0
    }
}

/// A button read: out-of-range indices read released.
pub open spec fn button_read_spec(buttons: Seq<bool>, idx: Option<u8>) -> bool {
    match idx {
        Option::Some(i) => 0 <= i < buttons.len() && buttons[i as int],
        Option::None => false,
    }
}

/// An axis driven by an opposing button pair named by two index bindings.
pub open spec fn button_axis_spec(buttons: Seq<bool>, pos: Seq<char>, neg: Seq<char>) -> int {
    key_pair_spec(
        button_read_spec(buttons, spec_parse_index(pos)),
        button_read_spec(buttons, spec_parse_index(neg)),
    )
}

fn axis_read(axes: &Vec<i32>, idx: usize) -> (r: i32)
    ensures
        r as int == axis_read_spec(axes@, idx as int),
        axis_in_range(r as int),
{
    if idx < axes.len() {
        apply_dead_zone(clamp_axis(axes[idx]))
    } else {
        0
    }
}

fn button_read(buttons: &Vec<bool>, binding: &str) -> (r: bool)
    ensures
        r == button_read_spec(buttons@, spec_parse_index(binding@)),
{
    match parse_index(binding) {
        Some(i) => (i as usize) < buttons.len() && buttons[i as usize],
        None => false,
    }
}

/// The stick (or pad) a control source maps to, as an (x, y) pair of milli
/// deflections; the face-button source reads both from buttons 2/5 (east
/// and west) and 4/1 (north and south).
pub open spec fn source_pair_spec(src: ControlSource, axes: Seq<i32>, buttons: Seq<bool>) -> (
    int,
    int,
) {
    match src {
        ControlSource::FaceButtons => (
            key_pair_spec(
                2 < buttons.len() && buttons[2],
                5 < buttons.len() && buttons[5],
            ),
            key_pair_spec(
                4 < buttons.len() && buttons[4],
                1 < buttons.len() && buttons[1],
            ),
        ),
        _ => (
            axis_read_spec(axes, source_x_index(src)),
            axis_read_spec(axes, source_y_index(src)),
        ),
    }
}

fn source_pair(src: &ControlSource, reading: &GamepadReading) -> (r: (i32, i32))
    ensures
        r.0 as int == source_pair_spec(*src, reading.axes@, reading.buttons@).0,
        r.1 as int == source_pair_spec(*src, reading.axes@, reading.buttons@).1,
        axis_in_range(r.0 as int),
        axis_in_range(r.1 as int),
{
    match src {
        ControlSource::FaceButtons => {
            let east = 2 < reading.buttons.len() && reading.buttons[2];
            let west = 5 < reading.buttons.len() && reading.buttons[5];
            let north = 4 < reading.buttons.len() && reading.buttons[4];
            let south = 1 < reading.buttons.len() && reading.buttons[1];
            (process_key_pair(east, west), process_key_pair(north, south))
        },
        ControlSource::LeftStick => (axis_read(&reading.axes, 1), axis_read(&reading.axes, 2)),
        ControlSource::RightStick => (axis_read(&reading.axes, 4), axis_read(&reading.axes, 5)),
        ControlSource::DPad => (axis_read(&reading.axes, 7), axis_read(&reading.axes, 8)),
    }
}

/// The gamepad half of this tick's command: sticks drive surge/sway and
/// pitch/yaw as the bindings say, button pairs drive heave and roll. Every
/// axis is in range.
pub fn gamepad_axes(bindings: &GamepadBindings, reading: &GamepadReading) -> (cv: CommandVector)
    ensures
        cv.sway as int == source_pair_spec(bindings.surge_sway, reading.axes@, reading.buttons@).0,
        cv.surge as int == source_pair_spec(bindings.surge_sway, reading.axes@, reading.buttons@).1,
        cv.yaw as int == source_pair_spec(bindings.pitch_yaw, reading.axes@, reading.buttons@).0,
        cv.pitch as int == source_pair_spec(bindings.pitch_yaw, reading.axes@, reading.buttons@).1,
        cv.heave as int == button_axis_spec(reading.buttons@, bindings.heave_up@,
            bindings.heave_down@),
        cv.roll as int == button_axis_spec(reading.buttons@, bindings.roll_right@,
            bindings.roll_left@),
        cv.in_range(),
{
    let (sway, surge) = source_pair(&bindings.surge_sway, reading);
    let (yaw, pitch) = source_pair(&bindings.pitch_yaw, reading);
    let heave_up = button_read(&reading.buttons, bindings.heave_up.as_str());
    let heave_down = button_read(&reading.buttons, bindings.heave_down.as_str());
    let roll_right = button_read(&reading.buttons, bindings.roll_right.as_str());
    let roll_left = button_read(&reading.buttons, bindings.roll_left.as_str());
    CommandVector {
        surge,
        sway,
        heave: process_key_pair(heave_up, heave_down),
        pitch,
        yaw,
        roll: process_key_pair(roll_right, roll_left),
    }
}

} // verus!
