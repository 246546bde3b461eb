use rovlink::axes::AXIS_UNIT;
use rovlink::config::{Config, ControlSource, GamepadBindings};
use rovlink::gamepad::{
    gamepad_axes, gamepad_snapshot, parse_index, GamepadEventType, GamepadReading,
};
use rovlink::keys::{key_code_of, KeyCode};
use rovlink::models::{LogType, Settings, States};
use rovlink::recording::recording_file_name;
use rovlink::updater::{should_check_for_updates, update_progress_percent};

#[test]
fn key_codes_resolve_and_unknown_strings_do_not() {
    assert_eq!(key_code_of("KeyW"), Some(KeyCode::KeyW));
    assert_eq!(key_code_of("Space"), Some(KeyCode::Space));
    assert_eq!(key_code_of("ShiftLeft"), Some(KeyCode::ShiftLeft));
    assert_eq!(key_code_of("Numpad0"), Some(KeyCode::Numpad0));
    assert_eq!(key_code_of("ArrowUp"), Some(KeyCode::ArrowUp));
    assert_eq!(key_code_of("NoSuchKey"), None);
    assert_eq!(key_code_of(""), None);
    assert_eq!(key_code_of("keyw"), None); // case matters
}

#[test]
fn button_index_bindings_parse_exactly() {
    assert_eq!(parse_index("0"), Some(0));
    assert_eq!(parse_index("7"), Some(7));
    assert_eq!(parse_index("12"), Some(12));
    assert_eq!(parse_index("255"), Some(255));
    assert_eq!(parse_index("256"), None);
    assert_eq!(parse_index("9999"), None);
    assert_eq!(parse_index(""), None);
    assert_eq!(parse_index("1a"), None);
    assert_eq!(parse_index("-1"), None);
}

fn reading_with(axes: Vec<i32>, buttons: Vec<bool>) -> GamepadReading {
    GamepadReading { axes, buttons }
}

#[test]
fn sticks_drive_the_bound_axes_with_dead_zone() {
    let bindings = GamepadBindings::default(); // left stick + right stick
    // Device axes: index 1 = left x, 2 = left y, 4 = right x, 5 = right y.
    let mut axes = vec![0i32; 9];
    axes[1] = 30; // below the dead zone: reads neutral
    axes[2] = 700;
    axes[4] = -49; // below the dead zone
    axes[5] = -800;
    let reading = reading_with(axes, vec![false; 16]);
    let cv = gamepad_axes(&bindings, &reading);
    assert_eq!(cv.sway, 0);
    assert_eq!(cv.surge, 700);
    assert_eq!(cv.yaw, 0);
    assert_eq!(cv.pitch, -800);
    assert_eq!(cv.heave, 0);
    assert_eq!(cv.roll, 0);
}

#[test]
fn out_of_range_device_values_are_clamped() {
    let bindings = GamepadBindings::default();
    let mut axes = vec![0i32; 9];
    axes[1] = 250_000;
    axes[2] = -250_000;
    let reading = reading_with(axes, vec![false; 16]);
    let cv = gamepad_axes(&bindings, &reading);
    assert_eq!(cv.sway, AXIS_UNIT);
    assert_eq!(cv.surge, -AXIS_UNIT);
}

#[test]
fn button_pairs_drive_heave_and_roll() {
    let bindings = GamepadBindings::default(); // heave up 7, down 6; roll right 5, left 4
    let mut buttons = vec![false; 16];
    buttons[7] = true;
    buttons[4] = true;
    let reading = reading_with(vec![0; 9], buttons);
    let cv = gamepad_axes(&bindings, &reading);
    assert_eq!(cv.heave, AXIS_UNIT);
    assert_eq!(cv.roll, -AXIS_UNIT);
}

#[test]
fn missing_device_entries_read_neutral() {
    let bindings = GamepadBindings::default();
    let reading = reading_with(Vec::new(), Vec::new());
    let cv = gamepad_axes(&bindings, &reading);
    assert_eq!((cv.surge, cv.sway, cv.heave, cv.pitch, cv.yaw, cv.roll), (0, 0, 0, 0, 0, 0));
}

#[test]
fn face_buttons_can_drive_a_stick_pair() {
    let mut bindings = GamepadBindings::default();
    bindings.surge_sway = ControlSource::FaceButtons;
    let mut buttons = vec![false; 16];
    buttons[4] = true; // north: forward
    let reading = reading_with(vec![0; 9], buttons);
    let cv = gamepad_axes(&bindings, &reading);
    assert_eq!(cv.surge, AXIS_UNIT);
    assert_eq!(cv.sway, 0);
}

#[test]
fn snapshot_formats_identity_as_hyphenated_hex() {
    let bytes = [0u8; 16];
    let g = gamepad_snapshot(
        0,
        &bytes,
        true,
        false,
        GamepadEventType::Connected,
        123,
        String::from("pad"),
        vec![],
        vec![],
        String::from("standard"),
        String::from("Unknown"),
    );
    assert_eq!(g.uuid, "00000000-0000-0000-0000-000000000000");

    let bytes2 = [
        0x01, 0x23, 0x45, 0x67, 0x89, 0xAB, 0xCD, 0xEF, 0x10, 0x32, 0x54, 0x76, 0x98, 0xBA,
        0xDC, 0xFE,
    ];
    let g2 = gamepad_snapshot(
        1,
        &bytes2,
        true,
        true,
        GamepadEventType::AxisChanged,
        456,
        String::from("pad2"),
        vec![1000],
        vec![-1000],
        String::new(),
        String::new(),
    );
    assert_eq!(g2.uuid, "01234567-89ab-cdef-1032-547698badcfe");
    assert_eq!(g2.timestamp, 456);
    assert_eq!(g2.buttons, vec![1000]);
    assert_eq!(g2.axes, vec![-1000]);
}

#[test]
fn recordings_are_named_after_their_utc_time() {
    assert_eq!(recording_file_name(0), "Recording_1970-01-01_00-00-00.mp4");
    // 2024-05-06 07:08:09 UTC
    assert_eq!(recording_file_name(1_714_979_289), "Recording_2024-05-06_07-08-09.mp4");
}

#[test]
fn update_check_follows_the_config_switch() {
    let mut cfg = Config::default();
    assert!(!should_check_for_updates(&cfg));
    cfg.auto_update = true;
    assert!(should_check_for_updates(&cfg));
}

#[test]
fn progress_percentages_round_to_nearest() {
    assert_eq!(update_progress_percent(0, 100), 0);
    assert_eq!(update_progress_percent(50, 100), 50);
    assert_eq!(update_progress_percent(100, 100), 100);
    assert_eq!(update_progress_percent(1, 3), 33);
    assert_eq!(update_progress_percent(2, 3), 67);
    assert_eq!(update_progress_percent(1, 200), 1); // 0.5% rounds up
}

#[test]
fn config_defaults_are_the_documented_ones() {
    let c = Config::default();
    assert_eq!(c.ip_address, "10.10.10.10");
    assert_eq!(c.web_socket_port, 9000);
    assert_eq!(c.webrtc_signaling_api_port, 1984);
    assert_eq!(c.webrtc_signaling_api_path, "/api/webrtc?src=cam");
    assert!(!c.auto_update);
    assert!(!c.info_logging);
    assert_eq!(c.keyboard.surge_forward, "KeyW");
    assert_eq!(c.keyboard.heave_down, "ShiftLeft");
    assert_eq!(c.gamepad.heave_up, "7");
    assert!(matches!(c.gamepad.surge_sway, ControlSource::LeftStick));
    assert!(matches!(c.gamepad.pitch_yaw, ControlSource::RightStick));
}

#[test]
fn station_state_defaults() {
    let s = Settings::default();
    assert!(s.pitch_stabilization && s.roll_stabilization && s.depth_stabilization);
    let st = States::default();
    assert!(st.recording_start_time.is_none());
    let d = rovlink::models::Debug::new(LogType::Error, String::from("boom"));
    assert!(matches!(d.log_type, LogType::Error));
    assert_eq!(d.message, "boom");
}
