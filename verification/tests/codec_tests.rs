use rovlink::axes::CommandVector;
use rovlink::codec::{decode, encode, DecodeError};
use rovlink::messages::{
    FluidType, LogEntry, LogLevel, LogOrigin, MicroControllerFirmwareVariant, RovStatus,
    SystemHealth, ThrusterPinSetup, TypedMessage, VehicleConfig,
};
use rovlink::toast::{Toast, ToastCancel, ToastType};

fn sample_status() -> RovStatus {
    RovStatus {
        pitch_stabilization: true,
        roll_stabilization: false,
        depth_hold: true,
        battery_percentage: 87,
        health: SystemHealth {
            imu_ok: true,
            pressure_sensor_ok: false,
            microcontroller_ok: true,
        },
    }
}

fn sample_config() -> VehicleConfig {
    VehicleConfig {
        firmware_variant: MicroControllerFirmwareVariant::Dshot300,
        fluid_type: FluidType::Freshwater,
        thruster_pins: ThrusterPinSetup {
            identifiers: vec![1, 2, 3, 4, 5, 6, 7, 8],
            spin_directions: vec![1, -1, 1, -1, 1, -1, 1, -1],
        },
    }
}

#[test]
fn ping_frame_layout_is_tag_and_little_endian_timestamp() {
    let frame = encode(&TypedMessage::Ping(0x0102_0304_0506_0708));
    assert_eq!(
        frame,
        vec![2u8, 0x08, 0x07, 0x06, 0x05, 0x04, 0x03, 0x02, 0x01]
    );
}

#[test]
fn command_round_trip() {
    let cv = CommandVector { surge: 1000, sway: -1000, heave: 0, pitch: 1, yaw: -1, roll: 999 };
    let frame = encode(&TypedMessage::Command(cv));
    match decode(&frame) {
        Ok(TypedMessage::Command(got)) => assert_eq!(got, cv),
        other => panic!("unexpected decode result: {:?}", other),
    }
}

#[test]
fn ping_pong_round_trip() {
    for ts in [0u64, 1, u64::MAX] {
        match decode(&encode(&TypedMessage::Ping(ts))) {
            Ok(TypedMessage::Ping(got)) => assert_eq!(got, ts),
            other => panic!("unexpected decode result: {:?}", other),
        }
        match decode(&encode(&TypedMessage::Pong(ts))) {
            Ok(TypedMessage::Pong(got)) => assert_eq!(got, ts),
            other => panic!("unexpected decode result: {:?}", other),
        }
    }
}

#[test]
fn status_round_trip() {
    let st = sample_status();
    match decode(&encode(&TypedMessage::StatusUpdate(st))) {
        Ok(TypedMessage::StatusUpdate(got)) => assert_eq!(got, st),
        other => panic!("unexpected decode result: {:?}", other),
    }
}

#[test]
fn config_get_and_set_round_trip() {
    match decode(&encode(&TypedMessage::ConfigGet)) {
        Ok(TypedMessage::ConfigGet) => {},
        other => panic!("unexpected decode result: {:?}", other),
    }
    let cfg = sample_config();
    match decode(&encode(&TypedMessage::ConfigSet(cfg.clone()))) {
        Ok(TypedMessage::ConfigSet(got)) => {
            assert_eq!(got.thruster_pins.identifiers, cfg.thruster_pins.identifiers);
            assert_eq!(got.thruster_pins.spin_directions, cfg.thruster_pins.spin_directions);
            assert!(matches!(got.firmware_variant, MicroControllerFirmwareVariant::Dshot300));
            assert!(matches!(got.fluid_type, FluidType::Freshwater));
        },
        other => panic!("unexpected decode result: {:?}", other),
    }
    match decode(&encode(&TypedMessage::ConfigResponse(cfg))) {
        Ok(TypedMessage::ConfigResponse(_)) => {},
        other => panic!("unexpected decode result: {:?}", other),
    }
}

#[test]
fn notification_round_trip_keeps_unicode_text() {
    let toast = Toast {
        id: Some(String::from("update-progress")),
        toast_type: Some(ToastType::Warn),
        message: String::from("dépth ålarm \u{1F41F}"),
        description: None,
        cancel: Some(ToastCancel::CancelThrusterTest(5)),
    };
    let frame = encode(&TypedMessage::Notification(toast));
    match decode(&frame) {
        Ok(TypedMessage::Notification(got)) => {
            assert_eq!(got.id.as_deref(), Some("update-progress"));
            assert!(matches!(got.toast_type, Some(ToastType::Warn)));
            assert_eq!(got.message, "dépth ålarm \u{1F41F}");
            assert!(got.description.is_none());
            assert!(matches!(got.cancel, Some(ToastCancel::CancelThrusterTest(5))));
        },
        other => panic!("unexpected decode result: {:?}", other),
    }
}

#[test]
fn log_round_trip() {
    let entry = LogEntry {
        level: LogLevel::Error,
        origin: LogOrigin::Firmware,
        message: String::from("pressure sensor fault"),
    };
    match decode(&encode(&TypedMessage::LogMessage(entry))) {
        Ok(TypedMessage::LogMessage(got)) => {
            assert!(matches!(got.level, LogLevel::Error));
            assert!(matches!(got.origin, LogOrigin::Firmware));
            assert_eq!(got.message, "pressure sensor fault");
        },
        other => panic!("unexpected decode result: {:?}", other),
    }
}

#[test]
fn empty_frame_is_rejected_as_empty() {
    assert!(matches!(decode(&[]), Err(DecodeError::EmptyFrame)));
}

#[test]
fn unknown_tags_are_rejected_gracefully() {
    assert!(matches!(decode(&[0u8]), Err(DecodeError::UnknownTag)));
    assert!(matches!(decode(&[10u8, 1, 2, 3]), Err(DecodeError::UnknownTag)));
    assert!(matches!(decode(&[255u8]), Err(DecodeError::UnknownTag)));
}

#[test]
fn truncated_payload_is_malformed() {
    // A ping frame cut short.
    assert!(matches!(decode(&[2u8, 1, 2, 3]), Err(DecodeError::Malformed)));
    // An axis value beyond full deflection.
    let mut frame = encode(&TypedMessage::Command(CommandVector {
        surge: 0,
        sway: 0,
        heave: 0,
        pitch: 0,
        yaw: 0,
        roll: 0,
    }));
    frame[1] = 0xFF;
    frame[2] = 0xFF;
    assert!(matches!(decode(&frame), Err(DecodeError::Malformed)));
    // A bool byte that is neither 0 nor 1.
    let mut status = encode(&TypedMessage::StatusUpdate(sample_status()));
    status[1] = 7;
    assert!(matches!(decode(&status), Err(DecodeError::Malformed)));
}

#[test]
fn trailing_bytes_are_rejected() {
    let mut frame = encode(&TypedMessage::Ping(42));
    frame.push(0);
    assert!(matches!(decode(&frame), Err(DecodeError::TrailingBytes)));
}

#[test]
fn surrogate_code_points_in_text_are_malformed() {
    // A notification whose single message character claims the surrogate
    // code point 0xD800, which is no Unicode scalar.
    let mut frame: Vec<u8> = vec![8u8];
    frame.push(0); // no id
    frame.push(0); // no severity
    frame.extend_from_slice(&[1, 0, 0, 0]); // one character
    frame.extend_from_slice(&[0x00, 0xD8, 0x00, 0x00]);
    frame.push(0); // no description
    frame.push(0); // no cancel action
    assert!(matches!(decode(&frame), Err(DecodeError::Malformed)));
}
