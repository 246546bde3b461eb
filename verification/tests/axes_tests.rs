use rovlink::axes::{apply_dead_zone, clamp_axis, merge_inputs, CommandVector, AXIS_UNIT, DEAD_ZONE};
use rovlink::keys::{keyboard_axes, process_key_pair, KeyStates};
use rovlink::sampler::InputSampler;
use rovlink::config::Config;

fn vec6(surge: i32, sway: i32, heave: i32, pitch: i32, yaw: i32, roll: i32) -> CommandVector {
    CommandVector { surge, sway, heave, pitch, yaw, roll }
}

#[test]
fn clamp_is_bounded_and_idempotent() {
    assert_eq!(clamp_axis(0), 0);
    assert_eq!(clamp_axis(AXIS_UNIT), AXIS_UNIT);
    assert_eq!(clamp_axis(-AXIS_UNIT), -AXIS_UNIT);
    assert_eq!(clamp_axis(AXIS_UNIT + 1), AXIS_UNIT);
    assert_eq!(clamp_axis(i32::MAX), AXIS_UNIT);
    assert_eq!(clamp_axis(i32::MIN), -AXIS_UNIT);
    for v in [-2000, -1000, -1, 0, 1, 999, 1000, 1001, 50000] {
        let once = clamp_axis(v);
        assert_eq!(clamp_axis(once), once);
        assert!(-AXIS_UNIT <= once && once <= AXIS_UNIT);
    }
}

#[test]
fn dead_zone_zeroes_noise_only() {
    assert_eq!(apply_dead_zone(0), 0);
    assert_eq!(apply_dead_zone(DEAD_ZONE - 1), 0);
    assert_eq!(apply_dead_zone(-(DEAD_ZONE - 1)), 0);
    assert_eq!(apply_dead_zone(DEAD_ZONE), DEAD_ZONE);
    assert_eq!(apply_dead_zone(-DEAD_ZONE), -DEAD_ZONE);
    assert_eq!(apply_dead_zone(400), 400);
}

#[test]
fn merge_saturates_and_commutes() {
    let a = vec6(800, -300, 1000, 0, 250, -1000);
    let b = vec6(500, -900, 1000, 0, -250, -100);
    let ab = merge_inputs(&a, &b);
    let ba = merge_inputs(&b, &a);
    assert_eq!(ab, ba);
    assert_eq!(ab.surge, 1000);
    assert_eq!(ab.sway, -1000);
    assert_eq!(ab.heave, 1000);
    assert_eq!(ab.pitch, 0);
    assert_eq!(ab.yaw, 0);
    assert_eq!(ab.roll, -1000);
}

#[test]
fn merged_axes_always_in_range() {
    let cases = [
        (vec6(1000, 1000, 1000, 1000, 1000, 1000), vec6(1000, 1000, 1000, 1000, 1000, 1000)),
        (vec6(-1000, -1000, -1000, -1000, -1000, -1000), vec6(-1000, 0, 0, 0, 0, -1000)),
        (vec6(1, -1, 2, -2, 3, -3), vec6(0, 0, 0, 0, 0, 0)),
    ];
    for (a, b) in cases {
        let m = merge_inputs(&a, &b);
        for v in [m.surge, m.sway, m.heave, m.pitch, m.yaw, m.roll] {
            assert!(-AXIS_UNIT <= v && v <= AXIS_UNIT);
        }
    }
}

#[test]
fn key_pairs_resolve_to_full_deflection() {
    assert_eq!(process_key_pair(true, false), AXIS_UNIT);
    assert_eq!(process_key_pair(false, true), -AXIS_UNIT);
    assert_eq!(process_key_pair(true, true), 0);
    assert_eq!(process_key_pair(false, false), 0);
}

#[test]
fn keyboard_axes_follow_key_states() {
    let mut st = KeyStates::default();
    st.surge_forward = true;
    st.sway_left = true;
    st.heave_up = true;
    st.heave_down = true;
    let cv = keyboard_axes(&st);
    assert_eq!(cv.surge, AXIS_UNIT);
    assert_eq!(cv.sway, -AXIS_UNIT);
    assert_eq!(cv.heave, 0);
    assert_eq!(cv.pitch, 0);
    assert_eq!(cv.yaw, 0);
    assert_eq!(cv.roll, 0);
}

#[test]
fn both_sources_full_forward_merge_to_full_scale() {
    // Keyboard and gamepad both drive the first axis at +1.0; the merged
    // command saturates at +1.0 instead of doubling.
    let sampler = InputSampler::new(Config::default());
    let keyboard = vec6(AXIS_UNIT, 0, 0, 0, 0, 0);
    let gamepad = vec6(AXIS_UNIT, 0, 0, 0, 0, 0);
    let merged = sampler.sample(&keyboard, &gamepad);
    assert_eq!(merged.surge, AXIS_UNIT);
    assert_eq!(merged.sway, 0);
}

#[test]
fn unfocused_sampler_emits_zero_vector() {
    let mut sampler = InputSampler::new(Config::default());
    sampler.set_focused(false);
    let keyboard = vec6(1000, -1000, 500, 500, 500, 500);
    let gamepad = vec6(1000, 1000, 1000, 1000, 1000, 1000);
    let cv = sampler.sample(&keyboard, &gamepad);
    assert_eq!(cv, vec6(0, 0, 0, 0, 0, 0));
}
