use bloom_scene::bloom::{BloomCompositeMode, BloomSettings, UNIT};
use bloom_scene::controller::{
    apply_key, update_bloom_settings, CameraState, Key, KeyEvent, OverlayStatus, FOV_MAX, FOV_STEP,
    INITIAL_FOV,
};

fn press(key: Key) -> KeyEvent {
    KeyEvent { key, pressed: true }
}

fn enabled_camera() -> CameraState {
    CameraState { fov: INITIAL_FOV, bloom: Some(BloomSettings::natural()) }
}

// One second per frame: each continuous press then moves its parameter by a
// tenth of a unit, 100_000 in fixed point.
const DT: u32 = 1_000_000;
const STEP: u32 = 100_000;

#[test]
fn natural_preset_values() {
    let b = BloomSettings::natural();
    assert_eq!(b.intensity, 150_000);
    assert_eq!(b.low_frequency_boost, 700_000);
    assert_eq!(b.low_frequency_boost_curvature, 950_000);
    assert_eq!(b.high_pass_frequency, 1_000_000);
    assert_eq!(b.composite_mode, BloomCompositeMode::EnergyConserving);
    assert_eq!(b.threshold, 0);
    assert_eq!(b.threshold_softness, 0);
}

#[test]
fn intensity_moves_by_a_tenth_of_dt() {
    let mut cam = enabled_camera();
    let status = update_bloom_settings(&mut cam, &vec![press(Key::KeyP)], false, DT);
    let b = cam.bloom.unwrap();
    assert_eq!(b.intensity, 150_000 + STEP);
    assert_eq!(cam.fov, INITIAL_FOV);
    assert_eq!(status, OverlayStatus::BloomControls { bloom: b, fov: INITIAL_FOV });
}

#[test]
fn intensity_clamps_at_zero() {
    let mut cam = enabled_camera();
    cam.bloom.as_mut().unwrap().intensity = 0;
    update_bloom_settings(&mut cam, &vec![press(Key::Semicolon)], false, DT);
    assert_eq!(cam.bloom.unwrap().intensity, 0);
}

#[test]
fn intensity_clamps_at_one() {
    let mut cam = enabled_camera();
    cam.bloom.as_mut().unwrap().intensity = UNIT;
    update_bloom_settings(&mut cam, &vec![press(Key::KeyP)], false, DT);
    assert_eq!(cam.bloom.unwrap().intensity, UNIT);
}

#[test]
fn boost_is_unclamped_and_can_go_negative() {
    let mut cam = enabled_camera();
    // Ten seconds of frame time: one whole unit per press.
    update_bloom_settings(&mut cam, &vec![press(Key::KeyL)], false, 10_000_000);
    assert_eq!(cam.bloom.unwrap().low_frequency_boost, 700_000 - 1_000_000);
}

#[test]
fn curvature_clamps_at_one() {
    let mut cam = enabled_camera();
    // 950_000 + 100_000 would overshoot the unit range.
    update_bloom_settings(&mut cam, &vec![press(Key::KeyI)], false, DT);
    assert_eq!(cam.bloom.unwrap().low_frequency_boost_curvature, UNIT);
}

#[test]
fn curvature_lowers_exactly() {
    let mut cam = enabled_camera();
    update_bloom_settings(&mut cam, &vec![press(Key::KeyK)], false, DT);
    assert_eq!(cam.bloom.unwrap().low_frequency_boost_curvature, 950_000 - STEP);
}

#[test]
fn high_pass_clamps_at_one() {
    let mut cam = enabled_camera();
    update_bloom_settings(&mut cam, &vec![press(Key::KeyU)], false, DT);
    assert_eq!(cam.bloom.unwrap().high_pass_frequency, UNIT);
}

#[test]
fn high_pass_lowers_exactly() {
    let mut cam = enabled_camera();
    update_bloom_settings(&mut cam, &vec![press(Key::KeyJ)], false, DT);
    assert_eq!(cam.bloom.unwrap().high_pass_frequency, UNIT - STEP);
}

#[test]
fn composite_mode_switches_immediately() {
    let mut cam = enabled_camera();
    update_bloom_settings(&mut cam, &vec![press(Key::KeyY)], false, DT);
    assert_eq!(cam.bloom.unwrap().composite_mode, BloomCompositeMode::Additive);
    update_bloom_settings(&mut cam, &vec![press(Key::KeyH)], false, DT);
    assert_eq!(cam.bloom.unwrap().composite_mode, BloomCompositeMode::EnergyConserving);
}

#[test]
fn threshold_raises_and_floors_at_zero() {
    let mut cam = enabled_camera();
    update_bloom_settings(&mut cam, &vec![press(Key::KeyT)], false, DT);
    assert_eq!(cam.bloom.unwrap().threshold, STEP as u64);
    update_bloom_settings(&mut cam, &vec![press(Key::KeyG), press(Key::KeyG)], false, DT);
    assert_eq!(cam.bloom.unwrap().threshold, 0);
}

#[test]
fn softness_raises_and_clamps() {
    let mut cam = enabled_camera();
    update_bloom_settings(&mut cam, &vec![press(Key::KeyR)], false, DT);
    assert_eq!(cam.bloom.unwrap().threshold_softness, STEP);
    update_bloom_settings(&mut cam, &vec![press(Key::KeyF), press(Key::KeyF)], false, DT);
    assert_eq!(cam.bloom.unwrap().threshold_softness, 0);
}

#[test]
fn fov_moves_by_fixed_step() {
    let mut cam = enabled_camera();
    update_bloom_settings(&mut cam, &vec![press(Key::BracketLeft)], false, DT);
    assert_eq!(cam.fov, INITIAL_FOV + FOV_STEP);
    update_bloom_settings(&mut cam, &vec![press(Key::BracketRight)], false, DT);
    assert_eq!(cam.fov, INITIAL_FOV);
}

#[test]
fn fov_clamps_at_both_ends() {
    let mut cam = enabled_camera();
    cam.fov = FOV_MAX - 1_000_000;
    update_bloom_settings(&mut cam, &vec![press(Key::BracketLeft)], false, DT);
    assert_eq!(cam.fov, FOV_MAX);
    cam.fov = 1_000_000;
    update_bloom_settings(&mut cam, &vec![press(Key::BracketRight)], false, DT);
    assert_eq!(cam.fov, 0);
    update_bloom_settings(&mut cam, &vec![press(Key::BracketRight)], false, DT);
    assert_eq!(cam.fov, 0);
}

#[test]
fn holding_fov_key_accumulates_until_the_clamp() {
    // Holding `[` delivers one press event per repeat; each adds the fixed
    // step until the field of view saturates at 180 degrees.
    let mut cam = enabled_camera();
    for _ in 0..10 {
        update_bloom_settings(&mut cam, &vec![press(Key::BracketLeft)], false, DT);
    }
    assert_eq!(cam.fov, INITIAL_FOV + 10 * FOV_STEP);
    for _ in 0..60 {
        update_bloom_settings(&mut cam, &vec![press(Key::BracketLeft)], false, DT);
    }
    assert_eq!(cam.fov, FOV_MAX);
}

#[test]
fn space_disables_bloom_within_the_frame() {
    let mut cam = enabled_camera();
    let status = update_bloom_settings(&mut cam, &vec![press(Key::Space)], false, DT);
    assert!(cam.bloom.is_none());
    assert_eq!(status, OverlayStatus::ToggleHint);
}

#[test]
fn space_reenables_bloom_with_the_natural_preset() {
    let mut cam = CameraState { fov: INITIAL_FOV, bloom: None };
    let status = update_bloom_settings(&mut cam, &vec![], true, DT);
    assert_eq!(cam.bloom, Some(BloomSettings::natural()));
    assert_eq!(
        status,
        OverlayStatus::BloomControls { bloom: BloomSettings::natural(), fov: INITIAL_FOV }
    );
}

#[test]
fn disabled_state_ignores_other_keys() {
    let mut cam = CameraState { fov: INITIAL_FOV, bloom: None };
    let status = update_bloom_settings(
        &mut cam,
        &vec![press(Key::KeyP), press(Key::BracketLeft)],
        false,
        DT,
    );
    assert!(cam.bloom.is_none());
    assert_eq!(cam.fov, INITIAL_FOV);
    assert_eq!(status, OverlayStatus::ToggleHint);
}

#[test]
fn releases_are_ignored() {
    let mut cam = enabled_camera();
    let before = cam;
    update_bloom_settings(
        &mut cam,
        &vec![KeyEvent { key: Key::KeyP, pressed: false }],
        false,
        DT,
    );
    assert_eq!(cam, before);
}

#[test]
fn no_toggle_means_no_state_change() {
    let mut enabled = enabled_camera();
    let mut disabled = CameraState { fov: INITIAL_FOV, bloom: None };
    for _ in 0..100 {
        update_bloom_settings(&mut enabled, &vec![], false, 16_000);
        update_bloom_settings(&mut disabled, &vec![], false, 16_000);
        assert!(enabled.bloom.is_some());
        assert!(disabled.bloom.is_none());
    }
    assert_eq!(enabled, enabled_camera());
}

#[test]
fn events_apply_in_delivery_order() {
    let mut cam = enabled_camera();
    cam.bloom.as_mut().unwrap().intensity = 0;
    // Two raises then one lower: 0 -> 100_000 -> 200_000 -> 100_000.
    update_bloom_settings(
        &mut cam,
        &vec![press(Key::KeyP), press(Key::KeyP), press(Key::Semicolon)],
        false,
        DT,
    );
    assert_eq!(cam.bloom.unwrap().intensity, STEP);
}

#[test]
fn adjustments_before_the_toggle_still_apply_elsewhere() {
    // A press delivered before the toggle in the same frame still moves the
    // field of view, even though the parameter set ends the frame detached.
    let mut cam = enabled_camera();
    let status = update_bloom_settings(
        &mut cam,
        &vec![press(Key::BracketLeft), press(Key::Space)],
        false,
        DT,
    );
    assert!(cam.bloom.is_none());
    assert_eq!(cam.fov, INITIAL_FOV + FOV_STEP);
    assert_eq!(status, OverlayStatus::ToggleHint);
}

#[test]
fn apply_key_leaves_other_fields_alone() {
    let b = BloomSettings::natural();
    let (b2, fov2) = apply_key(b, INITIAL_FOV, Key::KeyP, DT);
    assert_eq!(fov2, INITIAL_FOV);
    assert_eq!(b2.low_frequency_boost, b.low_frequency_boost);
    assert_eq!(b2.low_frequency_boost_curvature, b.low_frequency_boost_curvature);
    assert_eq!(b2.high_pass_frequency, b.high_pass_frequency);
    assert_eq!(b2.composite_mode, b.composite_mode);
    assert_eq!(b2.threshold, b.threshold);
    assert_eq!(b2.threshold_softness, b.threshold_softness);
}
