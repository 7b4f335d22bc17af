//! The per-frame parameter controller.
//!
//! Once per frame the controller reads the key events delivered that frame
//! and the frame's duration, and adjusts the camera's bloom parameters and
//! field of view. It is a two-state machine: while bloom is enabled, every
//! key-press event applies its bound adjustment, scaled by a tenth of the
//! frame time for the continuous parameters or by a fixed angular step for
//! the field of view, and the toggle key removes the parameter set; while
//! bloom is disabled, only an edge-triggered press of the toggle key is
//! honoured, reattaching the "natural" preset. The controller also reports
//! what the status overlay should show for the frame.
//!
//! Times are in microseconds, angles in millionths of a degree, and the
//! continuous parameters in millionths of a unit, as in [`crate::bloom`].

use crate::bloom::{BloomCompositeMode, BloomSettings, UNIT};
use vstd::prelude::*;

verus! {

/// The widest field of view, 180 degrees, in millionths of a degree.
pub const FOV_MAX: u32 = 180_000_000;

/// How far one field-of-view key press moves the angle: 2 degrees.
pub const FOV_STEP: u32 = 2_000_000;

/// The field of view the camera starts with: 75 degrees.
pub const INITIAL_FOV: u32 = 75_000_000;

/// The keys the controller is bound to. Each parameter has an increase key
/// and a decrease key; `Space` toggles bloom on and off.
#[derive(Clone, Copy, Debug, PartialEq, Eq, Structural)]
pub enum Key {
    /// `[`: widen the field of view.
    BracketLeft,
    /// `]`: narrow the field of view.
    BracketRight,
    /// P: raise the intensity.
    KeyP,
    /// `;`: lower the intensity.
    Semicolon,
    /// O: raise the low-frequency boost.
    KeyO,
    /// L: lower the low-frequency boost.
    KeyL,
    /// I: raise the low-frequency boost curvature.
    KeyI,
    /// K: lower the low-frequency boost curvature.
    KeyK,
    /// U: raise the high-pass frequency.
    KeyU,
    /// J: lower the high-pass frequency.
    KeyJ,
    /// Y: switch to additive compositing.
    KeyY,
    /// H: switch to energy-conserving compositing.
    KeyH,
    /// T: raise the threshold.
    KeyT,
    /// G: lower the threshold.
    KeyG,
    /// R: raise the threshold softness.
    KeyR,
    /// F: lower the threshold softness.
    KeyF,
    /// Space: toggle bloom.
    Space,
}

/// One keyboard event delivered during a frame.
#[derive(Clone, Copy, Debug, PartialEq, Eq, Structural)]
pub struct KeyEvent {
    /// The key the event is about.
    pub key: Key,
    /// True for a press, false for a release. Releases are ignored.
    pub pressed: bool,
}

/// The camera state the controller owns: the field of view, and the bloom
/// parameter set while bloom is enabled.
#[derive(Clone, Copy, Debug, PartialEq, Eq, Structural)]
pub struct CameraState {
    /// Field of view in millionths of a degree, kept within `[0, FOV_MAX]`.
    pub fov: u32,
    /// The bloom parameters; `None` while bloom is toggled off.
    pub bloom: Option<BloomSettings>,
}

impl CameraState {
    /// The field of view is in range and, if bloom is enabled, its
    /// parameters are in range too.
    pub open spec fn wf(self) -> bool {
        &&& self.fov <= FOV_MAX
        &&& match self.bloom {
            Some(b) => b.wf(),
            None => true,
        }
    }
}

/// What the status overlay shows for a frame.
#[derive(Clone, Copy, Debug, PartialEq, Eq, Structural)]
pub enum OverlayStatus {
    /// Bloom is enabled: the overlay lists every parameter value, the field
    /// of view, and the key bound to each.
    BloomControls {
        /// The bloom parameters to list.
        bloom: BloomSettings,
        /// The field of view to list, in millionths of a degree.
        fov: u32,
    },
    /// Bloom is disabled: the overlay shows only the toggle hint.
    ToggleHint,
}

/// How far one press moves a continuous parameter: a tenth of the frame
/// time, so a key held for a second moves the parameter by a tenth of a
/// unit. `dt` is in microseconds, the result in millionths of a unit.
pub open spec fn spec_step_amount(dt: u32) -> int {
    dt as int / 10
}

/// Clamps an adjusted parameter back into `[0, UNIT]`.
pub open spec fn clamp_to_unit(v: int) -> u32 {
    if v < 0 {
        0u32
    } else if v > UNIT {
        UNIT
    } else {
        v as u32
    }
}

/// Clamps an adjusted field of view back into `[0, FOV_MAX]`.
pub open spec fn clamp_to_fov(v: int) -> u32 {
    if v < 0 {
        0u32
    } else if v > FOV_MAX {
        FOV_MAX
    } else {
        v as u32
    }
}

/// Moves the unclamped low-frequency boost, saturating at the ends of its
/// machine range.
pub open spec fn saturate_boost(v: int) -> i64 {
    if v > i64::MAX {
        i64::MAX
    } else if v < i64::MIN {
        i64::MIN
    } else {
        v as i64
    }
}

/// Moves the threshold, which has no upper bound but never goes below zero.
pub open spec fn saturate_threshold(v: int) -> u64 {
    if v < 0 {
        0u64
    } else if v > u64::MAX {
        u64::MAX
    } else {
        v as u64
    }
}

/// The effect of one key press on the bloom parameters and the field of
/// view. Unbound releases never reach this function; the toggle key changes
/// neither value here, its effect is handled a frame step at a time in
/// [`spec_update`].
pub open spec fn spec_apply_key(b: BloomSettings, fov: u32, k: Key, dt: u32) -> (BloomSettings,
    u32) {
    let d = spec_step_amount(dt);
    match k {
        Key::BracketLeft => (b, clamp_to_fov(fov + FOV_STEP)),
        Key::BracketRight => (b, clamp_to_fov(fov - FOV_STEP)),
        Key::KeyP => (BloomSettings { intensity: clamp_to_unit(b.intensity + d), ..b }, fov),
        Key::Semicolon => (BloomSettings { intensity: clamp_to_unit(b.intensity - d), ..b }, fov),
        Key::KeyO => (
            BloomSettings { low_frequency_boost: saturate_boost(b.low_frequency_boost + d), ..b },
            fov,
        ),
        Key::KeyL => (
            BloomSettings { low_frequency_boost: saturate_boost(b.low_frequency_boost - d), ..b },
            fov,
        ),
        Key::KeyI => (
            BloomSettings {
                low_frequency_boost_curvature: clamp_to_unit(b.low_frequency_boost_curvature + d),
                ..b
            },
            fov,
        ),
        Key::KeyK => (
            BloomSettings {
                low_frequency_boost_curvature: clamp_to_unit(b.low_frequency_boost_curvature - d),
                ..b
            },
            fov,
        ),
        Key::KeyU => (
            BloomSettings { high_pass_frequency: clamp_to_unit(b.high_pass_frequency + d), ..b },
            fov,
        ),
        Key::KeyJ => (
            BloomSettings { high_pass_frequency: clamp_to_unit(b.high_pass_frequency - d), ..b },
            fov,
        ),
        Key::KeyY => (
            BloomSettings { composite_mode: BloomCompositeMode::Additive, ..b },
            fov,
        ),
        Key::KeyH => (
            BloomSettings { composite_mode: BloomCompositeMode::EnergyConserving, ..b },
            fov,
        ),
        Key::KeyT => (
            BloomSettings { threshold: saturate_threshold(b.threshold + d), ..b },
            fov,
        ),
        Key::KeyG => (
            BloomSettings { threshold: saturate_threshold(b.threshold - d), ..b },
            fov,
        ),
        Key::KeyR => (
            BloomSettings { threshold_softness: clamp_to_unit(b.threshold_softness + d), ..b },
            fov,
        ),
        Key::KeyF => (
            BloomSettings { threshold_softness: clamp_to_unit(b.threshold_softness - d), ..b },
            fov,
        ),
        Key::Space => (b, fov),
    }
}

/// The effect of a frame's event list on the bloom parameters and the field
/// of view: press events apply in delivery order, release events are
/// ignored.
pub open spec fn spec_apply_events(
    b: BloomSettings,
    fov: u32,
    evs: Seq<KeyEvent>,
    dt: u32,
) -> (BloomSettings, u32)
    decreases evs.len(),
{
    if evs.len() == 0 {
        (b, fov)
    } else {
        let prev = spec_apply_events(b, fov, evs.drop_last(), dt);
        if evs.last().pressed {
            spec_apply_key(prev.0, prev.1, evs.last().key, dt)
        } else {
            prev
        }
    }
}

/// Whether the toggle key was pressed somewhere in a frame's event list.
pub open spec fn spec_space_pressed(evs: Seq<KeyEvent>) -> bool {
    exists|i: int| 0 <= i < evs.len() && (#[trigger] evs[i]).pressed && evs[i].key == Key::Space
}

/// One frame of the controller. With bloom enabled, every press event
/// applies its adjustment, and a press of the toggle key detaches the
/// parameter set once the frame's events are done. With bloom disabled, the
/// events are not read: only an edge-triggered press of the toggle key acts,
/// reattaching the natural preset.
pub open spec fn spec_update(
    cam: CameraState,
    evs: Seq<KeyEvent>,
    space_just_pressed: bool,
    dt: u32,
) -> CameraState {
    match cam.bloom {
        Some(b) => {
            let after = spec_apply_events(b, cam.fov, evs, dt);
            CameraState {
                fov: after.1,
                bloom: if spec_space_pressed(evs) {
                    None
                } else {
                    Some(after.0)
                },
            }
        },
        None => CameraState {
            fov: cam.fov,
            bloom: if space_just_pressed {
                Some(BloomSettings::spec_natural())
            } else {
                None
            },
        },
    }
}

/// What the overlay shows for a camera state: the full parameter listing
/// while bloom is enabled, the toggle hint while it is disabled.
pub open spec fn spec_status(cam: CameraState) -> OverlayStatus {
    match cam.bloom {
        Some(b) => OverlayStatus::BloomControls { bloom: b, fov: cam.fov },
        None => OverlayStatus::ToggleHint,
    }
}

/// The input a single frame hands to the controller: the frame's key
/// events, whether the toggle key was newly pressed this frame, and the
/// frame's duration in microseconds.
pub struct FrameInput {
    /// The key events delivered during the frame, in delivery order.
    pub events: Seq<KeyEvent>,
    /// Whether the toggle key went down this frame (edge-triggered).
    pub space_just_pressed: bool,
    /// The frame's duration in microseconds.
    pub dt: u32,
}

/// The camera state after a whole sequence of frames, each run through
/// [`spec_update`] in order.
pub open spec fn spec_run(cam: CameraState, frames: Seq<FrameInput>) -> CameraState
    decreases frames.len(),
{
    if frames.len() == 0 {
        cam
    } else {
        spec_run(
            spec_update(cam, frames[0].events, frames[0].space_just_pressed, frames[0].dt),
            frames.skip(1),
        )
    }
}

/// One key press keeps the bounded parameters in range: the clamped bloom
/// parameters stay in `[0, UNIT]` and the field of view stays in
/// `[0, FOV_MAX]`.
pub proof fn lemma_apply_key_wf(b: BloomSettings, fov: u32, k: Key, dt: u32)
    requires
        b.wf(),
        fov <= FOV_MAX,
    ensures
        spec_apply_key(b, fov, k, dt).0.wf(),
        spec_apply_key(b, fov, k, dt).1 <= FOV_MAX,
{
}

/// Any sequence of press and release events keeps the bounded parameters in
/// range.
pub proof fn lemma_apply_events_wf(b: BloomSettings, fov: u32, evs: Seq<KeyEvent>, dt: u32)
    requires
        b.wf(),
        fov <= FOV_MAX,
    ensures
        spec_apply_events(b, fov, evs, dt).0.wf(),
        spec_apply_events(b, fov, evs, dt).1 <= FOV_MAX,
    decreases evs.len(),
{
    if evs.len() > 0 {
        lemma_apply_events_wf(b, fov, evs.drop_last(), dt);
        let prev = spec_apply_events(b, fov, evs.drop_last(), dt);
        if evs.last().pressed {
            lemma_apply_key_wf(prev.0, prev.1, evs.last().key, dt);
        }
    }
}

/// One frame of the controller keeps the camera state well formed: after any
/// mix of increase and decrease presses, every clamped bloom parameter is
/// still in `[0, UNIT]` and the field of view is still in `[0, FOV_MAX]`.
pub proof fn lemma_update_preserves_wf(
    cam: CameraState,
    evs: Seq<KeyEvent>,
    space_just_pressed: bool,
    dt: u32,
)
    requires
        cam.wf(),
    ensures
        spec_update(cam, evs, space_just_pressed, dt).wf(),
{
    match cam.bloom {
        Some(b) => {
            lemma_apply_events_wf(b, cam.fov, evs, dt);
        },
        None => {},
    }
}

/// Any number of frames keeps the camera state well formed.
pub proof fn lemma_run_preserves_wf(cam: CameraState, frames: Seq<FrameInput>)
    requires
        cam.wf(),
    ensures
        spec_run(cam, frames).wf(),
    decreases frames.len(),
{
    if frames.len() > 0 {
        lemma_update_preserves_wf(
            cam,
            frames[0].events,
            frames[0].space_just_pressed,
            frames[0].dt,
        );
        lemma_run_preserves_wf(
            spec_update(cam, frames[0].events, frames[0].space_just_pressed, frames[0].dt),
            frames.skip(1),
        );
    }
}

/// If the toggle key is never pressed, bloom stays enabled or disabled as it
/// was, across any number of frames.
pub proof fn lemma_no_toggle_keeps_bloom_state(cam: CameraState, frames: Seq<FrameInput>)
    requires
        forall|i: int|
            0 <= i < frames.len() ==> !spec_space_pressed((#[trigger] frames[i]).events)
                && !frames[i].space_just_pressed,
    ensures
        spec_run(cam, frames).bloom is Some <==> cam.bloom is Some,
    decreases frames.len(),
{
    if frames.len() > 0 {
        let next = spec_update(cam, frames[0].events, frames[0].space_just_pressed, frames[0].dt);
        assert(next.bloom is Some <==> cam.bloom is Some);
        assert forall|i: int| 0 <= i < frames.skip(1).len() implies !spec_space_pressed(
            (#[trigger] frames.skip(1)[i]).events,
        ) && !frames.skip(1)[i].space_just_pressed by {
            assert(frames.skip(1)[i] == frames[i + 1]);
        }
        lemma_no_toggle_keeps_bloom_state(next, frames.skip(1));
    }
}

/// Frames that deliver no input at all leave the camera state exactly as it
/// was, however many of them pass.
pub proof fn lemma_idle_frames_change_nothing(cam: CameraState, frames: Seq<FrameInput>)
    requires
        forall|i: int|
            0 <= i < frames.len() ==> (#[trigger] frames[i]).events.len() == 0
                && !frames[i].space_just_pressed,
    ensures
        spec_run(cam, frames) == cam,
    decreases frames.len(),
{
    if frames.len() > 0 {
        assert(spec_update(cam, frames[0].events, frames[0].space_just_pressed, frames[0].dt)
            == cam);
        assert forall|i: int| 0 <= i < frames.skip(1).len() implies (#[trigger] frames.skip(
            1,
        )[i]).events.len() == 0 && !frames.skip(1)[i].space_just_pressed by {
            assert(frames.skip(1)[i] == frames[i + 1]);
        }
        lemma_idle_frames_change_nothing(cam, frames.skip(1));
    }
}

/// Applies one key press to the bloom parameters and the field of view.
pub fn apply_key(b: BloomSettings, fov: u32, k: Key, dt: u32) -> (r: (BloomSettings, u32))
    ensures
        r == spec_apply_key(b, fov, k, dt),
{
    let d: u32 = dt / 10;
    match k {
        Key::BracketLeft => {
            let v: u64 = fov as u64 + FOV_STEP as u64;
            let fov2: u32 = if v > FOV_MAX as u64 {
                FOV_MAX
            } else {
                v as u32
            };
            (b, fov2)
        },
        Key::BracketRight => {
            let w: u32 = if fov >= FOV_STEP {
                fov - FOV_STEP
            } else {
                0
            };
            let fov2: u32 = if w > FOV_MAX {
                FOV_MAX
            } else {
                w
            };
            (b, fov2)
        },
        Key::KeyP => (
            BloomSettings { intensity: raise_unit(b.intensity, d), ..b },
            fov,
        ),
        Key::Semicolon => (
            BloomSettings { intensity: lower_unit(b.intensity, d), ..b },
            fov,
        ),
        Key::KeyO => {
            let v: i64 = if b.low_frequency_boost > i64::MAX - d as i64 {
                i64::MAX
            } else {
                b.low_frequency_boost + d as i64
            };
            (BloomSettings { low_frequency_boost: v, ..b }, fov)
        },
        Key::KeyL => {
            let v: i64 = if b.low_frequency_boost < i64::MIN + d as i64 {
                i64::MIN
            } else {
                b.low_frequency_boost - d as i64
            };
            (BloomSettings { low_frequency_boost: v, ..b }, fov)
        },
        Key::KeyI => (
            BloomSettings {
                low_frequency_boost_curvature: raise_unit(b.low_frequency_boost_curvature, d),
                ..b
            },
            fov,
        ),
        Key::KeyK => (
            BloomSettings {
                low_frequency_boost_curvature: lower_unit(b.low_frequency_boost_curvature, d),
                ..b
            },
            fov,
        ),
        Key::KeyU => (
            BloomSettings { high_pass_frequency: raise_unit(b.high_pass_frequency, d), ..b },
            fov,
        ),
        Key::KeyJ => (
            BloomSettings { high_pass_frequency: lower_unit(b.high_pass_frequency, d), ..b },
            fov,
        ),
        Key::KeyY => (
            BloomSettings { composite_mode: BloomCompositeMode::Additive, ..b },
            fov,
        ),
        Key::KeyH => (
            BloomSettings { composite_mode: BloomCompositeMode::EnergyConserving, ..b },
            fov,
        ),
        Key::KeyT => {
            let v: u64 = if b.threshold > u64::MAX - d as u64 {
                u64::MAX
            } else {
                b.threshold + d as u64
            };
            (BloomSettings { threshold: v, ..b }, fov)
        },
        Key::KeyG => {
            let v: u64 = if b.threshold >= d as u64 {
                b.threshold - d as u64
            } else {
                0
            };
            (BloomSettings { threshold: v, ..b }, fov)
        },
        Key::KeyR => (
            BloomSettings { threshold_softness: raise_unit(b.threshold_softness, d), ..b },
            fov,
        ),
        Key::KeyF => (
            BloomSettings { threshold_softness: lower_unit(b.threshold_softness, d), ..b },
            fov,
        ),
        Key::Space => (b, fov),
    }
}

/// Raises a `[0, UNIT]` parameter by `d` and clamps it back into range.
fn raise_unit(v: u32, d: u32) -> (r: u32)
    ensures
        r == clamp_to_unit(v + d),
{
    let sum: u64 = v as u64 + d as u64;
    if sum > UNIT as u64 {
        UNIT
    } else {
        sum as u32
    }
}

/// Lowers a `[0, UNIT]` parameter by `d` and clamps it back into range.
fn lower_unit(v: u32, d: u32) -> (r: u32)
    ensures
        r == clamp_to_unit(v - d),
{
    let w: u32 = if v >= d {
        v - d
    } else {
        0
    };
    if w > UNIT {
        UNIT
    } else {
        w
    }
}

/// Runs one frame of the controller on the camera state and reports what the
/// overlay shows once the frame's events are applied.
pub fn update_bloom_settings(
    cam: &mut CameraState,
    events: &Vec<KeyEvent>,
    space_just_pressed: bool,
    dt: u32,
) -> (status: OverlayStatus)
    ensures
        *final(cam) == spec_update(*old(cam), events@, space_just_pressed, dt),
        status == spec_status(*final(cam)),
        old(cam).wf() ==> final(cam).wf(),
{
    proof {
        if old(cam).wf() {
            lemma_update_preserves_wf(*old(cam), events@, space_just_pressed, dt);
        }
    }
    match cam.bloom {
        Some(initial) => {
            let mut b = initial;
            let mut fov = cam.fov;
            let mut space = false;
            let mut idx: usize = 0;
            while idx < events.len()
                invariant
                    idx <= events.len(),
                    cam.bloom == Some(initial),
                    (b, fov) == spec_apply_events(initial, cam.fov, events@.take(idx as int), dt),
                    space == spec_space_pressed(events@.take(idx as int)),
                decreases events.len() - idx,
            {
                let ev = events[idx];
                proof {
                    assert(events@.take(idx as int + 1).drop_last() =~= events@.take(idx as int));
                    assert(events@.take(idx as int + 1).last() == ev);
                }
                if ev.pressed {
                    if ev.key == Key::Space {
                        space = true;
                    }
                    let r = apply_key(b, fov, ev.key, dt);
                    b = r.0;
                    fov = r.1;
                }
                proof {
                    let taken = events@.take(idx as int + 1);
                    if space {
                        assert(spec_space_pressed(taken));
                    } else {
                        assert forall|i: int|
                            0 <= i < taken.len() implies !((#[trigger] taken[i]).pressed
                            && taken[i].key == Key::Space) by {
                            if i < idx as int {
                                assert(taken[i] == events@.take(idx as int)[i]);
                            }
                        }
                    }
                }
                idx += 1;
            }
            proof {
                assert(events@.take(events@.len() as int) =~= events@);
            }
            cam.fov = fov;
            if space {
                cam.bloom = None;
                OverlayStatus::ToggleHint
            } else {
                cam.bloom = Some(b);
                OverlayStatus::BloomControls { bloom: b, fov }
            }
        },
        None => {
            if space_just_pressed {
                let fresh = BloomSettings::natural();
                cam.bloom = Some(fresh);
                OverlayStatus::BloomControls { bloom: fresh, fov: cam.fov }
            } else {
                OverlayStatus::ToggleHint
            }
        },
    }
}

} // verus!
