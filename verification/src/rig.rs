//! The per-camera aggregate and the per-frame driver: one viewpoint, one
//! smoother, and the one active controller policy, stepped once per frame
//! in the fixed order input mapping, control update, smoothing, world
//! transform.

use vstd::prelude::*;

use crate::controllers::fps;
use crate::controllers::fps::fps_control_outcome_v;
use crate::controllers::fps::fps_input_events_v;
use crate::controllers::fps::FpsCameraController;
use crate::controllers::orbit;
use crate::controllers::orbit::orbit_control_outcome_v;
use crate::controllers::orbit::orbit_input_events_v;
use crate::controllers::orbit::OrbitCameraController;
use crate::controllers::unreal;
use crate::controllers::unreal::unreal_control_outcome_v;
use crate::controllers::unreal::unreal_input_events_v;
use crate::controllers::unreal::unreal_kms_after_v;
use crate::controllers::unreal::UnrealCameraController;
use crate::errors::CameraError;
use crate::look_transform::eye_world_err_v;
use crate::look_transform::eye_world_ok_v;
use crate::look_transform::eye_world_v;
use crate::look_transform::smooth_v;
use crate::look_transform::LookTransform;
use crate::look_transform::Smoother;
use crate::look_transform::WorldTransform;

verus! {

/// The one controller policy driving a camera, as a tagged variant rather
/// than three separately attachable pieces.
#[derive(Clone, Copy, Debug)]
pub enum ActivePolicy {
    Fps(FpsCameraController),
    Orbit(OrbitCameraController),
    Unreal(UnrealCameraController),
}

/// Whether the policy's controller is enabled.
pub open spec fn policy_enabled_v(p: ActivePolicy) -> bool {
    match p {
        ActivePolicy::Fps(c) => c.enabled_v(),
        ActivePolicy::Orbit(c) => c.enabled_v(),
        ActivePolicy::Unreal(c) => c.enabled_v(),
    }
}

/// Whether the policy's configuration is well-formed.
pub open spec fn policy_wf(p: ActivePolicy) -> bool {
    match p {
        ActivePolicy::Fps(c) => c.wf(),
        ActivePolicy::Orbit(c) => c.wf(),
        ActivePolicy::Unreal(c) => c.wf(),
    }
}

/// What the frame's input mapping and control update leave the viewpoint
/// as: the policy's events applied in order, with a failed update
/// recovered as a no-op for the frame.
pub open spec fn policy_control_v(
    p: ActivePolicy,
    input: crate::input::InputSnapshot,
    t: LookTransform,
    scene: WorldTransform,
    dt: int,
) -> LookTransform {
    match p {
        ActivePolicy::Fps(c) => if !c.enabled_v() {
            t
        } else {
            match fps_control_outcome_v(fps_input_events_v(c, input), dt, t) {
                Ok(t2) => t2,
                Err(_) => t,
            }
        },
        ActivePolicy::Orbit(c) => if !c.enabled_v() {
            t
        } else {
            match orbit_control_outcome_v(orbit_input_events_v(c, input), dt, t, scene) {
                Ok(t2) => t2,
                Err(_) => t,
            }
        },
        ActivePolicy::Unreal(c) => if !c.enabled_v() {
            t
        } else {
            match unreal_control_outcome_v(unreal_input_events_v(c, input), dt, t) {
                Ok(t2) => t2,
                Err(_) => t,
            }
        },
    }
}

/// One camera: its viewpoint, its smoother, its active policy, and the
/// world pose last written to the host (panning moves along its axes).
#[derive(Clone, Copy, Debug)]
pub struct CameraRig {
    pub look_transform: LookTransform,
    pub smoother: Smoother,
    pub policy: ActivePolicy,
    pub scene: WorldTransform,
}

/// A rig's smoother weight is a valid fraction and its policy
/// configuration is well-formed.
pub open spec fn rig_wf(rig: CameraRig) -> bool {
    &&& rig.smoother.wf()
    &&& policy_wf(rig.policy)
}

impl CameraRig {
    /// A rig for one camera: the smoother takes its lag weight from the
    /// policy's smoothing weight, and the initial world pose is derived
    /// from the viewpoint (which must therefore not be degenerate).
    pub fn new(look_transform: LookTransform, policy: ActivePolicy) -> (r: Result<
        CameraRig,
        CameraError,
    >)
        requires
            policy_wf(policy),
        ensures
            r is Ok <==> eye_world_ok_v(look_transform.eye, look_transform.target, look_transform.up),
            r matches Ok(rig) ==> {
                &&& rig.look_transform == look_transform
                &&& rig.policy == policy
                &&& rig.smoother.lerp_tfm_v() is None
                &&& rig.smoother.enabled_v()
                &&& rig.scene == eye_world_v(
                    look_transform.eye,
                    look_transform.target,
                    look_transform.up,
                )
                &&& rig_wf(rig)
            },
            r matches Err(e) ==> e == eye_world_err_v(
                look_transform.eye,
                look_transform.target,
                look_transform.up,
            ),
    {
        let weight = match &policy {
            ActivePolicy::Fps(c) => c.smoothing_weight(),
            ActivePolicy::Orbit(c) => c.smoothing_weight(),
            ActivePolicy::Unreal(c) => c.smoothing_weight(),
        };
        let smoother = match Smoother::new(weight) {
            Ok(s) => s,
            Err(_) => {
                return Err(CameraError::ConfigOutOfRange);  // unreachable: the policy is well-formed
            },
        };
        let scene = match look_transform.world_transform() {
            Ok(w) => w,
            Err(e) => {
                return Err(e);
            },
        };
        Ok(CameraRig { look_transform, smoother, policy, scene })
    }
}

/// Drive one camera for one frame: propagate an enabled-flag change to
/// the smoother (re-enabling resets it, so there is never a jump), map
/// the input to events, apply them to the viewpoint (a failed update is
/// recovered as a no-op), smooth the result if the smoother is enabled
/// (else pass the raw viewpoint through), and derive the world pose to
/// hand back to the host.
#[verifier::rlimit(100)]
pub fn frame_tick(rig: &mut CameraRig, input: &crate::input::InputSnapshot, dt: i64) -> (r: Result<
    WorldTransform,
    CameraError,
>)
    requires
        rig_wf(*old(rig)),
        dt >= 0,
    ensures
        rig_wf(*final(rig)),
        ({
            let en = policy_enabled_v(old(rig).policy);
            let lerp0 = if en && !old(rig).smoother.enabled_v() {
                Option::<LookTransform>::None
            } else {
                old(rig).smoother.lerp_tfm_v()
            };
            let t2 = policy_control_v(old(rig).policy, *input, old(rig).look_transform, old(rig).scene, dt as int);
            let smoothed = if en {
                smooth_v(lerp0, t2, old(rig).smoother.lag_weight_v())
            } else {
                t2
            };
            &&& final(rig).look_transform == t2
            &&& final(rig).smoother.enabled_v() == en
            &&& final(rig).smoother.lag_weight_v() == old(rig).smoother.lag_weight_v()
            &&& final(rig).smoother.lerp_tfm_v() == (if en {
                Some(smoothed)
            } else {
                lerp0
            })
            &&& (r is Ok <==> eye_world_ok_v(smoothed.eye, smoothed.target, smoothed.up))
            &&& (r matches Ok(w) ==> w == eye_world_v(smoothed.eye, smoothed.target, smoothed.up)
                && final(rig).scene == w)
            &&& (r matches Err(e) ==> e == eye_world_err_v(smoothed.eye, smoothed.target, smoothed.up)
                && final(rig).scene == old(rig).scene)
            &&& (match old(rig).policy {
                ActivePolicy::Fps(_) => final(rig).policy == old(rig).policy,
                ActivePolicy::Orbit(_) => final(rig).policy == old(rig).policy,
                ActivePolicy::Unreal(c) => final(rig).policy matches ActivePolicy::Unreal(c2) && {
                    &&& c2.keyboard_mvmt_sensitivity_v() == unreal_kms_after_v(c, *input)
                    &&& c2.enabled_v() == c.enabled_v()
                    &&& c2.rotate_sensitivity_v() == c.rotate_sensitivity_v()
                    &&& c2.translate_sensitivity_v() == c.translate_sensitivity_v()
                    &&& c2.wheel_translate_sensitivity_v() == c.wheel_translate_sensitivity_v()
                    &&& c2.keyboard_mvmt_wheel_sensitivity_v()
                        == c.keyboard_mvmt_wheel_sensitivity_v()
                    &&& c2.smoothing_weight_v() == c.smoothing_weight_v()
                },
            })
        }),
{
    let enabled = match &rig.policy {
        ActivePolicy::Fps(c) => c.is_enabled(),
        ActivePolicy::Orbit(c) => c.is_enabled(),
        ActivePolicy::Unreal(c) => c.is_enabled(),
    };
    if enabled != rig.smoother.enabled() {
        rig.smoother.set_enabled(enabled);
    }
    match &mut rig.policy {
        ActivePolicy::Fps(c) => {
            let events = fps::default_input_map(c, input);
            match fps::control_system(c, &events, &mut rig.look_transform, dt) {
                // A math error is local to this camera and recovered as a
                // no-op for the frame.
                Ok(()) => {},
                Err(_) => {},
            }
        },
        ActivePolicy::Orbit(c) => {
            let events = orbit::default_input_map(c, input);
            match orbit::control_system(c, &events, &mut rig.look_transform, &rig.scene, dt) {
                Ok(()) => {},
                Err(_) => {},
            }
        },
        ActivePolicy::Unreal(c) => {
            let events = unreal::default_input_map(c, input);
            match unreal::control_system(c, &events, &mut rig.look_transform, dt) {
                Ok(()) => {},
                Err(_) => {},
            }
        },
    }
    let raw = rig.look_transform;
    let smoothed = if rig.smoother.enabled() {
        rig.smoother.smooth_transform(&raw)
    } else {
        raw
    };
    match smoothed.world_transform() {
        Ok(w) => {
            rig.scene = w;
            Ok(w)
        },
        Err(e) => Err(e),
    }
}

/// The explicit selection rule for which controller is active: the first
/// enabled one wins, and at most one is returned.
pub fn select_active(enabled_flags: &Vec<bool>) -> (r: Option<usize>)
    ensures
        r matches Some(i) ==> i < enabled_flags@.len() && enabled_flags@[i as int] && (forall|
            j: int,
        |
            0 <= j < i ==> !enabled_flags@[j]),
        r is None ==> forall|j: int| 0 <= j < enabled_flags@.len() ==> !enabled_flags@[j],
{
    let mut i: usize = 0;
    while i < enabled_flags.len()
        invariant
            i <= enabled_flags@.len(),
            forall|j: int| 0 <= j < i ==> !enabled_flags@[j],
        decreases enabled_flags@.len() - i,
    {
        if enabled_flags[i] {
            return Some(i);
        }
        i = i + 1;
    }
    None
}

} // verus!
