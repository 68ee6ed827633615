//! The state of one simulated body, and the decisions that its movement
//! takes between computations.
//!
//! The arithmetic of a tick (gravity, friction, acceleration, the sweep of
//! the collision shape) is done by the caller. What is decided here is what
//! that arithmetic is handed and what becomes of its outcome: which
//! coefficients apply, how many sweeps a tick may take, when a hit grounds
//! the body, and when a visual correction ends.

use vstd::prelude::*;
use crate::scalar::{Rotation, Scalar, Vector3};

verus! {

/// How many sweeps one tick may take; displacement left after the last is
/// dropped.
pub const MAX_SWEEP_PASSES: u8 = 4;

/// The shape of a body and how gravity and slopes act on it.
#[derive(Clone, Copy, Debug, PartialEq, Eq)]
pub struct MoveableParams {
    pub gravity: Scalar,
    pub collision_radius: Scalar,
    pub collision_height: Scalar,
    /// The steepest slope, in degrees, that the body can stand on. Without
    /// one the body is never grounded.
    pub max_slope_angle: Option<Scalar>,
}

impl MoveableParams {
    /// The parameters of a player character: gravity 9.81, radius 0.5,
    /// height 1.0, slopes up to 44 degrees.
    pub fn character() -> (params: MoveableParams)
        ensures
            params.gravity.bits == 0x411c_f5c3,
            params.collision_radius.bits == 0x3f00_0000,
            params.collision_height.bits == 0x3f80_0000,
            params.max_slope_angle == Some(Scalar { bits: 0x4230_0000 }),
    {
        MoveableParams {
            gravity: Scalar { bits: 0x411c_f5c3 },
            collision_radius: Scalar { bits: 0x3f00_0000 },
            collision_height: Scalar { bits: 0x3f80_0000 },
            max_slope_angle: Some(Scalar { bits: 0x4230_0000 }),
        }
    }
}

/// Where a body is and how it is turned.
#[derive(Clone, Copy, Debug, PartialEq, Eq)]
pub struct Pose {
    pub translation: Vector3,
    pub rotation: Rotation,
}

/// Present while the rendered body is being blended towards a corrected
/// simulation.
#[derive(Clone, Copy, Debug, PartialEq, Eq)]
pub struct MoveableCorrectionState {
    /// Where the body was simulated to be before the correction.
    pub from: Vector3,
    /// How far the blend has come; 0 when the correction starts.
    pub blend: Scalar,
}

/// Whether a body is predicted from local input or only mirrored.
#[derive(Clone, Copy, Debug, PartialEq, Eq, Structural)]
pub enum Locality {
    Local,
    Remote,
}

/// The simulation state of one body, beside its pose.
#[derive(Clone, Copy, Debug, PartialEq, Eq)]
pub struct MoveableSimulation {
    /// The entity that renders this body, if it has one.
    pub visuals: Option<u64>,
    pub velocity: Vector3,
    pub last_translation: Vector3,
    pub correction_state: Option<MoveableCorrectionState>,
    pub last_rotation: Rotation,
    pub params: MoveableParams,
    pub grounded: bool,
    pub locality: Locality,
}

impl MoveableSimulation {
    /// A body at rest at `spawn_position`, not turned, in the air, with no
    /// correction under way.
    pub fn spawn(
        spawn_position: Vector3,
        params: MoveableParams,
        visuals: Option<u64>,
        locality: Locality,
    ) -> (simulation: MoveableSimulation)
        ensures
            simulation.visuals == visuals,
            simulation.velocity == (Vector3 {
                x: Scalar { bits: 0 },
                y: Scalar { bits: 0 },
                z: Scalar { bits: 0 },
            }),
            simulation.last_translation == spawn_position,
            simulation.correction_state is None,
            simulation.last_rotation == (Rotation {
                x: Scalar { bits: 0 },
                y: Scalar { bits: 0 },
                z: Scalar { bits: 0 },
                w: Scalar { bits: 0x3f80_0000 },
            }),
            simulation.params == params,
            !simulation.grounded,
            simulation.locality == locality,
    {
        MoveableSimulation {
            visuals,
            velocity: Vector3::zero(),
            last_translation: spawn_position,
            correction_state: None,
            last_rotation: Rotation::identity(),
            params,
            grounded: false,
            locality,
        }
    }

    /// The rotation the body had when its latest tick began.
    pub fn last_rotation(&self) -> (rotation: Rotation)
        ensures
            rotation == self.last_rotation,
    {
        self.last_rotation
    }

    /// The entity that renders this body, if it has one.
    pub fn visuals(&self) -> (visuals: Option<u64>)
        ensures
            visuals == self.visuals,
    {
        self.visuals
    }

    /// Remembers the pose from which a tick starts, for the renderer to
    /// interpolate from.
    pub fn begin_tick(&mut self, pose: &Pose)
        ensures
            *final(self) == (MoveableSimulation {
                last_translation: pose.translation,
                last_rotation: pose.rotation,
                ..*old(self)
            }),
    {
        self.last_translation = pose.translation;
        self.last_rotation = pose.rotation;
    }

    /// Decides what a render frame does with the body: follow the
    /// simulation, close in on it, or snap onto it and end the correction.
    /// `residual` is the distance left between the rendered body and its
    /// target; it is read only while a correction is under way. The
    /// correction ends once the residual has fallen under the snap
    /// threshold; a residual that is no number ends it too.
    pub fn visual_step(&mut self, residual: Scalar, snap_threshold: Scalar) -> (step: VisualStep)
        ensures
            step == old(self).visual_step_spec(residual, snap_threshold),
            *final(self) == (MoveableSimulation {
                correction_state: if step == VisualStep::Snap {
                    None
                } else {
                    old(self).correction_state
                },
                ..*old(self)
            }),
    {
        if self.correction_state.is_none() {
            VisualStep::Interpolate
        } else if residual.less(&snap_threshold) || residual.nan() {
            self.correction_state = None;
            VisualStep::Snap
        } else {
            VisualStep::Approach
        }
    }

    /// See [`Self::visual_step`].
    pub open spec fn visual_step_spec(self, residual: Scalar, snap_threshold: Scalar)
        -> VisualStep {
        if self.correction_state is None {
            VisualStep::Interpolate
        } else if residual.num_lt(snap_threshold) || residual.is_nan() {
            VisualStep::Snap
        } else {
            VisualStep::Approach
        }
    }
}

/// What a render frame does with a body.
#[derive(Clone, Copy, Debug, PartialEq, Eq, Structural)]
pub enum VisualStep {
    /// No correction is under way: place the body between the previous and
    /// the current tick.
    Interpolate,
    /// A correction is under way and the body is not yet nearer to its
    /// target than the snap threshold: move it closer.
    Approach,
    /// A correction was under way and the body is nearer to its target
    /// than the snap threshold: place it on its target. The correction has
    /// ended.
    Snap,
}

/// The speeds and coefficients that turn an input into a velocity.
#[derive(Clone, Copy, Debug, PartialEq, Eq)]
pub struct MovementTuning {
    pub speed: Scalar,
    pub jump_impulse: Scalar,
    pub ground_accel: Scalar,
    pub air_accel: Scalar,
    pub ground_friction: Scalar,
    pub air_friction: Scalar,
}

/// What the velocity computation of one tick is handed.
#[derive(Clone, Copy, Debug, PartialEq, Eq)]
pub struct VelocityPlan {
    /// Drag coefficient of the friction step.
    pub friction: Scalar,
    /// Acceleration coefficient of the acceleration step.
    pub accel: Scalar,
    /// Speed that the acceleration step aims for.
    pub wish_speed: Scalar,
    /// Impulse to add to the vertical velocity, when the body jumps.
    pub jump_impulse: Option<Scalar>,
}

impl MovementTuning {
    /// The tuning of a player character: speed 8, jump impulse 3.8,
    /// acceleration 10 on the ground and 2 in the air, friction 14 on the
    /// ground and 2 in the air.
    pub fn player_controller() -> (tuning: MovementTuning)
        ensures
            tuning.speed.bits == 0x4100_0000,
            tuning.jump_impulse.bits == 0x4073_3333,
            tuning.ground_accel.bits == 0x4120_0000,
            tuning.air_accel.bits == 0x4000_0000,
            tuning.ground_friction.bits == 0x4160_0000,
            tuning.air_friction.bits == 0x4000_0000,
    {
        MovementTuning {
            speed: Scalar { bits: 0x4100_0000 },
            jump_impulse: Scalar { bits: 0x4073_3333 },
            ground_accel: Scalar { bits: 0x4120_0000 },
            air_accel: Scalar { bits: 0x4000_0000 },
            ground_friction: Scalar { bits: 0x4160_0000 },
            air_friction: Scalar { bits: 0x4000_0000 },
        }
    }

    /// See [`alter_character_velocity`].
    pub open spec fn plan(self, grounded: bool, wish_jump: bool) -> VelocityPlan {
        VelocityPlan {
            friction: if grounded {
                self.ground_friction
            } else {
                self.air_friction
            },
            accel: if grounded {
                self.ground_accel
            } else {
                self.air_accel
            },
            wish_speed: self.speed,
            jump_impulse: if wish_jump && grounded {
                Some(self.jump_impulse)
            } else {
                None
            },
        }
    }
}

/// Chooses what the velocity computation of a tick works with: the ground
/// coefficients for a grounded body and the air coefficients otherwise, and
/// the jump impulse only where a grounded body is asked to jump.
pub fn alter_character_velocity(
    simulation: &MoveableSimulation,
    wish_jump: bool,
    tuning: &MovementTuning,
) -> (plan: VelocityPlan)
    ensures
        plan == tuning.plan(simulation.grounded, wish_jump),
{
    VelocityPlan {
        friction: if simulation.grounded {
            tuning.ground_friction
        } else {
            tuning.air_friction
        },
        accel: if simulation.grounded {
            tuning.ground_accel
        } else {
            tuning.air_accel
        },
        wish_speed: tuning.speed,
        jump_impulse: if wish_jump && simulation.grounded {
            Some(tuning.jump_impulse)
        } else {
            None
        },
    }
}

/// The sweeps of one tick: how many may still be taken, and whether one of
/// them has grounded the body.
#[derive(Clone, Copy, Debug, PartialEq, Eq)]
pub struct Sweep {
    passes_left: u8,
    grounded: bool,
}

impl Sweep {
    /// How many sweeps may still be taken.
    pub closed spec fn remaining(self) -> nat {
        self.passes_left as nat
    }

    /// Whether a hit of this tick has grounded the body.
    pub closed spec fn has_grounded(self) -> bool {
        self.grounded
    }

    /// Whether a hit on a surface of the given slope grounds the body:
    /// only the first such hit of a tick does, only where a steepest slope
    /// is set, and only where the surface is less steep than that.
    pub open spec fn grounds(self, slope_angle: Scalar, max_slope_angle: Option<Scalar>) -> bool {
        &&& !self.has_grounded()
        &&& max_slope_angle matches Some(steepest)
        &&& slope_angle.num_lt(steepest)
    }

    /// The sweeps of a tick that has taken none yet.
    pub fn begin() -> (sweep: Sweep)
        ensures
            sweep.remaining() == MAX_SWEEP_PASSES,
            !sweep.has_grounded(),
    {
        Sweep { passes_left: MAX_SWEEP_PASSES, grounded: false }
    }

    /// Whether another sweep is to be taken.
    pub fn wants_pass(&self) -> (wanted: bool)
        ensures
            wanted == (self.remaining() > 0),
    {
        self.passes_left > 0
    }

    /// Whether a hit of this tick has grounded the body.
    pub fn grounded(&self) -> (grounded: bool)
        ensures
            grounded == self.has_grounded(),
    {
        self.grounded
    }

    /// Accounts for a sweep that hit a surface whose normal stands at
    /// `slope_angle` from the vertical. Says whether the body is to be
    /// put down on the surface. Both angles are in one unit.
    pub fn on_hit(&mut self, slope_angle: Scalar, max_slope_angle: Option<Scalar>) -> (snap: bool)
        requires
            old(self).remaining() > 0,
        ensures
            snap == old(self).grounds(slope_angle, max_slope_angle),
            final(self).has_grounded() == (old(self).has_grounded() || snap),
            final(self).remaining() == old(self).remaining() - 1,
    {
        self.passes_left = self.passes_left - 1;
        if self.grounded {
            return false;
        }
        match max_slope_angle {
            Some(steepest) => {
                if slope_angle.less(&steepest) {
                    self.grounded = true;
                    true
                } else {
                    false
                }
            },
            None => false,
        }
    }

    /// Accounts for a sweep that hit nothing: the body takes the whole
    /// displacement that is left, and the tick takes no further sweep.
    pub fn on_clear(&mut self)
        ensures
            final(self).remaining() == 0,
            final(self).has_grounded() == old(self).has_grounded(),
    {
        self.passes_left = 0;
    }

    /// Ends the tick: the body keeps the velocity that the sweeps left it,
    /// and is grounded exactly if one of them grounded it.
    pub fn finish(self, simulation: &mut MoveableSimulation, velocity: Vector3)
        ensures
            *final(simulation) == (MoveableSimulation {
                velocity,
                grounded: self.has_grounded(),
                ..*old(simulation)
            }),
    {
        simulation.velocity = velocity;
        simulation.grounded = self.grounded;
    }
}

} // verus!
