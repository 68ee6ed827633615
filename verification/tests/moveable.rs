use boxman::bots::{BotIdTracker, FIRST_BOT_ID};
use boxman::config::{CharacterConfig, MultiplayerConfig};
use boxman::moveable::{
    alter_character_velocity, Locality, MoveableCorrectionState, MoveableParams,
    MoveableSimulation, MovementTuning, Pose, Sweep, VelocityPlan, VisualStep, MAX_SWEEP_PASSES,
};
use boxman::scalar::{Rotation, Scalar, Vector3};

fn s(value: f32) -> Scalar {
    Scalar { bits: value.to_bits() }
}

fn f(value: Scalar) -> f32 {
    f32::from_bits(value.bits)
}

fn v(x: f32, y: f32, z: f32) -> Vector3 {
    Vector3 { x: s(x), y: s(y), z: s(z) }
}

fn body() -> MoveableSimulation {
    MoveableSimulation::spawn(v(0.0, 2.0, 0.0), MoveableParams::character(), None, Locality::Remote)
}

#[test]
fn character_parameters_have_their_values() {
    let params = MoveableParams::character();
    assert_eq!(f(params.gravity), 9.81);
    assert_eq!(f(params.collision_radius), 0.5);
    assert_eq!(f(params.collision_height), 1.0);
    assert_eq!(params.max_slope_angle.map(f), Some(44.0));
}

#[test]
fn player_tuning_has_its_values() {
    let tuning = MovementTuning::player_controller();
    assert_eq!(f(tuning.speed), 8.0);
    assert_eq!(f(tuning.jump_impulse), 3.8);
    assert_eq!(f(tuning.ground_accel), 10.0);
    assert_eq!(f(tuning.air_accel), 2.0);
    assert_eq!(f(tuning.ground_friction), 14.0);
    assert_eq!(f(tuning.air_friction), 2.0);
}

#[test]
fn default_configurations_have_their_values() {
    let cfg = MultiplayerConfig::default();
    assert_eq!(f(cfg.moveable_correction_position_distance_threshold), 0.01);
    assert_eq!(f(cfg.moveable_correction_position_factor), 0.9);
    assert_eq!(f(cfg.visual_smooth_min_threshold), 0.1);
    assert_eq!(f(cfg.visual_smooth_range), 0.4);
    assert_eq!(f(cfg.visual_smooth_factor_min), 0.98);
    assert_eq!(f(cfg.visual_smooth_factor_max), 0.90);
    assert_eq!(f(cfg.visual_smooth_speed_multiplier), 15.0);
    assert_eq!(f(cfg.visual_snap_threshold), 0.005);
    let character = CharacterConfig::default();
    assert_eq!(f(character.speed), 100.0);
    assert_eq!(f(character.acceleration), 10.0);
    assert_eq!(f(character.friction), 4.0);
}

#[test]
fn spawned_body_rests_in_the_air() {
    let simulation = MoveableSimulation::spawn(
        v(1.0, 2.0, 3.0),
        MoveableParams::character(),
        Some(17),
        Locality::Local,
    );
    assert_eq!(simulation.velocity, v(0.0, 0.0, 0.0));
    assert_eq!(simulation.last_translation, v(1.0, 2.0, 3.0));
    assert_eq!(simulation.last_rotation(), Rotation::identity());
    assert_eq!(simulation.correction_state, None);
    assert!(!simulation.grounded);
    assert_eq!(simulation.visuals(), Some(17));
    assert_eq!(simulation.locality, Locality::Local);
    assert_eq!(simulation.params, MoveableParams::character());
}

#[test]
fn tick_remembers_the_pose_it_starts_from() {
    let mut simulation = body();
    let before = simulation;
    let rotation = Rotation { x: s(0.0), y: s(1.0), z: s(0.0), w: s(0.0) };
    simulation.begin_tick(&Pose { translation: v(4.0, 5.0, 6.0), rotation });
    assert_eq!(simulation.last_translation, v(4.0, 5.0, 6.0));
    assert_eq!(simulation.last_rotation(), rotation);
    assert_eq!(simulation.velocity, before.velocity);
    assert_eq!(simulation.grounded, before.grounded);
}

#[test]
fn grounded_body_gets_ground_coefficients() {
    let tuning = MovementTuning::player_controller();
    let mut simulation = body();
    simulation.grounded = true;
    assert_eq!(
        alter_character_velocity(&simulation, false, &tuning),
        VelocityPlan { friction: s(14.0), accel: s(10.0), wish_speed: s(8.0), jump_impulse: None }
    );
}

#[test]
fn airborne_body_gets_air_coefficients() {
    let tuning = MovementTuning::player_controller();
    let simulation = body();
    assert_eq!(
        alter_character_velocity(&simulation, false, &tuning),
        VelocityPlan { friction: s(2.0), accel: s(2.0), wish_speed: s(8.0), jump_impulse: None }
    );
}

#[test]
fn only_a_grounded_body_jumps() {
    let tuning = MovementTuning::player_controller();
    let mut simulation = body();
    assert_eq!(alter_character_velocity(&simulation, true, &tuning).jump_impulse, None);
    simulation.grounded = true;
    assert_eq!(alter_character_velocity(&simulation, true, &tuning).jump_impulse, Some(s(3.8)));
    assert_eq!(alter_character_velocity(&simulation, false, &tuning).jump_impulse, None);
}

#[test]
fn jump_impulse_against_gravity_for_one_tick() {
    let tuning = MovementTuning::player_controller();
    let mut simulation = body();
    simulation.grounded = true;
    let plan = alter_character_velocity(&simulation, true, &tuning);
    let impulse = f(plan.jump_impulse.expect("a grounded body that is asked to jumps"));
    let vertical = 0.0 + impulse - f(simulation.params.gravity) * (1.0 / 60.0);
    assert!((vertical - (3.8 - 9.81 / 60.0)).abs() < 1e-6);
}

#[test]
fn ground_speed_rises_towards_the_cap() {
    let tuning = MovementTuning::player_controller();
    let mut simulation = body();
    simulation.grounded = true;
    let dt = 1.0f32 / 60.0;
    let mut speed = 0.0f32;
    for _ in 0..10 {
        let plan = alter_character_velocity(&simulation, false, &tuning);
        let drop = speed * f(plan.friction) * dt;
        let mut slowed = speed - drop;
        if slowed < 0.0 {
            slowed = 0.0;
        }
        let add_speed = f(plan.wish_speed) - slowed;
        let mut accel_speed = f(plan.accel) * dt * f(plan.wish_speed);
        if add_speed <= 0.0 {
            accel_speed = 0.0;
        } else if accel_speed > add_speed {
            accel_speed = add_speed;
        }
        let next = slowed + accel_speed;
        assert!(next > speed);
        assert!(next <= 8.0 + 1e-6);
        speed = next;
    }
}

#[test]
fn a_tick_takes_at_most_four_sweeps() {
    assert_eq!(MAX_SWEEP_PASSES, 4);
    let mut sweep = Sweep::begin();
    let mut passes = 0;
    while sweep.wants_pass() {
        sweep.on_hit(s(2.0), Some(s(0.5)));
        passes += 1;
    }
    assert_eq!(passes, 4);
    assert!(!sweep.grounded());
}

#[test]
fn a_clear_sweep_ends_the_tick() {
    let mut sweep = Sweep::begin();
    assert!(sweep.wants_pass());
    sweep.on_hit(s(2.0), Some(s(0.5)));
    assert!(sweep.wants_pass());
    sweep.on_clear();
    assert!(!sweep.wants_pass());
    assert!(!sweep.grounded());
}

#[test]
fn a_walkable_hit_grounds_the_body_once() {
    let steepest = Some(s(44.0f32.to_radians()));
    let mut sweep = Sweep::begin();
    assert!(!sweep.on_hit(s(1.2), steepest));
    assert!(!sweep.grounded());
    assert!(sweep.on_hit(s(0.1), steepest));
    assert!(sweep.grounded());
    assert!(!sweep.on_hit(s(0.1), steepest));
    assert!(sweep.grounded());
}

#[test]
fn a_slope_as_steep_as_the_limit_does_not_ground() {
    let limit = 44.0f32.to_radians();
    let mut sweep = Sweep::begin();
    assert!(!sweep.on_hit(s(limit), Some(s(limit))));
    assert!(!sweep.on_hit(s(f32::NAN), Some(s(limit))));
    assert!(sweep.on_hit(s(f32::from_bits(limit.to_bits() - 1)), Some(s(limit))));
}

#[test]
fn without_a_slope_limit_nothing_grounds() {
    let mut sweep = Sweep::begin();
    assert!(!sweep.on_hit(s(0.0), None));
    assert!(!sweep.grounded());
}

#[test]
fn finishing_the_sweeps_stores_velocity_and_grounding() {
    let mut simulation = body();
    simulation.grounded = true;
    let before = simulation;
    let mut sweep = Sweep::begin();
    sweep.on_clear();
    sweep.finish(&mut simulation, v(1.0, -0.1635, 0.0));
    assert_eq!(simulation.velocity, v(1.0, -0.1635, 0.0));
    assert!(!simulation.grounded);
    assert_eq!(simulation.last_translation, before.last_translation);

    let mut sweep = Sweep::begin();
    sweep.on_hit(s(0.0), Some(s(0.7)));
    sweep.finish(&mut simulation, v(1.0, 0.0, 0.0));
    assert!(simulation.grounded);
}

#[test]
fn render_frame_interpolates_without_a_correction() {
    let mut simulation = body();
    let before = simulation;
    assert_eq!(simulation.visual_step(s(9.0), s(0.005)), VisualStep::Interpolate);
    assert_eq!(simulation, before);
}

#[test]
fn render_frame_approaches_above_the_snap_threshold() {
    let mut simulation = body();
    let correction = MoveableCorrectionState { from: v(1.0, 0.0, 0.0), blend: s(0.0) };
    simulation.correction_state = Some(correction);
    assert_eq!(simulation.visual_step(s(0.2), s(0.005)), VisualStep::Approach);
    assert_eq!(simulation.correction_state, Some(correction));
}

#[test]
fn render_frame_approaches_at_the_snap_threshold() {
    let threshold = 0.005f32;
    for residual in [threshold, f32::from_bits(threshold.to_bits() + 1), f32::INFINITY] {
        let mut simulation = body();
        let correction = MoveableCorrectionState { from: v(1.0, 0.0, 0.0), blend: s(0.0) };
        simulation.correction_state = Some(correction);
        assert_eq!(simulation.visual_step(s(residual), s(threshold)), VisualStep::Approach);
        assert_eq!(simulation.correction_state, Some(correction));
    }
}

#[test]
fn render_frame_snaps_under_the_snap_threshold() {
    let just_under = f32::from_bits(0.005f32.to_bits() - 1);
    for residual in [just_under, 0.001, 0.0, f32::NAN] {
        let mut simulation = body();
        simulation.correction_state =
            Some(MoveableCorrectionState { from: v(1.0, 0.0, 0.0), blend: s(0.0) });
        assert_eq!(simulation.visual_step(s(residual), s(0.005)), VisualStep::Snap);
        assert_eq!(simulation.correction_state, None);
        assert_eq!(simulation.visual_step(s(residual), s(0.005)), VisualStep::Interpolate);
    }
}

#[test]
fn bot_ids_start_at_9999_and_never_repeat() {
    let mut tracker = BotIdTracker::default();
    assert_eq!(FIRST_BOT_ID, 9999);
    assert_eq!(tracker.allocate(), Some(9999));
    assert_eq!(tracker.allocate(), Some(10000));
    assert_eq!(tracker.next_bot_id, 10001);
}

#[test]
fn bot_ids_run_out_without_wrapping() {
    let mut tracker = BotIdTracker { next_bot_id: u64::MAX - 1 };
    assert_eq!(tracker.allocate(), Some(u64::MAX - 1));
    assert_eq!(tracker.allocate(), None);
    assert_eq!(tracker.allocate(), None);
    assert_eq!(tracker.next_bot_id, u64::MAX);
}
