use ossm::master::ModbusRTUMaster;
use ossm::motion::{
    ring_neighbours, same_text, segment_ends, table_cells, ConfigChange, DepthDirection,
    Lifecycle, MotorController, Plan, PositionGenerator, Reanchor, SaveTracker, WaveKind,
    RUN_ACCELERATION, RUN_MAX_POWER, RUN_POSITION_RING_RATIO, RUN_SPEED_RING_RATIO,
    SPLINE_RESOLUTION,
};
use ossm::motor_57aim30::{Modbus57AIM30Motor, Op};

fn change(wave: bool, sharpness: bool, bpm: bool, paused: bool) -> ConfigChange {
    ConfigChange { wave_changed: wave, sharpness_changed: sharpness, bpm_changed: bpm, paused }
}

#[test]
fn depth_direction_follows_the_flag() {
    assert_eq!(DepthDirection::from_depth_top(true), DepthDirection::Top);
    assert_eq!(DepthDirection::from_depth_top(false), DepthDirection::Bottom);
}

#[test]
fn waveforms_are_named() {
    assert_eq!(WaveKind::from_name("sine"), WaveKind::Sine);
    assert_eq!(WaveKind::from_name("thrust"), WaveKind::Thrust);
    assert_eq!(WaveKind::from_name("spline"), WaveKind::Spline);
    for kind in [WaveKind::Sine, WaveKind::Thrust, WaveKind::Spline] {
        assert_eq!(WaveKind::from_name(kind.name()), kind);
    }
}

#[test]
fn an_unknown_waveform_is_the_sine() {
    for name in ["", "Sine", "square", " thrust", "spline "] {
        assert_eq!(WaveKind::from_name(name), WaveKind::Sine);
    }
}

#[test]
fn texts_are_compared_as_a_whole() {
    assert!(same_text("", ""));
    assert!(same_text("pause", "pause"));
    assert!(!same_text("pause", "paus"));
    assert!(!same_text("pause", "Pause"));
}

#[test]
fn position_generator_keeps_its_range() {
    let g = PositionGenerator::new(-2000, 2000);
    assert_eq!(g.pos_min(), -2000);
    assert_eq!(g.pos_max(), 2000);
    assert_eq!(g.range(), 4000);
    assert_eq!(g.offset(-2000), 0);
    assert_eq!(g.offset(0), 2000);
    assert_eq!(g.offset(2500), 4500);
    assert!(g.contains(-2000) && g.contains(2000) && g.contains(0));
    assert!(!g.contains(-2001) && !g.contains(2001));
}

#[test]
fn position_generator_range_does_not_overflow() {
    let g = PositionGenerator::new(i32::MIN, i32::MAX);
    assert_eq!(g.range(), 4294967295);
    assert_eq!(g.offset(i32::MAX), 4294967295);
    let g = PositionGenerator::new(i32::MAX, i32::MIN);
    assert_eq!(g.range(), -4294967295);
    assert_eq!(g.offset(i32::MIN), -4294967295);
}

#[test]
fn an_unhomed_generator_is_empty() {
    let g = PositionGenerator::new(0, 0);
    assert_eq!(g.range(), 0);
    assert!(g.contains(0));
}

#[test]
fn the_first_matching_rule_moves_the_anchor() {
    let mut c = MotorController::new(false);
    assert_eq!(
        c.set_config(change(true, false, true, false)),
        Plan { rebuild: true, reanchor: Reanchor::MatchOutput }
    );
    assert_eq!(
        c.set_config(change(false, true, false, false)),
        Plan { rebuild: true, reanchor: Reanchor::MatchOutput }
    );
    assert_eq!(
        c.set_config(change(false, false, true, false)),
        Plan { rebuild: false, reanchor: Reanchor::KeepPhase }
    );
    assert_eq!(
        c.set_config(change(false, false, false, false)),
        Plan { rebuild: false, reanchor: Reanchor::Keep }
    );
}

#[test]
fn a_pause_keeps_the_anchor() {
    for (wave, sharpness, bpm) in
        [(false, false, false), (true, false, false), (false, true, true), (true, true, true)]
    {
        for was_paused in [false, true] {
            let mut c = MotorController::new(was_paused);
            let plan = c.set_config(change(wave, sharpness, bpm, true));
            assert_eq!(plan.reanchor, Reanchor::Keep);
            assert_eq!(plan.rebuild, wave || sharpness);
            assert!(c.is_paused());
        }
    }
}

#[test]
fn a_resume_finds_the_phase_of_the_pause_position() {
    let mut c = MotorController::new(true);
    assert_eq!(
        c.set_config(change(false, false, true, false)),
        Plan { rebuild: false, reanchor: Reanchor::Resume }
    );
    assert!(!c.is_paused());
    let mut c = MotorController::new(true);
    assert_eq!(
        c.set_config(change(true, false, false, false)),
        Plan { rebuild: true, reanchor: Reanchor::MatchOutput }
    );
}

#[test]
fn the_version_counts_the_configurations() {
    let mut c = MotorController::new(false);
    assert_eq!(c.get_config_version(), 0);
    for n in 1..=100u32 {
        c.set_config(change(n % 2 == 0, n % 3 == 0, n % 5 == 0, n % 7 == 0));
        assert_eq!(c.get_config_version(), n);
    }
}

#[test]
fn a_controller_is_homed_once() {
    let mut c = MotorController::new(false);
    assert_eq!(c.lifecycle(), Lifecycle::Unhomed);
    c.init_finished(true);
    assert_eq!(c.lifecycle(), Lifecycle::Unhomed);
    c.init_motor();
    assert_eq!(c.lifecycle(), Lifecycle::Homing);
    c.init_motor();
    assert_eq!(c.lifecycle(), Lifecycle::Homing);
    c.init_finished(true);
    assert_eq!(c.lifecycle(), Lifecycle::Running);
    c.init_motor();
    assert_eq!(c.lifecycle(), Lifecycle::Running);
    c.init_finished(false);
    assert_eq!(c.lifecycle(), Lifecycle::Running);
    assert_eq!(c.get_config_version(), 0);
}

#[test]
fn a_paused_configuration_starts_paused() {
    let mut c = MotorController::new(true);
    c.init_motor();
    c.init_finished(true);
    assert_eq!(c.lifecycle(), Lifecycle::Paused);
}

#[test]
fn a_failed_homing_is_final() {
    let mut c = MotorController::new(false);
    c.init_motor();
    c.init_finished(false);
    assert_eq!(c.lifecycle(), Lifecycle::Failed);
    c.init_motor();
    c.init_finished(true);
    c.set_config(change(false, false, false, true));
    assert_eq!(c.lifecycle(), Lifecycle::Failed);
    assert_eq!(c.get_config_version(), 1);
}

#[test]
fn the_pause_flag_toggles_a_homed_controller() {
    let mut c = MotorController::new(false);
    c.set_config(change(false, false, false, true));
    assert_eq!(c.lifecycle(), Lifecycle::Unhomed);
    c.init_motor();
    c.set_config(change(false, false, false, false));
    assert_eq!(c.lifecycle(), Lifecycle::Homing);
    c.init_finished(true);
    assert_eq!(c.lifecycle(), Lifecycle::Running);
    c.set_config(change(false, false, false, true));
    assert_eq!(c.lifecycle(), Lifecycle::Paused);
    c.set_config(change(false, false, false, false));
    assert_eq!(c.lifecycle(), Lifecycle::Running);
}

#[test]
fn the_servo_is_set_up_after_homing() {
    let motor = Modbus57AIM30Motor::new(ModbusRTUMaster::new(115200, 1000, false, 1));
    assert_eq!(motor.set_max_power(RUN_MAX_POWER), Op::Write { addr: 0x18, value: 350 });
    assert_eq!(motor.set_acceleration(RUN_ACCELERATION), Op::Write { addr: 0x03, value: 40000 });
    assert_eq!(
        motor.set_position_ring_ratio(RUN_POSITION_RING_RATIO),
        Op::Write { addr: 0x07, value: 3000 }
    );
    assert_eq!(
        motor.set_speed_ring_ratio(RUN_SPEED_RING_RATIO),
        Op::Write { addr: 0x05, value: 3000 }
    );
}

#[test]
fn a_configuration_is_stored_when_the_version_has_moved() {
    let mut c = MotorController::new(false);
    let mut tracker = SaveTracker::new(c.get_config_version());
    assert!(!tracker.save_due(c.get_config_version()));
    c.set_config(change(false, false, true, false));
    assert!(tracker.save_due(c.get_config_version()));
    tracker.mark_saved(c.get_config_version());
    assert!(!tracker.save_due(c.get_config_version()));
    c.set_config(change(false, false, true, false));
    c.set_config(change(false, false, true, false));
    assert!(tracker.save_due(c.get_config_version()));
}

#[test]
fn the_version_is_looked_at_after_200_ms() {
    assert!(!SaveTracker::check_due(0));
    assert!(!SaveTracker::check_due(200_000_000));
    assert!(SaveTracker::check_due(200_000_001));
}

#[test]
fn control_points_form_a_ring() {
    assert_eq!(ring_neighbours(0, 4), (3, 1));
    assert_eq!(ring_neighbours(1, 4), (0, 2));
    assert_eq!(ring_neighbours(3, 4), (2, 0));
    assert_eq!(ring_neighbours(0, 1), (0, 0));
    assert_eq!(ring_neighbours(0, 2), (1, 1));
    assert_eq!(ring_neighbours(usize::MAX - 1, usize::MAX), (usize::MAX - 2, 0));
    for n in 1..20usize {
        for i in 0..n {
            assert_eq!(ring_neighbours(i, n), ((i + n - 1) % n, (i + 1) % n));
        }
    }
}

#[test]
fn the_last_segment_ends_at_the_first_point() {
    assert_eq!(segment_ends(0, 4), (0, 1));
    assert_eq!(segment_ends(2, 4), (2, 3));
    assert_eq!(segment_ends(3, 4), (3, 0));
    assert_eq!(segment_ends(4, 4), (3, 0));
    assert_eq!(segment_ends(usize::MAX, 4), (3, 0));
    assert_eq!(segment_ends(7, 1), (0, 0));
}

#[test]
fn a_phase_lies_between_two_table_entries() {
    assert_eq!(SPLINE_RESOLUTION, 1500);
    assert_eq!(table_cells(0, 1500), (0, 1));
    assert_eq!(table_cells(1497, 1500), (1497, 1498));
    assert_eq!(table_cells(1498, 1500), (1498, 1499));
    assert_eq!(table_cells(1499, 1500), (1499, 1499));
    assert_eq!(table_cells(usize::MAX, 1500), (1499, 1499));
    assert_eq!(table_cells(0, 1), (0, 0));
}
