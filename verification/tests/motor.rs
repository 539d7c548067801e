use ossm::master::ModbusRTUMaster;
use ossm::motion::PositionGenerator;
use ossm::motor_57aim30::{
    position_from_words, position_words, Bringup, Homing, HomingStage, Leg, LinkReport,
    Modbus57AIM30Motor, ModbusScanResult, MotorError, Op, Outcome, Scan, ScanStage, StableWait,
    Step, WaitStage,
};

fn motor() -> Modbus57AIM30Motor {
    Modbus57AIM30Motor::new(ModbusRTUMaster::new(115200, 1000, false, 1))
}

fn position(p: i32) -> Outcome {
    let (low, high) = position_words(p);
    Outcome::Registers(vec![low, high])
}

const READ_POSITION: Op = Op::Read { addr: 0x16, count: 2 };

/// A motor that stands still at the positions of `rests`, one per watch:
/// every write and sleep succeeds, the clock stands at zero.
fn home(motor: &mut Modbus57AIM30Motor, rests: [i32; 3]) -> (Step<()>, Vec<Op>) {
    let (mut homing, first) = motor.homing();
    let mut asked = vec![first];
    let mut watch = 0;
    let mut step = Step::Do(first);
    for _ in 0..100 {
        let outcome = match step {
            Step::Do(Op::Read { .. }) => position(rests[watch]),
            Step::Do(Op::ReadClock) => Outcome::Elapsed(0),
            Step::Do(Op::StartClock) => {
                if asked.len() > 7 {
                    watch = (asked.iter().filter(|op| **op == Op::StartClock).count() - 1).min(2);
                }
                Outcome::Done
            }
            Step::Do(_) => Outcome::Done,
            _ => return (step, asked),
        };
        step = homing.step(motor, outcome);
        if let Step::Do(op) = step {
            asked.push(op);
        }
    }
    panic!("homing did not end");
}

#[test]
fn position_words_are_low_then_high() {
    assert_eq!(position_words(0), (0, 0));
    assert_eq!(position_words(1), (1, 0));
    assert_eq!(position_words(-1), (0xffff, 0xffff));
    assert_eq!(position_words(0x12345678), (0x5678, 0x1234));
    assert_eq!(position_words(-1_000_000), (0xbdc0, 0xfff0));
    assert_eq!(position_words(1_000_000), (0x4240, 0x000f));
    assert_eq!(position_words(i32::MAX), (0xffff, 0x7fff));
    assert_eq!(position_words(i32::MIN), (0x0000, 0x8000));
}

#[test]
fn position_is_high_shifted_or_low() {
    assert_eq!(position_from_words(&[0x5678, 0x1234]), 0x12345678);
    assert_eq!(position_from_words(&[0xec78, 0xffff]), -5000);
    assert_eq!(position_from_words(&[0x1388, 0x0000]), 5000);
    assert_eq!(position_from_words(&[0x0000, 0x8000]), i32::MIN);
    assert_eq!(position_from_words(&[0xffff, 0x7fff]), i32::MAX);
    for (low, high) in [(0u16, 0u16), (1, 2), (0xffff, 0xffff), (0x8000, 0x8000), (7, 0xfffe)] {
        assert_eq!(position_from_words(&[low, high]), ((high as i32) << 16) | low as i32);
    }
}

#[test]
fn missing_registers_count_as_zero() {
    assert_eq!(position_from_words(&[]), 0);
    assert_eq!(position_from_words(&[0x1234]), 0x1234);
    assert_eq!(position_from_words(&[1, 2, 3]), 0x20001);
}

#[test]
fn positions_survive_the_registers() {
    for p in [0, 1, -1, 5000, -5000, 65535, 65536, -65536, -65537, i32::MAX, i32::MIN, 123456789] {
        let (low, high) = position_words(p);
        assert_eq!(position_from_words(&[low, high]), p);
    }
}

#[test]
fn a_fresh_motor_is_unhomed() {
    let m = motor();
    assert_eq!(m.pos_min(), 0);
    assert_eq!(m.pos_max(), 0);
    assert_eq!(m.client().device_id(), 1);
}

#[test]
fn a_target_of_zero_is_written_as_one() {
    let m = motor();
    assert_eq!(m.write_position(0), Op::WritePair { addr: 0x16, low: 1, high: 0 });
    assert_eq!(m.write_position(1), Op::WritePair { addr: 0x16, low: 1, high: 0 });
    assert_eq!(m.write_position(-1), Op::WritePair { addr: 0x16, low: 0xffff, high: 0xffff });
    assert_eq!(m.write_position(70000), Op::WritePair { addr: 0x16, low: 0x1170, high: 1 });
    assert_eq!(m.write_position_raw(0), Op::WritePair { addr: 0x16, low: 0, high: 0 });
    assert_eq!(m.reset_position(), Op::WritePair { addr: 0x16, low: 0, high: 0 });
}

#[test]
fn each_setter_writes_its_register() {
    let m = motor();
    assert_eq!(m.set_max_power(350), Op::Write { addr: 0x18, value: 350 });
    assert_eq!(m.set_acceleration(40000), Op::Write { addr: 0x03, value: 40000 });
    assert_eq!(m.set_position_ring_ratio(3000), Op::Write { addr: 0x07, value: 3000 });
    assert_eq!(m.set_speed_ring_ratio(3000), Op::Write { addr: 0x05, value: 3000 });
    assert_eq!(m.enable_modbus_communication(), Op::Write { addr: 0x00, value: 1 });
    assert_eq!(m.read_position(), READ_POSITION);
}

#[test]
fn baud_rate_change_is_four_writes() {
    let m = motor();
    for (rate, code) in [(9600, 800), (19200, 801), (38400, 802), (115200, 803)] {
        assert_eq!(
            m.modbus_set_baud_rate(rate),
            Ok([
                Op::Write { addr: 0x00, value: 1 },
                Op::Write { addr: 0x03, value: code },
                Op::Write { addr: 0x04, value: 129 },
                Op::Write { addr: 0x00, value: 506 },
            ])
        );
    }
}

#[test]
fn baud_rate_without_code_is_refused() {
    let m = motor();
    for rate in [0, 4800, 57600, 115201] {
        assert_eq!(m.modbus_set_baud_rate(rate), Err(MotorError::InvalidBaudRate));
    }
}

#[test]
fn wait_finds_the_axis_at_rest() {
    let (mut wait, first) = motor().wait_stable_position(5000);
    assert_eq!(first, Op::StartClock);
    assert_eq!(wait.step(Outcome::Done), Step::Do(READ_POSITION));
    assert_eq!(wait.step(position(100)), Step::Do(Op::ReadClock));
    assert_eq!(wait.step(Outcome::Elapsed(3)), Step::Do(READ_POSITION));
    assert_eq!(wait.step(position(150)), Step::Do(Op::Sleep { ms: 100 }));
    assert_eq!(wait.step(Outcome::Done), Step::Do(Op::ReadClock));
    assert_eq!(wait.step(Outcome::Elapsed(110)), Step::Do(READ_POSITION));
    assert_eq!(wait.step(position(159)), Step::Finished(159));
    assert_eq!(wait.stage, WaitStage::Ended);
}

#[test]
fn rest_is_less_than_ten_counts_either_way() {
    for (earlier, later, at_rest) in [
        (0, 9, true),
        (0, -9, true),
        (0, 10, false),
        (0, -10, false),
        (-5, 4, true),
        (i32::MAX, i32::MIN, false),
        (i32::MIN, i32::MAX, false),
        (i32::MAX, i32::MAX - 9, true),
    ] {
        let mut wait = StableWait { stage: WaitStage::Polling(earlier), timeout_ms: 5000 };
        let step = wait.step(position(later));
        if at_rest {
            assert_eq!(step, Step::Finished(later));
        } else {
            assert_eq!(step, Step::Do(Op::Sleep { ms: 100 }));
            assert_eq!(wait.stage, WaitStage::Pausing(later));
        }
    }
}

#[test]
fn wait_gives_up_when_the_time_is_over() {
    let mut wait = StableWait { stage: WaitStage::Checking(7), timeout_ms: 5000 };
    assert_eq!(wait.step(Outcome::Elapsed(4999)), Step::Do(READ_POSITION));
    let mut wait = StableWait { stage: WaitStage::Checking(7), timeout_ms: 5000 };
    assert_eq!(wait.step(Outcome::Elapsed(5000)), Step::Failed(MotorError::Unstable));
    assert_eq!(wait.stage, WaitStage::Ended);
    assert_eq!(wait.step(Outcome::Elapsed(0)), Step::Failed(MotorError::OutOfTurn));
}

#[test]
fn a_moving_axis_is_never_at_rest() {
    let (mut wait, _) = motor().wait_stable_position(5000);
    let mut step = wait.step(Outcome::Done);
    let mut at = 0;
    let mut clock = 0;
    for _ in 0..1000 {
        step = match step {
            Step::Do(Op::Read { .. }) => {
                at += 10;
                wait.step(position(at))
            }
            Step::Do(Op::ReadClock) => wait.step(Outcome::Elapsed(clock)),
            Step::Do(Op::Sleep { ms }) => {
                clock += ms as u64;
                wait.step(Outcome::Done)
            }
            _ => break,
        };
    }
    assert_eq!(step, Step::Failed(MotorError::Unstable));
    assert_eq!(clock, 5000);
}

#[test]
fn a_failure_on_the_link_ends_the_wait() {
    let (mut wait, _) = motor().wait_stable_position(5000);
    wait.step(Outcome::Done);
    assert_eq!(wait.step(Outcome::Failed), Step::Failed(MotorError::Bus));
    let (mut wait, _) = motor().wait_stable_position(5000);
    assert_eq!(wait.step(Outcome::Elapsed(1)), Step::Failed(MotorError::OutOfTurn));
}

#[test]
fn homing_math() {
    let mut m = motor();
    let (step, _) = home(&mut m, [-5000, 5000, 0]);
    assert_eq!(step, Step::Finished(()));
    assert_eq!(m.pos_min(), -2000);
    assert_eq!(m.pos_max(), 2000);
    let generator = PositionGenerator::new(m.pos_min(), m.pos_max());
    assert_eq!(generator.range(), 4000);
    assert_eq!((0.5f32 * generator.range() as f32 + generator.pos_min() as f32) as i32, 0);
}

#[test]
fn homing_asks_for_its_steps_in_order() {
    let mut m = motor();
    let (_, asked) = home(&mut m, [-5000, 5000, 0]);
    let watch = [Op::StartClock, READ_POSITION, Op::ReadClock, READ_POSITION];
    let mut expected = vec![
        Op::Write { addr: 0x18, value: 60 },
        Op::Write { addr: 0x03, value: 10000 },
        Op::WritePair { addr: 0x16, low: 0, high: 0 },
        Op::WritePair { addr: 0x16, low: 0xbdc0, high: 0xfff0 },
        Op::Sleep { ms: 5000 },
    ];
    expected.extend(watch);
    expected.push(Op::WritePair { addr: 0x16, low: 0x4240, high: 0x000f });
    expected.push(Op::Sleep { ms: 5000 });
    expected.extend(watch);
    expected.push(Op::WritePair { addr: 0x16, low: 1, high: 0 });
    expected.push(Op::Sleep { ms: 5000 });
    expected.extend(watch);
    assert_eq!(asked, expected);
}

#[test]
fn homing_goes_to_the_middle_rounded_towards_zero() {
    let mut m = motor();
    let (_, asked) = home(&mut m, [-10000, 4001, 0]);
    assert_eq!((m.pos_min(), m.pos_max()), (-7000, 1001));
    let (low, high) = position_words(-2999);
    assert_eq!(asked[asked.len() - 6], Op::WritePair { addr: 0x16, low, high });
    let mut m = motor();
    let (_, asked) = home(&mut m, [-4001, 10000, 0]);
    assert_eq!((m.pos_min(), m.pos_max()), (-1001, 7000));
    let (low, high) = position_words(2999);
    assert_eq!(asked[asked.len() - 6], Op::WritePair { addr: 0x16, low, high });
}

#[test]
fn homing_fails_when_the_axis_does_not_rest() {
    let mut m = motor();
    let (mut homing, _) = m.homing();
    for _ in 0..5 {
        homing.step(&mut m, Outcome::Done);
    }
    assert_eq!(homing.stage, HomingStage::Wait(Leg::Low));
    assert_eq!(homing.step(&mut m, Outcome::Done), Step::Do(READ_POSITION));
    assert_eq!(homing.step(&mut m, position(-900_000)), Step::Do(Op::ReadClock));
    assert_eq!(homing.step(&mut m, Outcome::Elapsed(5001)), Step::Failed(MotorError::Unstable));
    assert_eq!(homing.stage, HomingStage::Ended);
    assert_eq!((m.pos_min(), m.pos_max()), (0, 0));
    assert_eq!(homing.step(&mut m, Outcome::Done), Step::Failed(MotorError::OutOfTurn));
}

#[test]
fn homing_fails_with_the_link() {
    let mut m = motor();
    let (mut homing, _) = m.homing();
    assert_eq!(homing.step(&mut m, Outcome::Done), Step::Do(Op::Write { addr: 3, value: 10000 }));
    assert_eq!(homing.step(&mut m, Outcome::Failed), Step::Failed(MotorError::Bus));
    let mut m = motor();
    let (mut homing, _) = m.homing();
    assert_eq!(homing.step(&mut m, Outcome::Elapsed(3)), Step::Failed(MotorError::OutOfTurn));
}

#[test]
fn a_limit_beyond_the_register_fails_homing() {
    let mut m = motor();
    let mut homing = Homing {
        stage: HomingStage::Wait(Leg::Low),
        wait: StableWait { stage: WaitStage::Polling(i32::MAX - 2995), timeout_ms: 5000 },
        limits: (0, 0),
    };
    assert_eq!(homing.step(&mut m, position(i32::MAX - 2999)), Step::Failed(MotorError::Range));
    assert_eq!(homing.limits, (0, 0));
    let mut homing = Homing {
        stage: HomingStage::Wait(Leg::Low),
        wait: StableWait { stage: WaitStage::Polling(i32::MAX - 3000), timeout_ms: 5000 },
        limits: (0, 0),
    };
    assert!(matches!(homing.step(&mut m, position(i32::MAX - 3000)), Step::Do(_)));
    assert_eq!(homing.limits, (i32::MAX, 0));
    assert_eq!((m.pos_min(), m.pos_max()), (0, 0));
}

/// Takes homing through its first watch with the axis at rest at `low`.
fn to_the_second_run(m: &mut Modbus57AIM30Motor, low: i32) -> Homing {
    let (mut homing, _) = m.homing();
    for _ in 0..6 {
        homing.step(m, Outcome::Done);
    }
    homing.step(m, position(low));
    homing.step(m, Outcome::Elapsed(0));
    let seek = homing.step(m, position(low));
    assert_eq!(seek, Step::Do(Op::WritePair { addr: 0x16, low: 0x4240, high: 0x000f }));
    assert_eq!(homing.stage, HomingStage::Seek(Leg::High));
    homing
}

#[test]
fn limits_reach_the_motor_only_when_homing_finishes() {
    let mut m = motor();
    let mut homing = to_the_second_run(&mut m, -5000);
    assert_eq!(homing.limits, (-2000, 0));
    assert_eq!((m.pos_min(), m.pos_max()), (0, 0));
    homing.step(&mut m, Outcome::Done);
    homing.step(&mut m, Outcome::Done);
    homing.step(&mut m, Outcome::Done);
    homing.step(&mut m, position(5000));
    homing.step(&mut m, Outcome::Elapsed(0));
    assert!(matches!(homing.step(&mut m, position(5000)), Step::Do(_)));
    assert_eq!(homing.limits, (-2000, 2000));
    assert_eq!((m.pos_min(), m.pos_max()), (0, 0));
    homing.step(&mut m, Outcome::Done);
    homing.step(&mut m, Outcome::Done);
    homing.step(&mut m, Outcome::Done);
    homing.step(&mut m, position(1));
    homing.step(&mut m, Outcome::Elapsed(0));
    assert_eq!((m.pos_min(), m.pos_max()), (0, 0));
    assert_eq!(homing.step(&mut m, position(1)), Step::Finished(()));
    assert_eq!((m.pos_min(), m.pos_max()), (-2000, 2000));
}

#[test]
fn a_second_watch_that_runs_out_of_time_leaves_the_motor_unhomed() {
    let mut m = motor();
    let mut homing = to_the_second_run(&mut m, -5000);
    assert_eq!(homing.step(&mut m, Outcome::Done), Step::Do(Op::Sleep { ms: 5000 }));
    assert_eq!(homing.step(&mut m, Outcome::Done), Step::Do(Op::StartClock));
    assert_eq!(homing.step(&mut m, Outcome::Done), Step::Do(READ_POSITION));
    assert_eq!(homing.step(&mut m, position(900_000)), Step::Do(Op::ReadClock));
    assert_eq!(homing.step(&mut m, Outcome::Elapsed(5000)), Step::Failed(MotorError::Unstable));
    assert_eq!((m.pos_min(), m.pos_max()), (0, 0));

    // the motor is un-homed still, so that homing can be started again
    let (step, _) = home(&mut m, [-5000, 5000, 0]);
    assert_eq!(step, Step::Finished(()));
    assert_eq!((m.pos_min(), m.pos_max()), (-2000, 2000));
}

#[test]
fn a_failure_on_the_link_after_the_first_watch_leaves_the_motor_unhomed() {
    for done in 0..5 {
        let mut m = motor();
        let mut homing = to_the_second_run(&mut m, -5000);
        let outcomes =
            [Outcome::Done, Outcome::Done, Outcome::Done, position(7), Outcome::Elapsed(1)];
        for outcome in outcomes.into_iter().take(done) {
            assert!(matches!(homing.step(&mut m, outcome), Step::Do(_)));
        }
        assert_eq!(homing.step(&mut m, Outcome::Failed), Step::Failed(MotorError::Bus));
        assert_eq!((m.pos_min(), m.pos_max()), (0, 0));
    }
}

#[test]
fn a_failure_in_the_last_run_leaves_the_motor_unhomed() {
    let mut m = motor();
    let mut homing = Homing {
        stage: HomingStage::Wait(Leg::Middle),
        wait: StableWait { stage: WaitStage::Checking(3), timeout_ms: 5000 },
        limits: (-2000, 2000),
    };
    assert_eq!(homing.step(&mut m, Outcome::Elapsed(6000)), Step::Failed(MotorError::Unstable));
    assert_eq!((m.pos_min(), m.pos_max()), (0, 0));
}

#[test]
fn end_stops_that_are_too_close_cannot_be_homed() {
    let mut m = motor();
    let (step, _) = home(&mut m, [-1000, 1000, 0]);
    assert_eq!(step, Step::Failed(MotorError::NoTravel));
    assert_eq!((m.pos_min(), m.pos_max()), (0, 0));

    let mut m = motor();
    let (step, _) = home(&mut m, [-3000, 3000, 0]);
    assert_eq!(step, Step::Failed(MotorError::NoTravel));
    assert_eq!((m.pos_min(), m.pos_max()), (0, 0));

    let mut m = motor();
    let (step, _) = home(&mut m, [-3000, 3001, 0]);
    assert_eq!(step, Step::Finished(()));
    assert_eq!((m.pos_min(), m.pos_max()), (0, 1));

    let mut m = motor();
    let mut homing = Homing {
        stage: HomingStage::Wait(Leg::High),
        wait: StableWait { stage: WaitStage::Polling(i32::MIN + 2995), timeout_ms: 5000 },
        limits: (i32::MIN, 0),
    };
    assert_eq!(
        homing.step(&mut m, position(i32::MIN + 2999)),
        Step::Failed(MotorError::NoTravel)
    );

    // limits that are not in order do not reach the motor either
    let mut homing = Homing {
        stage: HomingStage::Wait(Leg::Middle),
        wait: StableWait { stage: WaitStage::Polling(0), timeout_ms: 5000 },
        limits: (2000, -2000),
    };
    assert_eq!(homing.step(&mut m, position(0)), Step::Failed(MotorError::NoTravel));
    assert_eq!((m.pos_min(), m.pos_max()), (0, 0));
}

#[test]
fn a_homed_motor_is_not_unhomed() {
    let mut m = motor();
    let (step, _) = home(&mut m, [-3000, 3001, 0]);
    assert_eq!(step, Step::Finished(()));
    assert!(m.pos_min() < m.pos_max());
    assert!((m.pos_min(), m.pos_max()) != (0, 0));
}

#[test]
fn scan_finds_the_first_unit_that_answers() {
    let mut m = motor();
    let (mut scan, first) = m.modbus_scan();
    assert_eq!(first, Op::ChangeBaudrate(115200));
    assert_eq!(scan.step(&mut m, Outcome::Done), Step::Do(Op::Read { addr: 0, count: 1 }));
    assert_eq!(m.client().device_id(), 1);
    assert_eq!(scan.step(&mut m, Outcome::Failed), Step::Do(Op::Read { addr: 0, count: 1 }));
    assert_eq!(m.client().device_id(), 2);
    assert_eq!(scan.step(&mut m, Outcome::Failed), Step::Do(Op::Read { addr: 0, count: 1 }));
    assert_eq!(
        scan.step(&mut m, Outcome::Registers(vec![0])),
        Step::Finished(ModbusScanResult { baud_rate: 115200, device_id: 3 })
    );
    assert_eq!(m.client().device_id(), 3);
    assert_eq!(scan.stage, ScanStage::Ended);
}

#[test]
fn scan_goes_through_the_baud_rates_in_order() {
    let mut m = motor();
    let (mut scan, first) = m.modbus_scan();
    let mut rates = vec![];
    let mut probes = 0;
    let mut step = Step::Do(first);
    for _ in 0..2000 {
        step = match step {
            Step::Do(Op::ChangeBaudrate(rate)) => {
                rates.push(rate);
                let next = scan.step(&mut m, Outcome::Done);
                assert_eq!(m.client().device_id(), 1);
                let timeout = ModbusRTUMaster::get_operation_timeout(rate, 1000).unwrap();
                assert_eq!(m.client().read_timeout(), timeout);
                assert_eq!(m.client().write_timeout(), timeout);
                next
            }
            Step::Do(Op::Read { addr: 0, count: 1 }) => {
                probes += 1;
                assert_eq!(m.client().device_id() as usize, (probes - 1) % 247 + 1);
                scan.step(&mut m, Outcome::Failed)
            }
            _ => break,
        };
    }
    assert_eq!(step, Step::Failed(MotorError::NoDevice));
    assert_eq!(rates, vec![115200, 9600, 19200, 38400]);
    assert_eq!(probes, 4 * 247);
    assert_eq!(m.client().device_id(), 247);
}

#[test]
fn scan_reports_the_baud_rate_of_the_answer() {
    let mut m = motor();
    let mut scan = Scan { stage: ScanStage::Probing, rate: 2, unit: 247 };
    assert_eq!(
        scan.step(&mut m, Outcome::Registers(vec![])),
        Step::Finished(ModbusScanResult { baud_rate: 19200, device_id: 247 })
    );
    let mut scan = Scan { stage: ScanStage::Probing, rate: 1, unit: 247 };
    assert_eq!(scan.step(&mut m, Outcome::Failed), Step::Do(Op::ChangeBaudrate(19200)));
    assert_eq!(scan, Scan { stage: ScanStage::Tuning, rate: 2, unit: 247 });
}

#[test]
fn scan_fails_when_the_line_cannot_be_tuned() {
    let mut m = motor();
    let (mut scan, _) = m.modbus_scan();
    assert_eq!(scan.step(&mut m, Outcome::Failed), Step::Failed(MotorError::Bus));
    assert_eq!(scan.step(&mut m, Outcome::Done), Step::Failed(MotorError::OutOfTurn));
    assert_eq!(m.client().read_timeout(), 5);
}

#[test]
fn cycle_leaves_the_motor_alone() {
    let mut m = motor();
    home(&mut m, [-5000, 5000, 0]);
    m.cycle();
    assert_eq!((m.pos_min(), m.pos_max()), (-2000, 2000));
}

#[test]
fn a_servo_that_answers_is_enabled_twice() {
    let mut m = motor();
    let (mut bringup, first) = Bringup::begin(&m, 115200);
    let enable = Op::Write { addr: 0, value: 1 };
    assert_eq!(first, enable);
    assert_eq!(bringup.step(&mut m, Outcome::Done), Step::Do(enable));
    assert_eq!(
        bringup.step(&mut m, Outcome::Done),
        Step::Finished(LinkReport { found: None, retuned: false })
    );
    assert_eq!(bringup.step(&mut m, Outcome::Done), Step::Failed(MotorError::OutOfTurn));
}

#[test]
fn a_servo_at_another_baud_rate_is_retuned() {
    let mut m = motor();
    let (mut bringup, _) = Bringup::begin(&m, 115200);
    let mut asked = vec![];
    let mut step = bringup.step(&mut m, Outcome::Failed);
    let mut rate = 0;
    for _ in 0..1000 {
        step = match step {
            Step::Do(op) => {
                asked.push(op);
                let outcome = match op {
                    Op::ChangeBaudrate(r) => {
                        rate = r;
                        Outcome::Done
                    }
                    Op::Read { .. } if rate == 9600 && m.client().device_id() == 5 => {
                        Outcome::Registers(vec![1])
                    }
                    Op::Read { .. } => Outcome::Failed,
                    _ => Outcome::Done,
                };
                bringup.step(&mut m, outcome)
            }
            _ => break,
        };
    }
    let found = ModbusScanResult { baud_rate: 9600, device_id: 5 };
    assert_eq!(step, Step::Finished(LinkReport { found: Some(found), retuned: true }));
    assert_eq!(asked.len(), 1 + 247 + 1 + 5 + 4 + 1);
    assert_eq!(
        &asked[asked.len() - 5..],
        &[
            Op::Write { addr: 0x00, value: 1 },
            Op::Write { addr: 0x03, value: 803 },
            Op::Write { addr: 0x04, value: 129 },
            Op::Write { addr: 0x00, value: 506 },
            Op::Write { addr: 0x00, value: 1 },
        ]
    );
    assert_eq!(m.client().device_id(), 5);
    assert_eq!(m.client().read_timeout(), 100);
}

#[test]
fn a_servo_found_at_the_wanted_baud_rate_is_not_retuned() {
    let mut m = motor();
    let (mut bringup, _) = Bringup::begin(&m, 115200);
    assert_eq!(bringup.step(&mut m, Outcome::Failed), Step::Do(Op::ChangeBaudrate(115200)));
    assert_eq!(bringup.step(&mut m, Outcome::Done), Step::Do(Op::Read { addr: 0, count: 1 }));
    assert_eq!(
        bringup.step(&mut m, Outcome::Registers(vec![0])),
        Step::Do(Op::Write { addr: 0, value: 1 })
    );
    let found = ModbusScanResult { baud_rate: 115200, device_id: 1 };
    assert_eq!(
        bringup.step(&mut m, Outcome::Done),
        Step::Finished(LinkReport { found: Some(found), retuned: false })
    );
}

#[test]
fn bringing_up_fails_when_the_servo_stays_silent() {
    let mut m = motor();
    let (mut bringup, _) = Bringup::begin(&m, 115200);
    assert_eq!(bringup.step(&mut m, Outcome::Done), Step::Do(Op::Write { addr: 0, value: 1 }));
    assert_eq!(bringup.step(&mut m, Outcome::Failed), Step::Failed(MotorError::Bus));
    let (mut bringup, _) = Bringup::begin(&m, 115200);
    let mut step = bringup.step(&mut m, Outcome::Failed);
    for _ in 0..2000 {
        step = match step {
            Step::Do(Op::ChangeBaudrate(_)) => bringup.step(&mut m, Outcome::Done),
            Step::Do(_) => bringup.step(&mut m, Outcome::Failed),
            _ => break,
        };
    }
    assert_eq!(step, Step::Failed(MotorError::NoDevice));
}

#[test]
fn a_wanted_baud_rate_without_code_cannot_be_set() {
    let mut m = motor();
    let (mut bringup, _) = Bringup::begin(&m, 57600);
    bringup.step(&mut m, Outcome::Failed);
    bringup.step(&mut m, Outcome::Done);
    assert_eq!(
        bringup.step(&mut m, Outcome::Registers(vec![0])),
        Step::Failed(MotorError::InvalidBaudRate)
    );
}
