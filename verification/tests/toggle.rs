use pico_timing::platform::Platform;
use pico_timing::primitives::Test;
use pico_timing::program::RawLoop;
use pico_timing::strategy::{DelayStrategy, SpinDuration};
use pico_timing::toggle::{Action, Phase, ToggleLoop};

fn steps(machine: &mut ToggleLoop, n: usize) -> Vec<Action> {
    let mut out = Vec::new();
    for _ in 0..n {
        assert!(machine.can_step());
        out.push(machine.step());
    }
    out
}

#[test]
fn a_new_loop_is_idle() {
    let m = ToggleLoop::new(DelayStrategy::CooperativeWait { micros: 100 }, 42);
    assert_eq!(m.phase, Phase::Idle);
    assert_eq!(m.issued, 0);
    assert_eq!(m.deadline, 42);
    assert_eq!(m.period_ticks, 0);
    assert_eq!(m.strategy, DelayStrategy::CooperativeWait { micros: 100 });
    let m = ToggleLoop::new(DelayStrategy::DeadlineSchedule { period_micros: 10 }, 42);
    assert_eq!(m.phase, Phase::Idle);
    assert_eq!(m.deadline, 42);
    assert_eq!(m.period_ticks, 10);
}

#[test]
fn cooperative_wait_suspends_once_per_pause() {
    let mut m = ToggleLoop::new(DelayStrategy::CooperativeWait { micros: 100 }, 0);
    let wait = Action::TimerWait { micros: 100 };
    assert_eq!(
        steps(&mut m, 9),
        vec![
            Action::DriveHigh,
            wait,
            Action::DriveLow,
            wait,
            Action::DriveHigh,
            wait,
            Action::DriveLow,
            wait,
            Action::DriveHigh,
        ]
    );
    assert!(wait.is_suspension());
    assert_eq!(DelayStrategy::CooperativeWait { micros: 100 }.suspension_points(), 1);
    assert!(!DelayStrategy::CooperativeWait { micros: 100 }.blocks());
}

#[test]
fn blocking_spin_never_suspends() {
    for duration in [SpinDuration::Micros(100), SpinDuration::Nanos(100), SpinDuration::Cycles(2)] {
        let strategy = DelayStrategy::BlockingSpin { duration };
        let mut m = ToggleLoop::new(strategy, 0);
        let actions = steps(&mut m, 400);
        for (i, a) in actions.iter().enumerate() {
            assert!(!a.is_suspension());
            assert_ne!(*a, Action::Yield);
            let want = match i % 4 {
                0 => Action::DriveHigh,
                2 => Action::DriveLow,
                _ => Action::Spin { duration },
            };
            assert_eq!(*a, want);
        }
        assert_eq!(strategy.suspension_points(), 0);
        assert!(strategy.blocks());
    }
}

#[test]
fn a_spin_of_no_cycles_is_no_pause() {
    let strategy = DelayStrategy::BlockingSpin { duration: SpinDuration::Cycles(0) };
    let mut m = ToggleLoop::new(strategy, 0);
    assert_eq!(
        steps(&mut m, 5),
        vec![
            Action::DriveHigh,
            Action::DriveLow,
            Action::DriveHigh,
            Action::DriveLow,
            Action::DriveHigh
        ]
    );
    let strategy = DelayStrategy::BlockingSpin { duration: SpinDuration::Micros(0) };
    let mut m = ToggleLoop::new(strategy, 0);
    assert_eq!(
        steps(&mut m, 3),
        vec![
            Action::DriveHigh,
            Action::Spin { duration: SpinDuration::Micros(0) },
            Action::DriveLow
        ]
    );
}

#[test]
fn spin_then_yield_yields_after_the_spin() {
    let strategy = DelayStrategy::BlockingSpinThenYield { micros: 10 };
    let mut m = ToggleLoop::new(strategy, 0);
    let spin = Action::Spin { duration: SpinDuration::Micros(10) };
    assert_eq!(
        steps(&mut m, 7),
        vec![
            Action::DriveHigh,
            spin,
            Action::Yield,
            Action::DriveLow,
            spin,
            Action::Yield,
            Action::DriveHigh,
        ]
    );
    assert!(Action::Yield.is_suspension());
    assert!(!spin.is_suspension());
    assert_eq!(strategy.suspension_points(), 1);
    assert!(strategy.blocks());
}

#[test]
fn raw_cycle_delay_burns_the_written_cycles() {
    let strategy = DelayStrategy::raw(RawLoop::Period200ns, Platform::Pico2);
    let mut m = ToggleLoop::new(strategy, 0);
    assert_eq!(
        steps(&mut m, 5),
        vec![
            Action::DriveHigh,
            Action::Burn { cycles: 10 },
            Action::DriveLow,
            Action::Burn { cycles: 9 },
            Action::DriveHigh,
        ]
    );
    assert!(!Action::Burn { cycles: 10 }.is_suspension());
    assert_eq!(strategy.suspension_points(), 0);
    assert!(strategy.blocks());
    let strategy = DelayStrategy::raw(RawLoop::PeriodMin, Platform::Pico);
    let mut m = ToggleLoop::new(strategy, 0);
    assert_eq!(steps(&mut m, 3), vec![Action::DriveHigh, Action::DriveLow, Action::DriveHigh]);
    let strategy = DelayStrategy::RawCycleDelay {
        routine: RawLoop::PeriodMin,
        high_cycles: 0,
        low_cycles: 5,
        adjustment: 6,
    };
    let mut m = ToggleLoop::new(strategy, 0);
    assert_eq!(
        steps(&mut m, 4),
        vec![Action::DriveHigh, Action::DriveLow, Action::Burn { cycles: 5 }, Action::DriveHigh]
    );
}

#[test]
fn deadline_schedule_adds_the_period_to_a_running_instant() {
    let strategy = DelayStrategy::DeadlineSchedule { period_micros: 10 };
    let mut m = ToggleLoop::new(strategy, 5);
    assert_eq!(
        steps(&mut m, 5),
        vec![
            Action::DriveHigh,
            Action::WaitUntil { ticks: 15 },
            Action::DriveLow,
            Action::WaitUntil { ticks: 25 },
            Action::DriveHigh,
        ]
    );
    assert_eq!(m.deadline, 25);
    assert!(Action::WaitUntil { ticks: 15 }.is_suspension());
    assert_eq!(strategy.suspension_points(), 1);
    assert!(!strategy.blocks());
}

#[test]
fn deadlines_do_not_drift_over_1000_iterations() {
    let start: u64 = 123_456_789;
    let mut m = ToggleLoop::new(DelayStrategy::DeadlineSchedule { period_micros: 10 }, start);
    let mut waits: u64 = 0;
    for _ in 0..1000 {
        assert_eq!(m.step(), Action::DriveHigh);
        waits += 1;
        assert_eq!(m.step(), Action::WaitUntil { ticks: start + waits * 10 });
        assert_eq!(m.step(), Action::DriveLow);
        waits += 1;
        assert_eq!(m.step(), Action::WaitUntil { ticks: start + waits * 10 });
    }
    assert_eq!(waits, 2000);
    assert_eq!(m.deadline, start + 20_000);
}

#[test]
fn the_loop_never_returns_to_idle_and_keeps_its_strategy() {
    let strategies = [
        DelayStrategy::CooperativeWait { micros: 1 },
        DelayStrategy::BlockingSpin { duration: SpinDuration::Cycles(0) },
        DelayStrategy::BlockingSpin { duration: SpinDuration::Nanos(100) },
        DelayStrategy::BlockingSpinThenYield { micros: 1 },
        DelayStrategy::raw(RawLoop::Period80ns, Platform::Pico),
        DelayStrategy::DeadlineSchedule { period_micros: 10 },
    ];
    for strategy in strategies {
        let mut m = ToggleLoop::new(strategy, 0);
        let mut level_high = false;
        for _ in 0..1000 {
            assert!(m.can_step());
            let a = m.step();
            assert_ne!(m.phase, Phase::Idle);
            assert_eq!(m.strategy, strategy);
            match a {
                Action::DriveHigh => {
                    assert!(!level_high);
                    level_high = true;
                    assert_eq!(m.phase, Phase::High);
                },
                Action::DriveLow => {
                    assert!(level_high);
                    level_high = false;
                    assert_eq!(m.phase, Phase::Low);
                },
                _ => {},
            }
        }
    }
}

#[test]
fn a_deadline_that_does_not_fit_is_told_before_the_step() {
    let strategy = DelayStrategy::DeadlineSchedule { period_micros: 10 };
    let m = ToggleLoop::new(strategy, u64::MAX - 9);
    assert!(!m.can_step());
    let mut m = ToggleLoop::new(strategy, u64::MAX - 10);
    assert!(m.can_step());
    assert_eq!(m.step(), Action::DriveHigh);
    assert!(m.can_step());
    assert_eq!(m.step(), Action::WaitUntil { ticks: u64::MAX });
    assert!(!m.can_step());
    let m = ToggleLoop::new(DelayStrategy::CooperativeWait { micros: 1 }, u64::MAX);
    assert!(m.can_step());
}

#[test]
fn the_largest_period_is_converted_to_ticks() {
    let strategy = DelayStrategy::DeadlineSchedule { period_micros: u32::MAX };
    let mut m = ToggleLoop::new(strategy, 1);
    assert_eq!(m.period_ticks, u32::MAX as u64);
    assert_eq!(m.step(), Action::DriveHigh);
    assert_eq!(m.step(), Action::WaitUntil { ticks: 1 + u32::MAX as u64 });
}

#[test]
fn selected_variants_drive_the_loop() {
    let v = Test::select("single-gpio", 19, Platform::Pico).unwrap();
    let mut m = ToggleLoop::new(v.strategy, 1_000);
    assert_eq!(
        steps(&mut m, 4),
        vec![
            Action::DriveHigh,
            Action::WaitUntil { ticks: 1_010 },
            Action::DriveLow,
            Action::WaitUntil { ticks: 1_020 },
        ]
    );
    let v = Test::select("single-gpio", 13, Platform::Pico).unwrap();
    let mut m = ToggleLoop::new(v.strategy, 0);
    assert_eq!(steps(&mut m, 2), vec![Action::DriveHigh, Action::DriveLow]);
}

#[test]
fn ticks_are_microseconds() {
    assert_eq!(pico_timing::clock::TICK_HZ, 1_000_000);
    assert_eq!(pico_timing::clock::TICK_HZ, embassy_time::TICK_HZ);
}
