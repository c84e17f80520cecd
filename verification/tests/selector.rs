use pico_timing::platform::Platform;
use pico_timing::primitives::Test;
use pico_timing::program::RawLoop;
use pico_timing::select::{DriveStrength, SelectError, TestNum, TestType, TestVariant};
use pico_timing::strategy::{DelayStrategy, SpinDuration};

#[test]
fn test_twenty_is_refused_by_name() {
    let r = Test::select("single-gpio", 20, Platform::Pico);
    let e = r.unwrap_err();
    assert_eq!(e, SelectError::NotImplemented { id: 20 });
    assert_eq!(e.id(), Some(20));
    let msg = e.message();
    assert_eq!(msg, "Test 20 not implemented");
    assert!(msg.contains("20"));
}

#[test]
fn every_number_without_a_variant_is_named_in_its_message() {
    for id in 20u32..=25 {
        for platform in [Platform::Pico, Platform::Pico2] {
            let e = Test::select("single-gpio", id, platform).unwrap_err();
            assert_eq!(e, SelectError::NotImplemented { id });
            assert!(e.message().contains(&format!("{}", id)));
        }
    }
}

#[test]
fn every_implemented_number_resolves_on_both_boards() {
    for id in 1u32..=19 {
        for platform in [Platform::Pico, Platform::Pico2] {
            let v = Test::select("single-gpio", id, platform).unwrap();
            assert_eq!(v.number.number(), id);
            assert_eq!(v.platform, platform);
        }
    }
}

#[test]
fn numbers_outside_the_range_are_refused_by_name() {
    for id in [0u32, 26, 27, 100, 4_294_967_295] {
        let e = Test::select("single-gpio", id, Platform::Pico2).unwrap_err();
        assert_eq!(e, SelectError::UnknownTest { id });
        assert!(e.message().contains(&format!("{}", id)));
    }
    assert_eq!(SelectError::UnknownTest { id: 0 }.message(), "Test 0 does not exist");
    assert_eq!(
        SelectError::UnknownTest { id: 4_294_967_295 }.message(),
        "Test 4294967295 does not exist"
    );
}

#[test]
fn unknown_test_type_is_refused() {
    assert_eq!(TestType::get("single-gpio"), Ok(TestType::SingleGpio));
    assert_eq!(TestType::get("single_gpio"), Err(SelectError::UnknownTestType));
    assert_eq!(TestType::get(""), Err(SelectError::UnknownTestType));
    let e = Test::select("dual-gpio", 1, Platform::Pico).unwrap_err();
    assert_eq!(e, SelectError::UnknownTestType);
    assert_eq!(e.id(), None);
    assert_eq!(e.message(), "Test type not known");
}

#[test]
fn the_number_is_looked_at_before_the_type() {
    let e = Test::select("dual-gpio", 99, Platform::Pico).unwrap_err();
    assert_eq!(e, SelectError::UnknownTest { id: 99 });
    let e = Test::select("dual-gpio", 20, Platform::Pico).unwrap_err();
    assert_eq!(e, SelectError::UnknownTestType);
}

#[test]
fn test_numbers_round_trip() {
    for id in 1u32..=25 {
        let t = TestNum::get(id).unwrap();
        assert_eq!(t.number(), id);
        assert_eq!(t.is_implemented(), id <= 19);
    }
    assert_eq!(TestNum::get(1), Ok(TestNum::T1));
    assert_eq!(TestNum::get(25), Ok(TestNum::T25));
    assert_eq!(TestNum::get(0), Err(SelectError::UnknownTest { id: 0 }));
    assert_eq!(TestNum::get(26), Err(SelectError::UnknownTest { id: 26 }));
}

#[test]
fn timed_variants_carry_their_durations() {
    let s = |id: u32| Test::select("single-gpio", id, Platform::Pico).unwrap().strategy;
    assert_eq!(s(1), DelayStrategy::CooperativeWait { micros: 100 });
    assert_eq!(s(2), DelayStrategy::CooperativeWait { micros: 10 });
    assert_eq!(s(3), DelayStrategy::CooperativeWait { micros: 1 });
    assert_eq!(s(4), DelayStrategy::BlockingSpin { duration: SpinDuration::Micros(100) });
    assert_eq!(s(5), DelayStrategy::BlockingSpin { duration: SpinDuration::Micros(10) });
    assert_eq!(s(6), DelayStrategy::BlockingSpin { duration: SpinDuration::Micros(2) });
    assert_eq!(s(7), DelayStrategy::BlockingSpin { duration: SpinDuration::Micros(1) });
    assert_eq!(s(8), DelayStrategy::BlockingSpin { duration: SpinDuration::Nanos(100) });
    assert_eq!(s(9), DelayStrategy::BlockingSpinThenYield { micros: 100 });
    assert_eq!(s(10), DelayStrategy::BlockingSpinThenYield { micros: 10 });
    assert_eq!(s(11), DelayStrategy::BlockingSpinThenYield { micros: 1 });
    assert_eq!(s(12), DelayStrategy::BlockingSpin { duration: SpinDuration::Cycles(2) });
    assert_eq!(s(13), DelayStrategy::BlockingSpin { duration: SpinDuration::Cycles(0) });
    assert_eq!(s(19), DelayStrategy::DeadlineSchedule { period_micros: 10 });
}

#[test]
fn cycle_counted_variants_carry_the_adjustment_of_their_board() {
    let raw = |id: u32, platform: Platform| {
        Test::single_gpio(TestNum::get(id).unwrap(), platform).unwrap().strategy
    };
    let expect = |routine, high_cycles, low_cycles, adjustment| DelayStrategy::RawCycleDelay {
        routine,
        high_cycles,
        low_cycles,
        adjustment,
    };
    assert_eq!(raw(14, Platform::Pico), expect(RawLoop::Period200nsPico, 10, 9, 6));
    assert_eq!(raw(14, Platform::Pico2), expect(RawLoop::Period200nsPico, 10, 9, -4));
    assert_eq!(raw(15, Platform::Pico), expect(RawLoop::Period200ns, 10, 9, 6));
    assert_eq!(raw(15, Platform::Pico2), expect(RawLoop::Period200ns, 10, 9, 11));
    assert_eq!(raw(16, Platform::Pico), expect(RawLoop::Period80ns, 2, 2, 6));
    assert_eq!(raw(16, Platform::Pico2), expect(RawLoop::Period80ns, 2, 2, 8));
    assert_eq!(raw(17, Platform::Pico), expect(RawLoop::PeriodMin, 0, 0, 6));
    assert_eq!(raw(17, Platform::Pico2), expect(RawLoop::PeriodMin, 0, 0, 5));
    assert_eq!(raw(18, Platform::Pico), raw(17, Platform::Pico));
    assert_eq!(raw(18, Platform::Pico2), raw(17, Platform::Pico2));
}

#[test]
fn drive_strength_is_set_where_the_variant_asks_for_it() {
    let v = |id: u32| -> TestVariant { Test::select("single-gpio", id, Platform::Pico).unwrap() };
    for id in 1u32..=15 {
        assert_eq!(v(id).drive, None);
    }
    assert_eq!(v(16).drive, Some(DriveStrength::Low2mA));
    assert_eq!(v(17).drive, Some(DriveStrength::Low2mA));
    assert_eq!(v(18).drive, Some(DriveStrength::High12mA));
    assert_eq!(v(19).drive, None);
}

#[test]
fn only_cycle_counted_variants_have_a_raw_loop() {
    for id in 1u32..=19 {
        let v = Test::select("single-gpio", id, Platform::Pico2).unwrap();
        let expected = match id {
            14 => Some(RawLoop::Period200nsPico),
            15 => Some(RawLoop::Period200ns),
            16 => Some(RawLoop::Period80ns),
            17 | 18 => Some(RawLoop::PeriodMin),
            _ => None,
        };
        assert_eq!(v.raw_loop(), expected);
    }
}

#[test]
fn descriptions_say_what_the_variant_does() {
    let d = |id: u32| Test::select("single-gpio", id, Platform::Pico).unwrap().description();
    assert_eq!(d(1), "~200us period using yielding Timer::after_micros");
    assert_eq!(d(8), "not near 200ns period using blocking Delay.delay_ns");
    assert_eq!(d(12), "\"2 cycle\" delay using blocking cortex_m::asm::delay()");
    assert_eq!(d(15), "200ns period using asm on both Pico and Pico 2");
    assert_eq!(d(19), "20us period using Timer::at()");
}
