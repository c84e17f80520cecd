use pico_timing::platform::Platform;
use pico_timing::primitives::Test;
use pico_timing::report::startup_report;

fn report(id: u32, platform: Platform) -> Vec<String> {
    let v = Test::select("single-gpio", id, platform).unwrap();
    startup_report(&v, platform.clock_frequency_hz())
}

#[test]
fn report_of_a_timed_variant() {
    assert_eq!(
        report(1, Platform::Pico),
        vec![
            "Pico clock speed: 125000000 Hz",
            "Single GPIO Timing test #1",
            ": Using GPIO 2",
            ": ~200us period using yielding Timer::after_micros",
            ": Starting",
        ]
    );
    assert_eq!(
        report(12, Platform::Pico2),
        vec![
            "Pico 2 clock speed: 150000000 Hz",
            "Single GPIO Timing test #12",
            ": Using GPIO 2",
            ": \"2 cycle\" delay using blocking cortex_m::asm::delay()",
            ": Starting",
        ]
    );
    assert_eq!(
        report(19, Platform::Pico2),
        vec![
            "Pico 2 clock speed: 150000000 Hz",
            "Single GPIO Timing test #19",
            ": Using GPIO 2",
            ": 20us period using Timer::at()",
            ": Starting",
        ]
    );
}

#[test]
fn report_marks_the_period_of_the_board_in_use() {
    assert_eq!(
        report(14, Platform::Pico),
        vec![
            "Pico clock speed: 125000000 Hz",
            "Single GPIO Timing test #14",
            ": Using GPIO 2",
            ": Using same assembly for both Pico and Pico 2",
            ": 200ns period using asm (Pico)    <== selected",
            ": 100ns period using asm (Pico 2)",
            ": Starting",
        ]
    );
    assert_eq!(
        report(14, Platform::Pico2),
        vec![
            "Pico 2 clock speed: 150000000 Hz",
            "Single GPIO Timing test #14",
            ": Using GPIO 2",
            ": Using same assembly for both Pico and Pico 2",
            ": 200ns period using asm (Pico)",
            ": 100ns period using asm (Pico 2)  <== selected",
            ": Starting",
        ]
    );
}

#[test]
fn report_of_the_calibrated_loops() {
    for platform in [Platform::Pico, Platform::Pico2] {
        let lines = report(15, platform);
        assert_eq!(lines.len(), 6);
        assert_eq!(lines[3], ": Using Pico and Pico 2 specific assembly");
        assert_eq!(lines[4], ": 200ns period using asm on both Pico and Pico 2");
        assert_eq!(lines[5], ": Starting");
        let lines = report(16, platform);
        assert_eq!(lines.len(), 7);
        assert_eq!(lines[1], "Single GPIO Timing test #16");
        assert_eq!(lines[3], ": Using Pico and Pico 2 specific assembly");
        assert_eq!(lines[4], ": 80ns period using asm on both Pico and Pico 2");
        assert_eq!(lines[5], ": Low drive strength (2mA)");
        assert_eq!(lines[6], ": Starting");
    }
}

#[test]
fn report_of_the_shortest_loop_tells_the_drive_strength() {
    assert_eq!(
        report(17, Platform::Pico2),
        vec![
            "Pico 2 clock speed: 150000000 Hz",
            "Single GPIO Timing test #17",
            ": Using GPIO 2",
            ": Using same assembly for both Pico and Pico 2",
            ": 48ns period using asm (Pico)",
            ": 34ns period using asm (Pico 2)  <== selected",
            ": Low drive strength (2mA)",
            ": Starting",
        ]
    );
    assert_eq!(
        report(18, Platform::Pico),
        vec![
            "Pico clock speed: 125000000 Hz",
            "Single GPIO Timing test #18",
            ": Using GPIO 2",
            ": Using same assembly for both Pico and Pico 2",
            ": 48ns period using asm (Pico)    <== selected",
            ": 34ns period using asm (Pico 2)",
            ": High drive strength (12mA)",
            ": Starting",
        ]
    );
}

#[test]
fn report_shows_the_clock_that_was_measured() {
    let v = Test::select("single-gpio", 2, Platform::Pico).unwrap();
    let lines = startup_report(&v, 133_000_000);
    assert_eq!(lines[0], "Pico clock speed: 133000000 Hz");
    let lines = startup_report(&v, 0);
    assert_eq!(lines[0], "Pico clock speed: 0 Hz");
}
