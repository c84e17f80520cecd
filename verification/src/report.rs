//! The status lines that are shown before the loop starts: the board and
//! its clock, the test and what it does, and, where one loop gives the two
//! boards different periods, which period is the one of the board in use.

use vstd::prelude::*;
use vstd::string::*;
use crate::platform::Platform;
use crate::program::RawLoop;
use crate::select::{DriveStrength, TestVariant};
use crate::strategy::DelayStrategy;
use crate::text::{decimal, push_decimal};

verus! {

/// The texts of `lines`.
pub open spec fn texts(lines: Seq<String>) -> Seq<Seq<char>> {
    Seq::new(lines.len(), |i: int| lines[i]@)
}

/// The line that tells the period of `routine` on `board`, marked where
/// `board` is the board in use.
pub open spec fn period_line(routine: RawLoop, board: Platform, running: Platform) -> Seq<char> {
    let mark = if board != running {
        ""@
    } else if board == Platform::Pico {
        "    <== selected"@
    } else {
        "  <== selected"@
    };
    ": "@ + decimal(routine.nominal(board)) + "ns period using asm ("@ + board.board_name() + ")"@
        + mark
}

/// The lines that name the board, its clock and the test.
pub open spec fn head_lines(variant: TestVariant, clock_hz: u32) -> Seq<Seq<char>> {
    Seq::empty().push(
        variant.platform.board_name() + " clock speed: "@ + decimal(clock_hz as nat) + " Hz"@,
    ).push("Single GPIO Timing test #"@ + decimal(variant.number.value())).push(": Using GPIO 2"@)
}

/// The lines that say what the test does.
pub open spec fn detail_lines(variant: TestVariant) -> Seq<Seq<char>> {
    let none = Seq::<Seq<char>>::empty();
    match variant.strategy {
        DelayStrategy::RawCycleDelay { routine, .. } => match routine.target() {
            Some(t) => none.push(": Using Pico and Pico 2 specific assembly"@).push(
                ": "@ + decimal(t) + "ns period using asm on both Pico and Pico 2"@,
            ),
            None => none.push(": Using same assembly for both Pico and Pico 2"@).push(
                period_line(routine, Platform::Pico, variant.platform),
            ).push(period_line(routine, Platform::Pico2, variant.platform)),
        },
        _ => none.push(": "@ + TestVariant::description_of(variant.number)),
    }
}

/// The line that tells the drive strength, where the test sets one, and
/// the line that announces the start.
pub open spec fn tail_lines(variant: TestVariant) -> Seq<Seq<char>> {
    let none = Seq::<Seq<char>>::empty();
    match variant.drive {
        Some(DriveStrength::Low2mA) => none.push(": Low drive strength (2mA)"@).push(
            ": Starting"@,
        ),
        Some(DriveStrength::High12mA) => none.push(": High drive strength (12mA)"@).push(
            ": Starting"@,
        ),
        None => none.push(": Starting"@),
    }
}

/// All status lines of `variant` on a board whose clock was measured at
/// `clock_hz`, in the order they are shown.
pub open spec fn report_lines(variant: TestVariant, clock_hz: u32) -> Seq<Seq<char>> {
    head_lines(variant, clock_hz) + detail_lines(variant) + tail_lines(variant)
}

/// Appends `line` to `lines`.
fn push_line(lines: &mut Vec<String>, line: String)
    ensures
        texts(final(lines)@) == texts(old(lines)@).push(line@),
{
    lines.push(line);
    assert(texts(lines@) =~= texts(old(lines)@).push(line@));
}

/// Appends the text `line` to `lines`.
fn push_text(lines: &mut Vec<String>, line: &str)
    ensures
        texts(final(lines)@) == texts(old(lines)@).push(line@),
{
    push_line(lines, String::from_str(line));
}

/// Appends the line that tells the period of `routine` on `board`.
fn push_period_line(lines: &mut Vec<String>, routine: RawLoop, board: Platform, running: Platform)
    ensures
        texts(final(lines)@) == texts(old(lines)@).push(period_line(routine, board, running)),
{
    let mut line: String = String::from_str(": ");
    push_decimal(&mut line, routine.nominal_period_ns(board));
    line.append("ns period using asm (");
    line.append(board.board());
    line.append(")");
    if board.is_pico2() == running.is_pico2() {
        if board.is_pico2() {
            line.append("  <== selected");
        } else {
            line.append("    <== selected");
        }
    } else {
        proof {
            reveal_strlit("");
        }
        assert(line@ + ""@ =~= line@);
    }
    push_line(lines, line);
}

/// The status lines to show before the loop of `variant` starts, on a
/// board whose clock was measured at `clock_hz`.
pub fn startup_report(variant: &TestVariant, clock_hz: u32) -> (lines: Vec<String>)
    ensures
        texts(lines@) == report_lines(*variant, clock_hz),
{
    let mut lines: Vec<String> = Vec::new();
    assert(texts(lines@) =~= Seq::<Seq<char>>::empty());

    let mut clock: String = String::from_str(variant.platform.board());
    clock.append(" clock speed: ");
    push_decimal(&mut clock, clock_hz);
    clock.append(" Hz");
    push_line(&mut lines, clock);
    let mut test: String = String::from_str("Single GPIO Timing test #");
    push_decimal(&mut test, variant.number.number());
    push_line(&mut lines, test);
    push_text(&mut lines, ": Using GPIO 2");
    assert(texts(lines@) =~= head_lines(*variant, clock_hz));

    match variant.strategy {
        DelayStrategy::RawCycleDelay { routine, .. } => match routine.target_ns() {
            Some(t) => {
                push_text(&mut lines, ": Using Pico and Pico 2 specific assembly");
                let mut line: String = String::from_str(": ");
                push_decimal(&mut line, t);
                line.append("ns period using asm on both Pico and Pico 2");
                push_line(&mut lines, line);
            },
            None => {
                push_text(&mut lines, ": Using same assembly for both Pico and Pico 2");
                push_period_line(&mut lines, routine, Platform::Pico, variant.platform);
                push_period_line(&mut lines, routine, Platform::Pico2, variant.platform);
            },
        },
        _ => {
            let mut line: String = String::from_str(": ");
            line.append(variant.description());
            push_line(&mut lines, line);
        },
    }
    assert(texts(lines@) =~= head_lines(*variant, clock_hz) + detail_lines(*variant));

    match variant.drive {
        Some(DriveStrength::Low2mA) => {
            push_text(&mut lines, ": Low drive strength (2mA)");
        },
        Some(DriveStrength::High12mA) => {
            push_text(&mut lines, ": High drive strength (12mA)");
        },
        None => {},
    }
    push_text(&mut lines, ": Starting");
    assert(texts(lines@) =~= report_lines(*variant, clock_hz));
    lines
}

} // verus!
