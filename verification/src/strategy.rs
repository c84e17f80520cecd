//! The ways in which the toggle loop can pause between two pin writes.

use vstd::prelude::*;
use crate::platform::Platform;
use crate::program::{counted_trip, law_periods_converge, law_program_cycles, RawLoop};

verus! {

/// How long a blocking spin lasts, in the unit that the delay service is
/// asked in.
#[derive(Clone, Copy, Debug, PartialEq, Eq, Structural)]
pub enum SpinDuration {
    /// Microseconds, by the timer.
    Micros(u32),
    /// Nanoseconds, by the timer.
    Nanos(u32),
    /// Core clock cycles, by a counted loop. Zero cycles is no pause at
    /// all: nothing is called.
    Cycles(u32),
}

/// One way to pause between two pin writes.
#[derive(Clone, Copy, Debug, PartialEq, Eq, Structural)]
pub enum DelayStrategy {
    /// Hands control to the scheduler for the duration.
    CooperativeWait { micros: u32 },
    /// Keeps the core busy for the duration; nothing else runs.
    BlockingSpin { duration: SpinDuration },
    /// Keeps the core busy for the duration, then yields to the scheduler
    /// once.
    BlockingSpinThenYield { micros: u32 },
    /// Burns a counted number of cycles with calibrated primitives and
    /// calls no delay service. `high_cycles` and `low_cycles` are the
    /// delay cycles after the rising and after the falling edge as the
    /// loop is written; `adjustment` is what the board in use adds to
    /// their sum in one trip round the loop.
    RawCycleDelay { routine: RawLoop, high_cycles: u32, low_cycles: u32, adjustment: i32 },
    /// Waits until an instant that advances by a fixed period with every
    /// pause, whatever time the loop itself took.
    DeadlineSchedule { period_micros: u32 },
}

impl DelayStrategy {
    /// Whether the pause keeps the core to itself.
    pub open spec fn is_blocking(self) -> bool {
        match self {
            DelayStrategy::CooperativeWait { .. } => false,
            DelayStrategy::BlockingSpin { .. } => true,
            DelayStrategy::BlockingSpinThenYield { .. } => true,
            DelayStrategy::RawCycleDelay { .. } => true,
            DelayStrategy::DeadlineSchedule { .. } => false,
        }
    }

    /// How often one pause hands control to the scheduler.
    pub open spec fn suspensions(self) -> nat {
        match self {
            DelayStrategy::CooperativeWait { .. } => 1,
            DelayStrategy::BlockingSpin { .. } => 0,
            DelayStrategy::BlockingSpinThenYield { .. } => 1,
            DelayStrategy::RawCycleDelay { .. } => 0,
            DelayStrategy::DeadlineSchedule { .. } => 1,
        }
    }

    /// A cycle-counted strategy carries the counts of its loop and the
    /// adjustment of `platform`; any other strategy needs nothing.
    pub open spec fn calibrated_for(self, platform: Platform) -> bool {
        match self {
            DelayStrategy::RawCycleDelay { routine, high_cycles, low_cycles, adjustment } => {
                &&& high_cycles == routine.high_count()
                &&& low_cycles == routine.low_count()
                &&& adjustment == routine.adjust(platform)
            },
            _ => true,
        }
    }

    /// The cycle-counted strategy of `routine` on `platform`.
    pub open spec fn raw_spec(routine: RawLoop, platform: Platform) -> DelayStrategy {
        DelayStrategy::RawCycleDelay {
            routine,
            high_cycles: routine.high_count() as u32,
            low_cycles: routine.low_count() as u32,
            adjustment: routine.adjust(platform) as i32,
        }
    }

    /// Whether the pause keeps the core to itself.
    pub fn blocks(&self) -> (b: bool)
        ensures
            b == self.is_blocking(),
    {
        match self {
            DelayStrategy::CooperativeWait { .. } => false,
            DelayStrategy::BlockingSpin { .. } => true,
            DelayStrategy::BlockingSpinThenYield { .. } => true,
            DelayStrategy::RawCycleDelay { .. } => true,
            DelayStrategy::DeadlineSchedule { .. } => false,
        }
    }

    /// How often one pause hands control to the scheduler.
    pub fn suspension_points(&self) -> (n: u32)
        ensures
            n == self.suspensions(),
    {
        match self {
            DelayStrategy::CooperativeWait { .. } => 1,
            DelayStrategy::BlockingSpin { .. } => 0,
            DelayStrategy::BlockingSpinThenYield { .. } => 1,
            DelayStrategy::RawCycleDelay { .. } => 0,
            DelayStrategy::DeadlineSchedule { .. } => 1,
        }
    }

    /// The cycle-counted strategy of `routine` on `platform`, with the
    /// counts and the adjustment taken from the timing table.
    pub fn raw(routine: RawLoop, platform: Platform) -> (s: DelayStrategy)
        ensures
            s == DelayStrategy::raw_spec(routine, platform),
            s.calibrated_for(platform),
    {
        let written: (u32, u32) = routine.written_cycles();
        DelayStrategy::RawCycleDelay {
            routine,
            high_cycles: written.0,
            low_cycles: written.1,
            adjustment: routine.adjustment(platform),
        }
    }

    /// Whether the strategy fits `platform`: a cycle-counted strategy has
    /// to carry the counts of its loop and the adjustment of that board,
    /// any other strategy fits either board.
    pub fn is_calibrated_for(&self, platform: Platform) -> (ok: bool)
        ensures
            ok == self.calibrated_for(platform),
    {
        match *self {
            DelayStrategy::RawCycleDelay { routine, high_cycles, low_cycles, adjustment } => {
                let written: (u32, u32) = routine.written_cycles();
                high_cycles == written.0 && low_cycles == written.1 && adjustment
                    == routine.adjustment(platform)
            },
            _ => true,
        }
    }

    /// Cycles of one trip round the loop of a cycle-counted strategy: the
    /// written delay cycles plus the adjustment. `None` for any other
    /// strategy, and for counts that leave no cycles at all.
    pub fn trip_cycles(&self) -> (cycles: Option<u32>)
        ensures
            match *self {
                DelayStrategy::RawCycleDelay { routine, high_cycles, low_cycles, adjustment } => {
                    let sum = high_cycles + low_cycles + adjustment;
                    if 0 < sum <= u32::MAX {
                        cycles == Some(sum as u32)
                    } else {
                        cycles.is_none()
                    }
                },
                _ => cycles.is_none(),
            },
    {
        match *self {
            DelayStrategy::RawCycleDelay { routine, high_cycles, low_cycles, adjustment } => {
                let sum: i64 = high_cycles as i64 + low_cycles as i64 + adjustment as i64;
                if 0 < sum && sum <= u32::MAX as i64 {
                    Some(sum as u32)
                } else {
                    None
                }
            },
            _ => None,
        }
    }
}

/// A cycle-counted strategy that is calibrated for a board describes its
/// loop on that board: counted over its instructions, one trip round the
/// loop takes exactly the written delay cycles plus the adjustment.
pub proof fn law_calibration(strategy: DelayStrategy, platform: Platform)
    requires
        strategy.calibrated_for(platform),
    ensures
        strategy matches DelayStrategy::RawCycleDelay {
            routine,
            high_cycles,
            low_cycles,
            adjustment,
        } ==> counted_trip(platform, routine.high(platform), routine.low(platform)) == high_cycles
            + low_cycles + adjustment && routine.period(platform) == high_cycles + low_cycles
            + adjustment,
{
    if let DelayStrategy::RawCycleDelay { routine, .. } = strategy {
        law_program_cycles(routine, platform);
    }
}

/// A cycle-counted strategy whose loop is meant to have one period on both
/// boards reaches it on both: the written cycles plus the adjustment of
/// the board, times the length of that board's cycle, is the same time on
/// the Pico and on the Pico 2. For a loop without such a target the time
/// is the documented period of the board, to within less than one cycle.
pub proof fn law_convergence(routine: RawLoop)
    ensures
        forall|platform: Platform|
            #![trigger DelayStrategy::raw_spec(routine, platform)]
            DelayStrategy::raw_spec(routine, platform) matches DelayStrategy::RawCycleDelay {
                high_cycles,
                low_cycles,
                adjustment,
                ..
            } && platform.within_one_cycle(
                high_cycles + low_cycles + adjustment,
                routine.nominal(platform) as int,
            ) && (routine.target() matches Some(t) ==> platform.exactly(
                high_cycles + low_cycles + adjustment,
                t as int,
            )),
{
    assert forall|platform: Platform|
        #![trigger DelayStrategy::raw_spec(routine, platform)]
        DelayStrategy::raw_spec(routine, platform) matches DelayStrategy::RawCycleDelay {
            high_cycles,
            low_cycles,
            adjustment,
            ..
        } && platform.within_one_cycle(
            high_cycles + low_cycles + adjustment,
            routine.nominal(platform) as int,
        ) && (routine.target() matches Some(t) ==> platform.exactly(
            high_cycles + low_cycles + adjustment,
            t as int,
        )) by {
        law_periods_converge(routine, platform);
    }
}

} // verus!
