//! The two supported boards and their timing table.

use vstd::prelude::*;

verus! {

/// Nanoseconds in one second.
pub const NANOS_PER_SECOND: u64 = 1_000_000_000;

/// Cycles that one pin write (load the value, store it) takes on either board.
pub const PIN_WRITE_CYCLES: u32 = 2;

/// One of the two supported boards.
#[derive(Clone, Copy, Debug, PartialEq, Eq, Structural)]
pub enum Platform {
    /// Raspberry Pi Pico: RP2040, Cortex-M0+ at 125 MHz.
    Pico,
    /// Raspberry Pi Pico 2: RP2350, Cortex-M33 at 150 MHz.
    Pico2,
}

/// The length of one clock cycle in nanoseconds, as the fraction
/// `numer / denom` in lowest terms.
#[derive(Clone, Copy, Debug, PartialEq, Eq, Structural)]
pub struct NsPerCycle {
    pub numer: u32,
    pub denom: u32,
}

impl Platform {
    /// System clock frequency in Hz.
    pub open spec fn hz(self) -> nat {
        match self {
            Platform::Pico => 125_000_000,
            Platform::Pico2 => 150_000_000,
        }
    }

    /// Numerator of the cycle time in nanoseconds.
    pub open spec fn cycle_numer(self) -> nat {
        match self {
            Platform::Pico => 8,
            Platform::Pico2 => 20,
        }
    }

    /// Denominator of the cycle time in nanoseconds.
    pub open spec fn cycle_denom(self) -> nat {
        match self {
            Platform::Pico => 1,
            Platform::Pico2 => 3,
        }
    }

    /// Cycles that the taken branch at the end of a loop body costs.
    pub open spec fn branch(self) -> nat {
        match self {
            Platform::Pico => 2,
            Platform::Pico2 => 1,
        }
    }

    /// Cycles of one trip round a toggle loop that are not delay: the two
    /// pin writes and the branch back.
    pub open spec fn overhead(self) -> nat {
        2 * PIN_WRITE_CYCLES as nat + self.branch()
    }

    /// The time that `cycles` clock cycles take, in nanoseconds, rounded up.
    pub open spec fn nanos(self, cycles: nat) -> nat {
        match self {
            Platform::Pico => cycles * 8,
            Platform::Pico2 => (cycles * 20 + 2) / 3,
        }
    }

    /// `cycles` clock cycles last `period_ns` nanoseconds, to within less
    /// than one cycle.
    pub open spec fn within_one_cycle(self, cycles: int, period_ns: int) -> bool {
        let diff = cycles * self.cycle_numer() - period_ns * self.cycle_denom();
        -(self.cycle_numer() as int) < diff < self.cycle_numer() as int
    }

    /// `cycles` clock cycles last exactly `period_ns` nanoseconds.
    pub open spec fn exactly(self, cycles: int, period_ns: int) -> bool {
        cycles * self.cycle_numer() == period_ns * self.cycle_denom()
    }

    /// The name of the board.
    pub open spec fn board_name(self) -> Seq<char> {
        match self {
            Platform::Pico => "Pico"@,
            Platform::Pico2 => "Pico 2"@,
        }
    }

    /// The board that runs at `hz`, if there is one.
    pub open spec fn of_clock(hz: nat) -> Option<Platform> {
        if hz == Platform::Pico.hz() {
            Some(Platform::Pico)
        } else if hz == Platform::Pico2.hz() {
            Some(Platform::Pico2)
        } else {
            None
        }
    }

    /// System clock frequency in Hz.
    pub fn clock_frequency_hz(self) -> (hz: u32)
        ensures
            hz == self.hz(),
    {
        match self {
            Platform::Pico => 125_000_000,
            Platform::Pico2 => 150_000_000,
        }
    }

    /// The length of one clock cycle in nanoseconds: 8 on the Pico, 20/3 on
    /// the Pico 2.
    pub fn ns_per_cycle(self) -> (t: NsPerCycle)
        ensures
            t.numer == self.cycle_numer(),
            t.denom == self.cycle_denom(),
            t.numer * self.hz() == t.denom * NANOS_PER_SECOND,
    {
        match self {
            Platform::Pico => NsPerCycle { numer: 8, denom: 1 },
            Platform::Pico2 => NsPerCycle { numer: 20, denom: 3 },
        }
    }

    /// The name of the board.
    pub fn board(self) -> (name: &'static str)
        ensures
            name@ == self.board_name(),
    {
        match self {
            Platform::Pico => "Pico",
            Platform::Pico2 => "Pico 2",
        }
    }

    /// Whether this is the Pico 2.
    pub fn is_pico2(self) -> (b: bool)
        ensures
            b == (self == Platform::Pico2),
    {
        match self {
            Platform::Pico => false,
            Platform::Pico2 => true,
        }
    }

    /// Cycles that the taken branch at the end of a loop body costs: two on
    /// the Cortex-M0+, one on the Cortex-M33.
    pub fn branch_cycles(self) -> (c: u32)
        ensures
            c == self.branch(),
    {
        match self {
            Platform::Pico => 2,
            Platform::Pico2 => 1,
        }
    }

    /// Cycles of one trip round a toggle loop that are not delay.
    pub fn overhead_cycles(self) -> (c: u32)
        ensures
            c == self.overhead(),
    {
        2 * PIN_WRITE_CYCLES + self.branch_cycles()
    }

    /// The board whose system clock runs at `hz`; `None` for any other
    /// frequency.
    pub fn from_clock_frequency(hz: u32) -> (p: Option<Platform>)
        ensures
            p == Platform::of_clock(hz as nat),
            p matches Some(q) ==> q.hz() == hz,
    {
        if hz == 125_000_000 {
            Some(Platform::Pico)
        } else if hz == 150_000_000 {
            Some(Platform::Pico2)
        } else {
            None
        }
    }

    /// The time that `cycles` clock cycles take, in nanoseconds, rounded up
    /// to a whole nanosecond.
    pub fn cycles_to_ns(self, cycles: u32) -> (ns: u64)
        ensures
            ns == self.nanos(cycles as nat),
            self.within_one_cycle(cycles as int, ns as int),
            (ns - 1) * self.cycle_denom() < cycles * self.cycle_numer() <= ns * self.cycle_denom(),
    {
        match self {
            Platform::Pico => cycles as u64 * 8,
            Platform::Pico2 => (cycles as u64 * 20 + 2) / 3,
        }
    }

    /// The number of clock cycles that last exactly `period_ns`
    /// nanoseconds; `None` where `period_ns` is not a whole number of
    /// cycles.
    pub fn cycles_for_period(self, period_ns: u32) -> (c: Option<u32>)
        ensures
            match c {
                Some(n) => self.exactly(n as int, period_ns as int),
                None => forall|n: int| !self.exactly(n, period_ns as int),
            },
    {
        match self {
            Platform::Pico => {
                if period_ns % 8 == 0 {
                    Some(period_ns / 8)
                } else {
                    None
                }
            },
            Platform::Pico2 => {
                let scaled: u64 = period_ns as u64 * 3;
                if scaled % 20 == 0 {
                    let n: u64 = scaled / 20;
                    Some(n as u32)
                } else {
                    None
                }
            },
        }
    }
}

} // verus!
