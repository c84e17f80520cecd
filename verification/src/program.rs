//! The cycle-counted toggle loops: which primitives each is made of on
//! each board, how many cycles one trip round the loop takes, and what it
//! writes to the pin.

use vstd::prelude::*;
use crate::cpu::{code_cycles, Cpu, Store};
use crate::platform::Platform;
use crate::primitives::{
    law_primitive_cycles, law_primitive_effect, Primitive, Test, GPIO2_HIGH, GPIO2_LOW, GPIO_OUT,
};

verus! {

/// The most delay primitives that one phase of a loop may hold.
pub const MAX_DELAY_PRIMITIVES: usize = 16;

/// Every primitive of `burn` is a delay.
pub open spec fn all_delay(burn: Seq<Primitive>) -> bool {
    forall|i: int| 0 <= i < burn.len() ==> (#[trigger] burn[i]).is_delay()
}

/// The cycles that the primitives of `burn` take on `platform`, one after
/// the other.
pub open spec fn burn_cost(platform: Platform, burn: Seq<Primitive>) -> nat
    decreases burn.len(),
{
    if burn.len() == 0 {
        0
    } else {
        burn_cost(platform, burn.drop_last()) + burn.last().cost(platform)
    }
}

/// The cycles that the primitives of `burn` take on `platform`, each
/// counted over its own instructions.
pub open spec fn counted(platform: Platform, burn: Seq<Primitive>) -> nat
    decreases burn.len(),
{
    if burn.len() == 0 {
        0
    } else {
        counted(platform, burn.drop_last()) + code_cycles(platform, burn.last().code())
    }
}

/// The cycles of one trip round the loop whose phases are `high` and
/// `low`, counted over the instructions: the write that drives the pin
/// high, the delays of `high`, the write that drives it low, the delays of
/// `low`, and the branch back.
pub open spec fn counted_trip(platform: Platform, high: Seq<Primitive>, low: Seq<Primitive>) -> nat {
    code_cycles(platform, Primitive::SetGpio2High.code()) + counted(platform, high) + code_cycles(
        platform,
        Primitive::SetGpio2Low.code(),
    ) + counted(platform, low) + platform.branch()
}

/// The registers after the primitives of `burn`, in order.
pub open spec fn run_all(cpu: Cpu, burn: Seq<Primitive>) -> Cpu
    decreases burn.len(),
{
    if burn.len() == 0 {
        cpu
    } else {
        run_all(cpu, burn.drop_last()).run(burn.last().code())
    }
}

/// The stores that the primitives of `burn` make, in order.
pub open spec fn stores_all(cpu: Cpu, burn: Seq<Primitive>) -> Seq<Store>
    decreases burn.len(),
{
    if burn.len() == 0 {
        Seq::empty()
    } else {
        stores_all(cpu, burn.drop_last()) + run_all(cpu, burn.drop_last()).stores(
            burn.last().code(),
        )
    }
}

/// One more primitive adds its own cost.
pub proof fn lemma_burn_push(platform: Platform, burn: Seq<Primitive>, p: Primitive)
    ensures
        burn_cost(platform, burn.push(p)) == burn_cost(platform, burn) + p.cost(platform),
        all_delay(burn) && p.is_delay() ==> all_delay(burn.push(p)),
{
    assert(burn.push(p).drop_last() =~= burn);
}

/// Counting the instructions of the primitives gives what the timing
/// table gives for them.
pub proof fn lemma_counted(platform: Platform, burn: Seq<Primitive>)
    ensures
        counted(platform, burn) == burn_cost(platform, burn),
    decreases burn.len(),
{
    if burn.len() > 0 {
        lemma_counted(platform, burn.drop_last());
        law_primitive_cycles(platform, burn.last());
    }
}

/// Delays store nothing and leave `r0` alone, however many there are.
pub proof fn lemma_delays_keep_r0(cpu: Cpu, burn: Seq<Primitive>)
    requires
        all_delay(burn),
    ensures
        run_all(cpu, burn).r0 == cpu.r0,
        stores_all(cpu, burn) == Seq::<Store>::empty(),
    decreases burn.len(),
{
    if burn.len() > 0 {
        let before = burn.drop_last();
        assert(all_delay(before)) by {
            assert forall|i: int| 0 <= i < before.len() implies (#[trigger] before[i]).is_delay() by {
                assert(before[i] == burn[i]);
            }
        }
        lemma_delays_keep_r0(cpu, before);
        assert(burn.last() == burn[burn.len() - 1]);
        law_primitive_effect(run_all(cpu, before), burn.last());
        assert(run_all(cpu, before).stores(burn.last().code()) =~= Seq::<Store>::empty());
    }
}

/// One cycle-counted toggle loop. A trip round it drives the pin high,
/// runs the delays of `high`, drives the pin low, runs the delays of
/// `low`, and branches back.
pub struct ToggleProgram {
    /// The delays that follow the rising edge.
    pub high: Vec<Primitive>,
    /// The delays that follow the falling edge.
    pub low: Vec<Primitive>,
}

impl ToggleProgram {
    /// Both phases hold delays only, and not too many of them.
    pub open spec fn wf(self) -> bool {
        &&& all_delay(self.high@)
        &&& all_delay(self.low@)
        &&& self.high@.len() <= MAX_DELAY_PRIMITIVES
        &&& self.low@.len() <= MAX_DELAY_PRIMITIVES
    }

    /// Cycles of delay in one trip round the loop.
    pub open spec fn delay(self, platform: Platform) -> nat {
        burn_cost(platform, self.high@) + burn_cost(platform, self.low@)
    }

    /// Cycles of one trip round the loop: the two pin writes, the delays
    /// and the branch back.
    pub open spec fn period(self, platform: Platform) -> nat {
        platform.overhead() + self.delay(platform)
    }

    /// The registers after one trip round the loop.
    pub open spec fn after_trip(self, cpu: Cpu) -> Cpu {
        let c1 = cpu.run(Primitive::SetGpio2High.code());
        let c2 = run_all(c1, self.high@);
        let c3 = c2.run(Primitive::SetGpio2Low.code());
        run_all(c3, self.low@)
    }

    /// The stores of one trip round the loop, in order.
    pub open spec fn trip_stores(self, cpu: Cpu) -> Seq<Store> {
        let c1 = cpu.run(Primitive::SetGpio2High.code());
        let c2 = run_all(c1, self.high@);
        let c3 = c2.run(Primitive::SetGpio2Low.code());
        cpu.stores(Primitive::SetGpio2High.code()) + stores_all(c1, self.high@) + c2.stores(
            Primitive::SetGpio2Low.code(),
        ) + stores_all(c3, self.low@)
    }

    /// The registers after `n` trips round the loop.
    pub open spec fn after_trips(self, cpu: Cpu, n: nat) -> Cpu
        decreases n,
    {
        if n == 0 {
            cpu
        } else {
            self.after_trip(self.after_trips(cpu, (n - 1) as nat))
        }
    }

    /// The stores of `n` trips round the loop, in order.
    pub open spec fn trips_stores(self, cpu: Cpu, n: nat) -> Seq<Store>
        decreases n,
    {
        if n == 0 {
            Seq::empty()
        } else {
            self.trips_stores(cpu, (n - 1) as nat) + self.trip_stores(
                self.after_trips(cpu, (n - 1) as nat),
            )
        }
    }

    /// Whether both phases hold delays only, and not too many of them.
    pub fn is_well_formed(&self) -> (ok: bool)
        ensures
            ok == self.wf(),
    {
        if self.high.len() > MAX_DELAY_PRIMITIVES || self.low.len() > MAX_DELAY_PRIMITIVES {
            return false;
        }
        only_delays(&self.high) && only_delays(&self.low)
    }

    /// Cycles of one trip round the loop on `platform`.
    pub fn period_cycles(&self, platform: Platform) -> (cycles: u32)
        requires
            self.wf(),
        ensures
            cycles == self.period(platform),
    {
        let high: u32 = burn_cycles(platform, &self.high);
        let low: u32 = burn_cycles(platform, &self.low);
        platform.overhead_cycles() + high + low
    }

    /// The time of one trip round the loop on `platform`, in nanoseconds,
    /// rounded up to a whole nanosecond.
    pub fn period_ns(&self, platform: Platform) -> (ns: u64)
        requires
            self.wf(),
        ensures
            ns == platform.nanos(self.period(platform)),
            platform.within_one_cycle(self.period(platform) as int, ns as int),
    {
        platform.cycles_to_ns(self.period_cycles(platform))
    }
}

/// Whether every primitive of `burn` is a delay.
fn only_delays(burn: &Vec<Primitive>) -> (ok: bool)
    ensures
        ok == all_delay(burn@),
{
    let mut i: usize = 0;
    while i < burn.len()
        invariant
            i <= burn.len(),
            forall|j: int| 0 <= j < i ==> (#[trigger] burn@[j]).is_delay(),
        decreases burn.len() - i,
    {
        if !burn[i].burns_only() {
            return false;
        }
        i = i + 1;
    }
    true
}

/// The cycles that the primitives of `burn` take on `platform`.
pub fn burn_cycles(platform: Platform, burn: &Vec<Primitive>) -> (cycles: u32)
    requires
        burn@.len() <= MAX_DELAY_PRIMITIVES,
    ensures
        cycles == burn_cost(platform, burn@),
        cycles <= 10 * burn@.len(),
{
    let mut cycles: u32 = 0;
    let mut i: usize = 0;
    while i < burn.len()
        invariant
            i <= burn.len(),
            burn@.len() <= MAX_DELAY_PRIMITIVES,
            cycles == burn_cost(platform, burn@.take(i as int)),
            cycles <= 10 * i,
        decreases burn.len() - i,
    {
        proof {
            let next = burn@.take(i + 1);
            assert(next.drop_last() =~= burn@.take(i as int));
            assert(next.last() == burn@[i as int]);
        }
        cycles = cycles + burn[i].cycles(platform);
        i = i + 1;
    }
    assert(burn@.take(burn.len() as int) =~= burn@);
    cycles
}

/// The cycle-counted loops of the benchmark.
#[derive(Clone, Copy, Debug, PartialEq, Eq, Structural)]
pub enum RawLoop {
    /// The same `nop` delays on both boards: 200 ns on the Pico, less on
    /// the Pico 2.
    Period200nsPico,
    /// Dependent additions, with more of them on the Pico 2: 200 ns on
    /// both boards.
    Period200ns,
    /// Dependent additions, with more of them on the Pico 2: 80 ns on both
    /// boards.
    Period80ns,
    /// No delay at all: the shortest period each board can do.
    PeriodMin,
}

impl RawLoop {
    /// The delays that follow the rising edge on `platform`.
    pub open spec fn high(self, platform: Platform) -> Seq<Primitive> {
        let none = Seq::<Primitive>::empty();
        match self {
            RawLoop::Period200nsPico => none.push(Primitive::Cycles10Nop),
            RawLoop::Period200ns => match platform {
                Platform::Pico => none.push(Primitive::Cycles10AddR2),
                Platform::Pico2 => none.push(Primitive::Cycles10AddR2).push(
                    Primitive::Cycles3AddR2,
                ),
            },
            RawLoop::Period80ns => match platform {
                Platform::Pico => none.push(Primitive::Cycles2AddR2),
                Platform::Pico2 => none.push(Primitive::Cycles3AddR2),
            },
            RawLoop::PeriodMin => none,
        }
    }

    /// The delays that follow the falling edge on `platform`.
    pub open spec fn low(self, platform: Platform) -> Seq<Primitive> {
        let none = Seq::<Primitive>::empty();
        match self {
            RawLoop::Period200nsPico => none.push(Primitive::Cycles9Nop),
            RawLoop::Period200ns => match platform {
                Platform::Pico => none.push(Primitive::Cycles9AddR2),
                Platform::Pico2 => none.push(Primitive::Cycles9AddR2).push(Primitive::Cycles3AddR2),
            },
            RawLoop::Period80ns => match platform {
                Platform::Pico => none.push(Primitive::Cycles2AddR2),
                Platform::Pico2 => none.push(Primitive::Cycles2AddR2).push(Primitive::Cycles2AddR2),
            },
            RawLoop::PeriodMin => none,
        }
    }

    /// Cycles of one trip round this loop on `platform`, counted over its
    /// primitives.
    pub open spec fn period(self, platform: Platform) -> nat {
        platform.overhead() + burn_cost(platform, self.high(platform)) + burn_cost(
            platform,
            self.low(platform),
        )
    }

    /// The delay cycles that the loop is written with after the rising
    /// edge, as counted on the Pico.
    pub open spec fn high_count(self) -> nat {
        match self {
            RawLoop::Period200nsPico => 10,
            RawLoop::Period200ns => 10,
            RawLoop::Period80ns => 2,
            RawLoop::PeriodMin => 0,
        }
    }

    /// The delay cycles that the loop is written with after the falling
    /// edge, as counted on the Pico.
    pub open spec fn low_count(self) -> nat {
        match self {
            RawLoop::Period200nsPico => 9,
            RawLoop::Period200ns => 9,
            RawLoop::Period80ns => 2,
            RawLoop::PeriodMin => 0,
        }
    }

    /// What `platform` adds to the written delay cycles of one trip: the
    /// pin writes and the branch, the extra additions of the Pico 2, less
    /// the `nop`s that the Pico 2 runs in pairs.
    pub open spec fn adjust(self, platform: Platform) -> int {
        match self {
            RawLoop::Period200nsPico => match platform {
                Platform::Pico => 6,
                Platform::Pico2 => -4,
            },
            RawLoop::Period200ns => match platform {
                Platform::Pico => 6,
                Platform::Pico2 => 11,
            },
            RawLoop::Period80ns => match platform {
                Platform::Pico => 6,
                Platform::Pico2 => 8,
            },
            RawLoop::PeriodMin => match platform {
                Platform::Pico => 6,
                Platform::Pico2 => 5,
            },
        }
    }

    /// The period that the loop is meant to have on both boards, in
    /// nanoseconds, where it is meant to have one.
    pub open spec fn target(self) -> Option<nat> {
        match self {
            RawLoop::Period200nsPico => None,
            RawLoop::Period200ns => Some(200),
            RawLoop::Period80ns => Some(80),
            RawLoop::PeriodMin => None,
        }
    }

    /// The period that the loop is documented with on `platform`, in
    /// nanoseconds.
    pub open spec fn nominal(self, platform: Platform) -> nat {
        match self {
            RawLoop::Period200nsPico => match platform {
                Platform::Pico => 200,
                Platform::Pico2 => 100,
            },
            RawLoop::Period200ns => 200,
            RawLoop::Period80ns => 80,
            RawLoop::PeriodMin => match platform {
                Platform::Pico => 48,
                Platform::Pico2 => 34,
            },
        }
    }

    /// The primitives of this loop on `platform`.
    pub fn program(self, platform: Platform) -> (p: ToggleProgram)
        ensures
            p.high@ == self.high(platform),
            p.low@ == self.low(platform),
            p.wf(),
            p.period(platform) == self.period(platform),
            p.period(platform) == self.high_count() + self.low_count() + self.adjust(platform),
    {
        proof {
            law_program_cycles(self, platform);
        }
        match self {
            RawLoop::Period200nsPico => Test::asm_toggle_gpio2_period_200ns_pico(),
            RawLoop::Period200ns => Test::asm_toggle_gpio2_period_200ns(platform),
            RawLoop::Period80ns => Test::asm_toggle_gpio2_period_80ns(platform),
            RawLoop::PeriodMin => Test::asm_toggle_gpio2_period_min(),
        }
    }

    /// The period that the loop is meant to have on both boards, in
    /// nanoseconds, where it is meant to have one.
    pub fn target_ns(self) -> (t: Option<u32>)
        ensures
            match t {
                Some(ns) => self.target() == Some(ns as nat),
                None => self.target().is_none(),
            },
    {
        match self {
            RawLoop::Period200nsPico => None,
            RawLoop::Period200ns => Some(200),
            RawLoop::Period80ns => Some(80),
            RawLoop::PeriodMin => None,
        }
    }

    /// The delay cycles that the loop is written with, after the rising
    /// and after the falling edge.
    pub fn written_cycles(self) -> (c: (u32, u32))
        ensures
            c.0 == self.high_count(),
            c.1 == self.low_count(),
    {
        match self {
            RawLoop::Period200nsPico => (10, 9),
            RawLoop::Period200ns => (10, 9),
            RawLoop::Period80ns => (2, 2),
            RawLoop::PeriodMin => (0, 0),
        }
    }

    /// What `platform` adds to the written delay cycles of one trip.
    pub fn adjustment(self, platform: Platform) -> (a: i32)
        ensures
            a == self.adjust(platform),
            self.high_count() + self.low_count() + a == self.period(platform),
    {
        proof {
            law_program_cycles(self, platform);
        }
        match self {
            RawLoop::Period200nsPico => match platform {
                Platform::Pico => 6,
                Platform::Pico2 => -4,
            },
            RawLoop::Period200ns => match platform {
                Platform::Pico => 6,
                Platform::Pico2 => 11,
            },
            RawLoop::Period80ns => match platform {
                Platform::Pico => 6,
                Platform::Pico2 => 8,
            },
            RawLoop::PeriodMin => match platform {
                Platform::Pico => 6,
                Platform::Pico2 => 5,
            },
        }
    }

    /// The period that the loop is documented with on `platform`, in
    /// nanoseconds: the time of its cycles, rounded up.
    pub fn nominal_period_ns(self, platform: Platform) -> (ns: u32)
        ensures
            ns == self.nominal(platform),
            ns == platform.nanos(self.period(platform)),
            platform.within_one_cycle(self.period(platform) as int, ns as int),
            self.target() matches Some(t) ==> ns == t && platform.exactly(
                self.period(platform) as int,
                ns as int,
            ),
    {
        proof {
            law_program_cycles(self, platform);
            law_periods_converge(self, platform);
        }
        match self {
            RawLoop::Period200nsPico => match platform {
                Platform::Pico => 200,
                Platform::Pico2 => 100,
            },
            RawLoop::Period200ns => 200,
            RawLoop::Period80ns => 80,
            RawLoop::PeriodMin => match platform {
                Platform::Pico => 48,
                Platform::Pico2 => 34,
            },
        }
    }
}

impl Test {
    /// Toggles GPIO 2 with ten `nop`s after the rising edge and nine after
    /// the falling edge. With the pin writes and the branch that is 25
    /// cycles on the Pico: 200 ns. The Pico 2 needs 15 cycles for the same
    /// code, 100 ns: its branch is a cycle shorter and it runs the `nop`s
    /// in pairs.
    pub fn asm_toggle_gpio2_period_200ns_pico() -> (p: ToggleProgram)
        ensures
            p.wf(),
            forall|platform: Platform| p.high@ == RawLoop::Period200nsPico.high(platform),
            forall|platform: Platform| p.low@ == RawLoop::Period200nsPico.low(platform),
            p.period(Platform::Pico) == 25,
            p.period(Platform::Pico2) == 15,
    {
        let mut high: Vec<Primitive> = Vec::new();
        let mut low: Vec<Primitive> = Vec::new();
        high.push(Primitive::Cycles10Nop);
        low.push(Primitive::Cycles9Nop);
        proof {
            law_program_cycles(RawLoop::Period200nsPico, Platform::Pico);
            law_program_cycles(RawLoop::Period200nsPico, Platform::Pico2);
        }
        ToggleProgram { high, low }
    }

    /// Toggles GPIO 2 with a period of 200 ns on both boards. The delays
    /// are dependent additions, which no core runs in pairs, and the
    /// Pico 2 gets three more of them in each phase: one trip is 25 cycles
    /// on the Pico and 30 on the Pico 2.
    pub fn asm_toggle_gpio2_period_200ns(platform: Platform) -> (p: ToggleProgram)
        ensures
            p.wf(),
            p.high@ == RawLoop::Period200ns.high(platform),
            p.low@ == RawLoop::Period200ns.low(platform),
            p.period(platform) == (if platform == Platform::Pico { 25nat } else { 30nat }),
            platform.exactly(p.period(platform) as int, 200),
    {
        let mut high: Vec<Primitive> = Vec::new();
        let mut low: Vec<Primitive> = Vec::new();
        high.push(Primitive::Cycles10AddR2);
        if platform.is_pico2() {
            high.push(Primitive::Cycles3AddR2);
        }
        low.push(Primitive::Cycles9AddR2);
        if platform.is_pico2() {
            low.push(Primitive::Cycles3AddR2);
        }
        proof {
            law_program_cycles(RawLoop::Period200ns, platform);
        }
        ToggleProgram { high, low }
    }

    /// Toggles GPIO 2 with a period of 80 ns on both boards: 10 cycles on
    /// the Pico, 12 on the Pico 2.
    pub fn asm_toggle_gpio2_period_80ns(platform: Platform) -> (p: ToggleProgram)
        ensures
            p.wf(),
            p.high@ == RawLoop::Period80ns.high(platform),
            p.low@ == RawLoop::Period80ns.low(platform),
            p.period(platform) == (if platform == Platform::Pico { 10nat } else { 12nat }),
            platform.exactly(p.period(platform) as int, 80),
    {
        let mut high: Vec<Primitive> = Vec::new();
        let mut low: Vec<Primitive> = Vec::new();
        if platform.is_pico2() {
            high.push(Primitive::Cycles3AddR2);
        } else {
            high.push(Primitive::Cycles2AddR2);
        }
        low.push(Primitive::Cycles2AddR2);
        if platform.is_pico2() {
            low.push(Primitive::Cycles2AddR2);
        }
        proof {
            law_program_cycles(RawLoop::Period80ns, platform);
        }
        ToggleProgram { high, low }
    }

    /// Toggles GPIO 2 as fast as the pin writes and the branch allow: 6
    /// cycles on the Pico, 5 on the Pico 2.
    pub fn asm_toggle_gpio2_period_min() -> (p: ToggleProgram)
        ensures
            p.wf(),
            forall|platform: Platform| p.high@ == RawLoop::PeriodMin.high(platform),
            forall|platform: Platform| p.low@ == RawLoop::PeriodMin.low(platform),
            p.period(Platform::Pico) == 6,
            p.period(Platform::Pico2) == 5,
    {
        let high: Vec<Primitive> = Vec::new();
        let low: Vec<Primitive> = Vec::new();
        proof {
            law_program_cycles(RawLoop::PeriodMin, Platform::Pico);
            law_program_cycles(RawLoop::PeriodMin, Platform::Pico2);
        }
        ToggleProgram { high, low }
    }
}

/// The delay cycles that a board has to add to a loop so that it reaches a
/// period.
#[derive(Clone, Copy, Debug, PartialEq, Eq, Structural)]
pub struct Calibration {
    /// Cycles to add after the rising edge.
    pub high_extra: u32,
    /// Cycles to add after the falling edge.
    pub low_extra: u32,
}

/// The delay cycles that `platform` has to add to a loop written with
/// `high_cycles` and `low_cycles` of delay so that one trip round it lasts
/// `target_ns` nanoseconds exactly. The cycles to add are shared out
/// evenly, the odd one after the falling edge.
///
/// `None` where no number of added cycles gives that period: it is not a
/// whole number of cycles on this board, or the loop is too long already.
pub fn calibrate(platform: Platform, target_ns: u32, high_cycles: u32, low_cycles: u32) -> (c:
    Option<Calibration>)
    ensures
        match c {
            Some(c) => {
                &&& platform.exactly(
                    platform.overhead() + high_cycles + c.high_extra + low_cycles + c.low_extra,
                    target_ns as int,
                )
                &&& c.high_extra <= c.low_extra <= c.high_extra + 1
            },
            None => forall|trip: int|
                trip >= platform.overhead() + high_cycles + low_cycles ==> !#[trigger] platform.exactly(
                    trip,
                    target_ns as int,
                ),
        },
{
    let written: u64 = platform.overhead_cycles() as u64 + high_cycles as u64 + low_cycles as u64;
    match platform.cycles_for_period(target_ns) {
        Some(needed) => {
            if (needed as u64) < written {
                None
            } else {
                let extra: u64 = needed as u64 - written;
                let half: u64 = extra / 2;
                Some(Calibration { high_extra: half as u32, low_extra: (extra - half) as u32 })
            }
        },
        None => None,
    }
}

/// The loops that are meant to have one period on both boards are
/// calibrated: on either board each phase burns the written cycles plus
/// its share of the cycles that the board has to add to reach the period.
pub proof fn law_loops_are_calibrated(looped: RawLoop, platform: Platform, c: Calibration)
    requires
        looped.target() matches Some(t) && platform.exactly(
            platform.overhead() + looped.high_count() + c.high_extra + looped.low_count()
                + c.low_extra,
            t as int,
        ),
        c.high_extra <= c.low_extra <= c.high_extra + 1,
    ensures
        burn_cost(platform, looped.high(platform)) == looped.high_count() + c.high_extra,
        burn_cost(platform, looped.low(platform)) == looped.low_count() + c.low_extra,
{
    let none = Seq::<Primitive>::empty();
    assert(burn_cost(platform, none) == 0);
    lemma_burn_push(platform, none, Primitive::Cycles10AddR2);
    lemma_burn_push(platform, none, Primitive::Cycles9AddR2);
    lemma_burn_push(platform, none, Primitive::Cycles3AddR2);
    lemma_burn_push(platform, none, Primitive::Cycles2AddR2);
    lemma_burn_push(platform, none.push(Primitive::Cycles10AddR2), Primitive::Cycles3AddR2);
    lemma_burn_push(platform, none.push(Primitive::Cycles9AddR2), Primitive::Cycles3AddR2);
    lemma_burn_push(platform, none.push(Primitive::Cycles2AddR2), Primitive::Cycles2AddR2);
}

/// One trip round a loop takes exactly the written delay cycles plus the
/// board's adjustment, whether its cycles are taken from the timing table,
/// primitive by primitive, or counted over the instructions.
pub proof fn law_program_cycles(looped: RawLoop, platform: Platform)
    ensures
        looped.period(platform) == looped.high_count() + looped.low_count() + looped.adjust(
            platform,
        ),
        counted_trip(platform, looped.high(platform), looped.low(platform)) == looped.high_count()
            + looped.low_count() + looped.adjust(platform),
        all_delay(looped.high(platform)),
        all_delay(looped.low(platform)),
        looped.high(platform).len() <= 2,
        looped.low(platform).len() <= 2,
{
    let none = Seq::<Primitive>::empty();
    assert(burn_cost(platform, none) == 0);
    assert(all_delay(none));
    lemma_burn_push(platform, none, Primitive::Cycles10Nop);
    lemma_burn_push(platform, none, Primitive::Cycles9Nop);
    lemma_burn_push(platform, none, Primitive::Cycles10AddR2);
    lemma_burn_push(platform, none, Primitive::Cycles9AddR2);
    lemma_burn_push(platform, none, Primitive::Cycles3AddR2);
    lemma_burn_push(platform, none, Primitive::Cycles2AddR2);
    lemma_burn_push(platform, none.push(Primitive::Cycles10AddR2), Primitive::Cycles3AddR2);
    lemma_burn_push(platform, none.push(Primitive::Cycles9AddR2), Primitive::Cycles3AddR2);
    lemma_burn_push(platform, none.push(Primitive::Cycles2AddR2), Primitive::Cycles2AddR2);
    lemma_counted(platform, looped.high(platform));
    lemma_counted(platform, looped.low(platform));
    law_primitive_cycles(platform, Primitive::SetGpio2High);
    law_primitive_cycles(platform, Primitive::SetGpio2Low);
}

/// On each board the cycles of a loop, times the length of a cycle, give
/// the period the loop is documented with, to within less than one cycle.
/// Where the loop is meant to have one period on both boards, they give
/// that period exactly, on the Pico and on the Pico 2.
pub proof fn law_periods_converge(looped: RawLoop, platform: Platform)
    ensures
        platform.within_one_cycle(
            looped.high_count() + looped.low_count() + looped.adjust(platform),
            looped.nominal(platform) as int,
        ),
        looped.nominal(platform) == platform.nanos(looped.period(platform)),
        looped.target() matches Some(t) ==> looped.nominal(platform) == t && platform.exactly(
            looped.high_count() + looped.low_count() + looped.adjust(platform),
            t as int,
        ),
{
    law_program_cycles(looped, platform);
}

/// The period of a program is the count of cycles over its instructions
/// and the branch back.
pub proof fn law_period_is_counted(program: ToggleProgram, platform: Platform)
    ensures
        program.period(platform) == counted_trip(platform, program.high@, program.low@),
{
    lemma_counted(platform, program.high@);
    lemma_counted(platform, program.low@);
    law_primitive_cycles(platform, Primitive::SetGpio2High);
    law_primitive_cycles(platform, Primitive::SetGpio2Low);
}

/// Once `r0` holds the address of the GPIO output register, a trip round
/// a well-formed loop makes two stores, both to that register: first the
/// value that drives GPIO 2 high, then the value that drives it low. It
/// leaves the address in `r0`, so the next trip does the same.
pub proof fn law_trip_writes_pin(program: ToggleProgram, cpu: Cpu)
    requires
        program.wf(),
        cpu.r0 == GPIO_OUT,
    ensures
        program.trip_stores(cpu) == seq![
            Store { addr: GPIO_OUT, value: GPIO2_HIGH },
            Store { addr: GPIO_OUT, value: GPIO2_LOW },
        ],
        program.after_trip(cpu).r0 == GPIO_OUT,
{
    let c1 = cpu.run(Primitive::SetGpio2High.code());
    law_primitive_effect(cpu, Primitive::SetGpio2High);
    lemma_delays_keep_r0(c1, program.high@);
    let c2 = run_all(c1, program.high@);
    law_primitive_effect(c2, Primitive::SetGpio2Low);
    let c3 = c2.run(Primitive::SetGpio2Low.code());
    lemma_delays_keep_r0(c3, program.low@);
    assert(program.trip_stores(cpu) =~= seq![
        Store { addr: GPIO_OUT, value: GPIO2_HIGH },
        Store { addr: GPIO_OUT, value: GPIO2_LOW },
    ]);
}

/// What `n` periods of the square wave look like at the output register:
/// the value that drives GPIO 2 high, then the value that drives it low,
/// `n` times over.
pub open spec fn square_wave(n: nat) -> Seq<Store>
    decreases n,
{
    if n == 0 {
        Seq::empty()
    } else {
        square_wave((n - 1) as nat).push(Store { addr: GPIO_OUT, value: GPIO2_HIGH }).push(
            Store { addr: GPIO_OUT, value: GPIO2_LOW },
        )
    }
}

/// Whatever the registers hold at the start: once the address is loaded,
/// any number of trips round a well-formed loop stores a square wave to
/// the GPIO output register, and nothing to any other address.
pub proof fn law_loop_writes_square_wave(program: ToggleProgram, cpu: Cpu, n: nat)
    requires
        program.wf(),
    ensures
        cpu.stores(Primitive::LoadGpioOutAddr.code()) == Seq::<Store>::empty(),
        program.trips_stores(cpu.run(Primitive::LoadGpioOutAddr.code()), n) == square_wave(n),
        program.after_trips(cpu.run(Primitive::LoadGpioOutAddr.code()), n).r0 == GPIO_OUT,
    decreases n,
{
    law_primitive_effect(cpu, Primitive::LoadGpioOutAddr);
    assert(cpu.stores(Primitive::LoadGpioOutAddr.code()) =~= Seq::<Store>::empty());
    let start = cpu.run(Primitive::LoadGpioOutAddr.code());
    if n > 0 {
        let before = (n - 1) as nat;
        law_loop_writes_square_wave(program, cpu, before);
        law_trip_writes_pin(program, program.after_trips(start, before));
        assert(program.trips_stores(start, n) =~= square_wave(n));
    }
}

} // verus!
