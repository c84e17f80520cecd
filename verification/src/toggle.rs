//! The toggle loop as a state machine: each step names the next thing to
//! do to the pin or to the clock, and there is no step that ends it.

use vstd::prelude::*;
use crate::clock::{instant_after, ticks_from_micros};
use crate::strategy::{DelayStrategy, SpinDuration};

verus! {

/// Where the loop stands.
#[derive(Clone, Copy, Debug, PartialEq, Eq, Structural)]
pub enum Phase {
    /// Made, not yet started; the pin is low.
    Idle,
    /// The pin was driven high; the pause that follows is under way.
    High,
    /// The pin was driven low; the pause that follows is under way.
    Low,
}

/// What the driver of the loop is to do next.
#[derive(Clone, Copy, Debug, PartialEq, Eq, Structural)]
pub enum Action {
    /// Drive the pin high.
    DriveHigh,
    /// Drive the pin low.
    DriveLow,
    /// Suspend until the timer has counted `micros` microseconds.
    TimerWait { micros: u32 },
    /// Keep the core busy for `duration`, without suspending.
    Spin { duration: SpinDuration },
    /// Yield to the scheduler once.
    Yield,
    /// Burn `cycles` cycles with calibrated primitives, without suspending
    /// and without calling a delay service.
    Burn { cycles: u32 },
    /// Suspend until the timer reaches the instant at `ticks` ticks.
    WaitUntil { ticks: u64 },
}

impl Action {
    /// Whether the action hands control to the scheduler.
    pub open spec fn suspends(self) -> bool {
        match self {
            Action::TimerWait { .. } => true,
            Action::Yield => true,
            Action::WaitUntil { .. } => true,
            _ => false,
        }
    }

    /// Whether the action writes the pin.
    pub open spec fn drives(self) -> bool {
        self == Action::DriveHigh || self == Action::DriveLow
    }

    /// Whether the action hands control to the scheduler.
    pub fn is_suspension(&self) -> (b: bool)
        ensures
            b == self.suspends(),
    {
        match self {
            Action::TimerWait { .. } => true,
            Action::Yield => true,
            Action::WaitUntil { .. } => true,
            _ => false,
        }
    }
}

/// The actions of one pause, in order. `high` tells which pause it is, the
/// one after the rising or the one after the falling edge; `wake` is the
/// deadline of a pause that waits for one.
pub open spec fn pause_of(strategy: DelayStrategy, high: bool, wake: u64) -> Seq<Action> {
    match strategy {
        DelayStrategy::CooperativeWait { micros } => seq![Action::TimerWait { micros }],
        DelayStrategy::BlockingSpin { duration } => if duration == SpinDuration::Cycles(0) {
            Seq::empty()
        } else {
            seq![Action::Spin { duration }]
        },
        DelayStrategy::BlockingSpinThenYield { micros } => seq![
            Action::Spin { duration: SpinDuration::Micros(micros) },
            Action::Yield,
        ],
        DelayStrategy::RawCycleDelay { high_cycles, low_cycles, .. } => {
            let cycles = if high {
                high_cycles
            } else {
                low_cycles
            };
            if cycles == 0 {
                Seq::empty()
            } else {
                seq![Action::Burn { cycles }]
            }
        },
        DelayStrategy::DeadlineSchedule { .. } => seq![Action::WaitUntil { ticks: wake }],
    }
}

/// How many of `actions` hand control to the scheduler.
pub open spec fn suspension_count(actions: Seq<Action>) -> nat
    decreases actions.len(),
{
    if actions.len() == 0 {
        0
    } else {
        suspension_count(actions.drop_last()) + if actions.last().suspends() {
            1nat
        } else {
            0nat
        }
    }
}

/// The toggle loop: drive high, pause, drive low, pause, and again.
#[derive(Clone, Copy, Debug, PartialEq, Eq, Structural)]
pub struct ToggleLoop {
    /// How the loop pauses. It never changes.
    pub strategy: DelayStrategy,
    /// Where the loop stands.
    pub phase: Phase,
    /// How many actions of the pause under way were handed out.
    pub issued: u8,
    /// Ticks of the running instant that deadlines are counted from.
    pub deadline: u64,
    /// Ticks by which the running instant advances with every pause of a
    /// deadline schedule; zero for any other strategy.
    pub period_ticks: u64,
}

impl ToggleLoop {
    /// The period of `strategy` in ticks of the timer.
    pub open spec fn period_of(strategy: DelayStrategy) -> u64 {
        match strategy {
            DelayStrategy::DeadlineSchedule { period_micros } => period_micros as u64,
            _ => 0,
        }
    }

    /// The running instant after the next pause, as far as 64 bits hold it.
    pub open spec fn wake(self) -> u64 {
        if self.deadline + self.period_ticks <= u64::MAX {
            (self.deadline + self.period_ticks) as u64
        } else {
            u64::MAX
        }
    }

    /// The actions of the pause under way.
    pub open spec fn pause(self) -> Seq<Action> {
        pause_of(self.strategy, self.phase == Phase::High, self.wake())
    }

    /// The state is one that the loop can be in.
    pub open spec fn wf(self) -> bool {
        &&& self.period_ticks == ToggleLoop::period_of(self.strategy)
        &&& self.phase == Phase::Idle ==> self.issued == 0
        &&& self.phase != Phase::Idle ==> self.issued <= self.pause().len()
    }

    /// The next deadline fits in 64 bits. It does for some hundred
    /// thousand years of running.
    pub open spec fn in_range(self) -> bool {
        self.deadline + self.period_ticks <= u64::MAX
    }

    /// What the next step hands out.
    pub open spec fn next_action(self) -> Action {
        match self.phase {
            Phase::Idle => Action::DriveHigh,
            Phase::High => if self.issued < self.pause().len() {
                self.pause()[self.issued as int]
            } else {
                Action::DriveLow
            },
            Phase::Low => if self.issued < self.pause().len() {
                self.pause()[self.issued as int]
            } else {
                Action::DriveHigh
            },
        }
    }

    /// The state after the next step.
    pub open spec fn next_state(self) -> ToggleLoop {
        match self.phase {
            Phase::Idle => ToggleLoop { phase: Phase::High, issued: 0, ..self },
            Phase::High => if self.issued < self.pause().len() {
                self.paused()
            } else {
                ToggleLoop { phase: Phase::Low, issued: 0, ..self }
            },
            Phase::Low => if self.issued < self.pause().len() {
                self.paused()
            } else {
                ToggleLoop { phase: Phase::High, issued: 0, ..self }
            },
        }
    }

    /// The state after one more action of the pause under way. An action
    /// that waits for a deadline moves the running instant on to it.
    pub open spec fn paused(self) -> ToggleLoop {
        ToggleLoop {
            issued: (self.issued + 1) as u8,
            deadline: if self.strategy is DeadlineSchedule {
                self.wake()
            } else {
                self.deadline
            },
            ..self
        }
    }

    /// The state after `n` steps.
    pub open spec fn after(self, n: nat) -> ToggleLoop
        decreases n,
    {
        if n == 0 {
            self
        } else {
            self.after((n - 1) as nat).next_state()
        }
    }

    /// A loop that is ready to start. `now` is the tick count of the
    /// current instant: a deadline schedule counts its deadlines from
    /// there, and its period is converted to ticks once, here.
    pub fn new(strategy: DelayStrategy, now: u64) -> (machine: ToggleLoop)
        ensures
            machine.wf(),
            machine.strategy == strategy,
            machine.phase == Phase::Idle,
            machine.issued == 0,
            machine.deadline == now,
            machine.period_ticks == ToggleLoop::period_of(strategy),
    {
        let period_ticks: u64 = match strategy {
            DelayStrategy::DeadlineSchedule { period_micros } => ticks_from_micros(
                period_micros as u64,
            ),
            _ => 0,
        };
        ToggleLoop { strategy, phase: Phase::Idle, issued: 0, deadline: now, period_ticks }
    }

    /// Whether the next deadline fits in 64 bits, so that `step` may be
    /// called.
    pub fn can_step(&self) -> (ok: bool)
        ensures
            ok == self.in_range(),
    {
        self.deadline <= u64::MAX - self.period_ticks
    }

    /// One step of the loop: says what to do next and moves on. Whatever
    /// the state, there is a next action and a next state, and the next
    /// state is never the idle one: the loop has no way out.
    pub fn step(&mut self) -> (action: Action)
        requires
            old(self).wf(),
            old(self).in_range(),
        ensures
            action == old(self).next_action(),
            *final(self) == old(self).next_state(),
            final(self).wf(),
            final(self).phase != Phase::Idle,
            final(self).strategy == old(self).strategy,
    {
        match self.phase {
            Phase::Idle => {
                self.phase = Phase::High;
                self.issued = 0;
                Action::DriveHigh
            },
            Phase::High => match self.pause_step(true) {
                Some(action) => action,
                None => {
                    self.phase = Phase::Low;
                    self.issued = 0;
                    Action::DriveLow
                },
            },
            Phase::Low => match self.pause_step(false) {
                Some(action) => action,
                None => {
                    self.phase = Phase::High;
                    self.issued = 0;
                    Action::DriveHigh
                },
            },
        }
    }

    /// The next action of the pause under way, if one is left.
    fn pause_step(&mut self, high: bool) -> (action: Option<Action>)
        requires
            old(self).wf(),
            old(self).in_range(),
            old(self).phase != Phase::Idle,
            high == (old(self).phase == Phase::High),
        ensures
            old(self).issued < old(self).pause().len() ==> action == Some(
                old(self).pause()[old(self).issued as int],
            ) && *final(self) == old(self).paused(),
            old(self).issued >= old(self).pause().len() ==> action.is_none() && *final(self)
                == *old(self),
            final(self).wf(),
    {
        let issued: u8 = self.issued;
        let action: Option<Action> = match self.strategy {
            DelayStrategy::CooperativeWait { micros } => {
                if issued == 0 {
                    Some(Action::TimerWait { micros })
                } else {
                    None
                }
            },
            DelayStrategy::BlockingSpin { duration } => {
                let none_at_all: bool = match duration {
                    SpinDuration::Cycles(cycles) => cycles == 0,
                    _ => false,
                };
                if issued == 0 && !none_at_all {
                    Some(Action::Spin { duration })
                } else {
                    None
                }
            },
            DelayStrategy::BlockingSpinThenYield { micros } => {
                if issued == 0 {
                    Some(Action::Spin { duration: SpinDuration::Micros(micros) })
                } else if issued == 1 {
                    Some(Action::Yield)
                } else {
                    None
                }
            },
            DelayStrategy::RawCycleDelay { high_cycles, low_cycles, .. } => {
                let cycles: u32 = if high {
                    high_cycles
                } else {
                    low_cycles
                };
                if issued == 0 && cycles != 0 {
                    Some(Action::Burn { cycles })
                } else {
                    None
                }
            },
            DelayStrategy::DeadlineSchedule { .. } => {
                if issued == 0 {
                    let ticks: u64 = instant_after(self.deadline, self.period_ticks);
                    self.deadline = ticks;
                    Some(Action::WaitUntil { ticks })
                } else {
                    None
                }
            },
        };
        if action.is_some() {
            self.issued = issued + 1;
        }
        action
    }
}

/// One pause hands control to the scheduler as often as the table of
/// strategies says: once for a cooperative wait and for a deadline, never
/// for a blocking spin or a cycle-counted delay, and once, as its last
/// action, for a spin that then yields.
pub proof fn law_suspensions(strategy: DelayStrategy, high: bool, wake: u64)
    ensures
        suspension_count(pause_of(strategy, high, wake)) == strategy.suspensions(),
        strategy matches DelayStrategy::CooperativeWait { micros } ==> pause_of(
            strategy,
            high,
            wake,
        ) == seq![Action::TimerWait { micros }],
        strategy is BlockingSpin || strategy is RawCycleDelay ==> forall|i: int|
            0 <= i < pause_of(strategy, high, wake).len() ==> !(#[trigger] pause_of(
                strategy,
                high,
                wake,
            )[i]).suspends(),
        strategy is BlockingSpinThenYield ==> pause_of(strategy, high, wake).last()
            == Action::Yield && !pause_of(strategy, high, wake)[0].suspends(),
{
    let actions = pause_of(strategy, high, wake);
    let none = Seq::<Action>::empty();
    assert(suspension_count(none) == 0);
    if actions.len() == 1 {
        assert(actions.drop_last() =~= none);
        assert(actions.last() == actions[0]);
    } else if actions.len() == 2 {
        let first = actions.drop_last();
        assert(first.drop_last() =~= none);
        assert(first.last() == actions[0]);
        assert(suspension_count(first) == 0);
        assert(actions.last() == actions[1]);
    } else {
        assert(actions =~= none);
    }
}

/// The loop never stops and never changes its strategy: after any number
/// of steps it is in a state it can step from, and once started it is
/// never idle again.
pub proof fn law_never_stops(machine: ToggleLoop, n: nat)
    requires
        machine.wf(),
    ensures
        machine.after(n).wf(),
        machine.after(n).strategy == machine.strategy,
        n >= 1 ==> machine.after(n).phase != Phase::Idle,
    decreases n,
{
    if n > 0 {
        law_never_stops(machine, (n - 1) as nat);
    }
}

/// The edges alternate. A step drives the pin high only when it is not
/// high already, and low only when it is high; a step that does not drive
/// the pin leaves the phase as it is.
pub proof fn law_edges_alternate(machine: ToggleLoop, n: nat)
    requires
        machine.wf(),
    ensures
        machine.after(n).next_action() == Action::DriveHigh ==> machine.after(n).phase
            != Phase::High && machine.after(n + 1).phase == Phase::High,
        machine.after(n).next_action() == Action::DriveLow ==> machine.after(n).phase
            == Phase::High && machine.after(n + 1).phase == Phase::Low,
        !machine.after(n).next_action().drives() ==> machine.after(n + 1).phase == machine.after(
            n,
        ).phase,
{
    law_never_stops(machine, n);
    assert(machine.after(n + 1) == machine.after(n).next_state());
}

/// The pin keeps toggling. No pause has more than two actions, so of any
/// three steps in a row at least one drives the pin.
pub proof fn law_pin_keeps_toggling(machine: ToggleLoop, n: nat)
    requires
        machine.wf(),
    ensures
        machine.after(n).next_action().drives() || machine.after(n + 1).next_action().drives()
            || machine.after(n + 2).next_action().drives(),
{
    law_never_stops(machine, n);
    law_never_stops(machine, n + 1);
    assert(machine.after(n + 1) == machine.after(n).next_state());
    assert(machine.after(n + 2) == machine.after(n + 1).next_state());
}

/// A loop with a blocking spin never hands control to the scheduler: no
/// step of it, however late, gives an action that suspends.
pub proof fn law_blocking_spin_never_yields(machine: ToggleLoop, n: nat)
    requires
        machine.wf(),
        machine.strategy is BlockingSpin,
    ensures
        !machine.after(n).next_action().suspends(),
        machine.after(n).next_action() != Action::Yield,
{
    law_never_stops(machine, n);
}

/// A loop with a cooperative wait suspends exactly once between two pin
/// writes: a pin write is followed by the wait, and the wait by the next
/// pin write.
pub proof fn law_cooperative_wait_suspends_once(machine: ToggleLoop, n: nat)
    requires
        machine.wf(),
        machine.strategy is CooperativeWait,
    ensures
        machine.after(n).next_action().drives() ==> machine.after(n + 1).next_action()
            == (Action::TimerWait { micros: machine.strategy->CooperativeWait_micros }),
        machine.after(n).next_action().suspends() ==> machine.after(n + 1).next_action().drives(),
        machine.after(n).next_action().drives() || machine.after(n).next_action().suspends(),
{
    law_never_stops(machine, n);
    law_never_stops(machine, n + 1);
    assert(machine.after(n + 1) == machine.after(n).next_state());
}

/// Deadlines do not drift. Started at the instant `t` with period `p`, a
/// deadline schedule waits, in its `k`-th pause, for the instant
/// `t + k * p` exactly: the time that the steps in between took enters
/// nowhere.
pub proof fn law_deadlines_accumulate(machine: ToggleLoop, k: nat)
    requires
        machine.wf(),
        machine.strategy is DeadlineSchedule,
        machine.phase == Phase::Idle,
        k >= 1,
        machine.deadline + k * machine.period_ticks <= u64::MAX,
    ensures
        machine.after((2 * k - 1) as nat).next_action() == (Action::WaitUntil {
            ticks: (machine.deadline + k * machine.period_ticks) as u64,
        }),
        machine.after((2 * k) as nat).deadline == machine.deadline + k * machine.period_ticks,
        machine.after((2 * k) as nat).issued == 1,
        machine.after((2 * k) as nat).phase != Phase::Idle,
    decreases k,
{
    let p = machine.period_ticks;
    let s1 = machine.after(1);
    assert(machine.after(0) == machine);
    assert(s1 == machine.next_state());
    if k == 1 {
        assert(1 * p == p) by (nonlinear_arith);
        assert(machine.after(2) == s1.next_state());
    } else {
        let j = (k - 1) as nat;
        assert(k * p == j * p + p) by (nonlinear_arith)
            requires
                k == j + 1,
        ;
        assert(j * p >= 0) by (nonlinear_arith)
            requires
                j >= 0,
                p >= 0,
        ;
        law_deadlines_accumulate(machine, j);
        law_never_stops(machine, 2 * j);
        let a = machine.after(2 * j);
        let b = machine.after((2 * j + 1) as nat);
        assert(b == a.next_state());
        assert(machine.after(2 * k) == b.next_state());
        assert(machine.after((2 * k - 1) as nat) == b);
    }
}

} // verus!
