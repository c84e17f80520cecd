//! The selector: from a test type and a test number to the variant to
//! run, or to the error that names what could not be resolved.

use vstd::prelude::*;
use vstd::string::*;
use crate::platform::Platform;
use crate::primitives::Test;
use crate::program::RawLoop;
use crate::strategy::{DelayStrategy, SpinDuration};
use crate::text::{decimal, lemma_occurs_in_middle, occurs_in, push_decimal};

verus! {

/// The lowest test number.
pub const FIRST_TEST: u32 = 1;

/// The highest test number that has a variant behind it.
pub const LAST_IMPLEMENTED_TEST: u32 = 19;

/// The highest test number.
pub const LAST_TEST: u32 = 25;

/// The name of the one test type.
pub open spec fn single_gpio_name() -> Seq<char> {
    "single-gpio"@
}

/// Why no variant could be selected.
#[derive(Clone, Copy, Debug, PartialEq, Eq, Structural)]
pub enum SelectError {
    /// The test type is not one the benchmark has.
    UnknownTestType,
    /// The number is outside the range of test numbers.
    UnknownTest { id: u32 },
    /// The number is a test number, but no variant stands behind it.
    NotImplemented { id: u32 },
}

impl SelectError {
    /// The number that could not be resolved, where a number is at fault.
    pub open spec fn named(self) -> Option<u32> {
        match self {
            SelectError::UnknownTestType => None,
            SelectError::UnknownTest { id } => Some(id),
            SelectError::NotImplemented { id } => Some(id),
        }
    }

    /// The text of the message.
    pub open spec fn text(self) -> Seq<char> {
        match self {
            SelectError::UnknownTestType => "Test type not known"@,
            SelectError::UnknownTest { id } => "Test "@ + decimal(id as nat) + " does not exist"@,
            SelectError::NotImplemented { id } => "Test "@ + decimal(id as nat)
                + " not implemented"@,
        }
    }

    /// The number that could not be resolved, where a number is at fault.
    pub fn id(&self) -> (id: Option<u32>)
        ensures
            id == self.named(),
    {
        match self {
            SelectError::UnknownTestType => None,
            SelectError::UnknownTest { id } => Some(*id),
            SelectError::NotImplemented { id } => Some(*id),
        }
    }

    /// The message to report: it names the number that could not be
    /// resolved.
    pub fn message(&self) -> (msg: String)
        ensures
            msg@ == self.text(),
            self.named() matches Some(id) ==> occurs_in(decimal(id as nat), msg@),
    {
        proof {
            law_message_names_test(*self);
        }
        match self {
            SelectError::UnknownTestType => String::from_str("Test type not known"),
            SelectError::UnknownTest { id } => {
                let mut msg: String = String::from_str("Test ");
                push_decimal(&mut msg, *id);
                msg.append(" does not exist");
                msg
            },
            SelectError::NotImplemented { id } => {
                let mut msg: String = String::from_str("Test ");
                push_decimal(&mut msg, *id);
                msg.append(" not implemented");
                msg
            },
        }
    }
}

/// The message of an error that a number caused holds the decimal numeral
/// of exactly that number.
pub proof fn law_message_names_test(e: SelectError)
    ensures
        e.named() matches Some(id) ==> occurs_in(decimal(id as nat), e.text()),
{
    match e {
        SelectError::UnknownTestType => {},
        SelectError::UnknownTest { id } => {
            lemma_occurs_in_middle("Test "@, decimal(id as nat), " does not exist"@);
        },
        SelectError::NotImplemented { id } => {
            lemma_occurs_in_middle("Test "@, decimal(id as nat), " not implemented"@);
        },
    }
}

/// The kinds of test.
#[derive(Clone, Copy, Debug, PartialEq, Eq, Structural)]
pub enum TestType {
    /// Toggle one GPIO.
    SingleGpio,
}

impl TestType {
    /// The test type that `name` selects: `single-gpio` is the only one.
    pub fn get(name: &str) -> (r: Result<TestType, SelectError>)
        ensures
            r == (if name@ == single_gpio_name() {
                Ok::<TestType, SelectError>(TestType::SingleGpio)
            } else {
                Err::<TestType, SelectError>(SelectError::UnknownTestType)
            }),
    {
        let given: String = String::from_str(name);
        let known: String = String::from_str("single-gpio");
        if given == known {
            Ok(TestType::SingleGpio)
        } else {
            Err(SelectError::UnknownTestType)
        }
    }
}

/// The test numbers.
#[derive(Clone, Copy, Debug, PartialEq, Eq, Structural)]
pub enum TestNum {
    T1,
    T2,
    T3,
    T4,
    T5,
    T6,
    T7,
    T8,
    T9,
    T10,
    T11,
    T12,
    T13,
    T14,
    T15,
    T16,
    T17,
    T18,
    T19,
    T20,
    T21,
    T22,
    T23,
    T24,
    T25,
}

impl TestNum {
    /// The number of this test.
    pub open spec fn value(self) -> nat {
        match self {
            TestNum::T1 => 1,
            TestNum::T2 => 2,
            TestNum::T3 => 3,
            TestNum::T4 => 4,
            TestNum::T5 => 5,
            TestNum::T6 => 6,
            TestNum::T7 => 7,
            TestNum::T8 => 8,
            TestNum::T9 => 9,
            TestNum::T10 => 10,
            TestNum::T11 => 11,
            TestNum::T12 => 12,
            TestNum::T13 => 13,
            TestNum::T14 => 14,
            TestNum::T15 => 15,
            TestNum::T16 => 16,
            TestNum::T17 => 17,
            TestNum::T18 => 18,
            TestNum::T19 => 19,
            TestNum::T20 => 20,
            TestNum::T21 => 21,
            TestNum::T22 => 22,
            TestNum::T23 => 23,
            TestNum::T24 => 24,
            TestNum::T25 => 25,
        }
    }

    /// The test with number `n`, if there is one.
    pub open spec fn of(n: nat) -> Option<TestNum> {
        if n == 1 {
            Some(TestNum::T1)
        } else if n == 2 {
            Some(TestNum::T2)
        } else if n == 3 {
            Some(TestNum::T3)
        } else if n == 4 {
            Some(TestNum::T4)
        } else if n == 5 {
            Some(TestNum::T5)
        } else if n == 6 {
            Some(TestNum::T6)
        } else if n == 7 {
            Some(TestNum::T7)
        } else if n == 8 {
            Some(TestNum::T8)
        } else if n == 9 {
            Some(TestNum::T9)
        } else if n == 10 {
            Some(TestNum::T10)
        } else if n == 11 {
            Some(TestNum::T11)
        } else if n == 12 {
            Some(TestNum::T12)
        } else if n == 13 {
            Some(TestNum::T13)
        } else if n == 14 {
            Some(TestNum::T14)
        } else if n == 15 {
            Some(TestNum::T15)
        } else if n == 16 {
            Some(TestNum::T16)
        } else if n == 17 {
            Some(TestNum::T17)
        } else if n == 18 {
            Some(TestNum::T18)
        } else if n == 19 {
            Some(TestNum::T19)
        } else if n == 20 {
            Some(TestNum::T20)
        } else if n == 21 {
            Some(TestNum::T21)
        } else if n == 22 {
            Some(TestNum::T22)
        } else if n == 23 {
            Some(TestNum::T23)
        } else if n == 24 {
            Some(TestNum::T24)
        } else if n == 25 {
            Some(TestNum::T25)
        } else {
            None
        }
    }

    /// Whether a variant stands behind this test number.
    pub open spec fn implemented(self) -> bool {
        self.value() <= LAST_IMPLEMENTED_TEST
    }

    /// The test with number `id`. Every number from 1 to 25 is a test
    /// number; any other is refused by name.
    pub fn get(id: u32) -> (r: Result<TestNum, SelectError>)
        ensures
            r == (match TestNum::of(id as nat) {
                Some(t) => Ok::<TestNum, SelectError>(t),
                None => Err::<TestNum, SelectError>(SelectError::UnknownTest { id }),
            }),
            r.is_ok() <==> FIRST_TEST <= id <= LAST_TEST,
            r matches Ok(t) ==> t.value() == id,
    {
        if id == 1 {
            Ok(TestNum::T1)
        } else if id == 2 {
            Ok(TestNum::T2)
        } else if id == 3 {
            Ok(TestNum::T3)
        } else if id == 4 {
            Ok(TestNum::T4)
        } else if id == 5 {
            Ok(TestNum::T5)
        } else if id == 6 {
            Ok(TestNum::T6)
        } else if id == 7 {
            Ok(TestNum::T7)
        } else if id == 8 {
            Ok(TestNum::T8)
        } else if id == 9 {
            Ok(TestNum::T9)
        } else if id == 10 {
            Ok(TestNum::T10)
        } else if id == 11 {
            Ok(TestNum::T11)
        } else if id == 12 {
            Ok(TestNum::T12)
        } else if id == 13 {
            Ok(TestNum::T13)
        } else if id == 14 {
            Ok(TestNum::T14)
        } else if id == 15 {
            Ok(TestNum::T15)
        } else if id == 16 {
            Ok(TestNum::T16)
        } else if id == 17 {
            Ok(TestNum::T17)
        } else if id == 18 {
            Ok(TestNum::T18)
        } else if id == 19 {
            Ok(TestNum::T19)
        } else if id == 20 {
            Ok(TestNum::T20)
        } else if id == 21 {
            Ok(TestNum::T21)
        } else if id == 22 {
            Ok(TestNum::T22)
        } else if id == 23 {
            Ok(TestNum::T23)
        } else if id == 24 {
            Ok(TestNum::T24)
        } else if id == 25 {
            Ok(TestNum::T25)
        } else {
            Err(SelectError::UnknownTest { id })
        }
    }

    /// The number of this test.
    pub fn number(self) -> (n: u32)
        ensures
            n == self.value(),
            FIRST_TEST <= n <= LAST_TEST,
            TestNum::of(n as nat) == Some(self),
    {
        match self {
            TestNum::T1 => 1,
            TestNum::T2 => 2,
            TestNum::T3 => 3,
            TestNum::T4 => 4,
            TestNum::T5 => 5,
            TestNum::T6 => 6,
            TestNum::T7 => 7,
            TestNum::T8 => 8,
            TestNum::T9 => 9,
            TestNum::T10 => 10,
            TestNum::T11 => 11,
            TestNum::T12 => 12,
            TestNum::T13 => 13,
            TestNum::T14 => 14,
            TestNum::T15 => 15,
            TestNum::T16 => 16,
            TestNum::T17 => 17,
            TestNum::T18 => 18,
            TestNum::T19 => 19,
            TestNum::T20 => 20,
            TestNum::T21 => 21,
            TestNum::T22 => 22,
            TestNum::T23 => 23,
            TestNum::T24 => 24,
            TestNum::T25 => 25,
        }
    }

    /// Whether a variant stands behind this test number.
    pub fn is_implemented(self) -> (b: bool)
        ensures
            b == self.implemented(),
    {
        self.number() <= LAST_IMPLEMENTED_TEST
    }
}

/// How strongly the pin is driven.
#[derive(Clone, Copy, Debug, PartialEq, Eq, Structural)]
pub enum DriveStrength {
    /// 2 mA.
    Low2mA,
    /// 12 mA.
    High12mA,
}

/// One test, resolved: what to run, and how.
#[derive(Clone, Copy, Debug, PartialEq, Eq, Structural)]
pub struct TestVariant {
    /// The number it was selected by.
    pub number: TestNum,
    /// The board it was resolved for.
    pub platform: Platform,
    /// How the loop pauses.
    pub strategy: DelayStrategy,
    /// The drive strength to set before the loop starts; `None` leaves the
    /// pin as it is.
    pub drive: Option<DriveStrength>,
}

impl TestVariant {
    /// The strategy of test `number` on `platform`; `None` where the test
    /// has no variant.
    pub open spec fn strategy_of(number: TestNum, platform: Platform) -> Option<DelayStrategy> {
        match number {
            TestNum::T1 => Some(DelayStrategy::CooperativeWait { micros: 100 }),
            TestNum::T2 => Some(DelayStrategy::CooperativeWait { micros: 10 }),
            TestNum::T3 => Some(DelayStrategy::CooperativeWait { micros: 1 }),
            TestNum::T4 => Some(DelayStrategy::BlockingSpin { duration: SpinDuration::Micros(100) }),
            TestNum::T5 => Some(DelayStrategy::BlockingSpin { duration: SpinDuration::Micros(10) }),
            TestNum::T6 => Some(DelayStrategy::BlockingSpin { duration: SpinDuration::Micros(2) }),
            TestNum::T7 => Some(DelayStrategy::BlockingSpin { duration: SpinDuration::Micros(1) }),
            TestNum::T8 => Some(DelayStrategy::BlockingSpin { duration: SpinDuration::Nanos(100) }),
            TestNum::T9 => Some(DelayStrategy::BlockingSpinThenYield { micros: 100 }),
            TestNum::T10 => Some(DelayStrategy::BlockingSpinThenYield { micros: 10 }),
            TestNum::T11 => Some(DelayStrategy::BlockingSpinThenYield { micros: 1 }),
            TestNum::T12 => Some(DelayStrategy::BlockingSpin { duration: SpinDuration::Cycles(2) }),
            TestNum::T13 => Some(DelayStrategy::BlockingSpin { duration: SpinDuration::Cycles(0) }),
            TestNum::T14 => Some(DelayStrategy::raw_spec(RawLoop::Period200nsPico, platform)),
            TestNum::T15 => Some(DelayStrategy::raw_spec(RawLoop::Period200ns, platform)),
            TestNum::T16 => Some(DelayStrategy::raw_spec(RawLoop::Period80ns, platform)),
            TestNum::T17 => Some(DelayStrategy::raw_spec(RawLoop::PeriodMin, platform)),
            TestNum::T18 => Some(DelayStrategy::raw_spec(RawLoop::PeriodMin, platform)),
            TestNum::T19 => Some(DelayStrategy::DeadlineSchedule { period_micros: 10 }),
            _ => None,
        }
    }

    /// The drive strength that test `number` sets.
    pub open spec fn drive_of(number: TestNum) -> Option<DriveStrength> {
        match number {
            TestNum::T16 => Some(DriveStrength::Low2mA),
            TestNum::T17 => Some(DriveStrength::Low2mA),
            TestNum::T18 => Some(DriveStrength::High12mA),
            _ => None,
        }
    }

    /// The description of test `number`.
    pub open spec fn description_of(number: TestNum) -> Seq<char> {
        match number {
            TestNum::T1 => "~200us period using yielding Timer::after_micros"@,
            TestNum::T2 => "~20us period using yielding Timer::after_micros"@,
            TestNum::T3 => "~2us period using yielding Timer::after_micros"@,
            TestNum::T4 => "200us period using blocking Delay.delay_us"@,
            TestNum::T5 => "20us period using blocking Delay.delay_us"@,
            TestNum::T6 => "4us period using blocking Delay.delay_us"@,
            TestNum::T7 => "2us period using blocking Delay.delay_us"@,
            TestNum::T8 => "not near 200ns period using blocking Delay.delay_ns"@,
            TestNum::T9 => "~200us period using blocking Delay.delay_us then yield_now()"@,
            TestNum::T10 => "~20us period using blocking Delay.delay_us then yield_now()"@,
            TestNum::T11 => "~2us period using blocking Delay.delay_us then yield_now()"@,
            TestNum::T12 => "\"2 cycle\" delay using blocking cortex_m::asm::delay()"@,
            TestNum::T13 => "As fast as possible with no delay and embassy GPIO functions"@,
            TestNum::T14 => "Using same assembly for both Pico and Pico 2"@,
            TestNum::T15 => "200ns period using asm on both Pico and Pico 2"@,
            TestNum::T16 => "80ns period using asm on both Pico and Pico 2"@,
            TestNum::T17 => "Shortest period using asm, low drive strength"@,
            TestNum::T18 => "Shortest period using asm, high drive strength"@,
            TestNum::T19 => "20us period using Timer::at()"@,
            _ => "not implemented"@,
        }
    }

    /// The variant of test `number` on `platform`; `None` where the test
    /// has no variant.
    pub open spec fn of(number: TestNum, platform: Platform) -> Option<TestVariant> {
        match TestVariant::strategy_of(number, platform) {
            Some(strategy) => Some(
                TestVariant { number, platform, strategy, drive: TestVariant::drive_of(number) },
            ),
            None => None,
        }
    }

    /// This variant is one that the selector gives: its strategy and its
    /// drive strength are those of its number on its board.
    pub open spec fn wf(self) -> bool {
        TestVariant::of(self.number, self.platform) == Some(self)
    }

    /// What this variant does, in words.
    pub fn description(&self) -> (text: &'static str)
        ensures
            text@ == TestVariant::description_of(self.number),
    {
        match self.number {
            TestNum::T1 => "~200us period using yielding Timer::after_micros",
            TestNum::T2 => "~20us period using yielding Timer::after_micros",
            TestNum::T3 => "~2us period using yielding Timer::after_micros",
            TestNum::T4 => "200us period using blocking Delay.delay_us",
            TestNum::T5 => "20us period using blocking Delay.delay_us",
            TestNum::T6 => "4us period using blocking Delay.delay_us",
            TestNum::T7 => "2us period using blocking Delay.delay_us",
            TestNum::T8 => "not near 200ns period using blocking Delay.delay_ns",
            TestNum::T9 => "~200us period using blocking Delay.delay_us then yield_now()",
            TestNum::T10 => "~20us period using blocking Delay.delay_us then yield_now()",
            TestNum::T11 => "~2us period using blocking Delay.delay_us then yield_now()",
            TestNum::T12 => "\"2 cycle\" delay using blocking cortex_m::asm::delay()",
            TestNum::T13 => "As fast as possible with no delay and embassy GPIO functions",
            TestNum::T14 => "Using same assembly for both Pico and Pico 2",
            TestNum::T15 => "200ns period using asm on both Pico and Pico 2",
            TestNum::T16 => "80ns period using asm on both Pico and Pico 2",
            TestNum::T17 => "Shortest period using asm, low drive strength",
            TestNum::T18 => "Shortest period using asm, high drive strength",
            TestNum::T19 => "20us period using Timer::at()",
            _ => "not implemented",
        }
    }

    /// The cycle-counted loop of this variant, if it has one: such a
    /// variant writes the pin through the output register itself, any
    /// other through the GPIO driver.
    pub fn raw_loop(&self) -> (routine: Option<RawLoop>)
        ensures
            routine == (match self.strategy {
                DelayStrategy::RawCycleDelay { routine, .. } => Some(routine),
                _ => None,
            }),
    {
        match self.strategy {
            DelayStrategy::RawCycleDelay { routine, .. } => Some(routine),
            _ => None,
        }
    }
}

impl Test {
    /// Resolves a single-GPIO test for `platform`. Tests 1 to 19 have a
    /// variant, on either board; any other test number is refused, by
    /// name, and nothing is started.
    pub fn single_gpio(test_num: TestNum, platform: Platform) -> (r: Result<
        TestVariant,
        SelectError,
    >)
        ensures
            r == (match TestVariant::of(test_num, platform) {
                Some(v) => Ok::<TestVariant, SelectError>(v),
                None => Err::<TestVariant, SelectError>(
                    SelectError::NotImplemented { id: test_num.value() as u32 },
                ),
            }),
            r.is_ok() <==> test_num.implemented(),
            r matches Ok(v) ==> v.wf() && v.number == test_num && v.platform == platform
                && v.strategy.calibrated_for(platform),
    {
        let strategy: DelayStrategy = match test_num {
            TestNum::T1 => DelayStrategy::CooperativeWait { micros: 100 },
            TestNum::T2 => DelayStrategy::CooperativeWait { micros: 10 },
            TestNum::T3 => DelayStrategy::CooperativeWait { micros: 1 },
            TestNum::T4 => DelayStrategy::BlockingSpin { duration: SpinDuration::Micros(100) },
            TestNum::T5 => DelayStrategy::BlockingSpin { duration: SpinDuration::Micros(10) },
            TestNum::T6 => DelayStrategy::BlockingSpin { duration: SpinDuration::Micros(2) },
            TestNum::T7 => DelayStrategy::BlockingSpin { duration: SpinDuration::Micros(1) },
            TestNum::T8 => DelayStrategy::BlockingSpin { duration: SpinDuration::Nanos(100) },
            TestNum::T9 => DelayStrategy::BlockingSpinThenYield { micros: 100 },
            TestNum::T10 => DelayStrategy::BlockingSpinThenYield { micros: 10 },
            TestNum::T11 => DelayStrategy::BlockingSpinThenYield { micros: 1 },
            TestNum::T12 => DelayStrategy::BlockingSpin { duration: SpinDuration::Cycles(2) },
            TestNum::T13 => DelayStrategy::BlockingSpin { duration: SpinDuration::Cycles(0) },
            TestNum::T14 => DelayStrategy::raw(RawLoop::Period200nsPico, platform),
            TestNum::T15 => DelayStrategy::raw(RawLoop::Period200ns, platform),
            TestNum::T16 => DelayStrategy::raw(RawLoop::Period80ns, platform),
            TestNum::T17 => DelayStrategy::raw(RawLoop::PeriodMin, platform),
            TestNum::T18 => DelayStrategy::raw(RawLoop::PeriodMin, platform),
            TestNum::T19 => DelayStrategy::DeadlineSchedule { period_micros: 10 },
            _ => {
                return Err(SelectError::NotImplemented { id: test_num.number() });
            },
        };
        let drive: Option<DriveStrength> = match test_num {
            TestNum::T16 => Some(DriveStrength::Low2mA),
            TestNum::T17 => Some(DriveStrength::Low2mA),
            TestNum::T18 => Some(DriveStrength::High12mA),
            _ => None,
        };
        Ok(TestVariant { number: test_num, platform, strategy, drive })
    }

    /// Resolves the test of type `test_type` and number `id` for
    /// `platform`.
    ///
    /// The number is looked at first: one outside 1 to 25 gives
    /// `UnknownTest`. Then the type: any but `single-gpio` gives
    /// `UnknownTestType`. Then the variant: a number above 19 gives
    /// `NotImplemented`.
    pub fn select(test_type: &str, id: u32, platform: Platform) -> (r: Result<
        TestVariant,
        SelectError,
    >)
        ensures
            r == Test::selected(test_type@, id, platform),
            r.is_ok() <==> test_type@ == single_gpio_name() && FIRST_TEST <= id
                <= LAST_IMPLEMENTED_TEST,
            r matches Ok(v) ==> v.wf() && v.number.value() == id && v.platform == platform,
            r matches Err(e) ==> (test_type@ == single_gpio_name() ==> e.named() == Some(id)),
    {
        let test_num: TestNum = match TestNum::get(id) {
            Ok(t) => t,
            Err(e) => {
                return Err(e);
            },
        };
        let kind: TestType = match TestType::get(test_type) {
            Ok(k) => k,
            Err(e) => {
                return Err(e);
            },
        };
        match kind {
            TestType::SingleGpio => Test::single_gpio(test_num, platform),
        }
    }

    /// What `select` gives.
    pub open spec fn selected(test_type: Seq<char>, id: u32, platform: Platform) -> Result<
        TestVariant,
        SelectError,
    > {
        match TestNum::of(id as nat) {
            None => Err(SelectError::UnknownTest { id }),
            Some(number) => if test_type != single_gpio_name() {
                Err(SelectError::UnknownTestType)
            } else {
                match TestVariant::of(number, platform) {
                    Some(v) => Ok(v),
                    None => Err(SelectError::NotImplemented { id }),
                }
            },
        }
    }
}

/// Every number from 1 to 19 resolves, on either board, to a variant of
/// that number whose cycle counts are those of the board. Every other
/// number from 1 to 25 fails, and the message of the failure holds the
/// numeral of that number.
pub proof fn law_selector_total(id: u32, platform: Platform)
    requires
        FIRST_TEST <= id <= LAST_TEST,
    ensures
        id <= LAST_IMPLEMENTED_TEST ==> (Test::selected(single_gpio_name(), id, platform)
            matches Ok(v) && v.number.value() == id && v.platform == platform
            && v.strategy.calibrated_for(platform)),
        id > LAST_IMPLEMENTED_TEST ==> (Test::selected(single_gpio_name(), id, platform)
            matches Err(e) && e == (SelectError::NotImplemented { id }) && occurs_in(
            decimal(id as nat),
            e.text(),
        )),
{
    law_message_names_test(SelectError::NotImplemented { id });
}

} // verus!
