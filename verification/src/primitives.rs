//! The calibrated primitives: short fixed instruction sequences that
//! write the pin or burn a known number of cycles.

use vstd::prelude::*;
use crate::cpu::{code_cycles, issue, lemma_push, Cpu, Instr, Reg, Store};
use crate::platform::Platform;

verus! {

/// Base address of the single-cycle I/O block.
pub const SIO_BASE: u32 = 0xd000_0000;

/// Offset of the GPIO output register in the single-cycle I/O block.
pub const GPIO_OUT_OFFSET: u32 = 0x010;

/// Address of the GPIO output register: the one word the toggle loop
/// writes to.
pub const GPIO_OUT: u32 = 0xd000_0010;

/// The value that drives GPIO 2 high: bit 2 set, every other pin low.
pub const GPIO2_HIGH: u32 = 4;

/// The value that drives GPIO 2 low, and every other pin with it.
pub const GPIO2_LOW: u32 = 0;

/// The routines of the benchmark.
pub struct Test {}

/// A chain of `n` one-cycle instructions on `r2`: `movs r2, #1`, then
/// `adds r2, r2, #1` until there are `n`. Each reads what the one before
/// wrote, so no core can run two of them at once.
pub open spec fn add_chain(n: nat) -> Seq<Instr>
    decreases n,
{
    if n == 0 {
        Seq::empty()
    } else if n == 1 {
        Seq::empty().push(Instr::Movs { rd: Reg::R2, imm: 1 })
    } else {
        add_chain((n - 1) as nat).push(Instr::AddsImm { rd: Reg::R2, rn: Reg::R2, imm: 1 })
    }
}

/// `n` times `nop`.
pub open spec fn nop_run(n: nat) -> Seq<Instr>
    decreases n,
{
    if n == 0 {
        Seq::empty()
    } else {
        nop_run((n - 1) as nat).push(Instr::Nop)
    }
}

/// The code that leaves the address of the GPIO output register in `r0`.
pub open spec fn load_addr_code() -> Seq<Instr> {
    Seq::empty().push(Instr::Movs { rd: Reg::R1, imm: 0xd0 }).push(
        Instr::Lsls { rd: Reg::R1, rm: Reg::R1, shift: 24 },
    ).push(Instr::Movs { rd: Reg::R2, imm: 0x10 }).push(
        Instr::AddsReg { rd: Reg::R0, rn: Reg::R1, rm: Reg::R2 },
    )
}

/// The code that stores `value` to the address in `r0`.
pub open spec fn write_code(value: u8) -> Seq<Instr> {
    Seq::empty().push(Instr::Movs { rd: Reg::R1, imm: value }).push(
        Instr::Str { rt: Reg::R1, rn: Reg::R0 },
    )
}

/// The cycles that `n` adjacent `nop`s take: one each on the Pico, one
/// for every two on the Pico 2.
pub open spec fn nop_cost(platform: Platform, n: nat) -> nat {
    match platform {
        Platform::Pico => n,
        Platform::Pico2 => (n + 1) / 2,
    }
}

/// One of the calibrated primitives.
#[derive(Clone, Copy, Debug, PartialEq, Eq, Structural)]
pub enum Primitive {
    /// Loads the address of the GPIO output register into `r0`.
    LoadGpioOutAddr,
    /// Drives GPIO 2 high through the address in `r0`.
    SetGpio2High,
    /// Drives GPIO 2 low through the address in `r0`.
    SetGpio2Low,
    /// One cycle on `r2`.
    Cycle1R2,
    /// Two dependent cycles on `r2`.
    Cycles2AddR2,
    /// Three dependent cycles on `r2`.
    Cycles3AddR2,
    /// Five dependent cycles on `r2`.
    Cycles5R2,
    /// Nine dependent cycles on `r2`.
    Cycles9AddR2,
    /// Ten dependent cycles on `r2`.
    Cycles10AddR2,
    /// Nine `nop`s.
    Cycles9Nop,
    /// Ten `nop`s.
    Cycles10Nop,
}

impl Primitive {
    /// The instructions of this primitive.
    pub open spec fn code(self) -> Seq<Instr> {
        match self {
            Primitive::LoadGpioOutAddr => load_addr_code(),
            Primitive::SetGpio2High => write_code(4),
            Primitive::SetGpio2Low => write_code(0),
            Primitive::Cycle1R2 => add_chain(1),
            Primitive::Cycles2AddR2 => add_chain(2),
            Primitive::Cycles3AddR2 => add_chain(3),
            Primitive::Cycles5R2 => add_chain(5),
            Primitive::Cycles9AddR2 => add_chain(9),
            Primitive::Cycles10AddR2 => add_chain(10),
            Primitive::Cycles9Nop => nop_run(9),
            Primitive::Cycles10Nop => nop_run(10),
        }
    }

    /// The cycles this primitive is written for: its instruction count.
    pub open spec fn nominal(self) -> nat {
        match self {
            Primitive::LoadGpioOutAddr => 4,
            Primitive::SetGpio2High => 2,
            Primitive::SetGpio2Low => 2,
            Primitive::Cycle1R2 => 1,
            Primitive::Cycles2AddR2 => 2,
            Primitive::Cycles3AddR2 => 3,
            Primitive::Cycles5R2 => 5,
            Primitive::Cycles9AddR2 => 9,
            Primitive::Cycles10AddR2 => 10,
            Primitive::Cycles9Nop => 9,
            Primitive::Cycles10Nop => 10,
        }
    }

    /// The cycles this primitive takes on `platform`, whatever code stands
    /// round it.
    pub open spec fn cost(self, platform: Platform) -> nat {
        match self {
            Primitive::Cycles9Nop => nop_cost(platform, 9),
            Primitive::Cycles10Nop => nop_cost(platform, 10),
            _ => self.nominal(),
        }
    }

    /// Whether this primitive only burns cycles: it stores nothing and
    /// leaves `r0` alone.
    pub open spec fn is_delay(self) -> bool {
        match self {
            Primitive::LoadGpioOutAddr => false,
            Primitive::SetGpio2High => false,
            Primitive::SetGpio2Low => false,
            _ => true,
        }
    }

    /// The instructions of this primitive.
    pub fn instructions(self) -> (code: Vec<Instr>)
        ensures
            code@ == self.code(),
    {
        match self {
            Primitive::LoadGpioOutAddr => Test::asm_load_gpio_out_addr(),
            Primitive::SetGpio2High => Test::set_gpio2_high(),
            Primitive::SetGpio2Low => Test::set_gpio2_low(),
            Primitive::Cycle1R2 => Test::asm_1_cycle_r2(),
            Primitive::Cycles2AddR2 => Test::asm_2_cycles_add_r2(),
            Primitive::Cycles3AddR2 => Test::asm_3_cycles_add_r2(),
            Primitive::Cycles5R2 => Test::asm_5_cycles_r2(),
            Primitive::Cycles9AddR2 => Test::asm_9_cycles_add_r2(),
            Primitive::Cycles10AddR2 => Test::asm_10_cycles_add_r2(),
            Primitive::Cycles9Nop => Test::asm_9_cycles_nop(),
            Primitive::Cycles10Nop => Test::asm_10_cycles_nop(),
        }
    }

    /// The cycles this primitive takes on `platform`: what counting the
    /// cycles of its instructions gives.
    pub fn cycles(self, platform: Platform) -> (cycles: u32)
        ensures
            cycles == self.cost(platform),
            cycles == code_cycles(platform, self.code()),
            1 <= cycles <= 10,
    {
        proof {
            law_primitive_cycles(platform, self);
        }
        match self {
            Primitive::LoadGpioOutAddr => 4,
            Primitive::SetGpio2High => 2,
            Primitive::SetGpio2Low => 2,
            Primitive::Cycle1R2 => 1,
            Primitive::Cycles2AddR2 => 2,
            Primitive::Cycles3AddR2 => 3,
            Primitive::Cycles5R2 => 5,
            Primitive::Cycles9AddR2 => 9,
            Primitive::Cycles10AddR2 => 10,
            Primitive::Cycles9Nop => match platform {
                Platform::Pico => 9,
                Platform::Pico2 => 5,
            },
            Primitive::Cycles10Nop => match platform {
                Platform::Pico => 10,
                Platform::Pico2 => 5,
            },
        }
    }

    /// Whether this primitive only burns cycles.
    pub fn burns_only(self) -> (b: bool)
        ensures
            b == self.is_delay(),
    {
        match self {
            Primitive::LoadGpioOutAddr => false,
            Primitive::SetGpio2High => false,
            Primitive::SetGpio2Low => false,
            _ => true,
        }
    }
}

/// Builds `add_chain(n)`.
fn add_chain_code(n: u8) -> (code: Vec<Instr>)
    ensures
        code@ == add_chain(n as nat),
{
    let mut code: Vec<Instr> = Vec::new();
    if n == 0 {
        return code;
    }
    code.push(Instr::Movs { rd: Reg::R2, imm: 1 });
    let mut i: u8 = 1;
    while i < n
        invariant
            1 <= i <= n,
            code@ == add_chain(i as nat),
        decreases n - i,
    {
        code.push(Instr::AddsImm { rd: Reg::R2, rn: Reg::R2, imm: 1 });
        i = i + 1;
    }
    code
}

/// Builds `nop_run(n)`.
fn nop_run_code(n: u8) -> (code: Vec<Instr>)
    ensures
        code@ == nop_run(n as nat),
{
    let mut code: Vec<Instr> = Vec::new();
    let mut i: u8 = 0;
    while i < n
        invariant
            i <= n,
            code@ == nop_run(i as nat),
        decreases n - i,
    {
        code.push(Instr::Nop);
        i = i + 1;
    }
    code
}

/// Builds `write_code(value)`.
fn write_pin_code(value: u8) -> (code: Vec<Instr>)
    ensures
        code@ == write_code(value),
{
    let mut code: Vec<Instr> = Vec::new();
    code.push(Instr::Movs { rd: Reg::R1, imm: value });
    code.push(Instr::Str { rt: Reg::R1, rn: Reg::R0 });
    code
}

impl Test {
    /// Loads the address of the GPIO output register into `r0`: `0xd0`
    /// shifted up three bytes is the base of the I/O block, and the
    /// register lies `0x10` above it. Uses `r1` and `r2`.
    pub fn asm_load_gpio_out_addr() -> (code: Vec<Instr>)
        ensures
            code@ == Primitive::LoadGpioOutAddr.code(),
    {
        let mut code: Vec<Instr> = Vec::new();
        code.push(Instr::Movs { rd: Reg::R1, imm: 0xd0 });
        code.push(Instr::Lsls { rd: Reg::R1, rm: Reg::R1, shift: 24 });
        code.push(Instr::Movs { rd: Reg::R2, imm: 0x10 });
        code.push(Instr::AddsReg { rd: Reg::R0, rn: Reg::R1, rm: Reg::R2 });
        code
    }

    /// Drives GPIO 2 high, and no other pin, through the address in `r0`.
    /// Uses `r1`.
    pub fn set_gpio2_high() -> (code: Vec<Instr>)
        ensures
            code@ == Primitive::SetGpio2High.code(),
    {
        write_pin_code(4)
    }

    /// Drives GPIO 2 low, and every other pin with it, through the address
    /// in `r0`. Uses `r1`.
    pub fn set_gpio2_low() -> (code: Vec<Instr>)
        ensures
            code@ == Primitive::SetGpio2Low.code(),
    {
        write_pin_code(0)
    }

    /// One cycle.
    pub fn asm_1_cycle_r2() -> (code: Vec<Instr>)
        ensures
            code@ == Primitive::Cycle1R2.code(),
    {
        add_chain_code(1)
    }

    /// Two cycles.
    pub fn asm_2_cycles_add_r2() -> (code: Vec<Instr>)
        ensures
            code@ == Primitive::Cycles2AddR2.code(),
    {
        add_chain_code(2)
    }

    /// Three cycles.
    pub fn asm_3_cycles_add_r2() -> (code: Vec<Instr>)
        ensures
            code@ == Primitive::Cycles3AddR2.code(),
    {
        add_chain_code(3)
    }

    /// Five cycles.
    pub fn asm_5_cycles_r2() -> (code: Vec<Instr>)
        ensures
            code@ == Primitive::Cycles5R2.code(),
    {
        add_chain_code(5)
    }

    /// Nine cycles: 72 ns on the Pico.
    pub fn asm_9_cycles_add_r2() -> (code: Vec<Instr>)
        ensures
            code@ == Primitive::Cycles9AddR2.code(),
    {
        add_chain_code(9)
    }

    /// Ten cycles: 80 ns on the Pico.
    pub fn asm_10_cycles_add_r2() -> (code: Vec<Instr>)
        ensures
            code@ == Primitive::Cycles10AddR2.code(),
    {
        add_chain_code(10)
    }

    /// Nine `nop`s: 72 ns on the Pico.
    pub fn asm_9_cycles_nop() -> (code: Vec<Instr>)
        ensures
            code@ == Primitive::Cycles9Nop.code(),
    {
        nop_run_code(9)
    }

    /// Ten `nop`s: 80 ns on the Pico.
    pub fn asm_10_cycles_nop() -> (code: Vec<Instr>)
        ensures
            code@ == Primitive::Cycles10Nop.code(),
    {
        nop_run_code(10)
    }
}

/// A chain of `n` additions takes `n` cycles on either board, ends at a
/// cycle boundary, stores nothing, and touches no register but `r2`, which
/// it leaves at `n`.
pub proof fn lemma_add_chain(platform: Platform, cpu: Cpu, n: nat)
    requires
        1 <= n <= u32::MAX,
    ensures
        add_chain(n).len() == n,
        issue(platform, add_chain(n)).cycles == n,
        !issue(platform, add_chain(n)).nop_open,
        cpu.run(add_chain(n)) == (Cpu { r2: n as u32, ..cpu }),
        cpu.stores(add_chain(n)) == Seq::<Store>::empty(),
    decreases n,
{
    if n == 1 {
        lemma_push(platform, cpu, Seq::empty(), Instr::Movs { rd: Reg::R2, imm: 1 });
    } else {
        lemma_add_chain(platform, cpu, (n - 1) as nat);
        lemma_push(
            platform,
            cpu,
            add_chain((n - 1) as nat),
            Instr::AddsImm { rd: Reg::R2, rn: Reg::R2, imm: 1 },
        );
    }
}

/// A run of `n` `nop`s takes `n` cycles on the Pico and half as many,
/// rounded up, on the Pico 2; it stores nothing and changes no register.
pub proof fn lemma_nop_run(platform: Platform, cpu: Cpu, n: nat)
    ensures
        nop_run(n).len() == n,
        issue(platform, nop_run(n)).cycles == nop_cost(platform, n),
        platform == Platform::Pico2 ==> issue(platform, nop_run(n)).nop_open == (n % 2 == 1),
        platform == Platform::Pico ==> issue(platform, nop_run(n)).nop_open == (n > 0),
        cpu.run(nop_run(n)) == cpu,
        cpu.stores(nop_run(n)) == Seq::<Store>::empty(),
    decreases n,
{
    if n > 0 {
        lemma_nop_run(platform, cpu, (n - 1) as nat);
        lemma_push(platform, cpu, nop_run((n - 1) as nat), Instr::Nop);
    }
}

/// Loading the address takes four cycles and leaves the address of the
/// GPIO output register in `r0`, whatever the registers held, without
/// storing anything.
pub proof fn lemma_load_addr(platform: Platform, cpu: Cpu)
    ensures
        code_cycles(platform, load_addr_code()) == 4,
        cpu.run(load_addr_code()).r0 == GPIO_OUT,
        GPIO_OUT == SIO_BASE + GPIO_OUT_OFFSET,
        cpu.stores(load_addr_code()) == Seq::<Store>::empty(),
{
    let i0 = Instr::Movs { rd: Reg::R1, imm: 0xd0 };
    let i1 = Instr::Lsls { rd: Reg::R1, rm: Reg::R1, shift: 24 };
    let i2 = Instr::Movs { rd: Reg::R2, imm: 0x10 };
    let i3 = Instr::AddsReg { rd: Reg::R0, rn: Reg::R1, rm: Reg::R2 };
    let c0 = Seq::<Instr>::empty();
    let c1 = c0.push(i0);
    let c2 = c1.push(i1);
    let c3 = c2.push(i2);
    lemma_push(platform, cpu, c0, i0);
    lemma_push(platform, cpu, c1, i1);
    lemma_push(platform, cpu, c2, i2);
    lemma_push(platform, cpu, c3, i3);
    assert(0xd0u32 << 24u8 == 0xd000_0000u32) by (bit_vector);
}

/// A pin write takes two cycles and makes one store: `value`, to the
/// address in `r0`. It leaves `r0` and `r2` alone.
pub proof fn lemma_write(platform: Platform, cpu: Cpu, value: u8)
    ensures
        code_cycles(platform, write_code(value)) == 2,
        cpu.run(write_code(value)) == (Cpu { r1: value as u32, ..cpu }),
        cpu.stores(write_code(value)) == seq![Store { addr: cpu.r0, value: value as u32 }],
{
    let i0 = Instr::Movs { rd: Reg::R1, imm: value };
    let i1 = Instr::Str { rt: Reg::R1, rn: Reg::R0 };
    let c0 = Seq::<Instr>::empty();
    let c1 = c0.push(i0);
    lemma_push(platform, cpu, c0, i0);
    lemma_push(platform, cpu, c1, i1);
    assert(cpu.stores(write_code(value)) =~= seq![Store { addr: cpu.r0, value: value as u32 }]);
}

/// Counting the cycles of a primitive's instructions gives the cost that
/// the timing table lists for it, on either board.
pub proof fn law_primitive_cycles(platform: Platform, p: Primitive)
    ensures
        code_cycles(platform, p.code()) == p.cost(platform),
        1 <= p.cost(platform) <= p.nominal() <= 10,
        platform == Platform::Pico ==> p.cost(platform) == p.nominal(),
        p.code().len() == p.nominal(),
{
    let cpu = Cpu { r0: 0, r1: 0, r2: 0 };
    match p {
        Primitive::LoadGpioOutAddr => {
            lemma_load_addr(platform, cpu);
        },
        Primitive::SetGpio2High => {
            lemma_write(platform, cpu, 4);
        },
        Primitive::SetGpio2Low => {
            lemma_write(platform, cpu, 0);
        },
        Primitive::Cycle1R2 => {
            lemma_add_chain(platform, cpu, 1);
        },
        Primitive::Cycles2AddR2 => {
            lemma_add_chain(platform, cpu, 2);
        },
        Primitive::Cycles3AddR2 => {
            lemma_add_chain(platform, cpu, 3);
        },
        Primitive::Cycles5R2 => {
            lemma_add_chain(platform, cpu, 5);
        },
        Primitive::Cycles9AddR2 => {
            lemma_add_chain(platform, cpu, 9);
        },
        Primitive::Cycles10AddR2 => {
            lemma_add_chain(platform, cpu, 10);
        },
        Primitive::Cycles9Nop => {
            lemma_nop_run(platform, cpu, 9);
        },
        Primitive::Cycles10Nop => {
            lemma_nop_run(platform, cpu, 10);
        },
    }
}

/// What a primitive does, from any register state: a delay stores nothing
/// and leaves `r0` as it was; a pin write makes one store through `r0` and
/// leaves `r0` as it was; loading the address stores nothing and leaves
/// the address of the GPIO output register in `r0`.
pub proof fn law_primitive_effect(cpu: Cpu, p: Primitive)
    ensures
        p.is_delay() ==> cpu.run(p.code()).r0 == cpu.r0 && cpu.stores(p.code()).len() == 0,
        p == Primitive::SetGpio2High ==> cpu.run(p.code()).r0 == cpu.r0 && cpu.stores(p.code())
            == seq![Store { addr: cpu.r0, value: GPIO2_HIGH }],
        p == Primitive::SetGpio2Low ==> cpu.run(p.code()).r0 == cpu.r0 && cpu.stores(p.code())
            == seq![Store { addr: cpu.r0, value: GPIO2_LOW }],
        p == Primitive::LoadGpioOutAddr ==> cpu.run(p.code()).r0 == GPIO_OUT && cpu.stores(
            p.code(),
        ).len() == 0,
{
    let platform = Platform::Pico;
    match p {
        Primitive::LoadGpioOutAddr => {
            lemma_load_addr(platform, cpu);
        },
        Primitive::SetGpio2High => {
            lemma_write(platform, cpu, 4);
        },
        Primitive::SetGpio2Low => {
            lemma_write(platform, cpu, 0);
        },
        Primitive::Cycle1R2 => {
            lemma_add_chain(platform, cpu, 1);
        },
        Primitive::Cycles2AddR2 => {
            lemma_add_chain(platform, cpu, 2);
        },
        Primitive::Cycles3AddR2 => {
            lemma_add_chain(platform, cpu, 3);
        },
        Primitive::Cycles5R2 => {
            lemma_add_chain(platform, cpu, 5);
        },
        Primitive::Cycles9AddR2 => {
            lemma_add_chain(platform, cpu, 9);
        },
        Primitive::Cycles10AddR2 => {
            lemma_add_chain(platform, cpu, 10);
        },
        Primitive::Cycles9Nop => {
            lemma_nop_run(platform, cpu, 9);
        },
        Primitive::Cycles10Nop => {
            lemma_nop_run(platform, cpu, 10);
        },
    }
}

} // verus!
