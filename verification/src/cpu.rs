//! The handful of Thumb instructions that the calibrated routines are made
//! of: what each does to the registers, what it stores, and how many
//! cycles a sequence of them takes on each board.

use vstd::prelude::*;
use crate::platform::Platform;

verus! {

/// The registers that the routines use.
#[derive(Clone, Copy, Debug, PartialEq, Eq, Structural)]
pub enum Reg {
    R0,
    R1,
    R2,
}

/// One instruction.
#[derive(Clone, Copy, Debug, PartialEq, Eq, Structural)]
pub enum Instr {
    /// `movs rd, #imm`
    Movs { rd: Reg, imm: u8 },
    /// `lsls rd, rm, #shift`
    Lsls { rd: Reg, rm: Reg, shift: u8 },
    /// `adds rd, rn, rm`
    AddsReg { rd: Reg, rn: Reg, rm: Reg },
    /// `adds rd, rn, #imm`
    AddsImm { rd: Reg, rn: Reg, imm: u8 },
    /// `str rt, [rn]`
    Str { rt: Reg, rn: Reg },
    /// `nop`
    Nop,
}

/// The contents of the registers.
#[derive(Clone, Copy, Debug, PartialEq, Eq, Structural)]
pub struct Cpu {
    pub r0: u32,
    pub r1: u32,
    pub r2: u32,
}

/// One word stored to memory.
#[derive(Clone, Copy, Debug, PartialEq, Eq, Structural)]
pub struct Store {
    pub addr: u32,
    pub value: u32,
}

/// `v` reduced to 32 bits.
pub open spec fn wrap32(v: int) -> u32 {
    (v % 0x1_0000_0000) as u32
}

/// `v` shifted left by `shift` bits, in 32 bits.
pub open spec fn shl32(v: u32, shift: u8) -> u32 {
    if shift < 32 {
        v << shift
    } else {
        0
    }
}

impl Cpu {
    /// The value of register `r`.
    pub open spec fn reg(self, r: Reg) -> u32 {
        match r {
            Reg::R0 => self.r0,
            Reg::R1 => self.r1,
            Reg::R2 => self.r2,
        }
    }

    /// These registers with `r` set to `v`.
    pub open spec fn with(self, r: Reg, v: u32) -> Cpu {
        match r {
            Reg::R0 => Cpu { r0: v, ..self },
            Reg::R1 => Cpu { r1: v, ..self },
            Reg::R2 => Cpu { r2: v, ..self },
        }
    }

    /// The registers after `instr`.
    pub open spec fn step(self, instr: Instr) -> Cpu {
        match instr {
            Instr::Movs { rd, imm } => self.with(rd, imm as u32),
            Instr::Lsls { rd, rm, shift } => self.with(rd, shl32(self.reg(rm), shift)),
            Instr::AddsReg { rd, rn, rm } => self.with(rd, wrap32(self.reg(rn) + self.reg(rm))),
            Instr::AddsImm { rd, rn, imm } => self.with(rd, wrap32(self.reg(rn) + imm)),
            Instr::Str { rt, rn } => self,
            Instr::Nop => self,
        }
    }

    /// What `instr` stores, if it stores.
    pub open spec fn stored(self, instr: Instr) -> Option<Store> {
        match instr {
            Instr::Str { rt, rn } => Some(Store { addr: self.reg(rn), value: self.reg(rt) }),
            _ => None,
        }
    }

    /// The registers after the instructions of `code`, in order.
    pub open spec fn run(self, code: Seq<Instr>) -> Cpu
        decreases code.len(),
    {
        if code.len() == 0 {
            self
        } else {
            self.run(code.drop_last()).step(code.last())
        }
    }

    /// The stores that the instructions of `code` make, in order.
    pub open spec fn stores(self, code: Seq<Instr>) -> Seq<Store>
        decreases code.len(),
    {
        if code.len() == 0 {
            Seq::empty()
        } else {
            let before = self.stores(code.drop_last());
            match self.run(code.drop_last()).stored(code.last()) {
                Some(s) => before.push(s),
                None => before,
            }
        }
    }

    /// Reads register `r`.
    pub fn get(&self, r: Reg) -> (v: u32)
        ensures
            v == self.reg(r),
    {
        match r {
            Reg::R0 => self.r0,
            Reg::R1 => self.r1,
            Reg::R2 => self.r2,
        }
    }

    /// Writes `v` to register `r`.
    pub fn set(&mut self, r: Reg, v: u32)
        ensures
            *final(self) == old(self).with(r, v),
    {
        match r {
            Reg::R0 => {
                self.r0 = v;
            },
            Reg::R1 => {
                self.r1 = v;
            },
            Reg::R2 => {
                self.r2 = v;
            },
        }
    }

    /// Executes one instruction: updates the registers and returns what
    /// was stored, if anything.
    pub fn execute(&mut self, instr: Instr) -> (s: Option<Store>)
        ensures
            *final(self) == old(self).step(instr),
            s == old(self).stored(instr),
    {
        match instr {
            Instr::Movs { rd, imm } => {
                self.set(rd, imm as u32);
                None
            },
            Instr::Lsls { rd, rm, shift } => {
                let v: u32 = self.get(rm);
                let shifted: u32 = if shift < 32 {
                    v << shift
                } else {
                    0
                };
                self.set(rd, shifted);
                None
            },
            Instr::AddsReg { rd, rn, rm } => {
                let sum: u32 = self.get(rn).wrapping_add(self.get(rm));
                self.set(rd, sum);
                None
            },
            Instr::AddsImm { rd, rn, imm } => {
                let sum: u32 = self.get(rn).wrapping_add(imm as u32);
                self.set(rd, sum);
                None
            },
            Instr::Str { rt, rn } => Some(Store { addr: self.get(rn), value: self.get(rt) }),
            Instr::Nop => None,
        }
    }

    /// Executes `code` from its first instruction to its last and returns
    /// the stores it made, in order.
    pub fn execute_all(&mut self, code: &Vec<Instr>) -> (out: Vec<Store>)
        ensures
            *final(self) == old(self).run(code@),
            out@ == old(self).stores(code@),
    {
        let mut out: Vec<Store> = Vec::new();
        let mut i: usize = 0;
        while i < code.len()
            invariant
                i <= code.len(),
                *self == old(self).run(code@.take(i as int)),
                out@ == old(self).stores(code@.take(i as int)),
            decreases code.len() - i,
        {
            let ghost done = code@.take(i as int);
            let ghost next = code@.take(i + 1);
            assert(next.drop_last() =~= done);
            assert(next.last() == code@[i as int]);
            let s: Option<Store> = self.execute(code[i]);
            match s {
                Some(w) => {
                    out.push(w);
                },
                None => {},
            }
            i = i + 1;
        }
        assert(code@.take(code.len() as int) =~= code@);
        out
    }
}

/// How far the issue of a code sequence has come: the cycles spent, and
/// whether the last instruction was a `nop` that still waits for a second
/// one to share its cycle with.
pub struct Issue {
    pub cycles: nat,
    pub nop_open: bool,
}

/// The issue state after `code`, started at a cycle boundary.
///
/// Every instruction takes one cycle. On the Pico 2 the core is taken to
/// issue two adjacent `nop`s in one cycle, so that the second of each such
/// pair is free: that is how the timing table accounts for the `nop` loop
/// running in 15 cycles there where the instructions number 24.
pub open spec fn issue(platform: Platform, code: Seq<Instr>) -> Issue
    decreases code.len(),
{
    if code.len() == 0 {
        Issue { cycles: 0, nop_open: false }
    } else {
        let before = issue(platform, code.drop_last());
        if code.last() == Instr::Nop {
            if platform == Platform::Pico2 && before.nop_open {
                Issue { cycles: before.cycles, nop_open: false }
            } else {
                Issue { cycles: before.cycles + 1, nop_open: true }
            }
        } else {
            Issue { cycles: before.cycles + 1, nop_open: false }
        }
    }
}

/// The cycles that `code` takes on `platform`. It is a function of the
/// instructions alone: no register value enters it.
pub open spec fn code_cycles(platform: Platform, code: Seq<Instr>) -> nat {
    issue(platform, code).cycles
}

/// Counts the cycles that `code` takes on `platform`.
pub fn count_cycles(platform: Platform, code: &Vec<Instr>) -> (cycles: usize)
    ensures
        cycles == code_cycles(platform, code@),
        cycles <= code.len(),
{
    let mut cycles: usize = 0;
    let mut nop_open: bool = false;
    let mut i: usize = 0;
    while i < code.len()
        invariant
            i <= code.len(),
            cycles <= i,
            cycles == issue(platform, code@.take(i as int)).cycles,
            nop_open == issue(platform, code@.take(i as int)).nop_open,
        decreases code.len() - i,
    {
        let ghost done = code@.take(i as int);
        let ghost next = code@.take(i + 1);
        assert(next.drop_last() =~= done);
        assert(next.last() == code@[i as int]);
        match code[i] {
            Instr::Nop => {
                if platform.is_pico2() && nop_open {
                    nop_open = false;
                } else {
                    cycles = cycles + 1;
                    nop_open = true;
                }
            },
            _ => {
                cycles = cycles + 1;
                nop_open = false;
            },
        }
        i = i + 1;
    }
    assert(code@.take(code.len() as int) =~= code@);
    cycles
}

/// What one more instruction adds to a code sequence.
pub proof fn lemma_push(platform: Platform, cpu: Cpu, code: Seq<Instr>, instr: Instr)
    ensures
        cpu.run(code.push(instr)) == cpu.run(code).step(instr),
        cpu.stores(code.push(instr)) == match cpu.run(code).stored(instr) {
            Some(s) => cpu.stores(code).push(s),
            None => cpu.stores(code),
        },
        issue(platform, code.push(instr)) == if instr == Instr::Nop {
            if platform == Platform::Pico2 && issue(platform, code).nop_open {
                Issue { cycles: issue(platform, code).cycles, nop_open: false }
            } else {
                Issue { cycles: issue(platform, code).cycles + 1, nop_open: true }
            }
        } else {
            Issue { cycles: issue(platform, code).cycles + 1, nop_open: false }
        },
{
    let longer = code.push(instr);
    assert(longer.drop_last() =~= code);
    assert(longer.last() == instr);
}

/// Timing is settled before the code runs. On the Pico a code sequence
/// takes as many cycles as it has instructions, on the Pico 2 at most as
/// many; and from whatever register values it starts, it makes the same
/// number of stores.
pub proof fn law_timing_is_static(platform: Platform, a: Cpu, b: Cpu, code: Seq<Instr>)
    ensures
        code_cycles(platform, code) <= code.len(),
        platform == Platform::Pico ==> code_cycles(platform, code) == code.len(),
        a.stores(code).len() == b.stores(code).len(),
    decreases code.len(),
{
    if code.len() > 0 {
        law_timing_is_static(platform, a, b, code.drop_last());
    }
}

} // verus!
