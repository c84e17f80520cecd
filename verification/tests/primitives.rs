use pico_timing::cpu::{count_cycles, Cpu, Instr, Reg, Store};
use pico_timing::platform::Platform;
use pico_timing::primitives::{
    Primitive, Test, GPIO2_HIGH, GPIO2_LOW, GPIO_OUT, GPIO_OUT_OFFSET, SIO_BASE,
};

const ALL: [Primitive; 11] = [
    Primitive::LoadGpioOutAddr,
    Primitive::SetGpio2High,
    Primitive::SetGpio2Low,
    Primitive::Cycle1R2,
    Primitive::Cycles2AddR2,
    Primitive::Cycles3AddR2,
    Primitive::Cycles5R2,
    Primitive::Cycles9AddR2,
    Primitive::Cycles10AddR2,
    Primitive::Cycles9Nop,
    Primitive::Cycles10Nop,
];

#[test]
fn register_addresses() {
    assert_eq!(SIO_BASE, 0xd000_0000);
    assert_eq!(GPIO_OUT, SIO_BASE + GPIO_OUT_OFFSET);
    assert_eq!(GPIO_OUT, 0xd000_0010);
    assert_eq!(GPIO2_HIGH, 1 << 2);
    assert_eq!(GPIO2_LOW, 0);
}

#[test]
fn load_address_code() {
    assert_eq!(
        Test::asm_load_gpio_out_addr(),
        vec![
            Instr::Movs { rd: Reg::R1, imm: 0xd0 },
            Instr::Lsls { rd: Reg::R1, rm: Reg::R1, shift: 24 },
            Instr::Movs { rd: Reg::R2, imm: 0x10 },
            Instr::AddsReg { rd: Reg::R0, rn: Reg::R1, rm: Reg::R2 },
        ]
    );
}

#[test]
fn load_address_leaves_gpio_out_in_r0() {
    for start in [Cpu { r0: 0, r1: 0, r2: 0 }, Cpu { r0: 0xdead_beef, r1: 0xffff_ffff, r2: 12345 }] {
        let mut cpu = start;
        let stores = cpu.execute_all(&Test::asm_load_gpio_out_addr());
        assert_eq!(cpu.r0, GPIO_OUT);
        assert!(stores.is_empty());
    }
}

#[test]
fn pin_write_code() {
    assert_eq!(
        Test::set_gpio2_high(),
        vec![Instr::Movs { rd: Reg::R1, imm: 4 }, Instr::Str { rt: Reg::R1, rn: Reg::R0 }]
    );
    assert_eq!(
        Test::set_gpio2_low(),
        vec![Instr::Movs { rd: Reg::R1, imm: 0 }, Instr::Str { rt: Reg::R1, rn: Reg::R0 }]
    );
}

#[test]
fn pin_writes_store_through_r0() {
    let mut cpu = Cpu { r0: GPIO_OUT, r1: 99, r2: 7 };
    let stores = cpu.execute_all(&Test::set_gpio2_high());
    assert_eq!(stores, vec![Store { addr: GPIO_OUT, value: GPIO2_HIGH }]);
    assert_eq!(cpu, Cpu { r0: GPIO_OUT, r1: 4, r2: 7 });
    let stores = cpu.execute_all(&Test::set_gpio2_low());
    assert_eq!(stores, vec![Store { addr: GPIO_OUT, value: GPIO2_LOW }]);
    assert_eq!(cpu, Cpu { r0: GPIO_OUT, r1: 0, r2: 7 });
}

#[test]
fn addition_chains() {
    let mov = Instr::Movs { rd: Reg::R2, imm: 1 };
    let add = Instr::AddsImm { rd: Reg::R2, rn: Reg::R2, imm: 1 };
    assert_eq!(Test::asm_1_cycle_r2(), vec![mov]);
    assert_eq!(Test::asm_2_cycles_add_r2(), vec![mov, add]);
    assert_eq!(Test::asm_3_cycles_add_r2(), vec![mov, add, add]);
    assert_eq!(Test::asm_5_cycles_r2(), vec![mov, add, add, add, add]);
    assert_eq!(Test::asm_9_cycles_add_r2(), vec![mov, add, add, add, add, add, add, add, add]);
    assert_eq!(
        Test::asm_10_cycles_add_r2(),
        vec![mov, add, add, add, add, add, add, add, add, add]
    );
}

#[test]
fn nop_runs() {
    assert_eq!(Test::asm_9_cycles_nop(), vec![Instr::Nop; 9]);
    assert_eq!(Test::asm_10_cycles_nop(), vec![Instr::Nop; 10]);
}

#[test]
fn primitive_instructions_are_those_of_the_routines() {
    assert_eq!(Primitive::LoadGpioOutAddr.instructions(), Test::asm_load_gpio_out_addr());
    assert_eq!(Primitive::SetGpio2High.instructions(), Test::set_gpio2_high());
    assert_eq!(Primitive::SetGpio2Low.instructions(), Test::set_gpio2_low());
    assert_eq!(Primitive::Cycle1R2.instructions(), Test::asm_1_cycle_r2());
    assert_eq!(Primitive::Cycles2AddR2.instructions(), Test::asm_2_cycles_add_r2());
    assert_eq!(Primitive::Cycles3AddR2.instructions(), Test::asm_3_cycles_add_r2());
    assert_eq!(Primitive::Cycles5R2.instructions(), Test::asm_5_cycles_r2());
    assert_eq!(Primitive::Cycles9AddR2.instructions(), Test::asm_9_cycles_add_r2());
    assert_eq!(Primitive::Cycles10AddR2.instructions(), Test::asm_10_cycles_add_r2());
    assert_eq!(Primitive::Cycles9Nop.instructions(), Test::asm_9_cycles_nop());
    assert_eq!(Primitive::Cycles10Nop.instructions(), Test::asm_10_cycles_nop());
}

#[test]
fn primitive_cycles_on_the_pico() {
    let expected = [4u32, 2, 2, 1, 2, 3, 5, 9, 10, 9, 10];
    for (p, want) in ALL.iter().zip(expected) {
        assert_eq!(p.cycles(Platform::Pico), want);
    }
}

#[test]
fn primitive_cycles_on_the_pico_2() {
    let expected = [4u32, 2, 2, 1, 2, 3, 5, 9, 10, 5, 5];
    for (p, want) in ALL.iter().zip(expected) {
        assert_eq!(p.cycles(Platform::Pico2), want);
    }
}

#[test]
fn table_cost_is_the_count_over_the_instructions() {
    for platform in [Platform::Pico, Platform::Pico2] {
        for p in ALL {
            assert_eq!(p.cycles(platform) as usize, count_cycles(platform, &p.instructions()));
        }
    }
}

#[test]
fn delays_store_nothing_and_keep_r0() {
    for p in ALL {
        let mut cpu = Cpu { r0: GPIO_OUT, r1: 4, r2: 200 };
        let stores = cpu.execute_all(&p.instructions());
        if p.burns_only() {
            assert!(stores.is_empty());
            assert_eq!(cpu.r0, GPIO_OUT);
            assert_eq!(cpu.r1, 4);
        } else {
            assert!(matches!(
                p,
                Primitive::LoadGpioOutAddr | Primitive::SetGpio2High | Primitive::SetGpio2Low
            ));
        }
    }
}

#[test]
fn an_addition_chain_counts_in_r2() {
    let mut cpu = Cpu { r0: 1, r1: 2, r2: 3 };
    cpu.execute_all(&Test::asm_10_cycles_add_r2());
    assert_eq!(cpu, Cpu { r0: 1, r1: 2, r2: 10 });
    cpu.execute_all(&Test::asm_3_cycles_add_r2());
    assert_eq!(cpu, Cpu { r0: 1, r1: 2, r2: 3 });
}
