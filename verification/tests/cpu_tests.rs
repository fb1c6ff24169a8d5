use nes_core::bus::Bus;
use nes_core::cpu::{StepEvent, CPU};
use nes_core::opcodes::AddressingMode;
use nes_core::rom::{test_rom_containing, Rom};

/// A two-bank cartridge whose program sits at 0x8000 and whose reset vector
/// points there.
fn rom_with_program(program: &[u8]) -> Rom {
    let mut prg = vec![0u8; 0x8000];
    prg[..program.len()].copy_from_slice(program);
    prg[0x7FFC] = 0x00;
    prg[0x7FFD] = 0x80;
    test_rom_containing(prg)
}

fn cpu_with_program(program: &[u8]) -> CPU {
    let mut cpu = CPU::new(Bus::new(rom_with_program(program)));
    cpu.reset().unwrap();
    assert_eq!(cpu.pc, 0x8000);
    cpu
}

#[test]
fn test_lda_from_zero_page() {
    let mut cpu = cpu_with_program(&[0xA5, 0x10, 0x00]);
    cpu.mem_write(0x10, 0x55).unwrap();
    cpu.run().unwrap();
    assert_eq!(cpu.reg_a, 0x55);
    assert_eq!(cpu.status & 0x02, 0); // zero clear
    assert_eq!(cpu.status & 0x80, 0); // negative clear
}

#[test]
fn test_adc_overflow_sets_flags() {
    let mut cpu = cpu_with_program(&[0xA9, 0x7F, 0x18, 0x69, 0x01, 0x00]);
    cpu.run().unwrap();
    assert_eq!(cpu.reg_a, 0x80);
    assert_eq!(cpu.status & 0x40, 0x40); // overflow set
    assert_eq!(cpu.status & 0x80, 0x80); // negative set
    assert_eq!(cpu.status & 0x01, 0); // carry clear
    assert_eq!(cpu.status & 0x02, 0); // zero clear
}

#[test]
fn test_bcc_taken_branch_cost() {
    let mut cpu = cpu_with_program(&[0x18, 0x90, 0x01, 0xEA, 0x00]);
    cpu.run().unwrap();
    assert_eq!(cpu.pc, 0x8005);
    // CLC costs 2 and the taken branch its base 2 plus the taken-penalty 1;
    // the target stays on the page, so no crossing penalty is due, and the
    // break instruction stops the loop before its own cycles land.
    assert_eq!(cpu.bus.cycles, 5);
}

#[test]
fn test_indirect_jmp_page_bug() {
    let mut cpu = cpu_with_program(&[0x6C, 0xFF, 0x10]);
    cpu.mem_write(0x10FF, 0x80).unwrap();
    cpu.mem_write(0x1000, 0x10).unwrap();
    cpu.mem_write(0x1100, 0x01).unwrap();
    assert_eq!(cpu.step().unwrap(), StepEvent::Ran);
    // The high byte comes from 0x1000, not 0x1100: the pointer never
    // crosses its page.
    assert_eq!(cpu.pc, 0x1080);
}

#[test]
fn test_cycle_counts_follow_the_table() {
    // LDX immediate costs 2 cycles, TAX 2, LDA zero-page 3.
    let mut cpu = cpu_with_program(&[0xA2, 0x02, 0xAA, 0xA5, 0x10, 0x00]);
    let c0 = cpu.bus.cycles;
    cpu.step().unwrap();
    assert_eq!(cpu.bus.cycles - c0, 2);
    let c1 = cpu.bus.cycles;
    cpu.step().unwrap();
    assert_eq!(cpu.bus.cycles - c1, 2);
    let c2 = cpu.bus.cycles;
    cpu.step().unwrap();
    assert_eq!(cpu.bus.cycles - c2, 3);
}

#[test]
fn test_page_cross_penalty_on_absolute_x() {
    // LDX #2, then LDA 0x00FF,X: the operand crosses into page one, so the
    // load costs its base 4 cycles plus 1.
    let mut cpu = cpu_with_program(&[0xA2, 0x02, 0xBD, 0xFF, 0x00, 0x00]);
    cpu.step().unwrap();
    let c = cpu.bus.cycles;
    cpu.step().unwrap();
    assert_eq!(cpu.bus.cycles - c, 5);

    // With X = 0 the same load stays in the page and costs 4.
    let mut cpu2 = cpu_with_program(&[0xA2, 0x00, 0xBD, 0xFF, 0x00, 0x00]);
    cpu2.step().unwrap();
    let c2 = cpu2.bus.cycles;
    cpu2.step().unwrap();
    assert_eq!(cpu2.bus.cycles - c2, 4);
}

#[test]
fn test_unknown_opcode_is_reported() {
    // 0x02 is outside the official set.
    let mut cpu = cpu_with_program(&[0x02, 0x00]);
    match cpu.step() {
        Err(nes_core::errors::EmuError::UnknownOpcode { opcode, pc }) => {
            assert_eq!(opcode, 0x02);
            assert_eq!(pc, 0x8000);
        },
        _ => assert!(false, "expected an unknown-opcode report"),
    }
}

#[test]
fn test_stack_round_trip() {
    // JSR to a subroutine that loads A and returns; afterwards X is loaded.
    // 0x8000: JSR 0x8006; 0x8003: LDX #1; 0x8005: BRK
    // 0x8006: LDA #7; RTS
    let mut cpu = cpu_with_program(&[
        0x20, 0x06, 0x80, 0xA2, 0x01, 0x00, 0xA9, 0x07, 0x60,
    ]);
    cpu.run().unwrap();
    assert_eq!(cpu.reg_a, 0x07);
    assert_eq!(cpu.reg_x, 0x01);
    assert_eq!(cpu.pc, 0x8006);
    assert_eq!(cpu.sp, 0xFF);
}

#[test]
fn test_reset_state() {
    let mut cpu = CPU::new(Bus::new(rom_with_program(&[0x00])));
    cpu.reg_a = 3;
    cpu.reg_x = 4;
    cpu.reg_y = 5;
    cpu.status = 0xFF;
    cpu.reset().unwrap();
    assert_eq!(cpu.reg_a, 0);
    assert_eq!(cpu.reg_x, 0);
    assert_eq!(cpu.reg_y, 0);
    assert_eq!(cpu.status, 0b0010_0000);
    assert_eq!(cpu.sp, 0xFF);
    assert_eq!(cpu.pc, 0x8000);
}

#[test]
fn test_sta_writes_through_the_bus() {
    let mut cpu = cpu_with_program(&[0xA9, 0x42, 0x85, 0x21, 0x00]);
    cpu.run().unwrap();
    assert_eq!(cpu.mem_peek(0x21), 0x42);
}

#[test]
fn test_strict_mode_rejects_write_only_read() {
    // LDA 0x2000 reads a write-only picture register: strict mode stops.
    let mut cpu = cpu_with_program(&[0xAD, 0x00, 0x20, 0x00]);
    assert!(cpu.bus.strict);
    assert!(cpu.run().is_err());

    // In lenient mode the same program runs to its break instruction and
    // the read coerces to zero.
    let mut cpu2 = cpu_with_program(&[0xAD, 0x00, 0x20, 0x00]);
    cpu2.bus.strict = false;
    cpu2.run().unwrap();
    assert_eq!(cpu2.reg_a, 0);
}

#[test]
fn test_compare_and_branch_loop() {
    // Count X down from 3 to 0: LDX #3; DEX; BNE back to DEX; BRK.
    let mut cpu = cpu_with_program(&[0xA2, 0x03, 0xCA, 0xD0, 0xFD, 0x00]);
    cpu.run().unwrap();
    assert_eq!(cpu.reg_x, 0);
    assert_eq!(cpu.status & 0x02, 0x02); // zero set by the last decrement
}

#[test]
fn test_shifts_and_rotates() {
    // LDA #0b1000_0001; LSR A -> 0b0100_0000 with carry set;
    // ROL A feeds the carry back in -> 0b1000_0001.
    let mut cpu = cpu_with_program(&[0xA9, 0x81, 0x4A, 0x2A, 0x00]);
    cpu.run().unwrap();
    assert_eq!(cpu.reg_a, 0x81);
}

#[test]
fn test_debug_operand_resolves_like_the_instruction() {
    let mut cpu = cpu_with_program(&[0xA5, 0x10, 0x00]);
    cpu.mem_write(0x10, 0x55).unwrap();
    // The trace surface names the same effective address the instruction
    // will use, without touching any state.
    assert_eq!(cpu.debug_operand(0x8001, &AddressingMode::ZeroPage), 0x10);
    assert_eq!(cpu.mem_peek(cpu.debug_operand(0x8001, &AddressingMode::ZeroPage)), 0x55);
    cpu.run().unwrap();
    assert_eq!(cpu.reg_a, 0x55);
}

#[test]
fn test_branch_page_cross_pays_second_penalty() {
    // CLC; BCC -4: the instruction after the branch sits at 0x8003 and the
    // target at 0x7FFF, on different pages, so the taken branch costs
    // 2 + 1 + 1; the byte it lands on is zero and stops the loop.
    let mut cpu = cpu_with_program(&[0x18, 0x90, 0xFC]);
    cpu.run().unwrap();
    assert_eq!(cpu.bus.cycles, 6);
    assert_eq!(cpu.pc, 0x8000);
}
