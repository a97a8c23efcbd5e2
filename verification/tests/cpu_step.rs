use mos6502::cpu::{cycle_count, CPU};
use mos6502::error::CpuError;
use mos6502::instruction::{decode, AddressingMode, Instruction, Operation};
use mos6502::memory::Memory;
use mos6502::register::StatusRegister;

/// A memory with `program` at `origin` and the reset vector pointing
/// there, and a processor reset on it.
fn load(origin: u16, program: &[u8]) -> (CPU, Memory) {
    let mut memory = Memory::new();
    for (i, byte) in program.iter().enumerate() {
        memory.write(origin.wrapping_add(i as u16), *byte);
    }
    memory.write(0xFFFC, origin as u8);
    memory.write(0xFFFD, (origin >> 8) as u8);
    let mut cpu = CPU::new();
    cpu.reset(&memory);
    (cpu, memory)
}

fn run(cpu: &mut CPU, memory: &mut Memory, steps: usize) -> u32 {
    let mut cycles = 0;
    for _ in 0..steps {
        cycles += cpu.step(memory).expect("legal opcode") as u32;
    }
    cycles
}

#[test]
fn reset_loads_the_program_counter_from_the_reset_vector() {
    let mut memory = Memory::new();
    memory.write(0xFFFC, 0x00);
    memory.write(0xFFFD, 0x80);
    let mut cpu = CPU::new();
    cpu.lda(0x55);
    cpu.ldx(0x66);
    cpu.request_irq();
    cpu.reset(&memory);
    assert_eq!(cpu.pc(), 0x8000);
    assert_eq!((cpu.a(), cpu.x(), cpu.y(), cpu.sp()), (0, 0, 0, 0xFF));
    assert_eq!(cpu.status(), StatusRegister::new());
    // The request made before the reset is gone: the next step executes
    // the instruction at the reset address.
    memory.write(0x8000, 0xEA);
    assert_eq!(cpu.step(&mut memory), Ok(2));
    assert_eq!(cpu.pc(), 0x8001);
}

#[test]
fn lda_immediate() {
    let (mut cpu, mut memory) = load(0x0600, &[0xA9, 0x00, 0xA9, 0x80, 0xA9, 0x7F]);
    assert_eq!(cpu.step(&mut memory), Ok(2));
    assert_eq!((cpu.a(), cpu.zero(), cpu.negative(), cpu.pc()), (0x00, true, false, 0x0602));
    assert_eq!(cpu.step(&mut memory), Ok(2));
    assert_eq!((cpu.a(), cpu.zero(), cpu.negative(), cpu.pc()), (0x80, false, true, 0x0604));
    assert_eq!(cpu.step(&mut memory), Ok(2));
    assert_eq!((cpu.a(), cpu.zero(), cpu.negative(), cpu.pc()), (0x7F, false, false, 0x0606));
    assert!(!cpu.carry() && !cpu.overflow());
}

#[test]
fn lda_in_every_addressing_mode() {
    let program = [
        0xA2, 0x01, // LDX #$01
        0xA0, 0x02, // LDY #$02
        0xA5, 0x10, // LDA $10
        0xB5, 0x10, // LDA $10,X
        0xAD, 0x00, 0x30, // LDA $3000
        0xBD, 0x00, 0x30, // LDA $3000,X
        0xB9, 0x00, 0x30, // LDA $3000,Y
        0xA1, 0x20, // LDA ($20,X)
        0xB1, 0x30, // LDA ($30),Y
    ];
    let (mut cpu, mut memory) = load(0x0600, &program);
    memory.write(0x0010, 0x11);
    memory.write(0x0011, 0x12);
    memory.write(0x3000, 0x13);
    memory.write(0x3001, 0x14);
    memory.write(0x3002, 0x15);
    memory.write(0x0021, 0x00);
    memory.write(0x0022, 0x40);
    memory.write(0x4000, 0x16);
    memory.write(0x0030, 0x00);
    memory.write(0x0031, 0x50);
    memory.write(0x5002, 0x17);
    assert_eq!(run(&mut cpu, &mut memory, 2), 4);
    let expected = [(0x11, 3), (0x12, 4), (0x13, 4), (0x14, 4), (0x15, 4), (0x16, 6), (0x17, 5)];
    for (value, cycles) in expected {
        assert_eq!(cpu.step(&mut memory), Ok(cycles));
        assert_eq!(cpu.a(), value);
    }
    assert_eq!(cpu.pc(), 0x0600 + program.len() as u16);
}

#[test]
fn ldx_and_ldy_in_every_addressing_mode() {
    let program = [
        0xA2, 0x01, // LDX #$01
        0xA0, 0x02, // LDY #$02
        0xA6, 0x10, // LDX $10       -> 0x21
        0xB6, 0x10, // LDX $10,Y     -> $12 = 0x23
        0xAE, 0x00, 0x30, // LDX $3000 -> 0x31
        0xBE, 0x00, 0x30, // LDX $3000,Y -> $3002 = 0x33
        0xA2, 0x01, // LDX #$01
        0xA4, 0x10, // LDY $10       -> 0x21
        0xB4, 0x10, // LDY $10,X     -> $11 = 0x22
        0xAC, 0x00, 0x30, // LDY $3000 -> 0x31
        0xBC, 0x00, 0x30, // LDY $3000,X -> $3001 = 0x32
    ];
    let (mut cpu, mut memory) = load(0x0600, &program);
    memory.write(0x0010, 0x21);
    memory.write(0x0011, 0x22);
    memory.write(0x0012, 0x23);
    memory.write(0x3000, 0x31);
    memory.write(0x3001, 0x32);
    memory.write(0x3002, 0x33);
    run(&mut cpu, &mut memory, 2);
    for (value, cycles) in [(0x21, 3), (0x23, 4), (0x31, 4), (0x33, 4)] {
        assert_eq!(cpu.step(&mut memory), Ok(cycles));
        assert_eq!(cpu.x(), value);
    }
    run(&mut cpu, &mut memory, 1);
    for (value, cycles) in [(0x21, 3), (0x22, 4), (0x31, 4), (0x32, 4)] {
        assert_eq!(cpu.step(&mut memory), Ok(cycles));
        assert_eq!(cpu.y(), value);
    }
}

#[test]
fn stores_in_every_addressing_mode() {
    let program = [
        0xA9, 0xAA, // LDA #$AA
        0xA2, 0x01, // LDX #$01
        0xA0, 0x02, // LDY #$02
        0x85, 0x10, // STA $10
        0x95, 0x10, // STA $10,X
        0x8D, 0x00, 0x30, // STA $3000
        0x9D, 0x00, 0x30, // STA $3000,X
        0x99, 0x00, 0x30, // STA $3000,Y
        0x81, 0x20, // STA ($20,X)
        0x91, 0x30, // STA ($30),Y
        0x86, 0x40, // STX $40
        0x96, 0x40, // STX $40,Y
        0x8E, 0x10, 0x30, // STX $3010
        0x84, 0x50, // STY $50
        0x94, 0x50, // STY $50,X
        0x8C, 0x20, 0x30, // STY $3020
    ];
    let (mut cpu, mut memory) = load(0x0600, &program);
    memory.write(0x0021, 0x00);
    memory.write(0x0022, 0x40);
    memory.write(0x0030, 0x00);
    memory.write(0x0031, 0x50);
    run(&mut cpu, &mut memory, 3);
    let status = cpu.status();
    let expected: [(u16, u8, u8); 13] = [
        (0x0010, 0xAA, 3),
        (0x0011, 0xAA, 4),
        (0x3000, 0xAA, 4),
        (0x3001, 0xAA, 5),
        (0x3002, 0xAA, 5),
        (0x4000, 0xAA, 6),
        (0x5002, 0xAA, 6),
        (0x0040, 0x01, 3),
        (0x0042, 0x01, 4),
        (0x3010, 0x01, 4),
        (0x0050, 0x02, 3),
        (0x0051, 0x02, 4),
        (0x3020, 0x02, 4),
    ];
    for (address, value, cycles) in expected {
        assert_eq!(memory.read(address), 0);
        assert_eq!(cpu.step(&mut memory), Ok(cycles));
        assert_eq!(memory.read(address), value, "at {:04X}", address);
    }
    assert_eq!(cpu.status(), status);
    assert_eq!(cpu.pc(), 0x0600 + program.len() as u16);
}

#[test]
fn absolute_x_read_pays_for_a_page_cross() {
    // LDA $20FF,X with X = 1 reads $2100 and takes five cycles; with
    // X = 0 it reads $20FF and takes four.
    let (mut cpu, mut memory) = load(0x0600, &[0xA2, 0x01, 0xBD, 0xFF, 0x20]);
    memory.write(0x20FF, 0x11);
    memory.write(0x2100, 0x22);
    run(&mut cpu, &mut memory, 1);
    assert_eq!(cpu.step(&mut memory), Ok(5));
    assert_eq!(cpu.a(), 0x22);

    let (mut cpu, mut memory) = load(0x0600, &[0xA2, 0x00, 0xBD, 0xFF, 0x20]);
    memory.write(0x20FF, 0x11);
    memory.write(0x2100, 0x22);
    run(&mut cpu, &mut memory, 1);
    assert_eq!(cpu.step(&mut memory), Ok(4));
    assert_eq!(cpu.a(), 0x11);
}

#[test]
fn absolute_y_and_indirect_y_reads_pay_for_a_page_cross() {
    let (mut cpu, mut memory) = load(0x0600, &[0xA0, 0x01, 0xB9, 0xFF, 0x20, 0xB1, 0x10]);
    memory.write(0x2100, 0x22);
    memory.write(0x0010, 0xFF);
    memory.write(0x0011, 0x30);
    memory.write(0x3100, 0x33);
    run(&mut cpu, &mut memory, 1);
    assert_eq!(cpu.step(&mut memory), Ok(5));
    assert_eq!(cpu.a(), 0x22);
    assert_eq!(cpu.step(&mut memory), Ok(6));
    assert_eq!(cpu.a(), 0x33);
}

#[test]
fn writes_do_not_pay_for_a_page_cross() {
    for x in [0x00u8, 0x01] {
        // STA $20FF,X ; STA $20FF,Y ; STA ($10),Y ; INC $20FF,X
        let program =
            [0xA2, x, 0xA0, x, 0x9D, 0xFF, 0x20, 0x99, 0xFF, 0x20, 0x91, 0x10, 0xFE, 0xFF, 0x20];
        let (mut cpu, mut memory) = load(0x0600, &program);
        memory.write(0x0010, 0xFF);
        memory.write(0x0011, 0x30);
        run(&mut cpu, &mut memory, 2);
        assert_eq!(cpu.step(&mut memory), Ok(5));
        assert_eq!(cpu.step(&mut memory), Ok(5));
        assert_eq!(cpu.step(&mut memory), Ok(6));
        assert_eq!(cpu.step(&mut memory), Ok(7));
    }
}

#[test]
fn zero_page_indexing_never_pays_for_a_wrap() {
    let (mut cpu, mut memory) = load(0x0600, &[0xA2, 0x20, 0xB5, 0xF0]);
    memory.write(0x0010, 0x5A);
    memory.write(0x0110, 0xEE);
    run(&mut cpu, &mut memory, 1);
    assert_eq!(cpu.step(&mut memory), Ok(4));
    assert_eq!(cpu.a(), 0x5A);
}

#[test]
fn indexed_indirect_wraps_in_page_zero() {
    // LDA ($FF,X) with X = 1 reads its pointer from $00 and $01.
    let (mut cpu, mut memory) = load(0x0600, &[0xA2, 0x01, 0xA1, 0xFF]);
    memory.write(0x0000, 0x34);
    memory.write(0x0001, 0x12);
    memory.write(0x0100, 0x78);
    memory.write(0x0101, 0x56);
    memory.write(0x1234, 0xAB);
    memory.write(0x5678, 0xCD);
    run(&mut cpu, &mut memory, 1);
    assert_eq!(cpu.step(&mut memory), Ok(6));
    assert_eq!(cpu.a(), 0xAB);
}

#[test]
fn arithmetic_instructions() {
    let program = [
        0x18, // CLC
        0xA9, 0x50, // LDA #$50
        0x69, 0x50, // ADC #$50 -> $A0, V
        0x38, // SEC
        0xE9, 0x20, // SBC #$20 -> $80
        0xE9, 0x01, // SBC #$01 -> $7F, V
        0x29, 0x0F, // AND #$0F -> $0F
        0x09, 0x80, // ORA #$80 -> $8F
        0x49, 0xFF, // EOR #$FF -> $70
        0xC9, 0x70, // compare with #$70
        0xC9, 0x71, // compare with #$71
    ];
    let (mut cpu, mut memory) = load(0x0600, &program);
    run(&mut cpu, &mut memory, 3);
    assert_eq!(cpu.a(), 0xA0);
    assert!(!cpu.carry() && cpu.overflow() && cpu.negative() && !cpu.zero());
    run(&mut cpu, &mut memory, 2);
    assert_eq!(cpu.a(), 0x80);
    assert!(cpu.carry() && !cpu.overflow() && cpu.negative());
    run(&mut cpu, &mut memory, 1);
    assert_eq!(cpu.a(), 0x7F);
    assert!(cpu.carry() && cpu.overflow() && !cpu.negative());
    run(&mut cpu, &mut memory, 1);
    assert_eq!(cpu.a(), 0x0F);
    run(&mut cpu, &mut memory, 1);
    assert_eq!(cpu.a(), 0x8F);
    assert!(cpu.negative());
    run(&mut cpu, &mut memory, 1);
    assert_eq!(cpu.a(), 0x70);
    assert!(!cpu.negative() && !cpu.zero());
    assert_eq!(cpu.step(&mut memory), Ok(2));
    assert!(cpu.carry() && cpu.zero() && !cpu.negative());
    assert_eq!(cpu.step(&mut memory), Ok(2));
    assert!(!cpu.carry() && !cpu.zero() && cpu.negative());
    assert_eq!(cpu.a(), 0x70);
}

#[test]
fn decimal_mode_through_instructions() {
    let program = [
        0xF8, // SED
        0x18, // CLC
        0xA9, 0x09, // LDA #$09
        0x69, 0x01, // ADC #$01 -> $10
        0x69, 0x95, // ADC #$95 -> $05, carry
        0xE9, 0x06, // SBC #$06 -> $99, borrow
        0xD8, // CLD
        0x69, 0x01, // ADC #$01 -> $9A
    ];
    let (mut cpu, mut memory) = load(0x0600, &program);
    run(&mut cpu, &mut memory, 4);
    assert_eq!((cpu.a(), cpu.carry()), (0x10, false));
    run(&mut cpu, &mut memory, 1);
    assert_eq!((cpu.a(), cpu.carry()), (0x05, true));
    run(&mut cpu, &mut memory, 1);
    assert_eq!((cpu.a(), cpu.carry()), (0x99, false));
    run(&mut cpu, &mut memory, 2);
    assert_eq!((cpu.a(), cpu.carry()), (0x9A, false));
}

#[test]
fn compare_index_registers() {
    let program = [
        0xA2, 0x10, // LDX #$10
        0xA0, 0x20, // LDY #$20
        0xE0, 0x10, // CPX #$10
        0xE4, 0x80, // CPX $80
        0xEC, 0x00, 0x30, // CPX $3000
        0xC0, 0x20, // CPY #$20
        0xC4, 0x80, // CPY $80
        0xCC, 0x00, 0x30, // CPY $3000
    ];
    let (mut cpu, mut memory) = load(0x0600, &program);
    memory.write(0x0080, 0x11);
    memory.write(0x3000, 0x0F);
    run(&mut cpu, &mut memory, 2);
    assert_eq!(cpu.step(&mut memory), Ok(2));
    assert!(cpu.zero() && cpu.carry());
    assert_eq!(cpu.step(&mut memory), Ok(3));
    assert!(!cpu.zero() && !cpu.carry() && cpu.negative());
    assert_eq!(cpu.step(&mut memory), Ok(4));
    assert!(!cpu.zero() && cpu.carry() && !cpu.negative());
    assert_eq!(cpu.step(&mut memory), Ok(2));
    assert!(cpu.zero() && cpu.carry());
    assert_eq!(cpu.step(&mut memory), Ok(3));
    assert!(!cpu.zero() && cpu.carry());
    assert_eq!(cpu.step(&mut memory), Ok(4));
    assert!(!cpu.zero() && cpu.carry());
}

#[test]
fn bit_instruction() {
    let (mut cpu, mut memory) = load(0x0600, &[0xA9, 0x01, 0x24, 0x10, 0x2C, 0x00, 0x30]);
    memory.write(0x0010, 0xC0);
    memory.write(0x3000, 0x01);
    run(&mut cpu, &mut memory, 1);
    assert_eq!(cpu.step(&mut memory), Ok(3));
    assert!(cpu.zero() && cpu.negative() && cpu.overflow());
    assert_eq!(cpu.step(&mut memory), Ok(4));
    assert!(!cpu.zero() && !cpu.negative() && !cpu.overflow());
    assert_eq!(cpu.a(), 0x01);
}

#[test]
fn shifts_on_accumulator_and_memory() {
    let program = [
        0xA9, 0x81, // LDA #$81
        0x0A, // ASL A -> $02, C
        0x2A, // ROL A -> $05
        0x4A, // LSR A -> $02, C
        0x6A, // ROR A -> $81
        0x06, 0x10, // ASL $10
        0x46, 0x11, // LSR $11
        0x26, 0x12, // ROL $12
        0x66, 0x13, // ROR $13
        0xA2, 0x01, // LDX #$01
        0x16, 0x0F, // ASL $0F,X
        0x0E, 0x00, 0x30, // ASL $3000
        0x1E, 0xFF, 0x2F, // ASL $2FFF,X
    ];
    let (mut cpu, mut memory) = load(0x0600, &program);
    memory.write(0x0010, 0x40);
    memory.write(0x0011, 0x01);
    memory.write(0x0012, 0x80);
    memory.write(0x0013, 0x01);
    memory.write(0x3000, 0x01);
    run(&mut cpu, &mut memory, 1);
    assert_eq!(cpu.step(&mut memory), Ok(2));
    assert_eq!((cpu.a(), cpu.carry()), (0x02, true));
    assert_eq!(cpu.step(&mut memory), Ok(2));
    assert_eq!((cpu.a(), cpu.carry()), (0x05, false));
    assert_eq!(cpu.step(&mut memory), Ok(2));
    assert_eq!((cpu.a(), cpu.carry()), (0x02, true));
    assert_eq!(cpu.step(&mut memory), Ok(2));
    assert_eq!((cpu.a(), cpu.carry(), cpu.negative()), (0x81, false, true));
    assert_eq!(cpu.step(&mut memory), Ok(5));
    assert_eq!((memory.read(0x10), cpu.carry(), cpu.negative()), (0x80, false, true));
    assert_eq!(cpu.step(&mut memory), Ok(5));
    assert_eq!((memory.read(0x11), cpu.carry(), cpu.zero()), (0x00, true, true));
    assert_eq!(cpu.step(&mut memory), Ok(5));
    assert_eq!((memory.read(0x12), cpu.carry(), cpu.zero()), (0x01, true, false));
    assert_eq!(cpu.step(&mut memory), Ok(5));
    assert_eq!((memory.read(0x13), cpu.carry(), cpu.negative()), (0x80, true, true));
    run(&mut cpu, &mut memory, 1);
    assert_eq!(cpu.step(&mut memory), Ok(6));
    assert_eq!((memory.read(0x10), cpu.carry(), cpu.zero()), (0x00, true, true));
    assert_eq!(cpu.step(&mut memory), Ok(6));
    assert_eq!((memory.read(0x3000), cpu.carry()), (0x02, false));
    assert_eq!(cpu.step(&mut memory), Ok(7));
    assert_eq!((memory.read(0x3000), cpu.carry()), (0x04, false));
    assert_eq!(cpu.a(), 0x81);
}

#[test]
fn increments_and_decrements_in_memory() {
    let program = [
        0xE6, 0x10, // INC $10
        0xC6, 0x11, // DEC $11
        0xA2, 0x02, // LDX #$02
        0xF6, 0x10, // INC $10,X
        0xD6, 0x11, // DEC $11,X
        0xEE, 0x00, 0x30, // INC $3000
        0xCE, 0x01, 0x30, // DEC $3001
        0xFE, 0x00, 0x30, // INC $3000,X
        0xDE, 0x01, 0x30, // DEC $3001,X
    ];
    let (mut cpu, mut memory) = load(0x0600, &program);
    memory.write(0x0010, 0xFF);
    memory.write(0x0011, 0x00);
    memory.write(0x0012, 0x7F);
    memory.write(0x0013, 0x01);
    assert_eq!(cpu.step(&mut memory), Ok(5));
    assert_eq!((memory.read(0x10), cpu.zero(), cpu.negative()), (0x00, true, false));
    assert_eq!(cpu.step(&mut memory), Ok(5));
    assert_eq!((memory.read(0x11), cpu.zero(), cpu.negative()), (0xFF, false, true));
    run(&mut cpu, &mut memory, 1);
    assert_eq!(cpu.step(&mut memory), Ok(6));
    assert_eq!((memory.read(0x12), cpu.zero(), cpu.negative()), (0x80, false, true));
    assert_eq!(cpu.step(&mut memory), Ok(6));
    assert_eq!((memory.read(0x13), cpu.zero(), cpu.negative()), (0x00, true, false));
    assert_eq!(cpu.step(&mut memory), Ok(6));
    assert_eq!(memory.read(0x3000), 0x01);
    assert_eq!(cpu.step(&mut memory), Ok(6));
    assert_eq!(memory.read(0x3001), 0xFF);
    assert_eq!(cpu.step(&mut memory), Ok(7));
    assert_eq!(memory.read(0x3002), 0x01);
    assert_eq!(cpu.step(&mut memory), Ok(7));
    assert_eq!(memory.read(0x3003), 0xFF);
    assert!(!cpu.carry());
}

#[test]
fn implied_instructions_take_two_cycles_and_one_byte() {
    let program = [
        0xAA, 0xA8, 0x8A, 0x98, 0xBA, 0x9A, 0xE8, 0xC8, 0xCA, 0x88, 0x18, 0x38, 0x58, 0x78, 0xD8,
        0xF8, 0xB8, 0xEA,
    ];
    let (mut cpu, mut memory) = load(0x0600, &program);
    for i in 0..program.len() {
        assert_eq!(cpu.pc(), 0x0600 + i as u16);
        assert_eq!(cpu.step(&mut memory), Ok(2), "opcode {:02X}", program[i]);
    }
    assert_eq!(cpu.pc(), 0x0600 + program.len() as u16);
}

#[test]
fn jump_absolute_and_indirect() {
    let (mut cpu, mut memory) = load(0x0600, &[0x4C, 0x00, 0x10]);
    memory.write(0x1000, 0x6C);
    memory.write(0x1001, 0x20);
    memory.write(0x1002, 0x30);
    memory.write(0x3020, 0x34);
    memory.write(0x3021, 0x12);
    assert_eq!(cpu.step(&mut memory), Ok(3));
    assert_eq!(cpu.pc(), 0x1000);
    assert_eq!(cpu.step(&mut memory), Ok(5));
    assert_eq!(cpu.pc(), 0x1234);
    assert_eq!(cpu.sp(), 0xFF);
}

#[test]
fn indirect_jump_at_a_page_boundary() {
    // JMP ($02FF) with $02FF = $00 and $0200 = $80 goes to $8000.
    let (mut cpu, mut memory) = load(0x0600, &[0x6C, 0xFF, 0x02]);
    memory.write(0x02FF, 0x00);
    memory.write(0x0200, 0x80);
    memory.write(0x0300, 0x12);
    assert_eq!(cpu.step(&mut memory), Ok(5));
    assert_eq!(cpu.pc(), 0x8000);
}

#[test]
fn branches_not_taken_take_two_cycles() {
    // With all flags clear: BCS, BEQ, BMI, BVS fall through.
    let (mut cpu, mut memory) = load(0x0600, &[0xB0, 0x10, 0xF0, 0x10, 0x30, 0x10, 0x70, 0x10]);
    for i in 1..=4u16 {
        assert_eq!(cpu.step(&mut memory), Ok(2));
        assert_eq!(cpu.pc(), 0x0600 + 2 * i);
    }
}

#[test]
fn branches_taken_take_three_cycles() {
    // With all flags clear: BCC, BNE, BPL, BVC are taken.
    for opcode in [0x90u8, 0xD0, 0x10, 0x50] {
        let (mut cpu, mut memory) = load(0x0600, &[opcode, 0x10]);
        assert_eq!(cpu.step(&mut memory), Ok(3));
        assert_eq!(cpu.pc(), 0x0612);
    }
}

#[test]
fn branches_on_set_flags() {
    // SEC ; BCS +2
    let (mut cpu, mut memory) = load(0x0600, &[0x38, 0xB0, 0x02]);
    run(&mut cpu, &mut memory, 1);
    assert_eq!(cpu.step(&mut memory), Ok(3));
    assert_eq!(cpu.pc(), 0x0605);
    // LDA #$00 ; BEQ +2
    let (mut cpu, mut memory) = load(0x0600, &[0xA9, 0x00, 0xF0, 0x02]);
    run(&mut cpu, &mut memory, 1);
    assert_eq!(cpu.step(&mut memory), Ok(3));
    assert_eq!(cpu.pc(), 0x0606);
    // LDA #$80 ; BMI +2
    let (mut cpu, mut memory) = load(0x0600, &[0xA9, 0x80, 0x30, 0x02]);
    run(&mut cpu, &mut memory, 1);
    assert_eq!(cpu.step(&mut memory), Ok(3));
    assert_eq!(cpu.pc(), 0x0606);
    // BIT $10 with bit 6 set ; BVS +2
    let (mut cpu, mut memory) = load(0x0600, &[0x24, 0x10, 0x70, 0x02]);
    memory.write(0x0010, 0x40);
    run(&mut cpu, &mut memory, 1);
    assert_eq!(cpu.step(&mut memory), Ok(3));
    assert_eq!(cpu.pc(), 0x0606);
    // SEC ; BCC +2 falls through
    let (mut cpu, mut memory) = load(0x0600, &[0x38, 0x90, 0x02]);
    run(&mut cpu, &mut memory, 1);
    assert_eq!(cpu.step(&mut memory), Ok(2));
    assert_eq!(cpu.pc(), 0x0603);
}

#[test]
fn branch_backward() {
    // BNE -2 at $0600 branches to itself.
    let (mut cpu, mut memory) = load(0x0600, &[0xD0, 0xFE]);
    assert_eq!(cpu.step(&mut memory), Ok(3));
    assert_eq!(cpu.pc(), 0x0600);
}

#[test]
fn branch_across_a_page_takes_four_cycles() {
    // BNE +$10 at $06F0: the next instruction is at $06F2, the target $0702.
    let (mut cpu, mut memory) = load(0x06F0, &[0xD0, 0x10]);
    assert_eq!(cpu.step(&mut memory), Ok(4));
    assert_eq!(cpu.pc(), 0x0702);
    // BNE -4 at $0700: the next instruction is at $0702, the target $06FE.
    let (mut cpu, mut memory) = load(0x0700, &[0xD0, 0xFC]);
    assert_eq!(cpu.step(&mut memory), Ok(4));
    assert_eq!(cpu.pc(), 0x06FE);
    // Not taken: no penalty, wherever the target would have been.
    let (mut cpu, mut memory) = load(0x06F0, &[0xF0, 0x10]);
    assert_eq!(cpu.step(&mut memory), Ok(2));
    assert_eq!(cpu.pc(), 0x06F2);
}

#[test]
fn branch_page_is_that_of_the_next_instruction() {
    // BNE +2 at $06FE: the next instruction is at $0700 and the target at
    // $0702, in the same page, so the branch takes three cycles.
    let (mut cpu, mut memory) = load(0x06FE, &[0xD0, 0x02]);
    assert_eq!(cpu.step(&mut memory), Ok(3));
    assert_eq!(cpu.pc(), 0x0702);
}

#[test]
fn illegal_opcode_is_reported() {
    let (mut cpu, mut memory) = load(0x0600, &[0xA9, 0x42, 0x02, 0xEA]);
    run(&mut cpu, &mut memory, 1);
    let status = cpu.status();
    assert_eq!(cpu.step(&mut memory), Err(CpuError::IllegalOpcode(0x02)));
    assert_eq!(cpu.pc(), 0x0603);
    assert_eq!((cpu.a(), cpu.x(), cpu.y(), cpu.sp()), (0x42, 0, 0, 0xFF));
    assert_eq!(cpu.status(), status);
    assert_eq!(memory.read(0x0602), 0x02);
    // The driver may carry on behind the byte.
    assert_eq!(cpu.step(&mut memory), Ok(2));
    assert_eq!(cpu.pc(), 0x0604);
}

#[test]
fn every_illegal_opcode_is_reported_with_its_byte() {
    let mut illegal = 0;
    for opcode in 0..=255u8 {
        let (mut cpu, mut memory) = load(0x0600, &[opcode, 0x00, 0x00]);
        if decode(opcode).is_none() {
            illegal += 1;
            assert_eq!(cpu.step(&mut memory), Err(CpuError::IllegalOpcode(opcode)));
            assert_eq!(cpu.pc(), 0x0601);
        } else {
            assert!(cpu.step(&mut memory).is_ok());
        }
    }
    assert_eq!(illegal, 105);
}

#[test]
fn execute_takes_the_opcode_from_its_caller() {
    // The program counter is at the operand; memory holds no opcode at all.
    let (mut cpu, mut memory) = load(0x0600, &[0x42]);
    assert_eq!(cpu.execute(0xA9, &mut memory), Ok(2));
    assert_eq!(cpu.a(), 0x42);
    assert_eq!(cpu.pc(), 0x0601);
    assert_eq!(cpu.execute(0xFF, &mut memory), Err(CpuError::IllegalOpcode(0xFF)));
    assert_eq!(cpu.pc(), 0x0601);
    assert_eq!(cpu.a(), 0x42);
}

#[test]
fn program_counter_wraps_at_the_end_of_memory() {
    let (mut cpu, mut memory) = load(0xFFFF, &[0xEA]);
    memory.write(0x0000, 0xA9);
    memory.write(0x0001, 0x33);
    assert_eq!(cpu.step(&mut memory), Ok(2));
    assert_eq!(cpu.pc(), 0x0000);
    assert_eq!(cpu.step(&mut memory), Ok(2));
    assert_eq!(cpu.pc(), 0x0002);
    assert_eq!(cpu.a(), 0x33);
}

#[test]
fn sum_of_one_to_ten() {
    let program = [
        0xA9, 0x00, // LDA #$00
        0xA2, 0x0A, // LDX #$0A
        0x18, // CLC
        0x86, 0x10, // loop: STX $10
        0x65, 0x10, // ADC $10
        0xCA, // DEX
        0xD0, 0xF9, // BNE loop
        0x85, 0x11, // STA $11
    ];
    let (mut cpu, mut memory) = load(0x0600, &program);
    let mut cycles = 0u32;
    while cpu.pc() != 0x0600 + program.len() as u16 {
        cycles += cpu.step(&mut memory).unwrap() as u32;
    }
    assert_eq!(memory.read(0x11), 55);
    assert_eq!(cpu.a(), 55);
    assert_eq!(cpu.x(), 0);
    // 2 + 2 + 2, ten rounds of 3 + 3 + 2 and a branch (3 taken, 2 at the
    // end), and the final store.
    assert_eq!(cycles, 6 + 10 * 8 + 9 * 3 + 2 + 3);
}

#[test]
fn multiplication_by_repeated_addition() {
    // $10 * $11 -> $12 (low) $13 (high)
    let program = [
        0xA9, 0x00, // LDA #$00
        0x85, 0x12, // STA $12
        0x85, 0x13, // STA $13
        0xA6, 0x11, // LDX $11
        0xF0, 0x0E, // BEQ done
        0x18, // loop: CLC
        0xA5, 0x12, // LDA $12
        0x65, 0x10, // ADC $10
        0x85, 0x12, // STA $12
        0x90, 0x02, // BCC skip
        0xE6, 0x13, // INC $13
        0xCA, // skip: DEX
        0xD0, 0xF2, // BNE loop
        0xEA, // done: NOP
    ];
    let (mut cpu, mut memory) = load(0x0600, &program);
    memory.write(0x10, 200);
    memory.write(0x11, 123);
    let end = 0x0600 + program.len() as u16;
    let mut steps = 0;
    while cpu.pc() != end {
        cpu.step(&mut memory).unwrap();
        steps += 1;
        assert!(steps < 10_000);
    }
    let product = memory.read(0x12) as u32 + 256 * memory.read(0x13) as u32;
    assert_eq!(product, 200 * 123);
}

#[test]
fn cycle_counts_with_penalties() {
    let read = Instruction { operation: Operation::Lda, mode: AddressingMode::AbsoluteX };
    assert_eq!(cycle_count(read, false, false), 4);
    assert_eq!(cycle_count(read, true, false), 5);
    let read = Instruction { operation: Operation::Eor, mode: AddressingMode::IndirectIndexed };
    assert_eq!(cycle_count(read, false, false), 5);
    assert_eq!(cycle_count(read, true, false), 6);
    let write = Instruction { operation: Operation::Sta, mode: AddressingMode::AbsoluteX };
    assert_eq!(cycle_count(write, false, false), 5);
    assert_eq!(cycle_count(write, true, false), 5);
    let change = Instruction { operation: Operation::Dec, mode: AddressingMode::AbsoluteX };
    assert_eq!(cycle_count(change, false, false), 7);
    assert_eq!(cycle_count(change, true, false), 7);
    let branch = Instruction { operation: Operation::Beq, mode: AddressingMode::Relative };
    assert_eq!(cycle_count(branch, false, false), 2);
    assert_eq!(cycle_count(branch, true, false), 2);
    assert_eq!(cycle_count(branch, false, true), 3);
    assert_eq!(cycle_count(branch, true, true), 4);
    let plain = Instruction { operation: Operation::Nop, mode: AddressingMode::Implied };
    assert_eq!(cycle_count(plain, true, true), 2);
}

#[test]
fn perform_executes_a_decoded_instruction() {
    let (mut cpu, mut memory) = load(0x0600, &[0x10, 0x30]);
    memory.write(0x3010, 0x99);
    let lda = Instruction { operation: Operation::Lda, mode: AddressingMode::Absolute };
    assert_eq!(cpu.perform(lda, &mut memory), 4);
    assert_eq!(cpu.a(), 0x99);
    assert_eq!(cpu.pc(), 0x0602);
    let sta = Instruction { operation: Operation::Sta, mode: AddressingMode::ZeroPage };
    cpu.apply(sta, 0x0040, &mut memory);
    assert_eq!(memory.read(0x0040), 0x99);
    assert_eq!(cpu.pc(), 0x0602);
}
