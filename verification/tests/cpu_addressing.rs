use mos6502::cpu::CPU;
use mos6502::instruction::AddressingMode;
use mos6502::memory::Memory;

/// A processor whose program counter is at `pc`, and a memory that holds
/// `operand` there.
fn at(pc: u16, operand: &[u8]) -> (CPU, Memory) {
    let mut memory = Memory::new();
    memory.write(0xFFFC, pc as u8);
    memory.write(0xFFFD, (pc >> 8) as u8);
    for (i, byte) in operand.iter().enumerate() {
        memory.write(pc.wrapping_add(i as u16), *byte);
    }
    let mut cpu = CPU::new();
    cpu.reset(&memory);
    assert_eq!(cpu.pc(), pc);
    (cpu, memory)
}

#[test]
fn zero_page_is_the_operand_byte() {
    let (cpu, memory) = at(0x0400, &[0x42]);
    assert_eq!(cpu.zero_page_addr(&memory), 0x0042);
    assert_eq!(cpu.resolve(AddressingMode::ZeroPage, &memory), (0x0042, false));
}

#[test]
fn zero_page_x_adds_x() {
    let (mut cpu, memory) = at(0x0400, &[0x42]);
    cpu.ldx(0x05);
    assert_eq!(cpu.zero_page_x_addr(&memory), 0x0047);
}

#[test]
fn zero_page_x_wraps_within_page_zero() {
    let (mut cpu, memory) = at(0x0400, &[0xF0]);
    cpu.ldx(0x20);
    assert_eq!(cpu.zero_page_x_addr(&memory), 0x0010);
    assert_eq!(cpu.resolve(AddressingMode::ZeroPageX, &memory), (0x0010, false));
    cpu.ldx(0xFF);
    assert_eq!(cpu.zero_page_x_addr(&memory), 0x00EF);
}

#[test]
fn zero_page_y_wraps_within_page_zero() {
    let (mut cpu, memory) = at(0x0400, &[0x80]);
    cpu.ldy(0x7F);
    assert_eq!(cpu.zero_page_y_addr(&memory), 0x00FF);
    cpu.ldy(0x80);
    assert_eq!(cpu.zero_page_y_addr(&memory), 0x0000);
    assert_eq!(cpu.resolve(AddressingMode::ZeroPageY, &memory), (0x0000, false));
}

#[test]
fn absolute_is_little_endian() {
    let (cpu, memory) = at(0x0400, &[0x34, 0x12]);
    assert_eq!(cpu.absolute_addr(&memory), 0x1234);
    assert_eq!(cpu.resolve(AddressingMode::Absolute, &memory), (0x1234, false));
}

#[test]
fn absolute_operand_wraps_at_the_end_of_memory() {
    let (cpu, mut memory) = at(0xFFFF, &[0x34]);
    memory.write(0x0000, 0x12);
    assert_eq!(cpu.absolute_addr(&memory), 0x1234);
}

#[test]
fn absolute_x_without_page_cross() {
    let (mut cpu, memory) = at(0x0400, &[0x00, 0x20]);
    cpu.ldx(0xFF);
    assert_eq!(cpu.absolute_x_addr(&memory), 0x20FF);
    assert_eq!(cpu.resolve(AddressingMode::AbsoluteX, &memory), (0x20FF, false));
}

#[test]
fn absolute_x_crossing_a_page() {
    let (mut cpu, memory) = at(0x0400, &[0xFF, 0x20]);
    cpu.ldx(0x01);
    assert_eq!(cpu.absolute_x_addr(&memory), 0x2100);
    assert_eq!(cpu.resolve(AddressingMode::AbsoluteX, &memory), (0x2100, true));
    cpu.ldx(0x00);
    assert_eq!(cpu.resolve(AddressingMode::AbsoluteX, &memory), (0x20FF, false));
}

#[test]
fn absolute_y_crossing_a_page() {
    let (mut cpu, memory) = at(0x0400, &[0x80, 0x30]);
    cpu.ldy(0x7F);
    assert_eq!(cpu.resolve(AddressingMode::AbsoluteY, &memory), (0x30FF, false));
    cpu.ldy(0x80);
    assert_eq!(cpu.absolute_y_addr(&memory), 0x3100);
    assert_eq!(cpu.resolve(AddressingMode::AbsoluteY, &memory), (0x3100, true));
}

#[test]
fn absolute_indexed_wraps_at_the_end_of_memory() {
    let (mut cpu, memory) = at(0x0400, &[0xFF, 0xFF]);
    cpu.ldx(0x01);
    cpu.ldy(0x10);
    assert_eq!(cpu.absolute_x_addr(&memory), 0x0000);
    assert_eq!(cpu.absolute_y_addr(&memory), 0x000F);
    assert_eq!(cpu.resolve(AddressingMode::AbsoluteX, &memory), (0x0000, true));
}

#[test]
fn indirect_reads_the_target_through_the_pointer() {
    let (cpu, mut memory) = at(0x0400, &[0x20, 0x03]);
    memory.write(0x0320, 0xCD);
    memory.write(0x0321, 0xAB);
    assert_eq!(cpu.indirect_addr(&memory), 0xABCD);
    assert_eq!(cpu.resolve(AddressingMode::Indirect, &memory), (0xABCD, false));
}

#[test]
fn indirect_at_a_page_boundary_takes_the_high_byte_from_the_same_page() {
    let (cpu, mut memory) = at(0x0400, &[0xFF, 0x02]);
    memory.write(0x02FF, 0x00);
    memory.write(0x0200, 0x80);
    memory.write(0x0300, 0x12);
    assert_eq!(cpu.indirect_addr(&memory), 0x8000);
}

#[test]
fn indexed_indirect_adds_x_to_the_operand() {
    let (mut cpu, mut memory) = at(0x0400, &[0x20]);
    cpu.ldx(0x04);
    memory.write(0x0024, 0x74);
    memory.write(0x0025, 0x20);
    assert_eq!(cpu.indirect_x_addr(&memory), 0x2074);
    assert_eq!(cpu.resolve(AddressingMode::IndexedIndirect, &memory), (0x2074, false));
}

#[test]
fn indexed_indirect_wraps_the_pointer_within_page_zero() {
    let (mut cpu, mut memory) = at(0x0400, &[0xFF]);
    cpu.ldx(0x01);
    memory.write(0x0000, 0x34);
    memory.write(0x0001, 0x12);
    memory.write(0x0100, 0xEE);
    memory.write(0x0101, 0xEE);
    assert_eq!(cpu.indirect_x_addr(&memory), 0x1234);
}

#[test]
fn indexed_indirect_reads_the_high_byte_within_page_zero() {
    let (mut cpu, mut memory) = at(0x0400, &[0xFE]);
    cpu.ldx(0x01);
    memory.write(0x00FF, 0x34);
    memory.write(0x0000, 0x12);
    memory.write(0x0100, 0xEE);
    assert_eq!(cpu.indirect_x_addr(&memory), 0x1234);
}

#[test]
fn indirect_indexed_adds_y_to_the_whole_base() {
    let (mut cpu, mut memory) = at(0x0400, &[0x86]);
    cpu.ldy(0x10);
    memory.write(0x0086, 0x28);
    memory.write(0x0087, 0x40);
    assert_eq!(cpu.indirect_y_addr(&memory), 0x4038);
    assert_eq!(cpu.resolve(AddressingMode::IndirectIndexed, &memory), (0x4038, false));
}

#[test]
fn indirect_indexed_carries_into_the_high_byte() {
    let (mut cpu, mut memory) = at(0x0400, &[0x86]);
    cpu.ldy(0x20);
    memory.write(0x0086, 0xF0);
    memory.write(0x0087, 0x20);
    assert_eq!(cpu.indirect_y_addr(&memory), 0x2110);
    assert_eq!(cpu.resolve(AddressingMode::IndirectIndexed, &memory), (0x2110, true));
}

#[test]
fn indirect_indexed_ignores_x_and_reads_the_pointer_within_page_zero() {
    let (mut cpu, mut memory) = at(0x0400, &[0xFF]);
    cpu.ldx(0x33);
    cpu.ldy(0x01);
    memory.write(0x00FF, 0x00);
    memory.write(0x0000, 0x50);
    memory.write(0x0100, 0xEE);
    assert_eq!(cpu.indirect_y_addr(&memory), 0x5001);
}

#[test]
fn relative_forward() {
    let (cpu, memory) = at(0x1001, &[0x10]);
    assert_eq!(cpu.relative_addr(&memory), 0x1012);
    assert_eq!(cpu.resolve(AddressingMode::Relative, &memory), (0x1012, false));
}

#[test]
fn relative_backward() {
    let (cpu, memory) = at(0x1011, &[0xFC]);
    assert_eq!(cpu.relative_addr(&memory), 0x100E);
    assert_eq!(cpu.resolve(AddressingMode::Relative, &memory), (0x100E, false));
}

#[test]
fn relative_across_a_page() {
    let (cpu, memory) = at(0x10F1, &[0x7F]);
    assert_eq!(cpu.resolve(AddressingMode::Relative, &memory), (0x1171, true));
    let (cpu, memory) = at(0x1001, &[0x80]);
    assert_eq!(cpu.resolve(AddressingMode::Relative, &memory), (0x0F82, true));
}

#[test]
fn relative_is_measured_from_the_next_instruction() {
    // The operand is the last byte of page 0x10, so the next instruction
    // starts page 0x11; a branch there crosses no page.
    let (cpu, memory) = at(0x10FF, &[0x05]);
    assert_eq!(cpu.resolve(AddressingMode::Relative, &memory), (0x1105, false));
}

#[test]
fn immediate_names_the_operand_byte_itself() {
    let (cpu, memory) = at(0x0400, &[0x99]);
    assert_eq!(cpu.resolve(AddressingMode::Immediate, &memory), (0x0400, false));
    assert_eq!(cpu.operand(AddressingMode::Immediate, 0x0400, &memory), 0x99);
}

#[test]
fn modes_without_operand_have_no_address() {
    let (cpu, memory) = at(0x0400, &[0x99]);
    assert_eq!(cpu.resolve(AddressingMode::Implied, &memory), (0, false));
    assert_eq!(cpu.resolve(AddressingMode::Accumulator, &memory), (0, false));
}

#[test]
fn accumulator_mode_works_on_the_accumulator() {
    let (mut cpu, mut memory) = at(0x0400, &[]);
    memory.write(0x0000, 0x11);
    cpu.lda(0x77);
    assert_eq!(cpu.operand(AddressingMode::Accumulator, 0, &memory), 0x77);
    assert_eq!(cpu.operand(AddressingMode::ZeroPage, 0, &memory), 0x11);
}

#[test]
fn resolvers_leave_the_processor_alone() {
    let (mut cpu, memory) = at(0x0400, &[0x34, 0x12]);
    cpu.ldx(1);
    cpu.ldy(2);
    let _ = cpu.resolve(AddressingMode::AbsoluteX, &memory);
    let _ = cpu.indirect_y_addr(&memory);
    assert_eq!(cpu.pc(), 0x0400);
    assert_eq!((cpu.x(), cpu.y()), (1, 2));
}

#[test]
fn words_are_read_low_byte_first() {
    let (cpu, mut memory) = at(0x0400, &[]);
    memory.write(0x1000, 0xCD);
    memory.write(0x1001, 0xAB);
    assert_eq!(cpu.read_word(&memory, 0x1000), 0xABCD);
    memory.write(0xFFFF, 0x01);
    memory.write(0x0000, 0x02);
    assert_eq!(cpu.read_word(&memory, 0xFFFF), 0x0201);
    memory.write(0x00FF, 0x03);
    assert_eq!(cpu.read_zero_page_word(&memory, 0xFF), 0x0203);
}
