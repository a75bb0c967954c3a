use rnes::bus::{Bus, BusMode};
use rnes::component::Component;
use rnes::cpu::address_mode::AddressMode;
use rnes::cpu::alu::OpcodeGroup;
use rnes::cpu::dma::OamDmaRequest;
use rnes::cpu::processor::{Interrupt, CPU};
use rnes::cpu::status::StatusRegister;
use rnes::error::CoreError;
use rnes::ppu::unit::PPU;
use rnes::ppu::video::VideoComponent;
use rnes::ppu::vram::VRam;
use rnes::rom::nrom::Nrom;

/// A processor whose cartridge holds `program` at 0x8000 and the vectors
/// NMI = 0x9000, reset = 0x8000, IRQ = 0xA000.
fn with_program(program: &[u8]) -> CPU {
    let mut data = vec![0xEAu8; 0x8000];
    data[..program.len()].copy_from_slice(program);
    data[0x7FFA] = 0x00;
    data[0x7FFB] = 0x90;
    data[0x7FFC] = 0x00;
    data[0x7FFD] = 0x80;
    data[0x7FFE] = 0x00;
    data[0x7FFF] = 0xA0;
    let mut cpu = CPU::new(Bus::new());
    cpu.bus.register_region(0x6000, 0xFFFF, Component::Nrom(Nrom::new(&data, 2)));
    cpu
}

fn video() -> Component {
    let mut bus = Bus::new();
    bus.register_region(0x2000, 0x3FFF, VideoComponent::Memory(VRam::new()));
    Component::Video(PPU::new(bus))
}

#[test]
fn power_on_registers() {
    let cpu = CPU::new(Bus::new());
    assert_eq!((cpu.a, cpu.x, cpu.y), (0, 0, 0));
    assert_eq!(cpu.sp, 0xFF);
    assert_eq!(cpu.pc, 0xFFFC);
    assert_eq!(cpu.p, StatusRegister(0));
    assert_eq!(cpu.interrupt, Some(Interrupt::Reset));
    assert_eq!(cpu.cycles, 0);
    assert_eq!(cpu.oam_slot, 1);
    assert_eq!(cpu.bus.region_count(), 2);
    assert_eq!(cpu.pending_dma(), None);
}

#[test]
fn reset_is_a_step_of_seven_cycles() {
    let mut cpu = with_program(&[0xA9, 0x12]);
    cpu.p = StatusRegister(0xF1);
    assert_eq!(cpu.tick(), Ok(7));
    assert_eq!(cpu.pc, 0x8000);
    assert_eq!(cpu.sp, 0xFC);
    assert_eq!(cpu.interrupt, None);
    assert!(cpu.p.i());
    assert_eq!(cpu.p, StatusRegister(0xF5));
    // The old program counter and the status without its break bits lie on
    // the stack.
    assert_eq!(cpu.bus.read_word(0x01FE), Ok(0xFFFC));
    assert_eq!(cpu.bus.read_byte(0x01FD), Ok(0xC1));
    assert_eq!(cpu.cycles, 7);
    assert_eq!(cpu.tick(), Ok(2));
    assert_eq!(cpu.a, 0x12);
    assert_eq!(cpu.pc, 0x8002);
    assert_eq!(cpu.cycles, 9);
}

#[test]
fn nmi_is_served_at_the_next_step() {
    let mut cpu = with_program(&[0xEA, 0xEA]);
    cpu.tick().unwrap();
    cpu.tick().unwrap();
    assert_eq!(cpu.pc, 0x8001);
    cpu.generate_nmi();
    assert_eq!(cpu.interrupt, Some(Interrupt::Nmi));
    assert_eq!(cpu.tick(), Ok(7));
    assert_eq!(cpu.pc, 0x9000);
    assert_eq!(cpu.pop_byte(), Ok(0x04));
    assert_eq!(cpu.pop_word(), Ok(0x8001));
}

#[test]
fn a_program_runs_instruction_by_instruction() {
    let mut cpu = with_program(&[
        0xA9, 0x12, // LDA #$12
        0x09, 0x01, // ORA #$01
        0x49, 0x01, // EOR #$01
        0x8D, 0xF0, 0x07, // STA $07F0
        0x69, 0x23, // ADC #$23
        0xE9, 0x05, // SBC #$05
        0x29, 0x10, // AND #$10
        0xC9, 0x10, // CMP #$10
    ]);
    assert_eq!(cpu.tick(), Ok(7));
    let cycles: Vec<usize> = (0..8).map(|_| cpu.tick().unwrap()).collect();
    assert_eq!(cycles, vec![2, 2, 2, 4, 2, 2, 2, 2]);
    assert_eq!(cpu.bus.read_byte(0x07F0), Ok(0x12));
    // 0x12 + 0x23 = 0x35; less 5 and the borrow of a clear carry 0x2F.
    assert_eq!(cpu.a, 0x00);
    assert!(!cpu.p.c());
    assert!(cpu.p.n());
    assert_eq!(cpu.pc, 0x8011);
    assert_eq!(cpu.cycles, 25);
}

#[test]
fn a_failing_step_reports_its_error() {
    let mut cpu = CPU::new(Bus::with_mode(BusMode::Strict));
    assert_eq!(cpu.tick(), Err(CoreError::InvalidRegion(0xFFFC)));
    assert_eq!(cpu.cycles, 0);
    // The three pushes of the interrupt entry were made.
    assert_eq!(cpu.sp, 0xFC);
    let mut cpu = with_program(&[0x02]);
    cpu.tick().unwrap();
    assert_eq!(cpu.tick(), Err(CoreError::OpcodeNotImplemented(0x02)));
    assert_eq!(cpu.pc, 0x8000);
    assert_eq!(cpu.cycles, 7);
    assert_eq!(cpu.run_control_op(0x01), Err(CoreError::OpcodeNotImplemented(0x01)));
    assert_eq!(cpu.run_unofficial_op(0x00), Err(CoreError::OpcodeNotImplemented(0x00)));
    assert_eq!(cpu.run_rwm_op(0xF2), Err(CoreError::OpcodeNotImplemented(0xF2)));
}

#[test]
fn oam_dma_copies_a_page_in_513_cycles() {
    let mut cpu = with_program(&[0xA9, 0x02, 0x8D, 0x14, 0x40]);
    let slot = cpu.bus.register_region(0x2000, 0x3FFF, video());
    for i in 0..256u16 {
        cpu.bus.write_byte(0x0200 + i, (i as u8) ^ 0xA5).unwrap();
    }
    cpu.tick().unwrap();
    assert_eq!(cpu.tick(), Ok(2));
    assert_eq!(cpu.tick(), Ok(4));
    assert_eq!(cpu.pending_dma(), Some(OamDmaRequest { address: 0x0200, length: 256 }));
    // 7 + 2 + 4 cycles were spent: the transfer starts on an odd cycle.
    assert_eq!(cpu.cycles, 13);
    assert_eq!(cpu.tick(), Ok(514));
    assert_eq!(cpu.pending_dma(), None);
    assert_eq!(cpu.pc, 0x8005);
    match cpu.bus.component(slot) {
        Some(Component::Video(ppu)) => {
            for i in 0..64usize {
                let entry = ppu.oam_entry(i);
                assert_eq!(entry.y, (4 * i) as u8 ^ 0xA5);
                assert_eq!(entry.tile_index, (4 * i + 1) as u8 ^ 0xA5);
                assert_eq!(entry.attributes, (4 * i + 2) as u8 ^ 0xA5);
                assert_eq!(entry.x, (4 * i + 3) as u8 ^ 0xA5);
            }
            assert_eq!(ppu.registers().oam_address, 0);
        },
        _ => panic!("the video unit is not in its slot"),
    }
    // Triggered by a write on the bus, on an even cycle.
    cpu.cycles = 20;
    cpu.bus.write_byte(0x4014, 0x02).unwrap();
    assert_eq!(cpu.tick(), Ok(513));
    assert_eq!(cpu.cycles, 533);
    match cpu.bus.component(cpu.oam_slot) {
        Some(Component::Dma(request)) => {
            assert_eq!(*request, OamDmaRequest { address: 0x0300, length: 0 })
        },
        _ => panic!("the transfer latch is not in its slot"),
    }
    assert_eq!(cpu.tick(), Ok(2));
    assert_eq!(cpu.pc, 0x8006);
}

#[test]
fn addressing_mode_tables() {
    let expected = [
        (AddressMode::Implied, 0, 0, 0),
        (AddressMode::Accumulator, 0, 1, 1),
        (AddressMode::Immediate, 1, 1, 1),
        (AddressMode::ZeroPage, 1, 2, 2),
        (AddressMode::ZeroPageX, 1, 3, 3),
        (AddressMode::ZeroPageY, 1, 3, 3),
        (AddressMode::Absolute, 2, 3, 3),
        (AddressMode::AbsoluteX, 2, 3, 4),
        (AddressMode::AbsoluteY, 2, 3, 4),
        (AddressMode::Indirect, 2, 5, 5),
        (AddressMode::IndirectX, 1, 5, 5),
        (AddressMode::IndirectY, 1, 4, 5),
    ];
    for (mode, size, cost, crossed) in expected {
        assert_eq!(mode.byte_code_size(), size);
        assert_eq!(mode.cycle_cost(false), cost);
        assert_eq!(mode.cycle_cost(true), crossed);
    }
    assert_eq!(AddressMode::from_code(0x00), AddressMode::Implied);
    assert_eq!(AddressMode::from_code(0x20), AddressMode::Absolute);
    assert_eq!(AddressMode::from_code(0x6C), AddressMode::Indirect);
    assert_eq!(AddressMode::from_code(0x0A), AddressMode::Accumulator);
    assert_eq!(AddressMode::from_code(0x8A), AddressMode::Implied);
    assert_eq!(AddressMode::from_code(0xA2), AddressMode::Immediate);
    assert_eq!(AddressMode::from_code(0xB6), AddressMode::ZeroPageY);
    assert_eq!(AddressMode::from_code(0xBE), AddressMode::AbsoluteY);
    assert_eq!(AddressMode::from_code(0xBC), AddressMode::AbsoluteX);
    assert_eq!(AddressMode::from_code(0xD0), AddressMode::Immediate);
    assert_eq!(AddressMode::from_code(0x91), AddressMode::IndirectY);
    assert_eq!(AddressMode::from_code(0xE1), AddressMode::IndirectX);
    assert_eq!(AddressMode::IndirectY.notation(), "(d),y");
    assert_eq!(AddressMode::Implied.notation(), "");
    assert_eq!(AddressMode::AbsoluteX.notation(), "a,x");
    assert_eq!(OpcodeGroup::from_code(0), OpcodeGroup::Ora);
    assert_eq!(OpcodeGroup::from_code(4), OpcodeGroup::Sta);
    assert_eq!(OpcodeGroup::from_code(7), OpcodeGroup::Sbc);
}

#[test]
fn reads_take_the_published_cycles() {
    // LDA in every mode, without and with a page crossing.
    let cases: [(u8, u8, u8, usize); 12] = [
        (0xA9, 0, 0, 2),
        (0xA5, 0, 0, 3),
        (0xB5, 1, 0, 4),
        (0xAD, 0, 0, 4),
        (0xBD, 0x01, 0, 4),
        (0xBD, 0xFF, 0, 5),
        (0xB9, 0, 0x01, 4),
        (0xB9, 0, 0xFF, 5),
        (0xA1, 0x04, 0, 6),
        (0xB1, 0, 0x01, 5),
        (0xB1, 0, 0xFF, 6),
        (0xA5, 0xFF, 0xFF, 3),
    ];
    for (opcode, x, y, cycles) in cases {
        let mut cpu = CPU::new(Bus::new());
        cpu.pc = 0x0200;
        cpu.x = x;
        cpu.y = y;
        cpu.bus.write_word(0x0201, 0x0310).unwrap();
        cpu.bus.write_word(0x0010, 0x0410).unwrap();
        cpu.bus.write_word(0x0014, 0x0410).unwrap();
        assert_eq!(cpu.run_alu_op(opcode), Ok(cycles), "opcode {:02X}", opcode);
        let size = AddressMode::from_code(opcode).byte_code_size();
        assert_eq!(cpu.pc, 0x0201 + size);
    }
    // A store pays for the crossing whether it happens or not.
    let mut cpu = CPU::new(Bus::new());
    cpu.pc = 0x0200;
    cpu.bus.write_word(0x0201, 0x0310).unwrap();
    assert_eq!(cpu.run_alu_op(0x9D), Ok(5));
}

#[test]
fn branches_take_two_three_or_four_cycles() {
    let mut cpu = CPU::new(Bus::new());
    cpu.pc = 0x0210;
    cpu.bus.write_byte(0x0211, 0x05).unwrap();
    cpu.p.set_z(false);
    assert_eq!(cpu.run_control_op(0xF0), Ok(2));
    assert_eq!(cpu.pc, 0x0212);
    cpu.pc = 0x0210;
    assert_eq!(cpu.run_control_op(0xD0), Ok(3));
    assert_eq!(cpu.pc, 0x0217);
    cpu.pc = 0x02FD;
    cpu.bus.write_byte(0x02FE, 0x05).unwrap();
    assert_eq!(cpu.run_control_op(0xD0), Ok(4));
    assert_eq!(cpu.pc, 0x0304);
    cpu.pc = 0x0300;
    cpu.bus.write_byte(0x0301, 0x80).unwrap();
    assert_eq!(cpu.branch(0x80, true), 4);
    assert_eq!(cpu.pc, 0x0282);
    for (opcode, flag) in [(0x10u8, 0x80u8), (0x50, 0x40), (0x90, 0x01), (0xD0, 0x02)] {
        cpu.p = StatusRegister(flag);
        assert!(!cpu.branch_taken(opcode));
        assert!(cpu.branch_taken(opcode | 0x20));
        cpu.p = StatusRegister(!flag);
        assert!(cpu.branch_taken(opcode));
        assert!(!cpu.branch_taken(opcode | 0x20));
    }
}

#[test]
fn stack_lives_in_the_second_page() {
    let mut cpu = CPU::new(Bus::new());
    cpu.sp = 0x00;
    cpu.push_byte(0x11).unwrap();
    assert_eq!(cpu.sp, 0xFF);
    assert_eq!(cpu.bus.read_byte(0x0100), Ok(0x11));
    cpu.push_word(0xBEEF).unwrap();
    assert_eq!(cpu.bus.read_byte(0x01FF), Ok(0xBE));
    assert_eq!(cpu.bus.read_byte(0x01FE), Ok(0xEF));
    assert_eq!(cpu.pop_word(), Ok(0xBEEF));
    assert_eq!(cpu.pop_byte(), Ok(0x11));
    assert_eq!(cpu.sp, 0x00);
}

#[test]
fn subroutines_and_interrupt_returns() {
    let mut cpu = with_program(&[0x20, 0x10, 0x80]);
    cpu.bus.write_byte(0x0000, 0).unwrap();
    cpu.tick().unwrap();
    cpu.sp = 0xFF;
    assert_eq!(cpu.tick(), Ok(6));
    assert_eq!(cpu.pc, 0x8010);
    assert_eq!(cpu.bus.read_word(0x01FE), Ok(0x8002));
    assert_eq!(cpu.run_control_op(0x60), Ok(6));
    assert_eq!(cpu.pc, 0x8003);
    // BRK pushes the address two bytes on and the status with its break bits.
    cpu.p = StatusRegister(0x81);
    assert_eq!(cpu.run_control_op(0x00), Ok(7));
    assert_eq!(cpu.pc, 0xA000);
    assert!(cpu.p.i());
    assert_eq!(cpu.bus.read_byte(0x01FD), Ok(0xB1));
    assert_eq!(cpu.run_control_op(0x40), Ok(6));
    assert_eq!(cpu.pc, 0x8005);
    assert_eq!(cpu.p, StatusRegister(0x81));
    cpu.a = 0x77;
    assert_eq!(cpu.run_control_op(0x48), Ok(3));
    cpu.a = 0;
    assert_eq!(cpu.run_control_op(0x68), Ok(4));
    assert_eq!(cpu.a, 0x77);
    assert_eq!(cpu.p, StatusRegister(0x01));
    assert_eq!(cpu.run_control_op(0x08), Ok(3));
    cpu.p = StatusRegister(0);
    assert_eq!(cpu.run_control_op(0x28), Ok(4));
    assert_eq!(cpu.p, StatusRegister(0x01));
}

#[test]
fn flag_instructions() {
    let mut cpu = CPU::new(Bus::new());
    cpu.pc = 0x0200;
    for (opcode, status) in [
        (0x38u8, 0x01u8),
        (0x78, 0x05),
        (0xF8, 0x0D),
        (0x18, 0x0C),
        (0x58, 0x08),
        (0xD8, 0x00),
    ] {
        assert_eq!(cpu.run_control_op(opcode), Ok(2));
        assert_eq!(cpu.p, StatusRegister(status));
    }
    cpu.p = StatusRegister(0xFF);
    assert_eq!(cpu.run_control_op(0xB8), Ok(2));
    assert_eq!(cpu.p, StatusRegister(0xBF));
    assert_eq!(cpu.pc, 0x0207);
    let mut status = StatusRegister(0);
    status.set_b(3);
    assert_eq!(status, StatusRegister(0x30));
    assert_eq!(status.b(), 3);
    status.set_n(true);
    status.set_v(true);
    status.set_d(true);
    assert!(status.n() && status.v() && status.d() && !status.i() && !status.z() && !status.c());
    let letters: String = status.letters().into_iter().collect();
    assert_eq!(letters, "NVuBDizc");
}

#[test]
fn bit_takes_its_flags_from_the_operand() {
    let mut cpu = CPU::new(Bus::new());
    cpu.a = 0x01;
    assert_eq!(cpu.bit(0xC0), 1);
    assert!(cpu.p.z() && cpu.p.n() && cpu.p.v());
    assert_eq!(cpu.bit(0x01), 1);
    assert!(!cpu.p.z() && !cpu.p.n() && !cpu.p.v());
}

#[test]
fn read_modify_write_cycles_and_memory() {
    let mut cpu = CPU::new(Bus::new());
    cpu.pc = 0x0200;
    cpu.bus.write_word(0x0201, 0x0310).unwrap();
    cpu.bus.write_byte(0x0310, 0x81).unwrap();
    // ASL $0310
    assert_eq!(cpu.run_rwm_op(0x0E), Ok(6));
    assert_eq!(cpu.bus.read_byte(0x0310), Ok(0x02));
    assert!(cpu.p.c());
    cpu.pc = 0x0200;
    // ROR $0310
    assert_eq!(cpu.run_rwm_op(0x6E), Ok(6));
    assert_eq!(cpu.bus.read_byte(0x0310), Ok(0x81));
    assert!(!cpu.p.c() && cpu.p.n());
    cpu.pc = 0x0200;
    cpu.x = 1;
    // INC $0310,X
    assert_eq!(cpu.run_rwm_op(0xFE), Ok(7));
    assert_eq!(cpu.bus.read_byte(0x0311), Ok(0x01));
    cpu.pc = 0x0200;
    // LSR A
    cpu.a = 0x03;
    assert_eq!(cpu.run_rwm_op(0x4A), Ok(2));
    assert_eq!(cpu.a, 0x01);
    assert!(cpu.p.c());
    assert_eq!(cpu.pc, 0x0201);
    // ROL A
    assert_eq!(cpu.run_rwm_op(0x2A), Ok(2));
    assert_eq!(cpu.a, 0x03);
    // LDX $0310,Y with a crossing
    cpu.pc = 0x0200;
    cpu.y = 0xF1;
    cpu.bus.write_byte(0x0401, 0x55).unwrap();
    assert_eq!(cpu.run_rwm_op(0xBE), Ok(5));
    assert_eq!(cpu.x, 0x55);
    // NOP
    assert_eq!(cpu.run_rwm_op(0xEA), Ok(2));
    assert_eq!(cpu.get_common_rwm_cycles(AddressMode::Accumulator), 1);
    assert_eq!(cpu.get_common_rwm_cycles(AddressMode::ZeroPage), 3);
    assert_eq!(cpu.get_common_rwm_cycles(AddressMode::AbsoluteX), 3);
    assert_eq!(cpu.nop(AddressMode::Implied), Ok(2));
}

#[test]
fn undocumented_instructions() {
    let mut cpu = CPU::new(Bus::new());
    cpu.pc = 0x0200;
    cpu.bus.write_byte(0x0201, 0x10).unwrap();
    cpu.bus.write_byte(0x0010, 0x81).unwrap();
    // LAX $10
    assert_eq!(cpu.run_unofficial_op(0xA7), Ok(3));
    assert_eq!((cpu.a, cpu.x), (0x81, 0x81));
    assert!(cpu.p.n());
    // SLO $10: the byte is shifted, then or-ed into the accumulator.
    cpu.pc = 0x0200;
    cpu.a = 0x01;
    assert_eq!(cpu.run_unofficial_op(0x07), Ok(5));
    assert_eq!(cpu.bus.read_byte(0x0010), Ok(0x02));
    assert_eq!(cpu.a, 0x03);
    assert!(cpu.p.c());
    // DCP $10: the byte is decremented, then compared.
    cpu.pc = 0x0200;
    cpu.a = 0x01;
    assert_eq!(cpu.run_unofficial_op(0xC7), Ok(5));
    assert_eq!(cpu.bus.read_byte(0x0010), Ok(0x01));
    assert!(cpu.p.z() && cpu.p.c());
    // ISC $10: the byte is incremented, then subtracted.
    cpu.pc = 0x0200;
    cpu.a = 0x05;
    assert_eq!(cpu.run_unofficial_op(0xE7), Ok(5));
    assert_eq!(cpu.bus.read_byte(0x0010), Ok(0x02));
    assert_eq!(cpu.a, 0x03);
    // SAX $10
    cpu.pc = 0x0200;
    cpu.a = 0x0F;
    cpu.x = 0x3C;
    assert_eq!(cpu.run_unofficial_op(0x87), Ok(3));
    assert_eq!(cpu.bus.read_byte(0x0010), Ok(0x0C));
    // ANC, ALR, ARR, AXS, XAA
    assert_eq!(cpu.anc(0x80), 1);
    assert_eq!(cpu.a, 0x00);
    assert!(!cpu.p.c());
    cpu.a = 0xFF;
    assert_eq!(cpu.anc(0x80), 1);
    assert!(cpu.p.c() && cpu.p.n());
    cpu.a = 0x03;
    assert_eq!(cpu.alr(0x03), Ok(1));
    assert_eq!(cpu.a, 0x01);
    assert!(cpu.p.c());
    cpu.a = 0xFF;
    cpu.x = 0x0F;
    assert_eq!(cpu.axs(0x10), 1);
    assert_eq!(cpu.x, 0xFF);
    assert!(cpu.p.c());
    assert_eq!(cpu.xaa(0xF0), 1);
    assert_eq!(cpu.a, 0xF0);
    cpu.sp = 0x3C;
    assert_eq!(cpu.las(0x0F), 1);
    assert_eq!((cpu.a, cpu.x, cpu.sp), (0x0C, 0x0C, 0x0C));
    assert_eq!(cpu.lxa(0), 1);
    assert_eq!((cpu.a, cpu.x), (0, 0));
    // SHY $0310,X stores Y and-ed with the high byte of the address.
    cpu.pc = 0x0200;
    cpu.bus.write_word(0x0201, 0x0310).unwrap();
    cpu.x = 0;
    cpu.y = 0xFF;
    assert_eq!(cpu.run_control_op(0x9C), Ok(5));
    assert_eq!(cpu.bus.read_byte(0x0310), Ok(0x03));
}

/// The cycles that the timing tables of the processor family give each
/// documented opcode when no page is crossed, with all flags clear: BPL,
/// BVC, BCC and BNE are taken then, the other branches are not.
const PUBLISHED: [(u8, usize); 151] = [
    (0x00, 7), (0x01, 6), (0x05, 3), (0x06, 5), (0x08, 3), (0x09, 2), (0x0A, 2), (0x0D, 4),
    (0x0E, 6), (0x10, 3), (0x11, 5), (0x15, 4), (0x16, 6), (0x18, 2), (0x19, 4), (0x1D, 4),
    (0x1E, 7), (0x20, 6), (0x21, 6), (0x24, 3), (0x25, 3), (0x26, 5), (0x28, 4), (0x29, 2),
    (0x2A, 2), (0x2C, 4), (0x2D, 4), (0x2E, 6), (0x30, 2), (0x31, 5), (0x35, 4), (0x36, 6),
    (0x38, 2), (0x39, 4), (0x3D, 4), (0x3E, 7), (0x40, 6), (0x41, 6), (0x45, 3), (0x46, 5),
    (0x48, 3), (0x49, 2), (0x4A, 2), (0x4C, 3), (0x4D, 4), (0x4E, 6), (0x50, 3), (0x51, 5),
    (0x55, 4), (0x56, 6), (0x58, 2), (0x59, 4), (0x5D, 4), (0x5E, 7), (0x60, 6), (0x61, 6),
    (0x65, 3), (0x66, 5), (0x68, 4), (0x69, 2), (0x6A, 2), (0x6C, 5), (0x6D, 4), (0x6E, 6),
    (0x70, 2), (0x71, 5), (0x75, 4), (0x76, 6), (0x78, 2), (0x79, 4), (0x7D, 4), (0x7E, 7),
    (0x81, 6), (0x84, 3), (0x85, 3), (0x86, 3), (0x88, 2), (0x8A, 2), (0x8C, 4), (0x8D, 4),
    (0x8E, 4), (0x90, 3), (0x91, 6), (0x94, 4), (0x95, 4), (0x96, 4), (0x98, 2), (0x99, 5),
    (0x9A, 2), (0x9D, 5), (0xA0, 2), (0xA1, 6), (0xA2, 2), (0xA4, 3), (0xA5, 3), (0xA6, 3),
    (0xA8, 2), (0xA9, 2), (0xAA, 2), (0xAC, 4), (0xAD, 4), (0xAE, 4), (0xB0, 2), (0xB1, 5),
    (0xB4, 4), (0xB5, 4), (0xB6, 4), (0xB8, 2), (0xB9, 4), (0xBA, 2), (0xBC, 4), (0xBD, 4),
    (0xBE, 4), (0xC0, 2), (0xC1, 6), (0xC4, 3), (0xC5, 3), (0xC6, 5), (0xC8, 2), (0xC9, 2),
    (0xCA, 2), (0xCC, 4), (0xCD, 4), (0xCE, 6), (0xD0, 3), (0xD1, 5), (0xD5, 4), (0xD6, 6),
    (0xD8, 2), (0xD9, 4), (0xDD, 4), (0xDE, 7), (0xE0, 2), (0xE1, 6), (0xE4, 3), (0xE5, 3),
    (0xE6, 5), (0xE8, 2), (0xE9, 2), (0xEA, 2), (0xEC, 4), (0xED, 4), (0xEE, 6), (0xF0, 2),
    (0xF1, 5), (0xF5, 4), (0xF6, 6), (0xF8, 2), (0xF9, 4), (0xFD, 4), (0xFE, 7),
];

#[test]
fn documented_opcodes_take_the_published_cycles() {
    for (opcode, cycles) in PUBLISHED {
        let mut cpu = CPU::new(Bus::new());
        cpu.interrupt = None;
        cpu.pc = 0x0200;
        cpu.sp = 0x80;
        cpu.bus.write_byte(0x0200, opcode).unwrap();
        cpu.bus.write_word(0x0201, 0x0310).unwrap();
        assert_eq!(cpu.tick(), Ok(cycles), "opcode {:02X}", opcode);
    }
}

#[test]
fn indexed_reads_pay_for_a_page_crossing() {
    // LDA, LDX, LDY, AND, CMP in the indexed modes: one cycle more when the
    // index carries into the next page.
    for (opcode, cycles) in [
        (0xBDu8, 5usize),
        (0xB9, 5),
        (0xB1, 6),
        (0xBE, 5),
        (0xBC, 5),
        (0x3D, 5),
        (0xD9, 5),
    ] {
        let mut cpu = CPU::new(Bus::new());
        cpu.interrupt = None;
        cpu.pc = 0x0200;
        cpu.x = 0xFF;
        cpu.y = 0xFF;
        cpu.bus.write_byte(0x0200, opcode).unwrap();
        cpu.bus.write_word(0x0201, 0x0310).unwrap();
        cpu.bus.write_word(0x0010, 0x0410).unwrap();
        assert_eq!(cpu.tick(), Ok(cycles), "opcode {:02X}", opcode);
    }
}

/// A cartridge that repeats `program` from 0x8000 on and holds the reset
/// vector 0x8000.
fn test_cartridge(program: &[u8]) -> Component {
    let mut data: Vec<u8> = (0..0x8000).map(|i| program[i % program.len()]).collect();
    data[0x7FFC] = 0x00;
    data[0x7FFD] = 0x80;
    Component::Nrom(Nrom::new(&data, 2))
}

#[test]
fn test_cpu_alu() {
    let program = vec![
        0xA9u8, 0x12u8, 0x09u8, 0x1u8, 0x49u8, 0x1u8, 0x8Du8, 0xF0u8, 0x7u8, 0x69u8, 0x23u8,
        0xe9u8, 0x5u8, 0x29u8, 0x10u8, 0xc9u8, 0x10u8,
    ];

    let mut cpu = CPU::new(Bus::new());
    cpu.bus.register_region(0x8000u16, 0xFFFFu16, test_cartridge(&program));

    for _ in 0..8 {
        cpu.tick().unwrap();
    }

    assert_eq!(cpu.a, 0x00);
    assert_eq!(cpu.p.c(), true);
}

#[test]
fn oam_dma_fills_the_table_from_the_object_address() {
    let mut cpu = CPU::new(Bus::new());
    cpu.interrupt = None;
    let slot = cpu.bus.register_region(0x2000, 0x3FFF, video());
    for i in 0..256u16 {
        cpu.bus.write_byte(0x0300 + i, i as u8).unwrap();
    }
    cpu.bus.write_byte(0x2003, 0x10).unwrap();
    cpu.bus.write_byte(0x4014, 0x03).unwrap();
    let before = (cpu.a, cpu.x, cpu.y, cpu.sp, cpu.pc, cpu.p);
    assert_eq!(cpu.tick(), Ok(513));
    assert_eq!((cpu.a, cpu.x, cpu.y, cpu.sp, cpu.pc, cpu.p), before);
    assert_eq!(cpu.pending_dma(), None);
    match cpu.bus.component(slot) {
        Some(Component::Video(ppu)) => {
            // Byte k of the page lies k places behind place 0x10.
            assert_eq!(ppu.oam_entry(4).y, 0);
            assert_eq!(ppu.oam_entry(4).x, 3);
            assert_eq!(ppu.oam_entry(63).x, 0xEF);
            assert_eq!(ppu.oam_entry(0).y, 0xF0);
            assert_eq!(ppu.oam_entry(3).x, 0xFF);
            assert_eq!(ppu.registers().oam_address, 0x10);
        },
        _ => panic!("the video unit is not in its slot"),
    }
    assert_eq!(cpu.bus.read_byte(0x0300), Ok(0));
    assert_eq!(cpu.bus.read_byte(0x03FF), Ok(0xFF));
}

#[test]
fn oam_dma_fails_on_a_strict_bus_without_the_page() {
    let mut cpu = CPU::new(Bus::with_mode(BusMode::Strict));
    cpu.interrupt = None;
    cpu.bus.register_region(0x2000, 0x3FFF, video());
    cpu.bus.write_byte(0x4014, 0x50).unwrap();
    assert_eq!(cpu.tick(), Err(CoreError::InvalidRegion(0x5000)));
    assert_eq!(cpu.cycles, 0);
}
