use rnes::bus::Bus;
use rnes::cpu::processor::CPU;
use rnes::component::Component;
use rnes::cpu::address_mode::AddressMode;
use rnes::rom::nrom::Nrom;

/// A cartridge whose last two bytes hold the vector 0x8000 and whose other
/// bytes are 0xFF.
fn vector_mock() -> Component {
    let mut data = vec![0xFFu8; 0x4000];
    data[0x3FFE] = 0x00;
    data[0x3FFF] = 0x80;
    Component::Nrom(Nrom::new(&data, 1))
}

/// Runs the branch `opcode` on the operand behind the program counter and
/// returns its cycles.
fn branch(cpu: &mut CPU, opcode: u8) -> usize {
    let (operand, _) = cpu.read_operand(AddressMode::from_code(opcode)).unwrap();
    let taken = cpu.branch_taken(opcode);
    cpu.branch(operand, taken)
}

#[test]
fn test_break() {
    let mut cpu = CPU::new(Bus::new());
    cpu.bus.register_region(0xFFFE, 0xFFFF, vector_mock());

    cpu.p.0 = 0x80;
    cpu.pc = 0x4040u16;
    cpu.sp = 0xFFu8;
    cpu.brk().unwrap();
    let pc_result = cpu.bus.read_word(0x01FEu16).unwrap();
    let p_result = cpu.bus.read_byte(0x01FDu16).unwrap();
    assert_eq!(cpu.pc, 0x8000u16);
    assert_eq!(pc_result, 0x4042u16);
    assert_eq!(p_result, 0xB0u8);
    assert_eq!(cpu.sp, 0xFCu8);
    assert!(cpu.p.i());
}

#[test]
fn test_php() {
    let mut cpu = CPU::new(Bus::new());

    cpu.p.0 = 0x80u8;
    cpu.sp = 0xFFu8;
    cpu.php().unwrap();

    let result = cpu.bus.read_byte(0x01FFu16).unwrap();
    assert_eq!(result, 0xB0u8);
    assert_eq!(cpu.sp, 0xFEu8);
}

#[test]
fn test_plp() {
    let mut cpu = CPU::new(Bus::new());

    cpu.p.0 = 0x80u8;
    cpu.sp = 0xFEu8;
    cpu.bus.write_byte(0x01FFu16, 0x81u8).unwrap();
    cpu.plp().unwrap();

    assert_eq!(cpu.sp, 0xFFu8);
    assert_eq!(cpu.p.0, 0x81u8);
}

#[test]
fn test_pha() {
    let mut cpu = CPU::new(Bus::new());

    cpu.sp = 0xFFu8;
    cpu.a = 0x8Eu8;
    cpu.pha().unwrap();

    assert_eq!(cpu.sp, 0xFEu8);
}

#[test]
fn test_pla_zero() {
    let mut cpu = CPU::new(Bus::new());

    cpu.bus.write_byte(0xFFu16, 0).unwrap();
    cpu.sp = 0xFEu8;
    cpu.pla().unwrap();

    assert_eq!(cpu.sp, 0xFFu8);
    assert!(cpu.p.z());
    assert!(!cpu.p.n());
}

#[test]
fn test_pla_positive() {
    let mut cpu = CPU::new(Bus::new());

    cpu.bus.write_byte(0x01FFu16, 1).unwrap();
    cpu.sp = 0xFEu8;
    cpu.pla().unwrap();

    assert_eq!(cpu.sp, 0xFFu8);
    assert!(!cpu.p.z());
    assert!(!cpu.p.n());
}

#[test]
fn test_pla_negative() {
    let mut cpu = CPU::new(Bus::new());

    cpu.bus.write_byte(0x01FFu16, 0x80).unwrap();
    cpu.sp = 0xFEu8;
    cpu.pla().unwrap();

    assert_eq!(cpu.sp, 0xFFu8);
    assert!(!cpu.p.z());
    assert!(cpu.p.n());
}

#[test]
fn test_bpl_take_branch_change_page() {
    let mut cpu = CPU::new(Bus::new());

    cpu.bus.write_byte(0xFFu16, 0x3u8).unwrap();
    cpu.pc = 0xFE;

    let cycles = branch(&mut cpu, 0x10u8);

    assert_eq!(cpu.pc, 0x103u16);
    assert_eq!(cycles, 4);
}

#[test]
fn test_bpl_take_branch() {
    let mut cpu = CPU::new(Bus::new());

    cpu.bus.write_byte(0x1u16, 0x3u8).unwrap();
    cpu.pc = 0x0;

    let cycles = branch(&mut cpu, 0x10u8);

    assert_eq!(cpu.pc, 0x5u16);
    assert_eq!(cycles, 3);
}

#[test]
fn test_bpl_miss_branch() {
    let mut cpu = CPU::new(Bus::new());

    cpu.bus.write_byte(0x1u16, 0x3u8).unwrap();
    cpu.pc = 0x0;
    cpu.p.set_n(true);

    let cycles = branch(&mut cpu, 0x10u8);

    assert_eq!(cpu.pc, 0x0u16);
    assert_eq!(cycles, 2);
}

#[test]
fn test_bmi_take_branch() {
    let mut cpu = CPU::new(Bus::new());

    cpu.bus.write_byte(0x1u16, 0x3u8).unwrap();
    cpu.pc = 0x0;
    cpu.p.set_n(true);

    let cycles = branch(&mut cpu, 0x30u8);

    assert_eq!(cpu.pc, 0x5u16);
    assert_eq!(cycles, 3);
}

#[test]
fn test_bmi_miss_branch() {
    let mut cpu = CPU::new(Bus::new());

    cpu.bus.write_byte(0x1u16, 0x3u8).unwrap();
    cpu.pc = 0x0;

    let cycles = branch(&mut cpu, 0x30u8);

    assert_eq!(cpu.pc, 0x0u16);
    assert_eq!(cycles, 2);
}

#[test]
fn test_bvc_take_branch() {
    let mut cpu = CPU::new(Bus::new());

    cpu.bus.write_byte(0x1u16, 0x3u8).unwrap();
    cpu.pc = 0x0;

    let cycles = branch(&mut cpu, 0x50u8);

    assert_eq!(cpu.pc, 0x5u16);
    assert_eq!(cycles, 3);
}

#[test]
fn test_bvc_miss_branch() {
    let mut cpu = CPU::new(Bus::new());

    cpu.bus.write_byte(0x1u16, 0x3u8).unwrap();
    cpu.pc = 0x0;
    cpu.p.set_v(true);

    let cycles = branch(&mut cpu, 0x50u8);

    assert_eq!(cpu.pc, 0x0u16);
    assert_eq!(cycles, 2);
}

#[test]
fn test_bvs_take_branch() {
    let mut cpu = CPU::new(Bus::new());

    cpu.bus.write_byte(0x1u16, 0x3u8).unwrap();
    cpu.pc = 0x0;
    cpu.p.set_v(true);

    let cycles = branch(&mut cpu, 0x70u8);

    assert_eq!(cpu.pc, 0x5u16);
    assert_eq!(cycles, 3);
}

#[test]
fn test_bvs_miss_branch() {
    let mut cpu = CPU::new(Bus::new());

    cpu.bus.write_byte(0x1u16, 0x3u8).unwrap();
    cpu.pc = 0x0;

    let cycles = branch(&mut cpu, 0x70u8);

    assert_eq!(cpu.pc, 0x0u16);
    assert_eq!(cycles, 2);
}

#[test]
fn test_bcc_take_branch() {
    let mut cpu = CPU::new(Bus::new());

    cpu.bus.write_byte(0x1u16, 0x3u8).unwrap();
    cpu.pc = 0x0;

    let cycles = branch(&mut cpu, 0x90u8);

    assert_eq!(cpu.pc, 0x5u16);
    assert_eq!(cycles, 3);
}

#[test]
fn test_bcc_miss_branch() {
    let mut cpu = CPU::new(Bus::new());

    cpu.bus.write_byte(0x1u16, 0x3u8).unwrap();
    cpu.pc = 0x0;
    cpu.p.set_c(true);

    let cycles = branch(&mut cpu, 0x90u8);

    assert_eq!(cpu.pc, 0x0u16);
    assert_eq!(cycles, 2);
}

#[test]
fn test_bcs_take_branch() {
    let mut cpu = CPU::new(Bus::new());

    cpu.bus.write_byte(0x1u16, 0x3u8).unwrap();
    cpu.pc = 0x0;
    cpu.p.set_c(true);

    let cycles = branch(&mut cpu, 0xB0u8);

    assert_eq!(cpu.pc, 0x5u16);
    assert_eq!(cycles, 3);
}

#[test]
fn test_bcs_miss_branch() {
    let mut cpu = CPU::new(Bus::new());

    cpu.bus.write_byte(0x1u16, 0x3u8).unwrap();
    cpu.pc = 0x0;

    let cycles = branch(&mut cpu, 0xB0u8);

    assert_eq!(cpu.pc, 0x0u16);
    assert_eq!(cycles, 2);
}

#[test]
fn test_bne_take_branch() {
    let mut cpu = CPU::new(Bus::new());

    cpu.bus.write_byte(0x1u16, 0x3u8).unwrap();
    cpu.pc = 0x0;

    let cycles = branch(&mut cpu, 0xD0u8);

    assert_eq!(cpu.pc, 0x5u16);
    assert_eq!(cycles, 3);
}

#[test]
fn test_bne_miss_branch() {
    let mut cpu = CPU::new(Bus::new());

    cpu.bus.write_byte(0x1u16, 0x3u8).unwrap();
    cpu.pc = 0x0;
    cpu.p.set_z(true);

    let cycles = branch(&mut cpu, 0xD0u8);

    assert_eq!(cpu.pc, 0x0u16);
    assert_eq!(cycles, 2);
}

#[test]
fn test_beq_take_branch() {
    let mut cpu = CPU::new(Bus::new());

    cpu.bus.write_byte(0x1u16, 0x3u8).unwrap();
    cpu.pc = 0x0;
    cpu.p.set_z(true);

    let cycles = branch(&mut cpu, 0xF0u8);

    assert_eq!(cpu.pc, 0x5u16);
    assert_eq!(cycles, 3);
}

#[test]
fn test_beq_miss_branch() {
    let mut cpu = CPU::new(Bus::new());

    cpu.bus.write_byte(0x1u16, 0x3u8).unwrap();
    cpu.pc = 0x0;

    let cycles = branch(&mut cpu, 0xF0u8);

    assert_eq!(cpu.pc, 0x0u16);
    assert_eq!(cycles, 2);
}

#[test]
fn test_negative_branch() {
    let mut cpu = CPU::new(Bus::new());

    cpu.bus.write_byte(0x11u16, 0xFCu8).unwrap();
    cpu.pc = 0x10;

    let cycles = branch(&mut cpu, 0x10u8);

    assert_eq!(cpu.pc, 0xEu16);
    assert_eq!(cycles, 3);
}

#[test]
fn test_jsr() {
    let mut cpu = CPU::new(Bus::new());

    cpu.bus.write_word(0x9u16, 0xDEADu16).unwrap();
    cpu.pc = 8u16;
    cpu.sp = 0xFFu8;

    cpu.jsr().unwrap();

    let result = cpu.bus.read_word(0x01FEu16).unwrap();
    assert_eq!(result, 10u16);
    assert_eq!(cpu.sp, 0xFDu8);
    assert_eq!(cpu.pc, 0xDEADu16);
}

#[test]
fn test_bit_zero_page() {
    let mut cpu = CPU::new(Bus::new());

    {
        cpu.bus.write_byte(0x80u16, 0x80u8).unwrap();
        cpu.bus.write_byte(0x1u16, 0x80u8).unwrap();
    }

    cpu.pc = 0x0u16;
    cpu.a = 0x81u8;
    cpu.run_control_op(0x24u8).unwrap();

    assert_eq!(cpu.a, 0x81u8);
    assert!(!cpu.p.z());
    assert!(!cpu.p.v());
    assert!(cpu.p.n());
}

#[test]
fn test_bit_absolute() {
    let mut cpu = CPU::new(Bus::new());

    {
        cpu.bus.write_word(0x1u16, 0x715u16).unwrap();
        cpu.bus.write_byte(0x715u16, 0x80u8).unwrap();
    }

    cpu.pc = 0x0u16;
    cpu.a = 0x81u8;
    cpu.run_control_op(0x2Cu8).unwrap();

    assert_eq!(cpu.a, 0x81u8);
    assert!(!cpu.p.z());
    assert!(!cpu.p.v());
    assert!(cpu.p.n());
}

#[test]
fn test_bit_zero() {
    let mut cpu = CPU::new(Bus::new());

    {
        cpu.bus.write_word(0x1u16, 0x715u16).unwrap();
        cpu.bus.write_byte(0x715u16, 0x80u8).unwrap();
    }

    cpu.pc = 0x0u16;
    cpu.a = 0x1u8;
    cpu.run_control_op(0x2Cu8).unwrap();

    assert_eq!(cpu.a, 0x1u8);
    assert!(cpu.p.z());
    assert!(!cpu.p.v());
    assert!(cpu.p.n());
}

#[test]
fn test_bit_overflow() {
    let mut cpu = CPU::new(Bus::new());

    {
        cpu.bus.write_word(0x1u16, 0x715u16).unwrap();
        cpu.bus.write_byte(0x715u16, 0x40u8).unwrap();
    }

    cpu.pc = 0x0u16;
    cpu.a = 0x41u8;
    cpu.run_control_op(0x2Cu8).unwrap();

    assert_eq!(cpu.a, 0x41u8);
    assert!(!cpu.p.z());
    assert!(cpu.p.v());
    assert!(!cpu.p.n());
}

#[test]
fn test_rti() {
    let mut cpu = CPU::new(Bus::new());

    cpu.push_word(0x500u16).unwrap();
    cpu.push_byte(0x80u8).unwrap();

    cpu.rti().unwrap();

    assert_eq!(cpu.p.0, 0x80u8);
    assert_eq!(cpu.pc, 0x500u16);
}

#[test]
fn test_rts() {
    let mut cpu = CPU::new(Bus::new());

    cpu.push_word(0x500u16).unwrap();

    cpu.rts().unwrap();

    assert_eq!(cpu.pc, 0x500u16);
}

#[test]
fn test_jmp_absolute() {
    let mut cpu = CPU::new(Bus::new());

    cpu.bus.write_word(0x1u16, 0xAABBu16).unwrap();
    cpu.pc = 0;
    cpu.run_control_op(0x4Cu8).unwrap();

    assert_eq!(cpu.pc, 0xAABBu16);
}

#[test]
fn test_jmp_indirect() {
    let mut cpu = CPU::new(Bus::new());

    {
        cpu.bus.write_word(0x1u16, 0x716u16).unwrap();
        cpu.bus.write_word(0x716u16, 0xAABBu16).unwrap();
    }

    cpu.pc = 0;
    cpu.run_control_op(0x6Cu8).unwrap();

    assert_eq!(cpu.pc, 0xAABBu16);
}

#[test]
fn test_jmp_indirect_page_bug() {
    let mut cpu = CPU::new(Bus::new());

    {
        cpu.bus.write_word(0x1u16, 0x6FFu16).unwrap();
        cpu.bus.write_byte(0x6FFu16, 0xBBu8).unwrap();
        cpu.bus.write_byte(0x600u16, 0xAAu8).unwrap();
    }

    cpu.pc = 0;
    cpu.run_control_op(0x6Cu8).unwrap();

    assert_eq!(cpu.pc, 0xAABBu16);
}

#[test]
fn test_sty_zero_page() {
    let mut cpu = CPU::new(Bus::new());

    cpu.bus.write_byte(0x1u16, 0x8u8).unwrap();

    cpu.y = 0xABu8;
    cpu.pc = 0u16;
    cpu.run_control_op(0x84u8).unwrap();

    let result = cpu.bus.read_byte(0x8u16).unwrap();
    assert_eq!(result, 0xABu8);
}

#[test]
fn test_sty_zero_page_x() {
    let mut cpu = CPU::new(Bus::new());

    cpu.bus.write_byte(0x1u16, 0x8u8).unwrap();

    cpu.x = 0x2u8;
    cpu.y = 0xABu8;
    cpu.pc = 0u16;
    cpu.run_control_op(0x94u8).unwrap();

    let result = cpu.bus.read_byte(0xAu16).unwrap();
    assert_eq!(result, 0xABu8);
}

#[test]
fn test_sty_absolute() {
    let mut cpu = CPU::new(Bus::new());

    cpu.bus.write_word(0x1u16, 0x701u16).unwrap();

    cpu.y = 0xABu8;
    cpu.pc = 0u16;
    cpu.run_control_op(0x8Cu8).unwrap();

    let result = cpu.bus.read_byte(0x701u16).unwrap();
    assert_eq!(result, 0xABu8);
}

#[test]
fn test_dey_zero() {
    let mut cpu = CPU::new(Bus::new());

    cpu.y = 1;
    cpu.dey();

    assert_eq!(cpu.y, 0);
    assert!(cpu.p.z());
    assert!(!cpu.p.n());
}

#[test]
fn test_dey_positive() {
    let mut cpu = CPU::new(Bus::new());

    cpu.y = 8;
    cpu.dey();

    assert_eq!(cpu.y, 7);
    assert!(!cpu.p.z());
    assert!(!cpu.p.n());
}

#[test]
fn test_dey_negative() {
    let mut cpu = CPU::new(Bus::new());

    cpu.y = 0x81u8;
    cpu.dey();

    assert_eq!(cpu.y, 0x80u8);
    assert!(!cpu.p.z());
    assert!(cpu.p.n());
}

#[test]
fn test_tya_zero() {
    let mut cpu = CPU::new(Bus::new());

    cpu.y = 0;
    cpu.a = 5;
    cpu.tya();

    assert_eq!(cpu.a, 0);
    assert!(cpu.p.z());
    assert!(!cpu.p.n());
}

#[test]
fn test_tya_positive() {
    let mut cpu = CPU::new(Bus::new());

    cpu.y = 8;
    cpu.a = 0;
    cpu.tya();

    assert_eq!(cpu.a, 8);
    assert!(!cpu.p.z());
    assert!(!cpu.p.n());
}

#[test]
fn test_tya_negative() {
    let mut cpu = CPU::new(Bus::new());

    cpu.y = 0x81u8;
    cpu.a = 0;
    cpu.tya();

    assert_eq!(cpu.a, 0x81u8);
    assert!(!cpu.p.z());
    assert!(cpu.p.n());
}

#[test]
fn test_tay_zero() {
    let mut cpu = CPU::new(Bus::new());

    cpu.y = 5;
    cpu.a = 0;
    cpu.tay();

    assert_eq!(cpu.y, 0);
    assert!(cpu.p.z());
    assert!(!cpu.p.n());
}

#[test]
fn test_tay_positive() {
    let mut cpu = CPU::new(Bus::new());

    cpu.y = 0;
    cpu.a = 8;
    cpu.tay();

    assert_eq!(cpu.y, 8);
    assert!(!cpu.p.z());
    assert!(!cpu.p.n());
}

#[test]
fn test_tay_negative() {
    let mut cpu = CPU::new(Bus::new());

    cpu.a = 0x81u8;
    cpu.y = 0;
    cpu.tay();

    assert_eq!(cpu.y, 0x81u8);
    assert!(!cpu.p.z());
    assert!(cpu.p.n());
}

#[test]
fn test_ldy() {
    let mut cpu = CPU::new(Bus::new());

    cpu.bus.write_byte(0x1u16, 0xABu8).unwrap();
    cpu.pc = 0;
    cpu.run_control_op(0xA0).unwrap();

    assert_eq!(cpu.y, 0xABu8);
}

#[test]
fn test_cpy_zero() {
    let mut cpu = CPU::new(Bus::new());

    cpu.bus.write_byte(0x1, 8).unwrap();

    cpu.pc = 0;
    cpu.y = 8;
    cpu.run_control_op(0xC0).unwrap();

    assert_eq!(cpu.y, 8);
    assert!(cpu.p.z());
    assert!(!cpu.p.n());
    assert!(cpu.p.c());
}

#[test]
fn test_cpy_carry() {
    let mut cpu = CPU::new(Bus::new());

    cpu.bus.write_byte(0x1, 8).unwrap();

    cpu.pc = 0;
    cpu.y = 9;
    cpu.run_control_op(0xC0).unwrap();

    assert_eq!(cpu.y, 9);
    assert!(!cpu.p.z());
    assert!(!cpu.p.n());
    assert!(cpu.p.c());
}

#[test]
fn test_cpy_negative() {
    let mut cpu = CPU::new(Bus::new());

    cpu.bus.write_byte(0x1, 9).unwrap();

    cpu.pc = 0;
    cpu.y = 8;
    cpu.run_control_op(0xC0).unwrap();

    assert_eq!(cpu.y, 8);
    assert!(!cpu.p.z());
    assert!(cpu.p.n());
    assert!(!cpu.p.c());
}

#[test]
fn test_cpx_zero() {
    let mut cpu = CPU::new(Bus::new());

    cpu.bus.write_byte(0x1, 8).unwrap();

    cpu.pc = 0;
    cpu.x = 8;
    cpu.run_control_op(0xE0).unwrap();

    assert_eq!(cpu.x, 8);
    assert!(cpu.p.z());
    assert!(!cpu.p.n());
    assert!(cpu.p.c());
}

#[test]
fn test_cpx_carry() {
    let mut cpu = CPU::new(Bus::new());

    cpu.bus.write_byte(0x1, 8).unwrap();

    cpu.pc = 0;
    cpu.x = 9;
    cpu.run_control_op(0xE0).unwrap();

    assert_eq!(cpu.x, 9);
    assert!(!cpu.p.z());
    assert!(!cpu.p.n());
    assert!(cpu.p.c());
}

#[test]
fn test_cpx_negative() {
    let mut cpu = CPU::new(Bus::new());

    cpu.bus.write_byte(0x1, 9).unwrap();

    cpu.pc = 0;
    cpu.x = 8;
    cpu.run_control_op(0xE0).unwrap();

    assert_eq!(cpu.x, 8);
    assert!(!cpu.p.z());
    assert!(cpu.p.n());
    assert!(!cpu.p.c());
}

#[test]
fn test_iny_zero() {
    let mut cpu = CPU::new(Bus::new());

    cpu.y = 0xFF;
    cpu.iny();

    assert_eq!(cpu.y, 0);
    assert!(cpu.p.z());
    assert!(!cpu.p.n());
}

#[test]
fn test_iny_positive() {
    let mut cpu = CPU::new(Bus::new());

    cpu.y = 8;
    cpu.iny();

    assert_eq!(cpu.y, 9);
    assert!(!cpu.p.z());
    assert!(!cpu.p.n());
}

#[test]
fn test_iny_negative() {
    let mut cpu = CPU::new(Bus::new());

    cpu.y = 0x81u8;
    cpu.iny();

    assert_eq!(cpu.y, 0x82u8);
    assert!(!cpu.p.z());
    assert!(cpu.p.n());
}

#[test]
fn test_inx_zero() {
    let mut cpu = CPU::new(Bus::new());

    cpu.x = 0xFF;
    cpu.inx();

    assert_eq!(cpu.x, 0);
    assert!(cpu.p.z());
    assert!(!cpu.p.n());
}

#[test]
fn test_inx_positive() {
    let mut cpu = CPU::new(Bus::new());

    cpu.x = 8;
    cpu.inx();

    assert_eq!(cpu.x, 9);
    assert!(!cpu.p.z());
    assert!(!cpu.p.n());
}

#[test]
fn test_inx_negative() {
    let mut cpu = CPU::new(Bus::new());

    cpu.x = 0x81u8;
    cpu.inx();

    assert_eq!(cpu.x, 0x82u8);
    assert!(!cpu.p.z());
    assert!(cpu.p.n());
}
