use rnes::bus::Bus;
use rnes::cpu::processor::CPU;

#[test]
fn test_asl_zero() {
    let mut cpu = CPU::new(Bus::new());

    cpu.a = 0;
    cpu.run_rwm_op(0x0A).unwrap();

    assert_eq!(cpu.a, 0);
    assert!(!cpu.p.c());
    assert!(cpu.p.z());
    assert!(!cpu.p.n());
}

#[test]
fn test_asl_positive() {
    let mut cpu = CPU::new(Bus::new());

    cpu.a = 0x2;
    cpu.run_rwm_op(0x0A).unwrap();

    assert_eq!(cpu.a, 0x4);
    assert!(!cpu.p.c());
    assert!(!cpu.p.z());
    assert!(!cpu.p.n());
}

#[test]
fn test_asl_negative() {
    let mut cpu = CPU::new(Bus::new());

    cpu.a = 0x82;
    cpu.run_rwm_op(0x0A).unwrap();

    assert_eq!(cpu.a, 0x4);
    assert!(cpu.p.c());
    assert!(!cpu.p.z());
    assert!(!cpu.p.n());
}

#[test]
fn test_asl_to_negative() {
    let mut cpu = CPU::new(Bus::new());

    cpu.a = 0x40;
    cpu.run_rwm_op(0x0A).unwrap();

    assert_eq!(cpu.a, 0x80);
    assert!(!cpu.p.c());
    assert!(!cpu.p.z());
    assert!(cpu.p.n());
}

#[test]
fn test_rol_zero() {
    let mut cpu = CPU::new(Bus::new());

    cpu.a = 0;
    cpu.run_rwm_op(0x2A).unwrap();

    assert_eq!(cpu.a, 0);
    assert!(!cpu.p.c());
    assert!(cpu.p.z());
    assert!(!cpu.p.n());
}

#[test]
fn test_rol_positive() {
    let mut cpu = CPU::new(Bus::new());

    cpu.a = 0x2;
    cpu.run_rwm_op(0x2A).unwrap();

    assert_eq!(cpu.a, 0x4);
    assert!(!cpu.p.c());
    assert!(!cpu.p.z());
    assert!(!cpu.p.n());
}

#[test]
fn test_rol_negative() {
    let mut cpu = CPU::new(Bus::new());

    cpu.a = 0x82;
    cpu.run_rwm_op(0x2A).unwrap();

    assert_eq!(cpu.a, 0x4);
    assert!(cpu.p.c());
    assert!(!cpu.p.z());
    assert!(!cpu.p.n());
}

#[test]
fn test_rol_to_negative() {
    let mut cpu = CPU::new(Bus::new());

    cpu.a = 0x40;
    cpu.run_rwm_op(0x2A).unwrap();

    assert_eq!(cpu.a, 0x80);
    assert!(!cpu.p.c());
    assert!(!cpu.p.z());
    assert!(cpu.p.n());
}

#[test]
fn test_rol_from_carry() {
    let mut cpu = CPU::new(Bus::new());

    cpu.a = 0x10;
    cpu.p.set_c(true);
    cpu.run_rwm_op(0x2A).unwrap();

    assert_eq!(cpu.a, 0x21);
    assert!(!cpu.p.c());
    assert!(!cpu.p.z());
    assert!(!cpu.p.n());
}

#[test]
fn test_lsr_zero() {
    let mut cpu = CPU::new(Bus::new());

    cpu.a = 0;
    cpu.run_rwm_op(0x4A).unwrap();

    assert_eq!(cpu.a, 0);
    assert!(cpu.p.z());
    assert!(!cpu.p.c());
    assert!(!cpu.p.n());
}

#[test]
fn test_lsr_positive() {
    let mut cpu = CPU::new(Bus::new());

    cpu.a = 4;
    cpu.run_rwm_op(0x4A).unwrap();

    assert_eq!(cpu.a, 2);
    assert!(!cpu.p.z());
    assert!(!cpu.p.c());
    assert!(!cpu.p.n());
}

#[test]
fn test_lsr_into_carry() {
    let mut cpu = CPU::new(Bus::new());

    cpu.a = 1;
    cpu.p.set_c(false);
    cpu.run_rwm_op(0x4A).unwrap();

    assert_eq!(cpu.a, 0);
    assert!(cpu.p.z());
    assert!(cpu.p.c());
    assert!(!cpu.p.n());
}

#[test]
fn test_ror_zero() {
    let mut cpu = CPU::new(Bus::new());

    cpu.a = 0;
    cpu.run_rwm_op(0x6A).unwrap();

    assert_eq!(cpu.a, 0);
    assert!(!cpu.p.c());
    assert!(cpu.p.z());
    assert!(!cpu.p.n());
}

#[test]
fn test_ror_positive() {
    let mut cpu = CPU::new(Bus::new());

    cpu.a = 0x2;
    cpu.run_rwm_op(0x6A).unwrap();

    assert_eq!(cpu.a, 0x1);
    assert!(!cpu.p.c());
    assert!(!cpu.p.z());
    assert!(!cpu.p.n());
}

#[test]
fn test_ror_negative() {
    let mut cpu = CPU::new(Bus::new());

    cpu.a = 0x2;
    cpu.p.set_c(true);
    cpu.run_rwm_op(0x6A).unwrap();

    assert_eq!(cpu.a, 0x81);
    assert!(!cpu.p.c());
    assert!(!cpu.p.z());
    assert!(cpu.p.n());
}

#[test]
fn test_rol_into_carry() {
    let mut cpu = CPU::new(Bus::new());

    cpu.a = 1;
    cpu.run_rwm_op(0x6A).unwrap();

    assert_eq!(cpu.a, 0);
    assert!(cpu.p.c());
    assert!(cpu.p.z());
    assert!(!cpu.p.n());
}

#[test]
fn test_stx_zero() {
    let mut cpu = CPU::new(Bus::new());

    {
        cpu.bus.write_word(1, 0x500).unwrap();
    }

    cpu.pc = 0;
    cpu.x = 0;
    let status = cpu.p;
    cpu.run_rwm_op(0x8E).unwrap();

    let res = cpu.bus.read_byte(0x500).unwrap();
    assert_eq!(cpu.x, 0);
    assert_eq!(res, 0);
    assert_eq!(status, cpu.p);
}

#[test]
fn test_stx_generic() {
    let mut cpu = CPU::new(Bus::new());

    {
        cpu.bus.write_word(1, 0x500).unwrap();
    }

    cpu.pc = 0;
    cpu.x = 0xDF;
    let status = cpu.p;
    cpu.run_rwm_op(0x8E).unwrap();

    let res = cpu.bus.read_byte(0x500).unwrap();
    assert_eq!(cpu.x, 0xDF);
    assert_eq!(res, 0xDF);
    assert_eq!(status, cpu.p);
}

#[test]
fn test_txa_zero() {
    let mut cpu = CPU::new(Bus::new());

    cpu.a = 4;
    cpu.x = 0;
    cpu.txa();

    assert_eq!(cpu.x, 0);
    assert_eq!(cpu.a, 0);
    assert!(cpu.p.z());
    assert!(!cpu.p.n());
}

#[test]
fn test_txa_positive() {
    let mut cpu = CPU::new(Bus::new());

    cpu.a = 0;
    cpu.x = 4;
    cpu.txa();

    assert_eq!(cpu.x, 4);
    assert_eq!(cpu.a, 4);
    assert!(!cpu.p.z());
    assert!(!cpu.p.n());
}

#[test]
fn test_txa_negative() {
    let mut cpu = CPU::new(Bus::new());

    cpu.a = 0;
    cpu.x = 0x81;
    cpu.txa();

    assert_eq!(cpu.x, 0x81);
    assert_eq!(cpu.a, 0x81);
    assert!(!cpu.p.z());
    assert!(cpu.p.n());
}

#[test]
fn test_txs() {
    let mut cpu = CPU::new(Bus::new());

    cpu.sp = 0xEF;
    cpu.x = 0x20;
    let status = cpu.p;
    cpu.txs();

    assert_eq!(cpu.sp, 0x20);
    assert_eq!(cpu.x, 0x20);
    assert_eq!(status, cpu.p);
}

#[test]
fn test_ldx_zero() {
    let mut cpu = CPU::new(Bus::new());

    cpu.bus.write_byte(1, 0).unwrap();
    cpu.x = 4;
    cpu.pc = 0;
    cpu.run_rwm_op(0xA2).unwrap();

    assert_eq!(cpu.x, 0);
    assert!(cpu.p.z());
    assert!(!cpu.p.n());
}

#[test]
fn test_ldx_positive() {
    let mut cpu = CPU::new(Bus::new());

    cpu.bus.write_byte(1, 2).unwrap();
    cpu.x = 4;
    cpu.pc = 0;
    cpu.run_rwm_op(0xA2).unwrap();

    assert_eq!(cpu.x, 2);
    assert!(!cpu.p.z());
    assert!(!cpu.p.n());
}

#[test]
fn test_ldx_negative() {
    let mut cpu = CPU::new(Bus::new());

    cpu.bus.write_byte(1, 0x80).unwrap();
    cpu.x = 4;
    cpu.pc = 0;
    cpu.run_rwm_op(0xA2).unwrap();

    assert_eq!(cpu.x, 0x80);
    assert!(!cpu.p.z());
    assert!(cpu.p.n());
}

#[test]
fn test_tax_zero() {
    let mut cpu = CPU::new(Bus::new());

    cpu.a = 0;
    cpu.x = 4;
    cpu.tax();

    assert_eq!(cpu.x, 0);
    assert_eq!(cpu.a, 0);
    assert!(cpu.p.z());
    assert!(!cpu.p.n());
}

#[test]
fn test_tax_positive() {
    let mut cpu = CPU::new(Bus::new());

    cpu.a = 4;
    cpu.x = 0;
    cpu.tax();

    assert_eq!(cpu.x, 4);
    assert_eq!(cpu.a, 4);
    assert!(!cpu.p.z());
    assert!(!cpu.p.n());
}

#[test]
fn test_tax_negative() {
    let mut cpu = CPU::new(Bus::new());

    cpu.a = 0x81;
    cpu.x = 0;
    cpu.tax();

    assert_eq!(cpu.x, 0x81);
    assert_eq!(cpu.a, 0x81);
    assert!(!cpu.p.z());
    assert!(cpu.p.n());
}

#[test]
fn test_tsx_zero() {
    let mut cpu = CPU::new(Bus::new());

    cpu.x = 4;
    cpu.sp = 0;
    cpu.tsx();

    assert_eq!(cpu.x, 0);
    assert_eq!(cpu.sp, 0);
    assert!(cpu.p.z());
    assert!(!cpu.p.n());
}

#[test]
fn test_tsx_positive() {
    let mut cpu = CPU::new(Bus::new());

    cpu.sp = 4;
    cpu.x = 0;
    cpu.tsx();

    assert_eq!(cpu.x, 4);
    assert_eq!(cpu.sp, 4);
    assert!(!cpu.p.z());
    assert!(!cpu.p.n());
}

#[test]
fn test_tsx_negative() {
    let mut cpu = CPU::new(Bus::new());

    cpu.sp = 0x81;
    cpu.x = 0;
    cpu.tsx();

    assert_eq!(cpu.x, 0x81);
    assert_eq!(cpu.sp, 0x81);
    assert!(!cpu.p.z());
    assert!(cpu.p.n());
}

#[test]
fn test_dec_zero() {
    let mut cpu = CPU::new(Bus::new());

    {
        cpu.bus.write_byte(1, 5).unwrap();
        cpu.bus.write_byte(5, 1).unwrap();
    }

    cpu.pc = 0;
    cpu.run_rwm_op(0xC6).unwrap();

    let res = cpu.bus.read_byte(5).unwrap();
    assert_eq!(res, 0);
    assert!(cpu.p.z());
    assert!(!cpu.p.n());
}

#[test]
fn test_dec_positive() {
    let mut cpu = CPU::new(Bus::new());

    {
        cpu.bus.write_byte(1, 5).unwrap();
        cpu.bus.write_byte(5, 3).unwrap();
    }

    cpu.pc = 0;
    cpu.run_rwm_op(0xC6).unwrap();

    let res = cpu.bus.read_byte(5).unwrap();
    assert_eq!(res, 2);
    assert!(!cpu.p.z());
    assert!(!cpu.p.n());
}

#[test]
fn test_dec_negative() {
    let mut cpu = CPU::new(Bus::new());

    {
        cpu.bus.write_byte(1, 5).unwrap();
        cpu.bus.write_byte(5, 0).unwrap();
    }

    cpu.pc = 0;
    cpu.run_rwm_op(0xC6).unwrap();

    let res = cpu.bus.read_byte(5).unwrap();
    assert_eq!(res, 0xFF);
    assert!(!cpu.p.z());
    assert!(cpu.p.n());
}

#[test]
fn test_dex_zero() {
    let mut cpu = CPU::new(Bus::new());

    cpu.pc = 0;
    cpu.x = 1;
    cpu.dex();

    assert_eq!(cpu.x, 0);
    assert!(cpu.p.z());
    assert!(!cpu.p.n());
}

#[test]
fn test_dex_positive() {
    let mut cpu = CPU::new(Bus::new());

    cpu.pc = 0;
    cpu.x = 4;
    cpu.dex();

    assert_eq!(cpu.x, 3);
    assert!(!cpu.p.z());
    assert!(!cpu.p.n());
}

#[test]
fn test_dex_negative() {
    let mut cpu = CPU::new(Bus::new());

    cpu.pc = 0;
    cpu.x = 0;
    cpu.dex();

    assert_eq!(cpu.x, 0xFF);
    assert!(!cpu.p.z());
    assert!(cpu.p.n());
}

#[test]
fn test_inc_zero() {
    let mut cpu = CPU::new(Bus::new());

    {
        cpu.bus.write_byte(1, 5).unwrap();
        cpu.bus.write_byte(5, 0xFF).unwrap();
    }

    cpu.pc = 0;
    cpu.run_rwm_op(0xE6).unwrap();

    let res = cpu.bus.read_byte(5).unwrap();
    assert_eq!(res, 0);
    assert!(cpu.p.z());
    assert!(!cpu.p.n());
}

#[test]
fn test_inc_positive() {
    let mut cpu = CPU::new(Bus::new());

    {
        cpu.bus.write_byte(1, 5).unwrap();
        cpu.bus.write_byte(5, 3).unwrap();
    }

    cpu.pc = 0;
    cpu.run_rwm_op(0xE6).unwrap();

    let res = cpu.bus.read_byte(5).unwrap();
    assert_eq!(res, 4);
    assert!(!cpu.p.z());
    assert!(!cpu.p.n());
}

#[test]
fn test_inc_negative() {
    let mut cpu = CPU::new(Bus::new());

    {
        cpu.bus.write_byte(1, 5).unwrap();
        cpu.bus.write_byte(5, 0x7F).unwrap();
    }

    cpu.pc = 0;
    cpu.run_rwm_op(0xE6).unwrap();

    let res = cpu.bus.read_byte(5).unwrap();
    assert_eq!(res, 0x80);
    assert!(!cpu.p.z());
    assert!(cpu.p.n());
}
