use softcore_rv64::config::{self, Config};
use softcore_rv64::csr::{
    CsrError, FCSR, FFLAGS, FRM, MCAUSE, MEDELEG, MEPC, MIDELEG, MIE, MSCRATCH, MSTATUS, MTVAL,
    MVENDORID, PMPADDR0, PMPCFG0, SCAUSE, SEPC, SIE, SSTATUS, STVAL, VSTART,
};
use softcore_rv64::decode::{decode, Ast, BOp, IOp, ROp, SOp, UOp, WordWidth};
use softcore_rv64::registers::{GeneralRegister, A0, RA, X0, X1, X2, X3, X5, ZERO};
use softcore_rv64::{new_core, AccessType, Core, ExceptionType, Privilege};

fn u74_core() -> Core {
    new_core(config::u74())
}

const ALL_KINDS: [AccessType; 4] =
    [AccessType::Read, AccessType::Write, AccessType::ReadWrite, AccessType::Execute];

#[test]
fn new_core_is_zeroed_at_machine_level() {
    let core = u74_core();
    assert_eq!(core.mode(), Privilege::Machine);
    assert_eq!(core.pc, 0);
    assert_eq!(core.next_pc, 0);
    for i in 0..32 {
        assert_eq!(core.get(GeneralRegister::from_index(i)), 0);
    }
    for i in 0..64 {
        assert_eq!(core.get_pmpaddr(i), 0);
    }
    assert_eq!(core.get_csr(MSTATUS), Ok(0));
    assert_eq!(core.config, config::u74());
}

#[test]
fn zero_register_discards_every_write() {
    let mut core = u74_core();
    for v in [1u64, 0xDEAD_BEEF, u64::MAX] {
        core.set(ZERO, v);
        assert_eq!(core.get(X0), 0);
    }
}

#[test]
fn write_then_read_every_register() {
    let mut core = u74_core();
    for i in 1..32u64 {
        let r = GeneralRegister::from_index(i);
        let v = u64::MAX - i;
        core.set(r, v);
        assert_eq!(core.get(r), v);
    }
    core.set(A0, 7);
    assert_eq!(core.get(RA), u64::MAX - 1);
    assert_eq!(core.get(X2), u64::MAX - 2);
}

#[test]
fn machine_with_empty_table_may_access_anything() {
    let core = u74_core();
    for addr in [0u64, 0x1000, 0x8000_0000, u64::MAX - 7, u64::MAX] {
        for kind in ALL_KINDS {
            assert_eq!(core.pmp_check(addr, kind), None);
        }
    }
}

#[test]
fn user_with_empty_table_faults_by_kind() {
    let mut core = u74_core();
    core.set_mode(Privilege::User);
    for addr in [0u64, 0x8000_0000, u64::MAX] {
        assert_eq!(core.pmp_check(addr, AccessType::Read), Some(ExceptionType::LoadAccessFault));
        assert_eq!(core.pmp_check(addr, AccessType::Write), Some(ExceptionType::SamoAccessFault));
        assert_eq!(
            core.pmp_check(addr, AccessType::ReadWrite),
            Some(ExceptionType::SamoAccessFault)
        );
        assert_eq!(
            core.pmp_check(addr, AccessType::Execute),
            Some(ExceptionType::FetchAccessFault)
        );
    }
}

#[test]
fn tor_entry_allows_reads_inside_its_range_only() {
    let mut core = u74_core();
    core.set_mode(Privilege::User);
    core.set_pmpaddr(0, 0x1000 >> 2);
    core.set_pmpaddr(1, 0x2000 >> 2);
    core.set_pmpcfg(0, 0x09 << 8);
    assert_eq!(core.pmp_check(0x1000, AccessType::Read), None);
    assert_eq!(core.pmp_check(0x1ff8, AccessType::Read), None);
    assert_eq!(core.pmp_check(0x0ff8, AccessType::Read), Some(ExceptionType::LoadAccessFault));
    assert_eq!(core.pmp_check(0x2000, AccessType::Read), Some(ExceptionType::LoadAccessFault));
    // Straddles the top of the range.
    assert_eq!(core.pmp_check(0x1ffc, AccessType::Read), Some(ExceptionType::LoadAccessFault));
    assert_eq!(core.pmp_check(0x1000, AccessType::Write), Some(ExceptionType::SamoAccessFault));
}

#[test]
fn napot_entry_covers_its_aligned_block() {
    let mut core = u74_core();
    core.set_mode(Privilege::User);
    // 4 KiB at 0x8000_0000, read and execute.
    core.set_pmpaddr(0, (0x8000_0000 >> 2) | 0x1ff);
    core.set_pmpcfg(0, 0x18 | 0x01 | 0x04);
    assert_eq!(core.pmp_check(0x8000_0000, AccessType::Read), None);
    assert_eq!(core.pmp_check(0x8000_0ff8, AccessType::Execute), None);
    assert_eq!(
        core.pmp_check(0x8000_1000, AccessType::Read),
        Some(ExceptionType::LoadAccessFault)
    );
    assert_eq!(
        core.pmp_check(0x8000_0000, AccessType::ReadWrite),
        Some(ExceptionType::SamoAccessFault)
    );
}

#[test]
fn na4_entry_never_fully_covers_an_eight_byte_access() {
    let mut core = u74_core();
    core.set_mode(Privilege::Supervisor);
    core.set_pmpaddr(0, 0x1000 >> 2);
    core.set_pmpcfg(0, 0x10 | 0x07);
    assert_eq!(core.pmp_check(0x1000, AccessType::Read), Some(ExceptionType::LoadAccessFault));
}

#[test]
fn locked_entry_binds_machine_level() {
    let mut core = u74_core();
    core.set_pmpaddr(0, 0x2000 >> 2);
    core.set_pmpcfg(0, 0x08);
    assert_eq!(core.pmp_check(0x1000, AccessType::Read), None);
    core.set_pmpcfg(0, 0x88);
    assert_eq!(core.pmp_check(0x1000, AccessType::Read), Some(ExceptionType::LoadAccessFault));
    assert_eq!(core.pmp_check(0x3000, AccessType::Read), None);
    // A locked entry ignores further writes, to its configuration and to its address.
    core.set_pmpcfg(0, 0);
    core.set_pmpaddr(0, 0x1234);
    assert_eq!(core.get_pmpaddr(0), 0x2000 >> 2);
    assert_eq!(core.get_csr(PMPCFG0), Ok(0x88));
}

#[test]
fn locked_tor_entry_protects_the_address_below() {
    let mut core = u74_core();
    core.set_pmpaddr(0, 0x100);
    core.set_pmpcfg(0, 0x88 << 8);
    core.set_pmpaddr(0, 0x200);
    assert_eq!(core.get_pmpaddr(0), 0x100);
}

#[test]
fn pmp_configuration_is_legalised() {
    let mut core = u74_core();
    // W without R is reserved: R, W and X are cleared. Bits 5 and 6 read as zero.
    core.set_pmpcfg(0, 0x02 | (0x61 << 8) | (0x1b << 16));
    assert_eq!(core.get_csr(PMPCFG0), Ok((0x01 << 8) | (0x1b << 16)));
    core.set_pmpcfg(2, 0x0d);
    assert_eq!(core.get_csr(PMPCFG0 + 2), Ok(0x0d));
}

#[test]
fn pmp_address_keeps_54_bits() {
    let mut core = u74_core();
    core.set_pmpaddr(3, u64::MAX);
    assert_eq!(core.get_pmpaddr(3), 0x3f_ffff_ffff_ffff);
    assert_eq!(core.get_csr(PMPADDR0 + 3), Ok(0x3f_ffff_ffff_ffff));
}

#[test]
fn trap_into_machine_records_state() {
    let mut core = u74_core();
    core.set_csr(MSTATUS, 0x8).unwrap();
    core.set_mode(Privilege::Supervisor);
    core.pc = 0x4000;
    core.inject_exception(ExceptionType::IllegalInstr, 0x1234_5678);
    assert_eq!(core.mode(), Privilege::Machine);
    assert_eq!(core.mode(), Privilege::Machine);
    assert_eq!(core.get_csr(MEPC), Ok(0x4000));
    assert_eq!(core.get_csr(MCAUSE), Ok(2));
    assert_eq!(core.get_csr(MTVAL), Ok(0x1234_5678));
    // MPIE takes MIE, MIE is cleared, MPP records Supervisor.
    assert_eq!(core.get_csr(MSTATUS), Ok(0x80 | 0x800));
    assert_eq!(core.pc, 0x4000);
}

#[test]
fn delegated_trap_enters_supervisor() {
    let mut core = u74_core();
    core.set_csr(MEDELEG, 1 << 5).unwrap();
    core.set_csr(MSTATUS, 0x2).unwrap();
    core.set_mode(Privilege::User);
    core.pc = 0x2000;
    core.inject_exception(ExceptionType::LoadAccessFault, 0x42);
    assert_eq!(core.mode(), Privilege::Supervisor);
    assert_eq!(core.get_csr(SEPC), Ok(0x2000));
    assert_eq!(core.get_csr(SCAUSE), Ok(5));
    assert_eq!(core.get_csr(STVAL), Ok(0x42));
    assert_eq!(core.get_csr(MEPC), Ok(0));
    // SPIE takes SIE, SIE is cleared, SPP records User.
    assert_eq!(core.get_csr(MSTATUS), Ok(0x20));

    core.inject_exception(ExceptionType::LoadAccessFault, 0x43);
    assert_eq!(core.mode(), Privilege::Supervisor);
    // SIE was clear, so SPIE is now clear; SPP records Supervisor.
    assert_eq!(core.get_csr(MSTATUS), Ok(0x100));
}

#[test]
fn delegation_never_lowers_the_level() {
    let mut core = u74_core();
    core.set_csr(MEDELEG, 1 << 5).unwrap();
    core.pc = 0x10;
    core.inject_exception(ExceptionType::LoadAccessFault, 0x99);
    assert_eq!(core.mode(), Privilege::Machine);
    assert_eq!(core.get_csr(MEPC), Ok(0x10));
    assert_eq!(core.get_csr(MTVAL), Ok(0x99));
    assert_eq!(core.get_csr(MSTATUS), Ok(0x1800));
}

#[test]
fn no_delegation_without_supervisor_mode() {
    let cfg = Config { pmp_count: 8, ext_s: false, ext_u: true, ext_f: false, ext_v: false };
    let mut core = new_core(cfg);
    assert_eq!(core.set_csr(MEDELEG, 1 << 8), Err(CsrError::Undefined));
    core.set_mode(Privilege::User);
    core.inject_exception(ExceptionType::UEnvCall, 0);
    assert_eq!(core.mode(), Privilege::Machine);
    assert_eq!(core.get_csr(MCAUSE), Ok(8));
}

#[test]
fn excluded_csrs_are_refused() {
    let mut core = u74_core();
    assert!(!core.is_csr_defined(0x3C0));
    assert_eq!(core.get_csr(0x3C0), Err(CsrError::Undefined));
    assert_eq!(core.set_csr(0x3C0, 1), Err(CsrError::Undefined));
    assert_eq!(core.get_csr(0x3A1), Err(CsrError::Undefined));
    assert!(!core.is_csr_defined(VSTART as usize));
    assert_eq!(core.get_csr(VSTART), Err(CsrError::Undefined));
    assert!(!core.is_csr_defined(0x1_0300));
    assert_eq!(core.get_csr(0x1_0300), Err(CsrError::Undefined));

    let small = new_core(Config { pmp_count: 4, ext_s: true, ext_u: true, ext_f: true, ext_v: true });
    assert!(small.is_csr_defined(0x3B3));
    assert!(!small.is_csr_defined(0x3B4));
    assert!(!small.is_csr_defined(0x3A4));
    assert!(small.is_csr_defined(VSTART as usize));
}

#[test]
fn read_only_csr_refuses_writes() {
    let mut core = u74_core();
    assert_eq!(core.set_csr(MVENDORID, 1), Err(CsrError::ReadOnly));
    assert_eq!(core.get_csr(MVENDORID), Ok(0));
}

#[test]
fn plain_csr_write_then_read() {
    let mut core = u74_core();
    assert_eq!(core.set_csr(MSCRATCH, 0x55AA), Ok(()));
    assert_eq!(core.get_csr(MSCRATCH), Ok(0x55AA));
}

#[test]
fn sstatus_is_a_view_of_mstatus() {
    let mut core = u74_core();
    assert_eq!(core.set_csr(SSTATUS, u64::MAX), Ok(()));
    assert_eq!(core.get_csr(MSTATUS), Ok(0xC6722));
    assert_eq!(core.get_csr(SSTATUS), Ok(0xC6722));
    core.set_csr(MSTATUS, u64::MAX).unwrap();
    assert_eq!(core.get_csr(SSTATUS), Ok(0x8000_0003_000D_E762));
}

#[test]
fn sie_shows_delegated_bits_only() {
    let mut core = u74_core();
    core.set_csr(MIDELEG, 0x222).unwrap();
    core.set_csr(SIE, u64::MAX).unwrap();
    assert_eq!(core.get_csr(MIE), Ok(0x222));
    assert_eq!(core.get_csr(SIE), Ok(0x222));
}

#[test]
fn float_flags_and_rounding_mode_share_fcsr() {
    let mut core = u74_core();
    core.set_csr(FRM, 0x5).unwrap();
    assert_eq!(core.get_csr(FCSR), Ok(0xA0));
    assert_eq!(core.get_csr(FRM), Ok(5));
    core.set_csr(FFLAGS, 0xff).unwrap();
    assert_eq!(core.get_csr(FCSR), Ok(0xBF));
    assert_eq!(core.get_csr(FFLAGS), Ok(0x1f));
}

#[test]
fn decode_base_instructions() {
    assert_eq!(decode(0x00510093), Ast::Itype { imm: 5, rs1: X2, rd: X1, op: IOp::Addi });
    assert_eq!(decode(0x002081B3), Ast::Rtype { rs2: X2, rs1: X1, rd: X3, op: ROp::Add });
    assert_eq!(decode(0x402081B3), Ast::Rtype { rs2: X2, rs1: X1, rd: X3, op: ROp::Sub });
    assert_eq!(decode(0x123452B7), Ast::Utype { imm: 0x12345, rd: X5, op: UOp::Lui });
    assert_eq!(decode(0x008000EF), Ast::Jal { imm: 8, rd: X1 });
    assert_eq!(decode(0x00208863), Ast::Btype { imm: 16, rs2: X2, rs1: X1, op: BOp::Beq });
    assert_eq!(
        decode(0x0020B423),
        Ast::Store { imm: 8, rs2: X2, rs1: X1, width: WordWidth::Double, aq: false, rl: false }
    );
    assert_eq!(decode(0x40315093), Ast::ShiftIop { shamt: 3, rs1: X2, rd: X1, op: SOp::Srai });
    assert_eq!(decode(0xFFF1009B), Ast::AddIw { imm: 0xFFF, rs1: X2, rd: X1 });
    assert_eq!(decode(0x0FF0000F), Ast::Fence { pred: 0xF, succ: 0xF });
    assert_eq!(decode(0x00000073), Ast::Ecall);
    assert_eq!(decode(0x00100073), Ast::Ebreak);
    assert_eq!(decode(0x30200073), Ast::Mret);
    assert_eq!(decode(0x10200073), Ast::Sret);
    assert_eq!(decode(0x10500073), Ast::Wfi);
}

#[test]
fn decode_rejects_non_instructions() {
    assert_eq!(decode(0x0000_0000), Ast::Illegal(0));
    assert_eq!(decode(0xFFFF_FFFF), Ast::Illegal(0xFFFF_FFFF));
    // funct7 other than 0 or 0x20 on OP.
    assert_eq!(decode(0x022081B3), Ast::Illegal(0x022081B3));
    // funct3 = 4 on SYSTEM.
    assert_eq!(decode(0x30004073), Ast::Illegal(0x30004073));
}

#[test]
fn decode_is_total_over_a_sample() {
    let mut x: u32 = 0x1234_5678;
    for _ in 0..20_000 {
        x ^= x << 13;
        x ^= x >> 17;
        x ^= x << 5;
        match decode(x) {
            Ast::Illegal(bits) => assert_eq!(bits, x),
            _ => {}
        }
    }
}
