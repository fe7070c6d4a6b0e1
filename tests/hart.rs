use softcore_rv64::config;
use softcore_rv64::csr::{MEPC, MTVAL};
use softcore_rv64::decode::{Ast, CsrOp, WordWidth};
use softcore_rv64::registers::{
    A0, A1, FP, RA, S0, S1, SP, T0, T6, X0, X1, X10, X11, X14, X15, X2, X31, X5, X8, X9, ZERO,
};
use softcore_rv64::{new_core, AccessType, Core, ExceptionType, Privilege};

fn u74_core() -> Core {
    new_core(config::u74())
}

#[test]
fn pmp_check() {
    let mut core = u74_core();
    let addr = 0x8000_0000;
    let access = AccessType::Read;

    // Check the default access rights
    assert!(
        core.pmp_check(addr, access).is_none(),
        "M-mode can access all memory by default"
    );

    core.set_mode(Privilege::User);
    assert_eq!(
        core.pmp_check(addr, access),
        Some(ExceptionType::LoadAccessFault),
        "U-mode has no access by default"
    );

    // Now let's add a PMP entry to allow reads from U-mode
    let pmp_addr = addr >> 2; // There is a shift of 2 in the pmpaddr registers
    core.set_pmpaddr(0, pmp_addr);
    core.set_pmpaddr(1, 2 * pmp_addr);
    core.set_pmpcfg(0, 0b0000_1001 << 8); // Entry 1, Read-only access, ToR matching mode
    assert!(
        core.pmp_check(addr, access).is_none(),
        "PMP allow read access"
    );
}

#[test]
fn decoder() {
    let ctx = u74_core();

    // Load/Store
    assert_eq!(
        ctx.decode_instr(0xff87b703),
        Ast::Load {
            imm: 0xFFF - 7, // immediate is -8
            rs1: X15,
            rd: X14,
            is_unsigned: false,
            width: WordWidth::Double,
            aq: false,
            rl: false,
        }
    );

    // csrrw x0, mstatus, x0
    assert_eq!(
        ctx.decode_instr(0x30001073),
        Ast::CsrReg { csr: 0x300, rs1: X0, rd: X0, op: CsrOp::Csrrw }
    );
    // csrrs x0, mstatus, x0
    assert_eq!(
        ctx.decode_instr(0x30002073),
        Ast::CsrReg { csr: 0x300, rs1: X0, rd: X0, op: CsrOp::Csrrs }
    );
    // csrrc x0, mstatus, x0
    assert_eq!(
        ctx.decode_instr(0x30003073),
        Ast::CsrReg { csr: 0x300, rs1: X0, rd: X0, op: CsrOp::Csrrc }
    );
    // csrrwi x0, mstatus, 0
    assert_eq!(
        ctx.decode_instr(0x30005073),
        Ast::CsrImm { csr: 0x300, uimm: 0, rd: X0, op: CsrOp::Csrrw }
    );
    // csrrsi x0, mstatus, 0
    assert_eq!(
        ctx.decode_instr(0x30006073),
        Ast::CsrImm { csr: 0x300, uimm: 0, rd: X0, op: CsrOp::Csrrs }
    );
    // csrrci x0, mstatus, 0
    assert_eq!(
        ctx.decode_instr(0x30007073),
        Ast::CsrImm { csr: 0x300, uimm: 0, rd: X0, op: CsrOp::Csrrc }
    );

    // Illegal
    assert_eq!(ctx.decode_instr(0x30001072), Ast::Illegal(0x30001072));
}

#[test]
fn general_purpose_registers() {
    let mut ctx = u74_core();

    assert_eq!(ctx.get(X0), 0, "X0 should be hardwired to 0");
    assert_eq!(ctx.get(ZERO), 0, "ZERO should be hardwired to 0");

    ctx.set(X0, 0xDEADBEEF);
    assert_eq!(ctx.get(X0), 0, "X0 should remain 0 after write attempt");

    ctx.set(RA, 0x12345678);
    assert_eq!(ctx.get(RA), 0x12345678, "RA register should store value");
    assert_eq!(ctx.get(X1), 0x12345678, "X1 and RA should be the same");

    ctx.set(SP, 0x87654321);
    assert_eq!(ctx.get(SP), 0x87654321, "SP register should store value");
    assert_eq!(ctx.get(X2), 0x87654321, "X2 and SP should be the same");

    ctx.set(A0, 0xAAAAAAAA);
    ctx.set(A1, 0xBBBBBBBB);
    assert_eq!(ctx.get(A0), 0xAAAAAAAA, "A0 register should store value");
    assert_eq!(ctx.get(A1), 0xBBBBBBBB, "A1 register should store value");
    assert_eq!(ctx.get(X10), 0xAAAAAAAA, "X10 and A0 should be the same");
    assert_eq!(ctx.get(X11), 0xBBBBBBBB, "X11 and A1 should be the same");

    ctx.set(S0, 0xCCCCCCCC);
    ctx.set(S1, 0xDDDDDDDD);
    assert_eq!(ctx.get(S0), 0xCCCCCCCC, "S0 register should store value");
    assert_eq!(ctx.get(S1), 0xDDDDDDDD, "S1 register should store value");
    assert_eq!(ctx.get(FP), 0xCCCCCCCC, "FP and S0 should be the same");
    assert_eq!(ctx.get(X8), 0xCCCCCCCC, "X8 and S0 should be the same");
    assert_eq!(ctx.get(X9), 0xDDDDDDDD, "X9 and S1 should be the same");

    ctx.set(T0, 0xEEEEEEEE);
    ctx.set(T6, 0xFFFFFFFF);
    assert_eq!(ctx.get(T0), 0xEEEEEEEE, "T0 register should store value");
    assert_eq!(ctx.get(T6), 0xFFFFFFFF, "T6 register should store value");
    assert_eq!(ctx.get(X5), 0xEEEEEEEE, "X5 and T0 should be the same");
    assert_eq!(ctx.get(X31), 0xFFFFFFFF, "X31 and T6 should be the same");

    assert_eq!(
        ctx.get(X0),
        0,
        "X0 should still be 0 after other register operations"
    );
}

#[test]
fn csr_defined() {
    let core = u74_core();

    assert!(core.is_csr_defined(0x300), "mstatus should be defined");
    assert!(core.is_csr_defined(0x301), "misa should be defined");
    assert!(core.is_csr_defined(0x304), "mie should be defined");
    assert!(core.is_csr_defined(0x305), "mtvec should be defined");
    assert!(core.is_csr_defined(0x341), "mepc should be defined");
    assert!(core.is_csr_defined(0x342), "mcause should be defined");
    assert!(core.is_csr_defined(0x343), "mtval should be defined");
    assert!(core.is_csr_defined(0x344), "mip should be defined");

    assert!(core.is_csr_defined(0x3A0), "pmpcfg0 should be defined");
    assert!(core.is_csr_defined(0x3A2), "pmpcfg2 should be defined");
    assert!(core.is_csr_defined(0x3A4), "pmpcfg4 should be defined");
    assert!(core.is_csr_defined(0x3A6), "pmpcfg6 should be defined");

    assert!(!core.is_csr_defined(0x3A1), "pmpcfg1 should not be defined on RV64");
    assert!(!core.is_csr_defined(0x3A3), "pmpcfg3 should not be defined on RV64");
    assert!(!core.is_csr_defined(0x3A5), "pmpcfg5 should not be defined on RV64");

    assert!(core.is_csr_defined(0x3B0), "pmpaddr0 should be defined");
    assert!(core.is_csr_defined(0x3B5), "pmpaddr5 should be defined");
    assert!(core.is_csr_defined(0x3BF), "pmpaddr15 should be defined");

    assert!(!core.is_csr_defined(0x3C0), "pmpaddr16 should not be defined on U74");
    assert!(!core.is_csr_defined(0x3C8), "pmpaddr24 should not be defined on U74");
    assert!(!core.is_csr_defined(0x3CF), "pmpaddr31 should not be defined on U74");

    assert!(!core.is_csr_defined(0x000), "CSR 0x000 should not be defined");
    assert!(!core.is_csr_defined(0xFFF), "CSR 0xFFF should not be defined");
    assert!(!core.is_csr_defined(0x200), "CSR 0x200 should not be defined");
}

#[test]
fn inject_exception() {
    let mut core = u74_core();

    core.set_mode(Privilege::User);
    core.pc = 0x1000;
    let initial_pc = core.pc;

    assert_eq!(core.mode(), Privilege::User, "Initial mode should be User");

    let fault_addr = 0x8000_0000;
    core.inject_exception(ExceptionType::LoadAccessFault, fault_addr);

    assert_eq!(
        core.mode(),
        Privilege::Machine,
        "Mode should be Machine after exception"
    );
    assert_eq!(
        core.get_csr(MEPC),
        Ok(initial_pc),
        "mepc should contain the PC when exception occurred"
    );
    assert_eq!(
        core.get_csr(MTVAL),
        Ok(fault_addr),
        "mtval should contain the fault address"
    );
}
