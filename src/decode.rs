//! Decoding of 32-bit instruction words (RV64I and Zicsr).

use crate::bits::{field, slice_bits};
use crate::hart::Core;
use crate::registers::GeneralRegister;
use vstd::prelude::*;

verus! {

pub const OP_LOAD: u64 = 0x03;
pub const OP_MISC_MEM: u64 = 0x0f;
pub const OP_IMM: u64 = 0x13;
pub const OP_AUIPC: u64 = 0x17;
pub const OP_IMM_32: u64 = 0x1b;
pub const OP_STORE: u64 = 0x23;
pub const OP_OP: u64 = 0x33;
pub const OP_LUI: u64 = 0x37;
pub const OP_OP_32: u64 = 0x3b;
pub const OP_BRANCH: u64 = 0x63;
pub const OP_JALR: u64 = 0x67;
pub const OP_JAL: u64 = 0x6f;
pub const OP_SYSTEM: u64 = 0x73;

#[derive(Clone, Copy, Debug, PartialEq, Eq, Structural)]
pub enum UOp {
    Lui,
    Auipc,
}

#[derive(Clone, Copy, Debug, PartialEq, Eq, Structural)]
pub enum BOp {
    Beq,
    Bne,
    Blt,
    Bge,
    Bltu,
    Bgeu,
}

#[derive(Clone, Copy, Debug, PartialEq, Eq, Structural)]
pub enum IOp {
    Addi,
    Slti,
    Sltiu,
    Xori,
    Ori,
    Andi,
}

#[derive(Clone, Copy, Debug, PartialEq, Eq, Structural)]
pub enum SOp {
    Slli,
    Srli,
    Srai,
}

#[derive(Clone, Copy, Debug, PartialEq, Eq, Structural)]
pub enum ROp {
    Add,
    Sub,
    Sll,
    Slt,
    Sltu,
    Xor,
    Srl,
    Sra,
    Or,
    And,
}

#[derive(Clone, Copy, Debug, PartialEq, Eq, Structural)]
pub enum RwOp {
    Addw,
    Subw,
    Sllw,
    Srlw,
    Sraw,
}

#[derive(Clone, Copy, Debug, PartialEq, Eq, Structural)]
pub enum WordWidth {
    Byte,
    Half,
    Word,
    Double,
}

#[derive(Clone, Copy, Debug, PartialEq, Eq, Structural)]
pub enum CsrOp {
    Csrrw,
    Csrrs,
    Csrrc,
}

/// A decoded instruction. Immediates are kept as the raw bits of their encoding.
#[derive(Clone, Copy, Debug, PartialEq, Eq, Structural)]
pub enum Ast {
    Utype { imm: u64, rd: GeneralRegister, op: UOp },
    Jal { imm: u64, rd: GeneralRegister },
    Jalr { imm: u64, rs1: GeneralRegister, rd: GeneralRegister },
    Btype { imm: u64, rs2: GeneralRegister, rs1: GeneralRegister, op: BOp },
    Itype { imm: u64, rs1: GeneralRegister, rd: GeneralRegister, op: IOp },
    ShiftIop { shamt: u64, rs1: GeneralRegister, rd: GeneralRegister, op: SOp },
    Rtype { rs2: GeneralRegister, rs1: GeneralRegister, rd: GeneralRegister, op: ROp },
    Load {
        imm: u64,
        rs1: GeneralRegister,
        rd: GeneralRegister,
        is_unsigned: bool,
        width: WordWidth,
        aq: bool,
        rl: bool,
    },
    Store { imm: u64, rs2: GeneralRegister, rs1: GeneralRegister, width: WordWidth, aq: bool, rl: bool },
    AddIw { imm: u64, rs1: GeneralRegister, rd: GeneralRegister },
    ShiftIwop { shamt: u64, rs1: GeneralRegister, rd: GeneralRegister, op: SOp },
    Rtypew { rs2: GeneralRegister, rs1: GeneralRegister, rd: GeneralRegister, op: RwOp },
    Fence { pred: u64, succ: u64 },
    Ecall,
    Ebreak,
    Mret,
    Sret,
    Wfi,
    CsrReg { csr: u64, rs1: GeneralRegister, rd: GeneralRegister, op: CsrOp },
    CsrImm { csr: u64, uimm: u64, rd: GeneralRegister, op: CsrOp },
    /// An encoding that is no instruction, with the original bits.
    Illegal(u32),
}

pub open spec fn reg_field(b: u64, start: u64) -> GeneralRegister {
    GeneralRegister::from_index_spec(field(b, start, 5))
}

pub open spec fn bop_of(f3: u64) -> BOp {
    if f3 == 0 {
        BOp::Beq
    } else if f3 == 1 {
        BOp::Bne
    } else if f3 == 4 {
        BOp::Blt
    } else if f3 == 5 {
        BOp::Bge
    } else if f3 == 6 {
        BOp::Bltu
    } else {
        BOp::Bgeu
    }
}

pub open spec fn iop_of(f3: u64) -> IOp {
    if f3 == 0 {
        IOp::Addi
    } else if f3 == 2 {
        IOp::Slti
    } else if f3 == 3 {
        IOp::Sltiu
    } else if f3 == 4 {
        IOp::Xori
    } else if f3 == 6 {
        IOp::Ori
    } else {
        IOp::Andi
    }
}

/// Shift kind from funct3 and the high bits above the shift amount.
pub open spec fn sop_of(f3: u64, hi: u64) -> SOp {
    if f3 == 1 {
        SOp::Slli
    } else if hi == 0 {
        SOp::Srli
    } else {
        SOp::Srai
    }
}

pub open spec fn rop_of(f3: u64, f7: u64) -> ROp {
    if f3 == 0 {
        if f7 == 0 { ROp::Add } else { ROp::Sub }
    } else if f3 == 1 {
        ROp::Sll
    } else if f3 == 2 {
        ROp::Slt
    } else if f3 == 3 {
        ROp::Sltu
    } else if f3 == 4 {
        ROp::Xor
    } else if f3 == 5 {
        if f7 == 0 { ROp::Srl } else { ROp::Sra }
    } else if f3 == 6 {
        ROp::Or
    } else {
        ROp::And
    }
}

pub open spec fn rwop_of(f3: u64, f7: u64) -> RwOp {
    if f3 == 0 {
        if f7 == 0 { RwOp::Addw } else { RwOp::Subw }
    } else if f3 == 1 {
        RwOp::Sllw
    } else if f7 == 0 {
        RwOp::Srlw
    } else {
        RwOp::Sraw
    }
}

pub open spec fn width_of(w: u64) -> WordWidth {
    if w == 0 {
        WordWidth::Byte
    } else if w == 1 {
        WordWidth::Half
    } else if w == 2 {
        WordWidth::Word
    } else {
        WordWidth::Double
    }
}

pub open spec fn csr_op_of(w: u64) -> CsrOp {
    if w == 1 {
        CsrOp::Csrrw
    } else if w == 2 {
        CsrOp::Csrrs
    } else {
        CsrOp::Csrrc
    }
}

/// The 21-bit `jal` offset.
pub open spec fn jal_imm(b: u64) -> u64 {
    (field(b, 31, 1) << 20u64) | (field(b, 12, 8) << 12u64) | (field(b, 20, 1) << 11u64) | (field(
        b,
        21,
        10,
    ) << 1u64)
}

/// The 13-bit branch offset.
pub open spec fn branch_imm(b: u64) -> u64 {
    (field(b, 31, 1) << 12u64) | (field(b, 7, 1) << 11u64) | (field(b, 25, 6) << 5u64) | (field(
        b,
        8,
        4,
    ) << 1u64)
}

/// The 12-bit store offset.
pub open spec fn store_imm(b: u64) -> u64 {
    (field(b, 25, 7) << 5u64) | field(b, 7, 5)
}

/// Whether a system instruction with funct3 zero is one of the privileged instructions.
pub open spec fn system_ast(imm: u64) -> Option<Ast> {
    if imm == 0 {
        Some(Ast::Ecall)
    } else if imm == 1 {
        Some(Ast::Ebreak)
    } else if imm == 0x302 {
        Some(Ast::Mret)
    } else if imm == 0x102 {
        Some(Ast::Sret)
    } else if imm == 0x105 {
        Some(Ast::Wfi)
    } else {
        None
    }
}

/// The decoding of the instruction word `instr`.
pub open spec fn decode_spec(instr: u32) -> Ast {
    let b = instr as u64;
    let opcode = field(b, 0, 7);
    let rd = reg_field(b, 7);
    let f3 = field(b, 12, 3);
    let rs1 = reg_field(b, 15);
    let rs2 = reg_field(b, 20);
    let f7 = field(b, 25, 7);
    let imm = field(b, 20, 12);
    let hi6 = field(b, 26, 6);
    if opcode == OP_LUI {
        Ast::Utype { imm: field(b, 12, 20), rd, op: UOp::Lui }
    } else if opcode == OP_AUIPC {
        Ast::Utype { imm: field(b, 12, 20), rd, op: UOp::Auipc }
    } else if opcode == OP_JAL {
        Ast::Jal { imm: jal_imm(b), rd }
    } else if opcode == OP_JALR && f3 == 0 {
        Ast::Jalr { imm, rs1, rd }
    } else if opcode == OP_BRANCH && f3 != 2 && f3 != 3 {
        Ast::Btype { imm: branch_imm(b), rs2, rs1, op: bop_of(f3) }
    } else if opcode == OP_LOAD && f3 != 7 {
        Ast::Load {
            imm,
            rs1,
            rd,
            is_unsigned: f3 >= 4,
            width: width_of(f3 % 4),
            aq: false,
            rl: false,
        }
    } else if opcode == OP_STORE && f3 < 4 {
        Ast::Store { imm: store_imm(b), rs2, rs1, width: width_of(f3), aq: false, rl: false }
    } else if opcode == OP_IMM && f3 != 1 && f3 != 5 {
        Ast::Itype { imm, rs1, rd, op: iop_of(f3) }
    } else if opcode == OP_IMM && ((f3 == 1 && hi6 == 0) || (f3 == 5 && (hi6 == 0 || hi6
        == 0x10))) {
        Ast::ShiftIop { shamt: field(b, 20, 6), rs1, rd, op: sop_of(f3, hi6) }
    } else if opcode == OP_OP && (f7 == 0 || (f7 == 0x20 && (f3 == 0 || f3 == 5))) {
        Ast::Rtype { rs2, rs1, rd, op: rop_of(f3, f7) }
    } else if opcode == OP_IMM_32 && f3 == 0 {
        Ast::AddIw { imm, rs1, rd }
    } else if opcode == OP_IMM_32 && ((f3 == 1 && f7 == 0) || (f3 == 5 && (f7 == 0 || f7
        == 0x20))) {
        Ast::ShiftIwop { shamt: field(b, 20, 5), rs1, rd, op: sop_of(f3, f7) }
    } else if opcode == OP_OP_32 && (((f3 == 0 || f3 == 5) && (f7 == 0 || f7 == 0x20)) || (f3
        == 1 && f7 == 0)) {
        Ast::Rtypew { rs2, rs1, rd, op: rwop_of(f3, f7) }
    } else if opcode == OP_MISC_MEM && f3 == 0 {
        Ast::Fence { pred: field(b, 24, 4), succ: field(b, 20, 4) }
    } else if opcode == OP_SYSTEM && f3 == 0 && field(b, 7, 5) == 0 && field(b, 15, 5) == 0
        && system_ast(imm) is Some {
        system_ast(imm)->Some_0
    } else if opcode == OP_SYSTEM && f3 != 0 && f3 != 4 {
        if f3 < 4 {
            Ast::CsrReg { csr: imm, rs1, rd, op: csr_op_of(f3 % 4) }
        } else {
            Ast::CsrImm { csr: imm, uimm: field(b, 15, 5), rd, op: csr_op_of(f3 % 4) }
        }
    } else {
        Ast::Illegal(instr)
    }
}

proof fn lemma_reg_field_bound(b: u64, start: u64)
    by (bit_vector)
    ensures
        field(b, start, 5) < 32,
{
}

fn reg_at(b: u64, start: u64) -> (r: GeneralRegister)
    requires
        start < 64,
    ensures
        r == reg_field(b, start),
{
    let i = slice_bits(b, start, 5);
    proof {
        lemma_reg_field_bound(b, start);
    }
    GeneralRegister::from_index(i)
}

fn bop_exec(f3: u64) -> (r: BOp)
    ensures
        r == bop_of(f3),
{
    if f3 == 0 {
        BOp::Beq
    } else if f3 == 1 {
        BOp::Bne
    } else if f3 == 4 {
        BOp::Blt
    } else if f3 == 5 {
        BOp::Bge
    } else if f3 == 6 {
        BOp::Bltu
    } else {
        BOp::Bgeu
    }
}

fn iop_exec(f3: u64) -> (r: IOp)
    ensures
        r == iop_of(f3),
{
    if f3 == 0 {
        IOp::Addi
    } else if f3 == 2 {
        IOp::Slti
    } else if f3 == 3 {
        IOp::Sltiu
    } else if f3 == 4 {
        IOp::Xori
    } else if f3 == 6 {
        IOp::Ori
    } else {
        IOp::Andi
    }
}

fn sop_exec(f3: u64, hi: u64) -> (r: SOp)
    ensures
        r == sop_of(f3, hi),
{
    if f3 == 1 {
        SOp::Slli
    } else if hi == 0 {
        SOp::Srli
    } else {
        SOp::Srai
    }
}

fn rop_exec(f3: u64, f7: u64) -> (r: ROp)
    ensures
        r == rop_of(f3, f7),
{
    if f3 == 0 {
        if f7 == 0 { ROp::Add } else { ROp::Sub }
    } else if f3 == 1 {
        ROp::Sll
    } else if f3 == 2 {
        ROp::Slt
    } else if f3 == 3 {
        ROp::Sltu
    } else if f3 == 4 {
        ROp::Xor
    } else if f3 == 5 {
        if f7 == 0 { ROp::Srl } else { ROp::Sra }
    } else if f3 == 6 {
        ROp::Or
    } else {
        ROp::And
    }
}

fn rwop_exec(f3: u64, f7: u64) -> (r: RwOp)
    ensures
        r == rwop_of(f3, f7),
{
    if f3 == 0 {
        if f7 == 0 { RwOp::Addw } else { RwOp::Subw }
    } else if f3 == 1 {
        RwOp::Sllw
    } else if f7 == 0 {
        RwOp::Srlw
    } else {
        RwOp::Sraw
    }
}

fn width_exec(w: u64) -> (r: WordWidth)
    ensures
        r == width_of(w),
{
    if w == 0 {
        WordWidth::Byte
    } else if w == 1 {
        WordWidth::Half
    } else if w == 2 {
        WordWidth::Word
    } else {
        WordWidth::Double
    }
}

fn csr_op_exec(w: u64) -> (r: CsrOp)
    ensures
        r == csr_op_of(w),
{
    if w == 1 {
        CsrOp::Csrrw
    } else if w == 2 {
        CsrOp::Csrrs
    } else {
        CsrOp::Csrrc
    }
}

fn system_exec(imm: u64) -> (r: Option<Ast>)
    ensures
        r == system_ast(imm),
{
    if imm == 0 {
        Some(Ast::Ecall)
    } else if imm == 1 {
        Some(Ast::Ebreak)
    } else if imm == 0x302 {
        Some(Ast::Mret)
    } else if imm == 0x102 {
        Some(Ast::Sret)
    } else if imm == 0x105 {
        Some(Ast::Wfi)
    } else {
        None
    }
}

/// Decode a 32-bit instruction word. Every word decodes, to an instruction or to
/// `Ast::Illegal` with the word itself.
pub fn decode(instr: u32) -> (r: Ast)
    ensures
        r == decode_spec(instr),
{
    let b = instr as u64;
    let opcode = slice_bits(b, 0, 7);
    let rd = reg_at(b, 7);
    let f3 = slice_bits(b, 12, 3);
    let rs1 = reg_at(b, 15);
    let rs2 = reg_at(b, 20);
    let f7 = slice_bits(b, 25, 7);
    let imm = slice_bits(b, 20, 12);
    let hi6 = slice_bits(b, 26, 6);
    if opcode == OP_LUI {
        Ast::Utype { imm: slice_bits(b, 12, 20), rd, op: UOp::Lui }
    } else if opcode == OP_AUIPC {
        Ast::Utype { imm: slice_bits(b, 12, 20), rd, op: UOp::Auipc }
    } else if opcode == OP_JAL {
        let imm = (slice_bits(b, 31, 1) << 20u64) | (slice_bits(b, 12, 8) << 12u64) | (
        slice_bits(b, 20, 1) << 11u64) | (slice_bits(b, 21, 10) << 1u64);
        Ast::Jal { imm, rd }
    } else if opcode == OP_JALR && f3 == 0 {
        Ast::Jalr { imm, rs1, rd }
    } else if opcode == OP_BRANCH && f3 != 2 && f3 != 3 {
        let imm = (slice_bits(b, 31, 1) << 12u64) | (slice_bits(b, 7, 1) << 11u64) | (
        slice_bits(b, 25, 6) << 5u64) | (slice_bits(b, 8, 4) << 1u64);
        Ast::Btype { imm, rs2, rs1, op: bop_exec(f3) }
    } else if opcode == OP_LOAD && f3 != 7 {
        Ast::Load {
            imm,
            rs1,
            rd,
            is_unsigned: f3 >= 4,
            width: width_exec(f3 % 4),
            aq: false,
            rl: false,
        }
    } else if opcode == OP_STORE && f3 < 4 {
        let imm = (slice_bits(b, 25, 7) << 5u64) | slice_bits(b, 7, 5);
        Ast::Store { imm, rs2, rs1, width: width_exec(f3), aq: false, rl: false }
    } else if opcode == OP_IMM && f3 != 1 && f3 != 5 {
        Ast::Itype { imm, rs1, rd, op: iop_exec(f3) }
    } else if opcode == OP_IMM && ((f3 == 1 && hi6 == 0) || (f3 == 5 && (hi6 == 0 || hi6
        == 0x10))) {
        Ast::ShiftIop { shamt: slice_bits(b, 20, 6), rs1, rd, op: sop_exec(f3, hi6) }
    } else if opcode == OP_OP && (f7 == 0 || (f7 == 0x20 && (f3 == 0 || f3 == 5))) {
        Ast::Rtype { rs2, rs1, rd, op: rop_exec(f3, f7) }
    } else if opcode == OP_IMM_32 && f3 == 0 {
        Ast::AddIw { imm, rs1, rd }
    } else if opcode == OP_IMM_32 && ((f3 == 1 && f7 == 0) || (f3 == 5 && (f7 == 0 || f7
        == 0x20))) {
        Ast::ShiftIwop { shamt: slice_bits(b, 20, 5), rs1, rd, op: sop_exec(f3, f7) }
    } else if opcode == OP_OP_32 && (((f3 == 0 || f3 == 5) && (f7 == 0 || f7 == 0x20)) || (f3
        == 1 && f7 == 0)) {
        Ast::Rtypew { rs2, rs1, rd, op: rwop_exec(f3, f7) }
    } else if opcode == OP_MISC_MEM && f3 == 0 {
        Ast::Fence { pred: slice_bits(b, 24, 4), succ: slice_bits(b, 20, 4) }
    } else if opcode == OP_SYSTEM && f3 == 0 && slice_bits(b, 7, 5) == 0 && slice_bits(b, 15, 5)
        == 0 {
        match system_exec(imm) {
            Some(a) => a,
            None => Ast::Illegal(instr),
        }
    } else if opcode == OP_SYSTEM && f3 != 0 && f3 != 4 {
        if f3 < 4 {
            Ast::CsrReg { csr: imm, rs1, rd, op: csr_op_exec(f3 % 4) }
        } else {
            Ast::CsrImm { csr: imm, uimm: slice_bits(b, 15, 5), rd, op: csr_op_exec(f3 % 4) }
        }
    } else {
        Ast::Illegal(instr)
    }
}

impl Core {
    /// Decode an instruction.
    pub fn decode_instr(&self, instr: u32) -> (r: Ast)
        ensures
            r == decode_spec(instr),
    {
        decode(instr)
    }
}

/// Decoding is total: each word gives an instruction or the illegal marker, and the illegal
/// marker carries the word itself.
pub proof fn lemma_decode_illegal_keeps_bits(instr: u32)
    ensures
        decode_spec(instr) is Illegal ==> decode_spec(instr) == Ast::Illegal(instr),
{
}

} // verus!
