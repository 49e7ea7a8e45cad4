//! The instruction model and the opcode / funct3 / funct7 decision table.
use crate::formats::{
    funct3_of, funct5_of, funct6_of, funct7_of, imm12_of, opcode_of, spec_b_type, spec_i_type,
    spec_j_type, spec_r_type, spec_s_type, spec_u_type, B_Type, Generic_Op, I_Type, J_Type,
    R_Type, S_Type, U_Type,
};
use vstd::prelude::*;

verus! {

/// One variant per mnemonic, each holding the format view it was decoded from.
///
/// The F and D variants and the A variants other than `LRW` are part of the
/// model but have no row in the decision table yet.
#[derive(Debug, Clone, Copy, PartialEq, Eq, Structural)]
pub enum Instruction {
    // RV32I base instruction set
    LUI(U_Type),
    AUIPC(U_Type),
    JAL(J_Type),
    JALR(I_Type),
    BEQ(B_Type),
    BNE(B_Type),
    BLT(B_Type),
    BGE(B_Type),
    BLTU(B_Type),
    BGEU(B_Type),
    LB(I_Type),
    LH(I_Type),
    LW(I_Type),
    LBU(I_Type),
    LHU(I_Type),
    LWU(I_Type),
    LD(I_Type),
    SB(S_Type),
    SH(S_Type),
    SW(S_Type),
    SD(S_Type),
    ADDI(I_Type),
    SLTI(I_Type),
    SLTIU(I_Type),
    XORI(I_Type),
    ORI(I_Type),
    ANDI(I_Type),
    SLLI(R_Type),
    SRLI(R_Type),
    SRAI(R_Type),
    ADD(R_Type),
    SUB(R_Type),
    SLL(R_Type),
    SLT(R_Type),
    SLTU(R_Type),
    XOR(R_Type),
    SRL(R_Type),
    SRA(R_Type),
    OR(R_Type),
    AND(R_Type),
    FENCE(I_Type),
    ECALL(I_Type),
    EBREAK(I_Type),
    // RV64I additions to the base set
    ADDIW(I_Type),
    SLLIW(R_Type),
    SRLIW(R_Type),
    SRAIW(R_Type),
    ADDW(R_Type),
    SUBW(R_Type),
    SLLW(R_Type),
    SRLW(R_Type),
    SRAW(R_Type),
    // Zifencei: instruction-fetch fence
    FENCEI(I_Type),
    // Zicsr: control and status registers
    CSRRW(I_Type),
    CSRRS(I_Type),
    CSRRC(I_Type),
    CSRRWI(I_Type),
    CSRRSI(I_Type),
    CSRRCI(I_Type),
    // RV32M: multiply and divide
    MUL(R_Type),
    MULH(R_Type),
    MULHSU(R_Type),
    MULHU(R_Type),
    DIV(R_Type),
    DIVU(R_Type),
    REM(R_Type),
    REMU(R_Type),
    // RV64M: 32-bit-result multiply and divide
    MULW(R_Type),
    DIVW(R_Type),
    DIVUW(R_Type),
    REMW(R_Type),
    REMUW(R_Type),
    // RV32A: atomics (only `LR.W` is decoded)
    LRW(R_Type),
    SCW(R_Type),
    AMOSWAPW(R_Type),
    AMOADDW(R_Type),
    AMOXORW(R_Type),
    AMOANDW(R_Type),
    AMOORW(R_Type),
    AMOMINW(R_Type),
    AMOMAXW(R_Type),
    AMOMINUW(R_Type),
    AMOMAXUW(R_Type),
    // RV64A: atomics (not decoded)
    LRD(R_Type),
    SCD(R_Type),
    AMOSWAPD(R_Type),
    AMOADDD(R_Type),
    AMOXORD(R_Type),
    AMOANDD(R_Type),
    AMOORD(R_Type),
    AMOMIND(R_Type),
    AMOMAXD(R_Type),
    AMOMINUD(R_Type),
    AMOMAXUD(R_Type),
    // RV32F: single precision (not decoded)
    FLW(I_Type),
    FSW(S_Type),
    FMADDS(R_Type),
    FMSUBS(R_Type),
    FNMSUBS(R_Type),
    FNMADDS(R_Type),
    FADDS(R_Type),
    FSUBS(R_Type),
    FMULS(R_Type),
    FDIVS(R_Type),
    FSQRT(R_Type),
    FSGNJS(R_Type),
    FSGNJNS(R_Type),
    FSGNJXS(R_Type),
    FMINS(R_Type),
    FMAXS(R_Type),
    FCVTWS(R_Type),
    FCVTWUS(R_Type),
    FMVXW(R_Type),
    FEQS(R_Type),
    FLTS(R_Type),
    FLES(R_Type),
    FCLASSS(R_Type),
    FCVTSW(R_Type),
    FCVTSWU(R_Type),
    FMVWX(R_Type),
    // RV64F (not decoded)
    FCVTLS(R_Type),
    FCVTLUS(R_Type),
    FCVTSL(R_Type),
    FCVTSLU(R_Type),
    FLD(R_Type),
    // RV32D: double precision (not decoded)
    FSD(R_Type),
    FMADDD(R_Type),
    FMSUBD(R_Type),
    FNMSUBD(R_Type),
    FNMADDD(R_Type),
    FADDD(R_Type),
    FSUBD(R_Type),
    FMULD(R_Type),
    FDIVD(R_Type),
    FSQRTD(R_Type),
    FSGNJD(R_Type),
    FSGNJND(R_Type),
    FSGNJXD(R_Type),
    FMIND(R_Type),
    FMAXD(R_Type),
    FCVTSD(R_Type),
    FCVTDS(R_Type),
    FEQD(R_Type),
    FLTD(R_Type),
    FLED(R_Type),
    FCLASSD(R_Type),
    FCVTWD(R_Type),
    FCVTWUD(R_Type),
    FCVTDW(R_Type),
    FCVTDWU(R_Type),
    // RV64D (not decoded)
    FCVTLD(R_Type),
    FCVTLUD(R_Type),
    FMVXD(R_Type),
    FCVTDL(R_Type),
    FCVTDLU(R_Type),
    FMVDX(R_Type),
}

/// Why a word could not be decoded.
#[derive(Debug, Clone, Copy, PartialEq, Eq, Structural)]
pub enum DecodeError {
    /// Bits `[1:0]` are not `11`: a 16-bit compressed encoding.
    CompressedUnsupported,
    /// A 32-bit word whose selector has no row in the table.
    UnknownEncoding { opcode: u32, funct3: u32, funct7: u32 },
}

/// Whether `raw` is a 16-bit compressed encoding.
pub open spec fn is_compressed(raw: u32) -> bool {
    raw % 4 != 0b11
}

/// The decision table: the instruction that the selector of a 32-bit word
/// names, ordered opcode, then funct3, then funct7 or the sub-field of it that
/// the opcode uses.
pub open spec fn table_row(raw: u32) -> Option<Instruction> {
    let f3 = funct3_of(raw);
    let f7 = funct7_of(raw);
    let r = spec_r_type(raw);
    let i = spec_i_type(raw);
    let s = spec_s_type(raw);
    let b = spec_b_type(raw);
    match opcode_of(raw) {
        0b0110111 => Some(Instruction::LUI(spec_u_type(raw))),
        0b0010111 => Some(Instruction::AUIPC(spec_u_type(raw))),
        0b1101111 => Some(Instruction::JAL(spec_j_type(raw))),
        0b1100111 => if f3 == 0b000 {
            Some(Instruction::JALR(i))
        } else {
            None
        },
        0b1100011 => match f3 {
            0b000 => Some(Instruction::BEQ(b)),
            0b001 => Some(Instruction::BNE(b)),
            0b100 => Some(Instruction::BLT(b)),
            0b101 => Some(Instruction::BGE(b)),
            0b110 => Some(Instruction::BLTU(b)),
            0b111 => Some(Instruction::BGEU(b)),
            _ => None,
        },
        0b0000011 => match f3 {
            0b000 => Some(Instruction::LB(i)),
            0b001 => Some(Instruction::LH(i)),
            0b010 => Some(Instruction::LW(i)),
            0b011 => Some(Instruction::LD(i)),
            0b100 => Some(Instruction::LBU(i)),
            0b101 => Some(Instruction::LHU(i)),
            0b110 => Some(Instruction::LWU(i)),
            _ => None,
        },
        0b0100011 => match f3 {
            0b000 => Some(Instruction::SB(s)),
            0b001 => Some(Instruction::SH(s)),
            0b010 => Some(Instruction::SW(s)),
            0b011 => Some(Instruction::SD(s)),
            _ => None,
        },
        0b0010011 => match (f3, funct6_of(raw)) {
            (0b000, _) => Some(Instruction::ADDI(i)),
            (0b010, _) => Some(Instruction::SLTI(i)),
            (0b011, _) => Some(Instruction::SLTIU(i)),
            (0b100, _) => Some(Instruction::XORI(i)),
            (0b110, _) => Some(Instruction::ORI(i)),
            (0b111, _) => Some(Instruction::ANDI(i)),
            (0b001, 0b000000) => Some(Instruction::SLLI(r)),
            (0b101, 0b000000) => Some(Instruction::SRLI(r)),
            (0b101, 0b010000) => Some(Instruction::SRAI(r)),
            _ => None,
        },
        0b0110011 => match (f3, f7) {
            (0b000, 0b0000000) => Some(Instruction::ADD(r)),
            (0b000, 0b0100000) => Some(Instruction::SUB(r)),
            (0b001, 0b0000000) => Some(Instruction::SLL(r)),
            (0b010, 0b0000000) => Some(Instruction::SLT(r)),
            (0b011, 0b0000000) => Some(Instruction::SLTU(r)),
            (0b100, 0b0000000) => Some(Instruction::XOR(r)),
            (0b101, 0b0000000) => Some(Instruction::SRL(r)),
            (0b101, 0b0100000) => Some(Instruction::SRA(r)),
            (0b110, 0b0000000) => Some(Instruction::OR(r)),
            (0b111, 0b0000000) => Some(Instruction::AND(r)),
            (0b000, 0b0000001) => Some(Instruction::MUL(r)),
            (0b001, 0b0000001) => Some(Instruction::MULH(r)),
            (0b010, 0b0000001) => Some(Instruction::MULHSU(r)),
            (0b011, 0b0000001) => Some(Instruction::MULHU(r)),
            (0b100, 0b0000001) => Some(Instruction::DIV(r)),
            (0b101, 0b0000001) => Some(Instruction::DIVU(r)),
            (0b110, 0b0000001) => Some(Instruction::REM(r)),
            (0b111, 0b0000001) => Some(Instruction::REMU(r)),
            _ => None,
        },
        0b0001111 => match f3 {
            0b000 => Some(Instruction::FENCE(i)),
            0b001 => Some(Instruction::FENCEI(i)),
            _ => None,
        },
        0b1110011 => match (f3, imm12_of(raw)) {
            (0b000, 0) => Some(Instruction::ECALL(i)),
            (0b000, 1) => Some(Instruction::EBREAK(i)),
            (0b001, _) => Some(Instruction::CSRRW(i)),
            (0b010, _) => Some(Instruction::CSRRS(i)),
            (0b011, _) => Some(Instruction::CSRRC(i)),
            (0b101, _) => Some(Instruction::CSRRWI(i)),
            (0b110, _) => Some(Instruction::CSRRSI(i)),
            (0b111, _) => Some(Instruction::CSRRCI(i)),
            _ => None,
        },
        0b0011011 => match (f3, f7) {
            (0b000, _) => Some(Instruction::ADDIW(i)),
            (0b001, 0b0000000) => Some(Instruction::SLLIW(r)),
            (0b101, 0b0000000) => Some(Instruction::SRLIW(r)),
            (0b101, 0b0100000) => Some(Instruction::SRAIW(r)),
            _ => None,
        },
        0b0111011 => match (f3, f7) {
            (0b000, 0b0000000) => Some(Instruction::ADDW(r)),
            (0b000, 0b0100000) => Some(Instruction::SUBW(r)),
            (0b001, 0b0000000) => Some(Instruction::SLLW(r)),
            (0b101, 0b0000000) => Some(Instruction::SRLW(r)),
            (0b101, 0b0100000) => Some(Instruction::SRAW(r)),
            (0b000, 0b0000001) => Some(Instruction::MULW(r)),
            (0b100, 0b0000001) => Some(Instruction::DIVW(r)),
            (0b101, 0b0000001) => Some(Instruction::DIVUW(r)),
            (0b110, 0b0000001) => Some(Instruction::REMW(r)),
            (0b111, 0b0000001) => Some(Instruction::REMUW(r)),
            _ => None,
        },
        0b0101111 => match (f3, funct5_of(raw)) {
            (0b010, 0b00010) => Some(Instruction::LRW(r)),
            _ => None,
        },
        _ => None,
    }
}

/// Looks the selector of a non-compressed word up in the decision table.
fn lookup(raw: u32, r: R_Type, i: I_Type, s: S_Type, b: B_Type, u: U_Type, j: J_Type) -> (res:
    Option<Instruction>)
    requires
        r == spec_r_type(raw),
        i == spec_i_type(raw),
        s == spec_s_type(raw),
        b == spec_b_type(raw),
        u == spec_u_type(raw),
        j == spec_j_type(raw),
    ensures
        res == table_row(raw),
{
    proof {
        lemma_selector_fields(raw);
    }
    let opcode = r.opcode;
    let f3 = r.funct3;
    let f7 = r.funct7;
    let funct6 = r.funct7 >> 1;
    let funct5 = r.rs3;
    let imm12 = i.imm_110;
    match opcode {
        0b0110111 => Some(Instruction::LUI(u)),
        0b0010111 => Some(Instruction::AUIPC(u)),
        0b1101111 => Some(Instruction::JAL(j)),
        0b1100111 => if f3 == 0b000 {
            Some(Instruction::JALR(i))
        } else {
            None
        },
        0b1100011 => match f3 {
            0b000 => Some(Instruction::BEQ(b)),
            0b001 => Some(Instruction::BNE(b)),
            0b100 => Some(Instruction::BLT(b)),
            0b101 => Some(Instruction::BGE(b)),
            0b110 => Some(Instruction::BLTU(b)),
            0b111 => Some(Instruction::BGEU(b)),
            _ => None,
        },
        0b0000011 => match f3 {
            0b000 => Some(Instruction::LB(i)),
            0b001 => Some(Instruction::LH(i)),
            0b010 => Some(Instruction::LW(i)),
            0b011 => Some(Instruction::LD(i)),
            0b100 => Some(Instruction::LBU(i)),
            0b101 => Some(Instruction::LHU(i)),
            0b110 => Some(Instruction::LWU(i)),
            _ => None,
        },
        0b0100011 => match f3 {
            0b000 => Some(Instruction::SB(s)),
            0b001 => Some(Instruction::SH(s)),
            0b010 => Some(Instruction::SW(s)),
            0b011 => Some(Instruction::SD(s)),
            _ => None,
        },
        0b0010011 => match (f3, funct6) {
            (0b000, _) => Some(Instruction::ADDI(i)),
            (0b010, _) => Some(Instruction::SLTI(i)),
            (0b011, _) => Some(Instruction::SLTIU(i)),
            (0b100, _) => Some(Instruction::XORI(i)),
            (0b110, _) => Some(Instruction::ORI(i)),
            (0b111, _) => Some(Instruction::ANDI(i)),
            (0b001, 0b000000) => Some(Instruction::SLLI(r)),
            (0b101, 0b000000) => Some(Instruction::SRLI(r)),
            (0b101, 0b010000) => Some(Instruction::SRAI(r)),
            _ => None,
        },
        0b0110011 => match (f3, f7) {
            (0b000, 0b0000000) => Some(Instruction::ADD(r)),
            (0b000, 0b0100000) => Some(Instruction::SUB(r)),
            (0b001, 0b0000000) => Some(Instruction::SLL(r)),
            (0b010, 0b0000000) => Some(Instruction::SLT(r)),
            (0b011, 0b0000000) => Some(Instruction::SLTU(r)),
            (0b100, 0b0000000) => Some(Instruction::XOR(r)),
            (0b101, 0b0000000) => Some(Instruction::SRL(r)),
            (0b101, 0b0100000) => Some(Instruction::SRA(r)),
            (0b110, 0b0000000) => Some(Instruction::OR(r)),
            (0b111, 0b0000000) => Some(Instruction::AND(r)),
            (0b000, 0b0000001) => Some(Instruction::MUL(r)),
            (0b001, 0b0000001) => Some(Instruction::MULH(r)),
            (0b010, 0b0000001) => Some(Instruction::MULHSU(r)),
            (0b011, 0b0000001) => Some(Instruction::MULHU(r)),
            (0b100, 0b0000001) => Some(Instruction::DIV(r)),
            (0b101, 0b0000001) => Some(Instruction::DIVU(r)),
            (0b110, 0b0000001) => Some(Instruction::REM(r)),
            (0b111, 0b0000001) => Some(Instruction::REMU(r)),
            _ => None,
        },
        0b0001111 => match f3 {
            0b000 => Some(Instruction::FENCE(i)),
            0b001 => Some(Instruction::FENCEI(i)),
            _ => None,
        },
        0b1110011 => match (f3, imm12) {
            (0b000, 0) => Some(Instruction::ECALL(i)),
            (0b000, 1) => Some(Instruction::EBREAK(i)),
            (0b001, _) => Some(Instruction::CSRRW(i)),
            (0b010, _) => Some(Instruction::CSRRS(i)),
            (0b011, _) => Some(Instruction::CSRRC(i)),
            (0b101, _) => Some(Instruction::CSRRWI(i)),
            (0b110, _) => Some(Instruction::CSRRSI(i)),
            (0b111, _) => Some(Instruction::CSRRCI(i)),
            _ => None,
        },
        0b0011011 => match (f3, f7) {
            (0b000, _) => Some(Instruction::ADDIW(i)),
            (0b001, 0b0000000) => Some(Instruction::SLLIW(r)),
            (0b101, 0b0000000) => Some(Instruction::SRLIW(r)),
            (0b101, 0b0100000) => Some(Instruction::SRAIW(r)),
            _ => None,
        },
        0b0111011 => match (f3, f7) {
            (0b000, 0b0000000) => Some(Instruction::ADDW(r)),
            (0b000, 0b0100000) => Some(Instruction::SUBW(r)),
            (0b001, 0b0000000) => Some(Instruction::SLLW(r)),
            (0b101, 0b0000000) => Some(Instruction::SRLW(r)),
            (0b101, 0b0100000) => Some(Instruction::SRAW(r)),
            (0b000, 0b0000001) => Some(Instruction::MULW(r)),
            (0b100, 0b0000001) => Some(Instruction::DIVW(r)),
            (0b101, 0b0000001) => Some(Instruction::DIVUW(r)),
            (0b110, 0b0000001) => Some(Instruction::REMW(r)),
            (0b111, 0b0000001) => Some(Instruction::REMUW(r)),
            _ => None,
        },
        0b0101111 => match (f3, funct5) {
            (0b010, 0b00010) => Some(Instruction::LRW(r)),
            _ => None,
        },
        _ => None,
    }
}

/// The selector sub-fields, read from the format views.
proof fn lemma_selector_fields(raw: u32)
    by (bit_vector)
    ensures
        funct7_of(raw) >> 1 == funct6_of(raw),
        (opcode_of(raw) & 0b11 != 0b11) == is_compressed(raw),
{
}

impl Instruction {
    /// Decodes one 32-bit word: compressed encodings are rejected from the
    /// opcode alone, then all six format views are built and the selector is
    /// looked up in the decision table.
    pub fn parse_instruction(inst: u32) -> (res: Result<Instruction, DecodeError>)
        ensures
            res == decoded(inst),
    {
        let probe = Generic_Op::new(inst);
        proof {
            lemma_selector_fields(inst);
        }
        if probe.opcode & 0b11 != 0b11 {
            return Err(DecodeError::CompressedUnsupported);
        }
        let r = R_Type::new_from_generic(probe);
        let i = I_Type::new_from_generic(probe);
        let s = S_Type::new_from_generic(probe);
        let b = B_Type::new_from_generic(probe);
        let u = U_Type::new_from_generic(probe);
        let j = J_Type::new_from_generic(probe);
        match lookup(inst, r, i, s, b, u, j) {
            Some(found) => Ok(found),
            None => Err(
                DecodeError::UnknownEncoding { opcode: r.opcode, funct3: r.funct3, funct7: r.funct7 },
            ),
        }
    }
}

/// What decoding `raw` yields.
pub open spec fn decoded(raw: u32) -> Result<Instruction, DecodeError> {
    if is_compressed(raw) {
        Err(DecodeError::CompressedUnsupported)
    } else {
        match table_row(raw) {
            Some(inst) => Ok(inst),
            None => Err(
                DecodeError::UnknownEncoding {
                    opcode: opcode_of(raw),
                    funct3: funct3_of(raw),
                    funct7: funct7_of(raw),
                },
            ),
        }
    }
}

/// A word's format view, chosen from its opcode alone.
#[derive(Debug, Clone, Copy, PartialEq, Eq, Structural)]
pub enum InstructionType {
    R_TYPE(R_Type),
    I_TYPE(I_Type),
    S_TYPE(S_Type),
    B_TYPE(B_Type),
    U_TYPE(U_Type),
    J_TYPE(J_Type),
}

/// The format that each opcode of the decision table uses. The immediate
/// shifts, `FENCE` and the `SYSTEM` instructions are read as I-type; the
/// 32-bit immediate operations as R-type, their shift amount in `rs2`.
pub open spec fn format_of(raw: u32) -> Result<InstructionType, DecodeError> {
    if is_compressed(raw) {
        Err(DecodeError::CompressedUnsupported)
    } else {
        match opcode_of(raw) {
            0b0110111 | 0b0010111 => Ok(InstructionType::U_TYPE(spec_u_type(raw))),
            0b1101111 => Ok(InstructionType::J_TYPE(spec_j_type(raw))),
            0b1100111 | 0b0000011 | 0b0010011 | 0b0001111 | 0b1110011 => Ok(
                InstructionType::I_TYPE(spec_i_type(raw)),
            ),
            0b1100011 => Ok(InstructionType::B_TYPE(spec_b_type(raw))),
            0b0100011 => Ok(InstructionType::S_TYPE(spec_s_type(raw))),
            0b0110011 | 0b0011011 | 0b0111011 | 0b0101111 => Ok(
                InstructionType::R_TYPE(spec_r_type(raw)),
            ),
            _ => Err(
                DecodeError::UnknownEncoding {
                    opcode: opcode_of(raw),
                    funct3: funct3_of(raw),
                    funct7: funct7_of(raw),
                },
            ),
        }
    }
}

/// Extracts the format view of `data` that its opcode calls for.
pub fn decode_instruction_type(data: u32) -> (res: Result<InstructionType, DecodeError>)
    ensures
        res == format_of(data),
{
    let generic = Generic_Op::new(data);
    proof {
        lemma_selector_fields(data);
    }
    if generic.opcode & 0b11 != 0b11 {
        return Err(DecodeError::CompressedUnsupported);
    }
    match generic.opcode {
        // LUI, AUIPC
        0b0110111 | 0b0010111 => Ok(InstructionType::U_TYPE(U_Type::new_from_generic(generic))),
        // JAL
        0b1101111 => Ok(InstructionType::J_TYPE(J_Type::new_from_generic(generic))),
        // JALR, loads, immediate arithmetic, FENCE, SYSTEM
        0b1100111 | 0b0000011 | 0b0010011 | 0b0001111 | 0b1110011 => Ok(
            InstructionType::I_TYPE(I_Type::new_from_generic(generic)),
        ),
        // conditional branches
        0b1100011 => Ok(InstructionType::B_TYPE(B_Type::new_from_generic(generic))),
        // stores
        0b0100011 => Ok(InstructionType::S_TYPE(S_Type::new_from_generic(generic))),
        // register arithmetic, 32-bit immediate and register arithmetic, atomics
        0b0110011 | 0b0011011 | 0b0111011 | 0b0101111 => Ok(
            InstructionType::R_TYPE(R_Type::new_from_generic(generic)),
        ),
        _ => {
            let r = R_Type::new_from_generic(generic);
            Err(
                DecodeError::UnknownEncoding {
                    opcode: r.opcode,
                    funct3: r.funct3,
                    funct7: r.funct7,
                },
            )
        },
    }
}

} // verus!
