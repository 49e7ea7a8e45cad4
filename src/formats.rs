//! The six RISC-V instruction formats and the generic opcode probe.
//!
//! Each extractor is total: every 32-bit word yields a view, and only the
//! meaning of the reconstructed immediate differs between formats.
use crate::bits::{signed, to_signed};
use vstd::prelude::*;

verus! {

/// Bits `[6:0]`: the opcode.
pub open spec fn opcode_of(raw: u32) -> u32 {
    raw % 0x80
}

/// Bits `[11:7]`: `rd`, or the low immediate bits of S and B.
pub open spec fn rd_of(raw: u32) -> u32 {
    (raw / 0x80) % 0x20
}

/// Bits `[14:12]`: funct3.
pub open spec fn funct3_of(raw: u32) -> u32 {
    (raw / 0x1000) % 0x8
}

/// Bits `[19:15]`: `rs1`.
pub open spec fn rs1_of(raw: u32) -> u32 {
    (raw / 0x8000) % 0x20
}

/// Bits `[24:20]`: `rs2`, or the shift amount of the 32-bit immediate shifts.
pub open spec fn rs2_of(raw: u32) -> u32 {
    (raw / 0x100000) % 0x20
}

/// Bits `[31:25]`: funct7, or the high immediate bits of S and B.
pub open spec fn funct7_of(raw: u32) -> u32 {
    raw / 0x2000000
}

/// Bits `[31:26]`: funct6, which selects the 64-bit immediate shifts.
pub open spec fn funct6_of(raw: u32) -> u32 {
    raw / 0x4000000
}

/// Bits `[31:27]`: funct5 of the atomics, or `rs3` of fused multiply-add.
pub open spec fn funct5_of(raw: u32) -> u32 {
    raw / 0x8000000
}

/// Bits `[26:25]`: funct2 of fused multiply-add.
pub open spec fn funct2_of(raw: u32) -> u32 {
    (raw / 0x2000000) % 0x4
}

/// Bits `[31:20]`: the I-type immediate field.
pub open spec fn imm12_of(raw: u32) -> u32 {
    raw / 0x100000
}

/// Bits `[31:12]`: the U- and J-type immediate field.
pub open spec fn imm20_of(raw: u32) -> u32 {
    raw / 0x1000
}

/// The opcode of a word, used to reject compressed encodings cheaply.
#[derive(Debug, Clone, Copy, PartialEq, Eq, Structural)]
pub struct Generic_Op {
    pub opcode: u32,
    pub raw: u32,
}

/// The opcode probe of `raw`.
pub open spec fn spec_generic_op(raw: u32) -> Generic_Op {
    Generic_Op { opcode: opcode_of(raw), raw }
}

/// The shift-and-mask reading of each field agrees with its specification.
proof fn lemma_fields(raw: u32)
    by (bit_vector)
    ensures
        raw & 0x7F == opcode_of(raw),
        (raw >> 7) & 0x1F == rd_of(raw),
        (raw >> 12) & 0x7 == funct3_of(raw),
        (raw >> 15) & 0x1F == rs1_of(raw),
        (raw >> 20) & 0x1F == rs2_of(raw),
        (raw >> 25) & 0x7F == funct7_of(raw),
        (raw >> 27) & 0x1F == funct5_of(raw),
        (raw >> 25) & 0x3 == funct2_of(raw),
        (raw >> 20) & 0xFFF == imm12_of(raw),
        (raw >> 12) & 0xFFFFF == imm20_of(raw),
        ((raw >> 25) & 0x7F) >> 1 == funct6_of(raw),
        (((raw >> 25) & 0x7F) << 5) | ((raw >> 7) & 0x1F) == funct7_of(raw) * 0x20 + rd_of(raw),
        ((raw >> 12) & 0xFFFFF) << 12 == imm20_of(raw) * 0x1000,
{
}

impl Generic_Op {
    pub fn new(data: u32) -> (r: Self)
        ensures
            r == spec_generic_op(data),
    {
        proof {
            lemma_fields(data);
        }
        Self { opcode: data & 0x7F, raw: data }
    }

    pub fn default() -> (r: Self)
        ensures
            r == spec_generic_op(0),
    {
        Self { opcode: 0, raw: 0 }
    }
}

/// Register-register layout: `funct7[31:25] rs2[24:20] rs1[19:15] funct3[14:12]
/// rd[11:7] opcode[6:0]`, with `rs3[31:27]` and `funct2[26:25]` for fused
/// multiply-add encodings.
#[derive(Debug, Clone, Copy, PartialEq, Eq, Structural)]
pub struct R_Type {
    pub funct7: u32,
    pub rs3: u32,
    pub funct2: u32,
    pub rs2: u32,
    pub rs1: u32,
    pub funct3: u32,
    pub rd: u32,
    pub opcode: u32,
    pub raw: u32,
}

/// The R-type view of `raw`.
pub open spec fn spec_r_type(raw: u32) -> R_Type {
    R_Type {
        funct7: funct7_of(raw),
        rs3: funct5_of(raw),
        funct2: funct2_of(raw),
        rs2: rs2_of(raw),
        rs1: rs1_of(raw),
        funct3: funct3_of(raw),
        rd: rd_of(raw),
        opcode: opcode_of(raw),
        raw,
    }
}

impl R_Type {
    pub fn new(raw: u32) -> (r: Self)
        ensures
            r == spec_r_type(raw),
    {
        proof {
            lemma_fields(raw);
        }
        Self {
            funct7: (raw >> 25) & 0x7F,
            rs3: (raw >> 27) & 0x1F,
            funct2: (raw >> 25) & 0x3,
            rs2: (raw >> 20) & 0x1F,
            rs1: (raw >> 15) & 0x1F,
            funct3: (raw >> 12) & 0x7,
            rd: (raw >> 7) & 0x1F,
            opcode: raw & 0x7F,
            raw,
        }
    }

    pub fn new_from_generic(op: Generic_Op) -> (r: Self)
        ensures
            r == spec_r_type(op.raw),
    {
        Self::new(op.raw)
    }

    pub fn default() -> (r: Self)
        ensures
            r == spec_r_type(0),
    {
        Self { funct7: 0, rs3: 0, funct2: 0, rs2: 0, rs1: 0, funct3: 0, rd: 0, opcode: 0, raw: 0 }
    }
}

/// Immediate layout: `imm[11:0]` at `[31:20]`, then `rs1 funct3 rd opcode` as in R.
#[derive(Debug, Clone, Copy, PartialEq, Eq, Structural)]
pub struct I_Type {
    pub parsed_imm: i64,
    pub imm_110: u32,
    pub rs1: u32,
    pub funct3: u32,
    pub rd: u32,
    pub opcode: u32,
    pub raw: u32,
}

/// The I-type view of `raw`.
pub open spec fn spec_i_type(raw: u32) -> I_Type {
    I_Type {
        parsed_imm: signed(imm12_of(raw) as int, 0x1000) as i64,
        imm_110: imm12_of(raw),
        rs1: rs1_of(raw),
        funct3: funct3_of(raw),
        rd: rd_of(raw),
        opcode: opcode_of(raw),
        raw,
    }
}

impl I_Type {
    pub fn new(raw: u32) -> (r: Self)
        ensures
            r == spec_i_type(raw),
    {
        proof {
            lemma_fields(raw);
        }
        let imm_110 = (raw >> 20) & 0xFFF;
        Self {
            parsed_imm: to_signed(imm_110, 0x1000),
            imm_110,
            rs1: (raw >> 15) & 0x1F,
            funct3: (raw >> 12) & 0x7,
            rd: (raw >> 7) & 0x1F,
            opcode: raw & 0x7F,
            raw,
        }
    }

    pub fn new_from_generic(op: Generic_Op) -> (r: Self)
        ensures
            r == spec_i_type(op.raw),
    {
        Self::new(op.raw)
    }

    pub fn default() -> (r: Self)
        ensures
            r == spec_i_type(0),
    {
        Self { parsed_imm: 0, imm_110: 0, rs1: 0, funct3: 0, rd: 0, opcode: 0, raw: 0 }
    }
}

/// Store layout: `imm[11:5]` at `[31:25]` and `imm[4:0]` at `[11:7]`, where
/// R-type has funct7 and `rd`.
#[derive(Debug, Clone, Copy, PartialEq, Eq, Structural)]
pub struct S_Type {
    pub parsed_imm: i64,
    pub imm_115: u32,
    pub rs2: u32,
    pub rs1: u32,
    pub funct3: u32,
    pub imm_40: u32,
    pub opcode: u32,
    pub raw: u32,
}

/// The S-type view of `raw`.
pub open spec fn spec_s_type(raw: u32) -> S_Type {
    S_Type {
        parsed_imm: signed(funct7_of(raw) * 0x20 + rd_of(raw), 0x1000) as i64,
        imm_115: funct7_of(raw),
        rs2: rs2_of(raw),
        rs1: rs1_of(raw),
        funct3: funct3_of(raw),
        imm_40: rd_of(raw),
        opcode: opcode_of(raw),
        raw,
    }
}

impl S_Type {
    pub fn new(raw: u32) -> (r: Self)
        ensures
            r == spec_s_type(raw),
    {
        proof {
            lemma_fields(raw);
        }
        let imm_115 = (raw >> 25) & 0x7F;
        let imm_40 = (raw >> 7) & 0x1F;
        Self {
            parsed_imm: to_signed((imm_115 << 5) | imm_40, 0x1000),
            imm_115,
            rs2: (raw >> 20) & 0x1F,
            rs1: (raw >> 15) & 0x1F,
            funct3: (raw >> 12) & 0x7,
            imm_40,
            opcode: raw & 0x7F,
            raw,
        }
    }

    pub fn new_from_generic(op: Generic_Op) -> (r: Self)
        ensures
            r == spec_s_type(op.raw),
    {
        Self::new(op.raw)
    }

    pub fn default() -> (r: Self)
        ensures
            r == spec_s_type(0),
    {
        Self {
            parsed_imm: 0,
            imm_115: 0,
            rs2: 0,
            rs1: 0,
            funct3: 0,
            imm_40: 0,
            opcode: 0,
            raw: 0,
        }
    }
}

/// Branch layout: `[31:25]` holds `imm[12|10:5]` and `[11:7]` holds
/// `imm[4:1|11]`; the offset is always even.
#[derive(Debug, Clone, Copy, PartialEq, Eq, Structural)]
pub struct B_Type {
    pub parsed_imm: i64,
    pub imm_12_105: u32,
    pub rs2: u32,
    pub rs1: u32,
    pub funct3: u32,
    pub imm_41_11: u32,
    pub opcode: u32,
    pub raw: u32,
}

/// The 13-bit branch offset `{imm[12], imm[11], imm[10:5], imm[4:1], 0}`,
/// taken from bits `31`, `7`, `[30:25]` and `[11:8]` of `raw`.
pub open spec fn b_offset_bits(raw: u32) -> int {
    (raw / 0x80000000) * 0x1000 + ((raw / 0x80) % 2) * 0x800 + ((raw / 0x2000000) % 0x40) * 0x20
        + ((raw / 0x100) % 0x10) * 2
}

/// The B-type view of `raw`.
pub open spec fn spec_b_type(raw: u32) -> B_Type {
    B_Type {
        parsed_imm: signed(b_offset_bits(raw), 0x2000) as i64,
        imm_12_105: funct7_of(raw),
        rs2: rs2_of(raw),
        rs1: rs1_of(raw),
        funct3: funct3_of(raw),
        imm_41_11: rd_of(raw),
        opcode: opcode_of(raw),
        raw,
    }
}

proof fn lemma_b_offset(raw: u32, hi: u32, lo: u32)
    by (bit_vector)
    requires
        hi == (raw >> 25) & 0x7F,
        lo == (raw >> 7) & 0x1F,
    ensures
        ((hi >> 6) << 12) | ((lo & 1) << 11) | ((hi & 0x3F) << 5) | (lo & 0x1E) == b_offset_bits(
            raw,
        ),
        ((hi >> 6) << 12) | ((lo & 1) << 11) | ((hi & 0x3F) << 5) | (lo & 0x1E) < 0x2000,
{
}

impl B_Type {
    pub fn new(raw: u32) -> (r: Self)
        ensures
            r == spec_b_type(raw),
    {
        let imm_12_105 = (raw >> 25) & 0x7F;
        let imm_41_11 = (raw >> 7) & 0x1F;
        proof {
            lemma_fields(raw);
            lemma_b_offset(raw, imm_12_105, imm_41_11);
        }
        let offset = ((imm_12_105 >> 6) << 12) | ((imm_41_11 & 1) << 11) | ((imm_12_105 & 0x3F)
            << 5) | (imm_41_11 & 0x1E);
        Self {
            parsed_imm: to_signed(offset, 0x2000),
            imm_12_105,
            rs2: (raw >> 20) & 0x1F,
            rs1: (raw >> 15) & 0x1F,
            funct3: (raw >> 12) & 0x7,
            imm_41_11,
            opcode: raw & 0x7F,
            raw,
        }
    }

    pub fn new_from_generic(op: Generic_Op) -> (r: Self)
        ensures
            r == spec_b_type(op.raw),
    {
        Self::new(op.raw)
    }

    pub fn default() -> (r: Self)
        ensures
            r == spec_b_type(0),
    {
        Self {
            parsed_imm: 0,
            imm_12_105: 0,
            rs2: 0,
            rs1: 0,
            funct3: 0,
            imm_41_11: 0,
            opcode: 0,
            raw: 0,
        }
    }
}

/// Upper-immediate layout: `imm[31:12]` at `[31:12]`. The reconstructed
/// immediate keeps those bits in place (the low twelve are zero) and is
/// sign-extended from bit 31, the value that `LUI` writes on a 64-bit hart.
#[derive(Debug, Clone, Copy, PartialEq, Eq, Structural)]
pub struct U_Type {
    pub parsed_imm: i64,
    pub imm_3112: u32,
    pub rd: u32,
    pub opcode: u32,
    pub raw: u32,
}

/// The U-type view of `raw`.
pub open spec fn spec_u_type(raw: u32) -> U_Type {
    U_Type {
        parsed_imm: signed(imm20_of(raw) * 0x1000, 0x1_0000_0000) as i64,
        imm_3112: imm20_of(raw),
        rd: rd_of(raw),
        opcode: opcode_of(raw),
        raw,
    }
}

impl U_Type {
    pub fn new(raw: u32) -> (r: Self)
        ensures
            r == spec_u_type(raw),
    {
        proof {
            lemma_fields(raw);
        }
        let imm_3112 = (raw >> 12) & 0xFFFFF;
        Self {
            parsed_imm: to_signed(imm_3112 << 12, 0x1_0000_0000),
            imm_3112,
            rd: (raw >> 7) & 0x1F,
            opcode: raw & 0x7F,
            raw,
        }
    }

    pub fn new_from_generic(op: Generic_Op) -> (r: Self)
        ensures
            r == spec_u_type(op.raw),
    {
        Self::new(op.raw)
    }

    pub fn default() -> (r: Self)
        ensures
            r == spec_u_type(0),
    {
        Self { parsed_imm: 0, imm_3112: 0, rd: 0, opcode: 0, raw: 0 }
    }
}

/// Jump layout: `[31:12]` holds `imm[20|10:1|11|19:12]`; the offset is
/// always even.
#[derive(Debug, Clone, Copy, PartialEq, Eq, Structural)]
pub struct J_Type {
    pub parsed_imm: i64,
    pub imm_20_101_11_1912: u32,
    pub rd: u32,
    pub opcode: u32,
    pub raw: u32,
}

/// The 21-bit jump offset `{imm[20], imm[19:12], imm[11], imm[10:1], 0}`,
/// taken from bits `31`, `[19:12]`, `20` and `[30:21]` of `raw`.
pub open spec fn j_offset_bits(raw: u32) -> int {
    (raw / 0x80000000) * 0x100000 + ((raw / 0x1000) % 0x100) * 0x1000 + ((raw / 0x100000) % 2)
        * 0x800 + ((raw / 0x200000) % 0x400) * 2
}

/// The J-type view of `raw`.
pub open spec fn spec_j_type(raw: u32) -> J_Type {
    J_Type {
        parsed_imm: signed(j_offset_bits(raw), 0x200000) as i64,
        imm_20_101_11_1912: imm20_of(raw),
        rd: rd_of(raw),
        opcode: opcode_of(raw),
        raw,
    }
}

proof fn lemma_j_offset(raw: u32, f: u32)
    by (bit_vector)
    requires
        f == (raw >> 12) & 0xFFFFF,
    ensures
        (((f & 0x80000) >> 19) << 20) | ((f & 0xFF) << 12) | (((f & 0x100) >> 8) << 11) | (((f
            & 0x7FE00) >> 9) << 1) == j_offset_bits(raw),
        (((f & 0x80000) >> 19) << 20) | ((f & 0xFF) << 12) | (((f & 0x100) >> 8) << 11) | (((f
            & 0x7FE00) >> 9) << 1) < 0x200000,
{
}

impl J_Type {
    pub fn new(raw: u32) -> (r: Self)
        ensures
            r == spec_j_type(raw),
    {
        let imm_20_101_11_1912 = (raw >> 12) & 0xFFFFF;
        proof {
            lemma_fields(raw);
            lemma_j_offset(raw, imm_20_101_11_1912);
        }
        let f = imm_20_101_11_1912;
        let offset = (((f & 0x80000) >> 19) << 20) | ((f & 0xFF) << 12) | (((f & 0x100) >> 8)
            << 11) | (((f & 0x7FE00) >> 9) << 1);
        Self {
            parsed_imm: to_signed(offset, 0x200000),
            imm_20_101_11_1912,
            rd: (raw >> 7) & 0x1F,
            opcode: raw & 0x7F,
            raw,
        }
    }

    pub fn new_from_generic(op: Generic_Op) -> (r: Self)
        ensures
            r == spec_j_type(op.raw),
    {
        Self::new(op.raw)
    }

    pub fn default() -> (r: Self)
        ensures
            r == spec_j_type(0),
    {
        Self { parsed_imm: 0, imm_20_101_11_1912: 0, rd: 0, opcode: 0, raw: 0 }
    }
}

} // verus!
