//! Properties of the extractors and the decision table, stated over the
//! specifications that the decoding functions are proved against.
use crate::bits::signed;
use crate::formats::{
    b_offset_bits, imm20_of, j_offset_bits, rd_of, rs1_of, rs2_of, funct3_of, funct5_of, funct6_of, funct7_of, imm12_of, opcode_of, spec_b_type, spec_i_type,
    spec_j_type, spec_r_type, spec_s_type, spec_u_type,
};
use crate::instruction::{decoded, is_compressed, DecodeError, Instruction};
use vstd::prelude::*;

verus! {

/// The R-type word with the given fields.
pub open spec fn pack_r(funct7: u32, rs2: u32, rs1: u32, funct3: u32, rd: u32, opcode: u32) -> u32 {
    (funct7 << 25) | (rs2 << 20) | (rs1 << 15) | (funct3 << 12) | (rd << 7) | opcode
}

/// Extracting the fields of a packed R-type word gives back the packed values.
pub proof fn lemma_r_round_trip(funct7: u32, rs2: u32, rs1: u32, funct3: u32, rd: u32, opcode: u32)
    by (bit_vector)
    requires
        funct7 < 0x80,
        rs2 < 0x20,
        rs1 < 0x20,
        funct3 < 0x8,
        rd < 0x20,
        opcode < 0x80,
    ensures
        spec_r_type(pack_r(funct7, rs2, rs1, funct3, rd, opcode)).funct7 == funct7,
        spec_r_type(pack_r(funct7, rs2, rs1, funct3, rd, opcode)).rs3 == funct7 / 4,
        spec_r_type(pack_r(funct7, rs2, rs1, funct3, rd, opcode)).funct2 == funct7 % 4,
        spec_r_type(pack_r(funct7, rs2, rs1, funct3, rd, opcode)).rs2 == rs2,
        spec_r_type(pack_r(funct7, rs2, rs1, funct3, rd, opcode)).rs1 == rs1,
        spec_r_type(pack_r(funct7, rs2, rs1, funct3, rd, opcode)).funct3 == funct3,
        spec_r_type(pack_r(funct7, rs2, rs1, funct3, rd, opcode)).rd == rd,
        spec_r_type(pack_r(funct7, rs2, rs1, funct3, rd, opcode)).opcode == opcode,
{
}

/// The I-type word whose immediate is `imm`, with the given other fields.
pub open spec fn pack_i(imm: int, rs1: u32, funct3: u32, rd: u32, opcode: u32) -> u32 {
    (((imm % 0x1000) as u32) << 20) | (rs1 << 15) | (funct3 << 12) | (rd << 7) | opcode
}

/// Extracting a packed I-type word gives back its fields and its signed
/// immediate.
pub proof fn lemma_i_round_trip(imm: int, rs1: u32, funct3: u32, rd: u32, opcode: u32)
    requires
        -0x800 <= imm < 0x800,
        rs1 < 0x20,
        funct3 < 0x8,
        rd < 0x20,
        opcode < 0x80,
    ensures
        ({
            let v = spec_i_type(pack_i(imm, rs1, funct3, rd, opcode));
            &&& v.parsed_imm == imm
            &&& v.imm_110 == imm % 0x1000
            &&& v.rs1 == rs1
            &&& v.funct3 == funct3
            &&& v.rd == rd
            &&& v.opcode == opcode
        }),
{
    let u = (imm % 0x1000) as u32;
    let w = pack_i(imm, rs1, funct3, rd, opcode);
    assert(imm12_of(w) == u && rs1_of(w) == rs1 && funct3_of(w) == funct3 && rd_of(w) == rd
        && opcode_of(w) == opcode) by (bit_vector)
        requires
            w == (u << 20) | (rs1 << 15) | (funct3 << 12) | (rd << 7) | opcode,
            u < 0x1000,
            rs1 < 0x20,
            funct3 < 0x8,
            rd < 0x20,
            opcode < 0x80,
    ;
}

/// The S-type word whose immediate is `imm`, with the given other fields.
pub open spec fn pack_s(imm: int, rs2: u32, rs1: u32, funct3: u32, opcode: u32) -> u32 {
    let u = (imm % 0x1000) as u32;
    ((u >> 5) << 25) | (rs2 << 20) | (rs1 << 15) | (funct3 << 12) | ((u & 0x1F) << 7) | opcode
}

/// Extracting a packed S-type word gives back its fields and its signed
/// immediate.
pub proof fn lemma_s_round_trip(imm: int, rs2: u32, rs1: u32, funct3: u32, opcode: u32)
    requires
        -0x800 <= imm < 0x800,
        rs2 < 0x20,
        rs1 < 0x20,
        funct3 < 0x8,
        opcode < 0x80,
    ensures
        ({
            let v = spec_s_type(pack_s(imm, rs2, rs1, funct3, opcode));
            &&& v.parsed_imm == imm
            &&& v.imm_115 == (imm % 0x1000) / 0x20
            &&& v.imm_40 == imm % 0x20
            &&& v.rs2 == rs2
            &&& v.rs1 == rs1
            &&& v.funct3 == funct3
            &&& v.opcode == opcode
        }),
{
    let u = (imm % 0x1000) as u32;
    let w = pack_s(imm, rs2, rs1, funct3, opcode);
    assert(funct7_of(w) == u / 0x20 && rd_of(w) == u % 0x20 && rs2_of(w) == rs2 && rs1_of(w)
        == rs1 && funct3_of(w) == funct3 && opcode_of(w) == opcode) by (bit_vector)
        requires
            w == ((u >> 5) << 25) | (rs2 << 20) | (rs1 << 15) | (funct3 << 12) | ((u & 0x1F) << 7)
                | opcode,
            u < 0x1000,
            rs2 < 0x20,
            rs1 < 0x20,
            funct3 < 0x8,
            opcode < 0x80,
    ;
}

/// The B-type word that branches by `offset`, with the given other fields.
pub open spec fn pack_b(offset: int, rs2: u32, rs1: u32, funct3: u32, opcode: u32) -> u32 {
    let u = (offset % 0x2000) as u32;
    (((u >> 12) & 1) << 31) | (((u >> 5) & 0x3F) << 25) | (rs2 << 20) | (rs1 << 15) | (funct3
        << 12) | (((u >> 1) & 0xF) << 8) | (((u >> 11) & 1) << 7) | opcode
}

/// Extracting a packed B-type word gives back its fields and its even, signed
/// branch offset.
pub proof fn lemma_b_round_trip(offset: int, rs2: u32, rs1: u32, funct3: u32, opcode: u32)
    requires
        -0x1000 <= offset < 0x1000,
        offset % 2 == 0,
        rs2 < 0x20,
        rs1 < 0x20,
        funct3 < 0x8,
        opcode < 0x80,
    ensures
        ({
            let v = spec_b_type(pack_b(offset, rs2, rs1, funct3, opcode));
            &&& v.parsed_imm == offset
            &&& v.rs2 == rs2
            &&& v.rs1 == rs1
            &&& v.funct3 == funct3
            &&& v.opcode == opcode
        }),
{
    let u = (offset % 0x2000) as u32;
    let w = pack_b(offset, rs2, rs1, funct3, opcode);
    assert(b_offset_bits(w) == u && rs2_of(w) == rs2 && rs1_of(w) == rs1 && funct3_of(w)
        == funct3 && opcode_of(w) == opcode) by (bit_vector)
        requires
            w == (((u >> 12) & 1) << 31) | (((u >> 5) & 0x3F) << 25) | (rs2 << 20) | (rs1 << 15)
                | (funct3 << 12) | (((u >> 1) & 0xF) << 8) | (((u >> 11) & 1) << 7) | opcode,
            u < 0x2000,
            u % 2 == 0,
            rs2 < 0x20,
            rs1 < 0x20,
            funct3 < 0x8,
            opcode < 0x80,
    ;
}

/// The U-type word whose upper immediate field is `imm20`.
pub open spec fn pack_u(imm20: u32, rd: u32, opcode: u32) -> u32 {
    (imm20 << 12) | (rd << 7) | opcode
}

/// Extracting a packed U-type word gives back its fields; the immediate is
/// the field moved to bits `[31:12]` and read as a signed 32-bit number.
pub proof fn lemma_u_round_trip(imm20: u32, rd: u32, opcode: u32)
    requires
        imm20 < 0x100000,
        rd < 0x20,
        opcode < 0x80,
    ensures
        ({
            let v = spec_u_type(pack_u(imm20, rd, opcode));
            &&& v.imm_3112 == imm20
            &&& v.parsed_imm == signed(imm20 * 0x1000, 0x1_0000_0000)
            &&& v.rd == rd
            &&& v.opcode == opcode
        }),
{
    let w = pack_u(imm20, rd, opcode);
    assert(imm20_of(w) == imm20 && rd_of(w) == rd && opcode_of(w) == opcode) by (bit_vector)
        requires
            w == (imm20 << 12) | (rd << 7) | opcode,
            imm20 < 0x100000,
            rd < 0x20,
            opcode < 0x80,
    ;
}

/// The J-type word that jumps by `offset`, with the given other fields.
pub open spec fn pack_j(offset: int, rd: u32, opcode: u32) -> u32 {
    let u = (offset % 0x200000) as u32;
    (((u >> 20) & 1) << 31) | (((u >> 1) & 0x3FF) << 21) | (((u >> 11) & 1) << 20) | (((u >> 12)
        & 0xFF) << 12) | (rd << 7) | opcode
}

/// Extracting a packed J-type word gives back its fields and its even, signed
/// jump offset.
pub proof fn lemma_j_round_trip(offset: int, rd: u32, opcode: u32)
    requires
        -0x100000 <= offset < 0x100000,
        offset % 2 == 0,
        rd < 0x20,
        opcode < 0x80,
    ensures
        ({
            let v = spec_j_type(pack_j(offset, rd, opcode));
            &&& v.parsed_imm == offset
            &&& v.rd == rd
            &&& v.opcode == opcode
        }),
{
    let u = (offset % 0x200000) as u32;
    let w = pack_j(offset, rd, opcode);
    assert(j_offset_bits(w) == u && rd_of(w) == rd && opcode_of(w) == opcode) by (bit_vector)
        requires
            w == (((u >> 20) & 1) << 31) | (((u >> 1) & 0x3FF) << 21) | (((u >> 11) & 1) << 20)
                | (((u >> 12) & 0xFF) << 12) | (rd << 7) | opcode,
            u < 0x200000,
            u % 2 == 0,
            rd < 0x20,
            opcode < 0x80,
    ;
}

/// Decoding is a function of the word: two decodings of one word are equal.
pub proof fn lemma_decode_deterministic(
    raw: u32,
    first: Result<Instruction, DecodeError>,
    second: Result<Instruction, DecodeError>,
)
    requires
        first == decoded(raw),
        second == decoded(raw),
    ensures
        first == second,
{
}

/// A word whose bits `[1:0]` are not `11` is rejected as compressed.
pub proof fn lemma_compressed_rejected(raw: u32)
    requires
        raw % 4 != 0b11,
    ensures
        decoded(raw) == Err::<Instruction, DecodeError>(DecodeError::CompressedUnsupported),
{
}

/// How the selector's sub-fields derive from the opcode and funct7.
proof fn lemma_selector_parts(raw: u32)
    by (bit_vector)
    ensures
        is_compressed(raw) == (opcode_of(raw) % 4 != 0b11),
        funct6_of(raw) == funct7_of(raw) / 2,
        funct5_of(raw) == funct7_of(raw) / 4,
{
}

/// Of the atomic opcode only `LR.W` is decoded: any other funct5 gives an
/// unknown encoding.
pub proof fn lemma_amo_only_lr_w(raw: u32)
    requires
        opcode_of(raw) == 0b0101111,
        funct5_of(raw) != 0b00010,
    ensures
        decoded(raw) == Err::<Instruction, DecodeError>(
            DecodeError::UnknownEncoding {
                opcode: 0b0101111,
                funct3: funct3_of(raw),
                funct7: funct7_of(raw),
            },
        ),
{
    lemma_selector_parts(raw);
}

/// The selector that the decision table reads: opcode, funct3, funct7, and
/// for the `SYSTEM` opcode the 12-bit immediate.
pub open spec fn selector(raw: u32) -> (u32, u32, u32, u32) {
    (
        opcode_of(raw),
        funct3_of(raw),
        funct7_of(raw),
        if opcode_of(raw) == 0b1110011 {
            imm12_of(raw)
        } else {
            0
        },
    )
}

/// Registers and immediates outside the selector never decide whether a word
/// decodes: two words with one selector both decode, or fail with one error.
pub proof fn lemma_selector_decides(a: u32, b: u32)
    requires
        selector(a) == selector(b),
    ensures
        decoded(a) is Ok <==> decoded(b) is Ok,
        decoded(a) is Err ==> decoded(a) == decoded(b),
{
    lemma_selector_parts(a);
    lemma_selector_parts(b);
}

} // verus!
