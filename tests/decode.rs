use riscv_decoder::{
    decode_instruction_type, B_Type, DecodeError, Generic_Op, I_Type, Instruction,
    InstructionType, J_Type, R_Type, S_Type, U_Type,
};

fn pack_r(funct7: u32, rs2: u32, rs1: u32, funct3: u32, rd: u32, opcode: u32) -> u32 {
    (funct7 << 25) | (rs2 << 20) | (rs1 << 15) | (funct3 << 12) | (rd << 7) | opcode
}

fn pack_i(imm: i32, rs1: u32, funct3: u32, rd: u32, opcode: u32) -> u32 {
    (((imm as u32) & 0xFFF) << 20) | (rs1 << 15) | (funct3 << 12) | (rd << 7) | opcode
}

fn pack_s(imm: i32, rs2: u32, rs1: u32, funct3: u32, opcode: u32) -> u32 {
    let u = (imm as u32) & 0xFFF;
    ((u >> 5) << 25) | (rs2 << 20) | (rs1 << 15) | (funct3 << 12) | ((u & 0x1F) << 7) | opcode
}

fn pack_b(offset: i32, rs2: u32, rs1: u32, funct3: u32, opcode: u32) -> u32 {
    let u = (offset as u32) & 0x1FFF;
    (((u >> 12) & 1) << 31)
        | (((u >> 5) & 0x3F) << 25)
        | (rs2 << 20)
        | (rs1 << 15)
        | (funct3 << 12)
        | (((u >> 1) & 0xF) << 8)
        | (((u >> 11) & 1) << 7)
        | opcode
}

fn pack_j(offset: i32, rd: u32, opcode: u32) -> u32 {
    let u = (offset as u32) & 0x1F_FFFF;
    (((u >> 20) & 1) << 31)
        | (((u >> 1) & 0x3FF) << 21)
        | (((u >> 11) & 1) << 20)
        | (((u >> 12) & 0xFF) << 12)
        | (rd << 7)
        | opcode
}

fn mnemonic(word: u32) -> String {
    match Instruction::parse_instruction(word) {
        Ok(inst) => format!("{:?}", inst).split('(').next().unwrap().to_string(),
        Err(e) => format!("{:?}", e),
    }
}

#[test]
fn auipc_rd_10() {
    match Instruction::parse_instruction(0x00002517) {
        Ok(Instruction::AUIPC(u)) => {
            assert_eq!(u.rd, 10);
            assert_eq!(u.imm_3112, 2);
            assert_eq!(u.parsed_imm, 0x2000);
        }
        other => panic!("unexpected {:?}", other),
    }
}

#[test]
fn auipc_rd_28() {
    match Instruction::parse_instruction(0x00002E17) {
        Ok(Instruction::AUIPC(u)) => assert_eq!(u.rd, 28),
        other => panic!("unexpected {:?}", other),
    }
}

#[test]
fn add_all_zero_registers() {
    match Instruction::parse_instruction(0x00000033) {
        Ok(Instruction::ADD(r)) => {
            assert_eq!((r.rd, r.rs1, r.rs2), (0, 0, 0));
            assert_eq!((r.funct3, r.funct7, r.opcode), (0, 0, 0x33));
        }
        other => panic!("unexpected {:?}", other),
    }
}

#[test]
fn ebreak_and_ecall() {
    assert!(matches!(Instruction::parse_instruction(0x00100073), Ok(Instruction::EBREAK(_))));
    assert!(matches!(Instruction::parse_instruction(0x00000073), Ok(Instruction::ECALL(_))));
    assert_eq!(
        Instruction::parse_instruction(0x00200073),
        Err(DecodeError::UnknownEncoding { opcode: 0x73, funct3: 0, funct7: 0 })
    );
}

#[test]
fn compressed_word_rejected() {
    assert_eq!(Instruction::parse_instruction(0x00000001), Err(DecodeError::CompressedUnsupported));
    for low in [0u32, 1, 2] {
        for high in [0u32, 0x0000_0010, 0xFFFF_FFF0, 0x1234_5678 & !3] {
            assert_eq!(
                Instruction::parse_instruction(high | low),
                Err(DecodeError::CompressedUnsupported)
            );
        }
    }
}

#[test]
fn atomic_only_lr_w() {
    // funct5 00010 with funct3 010 is LR.W, whatever the ordering bits
    for aqrl in 0..4u32 {
        let w = pack_r((0b00010 << 2) | aqrl, 0, 5, 0b010, 6, 0b0101111);
        assert_eq!(mnemonic(w), "LRW");
    }
    // SC.W, AMOSWAP.W, AMOADD.W and the rest are not wired in
    for funct5 in [0b00011u32, 0b00001, 0b00000, 0b00100, 0b01100, 0b01000, 0b10000, 0b11100] {
        let w = pack_r(funct5 << 2, 7, 5, 0b010, 6, 0b0101111);
        assert_eq!(
            Instruction::parse_instruction(w),
            Err(DecodeError::UnknownEncoding { opcode: 0b0101111, funct3: 0b010, funct7: funct5 << 2 })
        );
    }
    // LR.D is not wired in either
    let w = pack_r(0b00010 << 2, 0, 5, 0b011, 6, 0b0101111);
    assert!(matches!(Instruction::parse_instruction(w), Err(DecodeError::UnknownEncoding { .. })));
}

#[test]
fn branch_offset_4088() {
    let w = pack_b(4088, 0, 0, 0, 0b1100011);
    assert_eq!(w, 0x7E000CE3);
    let b = B_Type::new(w);
    assert_eq!(b.parsed_imm, 4088);
    assert_eq!(b.parsed_imm % 2, 0);
    assert!(matches!(Instruction::parse_instruction(w), Ok(Instruction::BEQ(v)) if v.parsed_imm == 4088));
}

#[test]
fn jump_offset_4088() {
    let w = pack_j(4088, 0, 0b1101111);
    assert_eq!(w, 0x7F90006F);
    let j = J_Type::new(w);
    assert_eq!(j.parsed_imm, 4088);
    assert_eq!(j.parsed_imm % 2, 0);
    assert!(matches!(Instruction::parse_instruction(w), Ok(Instruction::JAL(v)) if v.parsed_imm == 4088));
}

#[test]
fn negative_immediates_are_sign_extended() {
    // addi x1, x2, -1
    assert_eq!(I_Type::new(0xFFF10093).parsed_imm, -1);
    assert_eq!(I_Type::new(0xFFF10093).imm_110, 0xFFF);
    // sw x5, -4(x2)
    let s = S_Type::new(0xFE512E23);
    assert_eq!(s.parsed_imm, -4);
    assert_eq!((s.imm_115, s.imm_40), (0x7F, 0x1C));
    // beq x0, x0, -2
    assert_eq!(B_Type::new(0xFE000FE3).parsed_imm, -2);
    // jal x0, -4
    assert_eq!(J_Type::new(0xFFDFF06F).parsed_imm, -4);
    // lui x1, 0xFFFFF
    assert_eq!(U_Type::new(0xFFFFF0B7).parsed_imm, -4096);
    assert_eq!(U_Type::new(0xFFFFF0B7).imm_3112, 0xFFFFF);
}

#[test]
fn extreme_immediates() {
    assert_eq!(I_Type::new(pack_i(2047, 0, 0, 0, 0x13)).parsed_imm, 2047);
    assert_eq!(I_Type::new(pack_i(-2048, 0, 0, 0, 0x13)).parsed_imm, -2048);
    assert_eq!(S_Type::new(pack_s(2047, 0, 0, 0, 0x23)).parsed_imm, 2047);
    assert_eq!(S_Type::new(pack_s(-2048, 0, 0, 0, 0x23)).parsed_imm, -2048);
    assert_eq!(B_Type::new(pack_b(4094, 0, 0, 0, 0x63)).parsed_imm, 4094);
    assert_eq!(B_Type::new(pack_b(-4096, 0, 0, 0, 0x63)).parsed_imm, -4096);
    assert_eq!(J_Type::new(pack_j(0xFFFFE, 0, 0x6F)).parsed_imm, 0xFFFFE);
    assert_eq!(J_Type::new(pack_j(-0x100000, 0, 0x6F)).parsed_imm, -0x100000);
    assert_eq!(U_Type::new(0x7FFFF037).parsed_imm, 0x7FFFF000);
    assert_eq!(U_Type::new(0x80000037).parsed_imm, -0x8000_0000);
}

#[test]
fn round_trip_r_fields() {
    for &(f7, rs2, rs1, f3, rd, op) in &[
        (0u32, 0u32, 0u32, 0u32, 0u32, 0u32),
        (0x7F, 31, 31, 7, 31, 0x7F),
        (0x20, 3, 17, 5, 9, 0x33),
        (0x01, 30, 1, 6, 2, 0x3B),
    ] {
        let r = R_Type::new(pack_r(f7, rs2, rs1, f3, rd, op));
        assert_eq!((r.funct7, r.rs2, r.rs1, r.funct3, r.rd, r.opcode), (f7, rs2, rs1, f3, rd, op));
        assert_eq!((r.rs3, r.funct2), (f7 >> 2, f7 & 3));
    }
}

#[test]
fn round_trip_immediate_formats() {
    for imm in [-2048, -1, 0, 1, 5, 2047] {
        let i = I_Type::new(pack_i(imm, 12, 3, 30, 0x03));
        assert_eq!((i.parsed_imm, i.rs1, i.funct3, i.rd, i.opcode), (imm as i64, 12, 3, 30, 0x03));
        let s = S_Type::new(pack_s(imm, 7, 8, 2, 0x23));
        assert_eq!((s.parsed_imm, s.rs2, s.rs1, s.funct3, s.opcode), (imm as i64, 7, 8, 2, 0x23));
    }
    for off in [-4096, -2, 0, 2, 2048, 4094] {
        let b = B_Type::new(pack_b(off, 21, 22, 7, 0x63));
        assert_eq!((b.parsed_imm, b.rs2, b.rs1, b.funct3, b.opcode), (off as i64, 21, 22, 7, 0x63));
    }
    for off in [-0x100000, -2, 0, 2, 2048, 0x1000, 0xFFFFE] {
        let j = J_Type::new(pack_j(off, 19, 0x6F));
        assert_eq!((j.parsed_imm, j.rd, j.opcode), (off as i64, 19, 0x6F));
    }
    for imm20 in [0u32, 1, 0x7FFFF, 0x80000, 0xFFFFF] {
        let u = U_Type::new((imm20 << 12) | (4 << 7) | 0x37);
        assert_eq!((u.imm_3112, u.rd, u.opcode), (imm20, 4, 0x37));
        assert_eq!(u.parsed_imm, ((imm20 << 12) as i32) as i64);
    }
}

#[test]
fn decoding_twice_gives_equal_results() {
    for w in [0x00002517u32, 0x00000033, 0x00100073, 0x00000001, 0xFFFFFFFF, 0x7E000CE3, 0x0000707F] {
        assert_eq!(Instruction::parse_instruction(w), Instruction::parse_instruction(w));
    }
}

#[test]
fn every_table_row_is_reachable() {
    let rows: &[(u32, u32, u32, &str)] = &[
        // (opcode, funct3, funct7, mnemonic)
        (0b0110111, 0, 0, "LUI"),
        (0b0010111, 0, 0, "AUIPC"),
        (0b1101111, 0, 0, "JAL"),
        (0b1100111, 0, 0, "JALR"),
        (0b1100011, 0, 0, "BEQ"),
        (0b1100011, 1, 0, "BNE"),
        (0b1100011, 4, 0, "BLT"),
        (0b1100011, 5, 0, "BGE"),
        (0b1100011, 6, 0, "BLTU"),
        (0b1100011, 7, 0, "BGEU"),
        (0b0000011, 0, 0, "LB"),
        (0b0000011, 1, 0, "LH"),
        (0b0000011, 2, 0, "LW"),
        (0b0000011, 3, 0, "LD"),
        (0b0000011, 4, 0, "LBU"),
        (0b0000011, 5, 0, "LHU"),
        (0b0000011, 6, 0, "LWU"),
        (0b0100011, 0, 0, "SB"),
        (0b0100011, 1, 0, "SH"),
        (0b0100011, 2, 0, "SW"),
        (0b0100011, 3, 0, "SD"),
        (0b0010011, 0, 0, "ADDI"),
        (0b0010011, 2, 0, "SLTI"),
        (0b0010011, 3, 0, "SLTIU"),
        (0b0010011, 4, 0, "XORI"),
        (0b0010011, 6, 0, "ORI"),
        (0b0010011, 7, 0, "ANDI"),
        (0b0010011, 1, 0b0000000, "SLLI"),
        (0b0010011, 5, 0b0000000, "SRLI"),
        (0b0010011, 5, 0b0100000, "SRAI"),
        (0b0110011, 0, 0b0000000, "ADD"),
        (0b0110011, 0, 0b0100000, "SUB"),
        (0b0110011, 1, 0b0000000, "SLL"),
        (0b0110011, 2, 0b0000000, "SLT"),
        (0b0110011, 3, 0b0000000, "SLTU"),
        (0b0110011, 4, 0b0000000, "XOR"),
        (0b0110011, 5, 0b0000000, "SRL"),
        (0b0110011, 5, 0b0100000, "SRA"),
        (0b0110011, 6, 0b0000000, "OR"),
        (0b0110011, 7, 0b0000000, "AND"),
        (0b0001111, 0, 0, "FENCE"),
        (0b0001111, 1, 0, "FENCEI"),
        (0b1110011, 1, 0, "CSRRW"),
        (0b1110011, 2, 0, "CSRRS"),
        (0b1110011, 3, 0, "CSRRC"),
        (0b1110011, 5, 0, "CSRRWI"),
        (0b1110011, 6, 0, "CSRRSI"),
        (0b1110011, 7, 0, "CSRRCI"),
        (0b0011011, 0, 0, "ADDIW"),
        (0b0011011, 1, 0b0000000, "SLLIW"),
        (0b0011011, 5, 0b0000000, "SRLIW"),
        (0b0011011, 5, 0b0100000, "SRAIW"),
        (0b0111011, 0, 0b0000000, "ADDW"),
        (0b0111011, 0, 0b0100000, "SUBW"),
        (0b0111011, 1, 0b0000000, "SLLW"),
        (0b0111011, 5, 0b0000000, "SRLW"),
        (0b0111011, 5, 0b0100000, "SRAW"),
        (0b0110011, 0, 0b0000001, "MUL"),
        (0b0110011, 1, 0b0000001, "MULH"),
        (0b0110011, 2, 0b0000001, "MULHSU"),
        (0b0110011, 3, 0b0000001, "MULHU"),
        (0b0110011, 4, 0b0000001, "DIV"),
        (0b0110011, 5, 0b0000001, "DIVU"),
        (0b0110011, 6, 0b0000001, "REM"),
        (0b0110011, 7, 0b0000001, "REMU"),
        (0b0111011, 0, 0b0000001, "MULW"),
        (0b0111011, 4, 0b0000001, "DIVW"),
        (0b0111011, 5, 0b0000001, "DIVUW"),
        (0b0111011, 6, 0b0000001, "REMW"),
        (0b0111011, 7, 0b0000001, "REMUW"),
        (0b0101111, 2, 0b0001000, "LRW"),
    ];
    for &(opcode, funct3, funct7, name) in rows {
        // the registers never take part in the selection
        for &(rs2, rs1, rd) in &[(0u32, 0u32, 0u32), (31, 17, 9)] {
            let w = pack_r(funct7, rs2, rs1, funct3, rd, opcode);
            assert_eq!(mnemonic(w), name, "word {:#010x}", w);
        }
    }
    let system = [(0i32, "ECALL"), (1, "EBREAK")];
    for &(imm, name) in &system {
        assert_eq!(mnemonic(pack_i(imm, 0, 0, 0, 0b1110011)), name);
    }
}

#[test]
fn sixty_four_bit_shift_amounts_use_funct6() {
    // slli x1, x1, 33 sets bit 25, which belongs to the shift amount
    assert_eq!(mnemonic(pack_r(0b0000001, 1, 1, 1, 1, 0b0010011)), "SLLI");
    assert_eq!(mnemonic(pack_r(0b0000001, 1, 1, 5, 1, 0b0010011)), "SRLI");
    assert_eq!(mnemonic(pack_r(0b0100001, 1, 1, 5, 1, 0b0010011)), "SRAI");
    // the 32-bit forms have no such bit
    assert!(mnemonic(pack_r(0b0000001, 1, 1, 1, 1, 0b0011011)).starts_with("UnknownEncoding"));
}

#[test]
fn unwired_extensions_are_unknown() {
    // flw, fsw, fadd.s, fmadd.s
    for w in [0x0000A007u32, 0x0000A027, 0x00000053, 0x00000043] {
        assert!(matches!(Instruction::parse_instruction(w), Err(DecodeError::UnknownEncoding { .. })));
    }
    assert_eq!(
        Instruction::parse_instruction(pack_r(0b0100000, 1, 2, 1, 3, 0b0110011)),
        Err(DecodeError::UnknownEncoding { opcode: 0b0110011, funct3: 1, funct7: 0b0100000 })
    );
    assert_eq!(
        Instruction::parse_instruction(pack_r(0, 0, 0, 2, 0, 0b1100111)),
        Err(DecodeError::UnknownEncoding { opcode: 0b1100111, funct3: 2, funct7: 0 })
    );
    assert_eq!(
        Instruction::parse_instruction(0xFFFFFFFF),
        Err(DecodeError::UnknownEncoding { opcode: 0x7F, funct3: 7, funct7: 0x7F })
    );
}

#[test]
fn format_by_opcode() {
    assert!(matches!(decode_instruction_type(0x00002517), Ok(InstructionType::U_TYPE(u)) if u.rd == 10));
    assert!(matches!(decode_instruction_type(0x7F90006F), Ok(InstructionType::J_TYPE(j)) if j.parsed_imm == 4088));
    assert!(matches!(decode_instruction_type(0xFFF10093), Ok(InstructionType::I_TYPE(i)) if i.parsed_imm == -1));
    assert!(matches!(decode_instruction_type(0x7E000CE3), Ok(InstructionType::B_TYPE(b)) if b.parsed_imm == 4088));
    assert!(matches!(decode_instruction_type(0xFE512E23), Ok(InstructionType::S_TYPE(s)) if s.parsed_imm == -4));
    assert!(matches!(decode_instruction_type(0x00000033), Ok(InstructionType::R_TYPE(r)) if r.opcode == 0x33));
    assert_eq!(decode_instruction_type(0x00000002), Err(DecodeError::CompressedUnsupported));
    assert_eq!(
        decode_instruction_type(0x00000053),
        Err(DecodeError::UnknownEncoding { opcode: 0x53, funct3: 0, funct7: 0 })
    );
}

#[test]
fn generic_probe_and_defaults() {
    let g = Generic_Op::new(0xFFF10093);
    assert_eq!((g.opcode, g.raw), (0x13, 0xFFF10093));
    let d = Generic_Op::default();
    assert_eq!((d.opcode, d.raw), (0, 0));
    assert_eq!(R_Type::new_from_generic(g), R_Type::new(0xFFF10093));
    assert_eq!(I_Type::new_from_generic(g).parsed_imm, -1);
    assert_eq!(S_Type::new_from_generic(g), S_Type::new(0xFFF10093));
    assert_eq!(B_Type::new_from_generic(g), B_Type::new(0xFFF10093));
    assert_eq!(U_Type::new_from_generic(g), U_Type::new(0xFFF10093));
    assert_eq!(J_Type::new_from_generic(g), J_Type::new(0xFFF10093));
    assert_eq!(R_Type::default(), R_Type::new(0));
    assert_eq!(I_Type::default(), I_Type::new(0));
    assert_eq!(S_Type::default(), S_Type::new(0));
    assert_eq!(B_Type::default(), B_Type::new(0));
    assert_eq!(U_Type::default(), U_Type::new(0));
    assert_eq!(J_Type::default(), J_Type::new(0));
    assert_eq!(R_Type::default().raw, 0);
}
