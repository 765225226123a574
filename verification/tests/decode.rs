use cpu16::inst::{Inst, Opcode};

fn check(low: u8, high: u8, op: Opcode, rs1: u8, rs2: u8, rd: u8, group: bool, imm: i16) {
    assert_eq!(
        Inst::decode([low, high]),
        Inst { op, rs1, rs2, rd, group, imm },
        "word {:#04x} {:#04x}",
        low,
        high
    );
}

#[test]
fn decode_each_operation() {
    check(0x08, 0x00, Opcode::AND, 1, 0, 0, false, 0);
    check(0xd3, 0x0f, Opcode::ADD, 2, 11, 3, true, 0);
    check(0x08, 0x04, Opcode::OR, 1, 0, 0, false, 0);
    check(0x08, 0x08, Opcode::XOR, 1, 0, 0, false, 0);
    check(0x08, 0x0c, Opcode::ADD, 1, 0, 0, false, 0);
    check(0x08, 0x10, Opcode::SUB, 1, 0, 0, false, 0);
    check(0x5a, 0x15, Opcode::SLL, 3, 9, 2, false, 0);
    check(0x08, 0x18, Opcode::SRA, 1, 0, 0, false, 0);
    check(0x08, 0x1c, Opcode::SRL, 1, 0, 0, false, 0);
    check(0x08, 0x20, Opcode::NOT, 1, 0, 0, false, 0);
    check(0x48, 0x20, Opcode::COM, 1, 1, 0, false, 0);
    check(0xc8, 0x22, Opcode::MVH, 1, 3, 0, true, 0);
    check(0xc8, 0x20, Opcode::NotAInst, 1, 3, 0, false, 0);
    check(0x88, 0x20, Opcode::MVO, 1, 2, 0, false, 0);
    check(0x48, 0x24, Opcode::LH, 1, 1, 0, false, 1);
    check(0xc8, 0x25, Opcode::LH, 1, 11, 0, false, -1);
    check(0x09, 0x28, Opcode::SH, 1, 0, 1, false, 1);
    check(0x0d, 0x2a, Opcode::SH, 1, 0, 5, true, -3);
    check(0x5b, 0x53, Opcode::LI, 3, 9, 3, true, -85);
    check(0x04, 0x48, Opcode::LI, 0, 0, 4, false, 64);
    check(0xa9, 0x58, Opcode::LI, 5, 2, 1, false, -107);
    check(0x08, 0x80, Opcode::SLT, 1, 0, 0, false, 0);
    check(0x09, 0x80, Opcode::SOE, 1, 0, 1, false, 0);
    check(0x0a, 0x80, Opcode::NotAInst, 1, 0, 2, false, 0);
    check(0x01, 0x84, Opcode::BOZ, 0, 0, 1, false, 1);
    check(0xc7, 0x85, Opcode::BOZ, 0, 11, 7, false, -1);
    check(0x01, 0x88, Opcode::BONZ, 0, 0, 1, false, 1);
    check(0x01, 0x90, Opcode::JAL, 0, 0, 1, false, 1);
    check(0x09, 0x94, Opcode::JALR, 1, 0, 1, false, 1);
    check(0xff, 0x97, Opcode::JALR, 7, 11, 7, true, -1);
    check(0x00, 0xff, Opcode::HALT, 0, 8, 0, true, 0);
    check(0x12, 0xff, Opcode::HALT, 2, 8, 2, true, 0);
    check(0xc0, 0xac, Opcode::NotAInst, 0, 3, 0, false, 0);
    check(0x00, 0x2c, Opcode::NotAInst, 0, 0, 0, false, 0);
    check(0x00, 0x8c, Opcode::NotAInst, 0, 0, 0, false, 0);
    check(0x00, 0x98, Opcode::NotAInst, 0, 0, 0, false, 0);
    check(0x00, 0x60, Opcode::NotAInst, 0, 0, 0, false, 0);
    check(0x00, 0xe0, Opcode::NotAInst, 0, 0, 0, false, 0);
}

#[test]
fn decode_high_byte_all_ones_is_halt() {
    for low in 0..=255u8 {
        assert_eq!(Inst::decode([low, 0xFF]).op, Opcode::HALT);
        assert_eq!(Inst::decode([low, 0xFF]).imm, 0);
    }
}

#[test]
fn decode_register_numbers_in_range() {
    for high in 0..=255u8 {
        for low in 0..=255u8 {
            let inst = Inst::decode([low, high]);
            assert!(inst.rd < 8 && inst.rs1 < 8 && inst.rs2 < 12);
        }
    }
}
