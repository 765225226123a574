//! What decoding gives, stated arithmetically over the two bytes of an
//! instruction word (the first byte in memory is `low`, the second `high`).

use vstd::prelude::*;

use crate::inst::{
    br_bits, lh_bits, li_bits, sh_bits, spec_decode, spec_group, spec_rd, spec_rs1, spec_rs2,
    Opcode,
};

verus! {

proof fn lemma_fields_arith(low: u8, high: u8)
    by (bit_vector)
    ensures
        spec_rd(low) == low % 8,
        spec_rs1(low) == (low / 8) % 8,
        spec_rs2(low, high) == low / 64 + 8 * (high % 2),
        spec_group(high) == ((high / 2) % 2 == 1),
        high >> 5u8 == high / 32,
        (high >> 2u8) & 7u8 == (high / 4) % 8,
{
}

/// The register fields and the group flag: the destination is `low % 8`, the
/// first source `(low / 8) % 8`, the second source `low / 64` plus 8 when
/// `high` is odd, and the group flag is bit 1 of `high`.
pub proof fn lemma_decode_fields(low: u8, high: u8)
    ensures
        spec_decode(low, high).rd == low % 8,
        spec_decode(low, high).rs1 == (low / 8) % 8,
        spec_decode(low, high).rs2 == low / 64 + 8 * (high % 2),
        spec_decode(low, high).group == ((high / 2) % 2 == 1),
{
    lemma_fields_arith(low, high);
}

/// The operation table: `high / 32` selects a class and `(high / 4) % 8` an
/// operation in it; a high byte of 255 is a halt.
pub proof fn lemma_decode_operation(low: u8, high: u8)
    ensures
        ({
            let rs2 = low / 64 + 8 * (high % 2);
            let group = (high / 2) % 2 == 1;
            &&& high != 255 && high / 32 == 0 && (high / 4) % 8 == 0 ==> spec_decode(low, high).op == Opcode::AND
            &&& high != 255 && high / 32 == 0 && (high / 4) % 8 == 1 ==> spec_decode(low, high).op == Opcode::OR
            &&& high != 255 && high / 32 == 0 && (high / 4) % 8 == 2 ==> spec_decode(low, high).op == Opcode::XOR
            &&& high != 255 && high / 32 == 0 && (high / 4) % 8 == 3 ==> spec_decode(low, high).op == Opcode::ADD
            &&& high != 255 && high / 32 == 0 && (high / 4) % 8 == 4 ==> spec_decode(low, high).op == Opcode::SUB
            &&& high != 255 && high / 32 == 0 && (high / 4) % 8 == 5 ==> spec_decode(low, high).op == Opcode::SLL
            &&& high != 255 && high / 32 == 0 && (high / 4) % 8 == 6 ==> spec_decode(low, high).op == Opcode::SRA
            &&& high != 255 && high / 32 == 0 && (high / 4) % 8 == 7 ==> spec_decode(low, high).op == Opcode::SRL
            &&& high != 255 && high / 32 == 1 && (high / 4) % 8 == 0 && rs2 == 0 ==> spec_decode(low, high).op == Opcode::NOT
            &&& high != 255 && high / 32 == 1 && (high / 4) % 8 == 0 && rs2 == 1 ==> spec_decode(low, high).op == Opcode::COM
            &&& high != 255 && high / 32 == 1 && (high / 4) % 8 == 0 && rs2 == 2 ==> spec_decode(low, high).op == Opcode::MVO
            &&& high != 255 && high / 32 == 1 && (high / 4) % 8 == 0 && rs2 == 3 && group ==> spec_decode(low, high).op == Opcode::MVH
            &&& high != 255 && high / 32 == 1 && (high / 4) % 8 == 0 && rs2 == 3 && !group ==> spec_decode(low, high).op == Opcode::NotAInst
            &&& high != 255 && high / 32 == 1 && (high / 4) % 8 == 0 && rs2 > 3 ==> spec_decode(low, high).op == Opcode::NotAInst
            &&& high != 255 && high / 32 == 1 && (high / 4) % 8 == 1 ==> spec_decode(low, high).op == Opcode::LH
            &&& high != 255 && high / 32 == 1 && (high / 4) % 8 == 2 ==> spec_decode(low, high).op == Opcode::SH
            &&& high != 255 && high / 32 == 1 && (high / 4) % 8 >= 3 ==> spec_decode(low, high).op == Opcode::NotAInst
            &&& high != 255 && high / 32 == 2 ==> spec_decode(low, high).op == Opcode::LI
            &&& high != 255 && high / 32 == 3 ==> spec_decode(low, high).op == Opcode::NotAInst
            &&& high != 255 && high / 32 == 4 && (high / 4) % 8 == 0 && low % 8 == 0 ==> spec_decode(low, high).op == Opcode::SLT
            &&& high != 255 && high / 32 == 4 && (high / 4) % 8 == 0 && low % 8 == 1 ==> spec_decode(low, high).op == Opcode::SOE
            &&& high != 255 && high / 32 == 4 && (high / 4) % 8 == 0 && low % 8 >= 2 ==> spec_decode(low, high).op == Opcode::NotAInst
            &&& high != 255 && high / 32 == 4 && (high / 4) % 8 == 1 ==> spec_decode(low, high).op == Opcode::BOZ
            &&& high != 255 && high / 32 == 4 && (high / 4) % 8 == 2 ==> spec_decode(low, high).op == Opcode::BONZ
            &&& high != 255 && high / 32 == 4 && (high / 4) % 8 == 3 ==> spec_decode(low, high).op == Opcode::NotAInst
            &&& high != 255 && high / 32 == 4 && (high / 4) % 8 == 4 ==> spec_decode(low, high).op == Opcode::JAL
            &&& high != 255 && high / 32 == 4 && (high / 4) % 8 == 5 ==> spec_decode(low, high).op == Opcode::JALR
            &&& high != 255 && high / 32 == 4 && (high / 4) % 8 >= 6 ==> spec_decode(low, high).op == Opcode::NotAInst
            &&& high != 255 && high / 32 >= 5 ==> spec_decode(low, high).op == Opcode::NotAInst
            &&& high == 255 ==> spec_decode(low, high).op == Opcode::HALT
        }),
{
    lemma_fields_arith(low, high);
}

proof fn lemma_imm_arith(low: u8, high: u8)
    by (bit_vector)
    ensures
        (br_bits(low, high) as i16) as int == (low % 8) as int + 8 * (low / 64) as int - (if high % 2
            == 1 {
            32int
        } else {
            0int
        }),
        (lh_bits(low, high) as i16) as int == (low / 64) as int - (if high % 2 == 1 {
            4int
        } else {
            0int
        }),
        (sh_bits(low) as i16) as int == (low % 8) as int - (if (low / 4) % 2 == 1 {
            8int
        } else {
            0int
        }),
        (li_bits(low, high) as i16) as int == (low / 8) as int + 32 * (high % 2) as int + 64 * ((low
            / 4) % 2) as int + 128 * ((low / 8) % 2) as int - (if (high / 16) % 2 == 1 {
            256int
        } else {
            0int
        }),
{
}

/// The immediates. Every branch and jump offset is the six-bit two's
/// complement number made of `low % 8`, then `low / 64`, with bit 0 of
/// `high` as its sign; a load offset is the three-bit number `low / 64` with
/// the same sign bit; a store offset is the three-bit number `low % 8` with
/// its own top bit as sign; a load-immediate value is the nine-bit number
/// made of `low / 8`, bit 0 of `high`, bits 2 and 3 of `low`, with bit 4 of
/// `high` as sign; every other operation carries zero.
pub proof fn lemma_decode_immediate(low: u8, high: u8)
    ensures
        ({
            let inst = spec_decode(low, high);
            let op = inst.op;
            &&& (op == Opcode::BOZ || op == Opcode::BONZ || op == Opcode::JAL || op == Opcode::JALR)
                ==> inst.imm as int == (low % 8) as int + 8 * (low / 64) as int - (if high % 2 == 1 {
                32int
            } else {
                0int
            })
            &&& op == Opcode::LH ==> inst.imm as int == (low / 64) as int - (if high % 2 == 1 {
                4int
            } else {
                0int
            })
            &&& op == Opcode::SH ==> inst.imm as int == (low % 8) as int - (if (low / 4) % 2 == 1 {
                8int
            } else {
                0int
            })
            &&& op == Opcode::LI ==> inst.imm as int == (low / 8) as int + 32 * (high % 2) as int + 64
                * ((low / 4) % 2) as int + 128 * ((low / 8) % 2) as int - (if (high / 16) % 2 == 1 {
                256int
            } else {
                0int
            })
            &&& !(op == Opcode::BOZ || op == Opcode::BONZ || op == Opcode::JAL || op == Opcode::JALR
                || op == Opcode::LH || op == Opcode::SH || op == Opcode::LI) ==> inst.imm == 0
        }),
{
    lemma_imm_arith(low, high);
}

} // verus!
