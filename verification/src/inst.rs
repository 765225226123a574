//! Instruction decoding: the two bytes of an instruction word and the
//! operation, register numbers, group flag and immediate they encode.

use vstd::prelude::*;

use crate::bits::{
    bit8, bit16, bits_value, lemma_value_of_bits16, lemma_value_of_bits8, lemma_value_upto_bound,
    split_seq, value_upto, weight,
};

verus! {

/// The operations of the instruction set.
#[derive(Clone, Copy, Debug, PartialEq, Eq, Structural)]
pub enum Opcode {
    AND,
    OR,
    XOR,
    ADD,
    SUB,
    SLL,
    SRA,
    SRL,
    NOT,
    COM,
    MVH,
    MVO,
    LH,
    LI,
    SH,
    SLT,
    SOE,
    BOZ,
    BONZ,
    JAL,
    JALR,
    HALT,
    NotAInst,
}

/// A decoded instruction word.
#[derive(Clone, Copy, Debug, PartialEq, Eq, Structural)]
pub struct Inst {
    pub op: Opcode,
    pub rs1: u8,
    pub rs2: u8,
    pub rd: u8,
    pub group: bool,
    pub imm: i16,
}

/// Destination register: bits 0..3 of the low byte.
pub open spec fn spec_rd(low: u8) -> u8 {
    low & 7u8
}

/// First source register: bits 3..6 of the low byte.
pub open spec fn spec_rs1(low: u8) -> u8 {
    (low >> 3u8) & 7u8
}

/// Second source register: bits 6 and 7 of the low byte, and bit 0 of the
/// high byte as the register number's bit 3.
pub open spec fn spec_rs2(low: u8, high: u8) -> u8 {
    ((low >> 6u8) & 3u8) | ((high & 1u8) << 3u8)
}

/// Register group: bit 1 of the high byte.
pub open spec fn spec_group(high: u8) -> bool {
    bit8(high, 1u8)
}

/// Load offset: bits 6 and 7 of the low byte, sign taken from bit 0 of the high byte.
pub open spec fn lh_bits(low: u8, high: u8) -> u16 {
    (((low >> 6u8) & 3u8) as u16) | (if high & 1u8 == 1u8 { 0xFFFCu16 } else { 0u16 })
}

/// Store offset: bits 0..3 of the low byte, sign taken from bit 2.
pub open spec fn sh_bits(low: u8) -> u16 {
    ((low & 7u8) as u16) | (if (low >> 2u8) & 1u8 == 1u8 { 0xFFF8u16 } else { 0u16 })
}

/// Load-immediate value: bits 3..8 of the low byte, then bit 0 of the high
/// byte, bit 2 and bit 3 of the low byte, sign taken from bit 4 of the high byte.
pub open spec fn li_bits(low: u8, high: u8) -> u16 {
    ((low >> 3u8) as u16) | (((high & 1u8) as u16) << 5u16) | ((((low >> 2u8) & 1u8) as u16)
        << 6u16) | ((((low >> 3u8) & 1u8) as u16) << 7u16) | (if (high >> 4u8) & 1u8 == 1u8 {
        0xFF00u16
    } else {
        0u16
    })
}

/// Branch offset: bits 0..3 and 6..8 of the low byte, sign taken from bit 0
/// of the high byte.
pub open spec fn br_bits(low: u8, high: u8) -> u16 {
    ((low & 7u8) as u16) | (((low >> 6u8) as u16) << 3u16) | (if high & 1u8 == 1u8 {
        0xFFE0u16
    } else {
        0u16
    })
}

/// The operation that an instruction word encodes.
pub open spec fn spec_opcode(low: u8, high: u8) -> Opcode {
    let class = high >> 5u8;
    let sub = (high >> 2u8) & 7u8;
    if high == 255u8 {
        Opcode::HALT
    } else if class == 0u8 {
        if sub == 0u8 {
            Opcode::AND
        } else if sub == 1u8 {
            Opcode::OR
        } else if sub == 2u8 {
            Opcode::XOR
        } else if sub == 3u8 {
            Opcode::ADD
        } else if sub == 4u8 {
            Opcode::SUB
        } else if sub == 5u8 {
            Opcode::SLL
        } else if sub == 6u8 {
            Opcode::SRA
        } else {
            Opcode::SRL
        }
    } else if class == 1u8 {
        let r = spec_rs2(low, high);
        if sub == 0u8 {
            if r == 0u8 {
                Opcode::NOT
            } else if r == 1u8 {
                Opcode::COM
            } else if r == 2u8 {
                Opcode::MVO
            } else if r == 3u8 && spec_group(high) {
                Opcode::MVH
            } else {
                Opcode::NotAInst
            }
        } else if sub == 1u8 {
            Opcode::LH
        } else if sub == 2u8 {
            Opcode::SH
        } else {
            Opcode::NotAInst
        }
    } else if class == 2u8 {
        Opcode::LI
    } else if class == 4u8 {
        if sub == 0u8 {
            if spec_rd(low) == 0u8 {
                Opcode::SLT
            } else if spec_rd(low) == 1u8 {
                Opcode::SOE
            } else {
                Opcode::NotAInst
            }
        } else if sub == 1u8 {
            Opcode::BOZ
        } else if sub == 2u8 {
            Opcode::BONZ
        } else if sub == 4u8 {
            Opcode::JAL
        } else if sub == 5u8 {
            Opcode::JALR
        } else {
            Opcode::NotAInst
        }
    } else {
        Opcode::NotAInst
    }
}

/// The immediate that an instruction word carries for its operation (zero
/// for operations without one).
pub open spec fn spec_imm(op: Opcode, low: u8, high: u8) -> i16 {
    match op {
        Opcode::LH => lh_bits(low, high) as i16,
        Opcode::SH => sh_bits(low) as i16,
        Opcode::LI => li_bits(low, high) as i16,
        Opcode::BOZ | Opcode::BONZ | Opcode::JAL | Opcode::JALR => br_bits(low, high) as i16,
        _ => 0i16,
    }
}

/// The instruction that the word with bytes `low` (first in memory) and
/// `high` encodes.
pub open spec fn spec_decode(low: u8, high: u8) -> Inst {
    let op = spec_opcode(low, high);
    Inst {
        op,
        rs1: spec_rs1(low),
        rs2: spec_rs2(low, high),
        rd: spec_rd(low),
        group: spec_group(high),
        imm: spec_imm(op, low, high),
    }
}

proof fn lemma_high_selectors(high: u8)
    by (bit_vector)
    ensures
        high >> 5u8 == (if bit8(high, 7u8) { 4u8 } else { 0u8 }) + (if bit8(high, 6u8) {
            2u8
        } else {
            0u8
        }) + (if bit8(high, 5u8) { 1u8 } else { 0u8 }),
        (high >> 2u8) & 7u8 == (if bit8(high, 4u8) { 4u8 } else { 0u8 }) + (if bit8(
            high,
            3u8,
        ) {
            2u8
        } else {
            0u8
        }) + (if bit8(high, 2u8) { 1u8 } else { 0u8 }),
{
}

proof fn lemma_rd_bits(low: u8)
    by (bit_vector)
    ensures
        bit8(spec_rd(low), 0u8) == bit8(low, 0u8),
        bit8(spec_rd(low), 1u8) == bit8(low, 1u8),
        bit8(spec_rd(low), 2u8) == bit8(low, 2u8),
        bit8(spec_rd(low), 3u8) == false,
        bit8(spec_rd(low), 4u8) == false,
        bit8(spec_rd(low), 5u8) == false,
        bit8(spec_rd(low), 6u8) == false,
        bit8(spec_rd(low), 7u8) == false,
{
}

proof fn lemma_rs1_bits(low: u8)
    by (bit_vector)
    ensures
        bit8(spec_rs1(low), 0u8) == bit8(low, 3u8),
        bit8(spec_rs1(low), 1u8) == bit8(low, 4u8),
        bit8(spec_rs1(low), 2u8) == bit8(low, 5u8),
        bit8(spec_rs1(low), 3u8) == false,
        bit8(spec_rs1(low), 4u8) == false,
        bit8(spec_rs1(low), 5u8) == false,
        bit8(spec_rs1(low), 6u8) == false,
        bit8(spec_rs1(low), 7u8) == false,
{
}

proof fn lemma_rs2_bits(low: u8, high: u8)
    by (bit_vector)
    ensures
        bit8(spec_rs2(low, high), 0u8) == bit8(low, 6u8),
        bit8(spec_rs2(low, high), 1u8) == bit8(low, 7u8),
        bit8(spec_rs2(low, high), 2u8) == false,
        bit8(spec_rs2(low, high), 3u8) == bit8(high, 0u8),
        bit8(spec_rs2(low, high), 4u8) == false,
        bit8(spec_rs2(low, high), 5u8) == false,
        bit8(spec_rs2(low, high), 6u8) == false,
        bit8(spec_rs2(low, high), 7u8) == false,
{
}

proof fn lemma_lh_bits(low: u8, high: u8)
    by (bit_vector)
    ensures
        bit16(lh_bits(low, high), 0u16) == bit8(low, 6u8),
        bit16(lh_bits(low, high), 1u16) == bit8(low, 7u8),
        bit16(lh_bits(low, high), 2u16) == bit8(high, 0u8),
        bit16(lh_bits(low, high), 3u16) == bit8(high, 0u8),
        bit16(lh_bits(low, high), 4u16) == bit8(high, 0u8),
        bit16(lh_bits(low, high), 5u16) == bit8(high, 0u8),
        bit16(lh_bits(low, high), 6u16) == bit8(high, 0u8),
        bit16(lh_bits(low, high), 7u16) == bit8(high, 0u8),
        bit16(lh_bits(low, high), 8u16) == bit8(high, 0u8),
        bit16(lh_bits(low, high), 9u16) == bit8(high, 0u8),
        bit16(lh_bits(low, high), 10u16) == bit8(high, 0u8),
        bit16(lh_bits(low, high), 11u16) == bit8(high, 0u8),
        bit16(lh_bits(low, high), 12u16) == bit8(high, 0u8),
        bit16(lh_bits(low, high), 13u16) == bit8(high, 0u8),
        bit16(lh_bits(low, high), 14u16) == bit8(high, 0u8),
        bit16(lh_bits(low, high), 15u16) == bit8(high, 0u8),
{
}

proof fn lemma_sh_bits(low: u8)
    by (bit_vector)
    ensures
        bit16(sh_bits(low), 0u16) == bit8(low, 0u8),
        bit16(sh_bits(low), 1u16) == bit8(low, 1u8),
        bit16(sh_bits(low), 2u16) == bit8(low, 2u8),
        bit16(sh_bits(low), 3u16) == bit8(low, 2u8),
        bit16(sh_bits(low), 4u16) == bit8(low, 2u8),
        bit16(sh_bits(low), 5u16) == bit8(low, 2u8),
        bit16(sh_bits(low), 6u16) == bit8(low, 2u8),
        bit16(sh_bits(low), 7u16) == bit8(low, 2u8),
        bit16(sh_bits(low), 8u16) == bit8(low, 2u8),
        bit16(sh_bits(low), 9u16) == bit8(low, 2u8),
        bit16(sh_bits(low), 10u16) == bit8(low, 2u8),
        bit16(sh_bits(low), 11u16) == bit8(low, 2u8),
        bit16(sh_bits(low), 12u16) == bit8(low, 2u8),
        bit16(sh_bits(low), 13u16) == bit8(low, 2u8),
        bit16(sh_bits(low), 14u16) == bit8(low, 2u8),
        bit16(sh_bits(low), 15u16) == bit8(low, 2u8),
{
}

proof fn lemma_li_bits(low: u8, high: u8)
    by (bit_vector)
    ensures
        bit16(li_bits(low, high), 0u16) == bit8(low, 3u8),
        bit16(li_bits(low, high), 1u16) == bit8(low, 4u8),
        bit16(li_bits(low, high), 2u16) == bit8(low, 5u8),
        bit16(li_bits(low, high), 3u16) == bit8(low, 6u8),
        bit16(li_bits(low, high), 4u16) == bit8(low, 7u8),
        bit16(li_bits(low, high), 5u16) == bit8(high, 0u8),
        bit16(li_bits(low, high), 6u16) == bit8(low, 2u8),
        bit16(li_bits(low, high), 7u16) == bit8(low, 3u8),
        bit16(li_bits(low, high), 8u16) == bit8(high, 4u8),
        bit16(li_bits(low, high), 9u16) == bit8(high, 4u8),
        bit16(li_bits(low, high), 10u16) == bit8(high, 4u8),
        bit16(li_bits(low, high), 11u16) == bit8(high, 4u8),
        bit16(li_bits(low, high), 12u16) == bit8(high, 4u8),
        bit16(li_bits(low, high), 13u16) == bit8(high, 4u8),
        bit16(li_bits(low, high), 14u16) == bit8(high, 4u8),
        bit16(li_bits(low, high), 15u16) == bit8(high, 4u8),
{
}

proof fn lemma_br_bits(low: u8, high: u8)
    by (bit_vector)
    ensures
        bit16(br_bits(low, high), 0u16) == bit8(low, 0u8),
        bit16(br_bits(low, high), 1u16) == bit8(low, 1u8),
        bit16(br_bits(low, high), 2u16) == bit8(low, 2u8),
        bit16(br_bits(low, high), 3u16) == bit8(low, 6u8),
        bit16(br_bits(low, high), 4u16) == bit8(low, 7u8),
        bit16(br_bits(low, high), 5u16) == bit8(high, 0u8),
        bit16(br_bits(low, high), 6u16) == bit8(high, 0u8),
        bit16(br_bits(low, high), 7u16) == bit8(high, 0u8),
        bit16(br_bits(low, high), 8u16) == bit8(high, 0u8),
        bit16(br_bits(low, high), 9u16) == bit8(high, 0u8),
        bit16(br_bits(low, high), 10u16) == bit8(high, 0u8),
        bit16(br_bits(low, high), 11u16) == bit8(high, 0u8),
        bit16(br_bits(low, high), 12u16) == bit8(high, 0u8),
        bit16(br_bits(low, high), 13u16) == bit8(high, 0u8),
        bit16(br_bits(low, high), 14u16) == bit8(high, 0u8),
        bit16(br_bits(low, high), 15u16) == bit8(high, 0u8),
{
}

/// Register numbers that decoding gives always name one of the sixteen
/// registers of a group: destination and first source lie below 8, second
/// source below 12.
pub proof fn lemma_register_fields_in_range(low: u8, high: u8)
    by (bit_vector)
    ensures
        spec_rd(low) < 8,
        spec_rs1(low) < 8,
        spec_rs2(low, high) < 12,
{
}

impl Inst {
    /// Decodes the instruction word whose first byte in memory is `raw[0]`
    /// and whose second byte is `raw[1]`.
    pub fn decode(raw: [u8; 2]) -> (inst: Inst)
        ensures
            inst == spec_decode(raw[0], raw[1]),
            inst.rd < 8,
            inst.rs1 < 8,
            inst.rs2 < 12,
    {
        proof {
            lemma_register_fields_in_range(raw[0], raw[1]);
        }
        let ghost lo = raw[0];
        let ghost hi = raw[1];
        let high = Inst::bit_split(raw[1]);
        let low = Inst::bit_split(raw[0]);

        let mut rs1_raw = [false; 8];
        rs1_raw[0] = low[3];
        rs1_raw[1] = low[4];
        rs1_raw[2] = low[5];
        let mut rs2_raw = [false; 8];
        rs2_raw[0] = low[6];
        rs2_raw[1] = low[7];
        rs2_raw[3] = high[0];
        let mut rd_raw = [false; 8];
        rd_raw[0] = low[0];
        rd_raw[1] = low[1];
        rd_raw[2] = low[2];
        proof {
            lemma_rs1_bits(lo);
            lemma_rs2_bits(lo, hi);
            lemma_rd_bits(lo);
            lemma_value_of_bits8(rs1_raw@, spec_rs1(lo));
            lemma_value_of_bits8(rs2_raw@, spec_rs2(lo, hi));
            lemma_value_of_bits8(rd_raw@, spec_rd(lo));
            lemma_high_selectors(hi);
        }
        let rs1 = Inst::bit_fuse8(rs1_raw);
        let rs2 = Inst::bit_fuse8(rs2_raw);
        let rd = Inst::bit_fuse8(rd_raw);
        let group = high[1];
        let op: Opcode;
        let mut imm: i16 = 0i16;
        if raw[1] == 255 {
            op = Opcode::HALT;
            imm = 0;
        } else {
            match (high[7], high[6], high[5]) {
                (false, false, false) => {
                    op = match (high[4], high[3], high[2]) {
                        (false, false, false) => Opcode::AND,
                        (false, false, true) => Opcode::OR,
                        (false, true, false) => Opcode::XOR,
                        (false, true, true) => Opcode::ADD,
                        (true, false, false) => Opcode::SUB,
                        (true, false, true) => Opcode::SLL,
                        (true, true, false) => Opcode::SRA,
                        (true, true, true) => Opcode::SRL,
                    };
                    imm = 0;
                },
                (false, false, true) => {
                    op = match (high[4], high[3], high[2]) {
                        (false, false, false) => match rs2 {
                            0 => Opcode::NOT,
                            1 => Opcode::COM,
                            2 => Opcode::MVO,
                            3 => if group {
                                Opcode::MVH
                            } else {
                                Opcode::NotAInst
                            },
                            _ => Opcode::NotAInst,
                        },
                        (false, false, true) => {
                            let mut imm_raw = [high[0]; 16];
                            imm_raw[0] = low[6];
                            imm_raw[1] = low[7];
                            proof {
                                lemma_lh_bits(lo, hi);
                                lemma_value_of_bits16(imm_raw@, lh_bits(lo, hi));
                            }
                            imm = Inst::bit_fuse16(imm_raw) as i16;
                            Opcode::LH
                        },
                        (false, true, false) => {
                            let mut imm_raw = [low[2]; 16];
                            imm_raw[0] = low[0];
                            imm_raw[1] = low[1];
                            imm_raw[2] = low[2];
                            proof {
                                lemma_sh_bits(lo);
                                lemma_value_of_bits16(imm_raw@, sh_bits(lo));
                            }
                            imm = Inst::bit_fuse16(imm_raw) as i16;
                            Opcode::SH
                        },
                        _ => Opcode::NotAInst,
                    };
                },
                (false, true, false) => {
                    op = Opcode::LI;
                    let mut imm_raw = [high[4]; 16];
                    imm_raw[0] = low[3];
                    imm_raw[1] = low[4];
                    imm_raw[2] = low[5];
                    imm_raw[3] = low[6];
                    imm_raw[4] = low[7];
                    imm_raw[5] = high[0];
                    imm_raw[6] = low[2];
                    imm_raw[7] = low[3];
                    proof {
                        lemma_li_bits(lo, hi);
                        lemma_value_of_bits16(imm_raw@, li_bits(lo, hi));
                    }
                    imm = Inst::bit_fuse16(imm_raw) as i16;
                },
                (true, false, false) => {
                    imm = 0;
                    let mut imm_raw = [high[0]; 16];
                    imm_raw[0] = low[0];
                    imm_raw[1] = low[1];
                    imm_raw[2] = low[2];
                    imm_raw[3] = low[6];
                    imm_raw[4] = low[7];
                    proof {
                        lemma_br_bits(lo, hi);
                        lemma_value_of_bits16(imm_raw@, br_bits(lo, hi));
                    }
                    op = match (high[4], high[3], high[2]) {
                        (false, false, false) => match rd {
                            0 => Opcode::SLT,
                            1 => Opcode::SOE,
                            _ => Opcode::NotAInst,
                        },
                        (false, false, true) => {
                            imm = Inst::bit_fuse16(imm_raw) as i16;
                            Opcode::BOZ
                        },
                        (false, true, false) => {
                            imm = Inst::bit_fuse16(imm_raw) as i16;
                            Opcode::BONZ
                        },
                        (true, false, false) => {
                            imm = Inst::bit_fuse16(imm_raw) as i16;
                            Opcode::JAL
                        },
                        (true, false, true) => {
                            imm = Inst::bit_fuse16(imm_raw) as i16;
                            Opcode::JALR
                        },
                        _ => {
                            imm = 0;
                            Opcode::NotAInst
                        },
                    };
                },
                _ => {
                    op = Opcode::NotAInst;
                    imm = 0;
                },
            };
        }
        Inst { op, rs1, rs2, rd, group: group, imm }
    }

    /// Splits a byte into its eight bits, least significant first.
    pub fn bit_split(raw: u8) -> (res: [bool; 8])
        ensures
            res@ == split_seq(raw),
    {
        let mut res = [false; 8];
        let mut raw_m: u8 = raw;
        assert(raw == raw >> 0u8) by (bit_vector);
        for i in 0..8
            invariant
                raw_m == raw >> (i as u8),
                res@.len() == 8,
                forall|j: int| 0 <= j < i ==> res@[j] == bit8(raw, j as u8),
                forall|j: int| i <= j < 8 ==> !res@[j],
        {
            let ghost k: u8 = i as u8;
            assert(raw_m % 2 == 1 <==> bit8(raw, k)) by (bit_vector)
                requires
                    raw_m == raw >> k,
                    k < 8,
            ;
            assert(raw_m / 2 == raw >> ((k + 1) as u8)) by (bit_vector)
                requires
                    raw_m == raw >> k,
                    k < 8,
            ;
            if raw_m % 2 == 1 {
                res[i] = true;
            }
            raw_m = raw_m / 2;
        }
        assert(res@ =~= split_seq(raw));
        res
    }

    /// Builds the byte whose little-endian bits are `raw`.
    pub fn bit_fuse8(raw: [bool; 8]) -> (res: u8)
        ensures
            res == bits_value(raw@),
    {
        let mut res: u8 = 0;
        let mut base: u8 = 1;
        for i in 0..7
            invariant
                raw@.len() == 8,
                res == value_upto(raw@, i as nat),
                base == weight(i as nat),
                i < 8 ==> weight(i as nat) <= 128,
        {
            proof {
                lemma_value_upto_bound(raw@, i as nat);
                reveal_with_fuel(weight, 8);
            }
            if raw[i] {
                res += base;
            }
            base *= 2;
        }
        proof {
            lemma_value_upto_bound(raw@, 7);
            reveal_with_fuel(weight, 8);
        }
        if raw[7] {
            res += base;
        }
        res
    }

    /// Builds the half-word whose little-endian bits are `raw`.
    pub fn bit_fuse16(raw: [bool; 16]) -> (res: u16)
        ensures
            res == bits_value(raw@),
    {
        let mut res: u16 = 0;
        let mut base: u16 = 1;
        for i in 0..15
            invariant
                raw@.len() == 16,
                res == value_upto(raw@, i as nat),
                base == weight(i as nat),
                i < 16 ==> weight(i as nat) <= 32768,
        {
            proof {
                lemma_value_upto_bound(raw@, i as nat);
                reveal_with_fuel(weight, 16);
            }
            if raw[i] {
                res += base;
            }
            base *= 2;
        }
        proof {
            lemma_value_upto_bound(raw@, 15);
            reveal_with_fuel(weight, 16);
        }
        if raw[15] {
            res += base;
        }
        res
    }
}

} // verus!
