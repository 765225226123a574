//! What each instruction does, stated over the registers, flag, program
//! counter and memory before and after a step.

use vstd::prelude::*;

use vstd::wrapping::i16_specs;

use crate::inst::{spec_decode, Opcode};
use crate::laws::lemma_fetch_registers;
use crate::machine::{
    addr_of, fetch, initial_state, next_addr, reg_of, step, step_trace, well_formed, CoreState,
    Status, Trace,
};

verus! {

/// The value of the first source register of the instruction at the program counter.
pub open spec fn src1(s: CoreState) -> i16 {
    reg_of(s, fetch(s).0.group, fetch(s).0.rs1 as int)
}

/// The value of the second source register of the instruction at the program counter.
pub open spec fn src2(s: CoreState) -> i16 {
    reg_of(s, fetch(s).0.group, fetch(s).0.rs2 as int)
}

/// The destination register of the instruction at the program counter, after the step.
pub open spec fn dest_after(s: CoreState) -> i16 {
    reg_of(step(s).0, fetch(s).0.group, fetch(s).0.rd as int)
}

/// The destination is not register 0 of the low group, which is wired to zero.
pub open spec fn dest_visible(s: CoreState) -> bool {
    fetch(s).0.group || fetch(s).0.rd != 0
}

/// The instruction word is read at the program counter, first byte low: when
/// both bytes are present, the instruction is their decoding and the fetch
/// leaves memory alone.
pub proof fn lemma_fetch_reads_program_counter(s: CoreState)
    requires
        s.memory.contains_key(addr_of(s.pc)),
        s.memory.contains_key(addr_of(i16_specs::wrapping_add(s.pc, 1))),
    ensures
        fetch(s).0 == spec_decode(
            s.memory[addr_of(s.pc)],
            s.memory[addr_of(i16_specs::wrapping_add(s.pc, 1))],
        ),
        fetch(s).1 == s.memory,
{
}

/// Bitwise operations: AND, OR and XOR combine the two source registers of
/// the instruction's group bit by bit, and NOT gives `-1 - x` of its source.
pub proof fn lemma_bitwise_operations(s: CoreState)
    requires
        well_formed(s),
        dest_visible(s),
    ensures
        fetch(s).0.op == Opcode::AND ==> dest_after(s) == src1(s) & src2(s),
        fetch(s).0.op == Opcode::OR ==> dest_after(s) == src1(s) | src2(s),
        fetch(s).0.op == Opcode::XOR ==> dest_after(s) == src1(s) ^ src2(s),
        fetch(s).0.op == Opcode::NOT ==> dest_after(s) as int == -1 - src1(s) as int,
{
    lemma_fetch_registers(s);
    let a = src1(s);
    assert((!a) as int == -1 - a as int) by (bit_vector);
}

/// Arithmetic: ADD, SUB and COM (negation) give the sum, difference and
/// negation of the sources modulo 2^16.
pub proof fn lemma_arithmetic_operations(s: CoreState)
    requires
        well_formed(s),
        dest_visible(s),
    ensures
        fetch(s).0.op == Opcode::ADD ==> (dest_after(s) - src1(s) - src2(s)) % 0x10000 == 0,
        fetch(s).0.op == Opcode::SUB ==> (dest_after(s) - src1(s) + src2(s)) % 0x10000 == 0,
        fetch(s).0.op == Opcode::COM ==> (dest_after(s) + src1(s)) % 0x10000 == 0,
{
    lemma_fetch_registers(s);
}

/// Shifts by the low four bits of the second source: SLL shifts left, SRA
/// shifts right keeping the sign, SRL shifts the sixteen bits right filling
/// with zeros.
pub proof fn lemma_shift_operations(s: CoreState)
    requires
        well_formed(s),
        dest_visible(s),
    ensures
        fetch(s).0.op == Opcode::SLL ==> dest_after(s) == src1(s) << ((src2(s) as u16) % 16u16),
        fetch(s).0.op == Opcode::SRA ==> dest_after(s) == src1(s) >> ((src2(s) as u16) % 16u16),
        fetch(s).0.op == Opcode::SRL ==> dest_after(s) == ((src1(s) as u16) >> ((src2(s) as u16)
            % 16u16)) as i16,
{
    lemma_fetch_registers(s);
    let a = src1(s);
    let b = src2(s);
    assert(a << ((b as u32) % 16u32) == a << ((b as u16) % 16u16)) by (bit_vector);
    assert(a >> ((b as u32) % 16u32) == a >> ((b as u16) % 16u16)) by (bit_vector);
    assert((a as u16) >> (((b as u16) as u32) % 16u32) == (a as u16) >> ((b as u16) % 16u16))
        by (bit_vector);
}

/// Moves: MVH copies a high register to a high register, MVO copies a
/// register of the other group into the instruction's group, LI loads the
/// immediate.
pub proof fn lemma_move_operations(s: CoreState)
    requires
        well_formed(s),
    ensures
        fetch(s).0.op == Opcode::MVH ==> step(s).0.reg_high[fetch(s).0.rd as int]
            == s.reg_high[fetch(s).0.rs1 as int],
        fetch(s).0.op == Opcode::MVO && dest_visible(s) ==> dest_after(s) == reg_of(
            s,
            !fetch(s).0.group,
            fetch(s).0.rs1 as int,
        ),
        fetch(s).0.op == Opcode::LI && dest_visible(s) ==> dest_after(s) == fetch(s).0.imm,
{
    lemma_fetch_registers(s);
}

/// Comparisons: SLT sets the flag to 1 exactly when the first source is
/// less than the second (signed), SOE exactly when they are equal; otherwise
/// to 0. No other instruction changes the flag.
pub proof fn lemma_compare_operations(s: CoreState)
    requires
        well_formed(s),
    ensures
        fetch(s).0.op == Opcode::SLT ==> step(s).0.coms == (if src1(s) < src2(s) {
            1i16
        } else {
            0i16
        }),
        fetch(s).0.op == Opcode::SOE ==> step(s).0.coms == (if src1(s) == src2(s) {
            1i16
        } else {
            0i16
        }),
        fetch(s).0.op != Opcode::SLT && fetch(s).0.op != Opcode::SOE ==> step(s).0.coms == s.coms,
{
    lemma_fetch_registers(s);
}

/// Branches and jumps: BOZ moves the program counter by its offset when the
/// flag is 0 and by one word otherwise; BONZ the other way round; JAL moves it
/// by its offset, JALR by the first source register plus the offset, and both
/// leave the address of the next word in register 15 of the low group.
pub proof fn lemma_branch_operations(s: CoreState)
    requires
        well_formed(s),
    ensures
        fetch(s).0.op == Opcode::BOZ ==> step(s).0.pc == (if s.coms == 0 {
            i16_specs::wrapping_add(s.pc, fetch(s).0.imm)
        } else {
            i16_specs::wrapping_add(s.pc, 2)
        }),
        fetch(s).0.op == Opcode::BONZ ==> step(s).0.pc == (if s.coms != 0 {
            i16_specs::wrapping_add(s.pc, fetch(s).0.imm)
        } else {
            i16_specs::wrapping_add(s.pc, 2)
        }),
        fetch(s).0.op == Opcode::JAL ==> step(s).0.pc == i16_specs::wrapping_add(
            s.pc,
            fetch(s).0.imm,
        ) && step(s).0.reg_low[15] == i16_specs::wrapping_add(s.pc, 2),
        fetch(s).0.op == Opcode::JALR ==> step(s).0.pc == i16_specs::wrapping_add(
            s.pc,
            i16_specs::wrapping_add(src1(s), fetch(s).0.imm),
        ) && step(s).0.reg_low[15] == i16_specs::wrapping_add(s.pc, 2),
{
    lemma_fetch_registers(s);
}

/// A load reads the half-word at the first source plus the offset, first
/// byte low. A byte that memory does not hold reads as zero; so does the
/// second byte when the first was missing and the second address is the
/// program counter's, where that first read wrote a zero.
pub proof fn lemma_load_operation(s: CoreState)
    requires
        well_formed(s),
        dest_visible(s),
        fetch(s).0.op == Opcode::LH,
    ensures
        ({
            let a = addr_of(i16_specs::wrapping_add(src1(s), fetch(s).0.imm));
            let m = fetch(s).1;
            let b0: u8 = if m.contains_key(a) { m[a] } else { 0 };
            let b1: u8 = if !m.contains_key(a) && next_addr(a) == addr_of(s.pc) {
                0
            } else if m.contains_key(next_addr(a)) {
                m[next_addr(a)]
            } else {
                0
            };
            (dest_after(s) as u16) as int == b0 as int + 256 * b1 as int
        }),
{
    lemma_fetch_registers(s);
    let a = addr_of(i16_specs::wrapping_add(src1(s), fetch(s).0.imm));
    let m = fetch(s).1;
    let b0: u8 = if m.contains_key(a) { m[a] } else { 0 };
    let b1: u8 = if !m.contains_key(a) && next_addr(a) == addr_of(s.pc) {
        0
    } else if m.contains_key(next_addr(a)) {
        m[next_addr(a)]
    } else {
        0
    };
    assert((((((b1 as u16) << 8u16) | (b0 as u16)) as i16) as u16) as int == b0 as int + 256
        * b1 as int) by (bit_vector);
}

/// A store writes the second source as two bytes, first byte low, at the
/// first source plus the offset and the address after it, and leaves every
/// other address as the fetch left it.
pub proof fn lemma_store_operation(s: CoreState, x: usize)
    requires
        well_formed(s),
        fetch(s).0.op == Opcode::SH,
    ensures
        ({
            let a = addr_of(i16_specs::wrapping_add(src1(s), fetch(s).0.imm));
            let t = step(s).0;
            &&& t.memory.contains_key(a)
            &&& t.memory.contains_key(next_addr(a))
            &&& t.memory[a] as int + 256 * t.memory[next_addr(a)] as int == (src2(s) as u16) as int
            &&& (x != a && x != next_addr(a)) ==> (t.memory.contains_key(x)
                == fetch(s).1.contains_key(x) && (t.memory.contains_key(x) ==> t.memory[x]
                == fetch(s).1[x]))
        }),
{
    lemma_fetch_registers(s);
    let v = src2(s);
    assert((v as u8) as int + 256 * (((v as u16) >> 8u16) as u8) as int == (v as u16) as int)
        by (bit_vector);
    assert(next_addr(addr_of(i16_specs::wrapping_add(src1(s), fetch(s).0.imm))) != addr_of(
        i16_specs::wrapping_add(src1(s), fetch(s).0.imm),
    ));
}

/// Registers that an instruction does not write keep their values: the
/// destination of the arithmetic, logic, shift, move, load-immediate and load
/// instructions, the high destination of MVH, and register 15 of the low
/// group for the jumps are the only registers a step writes (register 0 of
/// the low group, always zeroed, aside).
pub proof fn lemma_register_frame(s: CoreState, h: bool, i: int)
    requires
        well_formed(s),
        0 <= i < 16,
        h || i != 0,
    ensures
        ({
            let inst = fetch(s).0;
            let op = inst.op;
            let writes_dest = op == Opcode::AND || op == Opcode::OR || op == Opcode::XOR || op
                == Opcode::ADD || op == Opcode::SUB || op == Opcode::SLL || op == Opcode::SRA || op
                == Opcode::SRL || op == Opcode::NOT || op == Opcode::COM || op == Opcode::MVO || op
                == Opcode::LI || op == Opcode::LH;
            (!(writes_dest && h == inst.group && i == inst.rd) && !(op == Opcode::MVH && h && i
                == inst.rd) && !((op == Opcode::JAL || op == Opcode::JALR) && !h && i == 15))
                ==> reg_of(step(s).0, h, i) == reg_of(s, h, i)
        }),
{
    lemma_fetch_registers(s);
}

/// The address after the program counter's is never the program counter's.
proof fn lemma_pc_addresses_differ(pc: i16)
    ensures
        addr_of(i16_specs::wrapping_add(pc, 1)) != addr_of(pc),
{
    let q = i16_specs::wrapping_add(pc, 1);
    assert(q != pc);
    assert(q as usize != pc as usize) by (bit_vector)
        requires
            q != pc,
    ;
}

/// The instruction word is read at the program counter and the address after
/// it, first byte low; a byte that memory does not hold reads as zero.
pub proof fn lemma_fetch_missing_bytes_read_zero(s: CoreState)
    ensures
        ({
            let p0 = addr_of(s.pc);
            let p1 = addr_of(i16_specs::wrapping_add(s.pc, 1));
            fetch(s).0 == spec_decode(
                if s.memory.contains_key(p0) { s.memory[p0] } else { 0 },
                if s.memory.contains_key(p1) { s.memory[p1] } else { 0 },
            )
        }),
{
    lemma_pc_addresses_differ(s.pc);
}

/// A read of a missing byte writes a zero byte at the program counter's
/// address: after a step the program counter's old address holds a byte,
/// and it is zero unless every byte that an instruction other than a store
/// read was present, in which case it is unchanged.
pub proof fn lemma_fill_at_program_counter(s: CoreState)
    requires
        well_formed(s),
        fetch(s).0.op != Opcode::SH,
    ensures
        step(s).0.memory.contains_key(addr_of(s.pc)),
        !s.memory.contains_key(addr_of(s.pc)) ==> step(s).0.memory[addr_of(s.pc)] == 0,
        !s.memory.contains_key(addr_of(i16_specs::wrapping_add(s.pc, 1))) ==> step(
            s,
        ).0.memory[addr_of(s.pc)] == 0,
        (s.memory.contains_key(addr_of(s.pc)) && fetch(s).1 =~= s.memory && fetch(s).0.op
            != Opcode::LH) ==> step(s).0.memory[addr_of(s.pc)] == s.memory[addr_of(s.pc)],
{
    lemma_fetch_registers(s);
    lemma_pc_addresses_differ(s.pc);
}

/// What a step leaves the core in: a halt instruction halts, a word that is
/// no instruction raises an exception, every other instruction completes
/// normally.
pub proof fn lemma_step_status(s: CoreState)
    ensures
        step(s).1 == Status::HALT <==> fetch(s).0.op == Opcode::HALT,
        step(s).1 == Status::Exp <==> fetch(s).0.op == Opcode::NotAInst,
        step(s).1 == Status::Normal <==> (fetch(s).0.op != Opcode::HALT && fetch(s).0.op
            != Opcode::NotAInst),
{
}

/// What a step reports: in debug mode, for every instruction but the
/// non-instruction, its operation, register numbers, group and immediate, with
/// the program counter before the step (after the advance for NOT and MVH);
/// nothing otherwise.
pub proof fn lemma_step_report(s: CoreState)
    ensures
        ({
            let inst = fetch(s).0;
            &&& (!s.debug || inst.op == Opcode::NotAInst) ==> step_trace(s) is None
            &&& (s.debug && inst.op != Opcode::NotAInst) ==> step_trace(s) == Some(
                Trace {
                    op: inst.op,
                    pc: if inst.op == Opcode::NOT || inst.op == Opcode::MVH {
                        i16_specs::wrapping_add(s.pc, 2)
                    } else {
                        s.pc
                    },
                    rs1: inst.rs1 as usize,
                    rs2: inst.rs2 as usize,
                    rd: inst.rd as usize,
                    group: inst.group,
                    imm: inst.imm,
                },
            )
        }),
{
}

/// A new core: every register, the flag and the program counter are zero, and
/// memory holds exactly the program's bytes at addresses 0 onwards.
pub proof fn lemma_initial_state(program: Seq<u8>, debug: bool, h: bool, i: int, k: usize)
    requires
        0 <= i < 16,
    ensures
        reg_of(initial_state(program, debug), h, i) == 0,
        initial_state(program, debug).pc == 0,
        initial_state(program, debug).coms == 0,
        initial_state(program, debug).debug == debug,
        initial_state(program, debug).memory.contains_key(k) <==> k < program.len(),
        k < program.len() ==> initial_state(program, debug).memory[k] == program[k as int],
{
}

} // verus!
