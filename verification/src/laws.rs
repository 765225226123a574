//! Properties of the machine that hold across instructions and steps.

use vstd::prelude::*;

use vstd::wrapping::i16_specs;

use crate::inst::{Inst, Opcode};
use crate::machine::{
    addr_of, effective_addr, execute, fetch, half_of, high_byte, low_byte, next_addr, read_byte,
    reg_of, step, touch, well_formed, CoreState, Status,
};

verus! {

/// The instruction that a fetch gives names registers that exist.
pub proof fn lemma_fetch_registers(s: CoreState)
    ensures
        fetch(s).0.rd < 8,
        fetch(s).0.rs1 < 8,
        fetch(s).0.rs2 < 12,
{
    let pc_a = addr_of(s.pc);
    let m1 = touch(s.memory, pc_a, pc_a);
    crate::inst::lemma_register_fields_in_range(
        read_byte(s.memory, pc_a),
        read_byte(m1, addr_of(i16_specs::wrapping_add(s.pc, 1))),
    );
}

/// Executing an instruction that names existing registers keeps sixteen
/// registers in each group and leaves the debug flag alone.
proof fn lemma_execute_well_formed(s: CoreState, inst: Inst, pc_a: usize)
    requires
        well_formed(s),
        inst.rd < 8,
        inst.rs1 < 8,
        inst.rs2 < 12,
    ensures
        well_formed(execute(s, inst, pc_a).0),
        execute(s, inst, pc_a).0.debug == s.debug,
{
}

/// Register 0 of the low group reads zero after every step, each group keeps
/// sixteen registers, and the debug flag never changes.
pub proof fn lemma_zero_register(s: CoreState)
    requires
        well_formed(s),
    ensures
        well_formed(step(s).0),
        step(s).0.reg_low[0] == 0,
        step(s).0.debug == s.debug,
{
    lemma_fetch_registers(s);
    let (inst, m) = fetch(s);
    lemma_execute_well_formed(CoreState { memory: m, ..s }, inst, addr_of(s.pc));
}

/// A core that reached a halt instruction stays there: stepping it again
/// changes nothing and halts again.
pub proof fn lemma_halt_is_fixpoint(s: CoreState)
    requires
        well_formed(s),
        step(s).1 == Status::HALT,
    ensures
        step(step(s).0) == (step(s).0, Status::HALT),
{
    lemma_zero_register(s);
    let t = step(s).0;
    let pc_a = addr_of(s.pc);
    let pc1 = addr_of(i16_specs::wrapping_add(s.pc, 1));
    let m1 = touch(s.memory, pc_a, pc_a);
    assert(fetch(s).0.op == Opcode::HALT);
    assert(read_byte(m1, pc1) == 255u8);
    assert(t.memory == m1);
    assert(fetch(t) == fetch(s)) by {
        assert(touch(m1, pc_a, pc_a) == m1);
        assert(read_byte(m1, pc_a) == read_byte(s.memory, pc_a));
    }
    assert(t.reg_low.update(0, 0) =~= t.reg_low);
}

/// A core that met a word that is no instruction stays there: stepping it
/// again changes nothing and raises the same exception.
pub proof fn lemma_exception_is_fixpoint(s: CoreState)
    requires
        well_formed(s),
        step(s).1 == Status::Exp,
    ensures
        step(step(s).0) == (step(s).0, Status::Exp),
{
    lemma_zero_register(s);
    let t = step(s).0;
    let pc_a = addr_of(s.pc);
    let pc1 = addr_of(i16_specs::wrapping_add(s.pc, 1));
    let m1 = touch(s.memory, pc_a, pc_a);
    assert(fetch(s).0.op == Opcode::NotAInst);
    assert(0u8 >> 5u8 == 0u8) by (bit_vector);
    assert(m1.contains_key(pc1));
    assert(t.memory == m1);
    assert(fetch(t) == fetch(s)) by {
        assert(touch(m1, pc_a, pc_a) == m1);
        assert(read_byte(m1, pc_a) == read_byte(s.memory, pc_a));
    }
    assert(t.reg_low.update(0, 0) =~= t.reg_low);
}

/// A step never forgets a byte: every address that held a byte still holds one.
pub proof fn lemma_memory_keys_kept(s: CoreState, a: usize)
    requires
        well_formed(s),
        s.memory.contains_key(a),
    ensures
        step(s).0.memory.contains_key(a),
{
    lemma_fetch_registers(s);
}

/// Apart from a store, a step changes memory at most at the program
/// counter's address (where a read of a missing byte writes a zero byte).
pub proof fn lemma_only_stores_write_elsewhere(s: CoreState, a: usize)
    requires
        well_formed(s),
        fetch(s).0.op != Opcode::SH,
        a != addr_of(s.pc),
    ensures
        step(s).0.memory.contains_key(a) == s.memory.contains_key(a),
        s.memory.contains_key(a) ==> step(s).0.memory[a] == s.memory[a],
{
    lemma_fetch_registers(s);
}

/// Every instruction but the branches, jumps, halt and the non-instruction
/// moves the program counter on by one word; halt and the non-instruction
/// leave it where it is.
pub proof fn lemma_program_counter(s: CoreState)
    requires
        well_formed(s),
    ensures
        ({
            let op = fetch(s).0.op;
            &&& (op != Opcode::BOZ && op != Opcode::BONZ && op != Opcode::JAL && op
                != Opcode::JALR && op != Opcode::HALT && op != Opcode::NotAInst) ==> step(s).0.pc
                == i16_specs::wrapping_add(s.pc, 2)
            &&& (op == Opcode::HALT || op == Opcode::NotAInst) ==> step(s).0.pc == s.pc
        }),
{
    lemma_fetch_registers(s);
}

proof fn lemma_half_bytes(v: i16)
    by (bit_vector)
    ensures
        half_of(low_byte(v), high_byte(v)) == v,
{
}

/// Reading back a stored half-word: after the two bytes of `v` are stored at
/// `addr` and the next address, both addresses hold a byte (so a read there
/// writes nothing) and the half-word read from `addr` is `v`.
pub proof fn lemma_read_after_store(m: Map<usize, u8>, addr: usize, v: i16, fill: usize)
    ensures
        ({
            let stored = m.insert(addr, low_byte(v)).insert(next_addr(addr), high_byte(v));
            &&& touch(stored, addr, fill) == stored
            &&& touch(stored, next_addr(addr), fill) == stored
            &&& half_of(read_byte(stored, addr), read_byte(stored, next_addr(addr))) == v
        }),
{
    lemma_half_bytes(v);
    assert(next_addr(addr) != addr);
}

/// What a load gives back of a store: when a step stores a register at some
/// address and the next step loads from that same address, the load's
/// destination receives the stored register's value, provided the second
/// fetch does not write over the two stored bytes and the destination is not
/// the wired-zero register.
pub proof fn lemma_load_returns_stored(s: CoreState)
    requires
        well_formed(s),
        fetch(s).0.op == Opcode::SH,
        fetch(step(s).0).0.op == Opcode::LH,
        effective_addr(step(s).0, fetch(step(s).0).0) == effective_addr(s, fetch(s).0),
        addr_of(step(s).0.pc) != effective_addr(s, fetch(s).0),
        addr_of(step(s).0.pc) != next_addr(effective_addr(s, fetch(s).0)),
        fetch(step(s).0).0.group || fetch(step(s).0).0.rd != 0,
    ensures
        reg_of(step(step(s).0).0, fetch(step(s).0).0.group, fetch(step(s).0).0.rd as int)
            == reg_of(s, fetch(s).0.group, fetch(s).0.rs2 as int),
{
    lemma_zero_register(s);
    lemma_fetch_registers(s);
    let t = step(s).0;
    lemma_fetch_registers(t);
    let i1 = fetch(s).0;
    let addr = effective_addr(s, i1);
    let v = reg_of(s, i1.group, i1.rs2 as int);
    let m = fetch(s).1;
    let stored = m.insert(addr, low_byte(v)).insert(next_addr(addr), high_byte(v));
    lemma_read_after_store(m, addr, v, addr_of(t.pc));
    assert(t.memory == stored);
    let pc_a = addr_of(t.pc);
    let m2 = fetch(t).1;
    assert(m2.contains_key(addr) && m2[addr] == stored[addr]);
    assert(m2.contains_key(next_addr(addr)) && m2[next_addr(addr)] == stored[next_addr(addr)]);
    assert(touch(m2, addr, pc_a) == m2);
    assert(touch(m2, next_addr(addr), pc_a) == m2);
}

} // verus!
