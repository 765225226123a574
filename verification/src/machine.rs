//! The core: two groups of sixteen registers, a comparison flag, a program
//! counter and a sparse byte memory, and the execution of one instruction.

use std::collections::BTreeMap;

use vstd::prelude::*;

use vstd::wrapping::{i16_specs, u16_specs};

use crate::inst::{spec_decode, Inst, Opcode};

verus! {

/// What an executed instruction leaves the core in.
#[derive(Clone, Copy, Debug, PartialEq, Eq, Structural)]
pub enum Status {
    /// The instruction completed; execution can go on.
    Normal,
    /// A halt instruction was reached.
    HALT,
    /// The word at the program counter is not an instruction.
    Exp,
}

/// What a core in debug mode reports of an executed instruction.
#[derive(Clone, Copy, Debug, PartialEq, Eq, Structural)]
pub struct Trace {
    pub op: Opcode,
    /// The program counter as reported: before the instruction, except for
    /// `NOT` and `MVH`, which report it after the advance.
    pub pc: i16,
    pub rs1: usize,
    pub rs2: usize,
    pub rd: usize,
    pub group: bool,
    pub imm: i16,
}

/// The mathematical state of a core.
#[verifier::ext_equal]
pub struct CoreState {
    pub reg_high: Seq<i16>,
    pub reg_low: Seq<i16>,
    pub coms: i16,
    pub pc: i16,
    pub debug: bool,
    pub memory: Map<usize, u8>,
}

/// A core of the machine.
#[derive(Debug)]
pub struct Core {
    reg_high: [i16; 16],
    reg_low: [i16; 16],
    coms: i16,
    pc: i16,
    debug: bool,
    memory: BTreeMap<usize, u8>,
}

impl View for Core {
    type V = CoreState;

    closed spec fn view(&self) -> CoreState {
        CoreState {
            reg_high: self.reg_high@,
            reg_low: self.reg_low@,
            coms: self.coms,
            pc: self.pc,
            debug: self.debug,
            memory: self.memory@,
        }
    }
}

/// Every register file of a core state has sixteen registers.
pub open spec fn well_formed(s: CoreState) -> bool {
    s.reg_high.len() == 16 && s.reg_low.len() == 16
}

/// The state of every core has sixteen registers in each group.
pub proof fn lemma_core_well_formed(core: &Core)
    ensures
        well_formed(core@),
{
}

/// The memory address that a sixteen-bit value names (sign-extended).
pub open spec fn addr_of(v: i16) -> usize {
    v as usize
}

/// The address after `a`, wrapping around at the top of the address space.
pub open spec fn next_addr(a: usize) -> usize {
    vstd::wrapping::usize_specs::wrapping_add(a, 1)
}

/// The byte that a read at `a` gives: the stored byte, or zero where none is.
pub open spec fn read_byte(m: Map<usize, u8>, a: usize) -> u8 {
    if m.contains_key(a) {
        m[a]
    } else {
        0
    }
}

/// The memory after a read at `a`: unchanged where `a` holds a byte, else
/// with a zero byte written at `fill`.
pub open spec fn touch(m: Map<usize, u8>, a: usize, fill: usize) -> Map<usize, u8> {
    if m.contains_key(a) {
        m
    } else {
        m.insert(fill, 0u8)
    }
}

/// The memory that holds the first `n` bytes of `program` from address 0.
pub open spec fn program_memory(program: Seq<u8>, n: nat) -> Map<usize, u8> {
    Map::new(|k: usize| k < n, |k: usize| program[k as int])
}

/// The state of a core just made from `program` at address 0.
pub open spec fn initial_state(program: Seq<u8>, debug: bool) -> CoreState {
    CoreState {
        reg_high: Seq::new(16, |i: int| 0i16),
        reg_low: Seq::new(16, |i: int| 0i16),
        coms: 0,
        pc: 0,
        debug,
        memory: program_memory(program, program.len()),
    }
}

/// Register `i` of the high group (`group`) or of the low group.
pub open spec fn reg_of(s: CoreState, group: bool, i: int) -> i16 {
    if group {
        s.reg_high[i]
    } else {
        s.reg_low[i]
    }
}

/// `s` with register `i` of the chosen group set to `v`.
pub open spec fn with_reg(s: CoreState, group: bool, i: int, v: i16) -> CoreState {
    if group {
        CoreState { reg_high: s.reg_high.update(i, v), ..s }
    } else {
        CoreState { reg_low: s.reg_low.update(i, v), ..s }
    }
}

/// `s` with the program counter moved on by one instruction word.
pub open spec fn advance(s: CoreState) -> CoreState {
    CoreState { pc: i16_specs::wrapping_add(s.pc, 2), ..s }
}

/// The result of a two-register arithmetic or logic operation.
pub open spec fn alu(op: Opcode, a: i16, b: i16) -> i16 {
    match op {
        Opcode::AND => a & b,
        Opcode::OR => a | b,
        Opcode::XOR => a ^ b,
        Opcode::ADD => i16_specs::wrapping_add(a, b),
        Opcode::SUB => i16_specs::wrapping_sub(a, b),
        Opcode::SLL => i16_specs::wrapping_shl(a, b as u32),
        Opcode::SRA => i16_specs::wrapping_shr(a, b as u32),
        _ => u16_specs::wrapping_shr(a as u16, (b as u16) as u32) as i16,
    }
}

/// The bitwise complement of `a`.
pub open spec fn complement(a: i16) -> i16 {
    !a
}

/// Whether `op` is one of the two-register arithmetic or logic operations.
pub open spec fn is_alu(op: Opcode) -> bool {
    ||| op == Opcode::AND
    ||| op == Opcode::OR
    ||| op == Opcode::XOR
    ||| op == Opcode::ADD
    ||| op == Opcode::SUB
    ||| op == Opcode::SLL
    ||| op == Opcode::SRA
    ||| op == Opcode::SRL
}

/// The half-word whose first byte in memory is `l` and second byte `h`.
pub open spec fn half_of(l: u8, h: u8) -> i16 {
    (((h as u16) << 8u16) | (l as u16)) as i16
}

/// The byte of `v` that a store puts first in memory.
pub open spec fn low_byte(v: i16) -> u8 {
    v as u8
}

/// The byte of `v` that a store puts second in memory.
pub open spec fn high_byte(v: i16) -> u8 {
    ((v as u16) >> 8u16) as u8
}

/// The address that a load or store of `inst` in state `s` reaches: its
/// first source register plus its immediate, sign-extended.
pub open spec fn effective_addr(s: CoreState, inst: Inst) -> usize {
    addr_of(i16_specs::wrapping_add(reg_of(s, inst.group, inst.rs1 as int), inst.imm))
}

/// The instruction at the program counter, and the memory after reading it.
pub open spec fn fetch(s: CoreState) -> (Inst, Map<usize, u8>) {
    let pc_a = addr_of(s.pc);
    let pc1 = addr_of(i16_specs::wrapping_add(s.pc, 1));
    let m1 = touch(s.memory, pc_a, pc_a);
    (spec_decode(read_byte(s.memory, pc_a), read_byte(m1, pc1)), touch(m1, pc1, pc_a))
}

/// What executing `inst` does to `s`, a state whose memory has been read for
/// the fetch; a missing byte that a load reads is filled at `pc_a`.
pub open spec fn execute(s: CoreState, inst: Inst, pc_a: usize) -> (CoreState, Status) {
    let g = inst.group;
    let rd = inst.rd as int;
    let a = reg_of(s, g, inst.rs1 as int);
    let b = reg_of(s, g, inst.rs2 as int);
    let pc2 = i16_specs::wrapping_add(s.pc, 2);
    match inst.op {
        Opcode::NOT => (advance(with_reg(s, g, rd, complement(a))), Status::Normal),
        Opcode::COM => (advance(with_reg(s, g, rd, i16_specs::wrapping_sub(0, a))), Status::Normal),
        Opcode::MVH => (advance(with_reg(s, true, rd, s.reg_high[inst.rs1 as int])), Status::Normal),
        Opcode::MVO => (
            advance(with_reg(s, g, rd, reg_of(s, !g, inst.rs1 as int))),
            Status::Normal,
        ),
        Opcode::LI => (advance(with_reg(s, g, rd, inst.imm)), Status::Normal),
        Opcode::LH => {
            let addr = effective_addr(s, inst);
            let m1 = touch(s.memory, addr, pc_a);
            let v = half_of(read_byte(s.memory, addr), read_byte(m1, next_addr(addr)));
            let m2 = touch(m1, next_addr(addr), pc_a);
            (advance(with_reg(CoreState { memory: m2, ..s }, g, rd, v)), Status::Normal)
        },
        Opcode::SH => {
            let addr = effective_addr(s, inst);
            let m = s.memory.insert(addr, low_byte(b)).insert(next_addr(addr), high_byte(b));
            (advance(CoreState { memory: m, ..s }), Status::Normal)
        },
        Opcode::SLT => (
            advance(CoreState { coms: if a < b { 1 } else { 0 }, ..s }),
            Status::Normal,
        ),
        Opcode::SOE => (
            advance(CoreState { coms: if a == b { 1 } else { 0 }, ..s }),
            Status::Normal,
        ),
        Opcode::BOZ => (
            CoreState {
                pc: if s.coms == 0 { i16_specs::wrapping_add(s.pc, inst.imm) } else { pc2 },
                ..s
            },
            Status::Normal,
        ),
        Opcode::BONZ => (
            CoreState {
                pc: if s.coms != 0 { i16_specs::wrapping_add(s.pc, inst.imm) } else { pc2 },
                ..s
            },
            Status::Normal,
        ),
        Opcode::JAL => (
            CoreState {
                reg_low: s.reg_low.update(15, pc2),
                pc: i16_specs::wrapping_add(s.pc, inst.imm),
                ..s
            },
            Status::Normal,
        ),
        Opcode::JALR => (
            CoreState {
                reg_low: s.reg_low.update(15, pc2),
                pc: i16_specs::wrapping_add(s.pc, i16_specs::wrapping_add(a, inst.imm)),
                ..s
            },
            Status::Normal,
        ),
        Opcode::HALT => (s, Status::HALT),
        Opcode::NotAInst => (s, Status::Exp),
        _ => (advance(with_reg(s, g, rd, alu(inst.op, a, b))), Status::Normal),
    }
}

/// One step of the core: fetch, execute, and register 0 of the low group
/// forced back to zero.
pub open spec fn step(s: CoreState) -> (CoreState, Status) {
    let (inst, m) = fetch(s);
    let (t, status) = execute(CoreState { memory: m, ..s }, inst, addr_of(s.pc));
    (CoreState { reg_low: t.reg_low.update(0, 0), ..t }, status)
}

/// What a step of `s` reports: nothing unless the core is in debug mode or
/// when the word is not an instruction.
pub open spec fn step_trace(s: CoreState) -> Option<Trace> {
    let inst = fetch(s).0;
    if s.debug && inst.op != Opcode::NotAInst {
        Some(
            Trace {
                op: inst.op,
                pc: if inst.op == Opcode::NOT || inst.op == Opcode::MVH {
                    i16_specs::wrapping_add(s.pc, 2)
                } else {
                    s.pc
                },
                rs1: inst.rs1 as usize,
                rs2: inst.rs2 as usize,
                rd: inst.rd as usize,
                group: inst.group,
                imm: inst.imm,
            },
        )
    } else {
        None
    }
}

impl Core {
    fn fill_memory(program: &[u8]) -> (memory: BTreeMap<usize, u8>)
        ensures
            memory@ == program_memory(program@, program@.len()),
    {
        let mut memory = BTreeMap::new();
        for i in 0..program.len()
            invariant
                memory@ == program_memory(program@, i as nat),
        {
            memory.insert(i, program[i]);
            assert(memory@ =~= program_memory(program@, (i + 1) as nat));
        }
        memory
    }

    /// A core in its reset state with `program` loaded at address 0.
    pub fn new_from_vec(program: &Vec<u8>, debug_flag: bool) -> (core: Core)
        ensures
            core@ == initial_state(program@, debug_flag),
    {
        let memory = Core::fill_memory(program.as_slice());
        let core = Core {
            reg_high: [0;16],
            reg_low: [0;16],
            coms: 0,
            pc: 0,
            debug: debug_flag,
            memory,
        };
        assert(core@ =~= initial_state(program@, debug_flag));
        core
    }

    /// A core in its reset state with `program` loaded at address 0.
    pub fn new_from_array(program: &[u8], debug_flag: bool) -> (core: Core)
        ensures
            core@ == initial_state(program@, debug_flag),
    {
        let memory = Core::fill_memory(program);
        let core = Core {
            reg_high: [0;16],
            reg_low: [0;16],
            coms: 0,
            pc: 0,
            debug: debug_flag,
            memory,
        };
        assert(core@ =~= initial_state(program@, debug_flag));
        core
    }
}

impl Core {
    fn reg(&self, group: bool, i: usize) -> (v: i16)
        requires
            i < 16,
        ensures
            v == reg_of(self@, group, i as int),
    {
        if group {
            self.reg_high[i]
        } else {
            self.reg_low[i]
        }
    }

    fn set_reg(&mut self, group: bool, i: usize, v: i16)
        requires
            i < 16,
        ensures
            final(self)@ == with_reg(old(self)@, group, i as int, v),
    {
        if group {
            self.reg_high[i] = v;
        } else {
            self.reg_low[i] = v;
        }
        assert(self@ =~= with_reg(old(self)@, group, i as int, v));
    }

    fn advance_pc(&mut self)
        ensures
            final(self)@ == advance(old(self)@),
    {
        self.pc = self.pc.wrapping_add(2);
        assert(self@ =~= advance(old(self)@));
    }

    /// Reads the byte at `addr`; where memory holds none, writes a zero byte
    /// at `fill` and reads zero.
    fn read_or_fill(&mut self, addr: usize, fill: usize) -> (b: u8)
        ensures
            b == read_byte(old(self)@.memory, addr),
            final(self)@ == (CoreState { memory: touch(old(self)@.memory, addr, fill), ..old(self)@ }),
    {
        let b = match self.memory.get(&addr) {
            Some(t) => *t,
            None => {
                self.memory.insert(fill, 0u8);
                0u8
            },
        };
        assert(self@ =~= (CoreState { memory: touch(old(self)@.memory, addr, fill), ..old(self)@ }));
        b
    }

    /// Executes the instruction at the program counter, then forces register 0
    /// of the low group to zero. Returns what the instruction left the core
    /// in, and, in debug mode, what it reports of the instruction.
    pub fn exec(&mut self) -> (res: (Status, Option<Trace>))
        ensures
            (final(self)@, res.0) == step(old(self)@),
            res.1 == step_trace(old(self)@),
    {
        let pc0 = self.pc;
        let pc_a = self.pc as usize;
        let raw_inst_low = self.read_or_fill(pc_a, pc_a);
        let raw_inst_high = self.read_or_fill(self.pc.wrapping_add(1) as usize, pc_a);
        let decoded_inst = Inst::decode([raw_inst_low, raw_inst_high]);
        let ghost fetched = self@;
        let rd = decoded_inst.rd as usize;
        let rs1 = decoded_inst.rs1 as usize;
        let rs2 = decoded_inst.rs2 as usize;
        let imm = decoded_inst.imm;
        let group = decoded_inst.group;
        let op = decoded_inst.op;
        let status;
        match op {
            Opcode::NOT => {
                let v = !self.reg(group, rs1);
                self.set_reg(group, rd, v);
                self.advance_pc();
                status = Status::Normal;
            },
            Opcode::COM => {
                let v = 0i16.wrapping_sub(self.reg(group, rs1));
                self.set_reg(group, rd, v);
                self.advance_pc();
                status = Status::Normal;
            },
            Opcode::MVH => {
                self.reg_high[rd] = self.reg_high[rs1];
                self.advance_pc();
                status = Status::Normal;
            },
            Opcode::MVO => {
                let v = self.reg(!group, rs1);
                self.set_reg(group, rd, v);
                self.advance_pc();
                status = Status::Normal;
            },
            Opcode::LI => {
                self.set_reg(group, rd, imm);
                self.advance_pc();
                status = Status::Normal;
            },
            Opcode::LH => {
                let addr = self.reg(group, rs1).wrapping_add(imm) as usize;
                let data_mem_l = self.read_or_fill(addr, pc_a);
                let data_mem_h = self.read_or_fill(addr.wrapping_add(1), pc_a);
                let v = (((data_mem_h as u16) << 8u16) | (data_mem_l as u16)) as i16;
                self.set_reg(group, rd, v);
                self.advance_pc();
                status = Status::Normal;
            },
            Opcode::SH => {
                let addr = self.reg(group, rs1).wrapping_add(imm) as usize;
                let value = self.reg(group, rs2);
                let m0_raw = value as u8;
                let m1_raw = ((value as u16) >> 8u16) as u8;
                self.memory.insert(addr, m0_raw);
                self.memory.insert(addr.wrapping_add(1), m1_raw);
                self.advance_pc();
                status = Status::Normal;
            },
            Opcode::SLT => {
                self.coms = if self.reg(group, rs1) < self.reg(group, rs2) {
                    1
                } else {
                    0
                };
                self.advance_pc();
                status = Status::Normal;
            },
            Opcode::SOE => {
                self.coms = if self.reg(group, rs1) == self.reg(group, rs2) {
                    1
                } else {
                    0
                };
                self.advance_pc();
                status = Status::Normal;
            },
            Opcode::BOZ => {
                self.pc = if self.coms == 0 {
                    self.pc.wrapping_add(imm)
                } else {
                    self.pc.wrapping_add(2)
                };
                status = Status::Normal;
            },
            Opcode::BONZ => {
                self.pc = if self.coms != 0 {
                    self.pc.wrapping_add(imm)
                } else {
                    self.pc.wrapping_add(2)
                };
                status = Status::Normal;
            },
            Opcode::JAL => {
                self.reg_low[15] = self.pc.wrapping_add(2);
                self.pc = self.pc.wrapping_add(imm);
                status = Status::Normal;
            },
            Opcode::JALR => {
                let addr = self.reg(group, rs1).wrapping_add(imm);
                self.reg_low[15] = self.pc.wrapping_add(2);
                self.pc = self.pc.wrapping_add(addr);
                status = Status::Normal;
            },
            Opcode::HALT => {
                status = Status::HALT;
            },
            Opcode::NotAInst => {
                status = Status::Exp;
            },
            _ => {
                let a = self.reg(group, rs1);
                let b = self.reg(group, rs2);
                let v = match op {
                    Opcode::AND => a & b,
                    Opcode::OR => a | b,
                    Opcode::XOR => a ^ b,
                    Opcode::ADD => a.wrapping_add(b),
                    Opcode::SUB => a.wrapping_sub(b),
                    Opcode::SLL => a.wrapping_shl(b as u32),
                    Opcode::SRA => a.wrapping_shr(b as u32),
                    _ => (a as u16).wrapping_shr((b as u16) as u32) as i16,
                };
                self.set_reg(group, rd, v);
                self.advance_pc();
                status = Status::Normal;
            },
        }
        // Register 0 of the low group is wired to zero.
        self.reg_low[0] = 0;
        let trace = if self.debug && !matches!(op, Opcode::NotAInst) {
            let trace_pc = if matches!(op, Opcode::NOT | Opcode::MVH) {
                pc0.wrapping_add(2)
            } else {
                pc0
            };
            Some(Trace { op, pc: trace_pc, rs1, rs2, rd, group, imm })
        } else {
            None
        };
        proof {
            let (t, st) = execute(fetched, decoded_inst, pc_a);
            assert(self@ =~= (CoreState { reg_low: t.reg_low.update(0, 0), ..t }));
        }
        (status, trace)
    }

    /// Executes one instruction and returns what a core in debug mode reports
    /// of it.
    pub fn step_run(&mut self) -> (trace: Option<Trace>)
        ensures
            final(self)@ == step(old(self)@).0,
            trace == step_trace(old(self)@),
    {
        let (_status, trace) = self.exec();
        trace
    }

    /// The low register group.
    pub fn get_reg_low(&self) -> (regs: [i16; 16])
        ensures
            regs@ == self@.reg_low,
    {
        self.reg_low
    }

    /// The high register group.
    pub fn get_reg_high(&self) -> (regs: [i16; 16])
        ensures
            regs@ == self@.reg_high,
    {
        self.reg_high
    }

    /// The program counter.
    pub fn get_pc(&self) -> (pc: i16)
        ensures
            pc == self@.pc,
    {
        self.pc
    }

    /// The comparison flag.
    pub fn get_coms(&self) -> (coms: i16)
        ensures
            coms == self@.coms,
    {
        self.coms
    }

    /// A copy of the memory.
    pub fn get_memory(&self) -> (memory: BTreeMap<usize, u8>)
        ensures
            memory@ == self@.memory,
    {
        self.memory.clone()
    }
}

} // verus!
