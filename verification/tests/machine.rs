use std::collections::BTreeMap;

use cpu16::inst::Opcode;
use cpu16::machine::{Core, Status, Trace};

fn run_steps(core: &mut Core, n: usize) -> Vec<Status> {
    let mut statuses = Vec::new();
    for _ in 0..n {
        statuses.push(core.exec().0);
    }
    statuses
}

fn regs(values: &[(usize, i16)]) -> [i16; 16] {
    let mut r = [0i16; 16];
    for &(i, v) in values {
        r[i] = v;
    }
    r
}

fn memory_of(pairs: &[(usize, u8)]) -> BTreeMap<usize, u8> {
    pairs.iter().cloned().collect()
}

fn program_memory(program: &[u8]) -> BTreeMap<usize, u8> {
    program.iter().cloned().enumerate().collect()
}

#[test]
fn new_core_is_reset_with_program_loaded() {
    let program = vec![4u8, 64, 0, 255];
    let core = Core::new_from_vec(&program, false);
    assert_eq!(core.get_reg_low(), [0; 16]);
    assert_eq!(core.get_reg_high(), [0; 16]);
    assert_eq!(core.get_pc(), 0);
    assert_eq!(core.get_coms(), 0);
    assert_eq!(core.get_memory(), program_memory(&program));
    let same = Core::new_from_array(&program[..], false);
    assert_eq!(same.get_memory(), core.get_memory());
    assert_eq!(same.get_pc(), core.get_pc());
}

#[test]
fn arithmetic_and_compare() {
    let program = [4u8, 64, 18, 80, 163, 12, 165, 16, 160, 128, 0, 255];
    let mut core = Core::new_from_array(&program, false);
    let statuses = run_steps(&mut core, 6);
    assert_eq!(statuses[..5], [Status::Normal; 5]);
    assert_eq!(statuses[5], Status::HALT);
    assert_eq!(core.get_reg_low(), regs(&[(2, -254), (3, -190), (4, 64), (5, 318)]));
    assert_eq!(core.get_reg_high(), [0; 16]);
    assert_eq!(core.get_pc(), 10);
    assert_eq!(core.get_coms(), 0);
    assert_eq!(core.get_memory(), program_memory(&program));
}

#[test]
fn store_then_load_in_high_group() {
    let program = [36u8, 67, 50, 82, 166, 42, 163, 39, 0, 255];
    let mut core = Core::new_from_array(&program, false);
    let statuses = run_steps(&mut core, 5);
    assert_eq!(statuses[4], Status::HALT);
    assert_eq!(core.get_reg_high(), regs(&[(2, -250), (3, -250), (4, 100)]));
    assert_eq!(core.get_reg_low(), [0; 16]);
    assert_eq!(core.get_pc(), 8);
    let mut expected = program_memory(&program);
    expected.insert(98, 6);
    expected.insert(99, 255);
    assert_eq!(core.get_memory(), expected);
}

#[test]
fn compare_equal_then_branch_taken() {
    let program = [49u8, 64, 50, 64, 137, 128, 4, 136, 0, 255, 19, 64, 0, 255];
    let mut core = Core::new_from_array(&program, false);
    let statuses = run_steps(&mut core, 6);
    assert_eq!(statuses[..5], [Status::Normal; 5]);
    assert_eq!(statuses[5], Status::HALT);
    assert_eq!(core.get_reg_low(), regs(&[(1, 6), (2, 6), (3, 2)]));
    assert_eq!(core.get_pc(), 12);
    assert_eq!(core.get_coms(), 1);
}

#[test]
fn jump_and_link() {
    let program = [4u8, 144, 0, 255, 65, 64, 202, 149, 0, 255];
    let mut core = Core::new_from_array(&program, false);
    core.exec();
    assert_eq!(core.get_pc(), 4);
    assert_eq!(core.get_reg_low()[15], 2);
    let statuses = run_steps(&mut core, 3);
    assert_eq!(statuses, vec![Status::Normal, Status::Normal, Status::HALT]);
    assert_eq!(core.get_reg_low(), regs(&[(1, 8), (15, 8)]));
    assert_eq!(core.get_pc(), 8);
}

#[test]
fn arithmetic_wraps_at_sixteen_bits() {
    let program = [2u8, 65, 65, 64, 82, 20, 147, 12, 219, 12, 94, 16, 95, 32, 0, 255];
    let mut core = Core::new_from_array(&program, false);
    let statuses = run_steps(&mut core, 8);
    assert_eq!(statuses[7], Status::HALT);
    assert_eq!(
        core.get_reg_low(),
        regs(&[(1, 8), (2, 8192), (3, -32768), (6, 32760), (7, -32768)])
    );
    assert_eq!(core.get_pc(), 14);
}

#[test]
fn moves_complement_and_shifts() {
    let program = [
        84u8, 81, 165, 34, 238, 34, 49, 34, 175, 32, 58, 24, 19, 64, 250, 28, 251, 24, 0, 255,
    ];
    let mut core = Core::new_from_array(&program, false);
    let statuses = run_steps(&mut core, 10);
    assert_eq!(statuses[9], Status::HALT);
    assert_eq!(core.get_reg_low(), regs(&[(2, 16346), (3, -38), (4, -150), (7, -150)]));
    assert_eq!(core.get_reg_high(), regs(&[(1, 149), (5, -150), (6, -150)]));
    assert_eq!(core.get_pc(), 18);
}

#[test]
fn not_an_instruction_raises_exception_and_stays() {
    let program = [192u8, 172];
    let mut core = Core::new_from_array(&program, false);
    assert_eq!(core.exec().0, Status::Exp);
    assert_eq!(core.get_pc(), 0);
    assert_eq!(core.get_memory(), program_memory(&program));
    assert_eq!(core.exec().0, Status::Exp);
    assert_eq!(core.get_pc(), 0);
    assert_eq!(core.get_memory(), program_memory(&program));
}

#[test]
fn halt_stays_halted() {
    let program = [0u8, 255];
    let mut core = Core::new_from_array(&program, false);
    for _ in 0..3 {
        assert_eq!(core.exec().0, Status::HALT);
        assert_eq!(core.get_pc(), 0);
        assert_eq!(core.get_memory(), program_memory(&program));
    }
}

#[test]
fn missing_second_byte_writes_zero_at_program_counter() {
    let mut core = Core::new_from_array(&[8u8], false);
    assert_eq!(core.exec().0, Status::Normal);
    assert_eq!(core.get_pc(), 2);
    assert_eq!(core.get_memory(), memory_of(&[(0, 0)]));
}

#[test]
fn empty_memory_reads_zero_words() {
    let mut core = Core::new_from_vec(&Vec::new(), false);
    assert_eq!(core.exec().0, Status::Normal);
    assert_eq!(core.get_pc(), 2);
    assert_eq!(core.get_memory(), memory_of(&[(0, 0)]));
    assert_eq!(core.get_reg_low(), [0; 16]);
}

#[test]
fn load_from_missing_bytes_reads_zero_and_fills_at_program_counter() {
    let program = [36u8, 67, 163, 39, 0, 255];
    let mut core = Core::new_from_array(&program, false);
    let statuses = run_steps(&mut core, 3);
    assert_eq!(statuses, vec![Status::Normal, Status::Normal, Status::HALT]);
    assert_eq!(core.get_reg_high(), regs(&[(4, 100)]));
    assert_eq!(core.get_pc(), 4);
    assert_eq!(core.get_memory(), memory_of(&[(0, 36), (1, 67), (2, 0), (3, 39), (4, 0), (5, 255)]));
}

#[test]
fn store_at_minus_one_wraps_around_the_address_space() {
    let program = [17u8, 64, 75, 32, 18, 80, 153, 40, 0, 255];
    let mut core = Core::new_from_array(&program, false);
    let statuses = run_steps(&mut core, 5);
    assert_eq!(statuses[4], Status::HALT);
    assert_eq!(core.get_reg_low(), regs(&[(1, 2), (2, -254), (3, -2)]));
    let mut expected = program_memory(&program);
    expected.insert(0, 255);
    expected.insert((-1i16) as usize, 2);
    assert_eq!(core.get_memory(), expected);
}

#[test]
fn register_zero_stays_zero() {
    // A load of 8 into register 0 of the low group is executed, yet it reads zero.
    let program = [64u8, 64, 0, 255];
    let mut core = Core::new_from_array(&program, false);
    assert_eq!(core.exec().0, Status::Normal);
    assert_eq!(core.get_reg_low()[0], 0);
}

#[test]
fn debug_mode_reports_each_instruction() {
    let program = vec![49u8, 66, 10, 34, 0, 255];
    let mut core = Core::new_from_vec(&program, true);
    assert_eq!(
        core.step_run(),
        Some(Trace { op: Opcode::LI, pc: 0, rs1: 6, rs2: 0, rd: 1, group: true, imm: 6 })
    );
    // NOT reports the program counter after its advance.
    assert_eq!(
        core.step_run(),
        Some(Trace { op: Opcode::NOT, pc: 4, rs1: 1, rs2: 0, rd: 2, group: true, imm: 0 })
    );
    assert_eq!(core.get_reg_high(), regs(&[(1, 6), (2, -7)]));
    let (status, trace) = core.exec();
    assert_eq!(status, Status::HALT);
    assert_eq!(
        trace,
        Some(Trace { op: Opcode::HALT, pc: 4, rs1: 0, rs2: 8, rd: 0, group: true, imm: 0 })
    );
}

#[test]
fn quiet_mode_and_non_instructions_report_nothing() {
    let mut quiet = Core::new_from_vec(&vec![49u8, 66], false);
    assert_eq!(quiet.step_run(), None);
    let mut loud = Core::new_from_vec(&vec![192u8, 172], true);
    assert_eq!(loud.exec(), (Status::Exp, None));
}
