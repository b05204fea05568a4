use seis::cache::Associative;
use seis::instruction_set::control::{ControlOp, Jump};
use seis::instruction_set::integer::{BinaryOp, IntegerOp};
use seis::instruction_set::register::RegisterOp;
use seis::instruction_set::{encode, FloatingPointOp, Instruction};
use seis::memory::Memory;
use seis::module::SingleLevel;
use seis::pipeline::regmap::RegMap;
use seis::pipeline::resolver::{ExecuteResult, FloatUnit};
use seis::pipeline::unpiped::Stage;
use seis::pipeline::{ClockResult, Pipeline, Pipelined, Unpipelined};
use seis::registers::{PC, SP};

/// A floating-point unit for tests that carries out nothing.
#[derive(Default)]
struct NoFloat;

impl FloatUnit for NoFloat {
    fn execute_float(&self, _: FloatingPointOp, _: &RegMap) -> ExecuteResult {
        ExecuteResult::Nop
    }

    fn float_clocks(&self, _: FloatingPointOp) -> usize {
        1
    }
}

/// A memory module holding a program from address zero.
fn module_with(program: &[Instruction]) -> SingleLevel<Associative, Associative> {
    let mut memory = Memory::new(4);
    for (i, op) in program.iter().enumerate() {
        memory.write_word((i * 4) as u32, encode(*op));
    }
    SingleLevel::new(Associative::new(3, 2), Associative::new(3, 2), memory, 10, 2, false)
}

/// A short program: V1 = V0 + 5, V2 = V1 + V1, then halt.
fn arithmetic() -> Vec<Instruction> {
    vec![
        Instruction::Integer(IntegerOp::Add(BinaryOp::Immediate(0, 5, 1))),
        Instruction::Integer(IntegerOp::Add(BinaryOp::Registers(1, 1, 2))),
        Instruction::Control(ControlOp::Halt),
    ]
}

/// Clocks a processor until it runs dry, giving the number of clocks taken.
fn run<P: Pipeline>(p: &mut P, limit: usize) -> Option<usize> {
    for n in 1..=limit {
        if let ClockResult::Dry = p.clock(1) {
            return Some(n);
        }
    }
    None
}

#[test]
fn pipelined_runs_a_program_to_halt() {
    let mut p = Pipelined::new(module_with(&arithmetic()), NoFloat);
    assert!(run(&mut p, 2000).is_some());
    assert_eq!(p.registers().get(1), 5);
    assert_eq!(p.registers().get(2), 10);
}

#[test]
fn unpipelined_runs_a_program_to_halt() {
    let mut p = Unpipelined::new(module_with(&arithmetic()), NoFloat);
    assert_eq!(p.stage(), Stage::Fetch);
    assert!(run(&mut p, 4000).is_some());
    assert_eq!(p.registers().get(1), 5);
    assert_eq!(p.registers().get(2), 10);
}

#[test]
fn halted_processor_stays_dry() {
    let mut p = Pipelined::new(module_with(&arithmetic()), NoFloat);
    assert!(run(&mut p, 2000).is_some());
    let before = p.registers().get(2);
    for _ in 0..10 {
        assert!(matches!(p.clock(1), ClockResult::Dry));
    }
    assert_eq!(p.registers().get(2), before);

    let mut u = Unpipelined::new(module_with(&arithmetic()), NoFloat);
    assert!(run(&mut u, 4000).is_some());
    for _ in 0..10 {
        assert!(matches!(u.clock(1), ClockResult::Dry));
    }
}

#[test]
fn pipelined_and_unpipelined_agree() {
    let program = vec![
        Instruction::Integer(IntegerOp::Add(BinaryOp::Immediate(0, 7, 3))),
        Instruction::Register(RegisterOp::Push(3)),
        Instruction::Register(RegisterOp::Pop(4)),
        Instruction::Integer(IntegerOp::Sub(BinaryOp::Immediate(4, 2, 5))),
        Instruction::Control(ControlOp::Halt),
    ];
    let mut p = Pipelined::new(module_with(&program), NoFloat);
    let mut u = Unpipelined::new(module_with(&program), NoFloat);
    assert!(run(&mut p, 4000).is_some());
    assert!(run(&mut u, 8000).is_some());
    // The pipelined processor fetches ahead, so only the program counter differs.
    for r in (0..25u8).filter(|&r| r != PC) {
        assert_eq!(p.registers().get(r), u.registers().get(r), "register {}", r);
    }
    assert_eq!(p.registers().get(4), 7);
    assert_eq!(p.registers().get(5), 5);
}

#[test]
fn unpipelined_moves_one_stage_per_flow() {
    let mut u = Unpipelined::new(module_with(&arithmetic()), NoFloat);
    let mut seen = vec![u.stage()];
    for _ in 0..400 {
        let before = u.stage();
        let r = u.clock(1);
        let after = u.stage();
        if before == Stage::Writeback {
            assert_eq!(after, Stage::Fetch);
        } else {
            assert_eq!(matches!(r, ClockResult::Flow), after != before);
        }
        if after != before {
            seen.push(after);
        }
        if seen.len() >= 6 {
            break;
        }
    }
    assert_eq!(
        seen,
        vec![Stage::Fetch, Stage::Decode, Stage::Execute, Stage::Memory, Stage::Writeback, Stage::Fetch]
    );
}

#[test]
fn pipelined_jump_skips_instructions() {
    // Jump over the instruction that would set V6.
    let program = vec![
        Instruction::Control(ControlOp::Jmp(Jump::Relative(8))),
        Instruction::Integer(IntegerOp::Add(BinaryOp::Immediate(0, 1, 6))),
        Instruction::Integer(IntegerOp::Add(BinaryOp::Immediate(0, 2, 7))),
        Instruction::Control(ControlOp::Halt),
    ];
    let mut p = Pipelined::new(module_with(&program), NoFloat);
    assert!(run(&mut p, 4000).is_some());
    assert_eq!(p.registers().get(6), 0);
    assert_eq!(p.registers().get(7), 2);
    assert!(p.registers().get(PC) >= 12);
    let _ = p.registers().get(SP);
}

#[test]
fn registers_set_before_running_are_used() {
    let mut p = Pipelined::new(module_with(&arithmetic()), NoFloat);
    p.registers_mut().set(0, 10);
    assert!(run(&mut p, 2000).is_some());
    assert_eq!(p.registers().get(1), 15);
    assert_eq!(p.registers().get(2), 30);
}
