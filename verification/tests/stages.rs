use seis::cache::Associative;
use seis::memory::Memory;
use seis::module::{MemoryModule, SingleLevel};
use seis::instruction_set::integer::{BinaryOp, IntegerOp};
use seis::instruction_set::{encode, Instruction};
use seis::instruction_set::FloatingPointOp;
use seis::pipeline::decode::{Decode, DecodeResult};
use seis::pipeline::execute::Execute;
use seis::pipeline::regmap::RegMap;
use seis::pipeline::resolver::FloatUnit;
use seis::pipeline::fetch::FetchResult;
use seis::pipeline::memory::{self as memstage, MemoryResult};
use seis::pipeline::registers::{Locks, Registers};
use seis::pipeline::resolver::ExecuteResult;
use seis::pipeline::writeback::Writeback;
use seis::pipeline::{Clock, Status};
use seis::registers::{RegisterFlags, PC, SP, ZF};
use seis::pipeline::memory::stack_address;

fn setup() -> (SingleLevel<Associative, Associative>, Registers, Locks) {
    let memory = Memory::new(4);
    (
        SingleLevel::new(Associative::new(3, 2), Associative::new(3, 2), memory, 10, 2, false),
        Registers::default(),
        Locks::default(),
    )
}

#[test]
fn writeback_writes_register_and_releases_lock() {
    let (mut mem, mut reg, mut locks) = setup();
    locks.lock(3);
    let mut wb = Writeback::new();
    let out = wb.forward(Status::Flow(MemoryResult::WriteRegNoStatus { destination: 3, value: 7 }, false));
    assert!(matches!(out, Status::Flow((), false)));
    assert!(matches!(wb.clock(Clock::Ready(1), &mut reg, &mut locks, &mut mem), Clock::Ready(1)));
    assert_eq!(reg.get(3), 7);
    assert!(locks.is_unlocked(3));
    assert!(wb.get_state().is_none());
}

#[test]
fn writeback_sets_status_flags() {
    let (mut mem, mut reg, mut locks) = setup();
    let mut wb = Writeback::new();
    wb.forward(Status::Flow(
        MemoryResult::WriteReg1 { destination: 1, value: 0, zf: true, of: false, eps: false, nan: false, inf: false },
        false,
    ));
    wb.clock(Clock::Ready(1), &mut reg, &mut locks, &mut mem);
    assert_eq!(reg.get(1), 0);
    assert_eq!(reg.get(ZF), 1);
}

#[test]
fn writeback_drops_write_past_last_register() {
    let (mut mem, mut reg, mut locks) = setup();
    let before: Vec<u32> = (0..25u8).map(|r| reg.get(r)).collect();
    let mut wb = Writeback::new();
    wb.forward(Status::Flow(MemoryResult::WriteRegNoStatus { destination: 30, value: 9 }, false));
    wb.clock(Clock::Ready(1), &mut reg, &mut locks, &mut mem);
    let after: Vec<u32> = (0..25u8).map(|r| reg.get(r)).collect();
    assert_eq!(before, after);
}

#[test]
fn writeback_keeps_pointers_in_range() {
    let (mut mem, mut reg, mut locks) = setup();
    let mut wb = Writeback::new();
    wb.forward(Status::Flow(MemoryResult::Jump { address: 0x1003 }, false));
    reg.set(SP, 0x0002_0010);
    wb.clock(Clock::Ready(1), &mut reg, &mut locks, &mut mem);
    assert_eq!(reg.get(PC), 0x1000);
    assert_eq!(reg.get(SP), 0x0010);
}

#[test]
fn writeback_stall_passes_through() {
    let mut wb = Writeback::new();
    assert!(matches!(wb.forward(Status::Stall(4)), Status::Stall(4)));
    assert!(matches!(wb.forward(Status::Ready(2, false)), Status::Stall(2)));
    assert!(matches!(wb.forward(Status::Dry), Status::Dry));
}

#[test]
fn memory_stage_forwards_register_write() {
    let (mut mem, mut reg, mut locks) = setup();
    let mut stage = memstage::Memory::new();
    let x = ExecuteResult::WriteReg { destination: 2, value: 5, zf: false, of: false, eps: false, nan: false, inf: false };
    stage.forward(Status::Flow(x, false));
    assert!(matches!(stage.get_state(), memstage::State::Ready { .. }));
    assert!(matches!(stage.clock(Clock::Ready(1), &mut reg, &mut locks, &mut mem), Clock::Ready(1)));
    match stage.forward(Status::Ready(1, false)) {
        Status::Flow(MemoryResult::WriteReg1 { destination: 2, value: 5, .. }, _) => {}
        _ => panic!("the register write did not go forward"),
    }
}

#[test]
fn memory_stage_writes_then_reads_a_word() {
    let (mut mem, mut reg, mut locks) = setup();
    let mut stage = memstage::Memory::new();
    stage.forward(Status::Flow(ExecuteResult::WriteMemWord { address: 0x100, value: 0xDEAD_BEEF, volatile: false }, false));
    let mut done = false;
    for _ in 0..200 {
        mem.clock(1);
        stage.clock(Clock::Ready(1), &mut reg, &mut locks, &mut mem);
        if let Status::Flow(MemoryResult::Nop, _) = stage.forward(Status::Ready(1, false)) {
            done = true;
            break;
        }
    }
    assert!(done);
    stage.forward(Status::Flow(ExecuteResult::ReadMemWord { address: 0x100, destination: 4, volatile: false }, false));
    let mut value = None;
    for _ in 0..200 {
        mem.clock(1);
        stage.clock(Clock::Ready(1), &mut reg, &mut locks, &mut mem);
        match stage.forward(Status::Ready(1, false)) {
            Status::Flow(MemoryResult::WriteReg1 { destination: 4, value: v, .. }, _) => {
                value = Some(v);
                break;
            }
            Status::Flow(other, _) => panic!("unexpected result {:?}", other),
            _ => {}
        }
    }
    assert_eq!(value, Some(0xDEAD_BEEF));
}

#[test]
fn memory_stage_squash_keeps_locks() {
    let (mut mem, mut reg, mut locks) = setup();
    let mut stage = memstage::Memory::new();
    stage.forward(Status::Flow(ExecuteResult::Squash { regs: RegisterFlags(0b1010) }, false));
    stage.clock(Clock::Ready(1), &mut reg, &mut locks, &mut mem);
    match stage.forward(Status::Ready(1, false)) {
        Status::Flow(MemoryResult::Squashed { wregs }, _) => assert_eq!(wregs.0, 0b1010),
        _ => panic!("the squash did not go forward"),
    }
}

#[test]
fn squash_writeback_releases_decode_locks() {
    let (mut mem, mut reg, mut locks) = setup();
    let mut decode = Decode::new();
    let word = encode(Instruction::Integer(IntegerOp::Add(BinaryOp::Immediate(1, 5, 2))));
    decode.forward(Status::Flow(FetchResult::Ready { word, pc: 0 }, false));
    decode.clock(Clock::Ready(1), &mut reg, &mut locks, &mut mem);
    let wregs = match decode.pending() {
        Some(DecodeResult::Forward { reglocks, .. }) => *reglocks,
        _ => panic!("nothing was issued"),
    };
    assert!(locks.is_locked(2));
    assert!(locks.is_locked(ZF));
    let mut wb = Writeback::new();
    wb.forward(Status::Flow(MemoryResult::Squashed { wregs }, false));
    wb.clock(Clock::Ready(1), &mut reg, &mut locks, &mut mem);
    for r in 0..25u8 {
        assert!(locks.is_unlocked(r), "register {} still locked", r);
    }
}

/// A floating-point unit for tests that carries out nothing.
struct NoFloat;

impl FloatUnit for NoFloat {
    fn execute_float(&self, _: FloatingPointOp, _: &RegMap) -> ExecuteResult {
        ExecuteResult::Nop
    }

    fn float_clocks(&self, _: FloatingPointOp) -> usize {
        1
    }
}

#[test]
fn integer_instruction_leaves_locks_as_found() {
    let (mut mem, mut reg, mut locks) = setup();
    let mut decode = Decode::new();
    let mut execute = Execute::new(NoFloat);
    let mut memory = memstage::Memory::new();
    let mut wb = Writeback::new();
    let word = encode(Instruction::Integer(IntegerOp::Mul(BinaryOp::Immediate(1, 3, 4))));
    decode.forward(Status::Flow(FetchResult::Ready { word, pc: 0 }, false));
    decode.clock(Clock::Ready(1), &mut reg, &mut locks, &mut mem);
    assert!(locks.is_locked(4));
    let s = decode.forward(Status::Ready(1, false));
    execute.forward(s);
    execute.clock(Clock::Ready(1), &mut reg, &mut locks, &mut mem);
    let s = execute.forward(Status::Ready(1, false));
    memory.forward(s);
    memory.clock(Clock::Ready(1), &mut reg, &mut locks, &mut mem);
    let s = memory.forward(Status::Ready(1, false));
    wb.forward(s);
    wb.clock(Clock::Ready(1), &mut reg, &mut locks, &mut mem);
    for r in 0..25u8 {
        assert!(locks.is_unlocked(r), "register {} still locked", r);
    }
    assert_eq!(reg.get(4), 0);
}

fn run_memory_stage(
    stage: &mut memstage::Memory,
    mem: &mut SingleLevel<Associative, Associative>,
    reg: &mut Registers,
    locks: &mut Locks,
) -> MemoryResult {
    for _ in 0..400 {
        mem.clock(1);
        stage.clock(Clock::Ready(1), reg, locks, mem);
        if let Status::Flow(r, _) = stage.forward(Status::Ready(1, false)) {
            return r;
        }
    }
    panic!("the memory stage never finished");
}

#[test]
fn subroutine_call_saves_and_return_restores() {
    let (mut mem, mut reg, mut locks) = setup();
    let mut stage = memstage::Memory::new();
    stage.forward(Status::Flow(
        ExecuteResult::Subroutine { address: 0x100, link: 0x88, sp: 0x0001_0010, bp: 0x0001_0000, lp: 0x44 },
        false,
    ));
    match run_memory_stage(&mut stage, &mut mem, &mut reg, &mut locks) {
        MemoryResult::JumpSubroutine { address, link, sp, bp } => {
            assert_eq!((address, link, sp, bp), (0x100, 0x88, 0x0001_0018, 0x0001_0018));
        }
        other => panic!("unexpected result {:?}", other),
    }
    // The old link pointer sits at the stack pointer, the old base pointer after it.
    stage.forward(Status::Flow(ExecuteResult::ReadMemWord { address: 0x0001_0010, destination: 4, volatile: false }, false));
    assert!(matches!(run_memory_stage(&mut stage, &mut mem, &mut reg, &mut locks),
        MemoryResult::WriteReg1 { destination: 4, value: 0x44, .. }));
    stage.forward(Status::Flow(ExecuteResult::ReadMemWord { address: 0x0001_0014, destination: 4, volatile: false }, false));
    assert!(matches!(run_memory_stage(&mut stage, &mut mem, &mut reg, &mut locks),
        MemoryResult::WriteReg1 { destination: 4, value: 0x0001_0000, .. }));
    // The return jumps to the link and restores both pointers.
    stage.forward(Status::Flow(ExecuteResult::Return { link: 0x88, bp: 0x0001_0018 }, false));
    match run_memory_stage(&mut stage, &mut mem, &mut reg, &mut locks) {
        MemoryResult::Return { address, bp, sp, lp } => {
            assert_eq!((address, bp, sp, lp), (0x88, 0x0001_0000, 0x0001_0010, 0x44));
        }
        other => panic!("unexpected result {:?}", other),
    }
}

#[test]
fn memory_stage_squash_releases_read_locks() {
    let (mut mem, mut reg, mut locks) = setup();
    let mut stage = memstage::Memory::new();
    stage.forward(Status::Flow(ExecuteResult::ReadMemWord { address: 0x100, destination: 3, volatile: false }, false));
    assert!(matches!(stage.get_state(), memstage::State::Reading { .. }));
    assert!(matches!(stage.clock(Clock::Squash(1), &mut reg, &mut locks, &mut mem), Clock::Squash(1)));
    assert!(matches!(stage.forward(Status::Squashed(1)), Status::Squashed(_)));
    stage.clock(Clock::Ready(1), &mut reg, &mut locks, &mut mem);
    match stage.forward(Status::Squashed(1)) {
        Status::Flow(MemoryResult::Squashed { wregs }, _) => {
            let expected = RegisterFlags::from_slice(&[3, ZF, seis::registers::OF, seis::registers::EPS, seis::registers::NAN, seis::registers::INF]);
            assert_eq!(wregs.0, expected.0);
        }
        _ => panic!("the squashed read did not go forward"),
    }
}

#[test]
fn stack_addresses_fall_in_the_stack_page() {
    assert_eq!(stack_address(0x0000_0010), 0x0001_0010);
    assert_eq!(stack_address(0xFFFF_FFFC), 0x0001_FFFC);
}

#[test]
fn memory_stage_takes_read_answers() {
    let mut stage = memstage::Memory::new();
    stage.forward(Status::Flow(ExecuteResult::ReadMemWord { address: 0x100, destination: 6, volatile: false }, false));
    assert!(matches!(stage.on_read(Clock::Ready(1), Err(5)), Clock::Block(1)));
    assert!(matches!(stage.get_state(), memstage::State::Reading { destination: 6, clocks: 5, .. }));
    assert!(matches!(stage.on_read(Clock::Ready(1), Ok(0x1234)), Clock::Ready(1)));
    match stage.forward(Status::Ready(1, false)) {
        Status::Flow(MemoryResult::WriteReg1 { destination: 6, value: 0x1234, zf: false, .. }, _) => {}
        _ => panic!("the value read did not go forward"),
    }
}

#[test]
fn memory_stage_takes_write_answers() {
    let mut stage = memstage::Memory::new();
    stage.forward(Status::Flow(
        ExecuteResult::Subroutine { address: 0x200, link: 0x8C, sp: 0x0001_0020, bp: 0x0001_0000, lp: 0x10 },
        false,
    ));
    assert!(matches!(stage.on_write(Clock::Ready(1), seis::module::Status::Busy(3)), Clock::Block(1)));
    assert!(matches!(stage.get_state(), memstage::State::JsrPrep { state: memstage::JsrPrepState::WritingLp, clocks: 3, .. }));
    assert!(matches!(stage.on_write(Clock::Ready(1), seis::module::Status::Idle), Clock::Block(1)));
    assert!(matches!(stage.get_state(), memstage::State::JsrPrep { state: memstage::JsrPrepState::WritingBp, .. }));
    assert!(matches!(stage.on_write(Clock::Ready(1), seis::module::Status::Idle), Clock::Ready(1)));
    match stage.forward(Status::Ready(1, false)) {
        Status::Flow(MemoryResult::JumpSubroutine { address: 0x200, link: 0x8C, sp: 0x0001_0028, bp: 0x0001_0028 }, _) => {}
        _ => panic!("the call did not go forward"),
    }
}
