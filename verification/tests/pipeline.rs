use seis::cache::Associative;
use seis::instruction_set::control::{ControlOp, Jump};
use seis::instruction_set::register::ImmOp;
use seis::instruction_set::integer::{BinaryOp, CompOp, IntegerOp, SignExtendOp};
use seis::instruction_set::register::{ReadOp, RegisterOp};
use seis::instruction_set::{FloatingPointOp, Instruction};
use seis::memory::Memory;
use seis::module::{MemoryModule, SingleLevel};
use seis::pipeline::decode::{self, Decode, DecodeResult};
use seis::pipeline::execute::{self, Execute};
use seis::pipeline::fetch::{self, Fetch, FetchResult};
use seis::pipeline::registers::{Locks, Registers};
use seis::pipeline::regmap::RegMap;
use seis::pipeline::resolver::{ExecuteResult, FloatUnit, Resolver};
use seis::pipeline::{Clock, Status};
use seis::registers::{RegisterFlags, BP, LP, PC, SP, ZF};
use seis::types::Word;

/// A floating-point unit for tests that carries out nothing.
#[derive(Default)]
struct NoFloat;

impl FloatUnit for NoFloat {
    fn execute_float(&self, _: FloatingPointOp, _: &RegMap) -> ExecuteResult {
        ExecuteResult::Nop
    }

    fn float_clocks(&self, _: FloatingPointOp) -> usize {
        1
    }
}

fn basic_setup() -> (SingleLevel<Associative, Associative>, Registers, Locks) {
    // A memory where every byte is its address modulo 256
    let mut memory = Memory::new(4);
    let page: Vec<u8> = (0..0x1_0000).map(|i| (i & 0xFF) as u8).collect();
    memory.set_page(0x0000_0000, &page);
    memory.set_page(0x0001_0000, &page);
    memory.set_page(0x0002_0000, &page);
    memory.set_page(0x0003_0000, &page);

    (
        SingleLevel::new(Associative::new(3, 2), Associative::new(3, 2), memory, 10, 2, false),
        Registers::default(),
        Locks::default(),
    )
}

#[test]
fn decode_clock_basic() {
    let (mut mem, mut reg, mut lock) = basic_setup();
    let mut decode = Decode::default();

    // Clock it once
    assert!(matches!(decode.clock(Clock::Ready(1), &mut reg, &mut lock, &mut mem), Clock::Ready(1)));

    // No state change
    assert!(decode.pending().is_none() && decode.get_state() == decode::State::Idle);

    // Forward a NOP word
    assert!(matches!(
        decode.forward(Status::Flow(FetchResult::Ready { word: 0x0000_0000, pc: 0 }, false)),
        Status::Stall(1)
    ));

    // It changed state
    assert!(matches!(decode.get_state(), decode::State::Decoding { word: 0x0000_0000, .. }));

    // Clock it once
    assert!(matches!(decode.clock(Clock::Ready(1), &mut reg, &mut lock, &mut mem), Clock::Ready(1)));

    // It is idle again and finished decoding
    assert!(decode.pending().is_some() && decode.get_state() == decode::State::Idle);

    // Forward the value and check it
    assert!(matches!(
        decode.forward(Status::Flow(FetchResult::Ready { word: 0x0000_0000, pc: 0 }, false)),
        Status::Flow(DecodeResult::Forward {
            instruction: Instruction::Control(ControlOp::Nop),
            regvals,
            reglocks: RegisterFlags(0)
        }, _) if regvals.len() == 0
    ));
}

#[test]
fn decode_clock_block() {
    let (mut mem, mut reg, mut lock) = basic_setup();
    let mut decode = Decode::default();

    // Without data, the stage reports that it is ready to receive data
    assert!(matches!(decode.clock(Clock::Block(1), &mut reg, &mut lock, &mut mem), Clock::Ready(1)));
}

#[test]
fn decode_clock_squash() {
    let (mut mem, mut reg, mut lock) = basic_setup();
    let mut decode = Decode::default();

    // The squash clock is forwarded
    assert!(matches!(decode.clock(Clock::Squash(1), &mut reg, &mut lock, &mut mem), Clock::Squash(1)));
}

#[test]
fn tests_clock_basic() {
    let (mut mem, mut reg, mut lock) = basic_setup();
    let mut execute = Execute::<NoFloat>::default();

    assert!(matches!(execute.clock(Clock::Ready(1), &mut reg, &mut lock, &mut mem), Clock::Ready(1)));

    assert!(matches!(execute.get_state(), execute::State::Idle) && execute.pending().is_none());

    assert!(matches!(
        execute.forward(Status::Flow(
            DecodeResult::Forward {
                instruction: Instruction::Control(ControlOp::Nop),
                regvals: RegMap::default(),
                reglocks: RegisterFlags::default()
            },
            false
        )),
        Status::Stall(1)
    ));
}

#[test]
fn clock_ready() {
    let (mut mem, mut reg, mut lock) = basic_setup();
    let mut fetch = Fetch::default();

    for (i, v) in (0u8..).step_by(8).map(|i| {
        (
            i / 8,
            [
                Word::from_be_bytes([i, i + 1, i + 2, i + 3]),
                Word::from_be_bytes([i + 4, i + 5, i + 6, i + 7]),
            ],
        )
    }).take(16) {
        let mut result = fetch.clock(Clock::Ready(1), &mut reg, &mut lock, &mut mem);
        let mut state = fetch.forward(Status::Ready(1, false));

        assert!(matches!(result, Clock::Block(1)));
        assert!(fetch.pending().is_none(), "Forward anew for {i}");
        assert!(matches!(fetch.get_state(), fetch::State::Waiting { clocks: 10 }));
        assert!(matches!(state, Status::Stall(10)));

        mem.clock(10);
        result = fetch.clock(Clock::Ready(10), &mut reg, &mut lock, &mut mem);
        assert!(matches!(result, Clock::Ready(10)));
        assert!(matches!(fetch.pending(), Some(FetchResult::Ready { word, .. }) if word == v[0]));
        assert!(matches!(fetch.get_state(), fetch::State::Idle));

        state = fetch.forward(Status::Ready(1, false));
        assert!(matches!(state, Status::Flow(FetchResult::Ready { word, .. }, _) if word == v[0]));

        mem.clock(1);
        result = fetch.clock(Clock::Ready(1), &mut reg, &mut lock, &mut mem);
        assert!(matches!(result, Clock::Ready(1)));
        assert!(matches!(fetch.pending(), Some(FetchResult::Ready { word, .. }) if word == v[1]));
        assert!(matches!(fetch.get_state(), fetch::State::Idle));

        state = fetch.forward(Status::Ready(1, false));
        assert!(matches!(state, Status::Flow(FetchResult::Ready { word, .. }, _) if word == v[1]))
    }
}

#[test]
fn fetch_clock_block() {
    let (mut mem, mut reg, mut lock) = basic_setup();
    let mut fetch = Fetch::default();

    let result = fetch.clock(Clock::Block(1), &mut reg, &mut lock, &mut mem);
    let state = fetch.forward(Status::Ready(1, false));

    assert!(matches!(result, Clock::Block(1)));
    assert!(fetch.pending().is_none());
    assert!(matches!(fetch.get_state(), fetch::State::Waiting { clocks: 10 }));
    assert!(matches!(state, Status::Stall(10)));
}

#[test]
fn fetch_clock_squash() {
    let (mut mem, mut reg, mut lock) = basic_setup();
    let mut fetch = Fetch::default();

    let result = fetch.clock(Clock::Squash(1), &mut reg, &mut lock, &mut mem);
    let state = fetch.forward(Status::Ready(1, false));

    assert!(matches!(result, Clock::Squash(1)));
    assert!(fetch.pending().is_none());
    assert!(matches!(fetch.get_state(), fetch::State::Squashed { .. }));
    assert!(matches!(state, Status::Squashed(_)));
}

fn regs(pairs: &[(u8, Word)]) -> RegMap {
    let mut m = RegMap::new();
    for &(r, v) in pairs {
        m.push(r, v);
    }
    m
}

#[test]
fn integer_results() {
    let m = regs(&[(0, 0xFFFF_FFFF), (1, 2), (2, 0x8000_0000), (3, 0)]);
    assert_eq!(
        IntegerOp::Add(BinaryOp::Immediate(0, 1, 5)).execute(&m),
        ExecuteResult::WriteReg { destination: 5, value: 0, zf: true, of: true, eps: false, nan: false, inf: false }
    );
    assert_eq!(
        IntegerOp::Sub(BinaryOp::Registers(1, 0, 5)).execute(&m),
        ExecuteResult::WriteReg { destination: 5, value: 3, zf: false, of: true, eps: false, nan: false, inf: false }
    );
    // Division by zero stops the processor.
    assert_eq!(IntegerOp::Dvu(BinaryOp::Registers(0, 3, 5)).execute(&m), ExecuteResult::Halt);
    // The most negative value divided by -1 overflows.
    assert_eq!(
        IntegerOp::Dvs(BinaryOp::Registers(2, 0, 5)).execute(&m),
        ExecuteResult::WriteReg { destination: 5, value: 0x8000_0000, zf: false, of: true, eps: false, nan: false, inf: false }
    );
    assert_eq!(
        IntegerOp::Dvs(BinaryOp::Immediate(0, 1, 5)).execute(&m),
        ExecuteResult::WriteReg { destination: 5, value: 0xFFFF_FFFF, zf: false, of: false, eps: false, nan: false, inf: false }
    );
    assert_eq!(
        IntegerOp::Rol(BinaryOp::Immediate(2, 33, 5)).execute(&m),
        ExecuteResult::WriteReg { destination: 5, value: 1, zf: false, of: false, eps: false, nan: false, inf: false }
    );
    assert_eq!(
        IntegerOp::Asr(BinaryOp::Immediate(2, 4, 5)).execute(&m),
        ExecuteResult::WriteReg { destination: 5, value: 0xF800_0000, zf: false, of: false, eps: false, nan: false, inf: false }
    );
    // Signed comparison: -1 < 2, so the right operand is the greater.
    assert_eq!(
        IntegerOp::Cmp(CompOp::Registers(0, 1, true)).execute(&m),
        ExecuteResult::WriteStatus { zf: false, of: true, eps: false, nan: false, inf: false }
    );
    assert_eq!(
        IntegerOp::Cmp(CompOp::Registers(0, 1, false)).execute(&m),
        ExecuteResult::WriteStatus { zf: false, of: false, eps: false, nan: false, inf: false }
    );
    let byte = regs(&[(4, 0x80)]);
    assert_eq!(
        IntegerOp::Sxt(SignExtendOp(0, 4)).execute(&byte),
        ExecuteResult::WriteReg { destination: 4, value: 0xFFFF_FF80, zf: false, of: true, eps: false, nan: false, inf: false }
    );
}

#[test]
fn control_results() {
    let m = regs(&[(3, 0x40), (PC, 0x100), (ZF, 1)]);
    assert_eq!(ControlOp::Jmp(Jump::Register(3)).execute(&m), ExecuteResult::JumpTo { address: 0x40 });
    assert_eq!(ControlOp::Jeq(Jump::Relative(-8)).execute(&m), ExecuteResult::JumpTo { address: 0xF8 });
    assert_eq!(ControlOp::Jne(Jump::Relative(-8)).execute(&m), ExecuteResult::Nop);
    assert_eq!(ControlOp::Jmp(Jump::Relative(8)).clock_requirement(), 2);
    assert!(ExecuteResult::JumpTo { address: 0 }.should_squash());
    assert!(ControlOp::Halt.execute(&m).is_halt());
}

#[test]
fn register_results() {
    let m = regs(&[(1, 0x1000), (2, 0x10)]);
    // The index counts words of a word read.
    assert_eq!(
        RegisterOp::Llr(ReadOp::IndexedIndirect { volatile: true, address: 1, index: 2, destination: 3 }).execute(&m),
        ExecuteResult::ReadMemWord { address: 0x1040, destination: 3, volatile: true }
    );
    assert_eq!(
        RegisterOp::Lbr(ReadOp::ZeroPage { address: 0x12, destination: 3 }).execute(&m),
        ExecuteResult::ReadMemByte { address: 0x0002_0012, destination: 3, volatile: false }
    );
}

#[test]
fn decode_locks_written_registers() {
    let (mut mem, mut reg, mut lock) = basic_setup();
    let mut decode = Decode::default();
    reg.set(1, 7);
    // add V2 = V1 + 1
    let word = seis::instruction_set::encode(Instruction::Integer(IntegerOp::Add(BinaryOp::Immediate(1, 1, 2))));
    decode.forward(Status::Flow(FetchResult::Ready { word, pc: 0x40 }, false));
    assert!(matches!(decode.clock(Clock::Ready(1), &mut reg, &mut lock, &mut mem), Clock::Ready(1)));
    assert!(lock.is_locked(2) && lock.is_locked(ZF));
    assert!(lock.is_unlocked(1));
    match decode.forward(Status::Ready(1, false)) {
        Status::Flow(DecodeResult::Forward { regvals, .. }, _) => {
            assert_eq!(regvals.get(1), Some(7));
        }
        _ => panic!("expected an instruction"),
    }
    // A second instruction reading the locked register waits.
    let word = seis::instruction_set::encode(Instruction::Integer(IntegerOp::Add(BinaryOp::Immediate(2, 1, 3))));
    decode.forward(Status::Flow(FetchResult::Ready { word, pc: 0x44 }, false));
    assert!(matches!(decode.clock(Clock::Ready(1), &mut reg, &mut lock, &mut mem), Clock::Block(1)));
}

fn written_value(r: ExecuteResult) -> Word {
    match r {
        ExecuteResult::WriteReg { value, .. } => value,
        other => panic!("expected a register write, got {:?}", other),
    }
}

#[test]
fn sign_extension_clears_upper_bits() {
    let m = regs(&[(1, 0x1234_0056)]);
    assert_eq!(written_value(IntegerOp::Sxt(SignExtendOp(0, 1)).execute(&m)), 0x0000_0056);
    let m = regs(&[(1, 0x0000_0080)]);
    assert_eq!(written_value(IntegerOp::Sxt(SignExtendOp(0, 1)).execute(&m)), 0xFFFF_FF80);
    let m = regs(&[(1, 0xABCD_7FFF)]);
    assert_eq!(written_value(IntegerOp::Sxt(SignExtendOp(1, 1)).execute(&m)), 0x0000_7FFF);
    let m = regs(&[(1, 0x0000_8001)]);
    assert_eq!(written_value(IntegerOp::Sxt(SignExtendOp(1, 1)).execute(&m)), 0xFFFF_8001);
}

#[test]
fn subroutine_links_to_next_instruction() {
    let m = regs(&[(PC, 0x100), (SP, 0x0001_0010), (BP, 0x0001_0000), (LP, 0x44)]);
    assert_eq!(
        ControlOp::Jsr(Jump::Relative(0x20)).execute(&m),
        ExecuteResult::Subroutine { address: 0x120, link: 0x104, sp: 0x0001_0010, bp: 0x0001_0000, lp: 0x44 }
    );
    let m = regs(&[(LP, 0x104), (BP, 0x0001_0018)]);
    assert_eq!(ControlOp::Ret.execute(&m), ExecuteResult::Return { link: 0x104, bp: 0x0001_0018 });
}

#[test]
fn load_immediate_keeps_other_half() {
    let m = regs(&[(1, 0xAAAA_BBBB)]);
    let low = RegisterOp::Ldr(ImmOp::Immediate { zero: false, shift: 0, immediate: 0x1234, destination: 1 });
    let high = RegisterOp::Ldr(ImmOp::Immediate { zero: false, shift: 1, immediate: 0x1234, destination: 1 });
    assert_eq!(written_value(low.execute(&m)), 0xAAAA_1234);
    assert_eq!(written_value(high.execute(&m)), 0x1234_BBBB);
    let zeroed = RegisterOp::Ldr(ImmOp::Immediate { zero: true, shift: 1, immediate: 0x1234, destination: 1 });
    assert_eq!(written_value(zeroed.execute(&m)), 0x1234_0000);
}

#[test]
fn indexed_reads_scale_by_width() {
    let m = regs(&[(1, 0x0000_1000), (2, 3)]);
    let r = ReadOp::IndexedIndirect { volatile: false, address: 1, index: 2, destination: 3 };
    assert_eq!(
        RegisterOp::Llr(r).execute(&m),
        ExecuteResult::ReadMemWord { address: 0x0000_100C, destination: 3, volatile: false }
    );
    assert_eq!(
        RegisterOp::Lsr(r).execute(&m),
        ExecuteResult::ReadMemShort { address: 0x0000_1006, destination: 3, volatile: false }
    );
    assert_eq!(
        RegisterOp::Lbr(r).execute(&m),
        ExecuteResult::ReadMemByte { address: 0x0000_1003, destination: 3, volatile: false }
    );
}

#[test]
fn negative_compare_immediate_round_trips() {
    for imm in [0xFFFF_FFFFu32, 0xFFFF_C000, 0x0000_3FFF, 0] {
        let i = Instruction::Integer(IntegerOp::Cmp(CompOp::Immediate(2, imm, true)));
        assert_eq!(seis::instruction_set::decode(seis::instruction_set::encode(i)), Ok(i));
    }
}
