use ternary_cpu::cpu::Cpu;
use ternary_cpu::decoder::DecodeError;
use ternary_cpu::instructions::{Instr, ISA};
use ternary_cpu::memory::{MemError, Memory};
use ternary_cpu::state::{CpuError, Flow, Step};
use ternary_cpu::tryte::Tryte;
use ternary_cpu::word::Word;

/// A store of `cells.len()` trytes whose first address is `base`. It counts
/// the writes it has seen, refused ones too.
#[derive(Clone, Debug, PartialEq)]
struct Ram {
    base: i32,
    cells: Vec<Tryte>,
    writes: usize,
}

impl Ram {
    fn at(base: i32, cells: Vec<Tryte>) -> Ram {
        Ram { base, cells, writes: 0 }
    }

    /// A store of `size` zero trytes from address 0 that starts with `program`.
    fn with_program(size: usize, program: Vec<Tryte>) -> Ram {
        let mut cells = program;
        cells.resize(size, tryte(0));
        Ram::at(0, cells)
    }

    fn slot(&self, addr: i32) -> Option<usize> {
        let offset = addr as i64 - self.base as i64;
        if 0 <= offset && offset < self.cells.len() as i64 {
            Some(offset as usize)
        } else {
            None
        }
    }
}

impl Memory for Ram {
    fn load_tryte(&self, addr: i32) -> Result<Tryte, MemError> {
        match self.slot(addr) {
            Some(slot) => Ok(self.cells[slot]),
            None => Err(MemError::Unknown),
        }
    }

    fn store_tryte(&mut self, addr: i32, val: Tryte) -> Result<(), MemError> {
        self.writes += 1;
        match self.slot(addr) {
            Some(slot) => {
                self.cells[slot] = val;
                Ok(())
            }
            None => Err(MemError::Unknown),
        }
    }
}

/// The tryte that stands for `n`, as the numeral crate makes it.
fn tryte(n: i16) -> Tryte {
    let made = bct::Tryte::from(n);
    Tryte::from_bct_trybbles(made.hi_bct(), made.lo_bct())
}

/// The number that `tryte` stands for, as the numeral crate reads it.
fn value(tryte: Tryte) -> i16 {
    bct::Tryte::from_bct_trybbles(tryte.hi_bct(), tryte.lo_bct()).to_integer()
}

/// The tryte whose trybbles stand for `hi` and `lo`.
fn op(hi: i8, lo: i8) -> Tryte {
    Tryte::from_bct_trybbles(
        bct::translate::i8_trybble_to_bct(hi),
        bct::translate::i8_trybble_to_bct(lo),
    )
}

/// The word that stands for `n`, as the numeral crate makes it.
fn word(n: i32) -> Word {
    let made = bct::Word::from(n);
    let (hi, lo) = (made.hi_tryte(), made.lo_tryte());
    Word::from_trytes(
        Tryte::from_bct_trybbles(hi.hi_bct(), hi.lo_bct()),
        Tryte::from_bct_trybbles(lo.hi_bct(), lo.lo_bct()),
    )
}

fn empty_cpu() -> Cpu<Ram> {
    Cpu::new(ISA::T6010, Ram::at(0, vec![]), 0)
}

/// A machine at `pc` over an empty store with `stack` on its evaluation
/// stack, the last entry on top.
fn cpu_with(pc: i32, stack: &[i16]) -> Cpu<Ram> {
    let mut cpu = Cpu::new(ISA::T6010, Ram::at(0, vec![]), pc);
    for n in stack {
        assert_eq!(cpu.execute_op(Instr::LIT(tryte(*n))), Ok(Flow::Continue));
    }
    cpu
}

fn stack_values(cpu: &Cpu<Ram>) -> Vec<i16> {
    cpu.estack().iter().map(|t| value(*t)).collect()
}

fn step(cpu: &mut Cpu<Ram>) -> Result<Step, CpuError> {
    assert!(cpu.can_step());
    cpu.step()
}

const STACK_OPS: [Instr; 4] = [Instr::DUP, Instr::SWAP, Instr::DROP, Instr::ROT];

const UNIMPLEMENTED: [Instr; 6] =
    [Instr::MAX, Instr::INC, Instr::IST, Instr::ISU, Instr::SHL, Instr::SHR];

#[test]
fn new_machine_is_empty() {
    let ram = Ram::at(0, vec![tryte(1)]);
    let cpu = Cpu::new(ISA::T6010, ram.clone(), 17);
    assert_eq!(cpu.pc(), 17);
    assert_eq!(cpu.cycle_count(), 0);
    assert!(cpu.estack().is_empty());
    assert!(cpu.cstack().is_empty());
    assert_eq!(*cpu.memory(), ram);
}

#[test]
fn set_cycle_count_changes_only_the_count() {
    let mut cpu = cpu_with(5, &[1, 2]);
    cpu.set_cycle_count(1000);
    assert_eq!(cpu.cycle_count(), 1000);
    assert_eq!(cpu.pc(), 5);
    assert_eq!(stack_values(&cpu), vec![1, 2]);
    assert!(cpu.cstack().is_empty());
}

#[test]
fn scenario_add_store_load() {
    // LIT 5, LIT 3, ADD, store at word address 100, load from 100, halt.
    let target = word(100);
    let program = vec![
        op(-12, 5),
        op(-12, 3),
        op(1, -11),
        target.hi,
        target.lo,
        op(-10, -11),
        target.hi,
        target.lo,
        op(-8, -13),
    ];
    let mut cpu = Cpu::new(ISA::T6010, Ram::with_program(128, program), 0);

    assert_eq!(step(&mut cpu), Ok(Step::Running(2)));
    assert_eq!(stack_values(&cpu), vec![5]);
    assert_eq!(step(&mut cpu), Ok(Step::Running(4)));
    assert_eq!(stack_values(&cpu), vec![5, 3]);
    assert_eq!(step(&mut cpu), Ok(Step::Running(6)));
    assert_eq!(stack_values(&cpu), vec![8, 0, 100]);
    assert_eq!(cpu.pc(), 5);
    assert_eq!(step(&mut cpu), Ok(Step::Running(8)));
    assert_eq!(stack_values(&cpu), vec![0, 100]);
    assert_eq!(cpu.memory().load_tryte(100), Ok(tryte(8)));
    assert_eq!(step(&mut cpu), Ok(Step::Halted(10)));
    assert_eq!(stack_values(&cpu), vec![8]);
    assert_eq!(*cpu.estack().last().unwrap(), tryte(8));
    assert_eq!(cpu.pc(), 9);
    assert_eq!(cpu.cycle_count(), 10);
}

#[test]
fn inline_literal_round_trip() {
    for n in -13i8..=13 {
        let mut cpu = Cpu::new(ISA::T6010, Ram::at(0, vec![op(-12, n)]), 0);
        assert_eq!(step(&mut cpu), Ok(Step::Running(2)));
        assert_eq!(cpu.estack().len(), 1);
        assert_eq!(cpu.estack()[0], tryte(n as i16));
        assert_eq!(cpu.pc(), 1);
    }
}

#[test]
fn literal_round_trip_for_every_tryte() {
    for n in -364i16..=364 {
        let mut cpu = Cpu::new(ISA::T6010, Ram::at(0, vec![op(0, -12), tryte(n)]), 0);
        assert_eq!(step(&mut cpu), Ok(Step::Running(2)));
        assert_eq!(cpu.estack().len(), 1);
        assert_eq!(cpu.estack()[0], tryte(n));
        assert_eq!(value(cpu.estack()[0]), n);
        assert_eq!(cpu.pc(), 2);
    }
}

#[test]
fn literal_round_trip_keeps_the_codes_as_they_are() {
    // Not a number's code, but a tryte all the same: it comes back unchanged.
    let odd = Tryte::from_bct_trybbles(0xff, 0b110011);
    let mut cpu = Cpu::new(ISA::T6010, Ram::at(0, vec![op(0, -12), odd]), 0);
    assert_eq!(step(&mut cpu), Ok(Step::Running(2)));
    assert_eq!(cpu.estack()[0], odd);
}

#[test]
fn word_literal_puts_the_low_tryte_on_top() {
    let mut cpu = Cpu::new(ISA::T6010, Ram::at(0, vec![op(0, -11), tryte(7), tryte(-9)]), 0);
    assert_eq!(step(&mut cpu), Ok(Step::Running(2)));
    assert_eq!(stack_values(&cpu), vec![7, -9]);
    assert_eq!(cpu.pc(), 3);

    let mut cpu = empty_cpu();
    assert_eq!(
        cpu.execute_op(Instr::WORD(Word::from_trytes(tryte(1), tryte(2)))),
        Ok(Flow::Continue)
    );
    assert_eq!(stack_values(&cpu), vec![1, 2]);
}

#[test]
fn nop_changes_nothing() {
    let mut cpu = cpu_with(3, &[1, 2]);
    assert_eq!(cpu.execute_op(Instr::NOP), Ok(Flow::Continue));
    assert_eq!(stack_values(&cpu), vec![1, 2]);
    assert_eq!(cpu.pc(), 3);
    assert_eq!(cpu.cycle_count(), 0);
}

#[test]
fn drop_takes_the_top_off() {
    let mut cpu = cpu_with(0, &[1, 2, 3]);
    assert_eq!(cpu.execute_op(Instr::DROP), Ok(Flow::Continue));
    assert_eq!(stack_values(&cpu), vec![1, 2]);
}

#[test]
fn dup_copies_the_top() {
    let mut cpu = cpu_with(0, &[1, 2, 3]);
    assert_eq!(cpu.execute_op(Instr::DUP), Ok(Flow::Continue));
    assert_eq!(stack_values(&cpu), vec![1, 2, 3, 3]);
}

#[test]
fn swap_exchanges_the_two_on_top() {
    let mut cpu = cpu_with(0, &[1, 2, 3]);
    assert_eq!(cpu.execute_op(Instr::SWAP), Ok(Flow::Continue));
    assert_eq!(stack_values(&cpu), vec![1, 3, 2]);
}

#[test]
fn rot_reorders_the_three_on_top() {
    // a, b, c with c on top become b, a, c.
    let mut cpu = cpu_with(0, &[9, 1, 2, 3]);
    assert_eq!(cpu.execute_op(Instr::ROT), Ok(Flow::Continue));
    assert_eq!(stack_values(&cpu), vec![9, 2, 1, 3]);
}

#[test]
fn stack_operations_change_the_depth_by_their_net_effect() {
    // Every sequence of four of the stack operations, on a stack deep
    // enough for all of them.
    for code in 0..256usize {
        let ops = [
            STACK_OPS[code % 4],
            STACK_OPS[(code / 4) % 4],
            STACK_OPS[(code / 16) % 4],
            STACK_OPS[(code / 64) % 4],
        ];
        let mut cpu = cpu_with(0, &[1, 2, 3, 4, 5, 6, 7]);
        let mut expected = 7i32;
        for op in ops {
            assert_eq!(cpu.execute_op(op), Ok(Flow::Continue));
            expected += match op {
                Instr::DUP => 1,
                Instr::DROP => -1,
                _ => 0,
            };
            assert_eq!(cpu.estack().len() as i32, expected);
        }
        assert_eq!(cpu.pc(), 0);
        assert!(cpu.cstack().is_empty());
    }
}

#[test]
fn add_matches_the_numeral_crate_in_range() {
    for a in (-364i16..=364).step_by(7) {
        for b in (-364i16..=364).step_by(5) {
            if a + b < -364 || 364 < a + b {
                continue;
            }
            let mut cpu = cpu_with(0, &[a, b]);
            assert_eq!(cpu.execute_op(Instr::ADD), Ok(Flow::Continue));
            assert_eq!(stack_values(&cpu), vec![a + b]);
            assert_eq!(cpu.estack()[0], tryte(a + b));
        }
    }
}

#[test]
fn add_five_and_three() {
    let mut cpu = cpu_with(0, &[5, 3]);
    assert_eq!(cpu.execute_op(Instr::ADD), Ok(Flow::Continue));
    assert_eq!(cpu.estack()[0], Tryte::from_bct_trybbles(0, 0b010010));
    assert_eq!(value(cpu.estack()[0]), 8);
}

#[test]
fn add_beyond_the_range_keeps_the_low_trybble() {
    // 364 + 1 = 365 = 14 * 27 - 13: the high trybble 14 has no code.
    let mut cpu = cpu_with(0, &[364, 1]);
    assert_eq!(cpu.execute_op(Instr::ADD), Ok(Flow::Continue));
    assert_eq!(stack_values(&cpu), vec![-13]);

    // 364 + 364 = 728 = 27 * 27 - 1.
    let mut cpu = cpu_with(0, &[364, 364]);
    assert_eq!(cpu.execute_op(Instr::ADD), Ok(Flow::Continue));
    assert_eq!(stack_values(&cpu), vec![-1]);
    assert_eq!(cpu.estack()[0], tryte(-1));

    // -364 - 364 = -728 = -27 * 27 + 1.
    let mut cpu = cpu_with(0, &[-364, -364]);
    assert_eq!(cpu.execute_op(Instr::ADD), Ok(Flow::Continue));
    assert_eq!(stack_values(&cpu), vec![1]);

    // -364 - 20 = -384 = -14 * 27 - 6.
    let mut cpu = cpu_with(0, &[-364, -20]);
    assert_eq!(cpu.execute_op(Instr::ADD), Ok(Flow::Continue));
    assert_eq!(stack_values(&cpu), vec![-6]);
}

#[test]
fn add_beyond_the_range_differs_by_a_multiple_of_27() {
    for a in (200i16..=364).step_by(3) {
        for b in (200i16..=364).step_by(2) {
            if a + b <= 364 {
                continue;
            }
            for sign in [1i16, -1] {
                let mut cpu = cpu_with(0, &[sign * a, sign * b]);
                assert_eq!(cpu.execute_op(Instr::ADD), Ok(Flow::Continue));
                let sum = value(cpu.estack()[0]);
                assert!(-13 <= sum && sum <= 13);
                assert_eq!((sign * (a + b) - sum) % 27, 0);
            }
        }
    }
}

#[test]
fn neg_negates_every_tryte() {
    for n in -364i16..=364 {
        let mut cpu = cpu_with(0, &[n]);
        assert_eq!(cpu.execute_op(Instr::NEG), Ok(Flow::Continue));
        assert_eq!(stack_values(&cpu), vec![-n]);
        assert_eq!(cpu.estack()[0], tryte(-n));
    }
}

#[test]
fn neg_leaves_what_lies_under_the_top() {
    let mut cpu = cpu_with(0, &[4, 5]);
    assert_eq!(cpu.execute_op(Instr::NEG), Ok(Flow::Continue));
    assert_eq!(stack_values(&cpu), vec![4, -5]);
}

#[test]
fn load_reads_the_address_on_the_stack() {
    let mut cells = vec![tryte(0); 1000];
    cells[100] = tryte(-77);
    cells[999] = tryte(55);
    let mut cpu = Cpu::new(ISA::T6010, Ram::at(0, cells), 0);
    let w = word(100);
    cpu.execute_op(Instr::LIT(tryte(42))).unwrap();
    cpu.execute_op(Instr::WORD(w)).unwrap();
    assert_eq!(cpu.execute_op(Instr::LOAD), Ok(Flow::Continue));
    assert_eq!(stack_values(&cpu), vec![42, -77]);

    // 999 = 1 * 729 + 270: the high tryte counts 729.
    cpu.execute_op(Instr::LIT(tryte(1))).unwrap();
    cpu.execute_op(Instr::LIT(tryte(270))).unwrap();
    assert_eq!(cpu.execute_op(Instr::LOAD), Ok(Flow::Continue));
    assert_eq!(stack_values(&cpu), vec![42, -77, 55]);
}

#[test]
fn load_at_a_negative_address() {
    let mut cpu = Cpu::new(ISA::T6010, Ram::at(-800, vec![tryte(9), tryte(8)]), 0);
    cpu.execute_op(Instr::WORD(word(-799))).unwrap();
    assert_eq!(cpu.execute_op(Instr::LOAD), Ok(Flow::Continue));
    assert_eq!(stack_values(&cpu), vec![8]);
}

#[test]
fn load_refused_by_the_store_changes_nothing() {
    let mut cpu = Cpu::new(ISA::T6010, Ram::at(0, vec![tryte(1)]), 4);
    cpu.execute_op(Instr::WORD(word(5))).unwrap();
    assert_eq!(
        cpu.execute_op(Instr::LOAD),
        Err(CpuError::Memory(Instr::LOAD, MemError::Unknown))
    );
    assert_eq!(stack_values(&cpu), vec![0, 5]);
    assert_eq!(cpu.pc(), 4);
}

#[test]
fn store_writes_the_third_entry() {
    let mut cpu = Cpu::new(ISA::T6010, Ram::at(0, vec![tryte(0); 200]), 0);
    cpu.execute_op(Instr::LIT(tryte(11))).unwrap();
    cpu.execute_op(Instr::LIT(tryte(-300))).unwrap();
    cpu.execute_op(Instr::WORD(word(150))).unwrap();
    assert_eq!(cpu.execute_op(Instr::STOR), Ok(Flow::Continue));
    assert_eq!(stack_values(&cpu), vec![11]);
    assert_eq!(cpu.memory().load_tryte(150), Ok(tryte(-300)));
    assert_eq!(cpu.memory().writes, 1);
    for addr in 0..200 {
        if addr != 150 {
            assert_eq!(cpu.memory().load_tryte(addr), Ok(tryte(0)));
        }
    }
}

#[test]
fn store_refused_by_the_store_keeps_the_stack() {
    let mut cpu = Cpu::new(ISA::T6010, Ram::at(0, vec![tryte(0); 4]), 0);
    cpu.execute_op(Instr::LIT(tryte(11))).unwrap();
    cpu.execute_op(Instr::WORD(word(4))).unwrap();
    assert_eq!(
        cpu.execute_op(Instr::STOR),
        Err(CpuError::Memory(Instr::STOR, MemError::Unknown))
    );
    assert_eq!(stack_values(&cpu), vec![11, 0, 4]);
    // The store was asked once, and is as the refused write left it.
    assert_eq!(cpu.memory().writes, 1);
    assert_eq!(cpu.memory().cells, vec![tryte(0); 4]);
}

#[test]
fn jmp_goes_to_the_address_on_the_stack() {
    let mut cpu = cpu_with(5, &[1]);
    cpu.execute_op(Instr::WORD(word(-2000))).unwrap();
    assert_eq!(cpu.execute_op(Instr::JMP), Ok(Flow::Continue));
    assert_eq!(cpu.pc(), -2000);
    assert_eq!(stack_values(&cpu), vec![1]);
    assert!(cpu.cstack().is_empty());
}

#[test]
fn jmp_reaches_both_ends_of_the_word_range() {
    for target in [265720, -265720, 0, 729, -729, 364, 365] {
        let mut cpu = cpu_with(0, &[]);
        cpu.execute_op(Instr::WORD(word(target))).unwrap();
        assert_eq!(cpu.execute_op(Instr::JMP), Ok(Flow::Continue));
        assert_eq!(cpu.pc(), target);
    }
}

#[test]
fn call_then_return_restores_the_program_counter() {
    let mut cpu = cpu_with(33, &[7]);
    cpu.execute_op(Instr::WORD(word(500))).unwrap();
    assert_eq!(cpu.execute_op(Instr::CALL), Ok(Flow::Continue));
    assert_eq!(cpu.pc(), 500);
    assert_eq!(*cpu.cstack(), vec![33]);
    assert_eq!(stack_values(&cpu), vec![7]);
    assert_eq!(cpu.execute_op(Instr::RET), Ok(Flow::Continue));
    assert_eq!(cpu.pc(), 33);
    assert!(cpu.cstack().is_empty());
    assert_eq!(stack_values(&cpu), vec![7]);
}

#[test]
fn nested_calls_return_in_reverse() {
    let mut cpu = cpu_with(1, &[]);
    for target in [10, 20, 30] {
        cpu.execute_op(Instr::WORD(word(target))).unwrap();
        assert_eq!(cpu.execute_op(Instr::CALL), Ok(Flow::Continue));
    }
    assert_eq!(*cpu.cstack(), vec![1, 10, 20]);
    for back in [20, 10, 1] {
        assert_eq!(cpu.execute_op(Instr::RET), Ok(Flow::Continue));
        assert_eq!(cpu.pc(), back);
    }
    assert_eq!(cpu.execute_op(Instr::RET), Err(CpuError::StackUnderflow(Instr::RET)));
}

#[test]
fn call_in_a_step_pushes_the_position_after_the_decoded_trytes() {
    // NOP with a word, then NOP with CALL.
    let target = word(64);
    let program = vec![op(0, -11), target.hi, target.lo, op(0, 10)];
    let mut cpu = Cpu::new(ISA::T6010, Ram::with_program(128, program), 0);
    assert_eq!(step(&mut cpu), Ok(Step::Running(2)));
    assert_eq!(step(&mut cpu), Ok(Step::Running(4)));
    assert_eq!(cpu.pc(), 64);
    assert_eq!(*cpu.cstack(), vec![4]);
}

#[test]
fn return_on_an_empty_call_stack_is_an_underflow() {
    let mut cpu = cpu_with(12, &[1, 2]);
    assert_eq!(cpu.execute_op(Instr::RET), Err(CpuError::StackUnderflow(Instr::RET)));
    assert_eq!(cpu.pc(), 12);
    assert_eq!(stack_values(&cpu), vec![1, 2]);
}

#[test]
fn branch_if_zero() {
    for (condition, taken) in [(0i16, true), (1, false), (-1, false), (364, false), (-364, false)]
    {
        let mut cpu = cpu_with(100, &[9, condition, 25]);
        assert_eq!(cpu.execute_op(Instr::BZ), Ok(Flow::Continue));
        assert_eq!(cpu.pc(), if taken { 125 } else { 100 });
        assert_eq!(stack_values(&cpu), vec![9]);
    }
}

#[test]
fn branch_if_positive() {
    for (condition, taken) in [(0i16, false), (1, true), (-1, false), (364, true), (-364, false)]
    {
        let mut cpu = cpu_with(100, &[9, condition, -25]);
        assert_eq!(cpu.execute_op(Instr::BPL), Ok(Flow::Continue));
        assert_eq!(cpu.pc(), if taken { 75 } else { 100 });
        assert_eq!(stack_values(&cpu), vec![9]);
    }
}

#[test]
fn branch_if_negative() {
    for (condition, taken) in [(0i16, false), (1, false), (-1, true), (364, false), (-364, true)]
    {
        let mut cpu = cpu_with(100, &[9, condition, 364]);
        assert_eq!(cpu.execute_op(Instr::BMI), Ok(Flow::Continue));
        assert_eq!(cpu.pc(), if taken { 464 } else { 100 });
        assert_eq!(stack_values(&cpu), vec![9]);
    }
}

#[test]
fn branch_reaches_both_ends_of_its_room() {
    let mut cpu = cpu_with(i32::MAX - 364, &[0, 364]);
    assert!(cpu.can_branch());
    assert_eq!(cpu.execute_op(Instr::BZ), Ok(Flow::Continue));
    assert_eq!(cpu.pc(), i32::MAX);

    let mut cpu = cpu_with(i32::MIN + 364, &[0, -364]);
    assert!(cpu.can_branch());
    assert_eq!(cpu.execute_op(Instr::BZ), Ok(Flow::Continue));
    assert_eq!(cpu.pc(), i32::MIN);

    assert!(!cpu_with(i32::MAX - 363, &[]).can_branch());
    assert!(!cpu_with(i32::MIN + 363, &[]).can_branch());
}

#[test]
fn branch_offset_counts_from_the_position_after_decoding() {
    // LIT 0 (the condition), then NOP with a literal offset of 40, then NOP
    // with BZ: the branch is decoded at 3 and starts from 4.
    let program = vec![op(-12, 0), op(0, -12), tryte(40), op(0, 12)];
    let mut cpu = Cpu::new(ISA::T6010, Ram::with_program(64, program), 0);
    assert_eq!(step(&mut cpu), Ok(Step::Running(2)));
    assert_eq!(step(&mut cpu), Ok(Step::Running(4)));
    assert_eq!(cpu.pc(), 3);
    assert_eq!(step(&mut cpu), Ok(Step::Running(6)));
    assert_eq!(cpu.pc(), 44);
    assert!(cpu.estack().is_empty());
}

#[test]
fn branch_not_taken_in_a_step_goes_on_after_the_decoded_tryte() {
    let program = vec![op(-12, 1), op(-12, 9), op(0, 12)];
    let mut cpu = Cpu::new(ISA::T6010, Ram::with_program(64, program), 0);
    step(&mut cpu).unwrap();
    step(&mut cpu).unwrap();
    assert_eq!(step(&mut cpu), Ok(Step::Running(6)));
    assert_eq!(cpu.pc(), 3);
}

#[test]
fn halt_is_no_error_and_carries_the_count() {
    let mut cpu = cpu_with(0, &[1]);
    assert_eq!(cpu.execute_op(Instr::IRQ), Ok(Flow::Halt));
    assert_eq!(stack_values(&cpu), vec![1]);

    let mut cpu = Cpu::new(ISA::T6010, Ram::at(0, vec![op(4, 0), op(0, -13)]), 0);
    cpu.execute_op(Instr::LIT(tryte(1))).unwrap();
    cpu.set_cycle_count(40);
    assert_eq!(step(&mut cpu), Ok(Step::Running(42)));
    assert_eq!(step(&mut cpu), Ok(Step::Halted(44)));
    assert_eq!(cpu.cycle_count(), 44);
    assert_eq!(cpu.pc(), 2);
}

#[test]
fn unimplemented_operations_are_errors() {
    for op in UNIMPLEMENTED {
        let mut cpu = cpu_with(3, &[1, 2, 3]);
        assert_eq!(cpu.execute_op(op), Err(CpuError::Unimplemented(op)));
        assert_eq!(stack_values(&cpu), vec![1, 2, 3]);
        assert_eq!(cpu.pc(), 3);
    }
}

#[test]
fn unimplemented_operation_stops_the_step() {
    // INC in the high trybble, DUP in the low one.
    let mut cpu = Cpu::new(ISA::T6010, Ram::at(0, vec![op(-7, 4)]), 0);
    cpu.execute_op(Instr::LIT(tryte(1))).unwrap();
    assert_eq!(step(&mut cpu), Err(CpuError::Unimplemented(Instr::INC)));
    assert_eq!(stack_values(&cpu), vec![1]);
    assert_eq!(cpu.pc(), 1);
    assert_eq!(cpu.cycle_count(), 1);
}

#[test]
fn stack_underflow_names_the_operation_and_changes_nothing() {
    let needs = [
        (Instr::DROP, 1usize),
        (Instr::DUP, 1),
        (Instr::NEG, 1),
        (Instr::SWAP, 2),
        (Instr::ADD, 2),
        (Instr::LOAD, 2),
        (Instr::JMP, 2),
        (Instr::CALL, 2),
        (Instr::BZ, 2),
        (Instr::BPL, 2),
        (Instr::BMI, 2),
        (Instr::ROT, 3),
        (Instr::STOR, 3),
    ];
    for (op, need) in needs {
        for depth in 0..need {
            let stack: Vec<i16> = (0..depth as i16).collect();
            let mut cpu = Cpu::new(ISA::T6010, Ram::at(0, vec![tryte(0); 8]), 2);
            for n in &stack {
                cpu.execute_op(Instr::LIT(tryte(*n))).unwrap();
            }
            assert_eq!(cpu.execute_op(op), Err(CpuError::StackUnderflow(op)));
            assert_eq!(stack_values(&cpu), stack);
            assert_eq!(cpu.pc(), 2);
            assert!(cpu.cstack().is_empty());
            assert_eq!(cpu.memory().writes, 0);
        }
    }
}

#[test]
fn drop_on_an_empty_stack_is_an_underflow() {
    let mut cpu = empty_cpu();
    assert_eq!(cpu.execute_op(Instr::DROP), Err(CpuError::StackUnderflow(Instr::DROP)));
}

#[test]
fn step_reports_an_illegal_instruction_and_stays() {
    let mut cpu = Cpu::new(ISA::T6010, Ram::at(0, vec![op(0, 0), op(-4, 0)]), 1);
    cpu.set_cycle_count(6);
    assert_eq!(
        step(&mut cpu),
        Err(CpuError::Decode(DecodeError::IllegalInstruction { pos: 1, op: -4 }))
    );
    assert_eq!(cpu.pc(), 1);
    assert_eq!(cpu.cycle_count(), 6);
    assert!(cpu.estack().is_empty());
}

#[test]
fn step_outside_the_store_reports_the_memory_error_and_stays() {
    let mut cpu = Cpu::new(ISA::T6010, Ram::at(0, vec![op(0, 0)]), 0);
    assert_eq!(step(&mut cpu), Ok(Step::Running(2)));
    assert_eq!(step(&mut cpu), Err(CpuError::Decode(DecodeError::MemoryError(MemError::Unknown))));
    assert_eq!(cpu.pc(), 1);
    assert_eq!(cpu.cycle_count(), 2);
}

#[test]
fn step_stops_at_the_first_operation_that_fails() {
    // ADD on an empty stack in the high trybble, a literal in the low one.
    let mut cpu = Cpu::new(ISA::T6010, Ram::at(0, vec![op(1, -12), tryte(5)]), 0);
    assert_eq!(step(&mut cpu), Err(CpuError::StackUnderflow(Instr::ADD)));
    assert!(cpu.estack().is_empty());
    assert_eq!(cpu.pc(), 2);
    assert_eq!(cpu.cycle_count(), 1);
}

#[test]
fn step_reports_the_second_operation_that_fails() {
    let mut cpu = Cpu::new(ISA::T6010, Ram::at(0, vec![op(0, 8)]), 0);
    assert_eq!(step(&mut cpu), Err(CpuError::StackUnderflow(Instr::RET)));
    assert_eq!(cpu.pc(), 1);
    assert_eq!(cpu.cycle_count(), 2);
}

#[test]
fn step_executes_both_operations_in_order() {
    // DUP then ADD doubles the top.
    let mut cpu = Cpu::new(ISA::T6010, Ram::at(0, vec![op(4, 1)]), 0);
    cpu.execute_op(Instr::LIT(tryte(21))).unwrap();
    assert_eq!(step(&mut cpu), Ok(Step::Running(2)));
    assert_eq!(stack_values(&cpu), vec![42]);
}

#[test]
fn can_step_knows_the_room_it_needs() {
    assert!(cpu_with(0, &[]).can_step());
    assert!(cpu_with(i32::MAX - 367, &[]).can_step());
    assert!(!cpu_with(i32::MAX - 366, &[]).can_step());
    assert!(cpu_with(i32::MIN + 364, &[]).can_step());
    assert!(!cpu_with(i32::MIN + 363, &[]).can_step());
    let mut cpu = cpu_with(0, &[]);
    cpu.set_cycle_count(usize::MAX - 2);
    assert!(cpu.can_step());
    cpu.set_cycle_count(usize::MAX - 1);
    assert!(!cpu.can_step());
}

#[test]
fn step_counts_up_to_the_last_count() {
    let mut cpu = Cpu::new(ISA::T6010, Ram::at(0, vec![op(0, 0)]), 0);
    cpu.set_cycle_count(usize::MAX - 2);
    assert_eq!(step(&mut cpu), Ok(Step::Running(usize::MAX)));
}
