//! Laws of the machine, proved of the functions that define what the
//! instructions do.

use crate::display::{blank, collides, drawn, redraw_restores, toggles};
use crate::machine::{Fault, MachineState, FLAG, MEMORY_SIZE};
use crate::opcode::{byte_of, class_of, decode_spec, x_of, Opcode};
use crate::semantics::{
    current_op, cycle, cycle_fault, fault_of, next_state, run_fault, run_state, visible_rows,
};
use vstd::prelude::*;

verus! {

/// Executing an instruction without a fault leads from a valid state to a
/// valid state: the sizes stay, the stack stays within its limit and holds
/// only addresses of calls inside memory.
pub proof fn execution_keeps_valid(s: MachineState, op: Opcode, random: u8)
    requires
        s.valid(),
        op.wf(),
        fault_of(s, op) is None,
    ensures
        next_state(s, op, random).valid(),
{
}

/// A call is refused with a stack overflow exactly when the stack is full,
/// and a call that is accepted deepens the stack by one.
pub proof fn call_overflows_when_full(s: MachineState, addr: u16, random: u8)
    requires
        s.valid(),
        s.can_fetch(),
    ensures
        s.stack.len() == s.stack_limit ==> fault_of(s, Opcode::Call { addr }) == Some(
            Fault::StackOverflow { address: s.pc },
        ),
        s.stack.len() < s.stack_limit ==> fault_of(s, Opcode::Call { addr }) is None && next_state(
            s,
            Opcode::Call { addr },
            random,
        ).stack.len() == s.stack.len() + 1,
{
}

/// Every word decodes to an instruction with valid operands.
pub proof fn decoded_is_well_formed(word: u16)
    ensures
        decode_spec(word).wf(),
{
}

/// Every state that a run from a valid state passes through is valid: in
/// particular the stack never holds more calls than its limit.
pub proof fn run_keeps_valid(s: MachineState, randoms: Seq<u8>)
    requires
        s.valid(),
    ensures
        run_state(s, randoms).valid(),
    decreases randoms.len(),
{
    if randoms.len() > 0 {
        run_keeps_valid(s, randoms.drop_last());
        let before = run_state(s, randoms.drop_last());
        decoded_is_well_formed(before.word_at_pc());
        if cycle_fault(before) is None {
            execution_keeps_valid(before, current_op(before), randoms.last());
        }
    }
}

/// Calls that follow one another without a return deepen the stack by one
/// each until it is full; the call after that is refused with a stack
/// overflow, and the stack stays as it is.
pub proof fn calls_overflow_at_the_limit(s: MachineState, randoms: Seq<u8>)
    requires
        s.valid(),
        forall|i: int|
            0 <= i < randoms.len() ==> (#[trigger] run_state(s, randoms.take(i))).can_fetch()
                && current_op(run_state(s, randoms.take(i))) is Call,
    ensures
        run_state(s, randoms).stack.len() == if s.stack.len() + randoms.len() <= s.stack_limit {
            s.stack.len() + randoms.len()
        } else {
            s.stack_limit
        },
        run_state(s, randoms).stack_limit == s.stack_limit,
        run_fault(s, randoms) is Some <==> s.stack.len() + randoms.len() > s.stack_limit,
        run_fault(s, randoms) matches Some(fault) ==> fault is StackOverflow,
    decreases randoms.len(),
{
    if randoms.len() > 0 {
        let most = randoms.drop_last();
        assert forall|i: int| 0 <= i < most.len() implies (#[trigger] run_state(
            s,
            most.take(i),
        )).can_fetch() && current_op(run_state(s, most.take(i))) is Call by {
            assert(most.take(i) =~= randoms.take(i));
        }
        calls_overflow_at_the_limit(s, most);
        run_keeps_valid(s, most);
        assert(randoms.take(most.len() as int) =~= most);
        let before = run_state(s, most);
        assert(before.can_fetch() && current_op(before) is Call);
    }
}

/// A call followed, at its target, by a return leads back to the
/// instruction after the call, with the stack as it was before.
pub proof fn call_then_return(s: MachineState, addr: u16, randoms: Seq<u8>)
    requires
        s.valid(),
        s.can_fetch(),
        s.stack.len() < s.stack_limit,
        current_op(s) == (Opcode::Call { addr }),
        addr + 1 < MEMORY_SIZE,
        current_op(next_state(s, Opcode::Call { addr }, 0)) == Opcode::Return,
        randoms.len() == 2,
    ensures
        run_fault(s, randoms) is None,
        run_state(s, randoms) == s.advanced(2),
{
    let called = next_state(s, Opcode::Call { addr }, randoms[0]);
    assert(called == next_state(s, Opcode::Call { addr }, 0));
    let first = randoms.drop_last();
    assert(first.drop_last().len() == 0);
    assert(run_state(s, first.drop_last()) == s);
    assert(run_state(s, first) == called);
    assert(called.stack.drop_last() =~= s.stack);
}

/// Drawing a sprite and then, as the next instruction, drawing it again
/// from the same registers restores the screen, and the second drawing sets
/// the flag exactly when the first one lit a pixel. Neither coordinate may
/// come from the flag register, which the first drawing overwrites.
pub proof fn draw_twice_restores(s: MachineState, x: u8, y: u8, rows: u8, random: u8)
    requires
        s.valid(),
        x < FLAG,
        y < FLAG,
        rows < 16,
        s.pc + 3 < MEMORY_SIZE,
        fault_of(s, Opcode::Draw { x, y, rows }) is None,
    ensures
        ({
            let op = Opcode::Draw { x, y, rows };
            let sprite = s.sprite(visible_rows(s.reg(y), rows));
            let once = next_state(s, op, random);
            let twice = next_state(once, op, random);
            &&& fault_of(once, op) is None
            &&& twice.pixels == s.pixels
            &&& twice.reg(FLAG) == 1 <==> exists|i: int|
                0 <= i < s.pixels.len() && !#[trigger] s.pixels[i] && toggles(
                    sprite,
                    s.reg(x),
                    s.reg(y),
                    i,
                )
            &&& twice.reg(FLAG) == 0 || twice.reg(FLAG) == 1
        }),
{
    let op = Opcode::Draw { x, y, rows };
    let sprite = s.sprite(visible_rows(s.reg(y), rows));
    let once = next_state(s, op, random);
    assert(once.sprite(visible_rows(once.reg(y), rows)) =~= sprite);
    redraw_restores(s.pixels, sprite, s.reg(x), s.reg(y));
}

/// Whether the two bytes of `memory` at `at` hold `word`, high byte first.
pub open spec fn holds_word(memory: Seq<u8>, at: int, word: u16) -> bool {
    memory[at] == word / 256 && memory[at + 1] == word % 256
}

/// Whether memory holds, from the program counter on, the words of
/// `program`, each of them a load of an immediate byte into a register,
/// and after them the instruction that clears the screen.
pub open spec fn holds_loads_and_clear(s: MachineState, program: Seq<u16>) -> bool {
    &&& s.pc + 2 * program.len() + 1 < MEMORY_SIZE
    &&& forall|i: int|
        0 <= i < program.len() ==> class_of(#[trigger] program[i]) == 6 && holds_word(
            s.memory,
            s.pc + 2 * i,
            program[i],
        )
    &&& holds_word(s.memory, s.pc + 2 * program.len(), 0x00E0)
}

/// The registers after the first `n` loads of `program`.
pub open spec fn loads_applied(registers: Seq<u8>, program: Seq<u16>, n: nat) -> Seq<u8>
    decreases n,
{
    if n == 0 {
        registers
    } else {
        loads_applied(registers, program, (n - 1) as nat).update(
            x_of(program[n - 1]) as int,
            byte_of(program[n - 1]),
        )
    }
}

/// Loads keep the number of registers.
proof fn loads_keep_length(registers: Seq<u8>, program: Seq<u16>, n: nat)
    requires
        registers.len() == 16,
    ensures
        loads_applied(registers, program, n).len() == 16,
    decreases n,
{
    if n > 0 {
        loads_keep_length(registers, program, (n - 1) as nat);
    }
}

/// After `n` loads a register holds the byte of the last load among them
/// that names it, and its old value if none does.
proof fn loads_last_wins(registers: Seq<u8>, program: Seq<u16>, n: nat, r: int)
    requires
        registers.len() == 16,
        0 <= r < 16,
        n <= program.len(),
    ensures
        forall|i: int|
            0 <= i < n && x_of(#[trigger] program[i]) == r && (forall|j: int|
                i < j < n ==> x_of(#[trigger] program[j]) != r) ==> loads_applied(
                registers,
                program,
                n,
            )[r] == byte_of(program[i]),
        (forall|j: int| 0 <= j < n ==> x_of(#[trigger] program[j]) != r) ==> loads_applied(
            registers,
            program,
            n,
        )[r] == registers[r],
    decreases n,
{
    if n > 0 {
        let m = (n - 1) as nat;
        loads_last_wins(registers, program, m, r);
        loads_keep_length(registers, program, m);
        assert forall|i: int|
            0 <= i < n && x_of(#[trigger] program[i]) == r && (forall|j: int|
                i < j < n ==> x_of(#[trigger] program[j]) != r) implies loads_applied(
            registers,
            program,
            n,
        )[r] == byte_of(program[i]) by {
            if i < m {
                assert(x_of(program[m as int]) != r);
                assert forall|j: int| i < j < m implies x_of(#[trigger] program[j]) != r by {}
            }
        }
    }
}

/// A word of class six decodes to a load of its low byte into the register
/// that its second digit names.
proof fn load_decodes(word: u16)
    requires
        class_of(word) == 6,
    ensures
        decode_spec(word) == (Opcode::LoadImm { x: x_of(word), byte: byte_of(word) }),
        x_of(word) < 16,
{
}

/// The word that two bytes of memory hold is the instruction word there.
proof fn word_is_fetched(s: MachineState, word: u16)
    requires
        s.valid(),
        s.can_fetch(),
        holds_word(s.memory, s.pc as int, word),
    ensures
        s.word_at_pc() == word,
{
}

/// The state after the first `n` cycles of a program of loads: the loads
/// have been applied to the registers and the program counter stands
/// behind them.
proof fn loads_run(s: MachineState, program: Seq<u16>, randoms: Seq<u8>, n: nat)
    requires
        s.valid(),
        holds_loads_and_clear(s, program),
        n <= program.len(),
        n <= randoms.len(),
    ensures
        run_state(s, randoms.take(n as int)) == (MachineState {
            registers: loads_applied(s.registers, program, n),
            pc: (s.pc + 2 * n) as u16,
            awaiting_key: n == 0 && s.awaiting_key,
            ..s
        }),
        n > 0 ==> run_fault(s, randoms.take(n as int)) is None,
    decreases n,
{
    if n > 0 {
        let m = (n - 1) as nat;
        loads_run(s, program, randoms, m);
        loads_keep_length(s.registers, program, m);
        assert(randoms.take(n as int).drop_last() =~= randoms.take(m as int));
        let before = run_state(s, randoms.take(m as int));
        let word = program[m as int];
        word_is_fetched(before, word);
        load_decodes(word);
        assert(current_op(before) == (Opcode::LoadImm { x: x_of(word), byte: byte_of(word) }));
        assert(cycle_fault(before) is None);
        assert(before.with_reg(x_of(word), byte_of(word)).registers == loads_applied(
            s.registers,
            program,
            n,
        ));
    }
}

/// A program that only loads immediate bytes into registers and then
/// clears the screen runs without a fault and leaves every register that
/// it names with the byte of the last load that names it, every other
/// register and everything but the program counter and the screen as it
/// was, and the screen blank.
pub proof fn loads_then_clear(s: MachineState, program: Seq<u16>, randoms: Seq<u8>)
    requires
        s.valid(),
        holds_loads_and_clear(s, program),
        randoms.len() == program.len() + 1,
    ensures
        run_fault(s, randoms) is None,
        ({
            let end = run_state(s, randoms);
            &&& end == (MachineState {
                registers: end.registers,
                pixels: blank(),
                pc: (s.pc + 2 * program.len() + 2) as u16,
                awaiting_key: false,
                ..s
            })
            &&& end.registers.len() == 16
            &&& forall|i: int|
                0 <= i < program.len() && (forall|j: int|
                    i < j < program.len() ==> x_of(#[trigger] program[j]) != x_of(program[i]))
                    ==> end.reg(x_of(#[trigger] program[i])) == byte_of(program[i])
            &&& forall|r: int|
                0 <= r < 16 && (forall|j: int|
                    0 <= j < program.len() ==> x_of(#[trigger] program[j]) != r)
                    ==> #[trigger] end.registers[r] == s.registers[r]
        }),
{
    let n = program.len();
    loads_run(s, program, randoms, n);
    loads_keep_length(s.registers, program, n);
    assert(randoms.drop_last() =~= randoms.take(n as int));
    let before = run_state(s, randoms.take(n as int));
    word_is_fetched(before, 0x00E0);
    assert(decode_spec(0x00E0) == Opcode::ClearScreen);
    assert(current_op(before) == Opcode::ClearScreen);
    assert(cycle_fault(before) is None);
    let end = run_state(s, randoms);
    assert(end == cycle(before, randoms.last()));
    assert forall|i: int|
        0 <= i < program.len() && (forall|j: int|
            i < j < program.len() ==> x_of(#[trigger] program[j]) != x_of(
                program[i],
            )) implies end.reg(x_of(#[trigger] program[i])) == byte_of(program[i]) by {
        load_decodes(program[i]);
        loads_last_wins(s.registers, program, n, x_of(program[i]) as int);
    }
    assert forall|r: int|
        0 <= r < 16 && (forall|j: int|
            0 <= j < program.len() ==> x_of(#[trigger] program[j]) != r)
        implies #[trigger] end.registers[r] == s.registers[r] by {
        loads_last_wins(s.registers, program, n, r);
    }
}

} // verus!
