//! What the instructions mean: the fault that an instruction raises, the
//! state that it leads to, and runs of several cycles.

use crate::display::{blank, collides, drawn, DISPLAY_HEIGHT};
use crate::executor::Outcome;
use crate::loader::GLYPH_ROWS;
use crate::machine::{fault_address, Fault, MachineState, FLAG, MEMORY_SIZE};
use crate::opcode::{decode_spec, Opcode};
use vstd::prelude::*;

verus! {

/// `1` for `true`, `0` for `false`: the value a flag takes in `VF`.
pub open spec fn flag(b: bool) -> u8 {
    if b {
        1
    } else {
        0
    }
}

/// The value `v` reduced to eight bits.
pub open spec fn low8(v: int) -> u8 {
    (v % 256) as u8
}

/// The number of rows of an `rows`-row sprite drawn from the row `vy mod 32`
/// on that fall inside the screen.
pub open spec fn visible_rows(vy: u8, rows: u8) -> int {
    if rows <= DISPLAY_HEIGHT - vy % 32 {
        rows as int
    } else {
        DISPLAY_HEIGHT - vy % 32
    }
}

/// Memory after the registers `V0..=Vx` have been stored from `I` on.
pub open spec fn stored(s: MachineState, x: u8) -> Seq<u8> {
    Seq::new(
        s.memory.len(),
        |a: int|
            if s.index <= a <= s.index + x {
                s.registers[a - s.index]
            } else {
                s.memory[a]
            },
    )
}

/// The registers after `V0..=Vx` have been loaded from `I` on.
pub open spec fn loaded(s: MachineState, x: u8) -> Seq<u8> {
    Seq::new(
        s.registers.len(),
        |r: int|
            if r <= x {
                s.memory[s.index + r]
            } else {
                s.registers[r]
            },
    )
}

/// The fault, if any, that executing `op` as the instruction at the program
/// counter raises in state `s`. No instruction executes at a program counter
/// from which no instruction can be fetched. A sprite faults only on the
/// rows that are drawn, those that fall inside the screen.
pub open spec fn fault_of(s: MachineState, op: Opcode) -> Option<Fault> {
    if !s.can_fetch() {
        Some(Fault::MemoryFault { address: fault_address(s.pc) })
    } else {
        match op {
            Opcode::Return => if s.stack.len() == 0 {
                Some(Fault::StackUnderflow { address: s.pc })
            } else {
                None
            },
            Opcode::Call { .. } => if s.stack.len() >= s.stack_limit {
                Some(Fault::StackOverflow { address: s.pc })
            } else {
                None
            },
            Opcode::Draw { y, rows, .. } => if rows > 0 && s.index + visible_rows(s.reg(y), rows)
                > MEMORY_SIZE {
                Some(Fault::MemoryFault { address: fault_address(s.index) })
            } else {
                None
            },
            Opcode::Bcd { .. } => if s.index + 2 >= MEMORY_SIZE {
                Some(Fault::MemoryFault { address: fault_address(s.index) })
            } else {
                None
            },
            Opcode::StoreRegisters { x } | Opcode::LoadRegisters { x } => if s.index + x
                >= MEMORY_SIZE {
                Some(Fault::MemoryFault { address: fault_address(s.index) })
            } else {
                None
            },
            _ => None,
        }
    }
}

/// The state after `op` has been executed in state `s` without a fault.
/// `random` is the byte that a random instruction draws; no other
/// instruction looks at it.
pub open spec fn next_state(s: MachineState, op: Opcode, random: u8) -> MachineState {
    match op {
        Opcode::ClearScreen => (MachineState { pixels: blank(), ..s }).advanced(2),
        Opcode::Return => (MachineState { stack: s.stack.drop_last(), ..s }).jumped(
            (s.stack.last() + 2) as u16,
        ),
        Opcode::Jump { addr } => s.jumped(addr),
        Opcode::Call { addr } => (MachineState { stack: s.stack.push(s.pc), ..s }).jumped(addr),
        Opcode::SkipEqImm { x, byte } => s.advanced(
            if s.reg(x) == byte {
                4
            } else {
                2
            },
        ),
        Opcode::SkipNeImm { x, byte } => s.advanced(
            if s.reg(x) != byte {
                4
            } else {
                2
            },
        ),
        Opcode::SkipEqReg { x, y } => s.advanced(
            if s.reg(x) == s.reg(y) {
                4
            } else {
                2
            },
        ),
        Opcode::LoadImm { x, byte } => s.with_reg(x, byte).advanced(2),
        Opcode::AddImm { x, byte } => s.with_reg(x, low8(s.reg(x) + byte)).advanced(2),
        Opcode::Move { x, y } => s.with_reg(x, s.reg(y)).advanced(2),
        Opcode::Or { x, y } => s.with_reg(x, s.reg(x) | s.reg(y)).advanced(2),
        Opcode::And { x, y } => s.with_reg(x, s.reg(x) & s.reg(y)).advanced(2),
        Opcode::Xor { x, y } => s.with_reg(x, s.reg(x) ^ s.reg(y)).advanced(2),
        Opcode::Add { x, y } => s.with_reg(x, low8(s.reg(x) + s.reg(y))).with_reg(
            FLAG,
            flag(s.reg(x) + s.reg(y) > 255),
        ).advanced(2),
        Opcode::Sub { x, y } => s.with_reg(x, low8(s.reg(x) - s.reg(y))).with_reg(
            FLAG,
            flag(s.reg(x) >= s.reg(y)),
        ).advanced(2),
        Opcode::ShiftRight { x, y } => s.with_reg(x, s.reg(y) / 2).with_reg(
            FLAG,
            flag(s.reg(y) % 2 == 1),
        ).advanced(2),
        Opcode::SubReverse { x, y } => s.with_reg(x, low8(s.reg(y) - s.reg(x))).with_reg(
            FLAG,
            flag(s.reg(y) >= s.reg(x)),
        ).advanced(2),
        Opcode::ShiftLeft { x, y } => s.with_reg(x, low8(s.reg(y) * 2)).with_reg(
            FLAG,
            flag(s.reg(y) >= 128),
        ).advanced(2),
        Opcode::SkipNeReg { x, y } => s.advanced(
            if s.reg(x) != s.reg(y) {
                4
            } else {
                2
            },
        ),
        Opcode::LoadIndex { addr } => (MachineState { index: addr, ..s }).advanced(2),
        Opcode::JumpOffset { addr } => s.jumped((addr + s.reg(0)) as u16),
        Opcode::Random { x, mask } => s.with_reg(x, random & mask).advanced(2),
        Opcode::Draw { x, y, rows } => {
            let sprite = s.sprite(visible_rows(s.reg(y), rows));
            (MachineState { pixels: drawn(s.pixels, sprite, s.reg(x), s.reg(y)), ..s }).with_reg(
                FLAG,
                flag(collides(s.pixels, sprite, s.reg(x), s.reg(y))),
            ).advanced(2)
        },
        Opcode::SkipKeyPressed { x } => s.advanced(
            if s.reg(x) < 16 && s.keys[s.reg(x) as int] {
                4
            } else {
                2
            },
        ),
        Opcode::SkipKeyReleased { x } => s.advanced(
            if s.reg(x) < 16 && !s.keys[s.reg(x) as int] {
                4
            } else {
                2
            },
        ),
        Opcode::ReadDelay { x } => s.with_reg(x, s.delay_timer).advanced(2),
        Opcode::WaitKey { x } => match s.first_key() {
            Some(k) => s.with_reg(x, k).advanced(2),
            None => MachineState { awaiting_key: true, ..s },
        },
        Opcode::SetDelay { x } => (MachineState { delay_timer: s.reg(x), ..s }).advanced(2),
        Opcode::SetSound { x } => (MachineState { sound_timer: s.reg(x), ..s }).advanced(2),
        Opcode::AddIndex { x } => (MachineState {
            index: ((s.index + s.reg(x)) % 0x10000) as u16,
            ..s
        }).advanced(2),
        Opcode::FontAddress { x } => (MachineState {
            index: ((s.reg(x) % 16) * GLYPH_ROWS) as u16,
            ..s
        }).advanced(2),
        Opcode::Bcd { x } => s.with_byte(s.index as int, (s.reg(x) / 100) as u8).with_byte(
            s.index + 1,
            ((s.reg(x) / 10) % 10) as u8,
        ).with_byte(s.index + 2, (s.reg(x) % 10) as u8).advanced(2),
        Opcode::StoreRegisters { x } => (MachineState { memory: stored(s, x), ..s }).advanced(2),
        Opcode::LoadRegisters { x } => (MachineState { registers: loaded(s, x), ..s }).advanced(2),
        Opcode::Unknown(_) => s.advanced(2),
    }
}

/// How executing `op` in state `s` without a fault is reported.
pub open spec fn outcome_of(s: MachineState, op: Opcode) -> Outcome {
    match op {
        Opcode::WaitKey { .. } => if s.first_key() is None {
            Outcome::AwaitingKey
        } else {
            Outcome::Completed
        },
        Opcode::Unknown(word) => Outcome::UnknownOpcode { word, address: s.pc },
        _ => Outcome::Completed,
    }
}

/// Whether a cycle that took the machine from `before` to `after` and
/// returned `r` executed `op` faithfully: a fault exactly where `fault_of`
/// names one, with the machine left as it was, and otherwise the state and
/// the outcome that `next_state` and `outcome_of` give.
pub open spec fn executes(
    before: MachineState,
    op: Opcode,
    random: u8,
    after: MachineState,
    r: Result<Outcome, Fault>,
) -> bool {
    match r {
        Ok(outcome) => {
            &&& fault_of(before, op) is None
            &&& after == next_state(before, op, random)
            &&& outcome == outcome_of(before, op)
        },
        Err(fault) => fault_of(before, op) == Some(fault) && after == before,
    }
}

/// The instruction at the program counter.
pub open spec fn current_op(s: MachineState) -> Opcode {
    decode_spec(s.word_at_pc())
}

/// The fault, if any, that the next cycle raises in state `s`.
pub open spec fn cycle_fault(s: MachineState) -> Option<Fault> {
    fault_of(s, current_op(s))
}

/// The state after one cycle from `s`. A cycle that faults leaves the state
/// as it is.
pub open spec fn cycle(s: MachineState, random: u8) -> MachineState {
    if cycle_fault(s) is None {
        next_state(s, current_op(s), random)
    } else {
        s
    }
}

/// The state after one cycle for each byte of `randoms`, in order, the
/// byte being the one that a random instruction in that cycle uses.
pub open spec fn run_state(s: MachineState, randoms: Seq<u8>) -> MachineState
    decreases randoms.len(),
{
    if randoms.len() == 0 {
        s
    } else {
        cycle(run_state(s, randoms.drop_last()), randoms.last())
    }
}

/// The fault, if any, that ends a run of one cycle for each byte of
/// `randoms`. A fault is final: the state that raised it raises it again in
/// every later cycle, so it is the last cycle that tells.
pub open spec fn run_fault(s: MachineState, randoms: Seq<u8>) -> Option<Fault> {
    if randoms.len() == 0 {
        None
    } else {
        cycle_fault(run_state(s, randoms.drop_last()))
    }
}

/// A run from a state that faults stays in that state.
pub proof fn fault_is_final(s: MachineState, randoms: Seq<u8>)
    requires
        cycle_fault(s) is Some,
    ensures
        run_state(s, randoms) == s,
    decreases randoms.len(),
{
    if randoms.len() > 0 {
        fault_is_final(s, randoms.drop_last());
    }
}

/// Running `first` and then `rest` is running the two in one go.
pub proof fn run_in_two(s: MachineState, first: Seq<u8>, rest: Seq<u8>)
    ensures
        run_state(s, first + rest) == run_state(run_state(s, first), rest),
    decreases rest.len(),
{
    if rest.len() == 0 {
        assert(first + rest =~= first);
    } else {
        run_in_two(s, first, rest.drop_last());
        assert((first + rest).drop_last() =~= first + rest.drop_last());
        assert((first + rest).last() == rest.last());
    }
}

} // verus!
