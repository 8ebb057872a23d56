//! The fetch-decode-execute engine.

use crate::display::{collides, drawn, DISPLAY_HEIGHT};
use crate::loader::GLYPH_ROWS;
use crate::machine::{fault_address, Fault, Machine, MachineState, FLAG, MEMORY_SIZE};
use crate::opcode::{decode, Opcode};
use crate::random::random_byte;
use crate::semantics::{
    current_op, cycle, cycle_fault, executes, fault_is_final, flag, loaded, run_fault, run_in_two,
    run_state, stored,
};
use vstd::prelude::*;

verus! {

/// How one cycle ended when it did not fault.
#[derive(Clone, Copy, Debug, PartialEq, Eq, Structural)]
pub enum Outcome {
    /// The instruction ran to completion.
    Completed,
    /// A key wait found no key pressed; the same instruction runs again in
    /// the next cycle.
    AwaitingKey,
    /// The word at `address` is no instruction. It was stepped over.
    UnknownOpcode { word: u16, address: u16 },
}

/// Instructions that only move the program counter or the call stack.
spec fn is_control(op: Opcode) -> bool {
    op is Return || op is Jump || op is Call || op is JumpOffset || op is SkipEqImm
        || op is SkipNeImm || op is SkipEqReg || op is SkipNeReg || op is SkipKeyPressed
        || op is SkipKeyReleased
}

/// Instructions that write one register, the index register or a timer and
/// leave the flag alone.
spec fn is_transfer(op: Opcode) -> bool {
    op is LoadImm || op is AddImm || op is Move || op is Or || op is And || op is Xor
        || op is Random || op is ReadDelay || op is SetDelay || op is SetSound || op is LoadIndex
        || op is AddIndex || op is FontAddress
}

/// Instructions that write a result and then the flag.
spec fn is_flagged(op: Opcode) -> bool {
    op is Add || op is Sub || op is ShiftRight || op is SubReverse || op is ShiftLeft
}

/// Instructions that read or write memory at the index register.
spec fn is_indexed(op: Opcode) -> bool {
    op is Bcd || op is StoreRegisters || op is LoadRegisters
}

impl Machine {
    /// Executes `op` as the instruction at the program counter. `random` is
    /// the byte that a random instruction uses.
    ///
    /// A fault is returned exactly where `fault_of` names one, and then the
    /// machine is left as it was. Otherwise the machine moves to
    /// `next_state` and the outcome says whether the instruction completed,
    /// is waiting for a key, or was no instruction.
    pub fn execute(&mut self, op: Opcode, random: u8) -> (r: Result<Outcome, Fault>)
        requires
            old(self).wf(),
            op.wf(),
        ensures
            final(self).wf(),
            executes(old(self)@, op, random, final(self)@, r),
    {
        let pc: u16 = self.pc();
        if pc as usize + 1 >= MEMORY_SIZE {
            return Err(Fault::MemoryFault { address: outside(pc) });
        }
        match op {
            Opcode::ClearScreen => {
                self.clear_display();
                self.advance(2);
                Ok(Outcome::Completed)
            },
            Opcode::Return
            | Opcode::Jump { .. }
            | Opcode::Call { .. }
            | Opcode::JumpOffset { .. }
            | Opcode::SkipEqImm { .. }
            | Opcode::SkipNeImm { .. }
            | Opcode::SkipEqReg { .. }
            | Opcode::SkipNeReg { .. }
            | Opcode::SkipKeyPressed { .. }
            | Opcode::SkipKeyReleased { .. } => self.execute_control(op, Ghost(random)),
            Opcode::LoadImm { .. }
            | Opcode::AddImm { .. }
            | Opcode::Move { .. }
            | Opcode::Or { .. }
            | Opcode::And { .. }
            | Opcode::Xor { .. }
            | Opcode::Random { .. }
            | Opcode::ReadDelay { .. }
            | Opcode::SetDelay { .. }
            | Opcode::SetSound { .. }
            | Opcode::LoadIndex { .. }
            | Opcode::AddIndex { .. }
            | Opcode::FontAddress { .. } => self.execute_transfer(op, random),
            Opcode::Add { .. }
            | Opcode::Sub { .. }
            | Opcode::ShiftRight { .. }
            | Opcode::SubReverse { .. }
            | Opcode::ShiftLeft { .. } => self.execute_flagged(op, Ghost(random)),
            Opcode::Draw { x, y, rows } => self.execute_draw(x, y, rows, Ghost(random)),
            Opcode::WaitKey { x } => self.execute_wait(x, Ghost(random)),
            Opcode::Bcd { .. }
            | Opcode::StoreRegisters { .. }
            | Opcode::LoadRegisters { .. } => self.execute_indexed(op, Ghost(random)),
            Opcode::Unknown(word) => {
                self.advance(2);
                Ok(Outcome::UnknownOpcode { word, address: pc })
            },
        }
    }

    /// Runs one fetch-decode-execute cycle, with `random` as the byte that a
    /// random instruction uses. A program counter outside memory is a
    /// memory fault.
    pub fn step_with(&mut self, random: u8) -> (r: Result<Outcome, Fault>)
        requires
            old(self).wf(),
        ensures
            final(self).wf(),
            executes(old(self)@, current_op(old(self)@), random, final(self)@, r),
    {
        match self.fetch() {
            Ok(word) => self.execute(decode(word), random),
            Err(fault) => Err(fault),
        }
    }

    /// Runs one fetch-decode-execute cycle. A random instruction draws its
    /// byte from the system's generator, so the cycle is that of
    /// `step_with` for some byte; for every other instruction the byte does
    /// not matter.
    pub fn step(&mut self) -> (r: Result<Outcome, Fault>)
        requires
            old(self).wf(),
        ensures
            final(self).wf(),
            exists|random: u8|
                executes(old(self)@, current_op(old(self)@), random, final(self)@, r),
    {
        let ghost s = self@;
        match self.fetch() {
            Ok(word) => {
                let op: Opcode = decode(word);
                let random: u8 = match op {
                    Opcode::Random { .. } => random_byte(),
                    _ => 0,
                };
                let r = self.execute(op, random);
                assert(executes(s, current_op(s), random, self@, r));
                r
            },
            Err(fault) => {
                assert(executes(s, current_op(s), 0, self@, Err(fault)));
                Err(fault)
            },
        }
    }

    /// Runs one cycle for each byte of `randoms`, with that byte for a
    /// random instruction, and stops at the first fault. The machine ends
    /// in the state that the run reached.
    pub fn run_with(&mut self, randoms: &[u8]) -> (r: Result<(), Fault>)
        requires
            old(self).wf(),
        ensures
            final(self).wf(),
            final(self)@ == run_state(old(self)@, randoms@),
            r == match run_fault(old(self)@, randoms@) {
                Some(fault) => Err::<(), Fault>(fault),
                None => Ok(()),
            },
    {
        let ghost s = self@;
        let mut i: usize = 0;
        while i < randoms.len()
            invariant
                i <= randoms@.len(),
                s == old(self)@,
                self.wf(),
                self@ == run_state(s, randoms@.take(i as int)),
                run_fault(s, randoms@.take(i as int)) is None,
            decreases randoms@.len() - i,
        {
            let ghost before = self@;
            let random: u8 = randoms[i];
            let stepped = self.step_with(random);
            proof {
                run_one_more(s, randoms@, i as int);
                cycle_of(before, random, self@, stepped);
            }
            if let Err(fault) = stepped {
                proof {
                    run_ends_at(s, randoms@, i as int);
                }
                return Err(fault);
            }
            i += 1;
        }
        proof {
            assert(randoms@.take(i as int) =~= randoms@);
        }
        Ok(())
    }

    /// Executes an instruction that only moves the program counter or the
    /// call stack.
    fn execute_control(&mut self, op: Opcode, Ghost(random): Ghost<u8>) -> (r: Result<
        Outcome,
        Fault,
    >)
        requires
            old(self).wf(),
            old(self)@.can_fetch(),
            op.wf(),
            is_control(op),
        ensures
            final(self).wf(),
            executes(old(self)@, op, random, final(self)@, r),
    {
        let pc: u16 = self.pc();
        match op {
            Opcode::Return => {
                if self.stack_depth() == 0 {
                    return Err(Fault::StackUnderflow { address: pc });
                }
                let from: u16 = self.pop_call();
                self.jump(from + 2);
            },
            Opcode::Jump { addr } => {
                self.jump(addr);
            },
            Opcode::Call { addr } => {
                if self.stack_depth() >= self.stack_limit() {
                    return Err(Fault::StackOverflow { address: pc });
                }
                self.push_call();
                self.jump(addr);
            },
            Opcode::JumpOffset { addr } => {
                let v0: u8 = self.register(0);
                self.jump(addr + v0 as u16);
            },
            Opcode::SkipEqImm { x, byte } => {
                let skip: bool = self.register(x) == byte;
                self.skip_if(skip);
            },
            Opcode::SkipNeImm { x, byte } => {
                let skip: bool = self.register(x) != byte;
                self.skip_if(skip);
            },
            Opcode::SkipEqReg { x, y } => {
                let skip: bool = self.register(x) == self.register(y);
                self.skip_if(skip);
            },
            Opcode::SkipNeReg { x, y } => {
                let skip: bool = self.register(x) != self.register(y);
                self.skip_if(skip);
            },
            Opcode::SkipKeyPressed { x } => {
                let vx: u8 = self.register(x);
                let skip: bool = vx < 16 && self.key(vx);
                self.skip_if(skip);
            },
            Opcode::SkipKeyReleased { x } => {
                let vx: u8 = self.register(x);
                let skip: bool = vx < 16 && !self.key(vx);
                self.skip_if(skip);
            },
            _ => {},
        }
        Ok(Outcome::Completed)
    }

    /// Executes an instruction that writes one register, the index register
    /// or a timer.
    fn execute_transfer(&mut self, op: Opcode, random: u8) -> (r: Result<Outcome, Fault>)
        requires
            old(self).wf(),
            old(self)@.can_fetch(),
            op.wf(),
            is_transfer(op),
        ensures
            final(self).wf(),
            executes(old(self)@, op, random, final(self)@, r),
    {
        match op {
            Opcode::LoadImm { x, byte } => {
                self.set_register(x, byte);
            },
            Opcode::AddImm { x, byte } => {
                let vx: u8 = self.register(x);
                self.set_register(x, vx.wrapping_add(byte));
            },
            Opcode::Move { x, y } => {
                let vy: u8 = self.register(y);
                self.set_register(x, vy);
            },
            Opcode::Or { x, y } => {
                let value: u8 = self.register(x) | self.register(y);
                self.set_register(x, value);
            },
            Opcode::And { x, y } => {
                let value: u8 = self.register(x) & self.register(y);
                self.set_register(x, value);
            },
            Opcode::Xor { x, y } => {
                let value: u8 = self.register(x) ^ self.register(y);
                self.set_register(x, value);
            },
            Opcode::Random { x, mask } => {
                self.set_register(x, random & mask);
            },
            Opcode::ReadDelay { x } => {
                let value: u8 = self.delay_timer();
                self.set_register(x, value);
            },
            Opcode::SetDelay { x } => {
                let vx: u8 = self.register(x);
                self.set_delay_timer(vx);
            },
            Opcode::SetSound { x } => {
                let vx: u8 = self.register(x);
                self.set_sound_timer(vx);
            },
            Opcode::LoadIndex { addr } => {
                self.set_index(addr);
            },
            Opcode::AddIndex { x } => {
                let vx: u8 = self.register(x);
                let index: u16 = self.index();
                self.set_index(index.wrapping_add(vx as u16));
            },
            Opcode::FontAddress { x } => {
                let vx: u8 = self.register(x);
                proof {
                    lemma_bits(vx);
                }
                self.set_index((vx & 0x0F) as u16 * GLYPH_ROWS as u16);
            },
            _ => {},
        }
        self.advance(2);
        Ok(Outcome::Completed)
    }

    /// Executes an arithmetic instruction that sets the flag.
    fn execute_flagged(&mut self, op: Opcode, Ghost(random): Ghost<u8>) -> (r: Result<
        Outcome,
        Fault,
    >)
        requires
            old(self).wf(),
            old(self)@.can_fetch(),
            op.wf(),
            is_flagged(op),
        ensures
            final(self).wf(),
            executes(old(self)@, op, random, final(self)@, r),
    {
        match op {
            Opcode::Add { x, y } => {
                let vx: u8 = self.register(x);
                let vy: u8 = self.register(y);
                let carry: bool = vx.checked_add(vy).is_none();
                self.set_flagged(x, vx.wrapping_add(vy), carry);
            },
            Opcode::Sub { x, y } => {
                let vx: u8 = self.register(x);
                let vy: u8 = self.register(y);
                let no_borrow: bool = vx.checked_sub(vy).is_some();
                self.set_flagged(x, vx.wrapping_sub(vy), no_borrow);
            },
            Opcode::ShiftRight { x, y } => {
                let vy: u8 = self.register(y);
                proof {
                    lemma_bits(vy);
                }
                self.set_flagged(x, vy >> 1, vy % 2 == 1);
            },
            Opcode::SubReverse { x, y } => {
                let vx: u8 = self.register(x);
                let vy: u8 = self.register(y);
                let no_borrow: bool = vy.checked_sub(vx).is_some();
                self.set_flagged(x, vy.wrapping_sub(vx), no_borrow);
            },
            Opcode::ShiftLeft { x, y } => {
                let vy: u8 = self.register(y);
                proof {
                    lemma_bits(vy);
                }
                self.set_flagged(x, vy << 1, vy >> 7 == 1);
            },
            _ => {},
        }
        Ok(Outcome::Completed)
    }

    /// Executes the drawing of `rows` sprite rows at `(Vx, Vy)`.
    fn execute_draw(&mut self, x: u8, y: u8, rows: u8, Ghost(random): Ghost<u8>) -> (r: Result<
        Outcome,
        Fault,
    >)
        requires
            old(self).wf(),
            old(self)@.can_fetch(),
            x < 16,
            y < 16,
            rows < 16,
        ensures
            final(self).wf(),
            executes(old(self)@, Opcode::Draw { x, y, rows }, random, final(self)@, r),
    {
        let vx: u8 = self.register(x);
        let vy: u8 = self.register(y);
        let room: usize = DISPLAY_HEIGHT - (vy % 32) as usize;
        let count: usize = if (rows as usize) <= room {
            rows as usize
        } else {
            room
        };
        let index: u16 = self.index();
        if rows > 0 && index as usize + count > MEMORY_SIZE {
            return Err(Fault::MemoryFault { address: outside(index) });
        }
        let collision: bool = if rows > 0 {
            self.draw_at_index(vx, vy, count)
        } else {
            proof {
                no_rows(self@, vx, vy);
            }
            false
        };
        self.set_register(
            FLAG,
            if collision {
                1
            } else {
                0
            },
        );
        self.advance(2);
        Ok(Outcome::Completed)
    }

    /// Executes a key wait into `Vx`.
    fn execute_wait(&mut self, x: u8, Ghost(random): Ghost<u8>) -> (r: Result<Outcome, Fault>)
        requires
            old(self).wf(),
            old(self)@.can_fetch(),
            x < 16,
        ensures
            final(self).wf(),
            executes(old(self)@, Opcode::WaitKey { x }, random, final(self)@, r),
    {
        match self.first_key() {
            Some(k) => {
                self.set_register(x, k);
                self.advance(2);
                Ok(Outcome::Completed)
            },
            None => {
                self.await_key();
                Ok(Outcome::AwaitingKey)
            },
        }
    }

    /// Executes an instruction that reads or writes memory at the index
    /// register.
    fn execute_indexed(&mut self, op: Opcode, Ghost(random): Ghost<u8>) -> (r: Result<
        Outcome,
        Fault,
    >)
        requires
            old(self).wf(),
            old(self)@.can_fetch(),
            op.wf(),
            is_indexed(op),
        ensures
            final(self).wf(),
            executes(old(self)@, op, random, final(self)@, r),
    {
        let ghost s = self@;
        let index: u16 = self.index();
        match op {
            Opcode::Bcd { x } => {
                if index as usize + 2 >= MEMORY_SIZE {
                    return Err(Fault::MemoryFault { address: outside(index) });
                }
                let vx: u8 = self.register(x);
                let _ = self.write(index, vx / 100);
                let _ = self.write(index + 1, (vx / 10) % 10);
                let _ = self.write(index + 2, vx % 10);
            },
            Opcode::StoreRegisters { x } => {
                if index as usize + x as usize >= MEMORY_SIZE {
                    return Err(Fault::MemoryFault { address: outside(index) });
                }
                let mut i: u8 = 0;
                while i <= x
                    invariant
                        x < 16,
                        i <= x + 1,
                        s.valid(),
                        self.wf(),
                        index == s.index,
                        index + x < MEMORY_SIZE,
                        self@ == (MachineState { memory: self@.memory, ..s }),
                        forall|a: int|
                            0 <= a < MEMORY_SIZE ==> #[trigger] self@.memory[a] == (if index <= a
                                < index + i {
                                s.registers[a - index]
                            } else {
                                s.memory[a]
                            }),
                    decreases x + 1 - i,
                {
                    let v: u8 = self.register(i);
                    let _ = self.write(index + i as u16, v);
                    i += 1;
                }
                assert(self@.memory =~= stored(s, x));
            },
            Opcode::LoadRegisters { x } => {
                if index as usize + x as usize >= MEMORY_SIZE {
                    return Err(Fault::MemoryFault { address: outside(index) });
                }
                let mut i: u8 = 0;
                while i <= x
                    invariant
                        x < 16,
                        i <= x + 1,
                        s.valid(),
                        self.wf(),
                        index == s.index,
                        index + x < MEMORY_SIZE,
                        self@ == (MachineState { registers: self@.registers, ..s }),
                        forall|r: int|
                            0 <= r < 16 ==> #[trigger] self@.registers[r] == (if r < i {
                                s.memory[index + r]
                            } else {
                                s.registers[r]
                            }),
                    decreases x + 1 - i,
                {
                    match self.read(index + i as u16) {
                        Ok(v) => {
                            self.set_register(i, v);
                        },
                        Err(_) => {},
                    }
                    i += 1;
                }
                assert(self@.registers =~= loaded(s, x));
            },
            _ => {},
        }
        self.advance(2);
        Ok(Outcome::Completed)
    }

    /// Steps over the next instruction as well if `skip` holds.
    fn skip_if(&mut self, skip: bool)
        requires
            old(self).wf(),
            old(self)@.can_fetch(),
        ensures
            final(self).wf(),
            final(self)@ == old(self)@.advanced(
                if skip {
                    4
                } else {
                    2
                },
            ),
    {
        if skip {
            self.advance(4);
        } else {
            self.advance(2);
        }
    }

    /// Stores an arithmetic result in `Vx`, then the flag in `VF`, and moves
    /// on to the next instruction.
    fn set_flagged(&mut self, x: u8, value: u8, raised: bool)
        requires
            old(self).wf(),
            old(self)@.can_fetch(),
            x < 16,
        ensures
            final(self).wf(),
            final(self)@ == old(self)@.with_reg(x, value).with_reg(FLAG, flag(raised)).advanced(2),
    {
        self.set_register(x, value);
        self.set_register(
            FLAG,
            if raised {
                1
            } else {
                0
            },
        );
        self.advance(2);
    }
}

/// The address reported for a faulting access that starts at `base`.
fn outside(base: u16) -> (address: u16)
    ensures
        address == fault_address(base),
{
    if base as usize >= MEMORY_SIZE {
        base
    } else {
        MEMORY_SIZE as u16
    }
}

/// A sprite without rows toggles nothing.
proof fn no_rows(s: MachineState, vx: u8, vy: u8)
    ensures
        drawn(s.pixels, s.sprite(0), vx, vy) == s.pixels,
        !collides(s.pixels, s.sprite(0), vx, vy),
{
    assert(drawn(s.pixels, s.sprite(0), vx, vy) =~= s.pixels);
}

/// Masks and shifts of a byte as arithmetic.
proof fn lemma_bits(v: u8)
    ensures
        v & 0x0F == v % 16,
        v >> 7 == v / 128,
        v >> 1 == v / 2,
        v << 1 == (v * 2) % 256,
{
    assert(v & 0x0F == v % 16) by (bit_vector);
    assert(v >> 7 == v / 128) by (bit_vector);
    assert(v >> 1 == v / 2) by (bit_vector);
    assert(v << 1 == (v * 2) % 256) by (bit_vector);
}

/// The run over the first `i + 1` bytes is the run over the first `i`
/// followed by one cycle.
proof fn run_one_more(s: MachineState, randoms: Seq<u8>, i: int)
    requires
        0 <= i < randoms.len(),
    ensures
        run_state(s, randoms.take(i + 1)) == cycle(run_state(s, randoms.take(i)), randoms[i]),
        run_fault(s, randoms.take(i + 1)) == cycle_fault(run_state(s, randoms.take(i))),
{
    assert(randoms.take(i + 1).drop_last() =~= randoms.take(i));
}

/// A run whose cycle `i` faults ends in the state before that cycle, with
/// that fault.
proof fn run_ends_at(s: MachineState, randoms: Seq<u8>, i: int)
    requires
        0 <= i < randoms.len(),
        cycle_fault(run_state(s, randoms.take(i))) is Some,
    ensures
        run_state(s, randoms) == run_state(s, randoms.take(i)),
        run_fault(s, randoms) == cycle_fault(run_state(s, randoms.take(i))),
{
    let done = randoms.take(i);
    let at = run_state(s, done);
    let rest = randoms.skip(i);
    assert(done + rest =~= randoms);
    run_in_two(s, done, rest);
    fault_is_final(at, rest);
    let most = randoms.drop_last();
    let rest_most = most.skip(i);
    assert(done + rest_most =~= most);
    run_in_two(s, done, rest_most);
    fault_is_final(at, rest_most);
}

/// What `executes` says of a cycle, in terms of `cycle` and `cycle_fault`.
proof fn cycle_of(before: MachineState, random: u8, after: MachineState, r: Result<Outcome, Fault>)
    requires
        executes(before, current_op(before), random, after, r),
    ensures
        after == cycle(before, random),
        match r {
            Ok(_) => cycle_fault(before) is None,
            Err(fault) => cycle_fault(before) == Some(fault),
        },
{
}

} // verus!
