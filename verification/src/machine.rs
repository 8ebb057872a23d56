//! The machine state: memory, registers, stack, timers, framebuffer and
//! keypad, with the operations that keep it well formed.

use crate::display::{blank, collides, drawn, Framebuffer, PIXEL_COUNT};
use vstd::prelude::*;

verus! {

/// Bytes of addressable memory.
pub const MEMORY_SIZE: usize = 4096;

/// Address at which a program image starts, and the initial program counter.
pub const PROGRAM_START: u16 = 0x200;

/// Number of general-purpose registers.
pub const REGISTER_COUNT: usize = 16;

/// Number of keys on the keypad.
pub const KEY_COUNT: usize = 16;

/// Index of the flag register `VF`.
pub const FLAG: u8 = 15;

/// Call depth of a standard machine.
pub const STANDARD_STACK_DEPTH: usize = 16;

/// Call depth of the deepest machines in use, which programs that nest
/// beyond the standard depth rely on.
pub const EXTENDED_STACK_DEPTH: usize = 255;

/// Why a machine cannot go on.
#[derive(Clone, Copy, Debug, PartialEq, Eq, Structural)]
pub enum Fault {
    /// The program image does not fit between the program start and the end
    /// of memory.
    ImageTooLarge,
    /// An instruction fetch or an indexed access reached `address`, which is
    /// outside memory.
    MemoryFault { address: u16 },
    /// The call at `address` would exceed the stack limit.
    StackOverflow { address: u16 },
    /// The return at `address` found the stack empty.
    StackUnderflow { address: u16 },
}

/// The machine as a mathematical value.
pub struct MachineState {
    pub memory: Seq<u8>,
    pub registers: Seq<u8>,
    pub index: u16,
    pub pc: u16,
    /// Addresses of the pending calls, the oldest first.
    pub stack: Seq<u16>,
    pub stack_limit: nat,
    pub delay_timer: u8,
    pub sound_timer: u8,
    pub pixels: Seq<bool>,
    pub keys: Seq<bool>,
    /// Whether the last instruction executed was a key wait that found no
    /// key pressed.
    pub awaiting_key: bool,
}

impl MachineState {
    /// The sizes are those of the machine, the stack is within its limit and
    /// every pending call was made by an instruction inside memory.
    pub open spec fn valid(self) -> bool {
        &&& self.memory.len() == MEMORY_SIZE
        &&& self.registers.len() == REGISTER_COUNT
        &&& self.keys.len() == KEY_COUNT
        &&& self.pixels.len() == PIXEL_COUNT
        &&& self.stack.len() <= self.stack_limit
        &&& forall|i: int| 0 <= i < self.stack.len() ==> #[trigger] self.stack[i] + 1 < MEMORY_SIZE
    }

    /// The register `Vx`.
    pub open spec fn reg(self, x: u8) -> u8 {
        self.registers[x as int]
    }

    /// This state with `Vx` set to `value`.
    pub open spec fn with_reg(self, x: u8, value: u8) -> MachineState {
        MachineState { registers: self.registers.update(x as int, value), ..self }
    }

    /// This state with the memory byte at `addr` set to `value`.
    pub open spec fn with_byte(self, addr: int, value: u8) -> MachineState {
        MachineState { memory: self.memory.update(addr, value), ..self }
    }

    /// Whether a two-byte instruction can be fetched at the program counter.
    pub open spec fn can_fetch(self) -> bool {
        self.pc + 1 < MEMORY_SIZE
    }

    /// The instruction word at the program counter, high byte first.
    pub open spec fn word_at_pc(self) -> u16 {
        (self.memory[self.pc as int] * 256 + self.memory[self.pc + 1]) as u16
    }

    /// The lowest-numbered pressed key, if any key is pressed.
    pub open spec fn first_key(self) -> Option<u8> {
        first_pressed(self.keys, self.keys.len())
    }

    /// This state with the program counter set to `to` by an instruction
    /// that ran to completion.
    pub open spec fn jumped(self, to: u16) -> MachineState {
        MachineState { pc: to, awaiting_key: false, ..self }
    }

    /// This state with the program counter moved `by` bytes forward by an
    /// instruction that ran to completion.
    pub open spec fn advanced(self, by: int) -> MachineState {
        self.jumped((self.pc + by) as u16)
    }

    /// The sprite rows that the index register points at: `count` bytes of
    /// memory from `I` on.
    pub open spec fn sprite(self, count: int) -> Seq<u8> {
        Seq::new(count as nat, |r: int| self.memory[self.index + r])
    }
}

/// The lowest index below `n` at which `keys` holds `true`.
pub open spec fn first_pressed(keys: Seq<bool>, n: nat) -> Option<u8>
    decreases n,
{
    if n == 0 {
        None
    } else {
        match first_pressed(keys, (n - 1) as nat) {
            Some(k) => Some(k),
            None => if keys[n - 1] {
                Some((n - 1) as u8)
            } else {
                None
            },
        }
    }
}

/// The first pressed key is pressed, no key below it is, and where there is
/// none, no key is pressed.
pub proof fn first_pressed_is_lowest(keys: Seq<bool>, n: nat)
    requires
        n <= 256,
    ensures
        match first_pressed(keys, n) {
            Some(k) => k < n && keys[k as int] && forall|j: int| 0 <= j < k ==> !keys[j],
            None => forall|j: int| 0 <= j < n ==> !keys[j],
        },
    decreases n,
{
    if n > 0 {
        first_pressed_is_lowest(keys, (n - 1) as nat);
    }
}

/// The address that a faulting access starting at `base` reports: `base`
/// itself when it lies outside memory, else the first address past the end.
pub open spec fn fault_address(base: u16) -> u16 {
    if base >= MEMORY_SIZE {
        base
    } else {
        MEMORY_SIZE as u16
    }
}

/// A machine as first created: memory, registers and keys zero, the program
/// counter at the program start, the stack empty, the screen blank and both
/// timers at `timer`.
pub open spec fn initial_state(stack_limit: nat, timer: u8) -> MachineState {
    MachineState {
        memory: Seq::new(MEMORY_SIZE as nat, |i: int| 0u8),
        registers: Seq::new(REGISTER_COUNT as nat, |i: int| 0u8),
        index: 0,
        pc: PROGRAM_START,
        stack: Seq::empty(),
        stack_limit,
        delay_timer: timer,
        sound_timer: timer,
        pixels: blank(),
        keys: Seq::new(KEY_COUNT as nat, |i: int| false),
        awaiting_key: false,
    }
}

/// A timer after one tick: one less, and zero stays zero.
pub open spec fn ticked(timer: u8) -> u8 {
    if timer > 0 {
        (timer - 1) as u8
    } else {
        0
    }
}

/// The CHIP-8 machine.
#[derive(Clone, Debug)]
pub struct Machine {
    memory: Vec<u8>,
    registers: Vec<u8>,
    index: u16,
    pc: u16,
    stack: Vec<u16>,
    stack_limit: usize,
    delay_timer: u8,
    sound_timer: u8,
    display: Framebuffer,
    keys: Vec<bool>,
    awaiting_key: bool,
}

impl View for Machine {
    type V = MachineState;

    closed spec fn view(&self) -> MachineState {
        MachineState {
            memory: self.memory@,
            registers: self.registers@,
            index: self.index,
            pc: self.pc,
            stack: self.stack@,
            stack_limit: self.stack_limit as nat,
            delay_timer: self.delay_timer,
            sound_timer: self.sound_timer,
            pixels: self.display@,
            keys: self.keys@,
            awaiting_key: self.awaiting_key,
        }
    }
}

/// A vector of `n` copies of `value`.
fn filled<T: Copy>(value: T, n: usize) -> (v: Vec<T>)
    ensures
        v@ == Seq::new(n as nat, |i: int| value),
{
    let mut v: Vec<T> = Vec::new();
    let mut i: usize = 0;
    while i < n
        invariant
            i <= n,
            v@.len() == i,
            forall|j: int| 0 <= j < i ==> v@[j] == value,
        decreases n - i,
    {
        v.push(value);
        i += 1;
    }
    assert(v@ =~= Seq::new(n as nat, |i: int| value));
    v
}

/// Two bytes joined by shifting are the number whose base-256 digits they
/// are.
proof fn lemma_word(hi: u8, lo: u8)
    ensures
        ((hi as u16) << 8) | (lo as u16) == hi * 256 + lo,
{
    assert(((hi as u16) << 8) | (lo as u16) == hi * 256 + lo) by (bit_vector);
}

impl Machine {
    /// The state is valid.
    pub open spec fn wf(&self) -> bool {
        self@.valid()
    }

    /// A machine in its initial state, with room for `stack_limit` nested
    /// calls and both timers at `timer`.
    pub fn new(stack_limit: usize, timer: u8) -> (m: Machine)
        ensures
            m.wf(),
            m@ == initial_state(stack_limit as nat, timer),
    {
        Machine {
            memory: filled(0u8, MEMORY_SIZE),
            registers: filled(0u8, REGISTER_COUNT),
            index: 0,
            pc: PROGRAM_START,
            stack: Vec::new(),
            stack_limit,
            delay_timer: timer,
            sound_timer: timer,
            display: Framebuffer::new(),
            keys: filled(false, KEY_COUNT),
            awaiting_key: false,
        }
    }

    /// The register `Vx`.
    pub fn register(&self, x: u8) -> (v: u8)
        requires
            self.wf(),
            x < REGISTER_COUNT,
        ensures
            v == self@.reg(x),
    {
        self.registers[x as usize]
    }

    /// Sets the register `Vx`.
    pub fn set_register(&mut self, x: u8, value: u8)
        requires
            old(self).wf(),
            x < REGISTER_COUNT,
        ensures
            final(self).wf(),
            final(self)@ == old(self)@.with_reg(x, value),
    {
        self.registers[x as usize] = value;
    }

    /// The index register `I`.
    pub fn index(&self) -> (v: u16)
        ensures
            v == self@.index,
    {
        self.index
    }

    /// Sets the index register `I`.
    pub fn set_index(&mut self, value: u16)
        requires
            old(self).wf(),
        ensures
            final(self).wf(),
            final(self)@ == (MachineState { index: value, ..old(self)@ }),
    {
        self.index = value;
    }

    /// The program counter.
    pub fn pc(&self) -> (v: u16)
        ensures
            v == self@.pc,
    {
        self.pc
    }

    /// Sets the program counter. Any value is accepted; one outside memory
    /// faults at the next fetch.
    pub fn set_pc(&mut self, value: u16)
        requires
            old(self).wf(),
        ensures
            final(self).wf(),
            final(self)@ == (MachineState { pc: value, ..old(self)@ }),
    {
        self.pc = value;
    }

    /// The delay timer.
    pub fn delay_timer(&self) -> (v: u8)
        ensures
            v == self@.delay_timer,
    {
        self.delay_timer
    }

    /// Sets the delay timer.
    pub fn set_delay_timer(&mut self, value: u8)
        requires
            old(self).wf(),
        ensures
            final(self).wf(),
            final(self)@ == (MachineState { delay_timer: value, ..old(self)@ }),
    {
        self.delay_timer = value;
    }

    /// The sound timer.
    pub fn sound_timer(&self) -> (v: u8)
        ensures
            v == self@.sound_timer,
    {
        self.sound_timer
    }

    /// Sets the sound timer.
    pub fn set_sound_timer(&mut self, value: u8)
        requires
            old(self).wf(),
        ensures
            final(self).wf(),
            final(self)@ == (MachineState { sound_timer: value, ..old(self)@ }),
    {
        self.sound_timer = value;
    }

    /// Whether a tone should be audible now: the sound timer is not zero.
    pub fn tone_active(&self) -> (on: bool)
        ensures
            on == (self@.sound_timer > 0),
    {
        self.sound_timer > 0
    }

    /// Number of pending calls.
    pub fn stack_depth(&self) -> (n: usize)
        ensures
            n == self@.stack.len(),
    {
        self.stack.len()
    }

    /// Greatest number of pending calls that this machine accepts.
    pub fn stack_limit(&self) -> (n: usize)
        ensures
            n == self@.stack_limit,
    {
        self.stack_limit
    }

    /// The framebuffer, for a renderer to read.
    pub fn framebuffer(&self) -> (fb: &Framebuffer)
        requires
            self.wf(),
        ensures
            fb.wf(),
            fb@ == self@.pixels,
    {
        &self.display
    }

    /// Whether key `k` is held down.
    pub fn key(&self, k: u8) -> (pressed: bool)
        requires
            self.wf(),
            k < KEY_COUNT,
        ensures
            pressed == self@.keys[k as int],
    {
        self.keys[k as usize]
    }

    /// Records that key `k` went down or up.
    pub fn set_key(&mut self, k: u8, pressed: bool)
        requires
            old(self).wf(),
            k < KEY_COUNT,
        ensures
            final(self).wf(),
            final(self)@ == (MachineState {
                keys: old(self)@.keys.update(k as int, pressed),
                ..old(self)@
            }),
    {
        self.keys[k as usize] = pressed;
    }

    /// Whether the last instruction executed was a key wait that is still
    /// waiting.
    pub fn is_awaiting_key(&self) -> (waiting: bool)
        ensures
            waiting == self@.awaiting_key,
    {
        self.awaiting_key
    }

    /// The memory byte at `addr`, or a memory fault if `addr` is outside
    /// memory.
    pub fn read(&self, addr: u16) -> (r: Result<u8, Fault>)
        requires
            self.wf(),
        ensures
            r == if addr < MEMORY_SIZE {
                Ok::<u8, Fault>(self@.memory[addr as int])
            } else {
                Err(Fault::MemoryFault { address: addr })
            },
    {
        if (addr as usize) < MEMORY_SIZE {
            Ok(self.memory[addr as usize])
        } else {
            Err(Fault::MemoryFault { address: addr })
        }
    }

    /// Stores `value` at `addr`, or reports a memory fault and changes
    /// nothing if `addr` is outside memory.
    pub fn write(&mut self, addr: u16, value: u8) -> (r: Result<(), Fault>)
        requires
            old(self).wf(),
        ensures
            final(self).wf(),
            addr < MEMORY_SIZE ==> r is Ok && final(self)@ == old(self)@.with_byte(
                addr as int,
                value,
            ),
            addr >= MEMORY_SIZE ==> r == Err::<(), Fault>(Fault::MemoryFault { address: addr })
                && final(self)@ == old(self)@,
    {
        if (addr as usize) < MEMORY_SIZE {
            self.memory[addr as usize] = value;
            Ok(())
        } else {
            Err(Fault::MemoryFault { address: addr })
        }
    }

    /// The instruction word at the program counter, high byte first, or a
    /// memory fault if either of its bytes lies outside memory.
    pub fn fetch(&self) -> (r: Result<u16, Fault>)
        requires
            self.wf(),
        ensures
            r == if self@.can_fetch() {
                Ok::<u16, Fault>(self@.word_at_pc())
            } else {
                Err(Fault::MemoryFault { address: fault_address(self@.pc) })
            },
    {
        let at: usize = self.pc as usize;
        if at + 1 < MEMORY_SIZE {
            let hi: u8 = self.memory[at];
            let lo: u8 = self.memory[at + 1];
            proof {
                lemma_word(hi, lo);
            }
            Ok(((hi as u16) << 8) | (lo as u16))
        } else if at < MEMORY_SIZE {
            Err(Fault::MemoryFault { address: MEMORY_SIZE as u16 })
        } else {
            Err(Fault::MemoryFault { address: self.pc })
        }
    }

    /// The lowest-numbered key that is held down, if any is.
    pub fn first_key(&self) -> (k: Option<u8>)
        requires
            self.wf(),
        ensures
            k == self@.first_key(),
    {
        let mut found: Option<u8> = None;
        let mut i: u8 = 0;
        while i < 16
            invariant
                i <= 16,
                self.keys@.len() == KEY_COUNT,
                found == first_pressed(self.keys@, i as nat),
            decreases 16 - i,
        {
            if found.is_none() && self.keys[i as usize] {
                found = Some(i);
            }
            i += 1;
        }
        found
    }

    /// Moves the program counter to `to` and marks the instruction as
    /// completed.
    pub(crate) fn jump(&mut self, to: u16)
        requires
            old(self).wf(),
        ensures
            final(self).wf(),
            final(self)@ == old(self)@.jumped(to),
    {
        self.pc = to;
        self.awaiting_key = false;
    }

    /// Moves the program counter `by` bytes forward and marks the
    /// instruction as completed.
    pub(crate) fn advance(&mut self, by: u16)
        requires
            old(self).wf(),
            old(self)@.pc + by <= u16::MAX,
        ensures
            final(self).wf(),
            final(self)@ == old(self)@.advanced(by as int),
    {
        self.pc = self.pc + by;
        self.awaiting_key = false;
    }

    /// Marks the machine as waiting for a key, the program counter staying
    /// on the waiting instruction.
    pub(crate) fn await_key(&mut self)
        requires
            old(self).wf(),
        ensures
            final(self).wf(),
            final(self)@ == (MachineState { awaiting_key: true, ..old(self)@ }),
    {
        self.awaiting_key = true;
    }

    /// Records a call made by the instruction at the program counter.
    pub(crate) fn push_call(&mut self)
        requires
            old(self).wf(),
            old(self)@.can_fetch(),
            old(self)@.stack.len() < old(self)@.stack_limit,
        ensures
            final(self).wf(),
            final(self)@ == (MachineState {
                stack: old(self)@.stack.push(old(self)@.pc),
                ..old(self)@
            }),
    {
        self.stack.push(self.pc);
    }

    /// Removes the most recent pending call and returns its address.
    pub(crate) fn pop_call(&mut self) -> (addr: u16)
        requires
            old(self).wf(),
            old(self)@.stack.len() > 0,
        ensures
            final(self).wf(),
            addr == old(self)@.stack.last(),
            addr + 1 < MEMORY_SIZE,
            final(self)@ == (MachineState { stack: old(self)@.stack.drop_last(), ..old(self)@ }),
    {
        let addr = self.stack.pop().unwrap();
        addr
    }

    /// Turns every pixel off.
    pub(crate) fn clear_display(&mut self)
        requires
            old(self).wf(),
        ensures
            final(self).wf(),
            final(self)@ == (MachineState { pixels: blank(), ..old(self)@ }),
    {
        self.display.clear();
    }

    /// Draws the `count` sprite rows at `I` at the coordinates `(vx, vy)`
    /// and returns whether a lit pixel was turned off.
    pub(crate) fn draw_at_index(&mut self, vx: u8, vy: u8, count: usize) -> (collision: bool)
        requires
            old(self).wf(),
            old(self)@.index + count <= MEMORY_SIZE,
        ensures
            final(self).wf(),
            collision == collides(old(self)@.pixels, old(self)@.sprite(count as int), vx, vy),
            final(self)@ == (MachineState {
                pixels: drawn(old(self)@.pixels, old(self)@.sprite(count as int), vx, vy),
                ..old(self)@
            }),
    {
        let from: usize = self.index as usize;
        let sprite = vstd::slice::slice_subrange(self.memory.as_slice(), from, from + count);
        assert(sprite@ =~= self@.sprite(count as int));
        self.display.draw_sprite(vx, vy, sprite)
    }

    /// Decrements each timer that is not zero.
    pub fn tick_timers(&mut self)
        requires
            old(self).wf(),
        ensures
            final(self).wf(),
            final(self)@ == (MachineState {
                delay_timer: ticked(old(self)@.delay_timer),
                sound_timer: ticked(old(self)@.sound_timer),
                ..old(self)@
            }),
    {
        if self.delay_timer > 0 {
            self.delay_timer -= 1;
        }
        if self.sound_timer > 0 {
            self.sound_timer -= 1;
        }
    }
}

} // verus!
