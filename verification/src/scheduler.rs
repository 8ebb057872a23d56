//! The outer loop: input sampling, one cycle per iteration, and the cadence
//! at which the timers tick.

use crate::executor::Outcome;
use crate::machine::{ticked, Fault, Machine, MachineState, KEY_COUNT};
use crate::semantics::{current_op, executes, fault_of, next_state, outcome_of};
use vstd::arithmetic::div_mod::{lemma_fundamental_div_mod, lemma_fundamental_div_mod_converse};
use vstd::prelude::*;

verus! {

/// Iterations between two timer ticks when an iteration takes
/// `ITERATION_NANOS`: eight iterations of two milliseconds come to about a
/// sixtieth of a second.
pub const STANDARD_TICK_THRESHOLD: u32 = 8;

/// Nanoseconds that the loop should spend on one iteration.
pub const ITERATION_NANOS: u32 = 2_000_000;

/// What the input collaborator saw since the last iteration.
#[derive(Clone, Copy, Debug, PartialEq, Eq, Structural)]
pub enum InputEvent {
    /// The user asked to leave.
    Quit,
    /// The key with this index went down.
    KeyDown(u8),
    /// The key with this index went up.
    KeyUp(u8),
}

/// Whether the loop goes on.
#[derive(Clone, Copy, Debug, PartialEq, Eq, Structural)]
pub enum RunState {
    /// The loop goes on.
    Running,
    /// The loop has ended, on a quit request or a fault. Nothing leaves
    /// this state.
    Halted,
}

/// What one call of the loop body did.
#[derive(Clone, Copy, Debug, PartialEq, Eq, Structural)]
pub enum Iteration {
    /// The scheduler was halted already: nothing was done.
    Idle,
    /// One cycle ran. `tone` says whether a tone is due after it, before
    /// the timers tick.
    Ran { outcome: Outcome, tone: bool },
}

/// The scheduler as a mathematical value.
pub struct SchedulerState {
    pub run: RunState,
    /// Iterations since the last tick.
    pub counter: nat,
    /// Iterations between two ticks.
    pub threshold: nat,
}

impl SchedulerState {
    /// The counter is below the threshold.
    pub open spec fn valid(self) -> bool {
        self.counter < self.threshold
    }

    /// Whether the iteration that is counted next ticks the timers.
    pub open spec fn tick_due(self) -> bool {
        self.counter + 1 >= self.threshold
    }

    /// This scheduler after one more iteration has been counted.
    pub open spec fn counted(self) -> SchedulerState {
        SchedulerState {
            counter: if self.tick_due() {
                0
            } else {
                self.counter + 1
            },
            ..self
        }
    }

    /// This scheduler, halted.
    pub open spec fn halted(self) -> SchedulerState {
        SchedulerState { run: RunState::Halted, ..self }
    }
}

/// The key states after one event.
pub open spec fn keys_after_event(keys: Seq<bool>, event: InputEvent) -> Seq<bool> {
    match event {
        InputEvent::KeyDown(k) => if k < keys.len() {
            keys.update(k as int, true)
        } else {
            keys
        },
        InputEvent::KeyUp(k) => if k < keys.len() {
            keys.update(k as int, false)
        } else {
            keys
        },
        InputEvent::Quit => keys,
    }
}

/// The key states after a run of events, applied in order.
pub open spec fn keys_after(keys: Seq<bool>, events: Seq<InputEvent>) -> Seq<bool>
    decreases events.len(),
{
    if events.len() == 0 {
        keys
    } else {
        keys_after_event(keys_after(keys, events.drop_last()), events.last())
    }
}

/// Whether `event` is a transition of the keypad key `k`.
pub open spec fn concerns(event: InputEvent, k: int) -> bool {
    match event {
        InputEvent::KeyDown(key) | InputEvent::KeyUp(key) => key == k,
        InputEvent::Quit => false,
    }
}

/// After a run of events a key is as its last transition left it, and as it
/// was before if the run has no transition of it.
pub proof fn last_transition_wins(keys: Seq<bool>, events: Seq<InputEvent>, k: int)
    requires
        0 <= k < keys.len(),
    ensures
        keys_after(keys, events).len() == keys.len(),
        (forall|i: int| 0 <= i < events.len() ==> !concerns(#[trigger] events[i], k))
            ==> keys_after(keys, events)[k] == keys[k],
        forall|i: int|
            0 <= i < events.len() && concerns(#[trigger] events[i], k) && (forall|j: int|
                i < j < events.len() ==> !concerns(#[trigger] events[j], k)) ==> keys_after(
                keys,
                events,
            )[k] == (events[i] is KeyDown),
    decreases events.len(),
{
    if events.len() > 0 {
        let most = events.drop_last();
        last_transition_wins(keys, most, k);
        assert forall|i: int|
            0 <= i < events.len() && concerns(#[trigger] events[i], k) && (forall|j: int|
                i < j < events.len() ==> !concerns(#[trigger] events[j], k)) implies keys_after(
            keys,
            events,
        )[k] == (events[i] is KeyDown) by {
            if i < most.len() {
                assert(!concerns(events[most.len() as int], k));
                assert(most[i] == events[i]);
                assert forall|j: int| i < j < most.len() implies !concerns(
                    #[trigger] most[j],
                    k,
                ) by {
                    assert(most[j] == events[j]);
                }
            }
        }
        if forall|i: int| 0 <= i < events.len() ==> !concerns(#[trigger] events[i], k) {
            assert forall|i: int| 0 <= i < most.len() implies !concerns(#[trigger] most[i], k) by {
                assert(most[i] == events[i]);
            }
            assert(!concerns(events[most.len() as int], k));
        }
    }
}

/// Whether a quit request is among the events.
pub open spec fn quit_requested(events: Seq<InputEvent>) -> bool {
    exists|i: int| 0 <= i < events.len() && events[i] == InputEvent::Quit
}

/// The machine after the timers have ticked, if a tick is due, and as it is
/// if none is.
pub open spec fn timers_after(s: MachineState, tick: bool) -> MachineState {
    if tick {
        MachineState {
            delay_timer: ticked(s.delay_timer),
            sound_timer: ticked(s.sound_timer),
            ..s
        }
    } else {
        s
    }
}

/// Whether one call of the loop body, given `events` and with `random` as
/// the byte for a random instruction, leads from the scheduler `sched` and
/// the machine `s` to `sched_after`, `after` and the result `r`.
///
/// A halted scheduler does nothing. A running one merges the events into
/// the key states and runs one cycle. If the cycle faults, the scheduler
/// halts with the fault and the timers are left alone. Otherwise the tone
/// signal is taken, the iteration is counted, the timers tick if they are
/// due, and the scheduler halts if a quit request was among the events.
pub open spec fn iterates(
    sched: SchedulerState,
    s: MachineState,
    events: Seq<InputEvent>,
    random: u8,
    sched_after: SchedulerState,
    after: MachineState,
    r: Result<Iteration, Fault>,
) -> bool {
    let sampled = MachineState { keys: keys_after(s.keys, events), ..s };
    let op = current_op(sampled);
    let stepped = next_state(sampled, op, random);
    if sched.run == RunState::Halted {
        sched_after == sched && after == s && r == Ok::<Iteration, Fault>(Iteration::Idle)
    } else {
        match r {
            Err(fault) => {
                &&& fault_of(sampled, op) == Some(fault)
                &&& after == sampled
                &&& sched_after == sched.halted()
            },
            Ok(iteration) => {
                &&& fault_of(sampled, op) is None
                &&& iteration == Iteration::Ran {
                    outcome: outcome_of(sampled, op),
                    tone: stepped.sound_timer > 0,
                }
                &&& after == timers_after(stepped, sched.tick_due())
                &&& sched_after == if quit_requested(events) {
                    sched.counted().halted()
                } else {
                    sched.counted()
                }
            },
        }
    }
}

/// The scheduler and the machine after `n` iterations in which no
/// instruction touches a timer: each is counted, and the timers tick
/// whenever a tick is due.
pub open spec fn after_iterations(sched: SchedulerState, s: MachineState, n: nat) -> (
    SchedulerState,
    MachineState,
)
    decreases n,
{
    if n == 0 {
        (sched, s)
    } else {
        let (p, m) = after_iterations(sched, s, (n - 1) as nat);
        (p.counted(), timers_after(m, p.tick_due()))
    }
}

/// A timer after `ticks` ticks: that much less, and never below zero.
pub open spec fn decayed(timer: u8, ticks: nat) -> u8 {
    if ticks >= timer {
        0
    } else {
        (timer - ticks) as u8
    }
}

/// After `n` iterations each timer has gone down by the number of whole
/// thresholds that the count has passed, stopping at zero, and nothing else
/// in the machine has changed. For a scheduler that starts counting at zero
/// that number is `n / threshold`.
pub proof fn tick_cadence(sched: SchedulerState, s: MachineState, n: nat)
    requires
        sched.valid(),
    ensures
        ({
            let ticks = ((sched.counter + n) / sched.threshold) as nat;
            after_iterations(sched, s, n) == (
                SchedulerState { counter: ((sched.counter + n) % sched.threshold) as nat, ..sched },
                MachineState {
                    delay_timer: decayed(s.delay_timer, ticks),
                    sound_timer: decayed(s.sound_timer, ticks),
                    ..s
                },
            )
        }),
    decreases n,
{
    let th = sched.threshold as int;
    if n == 0 {
        lemma_fundamental_div_mod_converse(sched.counter as int, th, 0, sched.counter as int);
    } else {
        tick_cadence(sched, s, (n - 1) as nat);
        let k = sched.counter + n - 1;
        let q = k / th;
        let r = k % th;
        lemma_fundamental_div_mod(k, th);
        assert(0 <= r < th);
        assert(q >= 0) by (nonlinear_arith)
            requires
                k >= 0,
                th > 0,
                k == th * q + r,
                0 <= r < th,
        ;
        if r + 1 >= th {
            assert(k + 1 == (q + 1) * th + 0) by (nonlinear_arith)
                requires
                    k == th * q + r,
                    r + 1 == th,
            ;
            lemma_fundamental_div_mod_converse(k + 1, th, q + 1, 0);
        } else {
            assert(k + 1 == q * th + (r + 1)) by (nonlinear_arith)
                requires
                    k == th * q + r,
            ;
            lemma_fundamental_div_mod_converse(k + 1, th, q, r + 1);
        }
    }
}

/// Merges the key transitions among `events` into the key states of the
/// machine, in order, and returns whether a quit request is among them. An
/// event for a key that the keypad does not have changes nothing.
pub fn merge_input(machine: &mut Machine, events: &[InputEvent]) -> (quit: bool)
    requires
        old(machine).wf(),
    ensures
        final(machine).wf(),
        final(machine)@ == (MachineState {
            keys: keys_after(old(machine)@.keys, events@),
            ..old(machine)@
        }),
        quit == quit_requested(events@),
{
    let ghost s = machine@;
    let mut quit = false;
    let mut i: usize = 0;
    while i < events.len()
        invariant
            i <= events@.len(),
            s.valid(),
            machine.wf(),
            machine@ == (MachineState { keys: keys_after(s.keys, events@.take(i as int)), ..s }),
            quit == quit_requested(events@.take(i as int)),
        decreases events@.len() - i,
    {
        let ghost before = events@.take(i as int);
        let ghost now = events@.take(i + 1);
        proof {
            assert(now.drop_last() =~= before);
            assert(now.last() == events@[i as int]);
            if quit_requested(before) {
                let w = choose|w: int| 0 <= w < before.len() && before[w] == InputEvent::Quit;
                assert(now[w] == InputEvent::Quit);
            }
            if quit_requested(now) && events@[i as int] != InputEvent::Quit {
                let w = choose|w: int| 0 <= w < now.len() && now[w] == InputEvent::Quit;
                assert(before[w] == InputEvent::Quit);
            }
            if events@[i as int] == InputEvent::Quit {
                assert(now[i as int] == InputEvent::Quit);
            }
        }
        match events[i] {
            InputEvent::Quit => {
                quit = true;
            },
            InputEvent::KeyDown(k) => {
                if (k as usize) < KEY_COUNT {
                    machine.set_key(k, true);
                }
            },
            InputEvent::KeyUp(k) => {
                if (k as usize) < KEY_COUNT {
                    machine.set_key(k, false);
                }
            },
        }
        i += 1;
    }
    assert(events@.take(events@.len() as int) =~= events@);
    quit
}

/// Drives the loop: counts iterations, ticks the timers every `threshold`
/// iterations, and halts on a quit request or a fault.
#[derive(Clone, Debug)]
pub struct Scheduler {
    run: RunState,
    counter: u32,
    threshold: u32,
}

impl View for Scheduler {
    type V = SchedulerState;

    closed spec fn view(&self) -> SchedulerState {
        SchedulerState {
            run: self.run,
            counter: self.counter as nat,
            threshold: self.threshold as nat,
        }
    }
}

impl Scheduler {
    /// The state is valid.
    pub open spec fn wf(&self) -> bool {
        self@.valid()
    }

    /// A running scheduler that ticks the timers on every `threshold`-th
    /// iteration.
    pub fn new(threshold: u32) -> (sched: Scheduler)
        requires
            threshold >= 1,
        ensures
            sched.wf(),
            sched@ == (SchedulerState {
                run: RunState::Running,
                counter: 0,
                threshold: threshold as nat,
            }),
    {
        Scheduler { run: RunState::Running, counter: 0, threshold }
    }

    /// Whether the loop goes on.
    pub fn state(&self) -> (run: RunState)
        ensures
            run == self@.run,
    {
        self.run
    }

    /// Iterations counted since the last tick.
    pub fn counter(&self) -> (n: u32)
        ensures
            n == self@.counter,
    {
        self.counter
    }

    /// Iterations between two ticks.
    pub fn threshold(&self) -> (n: u32)
        ensures
            n == self@.threshold,
    {
        self.threshold
    }

    /// Ends the loop.
    pub fn halt(&mut self)
        requires
            old(self).wf(),
        ensures
            final(self).wf(),
            final(self)@ == old(self)@.halted(),
    {
        self.run = RunState::Halted;
    }

    /// Counts one iteration and, when the count reaches the threshold,
    /// ticks both timers and starts counting anew.
    pub fn count_iteration(&mut self, machine: &mut Machine)
        requires
            old(self).wf(),
            old(machine).wf(),
        ensures
            final(self).wf(),
            final(machine).wf(),
            final(self)@ == old(self)@.counted(),
            final(machine)@ == timers_after(old(machine)@, old(self)@.tick_due()),
    {
        if self.counter + 1 >= self.threshold {
            machine.tick_timers();
            self.counter = 0;
        } else {
            self.counter = self.counter + 1;
        }
    }
    /// Runs one iteration of the loop with `random` as the byte for a
    /// random instruction: merges `events` into the key states, runs one
    /// cycle, counts the iteration and ticks the timers when due.
    pub fn iterate_with(&mut self, machine: &mut Machine, events: &[InputEvent], random: u8) -> (r:
        Result<Iteration, Fault>)
        requires
            old(self).wf(),
            old(machine).wf(),
        ensures
            final(self).wf(),
            final(machine).wf(),
            iterates(
                old(self)@,
                old(machine)@,
                events@,
                random,
                final(self)@,
                final(machine)@,
                r,
            ),
    {
        if self.run == RunState::Halted {
            return Ok(Iteration::Idle);
        }
        let quit: bool = merge_input(machine, events);
        let stepped = machine.step_with(random);
        self.conclude(machine, quit, stepped)
    }

    /// Runs one iteration of the loop. A random instruction draws its byte
    /// from the system's generator, so the iteration is that of
    /// `iterate_with` for some byte.
    pub fn iterate(&mut self, machine: &mut Machine, events: &[InputEvent]) -> (r: Result<
        Iteration,
        Fault,
    >)
        requires
            old(self).wf(),
            old(machine).wf(),
        ensures
            final(self).wf(),
            final(machine).wf(),
            exists|random: u8|
                iterates(
                    old(self)@,
                    old(machine)@,
                    events@,
                    random,
                    final(self)@,
                    final(machine)@,
                    r,
                ),
    {
        let ghost sched = self@;
        let ghost s = machine@;
        if self.run == RunState::Halted {
            assert(iterates(sched, s, events@, 0, self@, machine@, Ok(Iteration::Idle)));
            return Ok(Iteration::Idle);
        }
        let quit: bool = merge_input(machine, events);
        let ghost sampled = machine@;
        let stepped = machine.step();
        let ghost random = choose|random: u8|
            executes(sampled, current_op(sampled), random, machine@, stepped);
        let r = self.conclude(machine, quit, stepped);
        assert(iterates(sched, s, events@, random, self@, machine@, r));
        r
    }

    /// Ends an iteration whose cycle returned `stepped`: halts on a fault,
    /// and otherwise takes the tone signal, counts the iteration and halts
    /// if `quit` holds.
    fn conclude(&mut self, machine: &mut Machine, quit: bool, stepped: Result<Outcome, Fault>) -> (r:
        Result<Iteration, Fault>)
        requires
            old(self).wf(),
            old(machine).wf(),
        ensures
            final(self).wf(),
            final(machine).wf(),
            match stepped {
                Err(fault) => {
                    &&& r == Err::<Iteration, Fault>(fault)
                    &&& final(machine)@ == old(machine)@
                    &&& final(self)@ == old(self)@.halted()
                },
                Ok(outcome) => {
                    &&& r == Ok::<Iteration, Fault>(
                        Iteration::Ran { outcome, tone: old(machine)@.sound_timer > 0 },
                    )
                    &&& final(machine)@ == timers_after(old(machine)@, old(self)@.tick_due())
                    &&& final(self)@ == if quit {
                        old(self)@.counted().halted()
                    } else {
                        old(self)@.counted()
                    }
                },
            },
    {
        match stepped {
            Err(fault) => {
                self.halt();
                Err(fault)
            },
            Ok(outcome) => {
                let tone: bool = machine.tone_active();
                self.count_iteration(machine);
                if quit {
                    self.halt();
                }
                Ok(Iteration::Ran { outcome, tone })
            },
        }
    }
}

} // verus!
