//! The board between two steps of its CPU.
//!
//! The CPU engine is not part of this crate. Whoever drives it steps it
//! once, reports to [`Emulator::step`] how many cycles the step took and
//! whether the CPU now offers a byte at an output port or waits for one at
//! an input port, and carries out what comes back: the byte for the CPU,
//! the sounds to start or stop, the interrupt to raise, and whether a
//! batch of steps is complete, so that it is time to hold emulated time
//! against the host's clock.

use crate::clock::{emulated_nanos, emulated_time, pace, wrapped, Clock, Interrupt, Pace};
use crate::inputs::{InputLatches, LatchBytes};
use crate::shift_register::{ShiftRegister, ShiftState};
use crate::sound::{
    bank_a_events, bank_b_events, decode_bank_a, decode_bank_b, lemma_same_byte_is_silent,
    SoundEvent, SpaceInvadersAudioOutput1, SpaceInvadersAudioOutput2,
};
use vstd::prelude::*;

verus! {

/// Output port: the shift amount.
pub const PORT_SHIFT_AMOUNT: u8 = 2;

/// Output port: sound bank A.
pub const PORT_SOUND_A: u8 = 3;

/// Output port: a byte for the shift register.
pub const PORT_SHIFT_DATA: u8 = 4;

/// Output port: sound bank B.
pub const PORT_SOUND_B: u8 = 5;

/// Output port: the watchdog. A write to it has no effect.
pub const PORT_WATCHDOG: u8 = 6;

/// Input port: the shift register's window. Input ports 0, 1 and 2 are
/// the three input latches.
pub const PORT_SHIFT_RESULT: u8 = 3;

/// What the CPU asks of the board after a step.
#[derive(Clone, Copy, PartialEq, Eq, Debug, Structural)]
pub enum IoRequest {
    /// Nothing.
    Idle,
    /// It offers `value` at output port `port`.
    Output { port: u8, value: u8 },
    /// It waits for a byte at input port `port`.
    Input { port: u8 },
}

/// What an [`Emulator`] holds.
pub struct EmulatorState {
    /// The shift-register chip.
    pub shift: ShiftState,
    /// The byte written last to sound bank A, zero before the first write.
    pub audio1: u8,
    /// The byte written last to sound bank B, zero before the first write.
    pub audio2: u8,
    /// Emulated time and the interrupts' marks.
    pub clock: Clock,
    /// Nanoseconds of one CPU cycle.
    pub cycle_nanos: u64,
    /// Steps of one batch.
    pub batch_steps: u32,
    /// Steps that the running batch still has to take.
    pub steps_left: u32,
    /// CPU cycles of the running batch so far.
    pub batch_cycles: u64,
}

impl EmulatorState {
    /// The state at the start.
    pub open spec fn start(cycle_nanos: u64, batch_steps: u32) -> EmulatorState {
        EmulatorState {
            shift: ShiftState { register: 0, amount: 0 },
            audio1: 0,
            audio2: 0,
            clock: Clock::start(),
            cycle_nanos,
            batch_steps,
            steps_left: batch_steps,
            batch_cycles: 0,
        }
    }

    /// The state after the CPU wrote `value` to output port `port`. A port
    /// that the board does not have takes the byte and does nothing.
    pub open spec fn after_output(self, port: u8, value: u8) -> EmulatorState {
        if port == PORT_SHIFT_AMOUNT {
            EmulatorState { shift: self.shift.with_amount(value), ..self }
        } else if port == PORT_SHIFT_DATA {
            EmulatorState { shift: self.shift.fed(value), ..self }
        } else if port == PORT_SOUND_A {
            EmulatorState { audio1: value, ..self }
        } else if port == PORT_SOUND_B {
            EmulatorState { audio2: value, ..self }
        } else {
            self
        }
    }

    /// The sound events of a write of `value` to output port `port`.
    pub open spec fn sounds_of_output(self, port: u8, value: u8) -> Seq<SoundEvent> {
        if port == PORT_SOUND_A {
            bank_a_events(self.audio1, value)
        } else if port == PORT_SOUND_B {
            bank_b_events(self.audio2, value)
        } else {
            Seq::empty()
        }
    }

    /// The byte that the CPU reads at input port `port`: a latch, the
    /// shift register's window, or zero at a port that the board does not
    /// have.
    pub open spec fn input_byte(self, port: u8, latches: LatchBytes) -> u8 {
        match latches.port_byte(port) {
            Some(byte) => byte,
            None => if port == PORT_SHIFT_RESULT {
                self.shift.window()
            } else {
                0
            },
        }
    }

    /// The state after the request of the CPU was served.
    pub open spec fn after_io(self, io: IoRequest) -> EmulatorState {
        match io {
            IoRequest::Output { port, value } => self.after_output(port, value),
            _ => self,
        }
    }

    /// The sound events of serving the request of the CPU.
    pub open spec fn sounds_of(self, io: IoRequest) -> Seq<SoundEvent> {
        match io {
            IoRequest::Output { port, value } => self.sounds_of_output(port, value),
            _ => Seq::empty(),
        }
    }

    /// The byte for the CPU, where it waits for one.
    pub open spec fn answer(self, io: IoRequest, latches: LatchBytes) -> Option<u8> {
        match io {
            IoRequest::Input { port } => Some(self.input_byte(port, latches)),
            _ => None,
        }
    }

    /// Whether the step that is taken in this state completes a batch.
    pub open spec fn completes_batch(self) -> bool {
        self.steps_left <= 1
    }

    /// The interrupt that a step of `cycles` cycles raises.
    pub open spec fn interrupt_of(self, cycles: u64) -> Option<Interrupt> {
        self.clock.due(emulated_time(cycles, self.cycle_nanos))
    }

    /// The state after a step of `cycles` cycles that left the CPU with
    /// the request `io`.
    pub open spec fn stepped(self, cycles: u64, io: IoRequest) -> EmulatorState {
        let served = self.after_io(io);
        EmulatorState {
            clock: self.clock.advanced(emulated_time(cycles, self.cycle_nanos)),
            steps_left: if self.completes_batch() {
                self.batch_steps
            } else {
                (self.steps_left - 1) as u32
            },
            batch_cycles: wrapped(self.batch_cycles + cycles),
            ..served
        }
    }

    /// The emulated nanoseconds of the running batch.
    pub open spec fn batch_time(self) -> u64 {
        emulated_time(self.batch_cycles, self.cycle_nanos)
    }

    /// The state at the start of the next batch.
    pub open spec fn batch_finished(self) -> EmulatorState {
        EmulatorState { batch_cycles: 0, ..self }
    }
}

/// A byte written to a sound port a second time in a row starts and stops
/// nothing, whatever was written before the two writes.
pub proof fn lemma_repeated_write_is_silent(state: EmulatorState, port: u8, value: u8)
    ensures
        state.after_output(port, value).sounds_of_output(port, value) == Seq::<
            SoundEvent,
        >::empty(),
{
    lemma_same_byte_is_silent(value);
}

/// What a step does to emulated time depends on the clock and the cycles
/// alone, not on the request of the CPU.
pub proof fn lemma_time_ignores_io(state: EmulatorState, cycles: u64, io: IoRequest, other: IoRequest)
    ensures
        state.stepped(cycles, io).clock == state.stepped(cycles, other).clock,
        state.stepped(cycles, io).clock == state.clock.advanced(
            emulated_time(cycles, state.cycle_nanos),
        ),
        state.stepped(cycles, io).cycle_nanos == state.cycle_nanos,
{
}

/// What the driver of the CPU is to do after a step.
pub struct StepOutcome {
    /// The byte to hand to the CPU, where it waits for one.
    pub input: Option<u8>,
    /// The sounds to start or stop, in this order.
    pub sounds: Vec<SoundEvent>,
    /// The interrupt to raise. With the end-of-frame interrupt the frame
    /// is to be shown.
    pub interrupt: Option<Interrupt>,
    /// Whether this step was the last of its batch.
    pub batch_done: bool,
}

/// The board's chips and clock.
pub struct Emulator {
    shift_register: ShiftRegister,
    last_audio1: SpaceInvadersAudioOutput1,
    last_audio2: SpaceInvadersAudioOutput2,
    clock: Clock,
    cycle_nanos: u64,
    batch_steps: u32,
    steps_left: u32,
    batch_cycles: u64,
}

impl View for Emulator {
    type V = EmulatorState;

    closed spec fn view(&self) -> EmulatorState {
        EmulatorState {
            shift: self.shift_register@,
            audio1: self.last_audio1@,
            audio2: self.last_audio2@,
            clock: self.clock,
            cycle_nanos: self.cycle_nanos,
            batch_steps: self.batch_steps,
            steps_left: self.steps_left,
            batch_cycles: self.batch_cycles,
        }
    }
}

impl Emulator {
    /// The board at power-on, for a CPU whose cycle takes `cycle_nanos`
    /// nanoseconds, paced after every `batch_steps` steps.
    pub fn new(cycle_nanos: u64, batch_steps: u32) -> (emulator: Emulator)
        ensures
            emulator@ == EmulatorState::start(cycle_nanos, batch_steps),
    {
        Emulator {
            shift_register: ShiftRegister::new(),
            last_audio1: SpaceInvadersAudioOutput1::new(),
            last_audio2: SpaceInvadersAudioOutput2::new(),
            clock: Clock::new(),
            cycle_nanos,
            batch_steps,
            steps_left: batch_steps,
            batch_cycles: 0,
        }
    }

    /// The emulated time and the interrupts' marks.
    pub fn clock(&self) -> (clock: Clock)
        ensures
            clock == self@.clock,
    {
        self.clock
    }

    /// The shift-register chip.
    pub fn shift_register(&self) -> (chip: &ShiftRegister)
        ensures
            chip@ == self@.shift,
    {
        &self.shift_register
    }

    /// Takes the byte that the CPU offers at output port `port` and
    /// returns the sounds that it starts or stops.
    pub fn write_port(&mut self, port: u8, value: u8) -> (sounds: Vec<SoundEvent>)
        ensures
            final(self)@ == old(self)@.after_output(port, value),
            sounds@ == old(self)@.sounds_of_output(port, value),
    {
        if port == PORT_SHIFT_AMOUNT {
            self.shift_register.input_amount(value);
            Vec::new()
        } else if port == PORT_SOUND_A {
            let audio1 = SpaceInvadersAudioOutput1::from_bytes([value]);
            let sounds = decode_bank_a(&self.last_audio1, &audio1);
            self.last_audio1 = audio1;
            sounds
        } else if port == PORT_SHIFT_DATA {
            self.shift_register.input_data(value);
            Vec::new()
        } else if port == PORT_SOUND_B {
            let audio2 = SpaceInvadersAudioOutput2::from_bytes([value]);
            let sounds = decode_bank_b(&self.last_audio2, &audio2);
            self.last_audio2 = audio2;
            sounds
        } else {
            Vec::new()
        }
    }

    /// The byte that the CPU reads at input port `port`.
    pub fn read_port(&self, port: u8, inputs: &InputLatches) -> (byte: u8)
        ensures
            byte == self@.input_byte(port, inputs@),
    {
        match inputs.read(port) {
            Some(byte) => byte,
            None => if port == PORT_SHIFT_RESULT {
                self.shift_register.output()
            } else {
                0
            },
        }
    }

    /// Follows one step of the CPU: serves its request, lets the emulated
    /// time of `cycles` cycles pass and says what is to be done.
    pub fn step(
        &mut self,
        cycles: u64,
        io: IoRequest,
        inputs: &InputLatches,
    ) -> (outcome: StepOutcome)
        ensures
            final(self)@ == old(self)@.stepped(cycles, io),
            outcome.input == old(self)@.answer(io, inputs@),
            outcome.sounds@ == old(self)@.sounds_of(io),
            outcome.interrupt == old(self)@.interrupt_of(cycles),
            outcome.batch_done == old(self)@.completes_batch(),
    {
        let mut input: Option<u8> = None;
        let mut sounds: Vec<SoundEvent> = Vec::new();
        match io {
            IoRequest::Output { port, value } => {
                sounds = self.write_port(port, value);
            },
            IoRequest::Input { port } => {
                input = Some(self.read_port(port, inputs));
            },
            IoRequest::Idle => {},
        }
        let interrupt = self.clock.advance(emulated_nanos(cycles, self.cycle_nanos));
        self.batch_cycles = self.batch_cycles.wrapping_add(cycles);
        let batch_done: bool = self.steps_left <= 1;
        if batch_done {
            self.steps_left = self.batch_steps;
        } else {
            self.steps_left = self.steps_left - 1;
        }
        StepOutcome { input, sounds, interrupt, batch_done }
    }

    /// Ends a batch of steps that took the host `elapsed_nanos`
    /// nanoseconds: says how long to wait so that emulated time does not
    /// run ahead of the host's, and starts counting the next batch.
    pub fn finish_batch(&mut self, elapsed_nanos: u128) -> (pace: Pace)
        ensures
            final(self)@ == old(self)@.batch_finished(),
            old(self)@.batch_time() > elapsed_nanos ==> pace == (Pace::Sleep {
                nanos: (old(self)@.batch_time() - elapsed_nanos) as u64,
            }),
            old(self)@.batch_time() <= elapsed_nanos ==> pace == Pace::Overrun,
    {
        let emulated: u64 = emulated_nanos(self.batch_cycles, self.cycle_nanos);
        self.batch_cycles = 0;
        pace(emulated, elapsed_nanos)
    }
}

} // verus!
