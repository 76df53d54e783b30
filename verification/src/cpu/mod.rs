pub mod addressing_mode;
pub mod bus_access;
pub mod execute;
pub mod flags;
pub mod instructions;
pub mod effects;
pub mod laws;
pub mod layout;
pub mod opcodes;

use vstd::prelude::*;

use crate::NesError;
use bus_access::Bus;
use execute::instruction_valid;
use flags::{Flag, flag_mask};
use opcodes::{Operation, decode, decode_spec};

verus! {

pub const NMI_VECTOR: u16 = 0xFFFA;
pub const RESET_VECTOR: u16 = 0xFFFC;
pub const STACK_POINTER_INIT: u8 = 0xFD;

/// The number of instructions after which `run_until_break` gives up.
pub const MAX_STEPS: u64 = 0xFFFF_FFFF_FFFF_FFFF;

/// The part of the system that runs in step with the CPU clock, and the NMI
/// line that the CPU samples at instruction boundaries.
pub trait Clock: Bus {
    /// Whether a tick of `cycles` raises the NMI line (VBlank starts).
    spec fn tick_edge(&self, cycles: u8) -> bool;

    /// The state after `cycles` CPU cycles.
    spec fn after_tick(&self, cycles: u8) -> Self;

    /// Whether an NMI is pending.
    spec fn nmi_status(&self) -> bool;

    /// The state after the pending NMI has been read and cleared.
    spec fn after_poll_nmi(&self) -> Self;

    /// Advances the system by `cycles` CPU cycles; true when the NMI line
    /// rose during the tick.
    fn tick(&mut self, cycles: u8) -> (nmi_edge: bool)
        ensures
            nmi_edge == old(self).tick_edge(cycles),
            *final(self) == old(self).after_tick(cycles),
    ;

    /// Reads whether an NMI is pending and clears it.
    fn poll_nmi_status(&mut self) -> (nmi: bool)
        ensures
            nmi == old(self).nmi_status(),
            *final(self) == old(self).after_poll_nmi(),
    ;
}

/// The host's part of a run: called at each frame boundary with the bus, to
/// draw the frame and read the controllers; false stops the run.
pub trait FrameHandler<B>: Sized {
    /// What one call may do: handed `bus`, the handler becomes `after`,
    /// leaves `bus_after` and answers `go_on`.  A handler that states
    /// nothing may do anything.
    open spec fn handled(&self, bus: B, after: Self, bus_after: B, go_on: bool) -> bool {
        true
    }

    fn on_frame(&mut self, bus: &mut B) -> (go_on: bool)
        ensures
            old(self).handled(*old(bus), *final(self), *final(bus), go_on),
    ;
}

/// A host that lets every frame go by: it leaves the bus as it is and
/// answers true.
pub struct PassiveHost;

impl<B> FrameHandler<B> for PassiveHost {
    open spec fn handled(&self, bus: B, after: Self, bus_after: B, go_on: bool) -> bool {
        bus_after == bus && go_on
    }

    fn on_frame(&mut self, bus: &mut B) -> (go_on: bool) {
        true
    }
}

/// Why a run stopped without an error.
#[derive(Debug, Clone, Copy, PartialEq, Eq, Structural)]
pub enum ExitReason {
    /// A BRK instruction was reached.
    Break,
    /// The host asked the run to stop at a frame boundary.
    Halted,
}

/// What one instruction step ended with.
#[derive(Debug, Clone, Copy, PartialEq, Eq, Structural)]
pub enum StepOutcome {
    /// The instruction ran; no frame boundary.
    Running,
    /// The instruction ran and its clock raised the NMI line: VBlank began,
    /// and the host may draw the frame and read its input.
    Frame,
    /// The opcode was BRK; nothing ran.
    Break,
}

/// A 6502 core wired to a bus.
pub struct Cpu<B: Bus> {
    pub register_a: u8,
    pub register_x: u8,
    pub register_y: u8,
    pub processor_status: u8,
    pub stack_pointer: u8,
    pub program_counter: u16,
    pub bus: B,
}

impl<B: Bus> Cpu<B> {
    /// The power-on state: registers and status cleared, the stack pointer
    /// at 0xFD and the program counter loaded from the reset vector.
    pub open spec fn reset_post(self) -> Self {
        let cleared = Cpu {
            register_a: 0,
            register_x: 0,
            register_y: 0,
            processor_status: 0,
            stack_pointer: STACK_POINTER_INIT,
            ..self
        };
        let (s, pc) = cleared.peek_word_post(RESET_VECTOR);
        Cpu { program_counter: pc, ..s }
    }

    pub fn new(bus: B) -> (cpu: Self)
        ensures
            cpu == (Cpu {
                register_a: 0,
                register_x: 0,
                register_y: 0,
                processor_status: 0,
                stack_pointer: 0,
                program_counter: 0,
                bus,
            }).reset_post(),
    {
        let mut cpu = Cpu {
            register_a: 0,
            register_x: 0,
            register_y: 0,
            processor_status: 0,
            stack_pointer: 0,
            program_counter: 0,
            bus,
        };
        cpu.reset();
        cpu
    }

    pub fn reset(&mut self)
        ensures
            *final(self) == old(self).reset_post(),
    {
        self.register_a = 0;
        self.register_x = 0;
        self.register_y = 0;
        self.processor_status = 0;
        self.stack_pointer = STACK_POINTER_INIT;
        self.program_counter = self.peek_word(RESET_VECTOR);
    }
}

/// The status byte that an interrupt pushes: B clear, the always-set bit set.
pub open spec fn interrupt_status(status: u8) -> u8 {
    (status & !flag_mask(Flag::Break)) | flag_mask(Flag::AlwaysSet)
}

impl<B: Clock> Cpu<B> {
    /// NMI: push PC and the status, set I, spend two cycles and jump through
    /// the NMI vector.
    pub open spec fn interrupt_nmi_post(self) -> Self {
        let s1 = self.push_word_post(self.program_counter);
        let s2 = s1.push_byte_post(interrupt_status(s1.processor_status));
        let s3 = s2.flag_post(Flag::InterruptDisable, true);
        let s4 = Cpu { bus: s3.bus.after_tick(2), ..s3 };
        let (s5, pc) = s4.peek_word_post(NMI_VECTOR);
        Cpu { program_counter: pc, ..s5 }
    }

    /// One pass of the run loop: serve a pending NMI, fetch and decode an
    /// opcode, stop at BRK or at an unknown opcode, else run it and advance
    /// the clock by its cycles.
    pub open spec fn step_post(self) -> (Self, Result<StepOutcome, NesError>) {
        let polled = Cpu { bus: self.bus.after_poll_nmi(), ..self };
        let s0 = if self.bus.nmi_status() {
            polled.interrupt_nmi_post()
        } else {
            polled
        };
        let (s1, opcode) = s0.fetch_byte_post();
        match decode_spec(opcode) {
            None => (s1, Err(NesError::UnknownOpcode { opcode, pc: s0.program_counter })),
            Some(instruction) => {
                if instruction.operation == Operation::Brk {
                    (s1, Ok(StepOutcome::Break))
                } else {
                    let s2 = s1.execute_post(instruction);
                    let edge = s2.bus.tick_edge(instruction.cycles);
                    (
                        Cpu { bus: s2.bus.after_tick(instruction.cycles), ..s2 },
                        Ok(
                            if edge {
                                StepOutcome::Frame
                            } else {
                                StepOutcome::Running
                            },
                        ),
                    )
                }
            },
        }
    }

    /// At most `fuel` steps, stopping at BRK or at an error.
    pub open spec fn run_until_break_post(self, fuel: nat) -> (Self, Result<(), NesError>)
        decreases fuel,
    {
        if fuel == 0 {
            (self, Ok(()))
        } else {
            let (s, r) = self.step_post();
            match r {
                Err(e) => (s, Err(e)),
                Ok(StepOutcome::Break) => (s, Ok(())),
                Ok(_) => s.run_until_break_post((fuel - 1) as nat),
            }
        }
    }

    pub fn interrupt_nmi(&mut self)
        ensures
            *final(self) == old(self).interrupt_nmi_post(),
    {
        self.push_word(self.program_counter);
        let flags = (self.processor_status & !Flag::Break.mask()) | Flag::AlwaysSet.mask();
        self.push_byte(flags);
        self.set_flag(Flag::InterruptDisable, true);
        self.bus.tick(2);
        self.program_counter = self.peek_word(NMI_VECTOR);
    }

    pub fn step(&mut self) -> (outcome: Result<StepOutcome, NesError>)
        ensures
            (*final(self), outcome) == old(self).step_post(),
    {
        if self.bus.poll_nmi_status() {
            self.interrupt_nmi();
        }
        let opcode_pc = self.program_counter;
        let opcode = self.fetch_byte();
        match decode(opcode) {
            None => Err(NesError::UnknownOpcode { opcode, pc: opcode_pc }),
            Some(instruction) => {
                if let Operation::Brk = instruction.operation {
                    Ok(StepOutcome::Break)
                } else {
                    assert(instruction_valid(instruction));
                    self.execute(instruction);
                    if self.bus.tick(instruction.cycles) {
                        Ok(StepOutcome::Frame)
                    } else {
                        Ok(StepOutcome::Running)
                    }
                }
            },
        }
    }

    /// The same CPU wired to another bus.
    pub open spec fn with_bus(self, bus: B) -> Self {
        Cpu { bus, ..self }
    }

    /// A run of at most `fuel` steps from this state with `handler` as the
    /// host, given what the host's calls did: at the `k`-th frame boundary
    /// the handler is handed the bus that the frame's step left, and
    /// `host[k]` is the handler afterwards, the bus it left and its answer,
    /// which the handler's `handled` must allow.  The result is the final
    /// state, the final handler and the run's result, or `None` when `host`
    /// does not list exactly such calls for the frames of the run.
    pub open spec fn run_post<H: FrameHandler<B>>(
        self,
        handler: H,
        host: Seq<(H, B, bool)>,
        fuel: nat,
    ) -> Option<(Self, H, Result<ExitReason, NesError>)>
        decreases fuel,
    {
        if fuel == 0 {
            if host.len() == 0 {
                Some((self, handler, Ok(ExitReason::Halted)))
            } else {
                None
            }
        } else {
            let (s, r) = self.step_post();
            match r {
                Err(e) => if host.len() == 0 {
                    Some((s, handler, Err(e)))
                } else {
                    None
                },
                Ok(StepOutcome::Break) => if host.len() == 0 {
                    Some((s, handler, Ok(ExitReason::Break)))
                } else {
                    None
                },
                Ok(StepOutcome::Running) => s.run_post(handler, host, (fuel - 1) as nat),
                Ok(StepOutcome::Frame) => if host.len() == 0 || !handler.handled(
                    s.bus,
                    host[0].0,
                    host[0].1,
                    host[0].2,
                ) {
                    None
                } else if !host[0].2 {
                    if host.len() == 1 {
                        Some((s.with_bus(host[0].1), host[0].0, Ok(ExitReason::Halted)))
                    } else {
                        None
                    }
                } else {
                    s.with_bus(host[0].1).run_post(host[0].0, host.drop_first(), (fuel - 1) as nat)
                },
            }
        }
    }

    /// Runs the program: steps until BRK (`Ok(Break)`) or an unknown opcode
    /// (`Err`), handing the bus to `handler` at every frame boundary (each
    /// step whose clock raised the NMI line); when the handler answers false
    /// the run stops with `Ok(Halted)`, as it does after `MAX_STEPS`
    /// instructions.  The run is the one that `run_post` describes for some
    /// list of handler calls, each one that the handler's `handled` allows
    /// from the handler and the bus it was given.
    pub fn run<H: FrameHandler<B>>(&mut self, handler: &mut H) -> (result: Result<
        ExitReason,
        NesError,
    >)
        ensures
            exists|host: Seq<(H, B, bool)>|
                #[trigger] old(self).run_post(*old(handler), host, MAX_STEPS as nat) == Some(
                    (*final(self), *final(handler), result),
                ),
    {
        let mut fuel: u64 = MAX_STEPS;
        let ghost mut host: Seq<(H, B, bool)> = Seq::empty();
        while fuel > 0
            invariant
                forall|rest: Seq<(H, B, bool)>|
                    old(self).run_post(*old(handler), host + rest, MAX_STEPS as nat)
                        == #[trigger] self.run_post(*handler, rest, fuel as nat),
            decreases fuel,
        {
            let ghost before = *self;
            let ghost h0 = *handler;
            let ghost done = host;
            let outcome = self.step();
            match outcome {
                Err(e) => {
                    proof {
                        assert(done + Seq::<(H, B, bool)>::empty() =~= done);
                        assert(before.run_post(h0, Seq::empty(), fuel as nat) == Some(
                            (*self, h0, Err::<ExitReason, NesError>(e)),
                        ));
                    }
                    return Err(e);
                },
                Ok(StepOutcome::Break) => {
                    proof {
                        assert(done + Seq::<(H, B, bool)>::empty() =~= done);
                        assert(before.run_post(h0, Seq::empty(), fuel as nat) == Some(
                            (*self, h0, Ok::<ExitReason, NesError>(ExitReason::Break)),
                        ));
                    }
                    return Ok(ExitReason::Break);
                },
                Ok(StepOutcome::Frame) => {
                    let ghost stepped = *self;
                    let go_on = handler.on_frame(&mut self.bus);
                    let ghost entry = (*handler, self.bus, go_on);
                    proof {
                        assert(*self == stepped.with_bus(self.bus));
                        assert(h0.handled(stepped.bus, entry.0, entry.1, entry.2));
                    }
                    if !go_on {
                        proof {
                            assert(before.run_post(h0, seq![entry], fuel as nat) == Some(
                                (*self, *handler, Ok::<ExitReason, NesError>(ExitReason::Halted)),
                            ));
                            assert(old(self).run_post(*old(handler), done + seq![entry], MAX_STEPS as nat)
                                == before.run_post(h0, seq![entry], fuel as nat));
                        }
                        return Ok(ExitReason::Halted);
                    }
                    proof {
                        host = done.push(entry);
                        assert forall|rest: Seq<(H, B, bool)>|
                            old(self).run_post(*old(handler), host + rest, MAX_STEPS as nat)
                                == #[trigger] self.run_post(*handler, rest, (fuel - 1) as nat) by {
                            let longer = seq![entry] + rest;
                            assert(longer.drop_first() =~= rest);
                            assert(done + longer =~= host + rest);
                            assert(old(self).run_post(*old(handler), done + longer, MAX_STEPS as nat)
                                == before.run_post(h0, longer, fuel as nat));
                        }
                    }
                },
                Ok(StepOutcome::Running) => {
                    proof {
                        assert forall|rest: Seq<(H, B, bool)>|
                            old(self).run_post(*old(handler), host + rest, MAX_STEPS as nat)
                                == #[trigger] self.run_post(*handler, rest, (fuel - 1) as nat) by {
                            assert(old(self).run_post(*old(handler), host + rest, MAX_STEPS as nat)
                                == before.run_post(h0, rest, fuel as nat));
                        }
                    }
                },
            }
            fuel = fuel - 1;
        }
        proof {
            assert(host + Seq::<(H, B, bool)>::empty() =~= host);
            assert(old(self).run_post(*old(handler), host + Seq::empty(), MAX_STEPS as nat)
                == self.run_post(*handler, Seq::empty(), 0));
        }
        Ok(ExitReason::Halted)
    }

    /// Runs until a BRK instruction or an unknown opcode, for programs that
    /// need no host at frame boundaries: `run` with a host that lets every
    /// frame go by.  It gives up with `Ok(())` after `MAX_STEPS` instructions.
    pub fn run_until_break(&mut self) -> (result: Result<(), NesError>)
        ensures
            (*final(self), result) == old(self).run_until_break_post(MAX_STEPS as nat),
    {
        let mut host = PassiveHost;
        let outcome = self.run(&mut host);
        proof {
            crate::cpu::laws::law_run_until_break_is_run(*old(self), MAX_STEPS as nat);
            let calls = choose|calls: Seq<(PassiveHost, B, bool)>|
                #[trigger] old(self).run_post(PassiveHost, calls, MAX_STEPS as nat) == Some(
                    (*self, host, outcome),
                );
            assert(old(self).run_post(PassiveHost, calls, MAX_STEPS as nat) is Some);
        }
        match outcome {
            Ok(_) => {
                proof {
                    let r = old(self).run_until_break_post(MAX_STEPS as nat).1;
                    assert(r is Ok);
                    assert(r == Ok::<(), NesError>(()));
                }
                Ok(())
            },
            Err(e) => Err(e),
        }
    }
}

} // verus!
