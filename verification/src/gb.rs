//! The console as a whole: one step of the interpreter, and the frame
//! driver that steps it until a frame is complete.

use crate::exec::{clear, Step, Ticks, Trap};
use crate::host::{GbError, Host};
use crate::interrupt::{any_pending, dispatch, spec_any_pending, spec_dispatch};
use crate::state::{Gb, GbView, IO_IE, IO_IF};
use vstd::prelude::*;

verus! {

/// The steps after which the frame driver gives up on a frame.  With the
/// LCD on, every step moves the line counter by at least one cycle, so a
/// frame of 70224 cycles is complete before that many steps.
pub const FRAME_STEP_LIMIT: u32 = 70224;

/// How a run of the frame driver ended.
#[derive(Clone, Copy, Debug, PartialEq, Eq, Structural)]
pub enum FrameEnd {
    /// The renderer entered vertical blank: a frame is complete.
    Complete,
    /// The step limit was reached with no frame complete, as happens while
    /// the program keeps the LCD off.
    Stalled,
}

/// The model of a run of the frame driver: the console after it, and the
/// trap that ended it, if one did.
pub struct Run {
    pub state: GbView,
    pub trap: Trap,
}

/// Whether `log` begins with `polls`.
pub open spec fn extends(log: Seq<Option<u8>>, polls: Seq<Option<u8>>) -> bool {
    polls.len() <= log.len() && forall|i: int| 0 <= i < polls.len() ==> log[i] == polls[i]
}

/// What the frame driver returns for a run.
pub open spec fn frame_result(run: Run) -> Result<FrameEnd, GbError> {
    match run.trap {
        Trap::Clear => if run.state.gb_frame {
            Ok(FrameEnd::Complete)
        } else {
            Ok(FrameEnd::Stalled)
        },
        Trap::InvalidOpcode => Err(GbError::GbInvalidOpcode),
        Trap::HaltForever => Err(GbError::GbHaltForever),
    }
}

/// What a step returns for a trap.
pub open spec fn step_result(trap: Trap) -> Result<(), GbError> {
    match trap {
        Trap::Clear => Ok(()),
        Trap::InvalidOpcode => Err(GbError::GbInvalidOpcode),
        Trap::HaltForever => Err(GbError::GbHaltForever),
    }
}

impl GbView {
    /// The console after an interrupt was serviced: the master enable is
    /// cleared, the program counter is pushed, and the CPU jumps to the
    /// vector of the highest-priority source that is requested and
    /// enabled, whose request bit alone is cleared.  With no such source
    /// the CPU goes on where it was.
    #[verifier::opaque]
    pub open spec fn service(self) -> GbView {
        let t = self.with_ime(false).push16(self.cpu_reg.pc.bytes);
        let d = spec_dispatch(t.hram_io[IO_IF as int], t.hram_io[IO_IE as int]);
        if d.pending {
            t.with_pc(d.vector).with_io(IO_IF as int, d.iflag)
        } else {
            t
        }
    }

    /// Whether the interrupt check acts: the CPU is halted, or interrupts
    /// are enabled and one is pending.
    pub open spec fn wakes(self) -> bool {
        self.gb_halt || (self.gb_ime && spec_any_pending(
            self.hram_io[IO_IF as int],
            self.hram_io[IO_IE as int],
        ))
    }

    /// The console after the interrupt check that precedes each fetch: a
    /// halted CPU leaves halt, and with interrupts enabled one interrupt is
    /// serviced.
    #[verifier::opaque]
    pub open spec fn interrupt_check(self) -> GbView {
        if self.wakes() {
            let s = GbView { gb_halt: false, ..self };
            if self.gb_ime {
                s.service()
            } else {
                s
            }
        } else {
            self
        }
    }

    /// The interrupt check, the fetch of an opcode and its execution.
    #[verifier::opaque]
    pub open spec fn run_instruction(self) -> Step {
        let s = self.interrupt_check();
        s.after_fetch().execute(s.fetched())
    }

    /// Whether the CPU sleeps on: it is halted and no enabled interrupt is
    /// requested.
    pub open spec fn idle(self) -> bool {
        self.gb_halt && self.hram_io[IO_IF as int] & self.hram_io[IO_IE as int] == 0
    }

    /// One step.  A sleeping CPU lets the cycles to the next event pass;
    /// else one instruction is executed and its cycles pass.  A trap ends
    /// the step before any cycles pass.  `answer` is what the host answers
    /// if the serial link polls it.
    #[verifier::opaque]
    pub open spec fn step(self, answer: Option<u8>) -> Step {
        let core = if self.idle() {
            self.done(self.idle_cycles)
        } else {
            self.run_instruction()
        };
        if core.trap == Trap::Clear {
            Step {
                state: core.state.tick(core.cycles, answer),
                cycles: core.cycles,
                trap: Trap::Clear,
            }
        } else {
            core
        }
    }

    /// The last `n` of the steps that the frame driver may take, until a
    /// frame is complete or a step traps.  The answers of the serial link
    /// are read from `log`, one entry for each step the driver may take.
    pub open spec fn frames(self, log: Seq<Option<u8>>, n: nat) -> Run
        decreases n,
    {
        if self.gb_frame || n == 0 {
            Run { state: self, trap: Trap::Clear }
        } else {
            let st = self.step(log[FRAME_STEP_LIMIT - n]);
            if st.trap == Trap::Clear {
                st.state.frames(log, (n - 1) as nat)
            } else {
                Run { state: st.state, trap: st.trap }
            }
        }
    }

    /// A run of the frame driver: the frame flag is cleared, and steps are
    /// taken until it is set again, a step traps or the step limit is
    /// reached.
    pub open spec fn run_frame(self, log: Seq<Option<u8>>) -> Run {
        GbView { gb_frame: false, ..self }.frames(log, FRAME_STEP_LIMIT as nat)
    }
}

impl GbView {
    /// Pushing leaves the halt state and the interrupt master enable as
    /// they are.
    pub proof fn lemma_push_keeps_ime(self, v: u16)
        ensures
            self.push16(v).gb_ime == self.gb_ime,
            self.push16(v).gb_halt == self.gb_halt,
    {
        reveal(GbView::push16);
        let sp1 = self.cpu_reg.sp.bytes.wrapping_sub(1);
        let sp2 = sp1.wrapping_sub(1);
        let a = self.with_sp(sp1);
        a.lemma_write_keeps_cpu(sp1, (v / 256) as u8);
        let b = a.write(sp1, (v / 256) as u8).with_sp(sp2);
        b.lemma_write_keeps_cpu(sp2, (v % 256) as u8);
    }

    /// Servicing an interrupt leaves the interrupt master enable cleared.
    pub proof fn lemma_service_clears_ime(self)
        ensures
            !self.service().gb_ime,
    {
        reveal(GbView::service);
        self.with_ime(false).lemma_push_keeps_ime(self.cpu_reg.pc.bytes);
    }

    /// After the interrupt check the CPU is not halted if it was halted or
    /// an interrupt was pending with interrupts enabled, and where the
    /// check serviced an interrupt the master enable is cleared: it is never
    /// left set across a dispatch.
    pub proof fn lemma_interrupt_check_clears_ime(self)
        ensures
            self.wakes() ==> !self.interrupt_check().gb_halt && !self.interrupt_check().gb_ime,
            !self.wakes() ==> self.interrupt_check() == self,
    {
        reveal(GbView::interrupt_check);
        reveal(GbView::service);
        let s = GbView { gb_halt: false, ..self };
        s.lemma_service_clears_ime();
        s.with_ime(false).lemma_push_keeps_ime(s.cpu_reg.pc.bytes);
    }
}

impl<H: Host> Gb<H> {
    fn leave_halt(&mut self)
        ensures
            final(self)@ == (GbView { gb_halt: false, ..old(self)@ }),
            old(self).wf() ==> final(self).wf(),
    {
        self.gb_halt = false;
    }

    fn clear_frame(&mut self)
        ensures
            final(self)@ == (GbView { gb_frame: false, ..old(self)@ }),
            old(self).wf() ==> final(self).wf(),
    {
        self.gb_frame = false;
    }

    fn jump_to_vector(&mut self, vector: u16, iflag: u8)
        requires
            old(self).wf(),
        ensures
            final(self)@ == old(self)@.with_pc(vector).with_io(IO_IF as int, iflag),
            final(self).wf(),
    {
        self.cpu_reg.pc.bytes = vector;
        self.hram_io[IO_IF] = iflag;
    }

    /// Services one interrupt.
    pub fn service(&mut self)
        requires
            old(self).wf(),
        ensures
            final(self)@ == old(self)@.service(),
            final(self).wf(),
    {
        proof {
            reveal(GbView::service);
        }
        let pc = self.cpu_reg.pc.bytes;
        self.set_ime(false);
        self.push16(pc);
        let d = dispatch(self.hram_io[IO_IF], self.hram_io[IO_IE]);
        if d.pending {
            self.jump_to_vector(d.vector, d.iflag);
        }
    }

    /// The interrupt check that precedes each fetch.
    pub fn interrupt_check(&mut self)
        requires
            old(self).wf(),
        ensures
            final(self)@ == old(self)@.interrupt_check(),
            final(self).wf(),
    {
        proof {
            reveal(GbView::interrupt_check);
        }
        let ime = self.gb_ime;
        if self.gb_halt || (ime && any_pending(self.hram_io[IO_IF], self.hram_io[IO_IE])) {
            self.leave_halt();
            if ime {
                self.service();
            }
        }
    }

    fn run_instruction(&mut self) -> (t: Ticks)
        requires
            old(self).wf(),
        ensures
            old(self)@.run_instruction().agrees(final(self)@, t),
            t.trap == Trap::Clear ==> t.cycles >= 1,
            final(self).wf(),
    {
        proof {
            reveal(GbView::run_instruction);
        }
        self.interrupt_check();
        let opcode = self.fetch();
        self.execute(opcode)
    }

    /// Lets the cycles of a step pass, unless the step trapped.
    fn pass(&mut self, core: Ticks) -> (answer: Option<u8>)
        requires
            old(self).wf(),
            core.trap == Trap::Clear ==> core.cycles >= 1,
        ensures
            core.trap == Trap::Clear ==> final(self)@ == old(self)@.tick(core.cycles, answer),
            core.trap != Trap::Clear ==> final(self)@ == old(self)@,
            final(self).wf(),
    {
        match core.trap {
            Trap::Clear => self.tick(core.cycles),
            _ => None,
        }
    }

    /// One step: the cycles it took, whether it trapped, and what the host
    /// answered where the serial link polled it.
    pub fn step_ticks(&mut self) -> (r: (Ticks, Option<u8>))
        requires
            old(self).wf(),
        ensures
            old(self)@.step(r.1).agrees(final(self)@, r.0),
            final(self).wf(),
    {
        proof {
            reveal(GbView::step);
        }
        let core: Ticks = if self.gb_halt && self.hram_io[IO_IF] & self.hram_io[IO_IE] == 0 {
            clear(self.idle_cycles)
        } else {
            self.run_instruction()
        };
        let answer = self.pass(core);
        (core, answer)
    }

    /// Executes one instruction and lets its cycles pass; a halted CPU
    /// sleeps until the next event instead.  An unmapped opcode and a halt
    /// that nothing can end are reported to the host and returned as
    /// errors.
    pub fn step_cpu(&mut self) -> (r: Result<(), GbError>)
        requires
            old(self).wf(),
        ensures
            exists|answer: Option<u8>|
                final(self)@ == (#[trigger] old(self)@.step(answer)).state && r == step_result(
                    old(self)@.step(answer).trap,
                ),
            final(self).wf(),
    {
        let (t, answer) = self.step_ticks();
        proof {
            assert(self@ == old(self)@.step(answer).state);
        }
        match t.trap {
            Trap::Clear => Ok(()),
            Trap::InvalidOpcode => Err(GbError::GbInvalidOpcode),
            Trap::HaltForever => Err(GbError::GbHaltForever),
        }
    }

    /// Steps the console until a frame is complete, and returns how the
    /// run ended together with the answers of the serial link, one for each
    /// step taken.
    pub fn run_frame_logged(&mut self) -> (r: (Result<FrameEnd, GbError>, Ghost<Seq<Option<u8>>>))
        requires
            old(self).wf(),
        ensures
            final(self)@ == old(self)@.run_frame(r.1@).state,
            r.0 == frame_result(old(self)@.run_frame(r.1@)),
            r.1@.len() <= FRAME_STEP_LIMIT,
            final(self).wf(),
    {
        self.clear_frame();
        let ghost start = self@;
        let ghost mut answers: Seq<Option<u8>> = Seq::empty();
        let mut left: u32 = FRAME_STEP_LIMIT;
        let mut trap = Trap::Clear;
        while !self.gb_frame && left > 0 && trap == Trap::Clear
            invariant
                self.wf(),
                left <= FRAME_STEP_LIMIT,
                answers.len() == FRAME_STEP_LIMIT - left,
                forall|log: Seq<Option<u8>>|
                    extends(log, answers) ==> #[trigger] start.frames(
                        log,
                        FRAME_STEP_LIMIT as nat,
                    ) == (if trap == Trap::Clear {
                        self@.frames(log, left as nat)
                    } else {
                        Run { state: self@, trap }
                    }),
            decreases
                    (if trap == Trap::Clear {
                        1int
                    } else {
                        0
                    }) + left,
        {
            let ghost before = self@;
            let ghost earlier = answers;
            let (t, answer) = self.step_ticks();
            proof {
                answers = answers.push(answer);
                assert forall|log: Seq<Option<u8>>| extends(log, answers) implies start.frames(
                    log,
                    FRAME_STEP_LIMIT as nat,
                ) == (if t.trap == Trap::Clear {
                    self@.frames(log, (left - 1) as nat)
                } else {
                    Run { state: self@, trap: t.trap }
                }) by {
                    assert(extends(log, earlier)) by {
                        assert forall|i: int| 0 <= i < earlier.len() implies log[i] == earlier[i] by {
                            assert(answers[i] == earlier[i]);
                        }
                    }
                    assert(log[FRAME_STEP_LIMIT - left] == answers[earlier.len() as int]);
                    assert(before.frames(log, left as nat) == (if t.trap == Trap::Clear {
                        self@.frames(log, (left - 1) as nat)
                    } else {
                        Run { state: self@, trap: t.trap }
                    }));
                }
            }
            trap = t.trap;
            left = left - 1;
        }
        proof {
            assert(extends(answers, answers));
        }
        let end = match trap {
            Trap::Clear => if self.gb_frame {
                Ok(FrameEnd::Complete)
            } else {
                Ok(FrameEnd::Stalled)
            },
            Trap::InvalidOpcode => Err(GbError::GbInvalidOpcode),
            Trap::HaltForever => Err(GbError::GbHaltForever),
        };
        (end, Ghost(answers))
    }

    /// Steps the console until a frame is complete.  The run ends early
    /// with an error where a step traps, and as stalled where the step
    /// limit is reached.
    pub fn run_frame(&mut self) -> (r: Result<FrameEnd, GbError>)
        requires
            old(self).wf(),
        ensures
            exists|log: Seq<Option<u8>>|
                final(self)@ == (#[trigger] old(self)@.run_frame(log)).state && r == frame_result(
                    old(self)@.run_frame(log),
                ),
            final(self).wf(),
    {
        let (end, Ghost(log)) = self.run_frame_logged();
        proof {
            assert(self@ == old(self)@.run_frame(log).state);
        }
        end
    }
}

} // verus!
