//! The vocabulary in which the driver talks to the hardware.
//!
//! Every procedure of the driver that touches the controller is written as a
//! value of this module's types: a single register or DMA access is an
//! [`HwOp`]; a fixed procedure (reset sequences, ring set-up, stream
//! programming) is a list of [`Instr`]; [`ScriptRun`] is the state machine that
//! walks such a list, decides every bounded wait, and tells the caller which
//! access to perform next. The caller performs the access and hands back the
//! value it read.
use vstd::prelude::*;

verus! {

/// Why an operation on the controller failed.
#[derive(Clone, Copy, Debug, PartialEq, Eq, Structural)]
pub enum HdaError {
    /// The controller's major version is not 1.
    UnsupportedVersion,
    /// GCAP reports no output stream descriptors.
    NoOutputStreams,
    /// CRST did not read back 0 after entering reset.
    ResetEnterTimeout,
    /// CRST did not read back 1 after leaving reset.
    ResetExitTimeout,
    /// No codec answered on the link.
    NoCodecsFound,
    /// Playback was asked for while no output path is configured.
    NoOutputPath,
}

impl HdaError {
    /// The human-readable message of this error.
    pub fn message(&self) -> (m: &'static str)
        ensures
            *self == HdaError::UnsupportedVersion ==> m@ == "unsupported HDA version"@,
            *self == HdaError::NoOutputStreams ==> m@ == "no output streams"@,
            *self == HdaError::ResetEnterTimeout ==> m@ == "reset enter timeout"@,
            *self == HdaError::ResetExitTimeout ==> m@ == "reset exit timeout"@,
            *self == HdaError::NoCodecsFound ==> m@ == "no codecs found"@,
            *self == HdaError::NoOutputPath ==> m@ == "no output path"@,
    {
        match self {
            HdaError::UnsupportedVersion => "unsupported HDA version",
            HdaError::NoOutputStreams => "no output streams",
            HdaError::ResetEnterTimeout => "reset enter timeout",
            HdaError::ResetExitTimeout => "reset exit timeout",
            HdaError::NoCodecsFound => "no codecs found",
            HdaError::NoOutputPath => "no output path",
        }
    }
}

/// Access width of a register.
#[derive(Clone, Copy, Debug, PartialEq, Eq, Structural)]
pub enum Width {
    W8,
    W16,
    W32,
}

impl Width {
    /// All-ones value of this width.
    pub open spec fn max_spec(self) -> u32 {
        match self {
            Width::W8 => 0xFF,
            Width::W16 => 0xFFFF,
            Width::W32 => 0xFFFF_FFFF,
        }
    }

    /// All-ones value of this width.
    #[verifier::when_used_as_spec(max_spec)]
    pub fn max(self) -> (m: u32)
        ensures
            m == self.max_spec(),
    {
        match self {
            Width::W8 => 0xFF,
            Width::W16 => 0xFFFF,
            Width::W32 => 0xFFFF_FFFF,
        }
    }
}

/// One access to the hardware, relative to BAR0 for registers.
#[derive(Clone, Copy, Debug, PartialEq, Eq, Structural)]
pub enum HwOp {
    /// Volatile read of a register; the value read is handed back.
    Read { width: Width, offset: usize },
    /// Volatile write of a register; `value` fits `width`.
    Write { width: Width, offset: usize, value: u32 },
    /// `count` busy-wait hints.
    Spin { count: u32 },
    /// Volatile 32-bit store to DMA memory at physical address `addr`.
    StoreDma32 { addr: u64, value: u32 },
    /// Volatile 64-bit load from DMA memory at physical address `addr`; the value is handed back.
    LoadDma64 { addr: u64 },
}

/// A bounded busy-wait: counts unsuccessful checks and gives up after `limit` of them
/// have been followed by one more.
#[derive(Clone, Copy, Debug)]
pub struct Poll {
    pub attempts: u32,
    pub limit: u32,
}

/// What a bounded wait does after one check.
#[derive(Clone, Copy, Debug, PartialEq, Eq, Structural)]
pub enum PollOutcome {
    /// The awaited condition holds.
    Ready,
    /// Not yet; check again.
    Retry,
    /// The condition never held; the wait is over.
    TimedOut,
}

impl Poll {
    pub open spec fn wf(self) -> bool {
        self.attempts <= self.limit && self.limit < u32::MAX
    }

    pub fn new(limit: u32) -> (p: Poll)
        requires
            limit < u32::MAX,
        ensures
            p.attempts == 0,
            p.limit == limit,
            p.wf(),
    {
        Poll { attempts: 0, limit }
    }

    /// Record one check of the awaited condition.
    ///
    /// A check that fails counts one attempt; the wait times out once the count
    /// passes the limit, so a condition that never holds is checked exactly
    /// `limit + 1` times.
    pub fn check(&mut self, ready: bool) -> (r: PollOutcome)
        requires
            old(self).wf(),
        ensures
            ready ==> r == PollOutcome::Ready && *final(self) == *old(self),
            !ready ==> final(self).limit == old(self).limit
                && final(self).attempts == old(self).attempts + 1,
            !ready ==> (r == PollOutcome::TimedOut <==> old(self).attempts == old(self).limit),
            !ready ==> (r == PollOutcome::Retry <==> old(self).attempts < old(self).limit),
            r == PollOutcome::Retry ==> final(self).wf(),
    {
        if ready {
            PollOutcome::Ready
        } else {
            self.attempts = self.attempts + 1;
            if self.attempts > self.limit {
                PollOutcome::TimedOut
            } else {
                PollOutcome::Retry
            }
        }
    }
}

/// One instruction of a register script.
#[derive(Clone, Copy, Debug, PartialEq, Eq, Structural)]
pub enum Instr {
    /// Write `value` to the register.
    Write { width: Width, offset: usize, value: u32 },
    /// Read the register, clear the bits of `clear`, set those of `set`, write it back.
    Modify { width: Width, offset: usize, clear: u32, set: u32 },
    /// Read the register until `(value & mask != 0) == when_set`, with `pause` busy-wait
    /// hints between reads, at most `limit + 1` times; if the condition never holds,
    /// fail with `fatal` when it is given, and go on otherwise.
    Wait {
        width: Width,
        offset: usize,
        mask: u32,
        when_set: bool,
        limit: u32,
        pause: u32,
        fatal: Option<HdaError>,
    },
    /// `count` busy-wait hints.
    Spin { count: u32 },
    /// Send a codec verb through the CORB and wait for its response (which is ignored).
    Verb { verb: u32 },
}

impl Instr {
    /// Values fit their width and wait limits leave room to count.
    pub open spec fn wf(self) -> bool {
        match self {
            Instr::Write { width, value, .. } => value <= width.max_spec(),
            Instr::Modify { width, set, .. } => set <= width.max_spec(),
            Instr::Wait { limit, .. } => limit < u32::MAX,
            _ => true,
        }
    }
}

/// Every instruction of the script is well formed.
pub open spec fn script_wf(s: Seq<Instr>) -> bool {
    forall|i: int| 0 <= i < s.len() ==> #[trigger] s[i].wf()
}

/// Whether every instruction of `script` is well formed.
pub fn script_is_wf(script: &Vec<Instr>) -> (b: bool)
    ensures
        b == script_wf(script@),
{
    let mut i: usize = 0;
    while i < script.len()
        invariant
            i <= script@.len(),
            forall|j: int| 0 <= j < i ==> #[trigger] script@[j].wf(),
        decreases script@.len() - i,
    {
        let ok = match script[i] {
            Instr::Write { width, value, .. } => value <= width.max(),
            Instr::Modify { width, set, .. } => set <= width.max(),
            Instr::Wait { limit, .. } => limit < u32::MAX,
            _ => true,
        };
        if !ok {
            assert(!script@[i as int].wf());
            return false;
        }
        i = i + 1;
    }
    true
}

/// Where a [`ScriptRun`] stands.
#[derive(Clone, Copy, Debug, PartialEq, Eq, Structural)]
pub enum RunPhase {
    /// About to issue the instruction at `pc`.
    Issue,
    /// The read of the instruction at `pc` was issued; its value is awaited.
    AwaitRead,
    /// A wait at `pc` was not satisfied; a pause was issued, the next read follows.
    AwaitPause,
    /// A fatal wait timed out.
    Failed(HdaError),
}

/// What a [`ScriptRun`] asks for next.
#[derive(Clone, Copy, Debug)]
pub enum ScriptStep {
    /// Perform this hardware access and hand back what it read (0 for a write).
    Io(HwOp),
    /// Send this verb to a codec and wait for its response.
    Verb(u32),
    /// The script is over.
    Done(Result<(), HdaError>),
}

/// The value a `Modify` instruction writes back after reading `read`.
pub open spec fn modified_value(width: Width, read: u64, clear: u32, set: u32) -> u32 {
    (((read as u32) & !clear) | set) & width.max_spec()
}

/// Whether a `Wait` instruction is satisfied by the value `read`.
pub open spec fn wait_ready(read: u64, mask: u32, when_set: bool) -> bool {
    (((read as u32) & mask) != 0) == when_set
}

/// State machine that runs a register script.
pub struct ScriptRun {
    pub script: Vec<Instr>,
    pub pc: usize,
    pub phase: RunPhase,
    pub poll: Poll,
}

/// Some wait of script `s` fails with `e` when it times out.
pub open spec fn script_can_fail_with(s: Seq<Instr>, e: HdaError) -> bool {
    exists|i: int| 0 <= i < s.len() && #[trigger] s[i] is Wait && s[i]->Wait_fatal == Some(e)
}

impl ScriptRun {
    pub open spec fn wf(&self) -> bool {
        &&& script_wf(self.script@)
        &&& self.phase is Failed ==> script_can_fail_with(self.script@, self.phase->Failed_0)
        &&& self.pc <= self.script@.len()
        &&& (self.phase == RunPhase::AwaitRead || self.phase == RunPhase::AwaitPause) ==> {
            &&& self.pc < self.script@.len()
            &&& (self.script@[self.pc as int] is Wait || self.script@[self.pc as int] is Modify)
            &&& self.script@[self.pc as int] is Wait ==> self.poll.wf()
                && self.poll.limit == self.script@[self.pc as int]->Wait_limit
            &&& self.phase == RunPhase::AwaitPause ==> self.script@[self.pc as int] is Wait
        }
    }

    /// The read access of a `Modify` or `Wait` instruction.
    pub open spec fn read_op(i: Instr) -> HwOp {
        match i {
            Instr::Modify { width, offset, .. } => HwOp::Read { width, offset },
            Instr::Wait { width, offset, .. } => HwOp::Read { width, offset },
            _ => HwOp::Spin { count: 0 },
        }
    }

    /// What issuing the instruction at `pc` does, when the run stands at `pc`.
    pub open spec fn issue_spec(self) -> (ScriptRun, ScriptStep) {
        if self.pc >= self.script@.len() {
            (ScriptRun { phase: RunPhase::Issue, ..self }, ScriptStep::Done(Ok(())))
        } else {
            let next = ScriptRun { pc: (self.pc + 1) as usize, phase: RunPhase::Issue, ..self };
            match self.script@[self.pc as int] {
                Instr::Write { width, offset, value } => (
                    next,
                    ScriptStep::Io(HwOp::Write { width, offset, value }),
                ),
                Instr::Spin { count } => (next, ScriptStep::Io(HwOp::Spin { count })),
                Instr::Verb { verb } => (next, ScriptStep::Verb(verb)),
                Instr::Modify { width, offset, .. } => (
                    ScriptRun { phase: RunPhase::AwaitRead, ..self },
                    ScriptStep::Io(HwOp::Read { width, offset }),
                ),
                Instr::Wait { width, offset, limit, .. } => (
                    ScriptRun {
                        phase: RunPhase::AwaitRead,
                        poll: Poll { attempts: 0, limit },
                        ..self
                    },
                    ScriptStep::Io(HwOp::Read { width, offset }),
                ),
            }
        }
    }

    /// One transition of the run, given the value read by the previous access.
    pub open spec fn step_spec(self, input: u64) -> (ScriptRun, ScriptStep) {
        match self.phase {
            RunPhase::Failed(e) => (self, ScriptStep::Done(Err(e))),
            RunPhase::Issue => self.issue_spec(),
            RunPhase::AwaitPause => (
                ScriptRun { phase: RunPhase::AwaitRead, ..self },
                ScriptStep::Io(Self::read_op(self.script@[self.pc as int])),
            ),
            RunPhase::AwaitRead => match self.script@[self.pc as int] {
                Instr::Modify { width, offset, clear, set } => (
                    ScriptRun { pc: (self.pc + 1) as usize, phase: RunPhase::Issue, ..self },
                    ScriptStep::Io(
                        HwOp::Write { width, offset, value: modified_value(width, input, clear, set) },
                    ),
                ),
                Instr::Wait { mask, when_set, pause, fatal, .. } => {
                    let polled = ScriptRun {
                        poll: Poll { attempts: (self.poll.attempts + 1) as u32, ..self.poll },
                        ..self
                    };
                    if wait_ready(input, mask, when_set) {
                        ScriptRun { pc: (self.pc + 1) as usize, ..self }.issue_spec()
                    } else if self.poll.attempts < self.poll.limit {
                        (
                            ScriptRun { phase: RunPhase::AwaitPause, ..polled },
                            ScriptStep::Io(HwOp::Spin { count: pause }),
                        )
                    } else {
                        match fatal {
                            Some(e) => (
                                ScriptRun { phase: RunPhase::Failed(e), ..polled },
                                ScriptStep::Done(Err(e)),
                            ),
                            None => ScriptRun { pc: (self.pc + 1) as usize, ..polled }.issue_spec(),
                        }
                    }
                },
                _ => (self, ScriptStep::Done(Ok(()))),
            },
        }
    }

    /// Start running `script` from its first instruction.
    pub fn new(script: Vec<Instr>) -> (r: ScriptRun)
        requires
            script_wf(script@),
        ensures
            r.script@ == script@,
            r.pc == 0,
            r.phase == RunPhase::Issue,
            r.wf(),
    {
        ScriptRun { script, pc: 0, phase: RunPhase::Issue, poll: Poll { attempts: 0, limit: 0 } }
    }

    fn issue(&mut self) -> (r: ScriptStep)
        requires
            script_wf(old(self).script@),
            old(self).pc <= old(self).script@.len(),
        ensures
            (*final(self), r) == old(self).issue_spec(),
            final(self).wf(),
    {
        if self.pc >= self.script.len() {
            self.phase = RunPhase::Issue;
            return ScriptStep::Done(Ok(()));
        }
        let instr = self.script[self.pc];
        match instr {
            Instr::Write { width, offset, value } => {
                self.pc = self.pc + 1;
                self.phase = RunPhase::Issue;
                ScriptStep::Io(HwOp::Write { width, offset, value })
            },
            Instr::Spin { count } => {
                self.pc = self.pc + 1;
                self.phase = RunPhase::Issue;
                ScriptStep::Io(HwOp::Spin { count })
            },
            Instr::Verb { verb } => {
                self.pc = self.pc + 1;
                self.phase = RunPhase::Issue;
                ScriptStep::Verb(verb)
            },
            Instr::Modify { width, offset, .. } => {
                self.phase = RunPhase::AwaitRead;
                ScriptStep::Io(HwOp::Read { width, offset })
            },
            Instr::Wait { width, offset, limit, .. } => {
                assert(old(self).script@[old(self).pc as int].wf());
                self.phase = RunPhase::AwaitRead;
                self.poll = Poll::new(limit);
                ScriptStep::Io(HwOp::Read { width, offset })
            },
        }
    }

    /// Advance the run by one transition. `input` is the value read by the
    /// access asked for in the previous step (anything after a write).
    pub fn step(&mut self, input: u64) -> (r: ScriptStep)
        requires
            old(self).wf(),
        ensures
            (*final(self), r) == old(self).step_spec(input),
            final(self).wf(),
    {
        match self.phase {
            RunPhase::Failed(e) => ScriptStep::Done(Err(e)),
            RunPhase::Issue => self.issue(),
            RunPhase::AwaitPause => {
                self.phase = RunPhase::AwaitRead;
                match self.script[self.pc] {
                    Instr::Modify { width, offset, .. } => ScriptStep::Io(HwOp::Read { width, offset }),
                    Instr::Wait { width, offset, .. } => ScriptStep::Io(HwOp::Read { width, offset }),
                    _ => ScriptStep::Io(HwOp::Spin { count: 0 }),
                }
            },
            RunPhase::AwaitRead => {
                let n = self.script.len();
                assert(self.pc < n);
                let instr = self.script[self.pc];
                match instr {
                    Instr::Modify { width, offset, clear, set } => {
                        let value = (((#[verifier::truncate] (input as u32)) & !clear) | set) & width.max();
                        self.pc = self.pc + 1;
                        self.phase = RunPhase::Issue;
                        ScriptStep::Io(HwOp::Write { width, offset, value })
                    },
                    Instr::Wait { mask, when_set, pause, fatal, .. } => {
                        let ready = (((#[verifier::truncate] (input as u32)) & mask) != 0) == when_set;
                        let outcome = self.poll.check(ready);
                        match outcome {
                            PollOutcome::Ready => {
                                self.pc = self.pc + 1;
                                self.issue()
                            },
                            PollOutcome::Retry => {
                                self.phase = RunPhase::AwaitPause;
                                ScriptStep::Io(HwOp::Spin { count: pause })
                            },
                            PollOutcome::TimedOut => {
                                match fatal {
                                    Some(e) => {
                                        self.phase = RunPhase::Failed(e);
                                        ScriptStep::Done(Err(e))
                                    },
                                    None => {
                                        self.pc = self.pc + 1;
                                        self.issue()
                                    },
                                }
                            },
                        }
                    },
                    _ => ScriptStep::Done(Ok(())),
                }
            },
        }
    }
}

/// A `Modify` instruction writes back what it read with the bits of `clear`
/// cleared and those of `set` set: every bit outside `clear` and `set` keeps the
/// value read, every bit of `set` is 1, every bit of `clear` not in `set` is 0,
/// and nothing beyond the register's width is written.
pub proof fn lemma_modify_keeps_other_bits(run: ScriptRun, input: u64)
    requires
        run.wf(),
        run.phase == RunPhase::AwaitRead,
        run.script@[run.pc as int] is Modify,
    ensures
        ({
            let i = run.script@[run.pc as int];
            let clear = i->Modify_clear;
            let set = i->Modify_set;
            let m = i->Modify_width.max_spec();
            let rd = input as u32;
            run.step_spec(input).1 matches ScriptStep::Io(HwOp::Write { width: ww, offset: oo, value: vv })
                && ww == i->Modify_width && oo == i->Modify_offset
                && vv & !(clear | set) == rd & !(clear | set) & m
                && vv & set == set & m
                && vv & (clear & !set) == 0
                && vv & !m == 0
        }),
{
    let i = run.script@[run.pc as int];
    let clear = i->Modify_clear;
    let set = i->Modify_set;
    let m = i->Modify_width.max_spec();
    let rd = input as u32;
    let vv = ((rd & !clear) | set) & m;
    assert(vv == modified_value(i->Modify_width, input, clear, set));
    assert(vv & !(clear | set) == rd & !(clear | set) & m
        && vv & set == set & m
        && vv & (clear & !set) == 0
        && vv & !m == 0) by (bit_vector)
        requires
            vv == ((rd & !clear) | set) & m,
    ;
}

/// A `Wait` instruction is satisfied exactly when the bits of `mask` in the value
/// read are not all clear (`when_set`) or all clear (otherwise): the run then
/// moves past it; while it is not satisfied and attempts are left, the run
/// stays on it and pauses for `pause` busy-wait hints before the next read.
pub proof fn lemma_wait_checks_mask(run: ScriptRun, input: u64)
    requires
        run.wf(),
        run.phase == RunPhase::AwaitRead,
        run.script@[run.pc as int] is Wait,
    ensures
        ({
            let i = run.script@[run.pc as int];
            let hit = (#[verifier::truncate] (input as u32)) & i->Wait_mask;
            let satisfied = if i->Wait_when_set { hit != 0 } else { hit == 0 };
            let (next, s) = run.step_spec(input);
            &&& satisfied ==> next.pc > run.pc
            &&& !satisfied && run.poll.attempts < run.poll.limit ==> {
                &&& next.pc == run.pc
                &&& next.phase == RunPhase::AwaitPause
                &&& s == ScriptStep::Io(HwOp::Spin { count: i->Wait_pause })
            }
        }),
{
    let i = run.script@[run.pc as int];
    let hit = (#[verifier::truncate] (input as u32)) & i->Wait_mask;
    let satisfied = if i->Wait_when_set { hit != 0 } else { hit == 0 };
    assert(satisfied == wait_ready(input, i->Wait_mask, i->Wait_when_set));
    if satisfied {
        let r1 = ScriptRun { pc: (run.pc + 1) as usize, ..run };
        assert(run.step_spec(input) == r1.issue_spec());
        assert(run.script@.len() == run.script.len());
        if r1.pc < r1.script@.len() {
            assert(r1.pc + 1 <= usize::MAX);
        }
        assert(r1.issue_spec().0.pc >= r1.pc);
    }
}

/// A script run fails only with the error of one of its script's fatal waits:
/// whatever it reads, a well-formed run that ends in an error names an error that
/// some wait of the script was given.
pub proof fn lemma_run_fails_only_by_fatal_waits(run: ScriptRun, input: u64)
    requires
        run.wf(),
    ensures
        run.step_spec(input).1 matches ScriptStep::Done(Err(e)) ==> script_can_fail_with(run.script@, e),
{
    if run.phase == RunPhase::AwaitRead && run.script@[run.pc as int] is Wait {
        let i = run.pc as int;
        assert(run.script@[i] is Wait);
    }
}

} // verus!
