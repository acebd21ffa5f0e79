//! Controller bring-up.
//!
//! [`ControllerInit`] is the whole initialization sequence of a controller as a
//! state machine: check the version and the capabilities, reset the
//! controller, size, place and start the CORB/RIRB rings, enable interrupts,
//! and discover the codecs, exchanging every verb through the rings. The caller
//! performs each hardware access it asks for and hands back the value read.
use vstd::prelude::*;

use crate::codec::{
    ring_choice, ring_setup_script, exchange_spec, CorbRirb, ExchangePhase, ExchangeStep, RingState,
    VerbExchange, CORB_ENTRY_SIZE, RIRB_ENTRY_SIZE,
};
use crate::driver::{
    check_capabilities, check_version, gcap_oss, interrupt_enable, reset_script, reset_script_spec,
    select_output_from, ControllerView, HdaController,
};
use crate::registers::{CORBCTL, CORBSIZE, CORBWP, GCAP, GCTL, INTCTL, INTCTL_CIE, INTCTL_GIE, RIRBSIZE, STATESTS, VMAJ};
use crate::script::{
    lemma_run_fails_only_by_fatal_waits, script_can_fail_with, HdaError, HwOp, Instr, Poll, RunPhase,
    ScriptRun, ScriptStep, Width,
};
use crate::widget::{codec_wf, discovery_transition, next_present, CodecDiscovery, DiscoveryPhase, DiscoveryStep};

verus! {

/// Where a controller bring-up stands.
#[derive(Clone, Copy, Debug, PartialEq, Eq, Structural)]
pub enum InitPhase {
    /// Nothing asked yet.
    Start,
    /// The major version register was read; its value is awaited.
    Version,
    /// The Global Capabilities register was read; its value is awaited.
    Capabilities,
    /// The reset script is running.
    Reset,
    /// CORBSIZE was read; its value is awaited.
    CorbSize,
    /// RIRBSIZE was read; its value is awaited.
    RirbSize,
    /// The rings are allocated; their physical addresses are awaited.
    Placement,
    /// The ring set-up script is running.
    RingSetup,
    /// Interrupts were enabled.
    Interrupts,
    /// STATESTS was read; its value is awaited.
    CodecPresence,
    /// A verb of the codec discovery is being exchanged.
    Discovery,
    /// The bring-up failed.
    Failed(HdaError),
    /// The bring-up is over and codecs were found.
    Complete,
}

/// What a bring-up asks for next.
#[derive(Clone, Copy, Debug)]
pub enum InitStep {
    /// Perform this hardware access and hand back what it read (0 for a write).
    Io(HwOp),
    /// Hand the physical addresses of the two ring buffers to
    /// [`ControllerInit::rings_placed`].
    PlaceRings,
    /// The bring-up is over.
    Done(Result<(), HdaError>),
}

/// State of a controller bring-up.
pub struct ControllerInit {
    pub bar0: usize,
    pub phase: InitPhase,
    /// Global Capabilities register value.
    pub gcap: u16,
    /// CORBSIZE register value.
    pub corbsize: u8,
    /// The register script being run (reset, then ring set-up).
    pub run: ScriptRun,
    /// The CORB/RIRB rings, once sized.
    pub ring: Option<CorbRirb>,
    /// The verb exchange in flight.
    pub exchange: VerbExchange,
    /// The codec discovery.
    pub discovery: CodecDiscovery,
}

/// The read of a register.
pub open spec fn read_step(width: Width, offset: usize) -> InitStep {
    InitStep::Io(HwOp::Read { width, offset })
}

/// The ring state of a bring-up that has its rings.
pub open spec fn ring_of(s: ControllerInit) -> RingState {
    s.ring->Some_0@
}

/// No instruction of `s` sends a verb.
pub open spec fn verb_free(s: Seq<Instr>) -> bool {
    forall|i: int| 0 <= i < s.len() ==> !(#[trigger] s[i] is Verb)
}

/// The errors a bring-up can end with.
pub open spec fn init_error(e: HdaError) -> bool {
    e != HdaError::NoOutputPath
}

/// `b` failed with `e`, which `r` reports.
pub open spec fn failed_with(b: ControllerInit, r: InitStep, e: HdaError) -> bool {
    b.phase == InitPhase::Failed(e) && r == InitStep::Done(Err(e))
}

/// The ring state that [`CorbRirb::new`] sets up for a controller at `bar0`
/// from its CORBSIZE and RIRBSIZE values.
pub open spec fn sized_ring(bar0: usize, corbsize: u8, rirbsize: u8) -> RingState {
    RingState {
        bar0,
        corb_entries: ring_choice(corbsize).0,
        corb_phys: 0,
        corb_size_reg: (corbsize & 0xFC) | ring_choice(corbsize).1,
        rirb_entries: ring_choice(rirbsize).0,
        rirb_phys: 0,
        rirb_size_reg: (rirbsize & 0xFC) | ring_choice(rirbsize).1,
        rirb_rp: 0,
    }
}

/// `b` still has the rings of `a`, with the DMA buffers as they were.
pub open spec fn ring_contents_kept(a: ControllerInit, b: ControllerInit) -> bool {
    &&& b.ring is Some
    &&& b.ring->Some_0.corb_contents() == a.ring->Some_0.corb_contents()
    &&& b.ring->Some_0.rirb_contents() == a.ring->Some_0.rirb_contents()
}

/// One step of the running script of `a`, given `input`: its access is asked
/// for, a failure ends the bring-up, and at its end the bring-up moves to `next`,
/// asking for `next_step`.
pub open spec fn script_advanced(
    a: ControllerInit,
    input: u64,
    b: ControllerInit,
    r: InitStep,
    next: InitPhase,
    next_step: InitStep,
) -> bool {
    let (run, s) = a.run.step_spec(input);
    &&& b.run == run
    &&& b.ring == a.ring
    &&& match s {
        ScriptStep::Io(op) => b.phase == a.phase && r == InitStep::Io(op),
        ScriptStep::Done(Ok(())) => b.phase == next && r == next_step,
        ScriptStep::Done(Err(e)) => failed_with(b, r, e),
        ScriptStep::Verb(_) => false,
    }
}

/// After the discovery of `b` moved on: its next query goes out through a fresh
/// exchange (which begins by reading the CORB write pointer), or, when discovery
/// is over, the bring-up completes, or fails when no codec was found.
pub open spec fn after_discovery(b: ControllerInit, r: InitStep) -> bool {
    if b.discovery.phase == DiscoveryPhase::Finished {
        if b.discovery.codecs@.len() == 0 {
            failed_with(b, r, HdaError::NoCodecsFound)
        } else {
            b.phase == InitPhase::Complete && r == InitStep::Done(Ok(()))
        }
    } else {
        &&& b.phase == InitPhase::Discovery
        &&& b.exchange.verb == b.discovery.query()
        &&& b.exchange.phase == ExchangePhase::AwaitCorbWp
        &&& r == read_step(Width::W16, CORBWP)
    }
}

/// One transition of a bring-up: state `a`, given the value `input` read by the
/// access it asked for last, becomes `b` and asks for `r`.
///
/// The major version must be 1 and GCAP must announce an output stream
/// descriptor; then the reset script runs, CORBSIZE and RIRBSIZE size the rings,
/// the caller places them, the ring set-up script runs, interrupts are enabled,
/// STATESTS starts the codec discovery, and each verb of the discovery is
/// exchanged through the rings.
pub open spec fn init_transition(a: ControllerInit, input: u64, b: ControllerInit, r: InitStep) -> bool {
    &&& b.bar0 == a.bar0
    &&& a.phase != InitPhase::Capabilities ==> b.gcap == a.gcap
    &&& a.phase != InitPhase::CorbSize ==> b.corbsize == a.corbsize
    &&& (a.ring is Some && a.phase != InitPhase::RirbSize) ==> ring_contents_kept(a, b)
    &&& match a.phase {
        InitPhase::Start => b.phase == InitPhase::Version && r == read_step(Width::W8, VMAJ),
        InitPhase::Version => if input % 0x100 == 1 {
            b.phase == InitPhase::Capabilities && r == read_step(Width::W16, GCAP)
        } else {
            failed_with(b, r, HdaError::UnsupportedVersion)
        },
        InitPhase::Capabilities => {
            let gcap = (input % 0x1_0000) as u16;
            if gcap_oss(gcap) == 0 {
                failed_with(b, r, HdaError::NoOutputStreams)
            } else {
                &&& b.phase == InitPhase::Reset
                &&& b.gcap == gcap
                &&& b.run.script@ == reset_script_spec()
                &&& b.run.pc == 0
                &&& b.run.phase == RunPhase::AwaitRead
                &&& r == read_step(Width::W32, GCTL)
            }
        },
        InitPhase::Reset => script_advanced(a, input, b, r, InitPhase::CorbSize, read_step(Width::W8, CORBSIZE)),
        InitPhase::CorbSize => {
            &&& b.phase == InitPhase::RirbSize
            &&& b.corbsize == (input % 0x100) as u8
            &&& r == read_step(Width::W8, RIRBSIZE)
        },
        InitPhase::RirbSize => {
            &&& b.phase == InitPhase::Placement
            &&& b.ring is Some
            &&& ring_of(b) == sized_ring(a.bar0, a.corbsize, (input % 0x100) as u8)
            &&& b.ring->Some_0.corb_contents() == Seq::new(ring_of(b).corb_entries as nat, |i: int| 0u32)
            &&& b.ring->Some_0.rirb_contents() == Seq::new(ring_of(b).rirb_entries as nat, |i: int| 0u64)
            &&& r == InitStep::PlaceRings
        },
        InitPhase::Placement => b.phase == a.phase && b.ring == a.ring && r == InitStep::PlaceRings,
        InitPhase::RingSetup => script_advanced(
            a,
            input,
            b,
            r,
            InitPhase::Interrupts,
            InitStep::Io(HwOp::Write { width: Width::W32, offset: INTCTL, value: INTCTL_GIE | INTCTL_CIE }),
        ),
        InitPhase::Interrupts => {
            &&& b.phase == InitPhase::CodecPresence
            &&& b.ring == a.ring
            &&& r == read_step(Width::W16, STATESTS)
        },
        InitPhase::CodecPresence => {
            let statests = (input % 0x1_0000) as u16;
            &&& b.ring is Some
            &&& ring_of(b) == ring_of(a)
            &&& b.discovery.statests == statests
            &&& b.discovery.codecs@.len() == 0
            &&& b.discovery.addr == next_present(statests, 0)
            &&& b.discovery.phase == if b.discovery.addr == 15 {
                DiscoveryPhase::Finished
            } else {
                DiscoveryPhase::VendorId
            }
            &&& after_discovery(b, r)
        },
        InitPhase::Discovery => {
            let (ring, ex, es) = exchange_spec(ring_of(a), a.exchange, input);
            &&& b.ring is Some
            &&& ring_of(b) == ring
            &&& match es {
                ExchangeStep::Io(op) => {
                    &&& b.phase == InitPhase::Discovery
                    &&& b.exchange == ex
                    &&& b.discovery == a.discovery
                    &&& r == InitStep::Io(op)
                },
                ExchangeStep::Done(resp) => discovery_transition(a.discovery, resp, b.discovery)
                    && after_discovery(b, r),
            }
        },
        InitPhase::Failed(e) => b.phase == a.phase && r == InitStep::Done(Err(e)),
        InitPhase::Complete => b.phase == a.phase && r == InitStep::Done(Ok(())),
    }
}

/// A run of a verb-free script never asks for a verb.
proof fn lemma_verb_free_run(run: ScriptRun, input: u64)
    requires
        run.wf(),
        verb_free(run.script@),
    ensures
        !(run.step_spec(input).1 is Verb),
{
    if run.pc < run.script@.len() {
        assert(!(run.script@[run.pc as int] is Verb));
    }
    if run.pc + 1 < run.script@.len() {
        assert(!(run.script@[run.pc + 1] is Verb));
    }
}

impl ControllerInit {
    pub open spec fn wf(&self) -> bool {
        &&& self.phase == InitPhase::Reset ==> {
            &&& self.run.wf()
            &&& self.run.script@ == reset_script_spec()
        }
        &&& self.phase == InitPhase::RingSetup ==> {
            &&& self.run.wf()
            &&& verb_free(self.run.script@)
            &&& forall|e: HdaError| !script_can_fail_with(self.run.script@, e)
        }
        &&& (self.phase == InitPhase::Placement || self.phase == InitPhase::RingSetup
            || self.phase == InitPhase::Interrupts || self.phase == InitPhase::CodecPresence
            || self.phase == InitPhase::Discovery || self.phase == InitPhase::Complete) ==> self.ring is Some
        &&& self.phase == InitPhase::Discovery ==> {
            &&& self.discovery.wf()
            &&& self.discovery.phase != DiscoveryPhase::Finished
            &&& self.exchange.wf(ring_of(*self))
        }
        &&& self.phase == InitPhase::Complete ==> {
            &&& self.discovery.wf()
            &&& self.discovery.codecs@.len() > 0
        }
        &&& self.phase matches InitPhase::Failed(e) ==> init_error(e)
        &&& !(self.phase == InitPhase::Start || self.phase == InitPhase::Version
            || self.phase == InitPhase::Capabilities || self.phase is Failed) ==> gcap_oss(self.gcap) > 0
    }

    /// Start bringing up the controller at `bar0`.
    pub fn new(bar0: usize) -> (s: ControllerInit)
        ensures
            s.bar0 == bar0,
            s.phase == InitPhase::Start,
            s.wf(),
    {
        ControllerInit {
            bar0,
            phase: InitPhase::Start,
            gcap: 0,
            corbsize: 0,
            run: ScriptRun::new(Vec::new()),
            ring: None,
            exchange: VerbExchange {
                verb: 0,
                phase: ExchangePhase::Start,
                new_wp: 0,
                expected_rp: 0,
                poll: Poll { attempts: 0, limit: 0 },
            },
            discovery: CodecDiscovery::new(0),
        }
    }

    /// The CORB/RIRB rings, once sized (their buffers' addresses are what
    /// [`ControllerInit::rings_placed`] takes).
    pub fn ring(&self) -> (r: Option<&CorbRirb>)
        ensures
            r is Some <==> self.ring is Some,
            r is Some ==> *r->Some_0 == self.ring->Some_0,
    {
        self.ring.as_ref()
    }

    /// Take the step of the discovery and send its next query, or finish.
    fn next_query(&mut self, ds: DiscoveryStep) -> (r: InitStep)
        requires
            old(self).ring is Some,
            old(self).discovery.wf(),
            ds is Done <==> old(self).discovery.phase == DiscoveryPhase::Finished,
            ds is Verb ==> ds->Verb_0 == old(self).discovery.query(),
            gcap_oss(old(self).gcap) > 0,
        ensures
            after_discovery(*final(self), r),
            final(self).wf(),
            final(self).ring is Some,
            ring_of(*final(self)) == ring_of(*old(self)),
            ring_contents_kept(*old(self), *final(self)),
            final(self).discovery == old(self).discovery,
            final(self).bar0 == old(self).bar0,
            final(self).gcap == old(self).gcap,
            final(self).corbsize == old(self).corbsize,
    {
        match ds {
            DiscoveryStep::Verb(q) => {
                let mut ring = match self.ring.take() {
                    Some(ring) => ring,
                    None => return InitStep::Done(Ok(())),
                };
                let mut ex = ring.send_verb(q);
                let es = ring.exchange_step(&mut ex, 0);
                self.exchange = ex;
                self.ring = Some(ring);
                self.phase = InitPhase::Discovery;
                match es {
                    ExchangeStep::Io(op) => InitStep::Io(op),
                    ExchangeStep::Done(_) => InitStep::Done(Ok(())),
                }
            },
            DiscoveryStep::Done => {
                if self.discovery.codecs.len() == 0 {
                    self.phase = InitPhase::Failed(HdaError::NoCodecsFound);
                    InitStep::Done(Err(HdaError::NoCodecsFound))
                } else {
                    self.phase = InitPhase::Complete;
                    InitStep::Done(Ok(()))
                }
            },
        }
    }

    /// Take the value read by the access asked for last (anything after a
    /// write) and say what to do next (see [`init_transition`]).
    pub fn step(&mut self, input: u64) -> (r: InitStep)
        requires
            old(self).wf(),
        ensures
            final(self).wf(),
            init_transition(*old(self), input, *final(self), r),
            r is Done <==> (final(self).phase is Failed || final(self).phase == InitPhase::Complete),
            r is PlaceRings <==> final(self).phase == InitPhase::Placement,
            r matches InitStep::Done(Err(e)) ==> init_error(e),
    {
        match self.phase {
            InitPhase::Start => {
                self.phase = InitPhase::Version;
                InitStep::Io(HwOp::Read { width: Width::W8, offset: VMAJ })
            },
            InitPhase::Version => {
                let vmaj = (input % 0x100) as u8;
                match check_version(vmaj) {
                    Ok(()) => {
                        self.phase = InitPhase::Capabilities;
                        InitStep::Io(HwOp::Read { width: Width::W16, offset: GCAP })
                    },
                    Err(e) => {
                        self.phase = InitPhase::Failed(e);
                        InitStep::Done(Err(e))
                    },
                }
            },
            InitPhase::Capabilities => {
                let gcap = (input % 0x1_0000) as u16;
                match check_capabilities(gcap) {
                    Ok(_) => {
                        self.gcap = gcap;
                        self.run = ScriptRun::new(reset_script());
                        self.phase = InitPhase::Reset;
                        match self.run.step(0) {
                            ScriptStep::Io(op) => InitStep::Io(op),
                            _ => InitStep::Done(Ok(())),
                        }
                    },
                    Err(e) => {
                        self.phase = InitPhase::Failed(e);
                        InitStep::Done(Err(e))
                    },
                }
            },
            InitPhase::Reset => {
                proof {
                    assert(verb_free(self.run.script@));
                    assert(init_error_of_script(self.run.script@)) by {
                        assert forall|e: HdaError| script_can_fail_with(self.run.script@, e) implies init_error(e) by {
                            let i = choose|i: int| 0 <= i < self.run.script@.len() && #[trigger] self.run.script@[i] is Wait
                                && self.run.script@[i]->Wait_fatal == Some(e);
                            assert(i == 1 || i == 4);
                        }
                    }
                }
                self.advance_script(input, InitPhase::CorbSize, InitStep::Io(HwOp::Read { width: Width::W8, offset: CORBSIZE }))
            },
            InitPhase::CorbSize => {
                self.corbsize = (input % 0x100) as u8;
                self.phase = InitPhase::RirbSize;
                InitStep::Io(HwOp::Read { width: Width::W8, offset: RIRBSIZE })
            },
            InitPhase::RirbSize => {
                let ring = CorbRirb::new(self.bar0, self.corbsize, (input % 0x100) as u8);
                self.ring = Some(ring);
                self.phase = InitPhase::Placement;
                InitStep::PlaceRings
            },
            InitPhase::Placement => InitStep::PlaceRings,
            InitPhase::RingSetup => {
                let next_step = match interrupt_enable() {
                    Instr::Write { width, offset, value } => InitStep::Io(HwOp::Write { width, offset, value }),
                    _ => InitStep::Done(Ok(())),
                };
                self.advance_script(input, InitPhase::Interrupts, next_step)
            },
            InitPhase::Interrupts => {
                self.phase = InitPhase::CodecPresence;
                InitStep::Io(HwOp::Read { width: Width::W16, offset: STATESTS })
            },
            InitPhase::CodecPresence => {
                let statests = (input % 0x1_0000) as u16;
                self.discovery = CodecDiscovery::new(statests);
                let ds = self.discovery.step(None);
                self.next_query(ds)
            },
            InitPhase::Discovery => {
                let mut ring = match self.ring.take() {
                    Some(ring) => ring,
                    None => return InitStep::Done(Ok(())),
                };
                let es = ring.exchange_step(&mut self.exchange, input);
                self.ring = Some(ring);
                match es {
                    ExchangeStep::Io(op) => InitStep::Io(op),
                    ExchangeStep::Done(resp) => {
                        let ds = self.discovery.step(resp);
                        self.next_query(ds)
                    },
                }
            },
            InitPhase::Failed(e) => InitStep::Done(Err(e)),
            InitPhase::Complete => InitStep::Done(Ok(())),
        }
    }

    /// Whether rings placed at `corb_phys` and `rirb_phys` end inside the 64-bit
    /// address space (what [`ControllerInit::rings_placed`] asks of them).
    pub fn placement_fits(&self, corb_phys: u64, rirb_phys: u64) -> (b: bool)
        requires
            self.wf(),
            self.phase == InitPhase::Placement,
        ensures
            b == (corb_phys as int + CORB_ENTRY_SIZE * ring_of(*self).corb_entries <= u64::MAX
                && rirb_phys as int + RIRB_ENTRY_SIZE * ring_of(*self).rirb_entries <= u64::MAX),
    {
        match self.ring.as_ref() {
            Some(ring) => {
                let corb_len = ring.corb_buffer().len();
                let rirb_len = ring.rirb_buffer().len();
                corb_phys as u128 + (CORB_ENTRY_SIZE as u128) * (corb_len as u128) <= u64::MAX as u128
                    && rirb_phys as u128 + (RIRB_ENTRY_SIZE as u128) * (rirb_len as u128) <= u64::MAX as u128
            },
            None => false,
        }
    }

    /// Take the physical addresses of the CORB and RIRB buffers (those of
    /// [`CorbRirb::corb_buffer`] and [`CorbRirb::rirb_buffer`]) and start the
    /// ring set-up script of [`CorbRirb::init_script`].
    pub fn rings_placed(&mut self, corb_phys: u64, rirb_phys: u64) -> (r: InitStep)
        requires
            old(self).wf(),
            old(self).phase == InitPhase::Placement,
            corb_phys as int + CORB_ENTRY_SIZE * ring_of(*old(self)).corb_entries <= u64::MAX,
            rirb_phys as int + RIRB_ENTRY_SIZE * ring_of(*old(self)).rirb_entries <= u64::MAX,
        ensures
            final(self).wf(),
            final(self).phase == InitPhase::RingSetup,
            final(self).ring is Some,
            ring_of(*final(self)) == (RingState { corb_phys, rirb_phys, ..ring_of(*old(self)) }),
            final(self).run.script@ == ring_setup_script(
                ring_of(*old(self)).corb_size_reg,
                ring_of(*old(self)).rirb_size_reg,
                corb_phys,
                rirb_phys,
            ),
            final(self).run.pc == 1,
            final(self).run.phase == RunPhase::Issue,
            r == InitStep::Io(HwOp::Write { width: Width::W8, offset: CORBCTL, value: 0 }),
            ring_contents_kept(*old(self), *final(self)),
            *final(self) == (ControllerInit {
                phase: final(self).phase,
                run: final(self).run,
                ring: final(self).ring,
                ..*old(self)
            }),
    {
        let mut ring = match self.ring.take() {
            Some(ring) => ring,
            None => return InitStep::Done(Ok(())),
        };
        let script = ring.init_script(corb_phys, rirb_phys);
        self.ring = Some(ring);
        proof {
            let s = script@;
            assert(verb_free(s));
            assert forall|e: HdaError| !script_can_fail_with(s, e) by {
                assert forall|i: int| 0 <= i < s.len() && #[trigger] s[i] is Wait implies s[i]->Wait_fatal is None by {
                    assert(i == 6 || i == 8);
                }
            }
        }
        self.run = ScriptRun::new(script);
        self.phase = InitPhase::RingSetup;
        match self.run.step(0) {
            ScriptStep::Io(op) => InitStep::Io(op),
            _ => InitStep::Done(Ok(())),
        }
    }

    /// The controller that a finished bring-up leaves: its BAR0, GCAP value,
    /// rings and codecs, with the output path of the first codec that has one;
    /// or the error the bring-up failed with.
    pub fn finish(self) -> (r: Result<HdaController, HdaError>)
        requires
            self.wf(),
            self.phase is Failed || self.phase == InitPhase::Complete,
        ensures
            self.phase matches InitPhase::Failed(e) ==> r == Err::<HdaController, HdaError>(e),
            self.phase == InitPhase::Complete ==> r is Ok && r->Ok_0@ == (ControllerView {
                bar0: self.bar0,
                gcap: self.gcap,
                ring: ring_of(self),
                codecs: self.discovery.codecs@,
                output: select_output_from(self.discovery.codecs@, 0),
            }),
            self.phase == InitPhase::Complete ==> gcap_oss(self.gcap) > 0 && 1 <= self.discovery.codecs@.len() <= 15,
            self.phase == InitPhase::Complete ==> forall|i: int| 0 <= i < self.discovery.codecs@.len()
                ==> codec_wf(self.discovery.statests, #[trigger] self.discovery.codecs@[i]),
            self.phase == InitPhase::Complete ==> forall|i: int, j: int| 0 <= i < j < self.discovery.codecs@.len()
                ==> #[trigger] self.discovery.codecs@[i].address < #[trigger] self.discovery.codecs@[j].address,
    {
        match self.phase {
            InitPhase::Failed(e) => Err(e),
            _ => {
                let ControllerInit { bar0, gcap, ring, discovery, .. } = self;
                match ring {
                    Some(ring) => HdaController::new(bar0, ring, discovery.into_codecs(), gcap),
                    None => Err(HdaError::NoCodecsFound),
                }
            },
        }
    }

    /// Go on with the running script, given `input`; at its end move to `next`
    /// and ask for `next_step`.
    fn advance_script(&mut self, input: u64, next: InitPhase, next_step: InitStep) -> (r: InitStep)
        requires
            old(self).run.wf(),
            verb_free(old(self).run.script@),
            init_error_of_script(old(self).run.script@),
            !(old(self).phase is Failed),
            !(next is Failed),
        ensures
            script_advanced(*old(self), input, *final(self), r, next, next_step),
            final(self).run.wf(),
            final(self).run.script@ == old(self).run.script@,
            final(self).phase matches InitPhase::Failed(e) ==> init_error(e),
            *final(self) == (ControllerInit { phase: final(self).phase, run: final(self).run, ..*old(self) }),
    {
        proof {
            lemma_verb_free_run(self.run, input);
            lemma_run_fails_only_by_fatal_waits(self.run, input);
        }
        let s = self.run.step(input);
        match s {
            ScriptStep::Io(op) => InitStep::Io(op),
            ScriptStep::Done(Ok(())) => {
                self.phase = next;
                next_step
            },
            ScriptStep::Done(Err(e)) => {
                self.phase = InitPhase::Failed(e);
                InitStep::Done(Err(e))
            },
            ScriptStep::Verb(_) => InitStep::Done(Ok(())),
        }
    }
}

/// Every error a fatal wait of script `s` can end with is a bring-up error.
pub open spec fn init_error_of_script(s: Seq<Instr>) -> bool {
    forall|e: HdaError| script_can_fail_with(s, e) ==> init_error(e)
}

} // verus!
