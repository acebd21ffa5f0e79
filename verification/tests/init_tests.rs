use std::collections::HashMap;

use hda_nostd::codec::RingRunStep;
use hda_nostd::init::{ControllerInit, InitPhase, InitStep};
use hda_nostd::registers::{
    CORBLBASE, CORBSIZE, CORBWP, GCAP, GCTL, INTCTL, RIRBLBASE, RIRBSIZE, RIRBWP, STATESTS, VMAJ,
};
use hda_nostd::script::{HdaError, HwOp};
use hda_nostd::widget::WidgetType;

/// A controller with one codec whose DAC (node 2) feeds a line-out pin (node 3).
struct Sim {
    regs: HashMap<usize, u64>,
    mem: HashMap<u64, u64>,
    vmaj: u64,
    gcap: u64,
    statests: u64,
    crst_follows: bool,
    rirb_wp: u64,
    corb_rp: u64,
    verbs: Vec<u32>,
}

impl Sim {
    fn new() -> Sim {
        Sim {
            regs: HashMap::new(),
            mem: HashMap::new(),
            vmaj: 1,
            gcap: 0x4401,
            statests: 0x0001,
            crst_follows: true,
            rirb_wp: 0,
            corb_rp: 0,
            verbs: Vec::new(),
        }
    }

    fn reg(&self, offset: usize) -> u64 {
        *self.regs.get(&offset).unwrap_or(&0)
    }

    fn codec(verb: u32) -> u32 {
        let nid = (verb >> 20) & 0xFF;
        let cmd = (verb >> 8) & 0xFFF;
        let payload = verb & 0xFF;
        match (nid, cmd, payload) {
            (0, 0xF00, 0x00) => 0x10EC_0269,
            (0, 0xF00, 0x04) => 0x0001_0001,
            (1, 0xF00, 0x05) => 0x0000_0001,
            (1, 0xF00, 0x04) => 0x0002_0002,
            (2, 0xF00, 0x09) => 0x0000_0000,
            (3, 0xF00, 0x09) => 0x0040_0100,
            (3, 0xF1C, _) => 0x0101_4010,
            (3, 0xF00, 0x0C) => 0x0000_0010,
            (3, 0xF00, 0x0F) => 0x0000_0001,
            (3, 0xF02, 0) => 0x0000_0002,
            _ => 0,
        }
    }

    fn access(&mut self, op: HwOp) -> u64 {
        match op {
            HwOp::Read { offset, .. } => match offset {
                VMAJ => self.vmaj,
                GCAP => self.gcap,
                STATESTS => self.statests,
                CORBSIZE | RIRBSIZE => 0x40,
                RIRBWP => self.rirb_wp,
                GCTL if !self.crst_follows => 0,
                _ => self.reg(offset),
            },
            HwOp::Write { offset, value, .. } => {
                self.regs.insert(offset, value as u64);
                // The controller fetches every CORB entry up to the new write pointer.
                while offset == CORBWP && self.corb_rp != value as u64 {
                    self.corb_rp = (self.corb_rp + 1) % 256;
                    let corb = self.reg(CORBLBASE);
                    let verb = *self.mem.get(&(corb + 4 * self.corb_rp)).unwrap_or(&0) as u32;
                    self.verbs.push(verb);
                    self.rirb_wp = (self.rirb_wp + 1) % 256;
                    let rirb = self.reg(RIRBLBASE);
                    self.mem.insert(rirb + 8 * self.rirb_wp, Sim::codec(verb) as u64);
                }
                0
            }
            HwOp::Spin { .. } => 0,
            HwOp::StoreDma32 { addr, value } => {
                self.mem.insert(addr, value as u64);
                0
            }
            HwOp::LoadDma64 { addr } => *self.mem.get(&addr).unwrap_or(&0),
        }
    }
}

fn bring_up(sim: &mut Sim) -> (ControllerInit, Result<(), HdaError>) {
    let mut init = ControllerInit::new(0xFE00_0000);
    let mut next = init.step(0);
    loop {
        next = match next {
            InitStep::Io(op) => {
                let v = sim.access(op);
                init.step(v)
            }
            InitStep::PlaceRings => init.rings_placed(0x10_0000, 0x20_0000),
            InitStep::Done(r) => return (init, r),
        };
    }
}

#[test]
fn bring_up_discovers_codec_and_output() {
    let mut sim = Sim::new();
    let (init, r) = bring_up(&mut sim);
    assert_eq!(r, Ok(()));
    assert_eq!(init.phase, InitPhase::Complete);
    assert_eq!(sim.reg(INTCTL), 0xC000_0000);
    assert_eq!(sim.reg(CORBLBASE), 0x10_0000);
    assert_eq!(sim.verbs[0], 0x000F_0000);
    let mut c = init.finish().unwrap_or_else(|_| panic!("controller"));
    assert_eq!(c.codec_count(), 1);
    let codec = &c.codecs()[0];
    assert_eq!((codec.vendor_id, codec.device_id, codec.afg_nid), (0x10EC, 0x0269, 1));
    assert_eq!(codec.widgets.len(), 2);
    assert_eq!(codec.widgets[0].widget_type, WidgetType::AudioOutput);
    assert_eq!(codec.widgets[1].widget_type, WidgetType::PinComplex);
    assert_eq!(codec.widgets[1].connections, vec![2]);
    assert!(c.has_output());
    assert!(c.output().is_some());
}

#[test]
fn bring_up_rejects_other_versions() {
    let mut sim = Sim::new();
    sim.vmaj = 2;
    let (init, r) = bring_up(&mut sim);
    assert_eq!(r, Err(HdaError::UnsupportedVersion));
    assert!(matches!(init.finish(), Err(HdaError::UnsupportedVersion)));
}

#[test]
fn bring_up_needs_output_streams() {
    let mut sim = Sim::new();
    sim.gcap = 0x0401;
    let (_, r) = bring_up(&mut sim);
    assert_eq!(r, Err(HdaError::NoOutputStreams));
}

#[test]
fn bring_up_fails_when_reset_never_completes() {
    let mut sim = Sim::new();
    sim.crst_follows = false;
    let (_, r) = bring_up(&mut sim);
    assert_eq!(r, Err(HdaError::ResetExitTimeout));
}

#[test]
fn bring_up_without_codecs_fails() {
    let mut sim = Sim::new();
    sim.statests = 0;
    let (init, r) = bring_up(&mut sim);
    assert_eq!(r, Err(HdaError::NoCodecsFound));
    assert!(sim.verbs.is_empty());
    assert!(matches!(init.finish(), Err(HdaError::NoCodecsFound)));
}

#[test]
fn playback_script_runs_through_the_rings() {
    let mut sim = Sim::new();
    let (init, _) = bring_up(&mut sim);
    let mut c = init.finish().unwrap_or_else(|_| panic!("controller"));
    let mut out = c.output().unwrap_or_else(|| panic!("output"));
    let p = out
        .play_pcm(&[1, 2, 3, 4], 48000, 2, vec![0u8; 8], 0x30_0000, vec![0u128; 1], 0x40_0000)
        .unwrap_or_else(|_| panic!("playback"));
    let before = sim.verbs.len();
    let ring = out.ring_mut();
    let mut rr = ring.start_script(p.script);
    let mut input = 0u64;
    let result = loop {
        match ring.run_step(&mut rr, input) {
            RingRunStep::Io(op) => input = sim.access(op),
            RingRunStep::Done(r) => break r,
        }
    };
    assert_eq!(result, Ok(()));
    assert_eq!(
        sim.verbs[before..].to_vec(),
        vec![0x0026_0010, 0x0022_0011, 0x0027_0500, 0x0037_07C0, 0x0027_0500, 0x0037_0500]
    );
    // Stream descriptor 4: BDL address, cyclic buffer length, format, stream 1, running.
    assert_eq!(sim.reg(0x118), 0x40_0000);
    assert_eq!(sim.reg(0x108), 8);
    assert_eq!(sim.reg(0x112), 0x0011);
    assert_eq!(sim.reg(0x102), 0x18);
    assert_eq!(sim.reg(0x100) & 0x02, 0x02);
}
