//! HDA codec communication via CORB/RIRB ring buffers.
//!
//! The Command Output Ring Buffer (CORB) sends 32-bit verbs to codecs.
//! The Response Input Ring Buffer (RIRB) receives 64-bit responses.
//! Per Intel HDA spec 1.0a, Sections 4.4 and 4.5.
use vstd::prelude::*;

use crate::registers::{
    CORBCTL, CORBCTL_MEIE, CORBCTL_RUN, CORBLBASE, CORBRP, CORBRP_RST, CORBSIZE, CORBUBASE,
    CORBWP, RINGBUF_SIZE_16, RINGBUF_SIZE_2, RINGBUF_SIZE_256, RINTCNT, RIRBCTL,
    RIRBCTL_RINTCTL, RIRBCTL_RUN, RIRBLBASE, RIRBSIZE, RIRBSTS, RIRBSTS_RINTFL, RIRBUBASE,
    RIRBWP, RIRBWP_RST,
};
use crate::script::{HdaError, HwOp, Instr, Poll, PollOutcome, ScriptRun, ScriptStep, Width, script_wf};

verus! {

/// Maximum number of CORB/RIRB entries (256 is the largest supported size).
pub const RING_BUF_MAX_ENTRIES: usize = 256;

/// CORB entry size: 4 bytes (one 32-bit verb).
pub const CORB_ENTRY_SIZE: usize = 4;

/// RIRB entry size: 8 bytes (32-bit response + 32-bit response extended).
pub const RIRB_ENTRY_SIZE: usize = 8;

/// Maximum poll iterations waiting for a RIRB response before timeout.
pub const RIRB_POLL_TIMEOUT: u32 = 100_000;

/// Attempts allowed while a CORB read pointer reset is acknowledged.
pub const CORB_RESET_ATTEMPTS: u32 = 10_000;

// =============================================================================
// Verb encoding helpers (Section 7.1)
// =============================================================================

/// The verb word `codec(4) | nid(8) | verb(12) | payload(8)`, field by field.
pub open spec fn verb_short_spec(codec: u8, nid: u8, verb: u16, payload: u8) -> u32 {
    ((codec % 16) as int * 0x1000_0000 + nid as int * 0x10_0000 + (verb % 0x1000) as int * 0x100
        + payload as int) as u32
}

/// The verb word `codec(4) | nid(8) | verb(4) | payload(16)`, field by field.
pub open spec fn verb_long_spec(codec: u8, nid: u8, verb: u8, payload: u16) -> u32 {
    ((codec % 16) as int * 0x1000_0000 + nid as int * 0x10_0000 + (verb % 16) as int * 0x1_0000
        + payload as int) as u32
}

/// Encode a 12-bit verb with an 8-bit payload:
/// `codec(4) | nid(8) | verb(12) | payload(8)`, 32 bits in all.
/// Used for "Set" and short "Get" verbs.
pub fn encode_verb_short(codec: u8, nid: u8, verb: u16, payload: u8) -> (v: u32)
    ensures
        v == verb_short_spec(codec, nid, verb, payload),
        v as int == (codec % 16) as int * 0x1000_0000 + nid as int * 0x10_0000
            + (verb % 0x1000) as int * 0x100 + payload as int,
{
    let c: u32 = codec as u32;
    let n: u32 = nid as u32;
    let b: u32 = verb as u32;
    let p: u32 = payload as u32;
    assert(((c & 0x0F) << 28u32) | (n << 20u32) | ((b & 0xFFF) << 8u32) | p
        == (c & 0x0F) * 0x1000_0000 + n * 0x10_0000 + (b & 0xFFF) * 0x100 + p) by (bit_vector)
        requires
            c <= 0xFF,
            n <= 0xFF,
            b <= 0xFFFF,
            p <= 0xFF,
    ;
    assert((c & 0x0F) == c % 16 && (b & 0xFFF) == b % 0x1000) by (bit_vector);
    ((c & 0x0F) << 28u32) | (n << 20u32) | ((b & 0xFFF) << 8u32) | p
}

/// Encode a 4-bit verb with a 16-bit payload: `codec(4) | nid(8) | verb(4) | payload(16)`.
/// Used for verbs like SET_STREAM_FORMAT, SET_AMP_GAIN, SET_CHANNEL_STREAMID.
pub fn encode_verb_long(codec: u8, nid: u8, verb: u8, payload: u16) -> (v: u32)
    ensures
        v == verb_long_spec(codec, nid, verb, payload),
        v as int == (codec % 16) as int * 0x1000_0000 + nid as int * 0x10_0000
            + (verb % 16) as int * 0x1_0000 + payload as int,
{
    let c: u32 = codec as u32;
    let n: u32 = nid as u32;
    let b: u32 = verb as u32;
    let p: u32 = payload as u32;
    assert(((c & 0x0F) << 28u32) | (n << 20u32) | ((b & 0x0F) << 16u32) | p
        == (c & 0x0F) * 0x1000_0000 + n * 0x10_0000 + (b & 0x0F) * 0x1_0000 + p) by (bit_vector)
        requires
            c <= 0xFF,
            n <= 0xFF,
            b <= 0xFF,
            p <= 0xFFFF,
    ;
    assert((c & 0x0F) == c % 16 && (b & 0x0F) == b % 16) by (bit_vector);
    ((c & 0x0F) << 28u32) | (n << 20u32) | ((b & 0x0F) << 16u32) | p
}

/// The fields of a short verb word can be read back from it: the codec address
/// (low four bits), the node, the 12-bit verb and the payload.
pub proof fn lemma_verb_short_fields(codec: u8, nid: u8, verb: u16, payload: u8)
    ensures
        ({
            let v = verb_short_spec(codec, nid, verb, payload);
            &&& v / 0x1000_0000 == codec % 16
            &&& (v / 0x10_0000) % 0x100 == nid
            &&& (v / 0x100) % 0x1000 == verb % 0x1000
            &&& v % 0x100 == payload
        }),
{
}

/// The fields of a long verb word can be read back from it: the codec address
/// (low four bits), the node, the 4-bit verb and the payload.
pub proof fn lemma_verb_long_fields(codec: u8, nid: u8, verb: u8, payload: u16)
    ensures
        ({
            let v = verb_long_spec(codec, nid, verb, payload);
            &&& v / 0x1000_0000 == codec % 16
            &&& (v / 0x10_0000) % 0x100 == nid
            &&& (v / 0x1_0000) % 16 == verb % 16
            &&& v % 0x1_0000 == payload
        }),
{
}

// =============================================================================
// Common verb IDs (Section 7.3)
// =============================================================================

/// GET_PARAMETER (verb 0xF00, 8-bit parameter ID)
pub const VERB_GET_PARAMETER: u16 = 0xF00;

/// GET_CONNECTION_LIST_ENTRY (verb 0xF02)
pub const VERB_GET_CONN_LIST: u16 = 0xF02;

/// GET_CONNECTION_SELECT (verb 0xF01)
pub const VERB_GET_CONN_SELECT: u16 = 0xF01;

/// SET_CONNECTION_SELECT (verb 0x701)
pub const VERB_SET_CONN_SELECT: u16 = 0x701;

/// GET_PIN_WIDGET_CONTROL (verb 0xF07)
pub const VERB_GET_PIN_CTRL: u16 = 0xF07;

/// SET_PIN_WIDGET_CONTROL (verb 0x707)
pub const VERB_SET_PIN_CTRL: u16 = 0x707;

/// GET_EAPD/BTL_ENABLE (verb 0xF0C)
pub const VERB_GET_EAPDBTL: u16 = 0xF0C;

/// SET_EAPD/BTL_ENABLE (verb 0x70C)
pub const VERB_SET_EAPDBTL: u16 = 0x70C;

/// GET_POWER_STATE (verb 0xF05)
pub const VERB_GET_POWER_STATE: u16 = 0xF05;

/// SET_POWER_STATE (verb 0x705)
pub const VERB_SET_POWER_STATE: u16 = 0x705;

/// GET_STREAM_FORMAT (4-bit verb 0xA)
pub const VERB_GET_STREAM_FORMAT: u8 = 0x0A;

/// SET_STREAM_FORMAT (4-bit verb 0x2)
pub const VERB_SET_STREAM_FORMAT: u8 = 0x02;

/// GET_AMP_GAIN_MUTE (verb 0xB)
pub const VERB_GET_AMP_GAIN: u8 = 0x0B;

/// SET_AMP_GAIN_MUTE (verb 0x3)
pub const VERB_SET_AMP_GAIN: u8 = 0x03;

/// SET_CHANNEL/STREAM_ID (4-bit verb 0x6)
pub const VERB_SET_CHANNEL_STREAMID: u8 = 0x06;

/// GET_CHANNEL/STREAM_ID (verb 0xF06)
pub const VERB_GET_CHANNEL_STREAMID: u16 = 0xF06;

/// GET_CONFIGURATION_DEFAULT (verb 0xF1C)
pub const VERB_GET_CONFIG_DEFAULT: u16 = 0xF1C;

// =============================================================================
// Pin Widget Control bits (Section 7.3.3.13)
// =============================================================================

/// Headphone Enable (bit 7)
pub const PIN_CTRL_HP_ENABLE: u8 = 0x80;
/// Output Enable (bit 6)
pub const PIN_CTRL_OUT_ENABLE: u8 = 0x40;
/// Input Enable (bit 5)
pub const PIN_CTRL_IN_ENABLE: u8 = 0x20;

// =============================================================================
// Amp Gain/Mute payload encoding (Section 7.3.3.7)
// =============================================================================

/// Set Output Amp (bit 15)
pub const AMP_SET_OUTPUT: u16 = 0x8000;
/// Set Input Amp (bit 14)
pub const AMP_SET_INPUT: u16 = 0x4000;
/// Set Left Channel (bit 13)
pub const AMP_SET_LEFT: u16 = 0x2000;
/// Set Right Channel (bit 12)
pub const AMP_SET_RIGHT: u16 = 0x1000;
/// Mute (bit 7)
pub const AMP_MUTE: u16 = 0x0080;
/// Gain index mask (bits 6:0)
pub const AMP_GAIN_MASK: u16 = 0x7F;

// =============================================================================
// CORB/RIRB ring buffer management
// =============================================================================

/// Pick the largest supported ring buffer size from the capability bits.
///
/// Returns (number_of_entries, size_register_value).
pub fn pick_ring_size(cap: u8) -> (r: (usize, u8))
    ensures
        cap & 4 != 0 ==> r == (256usize, RINGBUF_SIZE_256),
        cap & 4 == 0 && cap & 2 != 0 ==> r == (16usize, RINGBUF_SIZE_16),
        cap & 4 == 0 && cap & 2 == 0 ==> r == (2usize, RINGBUF_SIZE_2),
{
    if cap & 0b100 != 0 {
        (256, RINGBUF_SIZE_256)
    } else if cap & 0b010 != 0 {
        (16, RINGBUF_SIZE_16)
    } else {
        (2, RINGBUF_SIZE_2)
    }
}

/// A ring holds 2, 16 or 256 entries.
pub open spec fn ring_entries_ok(n: usize) -> bool {
    n == 2 || n == 16 || n == 256
}

/// Entry count and size-register value chosen from a CORBSIZE/RIRBSIZE register value:
/// the capability sits in bits 7:4, the selected size goes in bits 1:0.
pub open spec fn ring_choice(size_reg: u8) -> (usize, u8) {
    let cap = (size_reg >> 4u8) & 0x0F;
    if cap & 4 != 0 {
        (256usize, RINGBUF_SIZE_256)
    } else if cap & 2 != 0 {
        (16usize, RINGBUF_SIZE_16)
    } else {
        (2usize, RINGBUF_SIZE_2)
    }
}

/// What the CORB/RIRB state says of itself: sizes, DMA addresses and the
/// software read pointer of the RIRB.
pub struct RingState {
    pub bar0: usize,
    pub corb_entries: usize,
    pub corb_phys: u64,
    pub corb_size_reg: u8,
    pub rirb_entries: usize,
    pub rirb_phys: u64,
    pub rirb_size_reg: u8,
    pub rirb_rp: usize,
}

/// CORB/RIRB state for communicating with codecs.
pub struct CorbRirb {
    /// BAR0 MMIO base address.
    bar0: usize,
    /// CORB DMA buffer. Each entry is 4 bytes (u32 verb).
    corb_buf: Vec<u32>,
    /// Physical address of the CORB buffer.
    corb_phys: u64,
    /// Number of CORB entries (2, 16, or 256).
    corb_entries: usize,
    /// CORBSIZE value that selects `corb_entries`.
    corb_size_reg: u8,
    /// RIRB DMA buffer. Each entry is 8 bytes: u32 response + u32 response_ex.
    rirb_buf: Vec<u64>,
    /// Physical address of the RIRB buffer.
    rirb_phys: u64,
    /// Number of RIRB entries (2, 16, or 256).
    rirb_entries: usize,
    /// RIRBSIZE value that selects `rirb_entries`.
    rirb_size_reg: u8,
    /// Current RIRB read pointer (software-maintained).
    rirb_rp: usize,
}

impl View for CorbRirb {
    type V = RingState;

    closed spec fn view(&self) -> RingState {
        RingState {
            bar0: self.bar0,
            corb_entries: self.corb_entries,
            corb_phys: self.corb_phys,
            corb_size_reg: self.corb_size_reg,
            rirb_entries: self.rirb_entries,
            rirb_phys: self.rirb_phys,
            rirb_size_reg: self.rirb_size_reg,
            rirb_rp: self.rirb_rp,
        }
    }
}

/// Sizes are legal, the read pointer is inside the RIRB, and every DMA slot
/// address fits 64 bits.
pub open spec fn ring_state_wf(r: RingState) -> bool {
    &&& ring_entries_ok(r.corb_entries)
    &&& ring_entries_ok(r.rirb_entries)
    &&& r.rirb_rp < r.rirb_entries
    &&& r.corb_phys as int + CORB_ENTRY_SIZE * r.corb_entries <= u64::MAX
    &&& r.rirb_phys as int + RIRB_ENTRY_SIZE * r.rirb_entries <= u64::MAX
}

/// The register script that programs and starts both rings with the given size
/// register values and DMA addresses (see [`CorbRirb::init_script`]).
pub open spec fn ring_setup_script(corb_size_reg: u8, rirb_size_reg: u8, corb_phys: u64, rirb_phys: u64) -> Seq<Instr> {
    seq![
        Instr::Write { width: Width::W8, offset: CORBCTL, value: 0 },
        Instr::Write { width: Width::W8, offset: RIRBCTL, value: 0 },
        Instr::Write { width: Width::W32, offset: CORBLBASE, value: corb_phys as u32 },
        Instr::Write { width: Width::W32, offset: CORBUBASE, value: (corb_phys >> 32u64) as u32 },
        Instr::Write { width: Width::W8, offset: CORBSIZE, value: corb_size_reg as u32 },
        Instr::Write { width: Width::W16, offset: CORBRP, value: CORBRP_RST as u32 },
        Instr::Wait {
            width: Width::W16,
            offset: CORBRP,
            mask: CORBRP_RST as u32,
            when_set: true,
            limit: CORB_RESET_ATTEMPTS,
            pause: 0,
            fatal: None,
        },
        Instr::Write { width: Width::W16, offset: CORBRP, value: 0 },
        Instr::Wait {
            width: Width::W16,
            offset: CORBRP,
            mask: CORBRP_RST as u32,
            when_set: false,
            limit: CORB_RESET_ATTEMPTS,
            pause: 0,
            fatal: None,
        },
        Instr::Write { width: Width::W16, offset: CORBWP, value: 0 },
        Instr::Write { width: Width::W32, offset: RIRBLBASE, value: rirb_phys as u32 },
        Instr::Write { width: Width::W32, offset: RIRBUBASE, value: (rirb_phys >> 32u64) as u32 },
        Instr::Write { width: Width::W8, offset: RIRBSIZE, value: rirb_size_reg as u32 },
        Instr::Write { width: Width::W16, offset: RIRBWP, value: RIRBWP_RST as u32 },
        Instr::Write { width: Width::W16, offset: RINTCNT, value: 1 },
        Instr::Write { width: Width::W8, offset: CORBCTL, value: (CORBCTL_RUN | CORBCTL_MEIE) as u32 },
        Instr::Write { width: Width::W8, offset: RIRBCTL, value: (RIRBCTL_RUN | RIRBCTL_RINTCTL) as u32 },
    ]
}

impl CorbRirb {
    #[verifier::type_invariant]
    closed spec fn inv(self) -> bool {
        &&& ring_state_wf(self@)
        &&& self.corb_buf@.len() == self.corb_entries
        &&& self.rirb_buf@.len() == self.rirb_entries
    }

    /// The entries of the CORB DMA buffer as the library holds them (the
    /// controller reads them by DMA).
    pub closed spec fn corb_contents(&self) -> Seq<u32> {
        self.corb_buf@
    }

    /// The entries of the RIRB DMA buffer as the library holds them (the
    /// controller fills them by DMA, behind the library's back).
    pub closed spec fn rirb_contents(&self) -> Seq<u64> {
        self.rirb_buf@
    }

    /// Set up the CORB/RIRB state for the controller at `bar0` from the values of
    /// its CORBSIZE and RIRBSIZE registers: the largest ring each supports is
    /// chosen and a zeroed DMA buffer of that many entries allocated. The DMA
    /// addresses are recorded by [`CorbRirb::init_script`].
    pub fn new(bar0: usize, corbsize_reg: u8, rirbsize_reg: u8) -> (r: CorbRirb)
        ensures
            r@.bar0 == bar0,
            r@.corb_entries == ring_choice(corbsize_reg).0,
            r@.corb_size_reg == (corbsize_reg & 0xFC) | ring_choice(corbsize_reg).1,
            r@.rirb_entries == ring_choice(rirbsize_reg).0,
            r@.rirb_size_reg == (rirbsize_reg & 0xFC) | ring_choice(rirbsize_reg).1,
            r@.corb_phys == 0,
            r@.rirb_phys == 0,
            r@.rirb_rp == 0,
            r.corb_contents() == Seq::new(r@.corb_entries as nat, |i: int| 0u32),
            r.rirb_contents() == Seq::new(r@.rirb_entries as nat, |i: int| 0u64),
    {
        let corb_size_cap = (corbsize_reg >> 4u8) & 0x0F;
        let (corb_entries, corb_size_val) = pick_ring_size(corb_size_cap);
        let rirb_size_cap = (rirbsize_reg >> 4u8) & 0x0F;
        let (rirb_entries, rirb_size_val) = pick_ring_size(rirb_size_cap);
        let corb_buf: Vec<u32> = vec![0u32; corb_entries];
        let rirb_buf: Vec<u64> = vec![0u64; rirb_entries];
        CorbRirb {
            bar0,
            corb_buf,
            corb_phys: 0,
            corb_entries,
            corb_size_reg: (corbsize_reg & 0xFC) | corb_size_val,
            rirb_buf,
            rirb_phys: 0,
            rirb_entries,
            rirb_size_reg: (rirbsize_reg & 0xFC) | rirb_size_val,
            rirb_rp: 0,
        }
    }

    /// The CORB DMA buffer (its address is the CORB's physical address).
    pub fn corb_buffer(&self) -> (b: &Vec<u32>)
        ensures
            b@.len() == self@.corb_entries,
            b@ == self.corb_contents(),
    {
        proof { use_type_invariant(self); }
        &self.corb_buf
    }

    /// The RIRB DMA buffer (its address is the RIRB's physical address).
    pub fn rirb_buffer(&self) -> (b: &Vec<u64>)
        ensures
            b@.len() == self@.rirb_entries,
            b@ == self.rirb_contents(),
    {
        proof { use_type_invariant(self); }
        &self.rirb_buf
    }

    /// Record the physical addresses of the two DMA buffers and return the
    /// register script that programs and starts both rings: stop both DMA
    /// engines, program the CORB base and size, reset the CORB read pointer
    /// (waiting for the controller to acknowledge setting and clearing the reset
    /// bit, giving up silently after 10000 extra reads each), clear the CORB write
    /// pointer, program the RIRB base and size, reset the RIRB write pointer,
    /// ask for an interrupt after every response, and start both engines.
    pub fn init_script(&mut self, corb_phys: u64, rirb_phys: u64) -> (s: Vec<Instr>)
        requires
            corb_phys as int + CORB_ENTRY_SIZE * old(self)@.corb_entries <= u64::MAX,
            rirb_phys as int + RIRB_ENTRY_SIZE * old(self)@.rirb_entries <= u64::MAX,
        ensures
            final(self)@ == (RingState { corb_phys, rirb_phys, ..old(self)@ }),
            script_wf(s@),
            final(self).corb_contents() == old(self).corb_contents(),
            final(self).rirb_contents() == old(self).rirb_contents(),
            s@ == ring_setup_script(old(self)@.corb_size_reg, old(self)@.rirb_size_reg, corb_phys, rirb_phys),
    {
        proof { use_type_invariant(&*self); }
        self.corb_phys = corb_phys;
        self.rirb_phys = rirb_phys;
        let s = vec![
            Instr::Write { width: Width::W8, offset: CORBCTL, value: 0 },
            Instr::Write { width: Width::W8, offset: RIRBCTL, value: 0 },
            Instr::Write { width: Width::W32, offset: CORBLBASE, value: corb_phys as u32 },
            Instr::Write { width: Width::W32, offset: CORBUBASE, value: (corb_phys >> 32u64) as u32 },
            Instr::Write { width: Width::W8, offset: CORBSIZE, value: self.corb_size_reg as u32 },
            Instr::Write { width: Width::W16, offset: CORBRP, value: CORBRP_RST as u32 },
            Instr::Wait {
                width: Width::W16,
                offset: CORBRP,
                mask: CORBRP_RST as u32,
                when_set: true,
                limit: CORB_RESET_ATTEMPTS,
                pause: 0,
                fatal: None,
            },
            Instr::Write { width: Width::W16, offset: CORBRP, value: 0 },
            Instr::Wait {
                width: Width::W16,
                offset: CORBRP,
                mask: CORBRP_RST as u32,
                when_set: false,
                limit: CORB_RESET_ATTEMPTS,
                pause: 0,
                fatal: None,
            },
            Instr::Write { width: Width::W16, offset: CORBWP, value: 0 },
            Instr::Write { width: Width::W32, offset: RIRBLBASE, value: rirb_phys as u32 },
            Instr::Write { width: Width::W32, offset: RIRBUBASE, value: (rirb_phys >> 32u64) as u32 },
            Instr::Write { width: Width::W8, offset: RIRBSIZE, value: self.rirb_size_reg as u32 },
            Instr::Write { width: Width::W16, offset: RIRBWP, value: RIRBWP_RST as u32 },
            Instr::Write { width: Width::W16, offset: RINTCNT, value: 1 },
            Instr::Write { width: Width::W8, offset: CORBCTL, value: (CORBCTL_RUN | CORBCTL_MEIE) as u32 },
            Instr::Write { width: Width::W8, offset: RIRBCTL, value: (RIRBCTL_RUN | RIRBCTL_RINTCTL) as u32 },
        ];
        proof {
            assert((corb_phys >> 32u64) <= 0xFFFF_FFFF
                && (rirb_phys >> 32u64) <= 0xFFFF_FFFF
            ) by (bit_vector);
            assert(forall|i: int| 0 <= i < s@.len() ==> #[trigger] s@[i].wf());
        }
        s
    }

    /// Send a 32-bit verb to a codec via CORB and wait for the RIRB response: the
    /// exchange to run with [`CorbRirb::exchange_step`], which ends with the
    /// response, or `None` on timeout. It begins by reading the CORB write pointer.
    pub fn send_verb(&self, verb: u32) -> (ex: VerbExchange)
        ensures
            ex == fresh_exchange(verb),
            ex.wf(self@),
    {
        proof { use_type_invariant(self); }
        VerbExchange {
            verb,
            phase: ExchangePhase::Start,
            new_wp: 0,
            expected_rp: 0,
            poll: Poll { attempts: 0, limit: 0 },
        }
    }

    /// Ask node `nid` of codec `codec` for parameter `param_id` (GET_PARAMETER).
    pub fn get_parameter(&self, codec: u8, nid: u8, param_id: u8) -> (ex: VerbExchange)
        ensures
            ex == fresh_exchange(verb_short_spec(codec, nid, VERB_GET_PARAMETER, param_id)),
            ex.wf(self@),
    {
        self.send_verb(encode_verb_short(codec, nid, VERB_GET_PARAMETER, param_id))
    }

    /// Send a GET verb (12-bit verb, 8-bit payload) and return the response.
    pub fn get_verb(&self, codec: u8, nid: u8, verb_id: u16, payload: u8) -> (ex: VerbExchange)
        ensures
            ex == fresh_exchange(verb_short_spec(codec, nid, verb_id, payload)),
            ex.wf(self@),
    {
        self.send_verb(encode_verb_short(codec, nid, verb_id, payload))
    }

    /// Send a SET verb (12-bit verb, 8-bit payload).
    pub fn set_verb(&self, codec: u8, nid: u8, verb_id: u16, payload: u8) -> (ex: VerbExchange)
        ensures
            ex == fresh_exchange(verb_short_spec(codec, nid, verb_id, payload)),
            ex.wf(self@),
    {
        self.send_verb(encode_verb_short(codec, nid, verb_id, payload))
    }

    /// Send a long (4-bit) verb with 16-bit payload and return the response.
    pub fn send_verb_long(&self, codec: u8, nid: u8, verb_id: u8, payload: u16) -> (ex: VerbExchange)
        ensures
            ex == fresh_exchange(verb_long_spec(codec, nid, verb_id, payload)),
            ex.wf(self@),
    {
        self.send_verb(encode_verb_long(codec, nid, verb_id, payload))
    }

    /// One transition of a verb exchange: send the verb through the CORB and
    /// wait for its solicited response in the RIRB. `input` is the value read by
    /// the access asked for in the previous step.
    ///
    /// The verb is stored in the CORB slot after the one the hardware write
    /// pointer names, and the write pointer is moved to that slot. Then the RIRB
    /// write pointer is polled; whenever it differs from the software read
    /// pointer, the next RIRB slot is read, the read pointer moves to it and the
    /// response interrupt is acknowledged. A solicited response (bit 4 of the
    /// extended word clear) ends the exchange with its low 32 bits; an
    /// unsolicited one is skipped, and polling goes on with the slot after it.
    /// After 100000 polls without a solicited response the exchange ends with `None`.
    pub fn exchange_step(&mut self, ex: &mut VerbExchange, input: u64) -> (r: ExchangeStep)
        requires
            old(ex).wf(old(self)@),
        ensures
            final(ex).wf(final(self)@),
            (final(self)@, *final(ex), r) == exchange_spec(old(self)@, *old(ex), input),
            final(self).corb_contents() == old(self).corb_contents(),
            final(self).rirb_contents() == old(self).rirb_contents(),
    {
        proof {
            use_type_invariant(&*self);
            assert(input & 0xFFFF == input % 0x1_0000
                && input & 0xFFFF_FFFF == input % 0x1_0000_0000
            ) by (bit_vector);
        }
        match ex.phase {
            ExchangePhase::Start => {
                ex.phase = ExchangePhase::AwaitCorbWp;
                ExchangeStep::Io(HwOp::Read { width: Width::W16, offset: CORBWP })
            },
            ExchangePhase::AwaitCorbWp => {
                let wp = (input & 0xFFFF) as usize;
                let new_wp = (wp + 1) % self.corb_entries;
                ex.new_wp = new_wp;
                ex.phase = ExchangePhase::CorbStored;
                let addr = self.corb_phys + (new_wp * CORB_ENTRY_SIZE) as u64;
                ExchangeStep::Io(HwOp::StoreDma32 { addr, value: ex.verb })
            },
            ExchangePhase::CorbStored => {
                ex.poll = Poll::new(RIRB_POLL_TIMEOUT - 1);
                ex.phase = ExchangePhase::Submitted;
                ExchangeStep::Io(HwOp::Write { width: Width::W16, offset: CORBWP, value: ex.new_wp as u32 })
            },
            ExchangePhase::Submitted => {
                ex.phase = ExchangePhase::AwaitRirbWp;
                ExchangeStep::Io(HwOp::Read { width: Width::W16, offset: RIRBWP })
            },
            ExchangePhase::AwaitRirbWp => {
                let rirb_wp = (input & 0xFFFF) as usize;
                if rirb_wp != self.rirb_rp {
                    ex.expected_rp = (self.rirb_rp + 1) % self.rirb_entries;
                    ex.phase = ExchangePhase::AwaitEntry;
                    let addr = self.rirb_phys + (ex.expected_rp * RIRB_ENTRY_SIZE) as u64;
                    ExchangeStep::Io(HwOp::LoadDma64 { addr })
                } else {
                    match ex.poll.check(false) {
                        PollOutcome::TimedOut => {
                            ex.phase = ExchangePhase::Finished(None);
                            ExchangeStep::Done(None)
                        },
                        _ => {
                            ex.phase = ExchangePhase::Submitted;
                            ExchangeStep::Io(HwOp::Spin { count: 1 })
                        },
                    }
                }
            },
            ExchangePhase::AwaitEntry => {
                let response = (input & 0xFFFF_FFFF) as u32;
                let response_ex = (input >> 32u64) as u32;
                let solicited = (response_ex & 0x10) == 0;
                self.rirb_rp = ex.expected_rp;
                ex.phase = ExchangePhase::StatusCleared { response, solicited };
                ExchangeStep::Io(HwOp::Write { width: Width::W8, offset: RIRBSTS, value: RIRBSTS_RINTFL as u32 })
            },
            ExchangePhase::StatusCleared { response, solicited } => {
                if solicited {
                    ex.phase = ExchangePhase::Finished(Some(response));
                    ExchangeStep::Done(Some(response))
                } else {
                    match ex.poll.check(false) {
                        PollOutcome::TimedOut => {
                            ex.phase = ExchangePhase::Finished(None);
                            ExchangeStep::Done(None)
                        },
                        _ => {
                            ex.phase = ExchangePhase::Submitted;
                            ExchangeStep::Io(HwOp::Spin { count: 1 })
                        },
                    }
                }
            },
            ExchangePhase::Finished(r) => ExchangeStep::Done(r),
        }
    }
}

// =============================================================================
// Register scripts that send verbs
// =============================================================================

/// A register script run on a controller, its verbs sent through the rings.
pub struct RingRun {
    /// The script being run.
    pub run: ScriptRun,
    /// Whether a verb of the script is being exchanged.
    pub in_verb: bool,
    /// The verb exchange in flight, when `in_verb`.
    pub exchange: VerbExchange,
}

/// What a [`RingRun`] asks for next.
#[derive(Clone, Copy, Debug)]
pub enum RingRunStep {
    /// Perform this hardware access and hand back what it read (0 for a write).
    Io(HwOp),
    /// The script is over.
    Done(Result<(), HdaError>),
}

impl RingRun {
    pub open spec fn wf(&self, r: RingState) -> bool {
        &&& self.run.wf()
        &&& self.in_verb ==> self.exchange.wf(r)
    }
}

/// The script of `a` moved on by `(run, s)`: its accesses are asked for, a verb
/// starts a fresh exchange (which begins by reading the CORB write pointer), and
/// its end ends the run.
pub open spec fn ring_run_resumed(run: ScriptRun, s: ScriptStep, b: RingRun, step: RingRunStep) -> bool {
    &&& b.run == run
    &&& match s {
        ScriptStep::Io(op) => !b.in_verb && step == RingRunStep::Io(op),
        ScriptStep::Verb(v) => {
            &&& b.in_verb
            &&& b.exchange.verb == v
            &&& b.exchange.phase == ExchangePhase::AwaitCorbWp
            &&& step == RingRunStep::Io(HwOp::Read { width: Width::W16, offset: CORBWP })
        },
        ScriptStep::Done(res) => !b.in_verb && step == RingRunStep::Done(res),
    }
}

/// One transition of a script run on ring state `r`, given the value read by the
/// previous access: the exchange in flight goes on, and once it is over (its
/// response is not used) the script resumes.
pub open spec fn ring_run_transition(
    r: RingState,
    a: RingRun,
    input: u64,
    r2: RingState,
    b: RingRun,
    step: RingRunStep,
) -> bool {
    if a.in_verb {
        let (ring, ex, es) = exchange_spec(r, a.exchange, input);
        &&& r2 == ring
        &&& match es {
            ExchangeStep::Io(op) => b == (RingRun { exchange: ex, ..a }) && step == RingRunStep::Io(op),
            ExchangeStep::Done(_) => {
                let (run, s) = a.run.step_spec(0);
                ring_run_resumed(run, s, b, step)
            },
        }
    } else {
        let (run, s) = a.run.step_spec(input);
        &&& r2 == r
        &&& ring_run_resumed(run, s, b, step)
    }
}

impl CorbRirb {
    /// Start running `script` on this controller.
    pub fn start_script(&self, script: Vec<Instr>) -> (rr: RingRun)
        requires
            script_wf(script@),
        ensures
            rr.run.script@ == script@,
            rr.run.pc == 0,
            rr.run.phase == crate::script::RunPhase::Issue,
            !rr.in_verb,
            rr.wf(self@),
    {
        RingRun { run: ScriptRun::new(script), in_verb: false, exchange: self.send_verb(0) }
    }

    /// Resume the script of `rr` after the step `s` of its run.
    fn resume(&mut self, rr: &mut RingRun, s: ScriptStep) -> (step: RingRunStep)
        requires
            old(rr).run.wf(),
        ensures
            final(self)@ == old(self)@,
            ring_run_resumed(old(rr).run, s, *final(rr), step),
            final(self).corb_contents() == old(self).corb_contents(),
            final(self).rirb_contents() == old(self).rirb_contents(),
            final(rr).wf(final(self)@),
    {
        match s {
            ScriptStep::Io(op) => {
                rr.in_verb = false;
                RingRunStep::Io(op)
            },
            ScriptStep::Verb(v) => {
                let mut ex = self.send_verb(v);
                let es = self.exchange_step(&mut ex, 0);
                rr.exchange = ex;
                rr.in_verb = true;
                match es {
                    ExchangeStep::Io(op) => RingRunStep::Io(op),
                    ExchangeStep::Done(_) => RingRunStep::Done(Ok(())),
                }
            },
            ScriptStep::Done(res) => {
                rr.in_verb = false;
                RingRunStep::Done(res)
            },
        }
    }

    /// Advance the script run `rr` by one transition (see [`ring_run_transition`]).
    /// `input` is the value read by the access asked for in the previous step.
    pub fn run_step(&mut self, rr: &mut RingRun, input: u64) -> (step: RingRunStep)
        requires
            old(rr).wf(old(self)@),
        ensures
            final(rr).wf(final(self)@),
            ring_run_transition(old(self)@, *old(rr), input, final(self)@, *final(rr), step),
            final(self).corb_contents() == old(self).corb_contents(),
            final(self).rirb_contents() == old(self).rirb_contents(),
    {
        if rr.in_verb {
            let es = self.exchange_step(&mut rr.exchange, input);
            match es {
                ExchangeStep::Io(op) => RingRunStep::Io(op),
                ExchangeStep::Done(_) => {
                    let s = rr.run.step(0);
                    self.resume(rr, s)
                },
            }
        } else {
            let s = rr.run.step(input);
            self.resume(rr, s)
        }
    }
}

/// Where a verb exchange stands.
#[derive(Clone, Copy, Debug, PartialEq, Eq, Structural)]
pub enum ExchangePhase {
    /// Nothing done yet.
    Start,
    /// The CORB write pointer was read; its value is awaited.
    AwaitCorbWp,
    /// The verb was stored in the CORB; the write pointer is to be moved.
    CorbStored,
    /// The RIRB write pointer is to be read.
    Submitted,
    /// The RIRB write pointer was read; its value is awaited.
    AwaitRirbWp,
    /// A RIRB entry was read; its value is awaited.
    AwaitEntry,
    /// The response interrupt was acknowledged for this response.
    StatusCleared { response: u32, solicited: bool },
    /// The exchange is over.
    Finished(Option<u32>),
}

/// State of one verb exchange.
#[derive(Clone, Copy, Debug)]
pub struct VerbExchange {
    pub verb: u32,
    pub phase: ExchangePhase,
    /// CORB slot the verb was stored in.
    pub new_wp: usize,
    /// RIRB slot of the entry being read: the one after the read pointer.
    pub expected_rp: usize,
    /// Polls of the RIRB so far.
    pub poll: Poll,
}

/// What a verb exchange asks for next.
#[derive(Clone, Copy, Debug)]
pub enum ExchangeStep {
    /// Perform this access and hand back what it read (0 for a write).
    Io(HwOp),
    /// The exchange is over: the solicited response, or `None` on timeout.
    Done(Option<u32>),
}

impl VerbExchange {
    /// Slots are inside their rings and the poll can still count.
    pub open spec fn wf(self, r: RingState) -> bool {
        &&& ring_state_wf(r)
        &&& self.new_wp < r.corb_entries
        &&& self.expected_rp < r.rirb_entries
        &&& (self.phase is Submitted || self.phase is AwaitRirbWp || self.phase is AwaitEntry
            || self.phase is StatusCleared) ==> {
                &&& self.poll.wf()
                &&& self.poll.limit == RIRB_POLL_TIMEOUT - 1
            }
    }
}

/// What reading a RIRB entry does: the response interrupt is acknowledged, and
/// then an entry whose extended word (bits 63:32) has bit 4 (UnSol) clear ends
/// the exchange with its low 32 bits, whatever the codec address in bits 3:0 of
/// the extended word; an entry with bit 4 set does not end the exchange with a
/// response (polling goes on, or the exchange times out).
pub proof fn lemma_entry_solicited_iff_unsol_clear(r: RingState, ex: VerbExchange, raw: u64, next: u64)
    requires
        ex.phase == ExchangePhase::AwaitEntry,
    ensures
        ({
            let (r1, ex1, s1) = exchange_spec(r, ex, raw);
            let (r2, ex2, s2) = exchange_spec(r1, ex1, next);
            &&& s1 == ExchangeStep::Io(HwOp::Write { width: Width::W8, offset: RIRBSTS, value: RIRBSTS_RINTFL as u32 })
            &&& (raw / 0x10_0000_0000) % 2 == 0 ==> s2 == ExchangeStep::Done(Some((raw % 0x1_0000_0000) as u32))
            &&& (raw / 0x10_0000_0000) % 2 == 1 ==> !(s2 matches ExchangeStep::Done(Some(_)))
        }),
{
    assert((((raw >> 32u64) as u32) & 0x10 == 0) == ((raw / 0x10_0000_0000) % 2 == 0)) by (bit_vector);
}

/// A verb exchange of `verb` that has not started: nothing stored, nothing polled.
pub open spec fn fresh_exchange(verb: u32) -> VerbExchange {
    VerbExchange {
        verb,
        phase: ExchangePhase::Start,
        new_wp: 0,
        expected_rp: 0,
        poll: Poll { attempts: 0, limit: 0 },
    }
}

/// Physical address of CORB slot `slot`.
pub open spec fn corb_slot_addr(r: RingState, slot: usize) -> u64 {
    (r.corb_phys + CORB_ENTRY_SIZE * slot) as u64
}

/// Physical address of RIRB slot `slot`.
pub open spec fn rirb_slot_addr(r: RingState, slot: usize) -> u64 {
    (r.rirb_phys + RIRB_ENTRY_SIZE * slot) as u64
}

/// The response half (low 32 bits) of a RIRB entry.
pub open spec fn rirb_response(raw: u64) -> u32 {
    (raw % 0x1_0000_0000) as u32
}

/// A RIRB entry is solicited when bit 4 of its extended half (bit 36 of the entry) is clear.
pub open spec fn rirb_solicited(raw: u64) -> bool {
    ((raw >> 32u64) as u32) & 0x10 == 0
}

/// A failed poll of an exchange: count it, then pause or give up.
pub open spec fn exchange_poll_failed(r: RingState, ex: VerbExchange) -> (RingState, VerbExchange, ExchangeStep) {
    let polled = Poll { attempts: (ex.poll.attempts + 1) as u32, ..ex.poll };
    if ex.poll.attempts < ex.poll.limit {
        (r, VerbExchange { phase: ExchangePhase::Submitted, poll: polled, ..ex }, ExchangeStep::Io(HwOp::Spin { count: 1 }))
    } else {
        (r, VerbExchange { phase: ExchangePhase::Finished(None), poll: polled, ..ex }, ExchangeStep::Done(None))
    }
}

/// One transition of a verb exchange on the ring state `r`, given the value
/// read by the previous access.
pub open spec fn exchange_spec(r: RingState, ex: VerbExchange, input: u64) -> (RingState, VerbExchange, ExchangeStep) {
    match ex.phase {
        ExchangePhase::Start => (
            r,
            VerbExchange { phase: ExchangePhase::AwaitCorbWp, ..ex },
            ExchangeStep::Io(HwOp::Read { width: Width::W16, offset: CORBWP }),
        ),
        ExchangePhase::AwaitCorbWp => {
            let new_wp = ((input % 0x1_0000 + 1) % r.corb_entries as int) as usize;
            (
                r,
                VerbExchange { phase: ExchangePhase::CorbStored, new_wp, ..ex },
                ExchangeStep::Io(HwOp::StoreDma32 { addr: corb_slot_addr(r, new_wp), value: ex.verb }),
            )
        },
        ExchangePhase::CorbStored => (
            r,
            VerbExchange {
                phase: ExchangePhase::Submitted,
                poll: Poll { attempts: 0, limit: (RIRB_POLL_TIMEOUT - 1) as u32 },
                ..ex
            },
            ExchangeStep::Io(HwOp::Write { width: Width::W16, offset: CORBWP, value: ex.new_wp as u32 }),
        ),
        ExchangePhase::Submitted => (
            r,
            VerbExchange { phase: ExchangePhase::AwaitRirbWp, ..ex },
            ExchangeStep::Io(HwOp::Read { width: Width::W16, offset: RIRBWP }),
        ),
        ExchangePhase::AwaitRirbWp => {
            let next_rp = ((r.rirb_rp + 1) % r.rirb_entries as int) as usize;
            if input % 0x1_0000 != r.rirb_rp {
                (
                    r,
                    VerbExchange { phase: ExchangePhase::AwaitEntry, expected_rp: next_rp, ..ex },
                    ExchangeStep::Io(HwOp::LoadDma64 { addr: rirb_slot_addr(r, next_rp) }),
                )
            } else {
                exchange_poll_failed(r, ex)
            }
        },
        ExchangePhase::AwaitEntry => (
            RingState { rirb_rp: ex.expected_rp, ..r },
            VerbExchange {
                phase: ExchangePhase::StatusCleared {
                    response: rirb_response(input),
                    solicited: rirb_solicited(input),
                },
                ..ex
            },
            ExchangeStep::Io(HwOp::Write { width: Width::W8, offset: RIRBSTS, value: RIRBSTS_RINTFL as u32 }),
        ),
        ExchangePhase::StatusCleared { response, solicited } => {
            if solicited {
                (r, VerbExchange { phase: ExchangePhase::Finished(Some(response)), ..ex }, ExchangeStep::Done(Some(response)))
            } else {
                exchange_poll_failed(r, ex)
            }
        },
        ExchangePhase::Finished(res) => (r, ex, ExchangeStep::Done(res)),
    }
}

} // verus!
