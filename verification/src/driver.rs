//! High-level HDA driver API.
//!
//! Ties together controller register access, codec communication,
//! widget discovery, and stream management into a usable interface.
use vstd::prelude::*;

use crate::codec::{
    encode_verb_long, encode_verb_short, verb_long_spec, verb_short_spec, CorbRirb, RingState,
    AMP_SET_INPUT, AMP_SET_LEFT, AMP_SET_OUTPUT, AMP_SET_RIGHT, PIN_CTRL_HP_ENABLE,
    PIN_CTRL_OUT_ENABLE, VERB_SET_AMP_GAIN, VERB_SET_CHANNEL_STREAMID, VERB_SET_EAPDBTL,
    VERB_SET_PIN_CTRL, VERB_SET_POWER_STATE, VERB_SET_STREAM_FORMAT,
};
use crate::registers::{
    GCAP_64OK, GCAP_BSS_MASK, GCAP_BSS_SHIFT, GCAP_ISS_MASK, GCAP_ISS_SHIFT, GCAP_NSDO_MASK,
    GCAP_NSDO_SHIFT, GCAP_OSS_MASK, GCAP_OSS_SHIFT, GCTL, GCTL_CRST, GCTL_UNSOL, INTCTL,
    INTCTL_CIE, INTCTL_GIE,
};
use crate::script::{HdaError, Instr, Width, script_wf};
use crate::registers::{SD_CBL, sd_index_fits};
use crate::stream::{
    BdlEntry, HdaStream, StreamFormat, StreamView, BDL_IOC, bits_of_code, format_fits, format_of_word,
    format_word, generate_tone, lemma_format_round_trip, sample_hi, sample_rate_of,
    sample_lo, sd_base_of, setup_script_of, start_script_of, stop_script_of, tone_frames,
    tone_samples,
};
use crate::widget::{
    Codec, Widget, WidgetType, find_output_path, find_widget, first_widget, has_widget, is_first_widget,
    is_output_pin, lemma_output_path_is_dac_to_pin, output_path,
    PIN_CAP_EAPD, WIDGET_CAP_IN_AMP, WIDGET_CAP_OUT_AMP,
};

verus! {

// =============================================================================
// HDA PCI identification
// =============================================================================

/// PCI class code for multimedia audio controller.
pub const PCI_CLASS_MULTIMEDIA_AUDIO: u8 = 0x04;
/// PCI subclass for HDA.
pub const PCI_SUBCLASS_HDA: u8 = 0x03;

/// Attempts allowed while CRST settles after entering or leaving reset.
pub const RESET_ATTEMPTS: u32 = 100_000;

// =============================================================================
// Controller capabilities
// =============================================================================

/// The fields of the Global Capabilities register.
#[derive(Clone, Copy, Debug)]
pub struct GlobalCaps {
    /// 64-bit addresses are supported (bit 0).
    pub supports_64bit: bool,
    /// Number of serial data out signals (bits 2:1).
    pub nsdo: usize,
    /// Number of bidirectional stream descriptors (bits 7:3).
    pub num_bss: usize,
    /// Number of input stream descriptors (bits 11:8).
    pub num_iss: usize,
    /// Number of output stream descriptors (bits 15:12).
    pub num_oss: usize,
}

/// Number of input stream descriptors that a GCAP value announces.
pub open spec fn gcap_iss(gcap: u16) -> int {
    (gcap as int / 0x100) % 0x10
}

/// Number of output stream descriptors that a GCAP value announces.
pub open spec fn gcap_oss(gcap: u16) -> int {
    (gcap as int / 0x1000) % 0x10
}

impl GlobalCaps {
    /// Decode a Global Capabilities register value.
    pub fn decode(gcap: u16) -> (c: GlobalCaps)
        ensures
            c.supports_64bit == (gcap % 2 == 1),
            c.nsdo == (gcap / 0x2) % 0x4,
            c.num_bss == (gcap / 0x8) % 0x20,
            c.num_iss == gcap_iss(gcap),
            c.num_oss == gcap_oss(gcap),
    {
        proof {
            assert(gcap & 0x0001 == gcap % 2
                && (gcap >> 1u16) & 0x03 == (gcap / 0x2) % 0x4
                && (gcap >> 3u16) & 0x1F == (gcap / 0x8) % 0x20
                && (gcap >> 8u16) & 0x0F == (gcap / 0x100) % 0x10
                && (gcap >> 12u16) & 0x0F == (gcap / 0x1000) % 0x10
            ) by (bit_vector);
        }
        GlobalCaps {
            supports_64bit: gcap & GCAP_64OK != 0,
            nsdo: ((gcap >> GCAP_NSDO_SHIFT) & GCAP_NSDO_MASK) as usize,
            num_bss: ((gcap >> GCAP_BSS_SHIFT) & GCAP_BSS_MASK) as usize,
            num_iss: ((gcap >> GCAP_ISS_SHIFT) & GCAP_ISS_MASK) as usize,
            num_oss: ((gcap >> GCAP_OSS_SHIFT) & GCAP_OSS_MASK) as usize,
        }
    }
}

/// Accept only controllers of major version 1.
pub fn check_version(vmaj: u8) -> (r: Result<(), HdaError>)
    ensures
        r == if vmaj == 1 { Ok::<(), HdaError>(()) } else { Err(HdaError::UnsupportedVersion) },
{
    if vmaj != 1 {
        Err(HdaError::UnsupportedVersion)
    } else {
        Ok(())
    }
}

/// Decode the Global Capabilities register and accept only controllers that have
/// an output stream descriptor.
pub fn check_capabilities(gcap: u16) -> (r: Result<GlobalCaps, HdaError>)
    ensures
        r is Err <==> gcap_oss(gcap) == 0,
        r is Err ==> r->Err_0 == HdaError::NoOutputStreams,
        r is Ok ==> r->Ok_0.num_oss == gcap_oss(gcap) && r->Ok_0.num_iss == gcap_iss(gcap)
            && r->Ok_0.num_bss == (gcap / 0x8) % 0x20 && r->Ok_0.nsdo == (gcap / 0x2) % 0x4
            && r->Ok_0.supports_64bit == (gcap % 2 == 1),
{
    let caps = GlobalCaps::decode(gcap);
    if caps.num_oss == 0 {
        Err(HdaError::NoOutputStreams)
    } else {
        Ok(caps)
    }
}

/// The register script of a controller reset: clear CRST and wait for it to read
/// back 0 (failing after 100000 extra reads), let the link settle, set CRST and
/// wait for it to read back 1 (failing likewise), give the codecs time to
/// initialize, and accept unsolicited responses.
pub open spec fn reset_script_spec() -> Seq<Instr> {
    seq![
        Instr::Modify { width: Width::W32, offset: GCTL, clear: GCTL_CRST, set: 0 },
        Instr::Wait {
            width: Width::W32,
            offset: GCTL,
            mask: GCTL_CRST,
            when_set: false,
            limit: RESET_ATTEMPTS,
            pause: 1,
            fatal: Some(HdaError::ResetEnterTimeout),
        },
        Instr::Spin { count: 10_000 },
        Instr::Modify { width: Width::W32, offset: GCTL, clear: 0, set: GCTL_CRST },
        Instr::Wait {
            width: Width::W32,
            offset: GCTL,
            mask: GCTL_CRST,
            when_set: true,
            limit: RESET_ATTEMPTS,
            pause: 1,
            fatal: Some(HdaError::ResetExitTimeout),
        },
        Instr::Spin { count: 100_000 },
        Instr::Modify { width: Width::W32, offset: GCTL, clear: 0, set: GCTL_UNSOL },
    ]
}

/// The register script of a controller reset (see [`reset_script_spec`]).
pub fn reset_script() -> (s: Vec<Instr>)
    ensures
        s@ == reset_script_spec(),
        script_wf(s@),
{
    let s = vec![
        Instr::Modify { width: Width::W32, offset: GCTL, clear: GCTL_CRST, set: 0 },
        Instr::Wait {
            width: Width::W32,
            offset: GCTL,
            mask: GCTL_CRST,
            when_set: false,
            limit: RESET_ATTEMPTS,
            pause: 1,
            fatal: Some(HdaError::ResetEnterTimeout),
        },
        Instr::Spin { count: 10_000 },
        Instr::Modify { width: Width::W32, offset: GCTL, clear: 0, set: GCTL_CRST },
        Instr::Wait {
            width: Width::W32,
            offset: GCTL,
            mask: GCTL_CRST,
            when_set: true,
            limit: RESET_ATTEMPTS,
            pause: 1,
            fatal: Some(HdaError::ResetExitTimeout),
        },
        Instr::Spin { count: 100_000 },
        Instr::Modify { width: Width::W32, offset: GCTL, clear: 0, set: GCTL_UNSOL },
    ];
    proof {
        assert(s@ =~= reset_script_spec());
        assert(forall|i: int| 0 <= i < s@.len() ==> #[trigger] s@[i].wf());
    }
    s
}

/// The register write that enables the controller and global interrupts.
pub fn interrupt_enable() -> (i: Instr)
    ensures
        i == (Instr::Write { width: Width::W32, offset: INTCTL, value: INTCTL_GIE | INTCTL_CIE }),
        i.wf(),
{
    Instr::Write { width: Width::W32, offset: INTCTL, value: INTCTL_GIE | INTCTL_CIE }
}

// =============================================================================
// Output path selection
// =============================================================================

/// Node id of the first entry of `p` whose widget type is `t`.
pub open spec fn first_of_type(p: Seq<(u8, WidgetType)>, t: WidgetType) -> Option<u8>
    decreases p.len(),
{
    if p.len() == 0 {
        None
    } else if p[0].1 == t {
        Some(p[0].0)
    } else {
        first_of_type(p.drop_first(), t)
    }
}

/// Node ids of the entries of `p` that are neither a DAC nor a pin, in order.
pub open spec fn intermediates_of(p: Seq<(u8, WidgetType)>) -> Seq<u8>
    decreases p.len(),
{
    if p.len() == 0 {
        Seq::empty()
    } else {
        let rest = intermediates_of(p.drop_first());
        if p[0].1 != WidgetType::AudioOutput && p[0].1 != WidgetType::PinComplex {
            seq![p[0].0] + rest
        } else {
            rest
        }
    }
}

/// What a configured output path says of itself.
pub ghost struct OutputView {
    pub codec_addr: u8,
    pub dac_nid: u8,
    pub pin_nid: u8,
    pub intermediate_nids: Seq<u8>,
    pub stream: Option<StreamView>,
}

/// The output path of a codec, when its DAC-to-pin path names both a DAC and a pin.
pub open spec fn codec_output(codec: Codec) -> Option<OutputView> {
    let p = output_path(codec);
    if p.len() > 0 && first_of_type(p, WidgetType::AudioOutput) is Some && first_of_type(
        p,
        WidgetType::PinComplex,
    ) is Some {
        Some(
            OutputView {
                codec_addr: codec.address,
                dac_nid: first_of_type(p, WidgetType::AudioOutput)->Some_0,
                pin_nid: first_of_type(p, WidgetType::PinComplex)->Some_0,
                intermediate_nids: intermediates_of(p),
                stream: None,
            },
        )
    } else {
        None
    }
}

/// The output path of the first of `codecs[k..]` that has one.
pub open spec fn select_output_from(codecs: Seq<Codec>, k: nat) -> Option<OutputView>
    decreases codecs.len() - k,
{
    if k >= codecs.len() {
        None
    } else {
        match codec_output(codecs[k as int]) {
            Some(o) => Some(o),
            None => select_output_from(codecs, k + 1),
        }
    }
}

/// No two widgets of the codec share a node id.
pub open spec fn distinct_nids(c: Codec) -> bool {
    forall|i: int, j: int| 0 <= i < j < c.widgets@.len() ==> #[trigger] c.widgets@[i].nid != #[trigger] c.widgets@[j].nid
}

/// A path with an entry of type `t` has a first such entry.
proof fn lemma_first_of_type_some(p: Seq<(u8, WidgetType)>, t: WidgetType, i: int)
    requires
        0 <= i < p.len(),
        p[i].1 == t,
    ensures
        first_of_type(p, t) is Some,
    decreases p.len(),
{
    if p[0].1 != t {
        assert(p.drop_first()[i - 1] == p[i]);
        lemma_first_of_type_some(p.drop_first(), t, i - 1);
    }
}

/// When its node ids are distinct, a codec has an output path to configure
/// exactly when its DAC-to-pin path is not empty.
proof fn lemma_codec_output_iff_path(c: Codec)
    requires
        distinct_nids(c),
    ensures
        codec_output(c) is Some <==> output_path(c).len() > 0,
{
    let p = output_path(c);
    let ws = c.widgets@;
    if p.len() > 0 {
        lemma_output_path_is_dac_to_pin(c);
        lemma_first_of_type_some(p, WidgetType::AudioOutput, 0);
        let n = p.len() - 1;
        let i = choose|i: int| 0 <= i < ws.len() && is_output_pin(#[trigger] ws[i]) && ws[i].nid == p[n].0;
        assert(is_first_widget(ws, p[n].0, i));
        let f = first_widget(ws, p[n].0);
        assert(is_first_widget(ws, p[n].0, f));
        if f != i {
            if f < i {
                assert(ws[f].nid != ws[i].nid);
            } else {
                assert(ws[i].nid != ws[f].nid);
            }
        }
        assert(p[n].1 == WidgetType::PinComplex);
        lemma_first_of_type_some(p, WidgetType::PinComplex, n);
    }
}

/// When node ids are distinct within each codec, the first codec from `k` on
/// that has an output path is found exactly when some codec from `k` on has a
/// non-empty DAC-to-pin path.
proof fn lemma_select_output_iff_path(codecs: Seq<Codec>, k: nat)
    requires
        forall|i: int| 0 <= i < codecs.len() ==> distinct_nids(#[trigger] codecs[i]),
    ensures
        select_output_from(codecs, k) is Some <==> exists|i: int| k <= i < codecs.len() && output_path(#[trigger] codecs[i]).len() > 0,
    decreases codecs.len() - k,
{
    if k < codecs.len() {
        lemma_codec_output_iff_path(codecs[k as int]);
        lemma_select_output_iff_path(codecs, k + 1);
        if select_output_from(codecs, k) is Some && codec_output(codecs[k as int]) is Some {
            assert(output_path(codecs[k as int]).len() > 0);
        }
        if exists|i: int| k <= i < codecs.len() && output_path(#[trigger] codecs[i]).len() > 0 {
            let i = choose|i: int| k <= i < codecs.len() && output_path(#[trigger] codecs[i]).len() > 0;
            if i > k {
                assert(k + 1 <= i);
            }
        }
    }
}

/// An output path is configured exactly when some codec has a non-empty
/// DAC-to-pin path, provided no codec has two widgets with the same node id:
/// `HdaController::has_output` of a controller built from `codecs` (see
/// [`HdaController::new`] and `ControllerInit::finish`) tells whether
/// `find_output_path` finds a path in some codec.
pub proof fn lemma_output_found_iff_some_path(codecs: Seq<Codec>)
    requires
        forall|i: int| 0 <= i < codecs.len() ==> distinct_nids(#[trigger] codecs[i]),
    ensures
        select_output_from(codecs, 0) is Some <==> exists|i: int| 0 <= i < codecs.len() && output_path(#[trigger] codecs[i]).len() > 0,
{
    lemma_select_output_iff_path(codecs, 0);
}

/// A configured audio output path through the codec.
struct OutputPath {
    /// Codec address.
    codec_addr: u8,
    /// DAC widget NID.
    dac_nid: u8,
    /// Pin widget NID.
    pin_nid: u8,
    /// Intermediate widget NIDs (mixers, selectors).
    intermediate_nids: Vec<u8>,
    /// The active stream.
    stream: Option<HdaStream>,
}

/// The view of an optional stream.
pub open spec fn stream_view_of(s: Option<HdaStream>) -> Option<StreamView> {
    match s {
        Some(st) => Some(st@),
        None => None,
    }
}

impl OutputPath {
    closed spec fn view(&self) -> OutputView {
        OutputView {
            codec_addr: self.codec_addr,
            dac_nid: self.dac_nid,
            pin_nid: self.pin_nid,
            intermediate_nids: self.intermediate_nids@,
            stream: stream_view_of(self.stream),
        }
    }
}

/// Node id of the first entry of `p` whose widget type is `t`.
fn find_first_of_type(p: &Vec<(u8, WidgetType)>, t: WidgetType) -> (r: Option<u8>)
    ensures
        r == first_of_type(p@, t),
{
    let mut i: usize = 0;
    assert(p@.skip(0) =~= p@);
    while i < p.len()
        invariant
            i <= p@.len(),
            first_of_type(p@, t) == first_of_type(p@.skip(i as int), t),
        decreases p@.len() - i,
    {
        assert(p@.skip(i as int).drop_first() =~= p@.skip(i + 1));
        if p[i].1 == t {
            return Some(p[i].0);
        }
        i = i + 1;
    }
    None
}

/// Node ids of the entries of `p` that are neither a DAC nor a pin, in order.
fn collect_intermediates(p: &Vec<(u8, WidgetType)>) -> (r: Vec<u8>)
    ensures
        r@ == intermediates_of(p@),
{
    let mut out: Vec<u8> = Vec::new();
    let mut i: usize = 0;
    assert(p@.skip(0) =~= p@);
    assert(out@ + intermediates_of(p@) =~= intermediates_of(p@));
    while i < p.len()
        invariant
            i <= p@.len(),
            out@ + intermediates_of(p@.skip(i as int)) == intermediates_of(p@),
        decreases p@.len() - i,
    {
        assert(p@.skip(i as int).drop_first() =~= p@.skip(i + 1));
        let (nid, t) = p[i];
        if t != WidgetType::AudioOutput && t != WidgetType::PinComplex {
            let ghost before = out@;
            out.push(nid);
            assert(out@ + intermediates_of(p@.skip(i + 1)) =~= before + (seq![nid] + intermediates_of(p@.skip(i + 1))));
        }
        i = i + 1;
    }
    assert(p@.skip(p@.len() as int) =~= Seq::<(u8, WidgetType)>::empty());
    assert(out@ + Seq::<u8>::empty() =~= out@);
    out
}

/// The output path of the first codec whose DAC-to-pin path names both a DAC and a pin.
fn select_output(codecs: &Vec<Codec>) -> (r: Option<OutputPath>)
    ensures
        match r {
            Some(o) => select_output_from(codecs@, 0) == Some(o.view()),
            None => select_output_from(codecs@, 0) is None,
        },
{
    let mut k: usize = 0;
    while k < codecs.len()
        invariant
            k <= codecs@.len(),
            select_output_from(codecs@, 0) == select_output_from(codecs@, k as nat),
        decreases codecs@.len() - k,
    {
        let codec = &codecs[k];
        let path = find_output_path(codec);
        if path.len() > 0 {
            let dac = find_first_of_type(&path, WidgetType::AudioOutput);
            let pin = find_first_of_type(&path, WidgetType::PinComplex);
            match (dac, pin) {
                (Some(dac_nid), Some(pin_nid)) => {
                    let intermediate_nids = collect_intermediates(&path);
                    let o = OutputPath {
                        codec_addr: codec.address,
                        dac_nid,
                        pin_nid,
                        intermediate_nids,
                        stream: None,
                    };
                    assert(codec_output(codecs@[k as int]) == Some(o.view()));
                    return Some(o);
                },
                _ => {},
            }
        }
        k = k + 1;
    }
    None
}

// =============================================================================
// Playback plans
// =============================================================================

/// Index of the first of `codecs[k..]` with address `addr`.
pub open spec fn codec_index_from(codecs: Seq<Codec>, addr: u8, k: nat) -> Option<int>
    decreases codecs.len() - k,
{
    if k >= codecs.len() {
        None
    } else if codecs[k as int].address == addr {
        Some(k as int)
    } else {
        codec_index_from(codecs, addr, k + 1)
    }
}

/// The widget with node id `nid` of the first codec with address `addr` (the first
/// such widget), if that codec has one.
pub open spec fn codec_widget(codecs: Seq<Codec>, addr: u8, nid: u8) -> Option<Widget> {
    match codec_index_from(codecs, addr, 0) {
        Some(i) => {
            let ws = codecs[i].widgets@;
            if has_widget(ws, nid) {
                Some(ws[first_widget(ws, nid)])
            } else {
                None
            }
        },
        None => None,
    }
}

/// Amp gain/mute payload that sets both channels of the output amp, unmuted, at gain 0x7F.
pub open spec fn amp_out_max() -> u16 {
    (AMP_SET_OUTPUT | AMP_SET_LEFT | AMP_SET_RIGHT | 0x7F) as u16
}

/// Amp gain/mute payload that sets both channels of input amp 0, unmuted, at gain 0x7F.
pub open spec fn amp_in_max() -> u16 {
    (AMP_SET_INPUT | AMP_SET_LEFT | AMP_SET_RIGHT | 0x7F) as u16
}

/// The verbs that open up widget `nid` of codec `ca`: its output amp and its input
/// amp at full gain, unmuted, when it has them, then power state D0.
pub open spec fn widget_unmute_verbs(codecs: Seq<Codec>, ca: u8, nid: u8) -> Seq<u32> {
    let w = codec_widget(codecs, ca, nid);
    (if w is Some && w->Some_0.caps & WIDGET_CAP_OUT_AMP != 0 {
        seq![verb_long_spec(ca, nid, VERB_SET_AMP_GAIN, amp_out_max())]
    } else {
        Seq::empty()
    }) + (if w is Some && w->Some_0.caps & WIDGET_CAP_IN_AMP != 0 {
        seq![verb_long_spec(ca, nid, VERB_SET_AMP_GAIN, amp_in_max())]
    } else {
        Seq::empty()
    }) + seq![verb_short_spec(ca, nid, VERB_SET_POWER_STATE, 0)]
}

/// The verbs that open up every widget of `nids`, in order.
pub open spec fn unmute_verbs(codecs: Seq<Codec>, ca: u8, nids: Seq<u8>) -> Seq<u32>
    decreases nids.len(),
{
    if nids.len() == 0 {
        Seq::empty()
    } else {
        unmute_verbs(codecs, ca, nids.drop_last()) + widget_unmute_verbs(codecs, ca, nids.last())
    }
}

/// The widgets of an output path: DAC, intermediates, pin.
pub open spec fn path_nids(o: OutputView) -> Seq<u8> {
    seq![o.dac_nid] + o.intermediate_nids + seq![o.pin_nid]
}

/// Whether the output pin of `o` can drive an external amplifier (EAPD).
pub open spec fn pin_has_eapd(codecs: Seq<Codec>, o: OutputView) -> bool {
    let w = codec_widget(codecs, o.codec_addr, o.pin_nid);
    w is Some && w->Some_0.pin_caps & PIN_CAP_EAPD != 0
}

/// The verbs that route stream `stream_number` in format `fmt` through output path
/// `o`: the DAC's stream/channel (channel 0), the DAC's format, the DAC powered on,
/// the pin's output and headphone drive enabled, its EAPD enabled when it has
/// one, and every widget of the path unmuted and powered.
pub open spec fn playback_verbs(codecs: Seq<Codec>, o: OutputView, stream_number: u8, fmt: u16) -> Seq<u32> {
    let ca = o.codec_addr;
    seq![
        verb_long_spec(ca, o.dac_nid, VERB_SET_CHANNEL_STREAMID, (stream_number as int * 16) as u16),
        verb_long_spec(ca, o.dac_nid, VERB_SET_STREAM_FORMAT, fmt),
        verb_short_spec(ca, o.dac_nid, VERB_SET_POWER_STATE, 0),
        verb_short_spec(ca, o.pin_nid, VERB_SET_PIN_CTRL, PIN_CTRL_OUT_ENABLE | PIN_CTRL_HP_ENABLE),
    ] + (if pin_has_eapd(codecs, o) {
        seq![verb_short_spec(ca, o.pin_nid, VERB_SET_EAPDBTL, 0x02)]
    } else {
        Seq::empty()
    }) + unmute_verbs(codecs, ca, path_nids(o))
}

/// Script instructions that send the verbs `vs`, in order.
pub open spec fn verb_instrs(vs: Seq<u32>) -> Seq<Instr> {
    vs.map_values(|v: u32| Instr::Verb { verb: v })
}

/// Base rate in Hz that a base flag selects.
pub open spec fn base_rate(base_44k1: bool) -> int {
    if base_44k1 { 44100 } else { 48000 }
}

/// The first multiplier from `m` on (up to 4) with which base rate
/// `base_rate(base_44k1)` divided by `d` gives `rate`.
pub open spec fn rate_mult_from(rate: u32, base_44k1: bool, d: int, m: int) -> Option<int>
    decreases 5 - m,
{
    if m > 4 {
        None
    } else if base_rate(base_44k1) * m == rate * d {
        Some(m)
    } else {
        rate_mult_from(rate, base_44k1, d, m + 1)
    }
}

/// The first (multiplier, divisor) pair, divisors from `d` on (up to 8) and for
/// each the smallest multiplier (1 to 4), that turns the base rate into `rate`.
pub open spec fn rate_ratio_from(rate: u32, base_44k1: bool, d: int) -> Option<(int, int)>
    decreases 9 - d,
{
    if d > 8 {
        None
    } else {
        match rate_mult_from(rate, base_44k1, d, 1) {
            Some(m) => Some((m, d)),
            None => rate_ratio_from(rate, base_44k1, d + 1),
        }
    }
}

/// How `rate` is reached as base × multiplier / divisor: the 44.1 kHz base is
/// tried first when `rate` is a multiple of 44100, the 48 kHz base first
/// otherwise; `None` when neither base reaches it.
pub open spec fn rate_setting(rate: u32) -> Option<(bool, int, int)> {
    let first = rate % 44100 == 0;
    match rate_ratio_from(rate, first, 1) {
        Some((m, d)) => Some((first, m, d)),
        None => match rate_ratio_from(rate, !first, 1) {
            Some((m, d)) => Some((!first, m, d)),
            None => None,
        },
    }
}

/// The stream format played for a sample rate and channel count: the preset
/// formats for 48 kHz stereo and mono, 44.1 kHz stereo and 96 kHz stereo;
/// otherwise 16-bit samples and channels - 1 (at least 0, low 8 bits), at the
/// base, multiplier and divisor of [`rate_setting`]. A rate that no base,
/// multiplier (1 to 4) and divisor (1 to 8) reach gets the 44.1 kHz base when it
/// is a multiple of 44100 (48 kHz otherwise), rate multiplier (rate / base - 1,
/// at least 0, kept to its low 8 bits) at most 3, and divisor 1.
pub open spec fn playback_format(sample_rate: u32, channels: u16) -> StreamFormat {
    let channels_minus_1 = ((if channels >= 1 { channels - 1 } else { 0 }) % 256) as u8;
    if sample_rate == 48000 && channels == 2 {
        StreamFormat { base_44k1: false, rate_mult: 0, rate_div: 0, bits: 1, channels_minus_1: 1 }
    } else if sample_rate == 48000 && channels == 1 {
        StreamFormat { base_44k1: false, rate_mult: 0, rate_div: 0, bits: 1, channels_minus_1: 0 }
    } else if sample_rate == 44100 && channels == 2 {
        StreamFormat { base_44k1: true, rate_mult: 0, rate_div: 0, bits: 1, channels_minus_1: 1 }
    } else if sample_rate == 96000 && channels == 2 {
        StreamFormat { base_44k1: false, rate_mult: 1, rate_div: 0, bits: 1, channels_minus_1: 1 }
    } else {
        match rate_setting(sample_rate) {
            Some((b, m, d)) => StreamFormat {
                base_44k1: b,
                rate_mult: (m - 1) as u8,
                rate_div: (d - 1) as u8,
                bits: 1,
                channels_minus_1,
            },
            None => {
                let base_44k1 = sample_rate % 44100 == 0;
                let q = sample_rate as int / base_rate(base_44k1);
                let mult = (if q >= 1 { q - 1 } else { 0 }) % 256;
                StreamFormat {
                    base_44k1,
                    rate_mult: (if mult < 3 { mult } else { 3 }) as u8,
                    rate_div: 0,
                    bits: 1,
                    channels_minus_1,
                }
            },
        }
    }
}

/// A multiplier found from `m0` on reaches the rate, and one is found whenever
/// some multiplier `m` from `m0` to 4 does.
proof fn lemma_rate_mult(rate: u32, b: bool, d: int, m0: int, m: int)
    requires
        1 <= m0,
    ensures
        rate_mult_from(rate, b, d, m0) matches Some(k) ==> m0 <= k <= 4 && base_rate(b) * k == rate * d,
        m0 <= m <= 4 && base_rate(b) * m == rate * d ==> rate_mult_from(rate, b, d, m0) is Some,
    decreases 5 - m0,
{
    if m0 <= 4 {
        lemma_rate_mult(rate, b, d, m0 + 1, m);
    }
}

/// A pair found from divisor `d0` on reaches the rate, and one is found whenever
/// some multiplier 1 to 4 and divisor `d` from `d0` to 8 do.
proof fn lemma_rate_ratio(rate: u32, b: bool, d0: int, m: int, d: int)
    requires
        1 <= d0,
    ensures
        rate_ratio_from(rate, b, d0) matches Some((k, e)) ==> 1 <= k <= 4 && d0 <= e <= 8
            && base_rate(b) * k == rate * e,
        1 <= m <= 4 && d0 <= d <= 8 && base_rate(b) * m == rate * d ==> rate_ratio_from(rate, b, d0) is Some,
    decreases 9 - d0,
{
    if d0 <= 8 {
        lemma_rate_mult(rate, b, d0, 1, m);
        lemma_rate_ratio(rate, b, d0 + 1, m, d);
    }
}

/// Whenever the sample rate is some base rate times a multiplier (1 to 4)
/// divided by a divisor (1 to 8), and there are 1 to 16 channels, the format
/// played decodes to that rate, that many channels and 16-bit samples.
pub proof fn lemma_playback_format_reaches_rate(sample_rate: u32, channels: u16, b: bool, m: int, d: int)
    requires
        1 <= m <= 4,
        1 <= d <= 8,
        base_rate(b) * m == sample_rate * d,
        1 <= channels <= 16,
    ensures
        ({
            let f = format_of_word(format_word(playback_format(sample_rate, channels)));
            &&& sample_rate_of(f) == sample_rate
            &&& f.channels_minus_1 + 1 == channels
            &&& bits_of_code(f.bits) == 16
        }),
{
    let first = sample_rate % 44100 == 0;
    lemma_rate_ratio(sample_rate, first, 1, m, d);
    lemma_rate_ratio(sample_rate, !first, 1, m, d);
    let f = playback_format(sample_rate, channels);
    assert(rate_setting(sample_rate) is Some);
    assert(format_fits(f));
    lemma_format_round_trip(f);
    let (bb, k, e) = rate_setting(sample_rate)->Some_0;
    if !(sample_rate == 48000 && channels == 2) && !(sample_rate == 48000 && channels == 1)
        && !(sample_rate == 44100 && channels == 2) && !(sample_rate == 96000 && channels == 2) {
        assert(base_rate(bb) * k == sample_rate * e);
        assert(f.rate_mult + 1 == k && f.rate_div + 1 == e && f.base_44k1 == bb);
        assert((sample_rate as int * e) / e == sample_rate as int) by {
            vstd::arithmetic::div_mod::lemma_div_by_multiple(sample_rate as int, e);
        }
    }
}

/// The first (multiplier, divisor) pair that turns the base rate into `rate`
/// (see [`rate_ratio_from`]).
fn rate_ratio(rate: u32, base_44k1: bool) -> (r: Option<(u8, u8)>)
    ensures
        match r {
            Some((m, d)) => rate_ratio_from(rate, base_44k1, 1) == Some((m as int, d as int)),
            None => rate_ratio_from(rate, base_44k1, 1) is None,
        },
{
    let base: u64 = if base_44k1 { 44100 } else { 48000 };
    let mut d: u64 = 1;
    while d <= 8
        invariant
            1 <= d <= 9,
            base == base_rate(base_44k1),
            rate_ratio_from(rate, base_44k1, 1) == rate_ratio_from(rate, base_44k1, d as int),
        decreases 9 - d,
    {
        let mut m: u64 = 1;
        while m <= 4
            invariant
                1 <= m <= 5,
                1 <= d <= 8,
                base == base_rate(base_44k1),
                rate_ratio_from(rate, base_44k1, 1) == rate_ratio_from(rate, base_44k1, d as int),
                rate_mult_from(rate, base_44k1, d as int, 1) == rate_mult_from(rate, base_44k1, d as int, m as int),
            decreases 5 - m,
        {
            let r64 = rate as u64;
            assert(r64 * d <= 0xFFFF_FFFFu64 * 8) by (nonlinear_arith)
                requires
                    r64 <= 0xFFFF_FFFFu64,
                    d <= 8,
            ;
            if base * m == r64 * d {
                return Some((m as u8, d as u8));
            }
            m = m + 1;
        }
        d = d + 1;
    }
    None
}

/// The stream format played for a sample rate and channel count (see [`playback_format`]).
pub fn select_format(sample_rate: u32, channels: u16) -> (f: StreamFormat)
    ensures
        f == playback_format(sample_rate, channels),
{
    let c = channels.saturating_sub(1);
    let cm1 = #[verifier::truncate] (c as u8);
    proof {
        assert(cm1 == c % 256) by (bit_vector)
            requires
                cm1 == c as u8,
        ;
    }
    if sample_rate == 48000 && channels == 2 {
        StreamFormat::pcm_48k_16bit_stereo()
    } else if sample_rate == 48000 && channels == 1 {
        StreamFormat::pcm_48k_16bit_mono()
    } else if sample_rate == 44100 && channels == 2 {
        StreamFormat::pcm_44k1_16bit_stereo()
    } else if sample_rate == 96000 && channels == 2 {
        StreamFormat::pcm_96k_16bit_stereo()
    } else {
        let first = sample_rate % 44100 == 0;
        let found = match rate_ratio(sample_rate, first) {
            Some((m, d)) => Some((first, m, d)),
            None => match rate_ratio(sample_rate, !first) {
                Some((m, d)) => Some((!first, m, d)),
                None => None,
            },
        };
        match found {
            Some((b, m, d)) => {
                proof {
                    lemma_rate_ratio(sample_rate, b, 1, 0, 0);
                }
                StreamFormat { base_44k1: b, rate_mult: m - 1, rate_div: d - 1, bits: 1, channels_minus_1: cm1 }
            },
            None => {
                let base: u32 = if first { 44100 } else { 48000 };
                let q = (sample_rate / base).saturating_sub(1);
                let mult = #[verifier::truncate] (q as u8);
                proof {
                    assert(mult == q % 256) by (bit_vector)
                        requires
                            mult == q as u8,
                    ;
                }
                StreamFormat {
                    base_44k1: first,
                    rate_mult: if mult < 3 { mult } else { 3 },
                    rate_div: 0,
                    bits: 1,
                    channels_minus_1: cm1,
                }
            },
        }
    }
}

/// The 16-bit samples `samples` as little-endian bytes.
pub open spec fn pcm_bytes(samples: Seq<i16>) -> Seq<u8> {
    Seq::new(
        samples.len() * 2,
        |i: int| if i % 2 == 0 { sample_lo(samples[i / 2]) } else { sample_hi(samples[i / 2]) },
    )
}

/// Index of the first codec with address `addr`.
fn find_codec(codecs: &Vec<Codec>, addr: u8) -> (r: Option<usize>)
    ensures
        match r {
            Some(i) => codec_index_from(codecs@, addr, 0) == Some(i as int) && i < codecs@.len(),
            None => codec_index_from(codecs@, addr, 0) is None,
        },
{
    let mut k: usize = 0;
    while k < codecs.len()
        invariant
            k <= codecs@.len(),
            codec_index_from(codecs@, addr, 0) == codec_index_from(codecs@, addr, k as nat),
        decreases codecs@.len() - k,
    {
        if codecs[k].address == addr {
            return Some(k);
        }
        k = k + 1;
    }
    None
}

/// The widget with node id `nid` of the first codec with address `addr`.
fn find_codec_widget(codecs: &Vec<Codec>, addr: u8, nid: u8) -> (r: Option<&Widget>)
    ensures
        match r {
            Some(w) => codec_widget(codecs@, addr, nid) == Some(*w),
            None => codec_widget(codecs@, addr, nid) is None,
        },
{
    match find_codec(codecs, addr) {
        Some(i) => {
            let ws = &codecs[i].widgets;
            match find_widget(ws, nid) {
                Some(j) => Some(&ws[j]),
                None => None,
            }
        },
        None => None,
    }
}

/// Unmute all output amplifiers along the output path: for the DAC, each
/// intermediate widget and the pin, in that order, the verbs of [`widget_unmute_verbs`].
fn unmute_path_verbs(
    codecs: &Vec<Codec>,
    codec_addr: u8,
    dac_nid: u8,
    pin_nid: u8,
    intermediate_nids: &Vec<u8>,
) -> (vs: Vec<u32>)
    ensures
        vs@ == unmute_verbs(codecs@, codec_addr, seq![dac_nid] + intermediate_nids@ + seq![pin_nid]),
{
    let mut all_nids: Vec<u8> = Vec::new();
    all_nids.push(dac_nid);
    let mut j: usize = 0;
    while j < intermediate_nids.len()
        invariant
            j <= intermediate_nids@.len(),
            all_nids@ == seq![dac_nid] + intermediate_nids@.take(j as int),
        decreases intermediate_nids@.len() - j,
    {
        all_nids.push(intermediate_nids[j]);
        assert(all_nids@ =~= seq![dac_nid] + intermediate_nids@.take(j + 1));
        j = j + 1;
    }
    all_nids.push(pin_nid);
    assert(all_nids@ =~= seq![dac_nid] + intermediate_nids@ + seq![pin_nid]);
    let mut vs: Vec<u32> = Vec::new();
    let mut k: usize = 0;
    while k < all_nids.len()
        invariant
            k <= all_nids@.len(),
            vs@ == unmute_verbs(codecs@, codec_addr, all_nids@.take(k as int)),
        decreases all_nids@.len() - k,
    {
        let nid = all_nids[k];
        let w = find_codec_widget(codecs, codec_addr, nid);
        let has_out_amp = match w {
            Some(w) => w.caps & WIDGET_CAP_OUT_AMP != 0,
            None => false,
        };
        if has_out_amp {
            vs.push(encode_verb_long(codec_addr, nid, VERB_SET_AMP_GAIN, AMP_SET_OUTPUT | AMP_SET_LEFT | AMP_SET_RIGHT | 0x7F));
        }
        let has_in_amp = match w {
            Some(w) => w.caps & WIDGET_CAP_IN_AMP != 0,
            None => false,
        };
        if has_in_amp {
            vs.push(encode_verb_long(codec_addr, nid, VERB_SET_AMP_GAIN, AMP_SET_INPUT | AMP_SET_LEFT | AMP_SET_RIGHT | 0x7F));
        }
        vs.push(encode_verb_short(codec_addr, nid, VERB_SET_POWER_STATE, 0x00));
        assert(all_nids@.take(k + 1).drop_last() =~= all_nids@.take(k as int));
        assert(vs@ =~= unmute_verbs(codecs@, codec_addr, all_nids@.take(k + 1)));
        k = k + 1;
    }
    assert(all_nids@.take(all_nids@.len() as int) =~= all_nids@);
    vs
}

// =============================================================================
// Controller state
// =============================================================================

/// What a controller says of itself.
pub ghost struct ControllerView {
    pub bar0: usize,
    pub gcap: u16,
    pub ring: RingState,
    pub codecs: Seq<Codec>,
    pub output: Option<OutputView>,
}

/// High-level Intel HDA controller.
pub struct HdaController {
    /// BAR0 MMIO base address.
    bar0: usize,
    /// CORB/RIRB communication channel.
    corb_rirb: CorbRirb,
    /// Discovered codecs with their widget trees.
    codecs: Vec<Codec>,
    /// Global Capabilities register value.
    gcap: u16,
    /// Active output (if configured).
    output: Option<OutputPath>,
}

/// The view of an optional output path.
spec fn output_view_of(o: Option<OutputPath>) -> Option<OutputView> {
    match o {
        Some(p) => Some(p.view()),
        None => None,
    }
}

impl View for HdaController {
    type V = ControllerView;

    closed spec fn view(&self) -> ControllerView {
        ControllerView {
            bar0: self.bar0,
            gcap: self.gcap,
            ring: self.corb_rirb@,
            codecs: self.codecs@,
            output: output_view_of(self.output),
        }
    }
}

/// A handle for controlling audio output.
pub struct HdaOutput<'a> {
    /// The controller the handle works on.
    pub controller: &'a mut HdaController,
}

impl<'a> View for HdaOutput<'a> {
    type V = ControllerView;

    open spec fn view(&self) -> ControllerView {
        (*self.controller)@
    }
}

/// What starting a playback hands back: the register script to run, and the
/// stream that played before, to be dropped once the script has stopped it.
pub struct Playback {
    pub script: Vec<Instr>,
    pub previous: Option<HdaStream>,
}

impl HdaController {
    /// Assemble an initialized controller from its parts: the BAR0 address, the
    /// running CORB/RIRB, the codecs discovered and the Global Capabilities value.
    /// Fails when no codec was found; otherwise the output path is the one of the
    /// first codec that has one (see [`select_output_from`]).
    pub fn new(bar0: usize, corb_rirb: CorbRirb, codecs: Vec<Codec>, gcap: u16) -> (r: Result<HdaController, HdaError>)
        ensures
            codecs@.len() == 0 ==> r is Err && r->Err_0 == HdaError::NoCodecsFound,
            codecs@.len() > 0 ==> r is Ok && r->Ok_0@ == (ControllerView {
                bar0,
                gcap,
                ring: corb_rirb@,
                codecs: codecs@,
                output: select_output_from(codecs@, 0),
            }),
    {
        if codecs.len() == 0 {
            return Err(HdaError::NoCodecsFound);
        }
        let output = select_output(&codecs);
        Ok(HdaController { bar0, corb_rirb, codecs, gcap, output })
    }

    /// The BAR0 MMIO base address.
    pub fn bar0(&self) -> (b: usize)
        ensures
            b == self@.bar0,
    {
        self.bar0
    }

    /// The Global Capabilities of the controller.
    pub fn capabilities(&self) -> (c: GlobalCaps)
        ensures
            c.supports_64bit == (self@.gcap % 2 == 1),
            c.nsdo == (self@.gcap / 0x2) % 0x4,
            c.num_bss == (self@.gcap / 0x8) % 0x20,
            c.num_iss == gcap_iss(self@.gcap),
            c.num_oss == gcap_oss(self@.gcap),
    {
        GlobalCaps::decode(self.gcap)
    }

    /// The CORB/RIRB channel, to exchange verbs with the codecs.
    pub fn ring_mut(&mut self) -> (r: &mut CorbRirb)
        ensures
            r@ == old(self)@.ring,
            final(self)@ == (ControllerView { ring: final(r)@, ..old(self)@ }),
    {
        &mut self.corb_rirb
    }

    /// Get the number of discovered codecs.
    pub fn codec_count(&self) -> (n: usize)
        ensures
            n == self@.codecs.len(),
    {
        self.codecs.len()
    }

    /// Get a reference to the discovered codecs.
    pub fn codecs(&self) -> (c: &[Codec])
        ensures
            c@ == self@.codecs,
    {
        self.codecs.as_slice()
    }

    /// Check if an audio output path was found.
    pub fn has_output(&self) -> (b: bool)
        ensures
            b == self@.output is Some,
    {
        self.output.is_some()
    }

    /// Get a mutable handle for audio output operations.
    pub fn output(&mut self) -> (o: Option<HdaOutput<'_>>)
        ensures
            o is Some <==> old(self)@.output is Some,
            o is Some ==> o->Some_0@ == old(self)@,
            o is Some ==> final(self)@ == (*final(o->Some_0.controller))@,
            o is None ==> final(self)@ == old(self)@,
    {
        if self.output.is_some() {
            Some(HdaOutput { controller: self })
        } else {
            None
        }
    }

    /// Play PCM audio samples.
    ///
    /// `samples` are interleaved signed 16-bit PCM samples, `sample_rate` is the
    /// playback rate in Hz (e.g. 48000) and `channels` the number of channels
    /// (1=mono, 2=stereo). `dma_buffer` (at physical address `dma_phys`) holds two
    /// bytes per sample and `bdl_memory` (at `bdl_phys`) one BDL entry.
    ///
    /// Returns the script that stops the stream playing so far, programs the
    /// first output stream descriptor as stream 1 in the format of
    /// [`playback_format`], copies the samples into the buffer, routes the
    /// stream through the output path (see [`playback_verbs`]) and starts it; the
    /// new stream becomes the output's stream. Fails when no output path is
    /// configured.
    pub fn play_pcm(
        &mut self,
        samples: &[i16],
        sample_rate: u32,
        channels: u16,
        dma_buffer: Vec<u8>,
        dma_phys: u64,
        bdl_memory: Vec<u128>,
        bdl_phys: u64,
    ) -> (r: Result<Playback, HdaError>)
        requires
            dma_buffer@.len() == samples@.len() * 2,
            bdl_memory@.len() == 1,
        ensures
            old(self)@.output is None ==> r is Err && r->Err_0 == HdaError::NoOutputPath
                && final(self)@ == old(self)@,
            old(self)@.output is Some ==> r is Ok && {
                let (script, previous, after) = playback_spec(
                    old(self)@,
                    samples@,
                    sample_rate,
                    channels,
                    dma_phys,
                    bdl_phys,
                );
                &&& r->Ok_0.script@ == script
                &&& stream_view_of(r->Ok_0.previous) == previous
                &&& final(self)@ == after
            },
            r is Ok ==> script_wf(r->Ok_0.script@),
    {
        let ghost c = self@;
        let buffer_len = dma_buffer.len();
        assert(samples@.len() * 2 <= usize::MAX);
        let controller = &mut *self;
        let output = match controller.output.as_mut() {
            Some(o) => o,
            None => return Err(HdaError::NoOutputPath),
        };
        let format = select_format(sample_rate, channels);
        let fmt_val = format.encode();
        let mut script: Vec<Instr> = Vec::new();
        let mut previous = output.stream.take();
        match previous.as_mut() {
            Some(stream) => {
                let mut stop = stream.stop();
                script.append(&mut stop);
            },
            None => {},
        }
        let iss = ((controller.gcap >> 8u16) & 0x0F) as usize;
        proof {
            let g = controller.gcap;
            assert((g >> 8u16) & 0x0F == (g / 0x100) % 0x10) by (bit_vector);
        }
        let stream_number: u8 = 1;
        let mut stream = HdaStream::new(
            controller.bar0,
            iss,
            stream_number,
            format,
            dma_buffer,
            dma_phys,
            bdl_memory,
            bdl_phys,
        );
        let ghost before_setup = script@;
        let mut setup = stream.setup_script();
        script.append(&mut setup);
        let ghost fresh_view = stream@;
        let ghost stop_part = before_setup;
        let copy_len = stream.fill_buffer(samples);
        proof {
            assert(stream@.dma =~= pcm_bytes(samples@)) by {
                assert forall|j: int| 0 <= j < stream@.dma.len() implies stream@.dma[j] == pcm_bytes(samples@)[j] by {
                    let k = j / 2;
                    assert(j == 2 * k || j == 2 * k + 1);
                    assert(0 <= k < copy_len / 2);
                    assert(stream@.dma[2 * k] == sample_lo(samples@[k]));
                }
            }
        }
        script.push(stream.length_update(copy_len));
        let stream_chan: u16 = (stream_number as u16) << 4u16;
        assert(stream_chan == 16) by (bit_vector)
            requires
                stream_chan == (1u16 << 4u16),
        ;
        let mut verbs: Vec<u32> = Vec::new();
        verbs.push(encode_verb_long(output.codec_addr, output.dac_nid, VERB_SET_CHANNEL_STREAMID, stream_chan));
        verbs.push(encode_verb_long(output.codec_addr, output.dac_nid, VERB_SET_STREAM_FORMAT, fmt_val));
        verbs.push(encode_verb_short(output.codec_addr, output.dac_nid, VERB_SET_POWER_STATE, 0x00));
        verbs.push(encode_verb_short(output.codec_addr, output.pin_nid, VERB_SET_PIN_CTRL, PIN_CTRL_OUT_ENABLE | PIN_CTRL_HP_ENABLE));
        let pin_widget = find_codec_widget(&controller.codecs, output.codec_addr, output.pin_nid);
        let has_eapd = match pin_widget {
            Some(pw) => pw.pin_caps & PIN_CAP_EAPD != 0,
            None => false,
        };
        if has_eapd {
            verbs.push(encode_verb_short(output.codec_addr, output.pin_nid, VERB_SET_EAPDBTL, 0x02));
        }
        let mut unmute = unmute_path_verbs(
            &controller.codecs,
            output.codec_addr,
            output.dac_nid,
            output.pin_nid,
            &output.intermediate_nids,
        );
        verbs.append(&mut unmute);
        let mut i: usize = 0;
        let ghost before = script@;
        while i < verbs.len()
            invariant
                i <= verbs@.len(),
                script@ == before + verb_instrs(verbs@.take(i as int)),
            decreases verbs@.len() - i,
        {
            script.push(Instr::Verb { verb: verbs[i] });
            assert(verb_instrs(verbs@.take(i + 1)) =~= verb_instrs(verbs@.take(i as int)).push(Instr::Verb { verb: verbs@[i as int] }));
            i = i + 1;
        }
        proof {
            assert(verbs@ == playback_verbs(c.codecs, c.output->Some_0, 1, format_word(format)));
        }
        let mut start = stream.start();
        script.append(&mut start);
        let ghost stream_v = stream@;
        output.stream = Some(stream);
        proof {
            let (es, ep, ea) = playback_spec(c, samples@, sample_rate, channels, dma_phys, bdl_phys);
            let o = c.output->Some_0;
            let fresh = StreamView {
                bar0: c.bar0,
                sd_index: gcap_iss(c.gcap) as usize,
                stream_number: 1,
                bdl: seq![BdlEntry { address: dma_phys, length: (samples@.len() * 2) as u32, flags: BDL_IOC }],
                bdl_phys,
                dma: Seq::new((samples@.len() * 2) as nat, |i: int| 0u8),
                dma_phys,
                format: playback_format(sample_rate, channels),
                running: false,
            };
            let played = StreamView { dma: pcm_bytes(samples@), running: true, ..fresh };
            assert(stream_v.bdl =~= played.bdl);
            assert(stream_v == played);
            assert(output.view() == OutputView { stream: Some(played), ..o });
            assert(controller.output is Some);
            assert(stream_view_of(previous) == ep);
            assert(script@ =~= es);
            assert(self@ == ea);
        }
        Ok(Playback { script, previous })
    }


    /// Stop audio playback: the script that stops the output's stream, if it runs.
    pub fn stop(&mut self) -> (s: Vec<Instr>)
        ensures
            old(self)@.output is Some && old(self)@.output->Some_0.stream is Some ==> {
                let o = old(self)@.output->Some_0;
                let sv = o.stream->Some_0;
                &&& s@ == stop_script_of(sv)
                &&& final(self)@ == (ControllerView {
                    output: Some(OutputView { stream: Some(StreamView { running: false, ..sv }), ..o }),
                    ..old(self)@
                })
            },
            !(old(self)@.output is Some && old(self)@.output->Some_0.stream is Some) ==> s@.len() == 0
                && final(self)@ == old(self)@,
            script_wf(s@),
    {
        match self.output.as_mut() {
            Some(output) => match output.stream.as_mut() {
                Some(stream) => stream.stop(),
                None => Vec::new(),
            },
            None => Vec::new(),
        }
    }


    /// Set the output volume level (0-127, where 0 = minimum, 127 = maximum): the
    /// script that sets the DAC's output amp gain (both channels, unmuted) to the
    /// low 7 bits of `level`. Nothing when no output path is configured.
    pub fn set_volume(&mut self, level: u8) -> (s: Vec<Instr>)
        ensures
            final(self)@ == old(self)@,
            old(self)@.output is None ==> s@.len() == 0,
            old(self)@.output is Some ==> s@ == seq![
                Instr::Verb {
                    verb: verb_long_spec(
                        old(self)@.output->Some_0.codec_addr,
                        old(self)@.output->Some_0.dac_nid,
                        VERB_SET_AMP_GAIN,
                        (0xB000 + level % 128) as u16,
                    ),
                },
            ],
            script_wf(s@),
    {
        let output = match self.output.as_ref() {
            Some(o) => o,
            None => return Vec::new(),
        };
        let gain = level & 0x7F;
        let payload = AMP_SET_OUTPUT | AMP_SET_LEFT | AMP_SET_RIGHT | (gain as u16);
        proof {
            assert(0x8000u16 | 0x2000u16 | 0x1000u16 == 0xB000u16) by (bit_vector);
            let g = gain as u16;
            assert(gain == level % 128) by (bit_vector)
                requires
                    gain == level & 0x7F,
            ;
            assert(0xB000u16 | g == 0xB000u16 + g) by (bit_vector)
                requires
                    g < 128,
            ;
        }
        vec![Instr::Verb { verb: encode_verb_long(output.codec_addr, output.dac_nid, VERB_SET_AMP_GAIN, payload) }]
    }


    /// Play a simple beep/tone at the given frequency and duration: the sine-wave
    /// tone of [`generate_tone`] at 48 kHz in stereo, played as [`HdaController::play_pcm`] does.
    pub fn beep(
        &mut self,
        frequency: u16,
        duration_ms: u32,
        dma_buffer: Vec<u8>,
        dma_phys: u64,
        bdl_memory: Vec<u128>,
        bdl_phys: u64,
    ) -> (r: Result<Playback, HdaError>)
        requires
            frequency > 0,
            48000 * duration_ms <= u32::MAX,
            tone_frames(48000, duration_ms) > 0 ==> frequency <= 48000,
            dma_buffer@.len() == tone_frames(48000, duration_ms) * 4,
            bdl_memory@.len() == 1,
        ensures
            old(self)@.output is None ==> r is Err && r->Err_0 == HdaError::NoOutputPath
                && final(self)@ == old(self)@,
            old(self)@.output is Some ==> r is Ok && {
                let (script, previous, after) = playback_spec(
                    old(self)@,
                    tone_samples(frequency, 48000, 2, duration_ms),
                    48000,
                    2,
                    dma_phys,
                    bdl_phys,
                );
                &&& r->Ok_0.script@ == script
                &&& stream_view_of(r->Ok_0.previous) == previous
                &&& final(self)@ == after
            },
            r is Ok ==> script_wf(r->Ok_0.script@),
    {
        let sample_rate = 48000u32;
        let channels = 2u16;
        let samples = generate_tone(frequency, sample_rate, channels, duration_ms);
        self.play_pcm(samples.as_slice(), sample_rate, channels, dma_buffer, dma_phys, bdl_memory, bdl_phys)
    }

}

/// What playing `samples` at `sample_rate` Hz on `channels` channels does to
/// controller state `c` whose output path is configured, with the DMA buffer at
/// `dma_phys` and the BDL at `bdl_phys`: the script to run, the stream that
/// played before (stopped), and the controller state afterwards.
pub open spec fn playback_spec(
    c: ControllerView,
    samples: Seq<i16>,
    sample_rate: u32,
    channels: u16,
    dma_phys: u64,
    bdl_phys: u64,
) -> (Seq<Instr>, Option<StreamView>, ControllerView) {
    let o = c.output->Some_0;
    let fmt = playback_format(sample_rate, channels);
    let len = samples.len() * 2;
    let fresh = StreamView {
        bar0: c.bar0,
        sd_index: gcap_iss(c.gcap) as usize,
        stream_number: 1,
        bdl: seq![BdlEntry { address: dma_phys, length: len as u32, flags: BDL_IOC }],
        bdl_phys,
        dma: Seq::new(len as nat, |i: int| 0u8),
        dma_phys,
        format: fmt,
        running: false,
    };
    let played = StreamView { dma: pcm_bytes(samples), running: true, ..fresh };
    let stop = match o.stream {
        Some(sv) => stop_script_of(sv),
        None => Seq::empty(),
    };
    let script = stop + setup_script_of(fresh) + seq![
        Instr::Write { width: Width::W32, offset: (sd_base_of(fresh) + SD_CBL) as usize, value: len as u32 },
    ] + verb_instrs(playback_verbs(c.codecs, o, 1, format_word(fmt))) + start_script_of(fresh);
    let previous = match o.stream {
        Some(sv) => Some(StreamView { running: false, ..sv }),
        None => None,
    };
    (script, previous, ControllerView { output: Some(OutputView { stream: Some(played), ..o }), ..c })
}

/// Playing never changes the codecs, the rings, the BAR0 address or the
/// capabilities of a controller, and its output path stays configured.
pub proof fn lemma_playback_keeps_controller(
    c: ControllerView,
    samples: Seq<i16>,
    sample_rate: u32,
    channels: u16,
    dma_phys: u64,
    bdl_phys: u64,
)
    requires
        c.output is Some,
    ensures
        ({
            let after = playback_spec(c, samples, sample_rate, channels, dma_phys, bdl_phys).2;
            &&& after.codecs == c.codecs
            &&& after.ring == c.ring
            &&& after.bar0 == c.bar0
            &&& after.gcap == c.gcap
            &&& after.output is Some
        }),
{
}

impl<'a> HdaOutput<'a> {
    /// The BAR0 MMIO base address.
    pub fn bar0(&self) -> (b: usize)
        ensures
            b == self@.bar0,
    {
        self.controller.bar0
    }

    /// The CORB/RIRB channel, to exchange verbs with the codecs.
    pub fn ring_mut(&mut self) -> (r: &mut CorbRirb)
        ensures
            r@ == old(self)@.ring,
            final(self)@ == (ControllerView { ring: final(r)@, ..old(self)@ }),
    {
        &mut self.controller.corb_rirb
    }

    /// Play PCM audio samples.
    ///
    /// `samples` are interleaved signed 16-bit PCM samples, `sample_rate` is the
    /// playback rate in Hz (e.g. 48000) and `channels` the number of channels
    /// (1=mono, 2=stereo). `dma_buffer` (at physical address `dma_phys`) holds two
    /// bytes per sample and `bdl_memory` (at `bdl_phys`) one BDL entry.
    ///
    /// Returns the script that stops the stream playing so far, programs the
    /// first output stream descriptor as stream 1 in the format of
    /// [`playback_format`], copies the samples into the buffer, routes the
    /// stream through the output path (see [`playback_verbs`]) and starts it; the
    /// new stream becomes the output's stream. Fails when no output path is
    /// configured.
    pub fn play_pcm(
        &mut self,
        samples: &[i16],
        sample_rate: u32,
        channels: u16,
        dma_buffer: Vec<u8>,
        dma_phys: u64,
        bdl_memory: Vec<u128>,
        bdl_phys: u64,
    ) -> (r: Result<Playback, HdaError>)
        requires
            dma_buffer@.len() == samples@.len() * 2,
            bdl_memory@.len() == 1,
        ensures
            old(self)@.output is None ==> r is Err && r->Err_0 == HdaError::NoOutputPath
                && final(self)@ == old(self)@,
            old(self)@.output is Some ==> r is Ok && {
                let (script, previous, after) = playback_spec(
                    old(self)@,
                    samples@,
                    sample_rate,
                    channels,
                    dma_phys,
                    bdl_phys,
                );
                &&& r->Ok_0.script@ == script
                &&& stream_view_of(r->Ok_0.previous) == previous
                &&& final(self)@ == after
            },
            r is Ok ==> script_wf(r->Ok_0.script@),
    {
        self.controller.play_pcm(samples, sample_rate, channels, dma_buffer, dma_phys, bdl_memory, bdl_phys)
    }

    /// Stop audio playback: the script that stops the output's stream, if it runs.
    pub fn stop(&mut self) -> (s: Vec<Instr>)
        ensures
            old(self)@.output is Some && old(self)@.output->Some_0.stream is Some ==> {
                let o = old(self)@.output->Some_0;
                let sv = o.stream->Some_0;
                &&& s@ == stop_script_of(sv)
                &&& final(self)@ == (ControllerView {
                    output: Some(OutputView { stream: Some(StreamView { running: false, ..sv }), ..o }),
                    ..old(self)@
                })
            },
            !(old(self)@.output is Some && old(self)@.output->Some_0.stream is Some) ==> s@.len() == 0
                && final(self)@ == old(self)@,
            script_wf(s@),
    {
        self.controller.stop()
    }

    /// Set the output volume level (0-127, where 0 = minimum, 127 = maximum): the
    /// script that sets the DAC's output amp gain (both channels, unmuted) to the
    /// low 7 bits of `level`. Nothing when no output path is configured.
    pub fn set_volume(&mut self, level: u8) -> (s: Vec<Instr>)
        ensures
            final(self)@ == old(self)@,
            old(self)@.output is None ==> s@.len() == 0,
            old(self)@.output is Some ==> s@ == seq![
                Instr::Verb {
                    verb: verb_long_spec(
                        old(self)@.output->Some_0.codec_addr,
                        old(self)@.output->Some_0.dac_nid,
                        VERB_SET_AMP_GAIN,
                        (0xB000 + level % 128) as u16,
                    ),
                },
            ],
            script_wf(s@),
    {
        self.controller.set_volume(level)
    }

    /// Number of bytes of DMA buffer that a beep of `duration_ms` milliseconds takes.
    pub fn beep_buffer_len(duration_ms: u32) -> (n: usize)
        requires
            48000 * duration_ms <= u32::MAX,
        ensures
            n == tone_frames(48000, duration_ms) * 4,
    {
        (48000 * duration_ms / 1000) as usize * 4
    }


    /// Play a simple beep/tone at the given frequency and duration: the sine-wave
    /// tone of [`generate_tone`] at 48 kHz in stereo, played as [`HdaOutput::play_pcm`] does.
    pub fn beep(
        &mut self,
        frequency: u16,
        duration_ms: u32,
        dma_buffer: Vec<u8>,
        dma_phys: u64,
        bdl_memory: Vec<u128>,
        bdl_phys: u64,
    ) -> (r: Result<Playback, HdaError>)
        requires
            frequency > 0,
            48000 * duration_ms <= u32::MAX,
            tone_frames(48000, duration_ms) > 0 ==> frequency <= 48000,
            dma_buffer@.len() == tone_frames(48000, duration_ms) * 4,
            bdl_memory@.len() == 1,
        ensures
            old(self)@.output is None ==> r is Err && r->Err_0 == HdaError::NoOutputPath
                && final(self)@ == old(self)@,
            old(self)@.output is Some ==> r is Ok && {
                let (script, previous, after) = playback_spec(
                    old(self)@,
                    tone_samples(frequency, 48000, 2, duration_ms),
                    48000,
                    2,
                    dma_phys,
                    bdl_phys,
                );
                &&& r->Ok_0.script@ == script
                &&& stream_view_of(r->Ok_0.previous) == previous
                &&& final(self)@ == after
            },
            r is Ok ==> script_wf(r->Ok_0.script@),
    {
        self.controller.beep(frequency, duration_ms, dma_buffer, dma_phys, bdl_memory, bdl_phys)
    }
}

} // verus!
