use hda_nostd::codec::CorbRirb;
use hda_nostd::driver::{
    check_capabilities, check_version, reset_script, select_format, GlobalCaps, HdaController,
    HdaOutput,
};
use hda_nostd::registers::GCTL;
use hda_nostd::script::{HdaError, HwOp, Instr, ScriptRun, ScriptStep, Width};
use hda_nostd::stream::{generate_tone, StreamFormat};
use hda_nostd::widget::{
    Codec, PinConfig, Widget, WidgetType, PIN_CAP_EAPD, PIN_CAP_OUTPUT, WIDGET_CAP_IN_AMP,
    WIDGET_CAP_OUT_AMP,
};

fn widget(nid: u8, t: WidgetType, caps: u32, connections: Vec<u8>) -> Widget {
    Widget {
        nid,
        widget_type: t,
        caps,
        pin_config: None,
        pin_caps: 0,
        connections,
        amp_out_caps: 0,
        amp_in_caps: 0,
    }
}

fn test_codec() -> Codec {
    let mut pin = widget(4, WidgetType::PinComplex, WIDGET_CAP_OUT_AMP, vec![3]);
    pin.pin_caps = PIN_CAP_OUTPUT | PIN_CAP_EAPD;
    pin.pin_config = Some(PinConfig::decode(0x0101_4010));
    Codec {
        address: 0,
        vendor_id: 0x10EC,
        device_id: 0x0662,
        widgets: vec![
            widget(2, WidgetType::AudioOutput, WIDGET_CAP_OUT_AMP, vec![]),
            widget(3, WidgetType::AudioMixer, 0x0020_0000 | WIDGET_CAP_IN_AMP, vec![2]),
            pin,
        ],
        afg_nid: 1,
    }
}

fn controller() -> HdaController {
    HdaController::new(0xFE00_0000, CorbRirb::new(0xFE00_0000, 0x40, 0x40), vec![test_codec()], 0x4401)
        .unwrap_or_else(|_| panic!("controller"))
}

fn verbs(script: &[Instr]) -> Vec<u32> {
    script
        .iter()
        .filter_map(|i| match i {
            Instr::Verb { verb } => Some(*verb),
            _ => None,
        })
        .collect()
}

#[test]
fn version_check() {
    assert_eq!(check_version(1), Ok(()));
    assert_eq!(check_version(2), Err(HdaError::UnsupportedVersion));
    assert_eq!(check_version(0), Err(HdaError::UnsupportedVersion));
}

#[test]
fn error_messages() {
    assert_eq!(HdaError::UnsupportedVersion.message(), "unsupported HDA version");
    assert_eq!(HdaError::NoOutputStreams.message(), "no output streams");
    assert_eq!(HdaError::ResetEnterTimeout.message(), "reset enter timeout");
    assert_eq!(HdaError::ResetExitTimeout.message(), "reset exit timeout");
    assert_eq!(HdaError::NoCodecsFound.message(), "no codecs found");
    assert_eq!(HdaError::NoOutputPath.message(), "no output path");
}

#[test]
fn capabilities_decode() {
    let c = GlobalCaps::decode(0x4401);
    assert!(c.supports_64bit);
    assert_eq!((c.nsdo, c.num_bss, c.num_iss, c.num_oss), (0, 0, 4, 4));
    let d = GlobalCaps::decode(0xFFFE);
    assert!(!d.supports_64bit);
    assert_eq!((d.nsdo, d.num_bss, d.num_iss, d.num_oss), (3, 31, 15, 15));
    assert!(check_capabilities(0x4401).is_ok());
    assert!(matches!(check_capabilities(0x0401), Err(HdaError::NoOutputStreams)));
}

fn run(script: Vec<Instr>, mut read: impl FnMut(usize) -> u64) -> (Result<(), HdaError>, usize) {
    let mut r = ScriptRun::new(script);
    let mut input = 0u64;
    let mut reads = 0usize;
    loop {
        match r.step(input) {
            ScriptStep::Io(HwOp::Read { offset, .. }) => {
                reads += 1;
                input = read(offset);
            }
            ScriptStep::Io(_) => input = 0,
            ScriptStep::Verb(_) => input = 0,
            ScriptStep::Done(res) => return (res, reads),
        }
    }
}

#[test]
fn reset_script_succeeds_when_crst_follows() {
    let s = reset_script();
    assert_eq!(s.len(), 7);
    assert_eq!(s[6], Instr::Modify { width: Width::W32, offset: GCTL, clear: 0, set: 0x100 });
    let mut phase = 0;
    let (res, _) = run(s, |_| {
        phase += 1;
        // Reads: GCTL before entering reset, the wait for CRST = 0, GCTL before
        // leaving reset, then CRST = 1 from there on.
        match phase {
            1 => 1,
            2 => 0,
            3 => 0,
            _ => 1,
        }
    });
    assert_eq!(res, Ok(()));
}

#[test]
fn reset_script_fails_when_crst_sticks() {
    let (res, reads) = run(reset_script(), |_| 1);
    assert_eq!(res, Err(HdaError::ResetEnterTimeout));
    assert_eq!(reads, 1 + 100_001);
}

#[test]
fn reset_script_fails_when_controller_stays_in_reset() {
    let (res, reads) = run(reset_script(), |_| 0);
    assert_eq!(res, Err(HdaError::ResetExitTimeout));
    assert_eq!(reads, 1 + 1 + 1 + 100_001);
}

#[test]
fn no_codecs_is_an_error() {
    let r = HdaController::new(0, CorbRirb::new(0, 0, 0), vec![], 0x1000);
    assert!(matches!(r, Err(HdaError::NoCodecsFound)));
}

#[test]
fn controller_finds_output_path() {
    let mut c = controller();
    assert_eq!(c.codec_count(), 1);
    assert_eq!(c.codecs()[0].vendor_id, 0x10EC);
    assert!(c.has_output());
    assert!(c.output().is_some());
    assert_eq!(c.capabilities().num_iss, 4);
}

#[test]
fn controller_without_path_has_no_output() {
    let mut codec = test_codec();
    codec.widgets.truncate(2);
    let mut c = HdaController::new(0, CorbRirb::new(0, 0, 0), vec![codec], 0x1000).unwrap_or_else(|_| panic!());
    assert!(!c.has_output());
    assert!(c.output().is_none());
}

#[test]
fn format_selection() {
    assert_eq!(select_format(48000, 2), StreamFormat::pcm_48k_16bit_stereo());
    assert_eq!(select_format(48000, 1), StreamFormat::pcm_48k_16bit_mono());
    assert_eq!(select_format(44100, 2), StreamFormat::pcm_44k1_16bit_stereo());
    assert_eq!(select_format(96000, 2), StreamFormat::pcm_96k_16bit_stereo());
    let f = select_format(88200, 1);
    assert!(f.base_44k1);
    assert_eq!((f.rate_mult, f.rate_div, f.bits, f.channels_minus_1), (1, 0, 1, 0));
    let g = select_format(192000, 6);
    assert!(!g.base_44k1);
    assert_eq!((g.rate_mult, g.channels_minus_1), (3, 5));
    let h = select_format(8000, 0);
    assert_eq!((h.base_44k1, h.rate_mult, h.rate_div, h.channels_minus_1), (false, 0, 5, 0));
    assert_eq!(h.sample_rate_hz(), 8000);
}

#[test]
fn custom_rates_decode_to_the_requested_rate() {
    let f = select_format(22050, 1);
    assert_eq!((f.base_44k1, f.rate_mult, f.rate_div, f.bits, f.channels_minus_1), (true, 0, 1, 1, 0));
    for &(rate, ch) in &[(22050u32, 1u16), (11025, 2), (32000, 2), (16000, 1), (176400, 8), (64000, 16), (88200, 2)] {
        let d = StreamFormat::decode(select_format(rate, ch).encode());
        assert_eq!(d.sample_rate_hz(), rate);
        assert_eq!(d.channels(), ch);
        assert_eq!(d.bits_per_sample(), 16);
    }
    // No base, multiplier and divisor reach 44000 Hz.
    let g = select_format(44000, 2);
    assert_eq!((g.base_44k1, g.rate_mult, g.rate_div), (false, 0, 0));
}

fn play(out: &mut HdaOutput<'_>, samples: &[i16]) -> Vec<Instr> {
    let dma = vec![0u8; samples.len() * 2];
    let bdl = vec![0u128; 1];
    match out.play_pcm(samples, 48000, 2, dma, 0x10_0000, bdl, 0x20_0000) {
        Ok(p) => p.script,
        Err(e) => panic!("{:?}", e),
    }
}

#[test]
fn playback_script_routes_the_path() {
    let mut c = controller();
    let mut out = c.output().unwrap();
    let script = play(&mut out, &[1, 2, 3, 4]);
    // Stream descriptor 4 (after the 4 input streams): reset, program, length.
    assert_eq!(script[4], Instr::Write { width: Width::W32, offset: 0x118, value: 0x20_0000 });
    assert_eq!(script[8], Instr::Write { width: Width::W16, offset: 0x112, value: 0x0011 });
    assert_eq!(script[11], Instr::Write { width: Width::W32, offset: 0x108, value: 8 });
    assert_eq!(
        verbs(&script),
        vec![
            0x0026_0010, // DAC stream 1, channel 0
            0x0022_0011, // DAC format
            0x0027_0500, // DAC power
            0x0047_07C0, // pin out + HP
            0x0047_0C02, // EAPD
            0x0023_B07F, // DAC output amp
            0x0027_0500,
            0x0033_707F, // mixer input amp
            0x0037_0500,
            0x0043_B07F, // pin output amp
            0x0047_0500,
        ]
    );
    let n = script.len();
    assert_eq!(script[n - 1], Instr::Modify { width: Width::W8, offset: 0x100, clear: 0, set: 0x02 });
}

#[test]
fn second_playback_stops_the_first() {
    let mut c = controller();
    let mut out = c.output().unwrap();
    let _ = play(&mut out, &[1, 2]);
    let second = out
        .play_pcm(&[5, 6], 48000, 2, vec![0u8; 4], 0x30_0000, vec![0u128; 1], 0x40_0000)
        .unwrap_or_else(|_| panic!());
    assert!(second.previous.is_some());
    assert!(!second.previous.as_ref().unwrap().is_running());
    assert_eq!(second.script[0], Instr::Modify { width: Width::W8, offset: 0x100, clear: 0x02, set: 0 });
    assert_eq!(out.stop().len(), 2);
    assert_eq!(out.stop().len(), 0);
}

#[test]
fn volume_sets_dac_gain() {
    let mut c = controller();
    let mut out = c.output().unwrap();
    assert_eq!(out.set_volume(100), vec![Instr::Verb { verb: 0x0023_B064 }]);
    assert_eq!(out.set_volume(0xFF), vec![Instr::Verb { verb: 0x0023_B07F }]);
    assert_eq!(out.stop().len(), 0);
}

#[test]
fn beep_plays_a_tone() {
    let mut c = controller();
    let mut out = c.output().unwrap();
    let len = HdaOutput::beep_buffer_len(10);
    assert_eq!(len, 1920);
    let p = out
        .beep(440, 10, vec![0u8; len], 0x10_0000, vec![0u128; 1], 0x20_0000)
        .unwrap_or_else(|_| panic!());
    assert_eq!(p.script[11], Instr::Write { width: Width::W32, offset: 0x108, value: 1920 });
}

#[test]
fn controller_plays_without_a_handle() {
    let mut c = controller();
    let p = c
        .play_pcm(&[1, 2], 48000, 2, vec![0u8; 4], 0x10_0000, vec![0u128; 1], 0x20_0000)
        .unwrap_or_else(|_| panic!("playback"));
    assert!(p.previous.is_none());
    assert_eq!(c.stop().len(), 2);
    assert_eq!(c.set_volume(1), vec![Instr::Verb { verb: 0x0023_B001 }]);
    assert_eq!(c.codec_count(), 1);
    assert!(c.has_output());
}

#[test]
fn beep_plays_what_play_pcm_plays_for_its_tone() {
    let mut a = controller();
    let mut b = controller();
    let len = HdaOutput::beep_buffer_len(20);
    let beeped = a
        .beep(880, 20, vec![0u8; len], 0x10_0000, vec![0u128; 1], 0x20_0000)
        .unwrap_or_else(|_| panic!("beep"));
    let tone = generate_tone(880, 48000, 2, 20);
    let played = b
        .play_pcm(&tone, 48000, 2, vec![0u8; tone.len() * 2], 0x10_0000, vec![0u128; 1], 0x20_0000)
        .unwrap_or_else(|_| panic!("play"));
    assert_eq!(beeped.script, played.script);
}
