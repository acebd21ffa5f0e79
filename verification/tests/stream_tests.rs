use hda_nostd::registers::{SD_CTL2_DIR, SD_STS_BCIS};
use hda_nostd::script::{HwOp, Instr, Width};
use hda_nostd::stream::{generate_tone, BdlEntry, HdaStream, StreamFormat, BDL_IOC};

fn new_stream(len: usize) -> HdaStream {
    HdaStream::new(0, 4, 1, StreamFormat::pcm_48k_16bit_stereo(), vec![0xAAu8; len], 0x8000, vec![0u128; 1], 0x9000)
}

#[test]
fn preset_format_words() {
    assert_eq!(StreamFormat::pcm_48k_16bit_stereo().encode(), 0x0011);
    assert_eq!(StreamFormat::pcm_48k_16bit_mono().encode(), 0x0010);
    assert_eq!(StreamFormat::pcm_44k1_16bit_stereo().encode(), 0x8011);
    assert_eq!(StreamFormat::pcm_96k_16bit_stereo().encode(), 0x0811);
    assert_eq!(StreamFormat::pcm_48k_24bit_stereo().encode(), 0x0031);
}

#[test]
fn encode_masks_each_field() {
    let f = StreamFormat { base_44k1: false, rate_mult: 0x0B, rate_div: 0x0F, bits: 0x0C, channels_minus_1: 0x1F };
    assert_eq!(f.encode(), 0x1F4F);
}

#[test]
fn decode_reads_each_field() {
    let f = StreamFormat::decode(0xBF7F);
    assert!(f.base_44k1);
    assert_eq!((f.rate_mult, f.rate_div, f.bits, f.channels_minus_1), (7, 7, 7, 15));
    let g = StreamFormat::decode(0x4080);
    assert!(!g.base_44k1);
    assert_eq!((g.rate_mult, g.rate_div, g.bits, g.channels_minus_1), (0, 0, 0, 0));
}

#[test]
fn format_round_trip() {
    let f = StreamFormat { base_44k1: true, rate_mult: 3, rate_div: 5, bits: 4, channels_minus_1: 7 };
    assert_eq!(StreamFormat::decode(f.encode()), f);
    assert_eq!(StreamFormat::decode(0xFFFF).encode(), 0xBF7F);
}

#[test]
fn sample_rates() {
    assert_eq!(StreamFormat::pcm_48k_16bit_stereo().sample_rate_hz(), 48000);
    assert_eq!(StreamFormat::pcm_44k1_16bit_stereo().sample_rate_hz(), 44100);
    assert_eq!(StreamFormat::pcm_96k_16bit_stereo().sample_rate_hz(), 96000);
    let f = StreamFormat { base_44k1: true, rate_mult: 1, rate_div: 2, bits: 1, channels_minus_1: 1 };
    assert_eq!(f.sample_rate_hz(), 29400);
}

#[test]
fn sample_sizes_and_frames() {
    let mut f = StreamFormat::pcm_48k_24bit_stereo();
    assert_eq!(f.bits_per_sample(), 24);
    assert_eq!(f.channels(), 2);
    assert_eq!(f.frame_size(), 6);
    f.bits = 2;
    f.channels_minus_1 = 0;
    assert_eq!(f.bits_per_sample(), 20);
    assert_eq!(f.frame_size(), 3);
    f.bits = 0;
    assert_eq!(f.bits_per_sample(), 8);
    f.bits = 4;
    assert_eq!(f.bits_per_sample(), 32);
    f.bits = 6;
    assert_eq!(f.bits_per_sample(), 16);
    assert_eq!(StreamFormat::pcm_48k_16bit_stereo().frame_size(), 4);
}

#[test]
fn bdl_word_layout() {
    let e = BdlEntry { address: 0x1122_3344_5566_7788, length: 0x99AA_BBCC, flags: BDL_IOC };
    let w = e.to_word();
    assert_eq!(w, 0x0000_0001_99AA_BBCC_1122_3344_5566_7788u128);
    let back = BdlEntry::from_word(w);
    assert_eq!((back.address, back.length, back.flags), (e.address, e.length, e.flags));
}

#[test]
fn new_stream_zeroes_buffer_and_fills_bdl() {
    let s = new_stream(6);
    assert_eq!(s.dma_buffer(), &vec![0u8; 6]);
    assert_eq!(s.bdl_memory()[0], BdlEntry { address: 0x8000, length: 6, flags: 1 }.to_word());
    assert!(!s.is_running());
    assert_eq!(s.stream_number(), 1);
    assert_eq!(s.format_register(), 0x0011);
    assert_eq!(s.descriptor_offset(), 0x80 + 4 * 0x20);
}

#[test]
fn fill_buffer_copies_little_endian_and_zeroes_tail() {
    let mut s = new_stream(8);
    let n = s.fill_buffer(&[1, -2, 0x1234]);
    assert_eq!(n, 6);
    assert_eq!(s.dma_buffer(), &vec![1, 0, 0xFE, 0xFF, 0x34, 0x12, 0, 0]);
    assert_eq!(BdlEntry::from_word(s.bdl_memory()[0]).length, 6);
}

#[test]
fn fill_buffer_truncates_to_buffer() {
    let mut s = new_stream(3);
    let n = s.fill_buffer(&[0x0102, 0x0304]);
    assert_eq!(n, 2);
    assert_eq!(s.dma_buffer()[0], 0x02);
    assert_eq!(s.dma_buffer()[1], 0x01);
    assert_eq!(s.dma_buffer()[2], 0x00);
    assert_eq!(
        s.length_update(n),
        Instr::Write { width: Width::W32, offset: 0x100 + 0x08, value: 2 }
    );
}

#[test]
fn fill_buffer_copies_whole_samples_only() {
    let mut s = new_stream(5);
    let _ = s.fill_buffer(&[0x7777, 0x7777, 0x7777]);
    let n = s.fill_buffer(&[1, 2, 3]);
    assert_eq!(n, 4);
    assert_eq!(s.dma_buffer(), &vec![1, 0, 2, 0, 0]);
    assert_eq!(BdlEntry::from_word(s.bdl_memory()[0]).length, 4);
}

#[test]
fn setup_script_programs_descriptor() {
    let s = new_stream(16);
    let script = s.setup_script();
    assert_eq!(script.len(), 11);
    assert_eq!(script[4], Instr::Write { width: Width::W32, offset: 0x118, value: 0x9000 });
    assert_eq!(script[6], Instr::Write { width: Width::W32, offset: 0x108, value: 16 });
    assert_eq!(script[8], Instr::Write { width: Width::W16, offset: 0x112, value: 0x0011 });
    assert_eq!(script[9], Instr::Write { width: Width::W8, offset: 0x102, value: (0x10 | SD_CTL2_DIR) as u32 });
}

#[test]
fn start_and_stop_are_idempotent() {
    let mut s = new_stream(4);
    assert_eq!(s.stop().len(), 0);
    let start = s.start();
    assert_eq!(start.len(), 2);
    assert!(s.is_running());
    assert_eq!(s.start().len(), 0);
    let stop = s.stop();
    assert_eq!(stop.len(), 2);
    assert!(!s.is_running());
    assert_eq!(s.stop().len(), 0);
}

#[test]
fn buffer_complete_reads_bcis() {
    let s = new_stream(2);
    assert!(s.buffer_complete(SD_STS_BCIS));
    assert!(s.buffer_complete(0xFF));
    assert!(!s.buffer_complete(0x3B));
}

#[test]
fn tone_has_one_sample_per_channel_per_frame() {
    let t = generate_tone(440, 48000, 2, 10);
    assert_eq!(t.len(), 960);
    for f in 0..480 {
        assert_eq!(t[2 * f], t[2 * f + 1]);
    }
}

#[test]
fn tone_sample_values() {
    let t = generate_tone(440, 48000, 1, 10);
    assert_eq!(t[0], 0);
    assert_eq!(t[1], -2359);
    assert_eq!(t[27], -32764);
    assert_eq!(t[54], -1192);
    assert_eq!(t[55], 1188);
    assert_eq!(t[80], 32631);
    assert_eq!(t[108], 2363);
    assert_eq!(t[109], 0);
    assert!(t.iter().all(|&s| s >= -32767 && s <= 32767));
}

#[test]
fn tone_of_zero_duration_is_empty() {
    assert!(generate_tone(1000, 48000, 2, 0).is_empty());
    assert!(generate_tone(1000, 48000, 0, 100).is_empty());
}

#[test]
fn status_registers_of_the_descriptor() {
    let s = new_stream(8);
    // Descriptor 4 sits at 0x80 + 4 * 0x20.
    assert_eq!(s.position_read(), HwOp::Read { width: Width::W32, offset: 0x104 });
    assert_eq!(s.status_read(), HwOp::Read { width: Width::W8, offset: 0x103 });
    assert_eq!(s.clear_buffer_complete(), Instr::Write { width: Width::W8, offset: 0x103, value: 0x04 });
}

#[test]
fn stream_keeps_its_format_and_tracks_running() {
    let mut s = new_stream(8);
    let f = StreamFormat::pcm_48k_16bit_stereo().encode();
    assert!(!s.is_running());
    assert_eq!(s.format_register(), f);
    let _ = s.fill_buffer(&[1, 2, 3]);
    assert!(!s.is_running());
    let _ = s.start();
    assert!(s.is_running());
    let _ = s.clear_buffer_complete();
    let _ = s.fill_buffer(&[4]);
    assert!(s.is_running());
    let _ = s.stop();
    assert!(!s.is_running());
    assert_eq!(s.format_register(), f);
}
