//! HDA audio stream management (DMA, BDL, format, start/stop).
//!
//! Each stream uses a Buffer Descriptor List (BDL) pointing to DMA buffers
//! for cyclic audio playback. Per Intel HDA spec 1.0a, Section 4.5.
use vstd::prelude::*;

use crate::registers::{
    SD_BASE, SD_BDPL, SD_BDPU, SD_CBL, SD_CTL, SD_CTL2_DIR, SD_CTL2_STRM_SHIFT, SD_CTL_DEIE,
    SD_CTL_FEIE, SD_CTL_IOCE, SD_CTL_RUN, SD_CTL_SRST, SD_FMT, SD_LPIB, SD_LVI, SD_STRIDE, SD_STS,
    SD_STS_BCIS, SD_STS_DESE, SD_STS_FIFOE, sd_index_fits, stream_desc_offset,
};
use crate::script::{HwOp, Instr, Width, script_wf};

verus! {

// =============================================================================
// Buffer Descriptor List (BDL) entry (Section 3.6.3)
// =============================================================================

/// A single BDL entry: 16 bytes, 128-bit aligned.
///
/// ```text
/// Offset 0x00: Address (64-bit) -- physical address of data buffer
/// Offset 0x08: Length  (32-bit) -- buffer length in bytes
/// Offset 0x0C: IOC     (32-bit) -- bit 0 = Interrupt on Completion
/// ```
#[derive(Clone, Copy, Debug)]
pub struct BdlEntry {
    /// Physical address of the data buffer.
    pub address: u64,
    /// Length of the data buffer in bytes.
    pub length: u32,
    /// Flags: bit 0 = IOC (Interrupt on Completion).
    pub flags: u32,
}

/// The 16 bytes of a BDL entry read as one little-endian 128-bit word.
pub open spec fn bdl_word(e: BdlEntry) -> u128 {
    (e.address as int + e.length as int * 0x1_0000_0000_0000_0000 + e.flags as int
        * 0x1_0000_0000_0000_0000_0000_0000) as u128
}

impl BdlEntry {
    /// The entry as it lies in DMA memory: one little-endian 128-bit word
    /// (address in bytes 0-7, length in bytes 8-11, flags in bytes 12-15).
    pub fn to_word(&self) -> (w: u128)
        ensures
            w == bdl_word(*self),
            w as int == self.address as int + self.length as int * 0x1_0000_0000_0000_0000
                + self.flags as int * 0x1_0000_0000_0000_0000_0000_0000,
    {
        (self.address as u128) + (self.length as u128) * 0x1_0000_0000_0000_0000u128
            + (self.flags as u128) * 0x1_0000_0000_0000_0000_0000_0000u128
    }
}

/// The BDL entry that a little-endian 128-bit word of DMA memory holds.
pub open spec fn bdl_entry_of_word(w: u128) -> BdlEntry {
    BdlEntry {
        address: (w % 0x1_0000_0000_0000_0000) as u64,
        length: ((w / 0x1_0000_0000_0000_0000) % 0x1_0000_0000) as u32,
        flags: (w / 0x1_0000_0000_0000_0000_0000_0000) as u32,
    }
}

/// Reading back the word of an entry gives the entry.
pub proof fn lemma_bdl_word_round_trip(e: BdlEntry)
    ensures
        bdl_entry_of_word(bdl_word(e)) == e,
{
    let a = e.address as u128;
    let l = e.length as u128;
    let f = e.flags as u128;
    let w = bdl_word(e);
    assert(w == a + l * 0x1_0000_0000_0000_0000 + f * 0x1_0000_0000_0000_0000_0000_0000);
    assert(w % 0x1_0000_0000_0000_0000 == a && (w / 0x1_0000_0000_0000_0000) % 0x1_0000_0000 == l && w
        / 0x1_0000_0000_0000_0000_0000_0000 == f) by (bit_vector)
        requires
            w == a + l * 0x1_0000_0000_0000_0000 + f * 0x1_0000_0000_0000_0000_0000_0000,
            a <= 0xFFFF_FFFF_FFFF_FFFF,
            l <= 0xFFFF_FFFF,
            f <= 0xFFFF_FFFF,
    ;
}

impl BdlEntry {
    /// The entry held by a 128-bit word of BDL memory.
    pub fn from_word(w: u128) -> (e: BdlEntry)
        ensures
            e == bdl_entry_of_word(w),
    {
        BdlEntry {
            address: (w % 0x1_0000_0000_0000_0000u128) as u64,
            length: ((w / 0x1_0000_0000_0000_0000u128) % 0x1_0000_0000u128) as u32,
            flags: (w / 0x1_0000_0000_0000_0000_0000_0000u128) as u32,
        }
    }
}

/// Maximum number of BDL entries per stream.
pub const BDL_MAX_ENTRIES: usize = 256;

/// IOC flag for BDL entry (bit 0).
pub const BDL_IOC: u32 = 0x00000001;

/// Attempts allowed while a stream descriptor acknowledges a reset or a stop.
pub const STREAM_WAIT_ATTEMPTS: u32 = 10_000;

// =============================================================================
// Stream Format encoding (Section 3.7.1)
// =============================================================================

/// Decoded stream format.
#[derive(Debug, Clone, Copy, PartialEq, Eq, Structural)]
pub struct StreamFormat {
    /// Sample base rate: false = 48kHz, true = 44.1kHz
    pub base_44k1: bool,
    /// Sample rate multiplier (0=x1, 1=x2, 2=x3, 3=x4)
    pub rate_mult: u8,
    /// Sample rate divisor (0=/1, 1=/2, 2=/3, 3=/4, 4=/5, 5=/6, 6=/7, 7=/8)
    pub rate_div: u8,
    /// Bits per sample (0=8, 1=16, 2=20, 3=24, 4=32)
    pub bits: u8,
    /// Number of channels minus 1 (0=mono, 1=stereo, ...)
    pub channels_minus_1: u8,
}

/// The SD_FMT value of a format: base in bit 15, multiplier in bits 13:11,
/// divisor in bits 10:8, sample size in bits 6:4, channels - 1 in bits 3:0.
pub open spec fn format_word(f: StreamFormat) -> u16 {
    ((if f.base_44k1 { 0x8000int } else { 0 }) + (f.rate_mult % 8) as int * 0x800 + (f.rate_div
        % 8) as int * 0x100 + (f.bits % 8) as int * 0x10 + (f.channels_minus_1 % 16) as int) as u16
}

/// The format an SD_FMT value describes.
pub open spec fn format_of_word(v: u16) -> StreamFormat {
    StreamFormat {
        base_44k1: (v / 0x8000) % 2 == 1,
        rate_mult: ((v / 0x800) % 8) as u8,
        rate_div: ((v / 0x100) % 8) as u8,
        bits: ((v / 0x10) % 8) as u8,
        channels_minus_1: (v % 16) as u8,
    }
}

/// Every field of the format fits its field of the SD_FMT register.
pub open spec fn format_fits(f: StreamFormat) -> bool {
    f.rate_mult < 8 && f.rate_div < 8 && f.bits < 8 && f.channels_minus_1 < 16
}

/// Bits per sample that a sample-size code stands for (16 for codes with no meaning).
pub open spec fn bits_of_code(code: u8) -> u16 {
    if code == 0 {
        8
    } else if code == 1 {
        16
    } else if code == 2 {
        20
    } else if code == 3 {
        24
    } else if code == 4 {
        32
    } else {
        16
    }
}

/// Sample rate in Hz of a format: the base rate times the multiplier divided by the divisor.
pub open spec fn sample_rate_of(f: StreamFormat) -> int {
    (if f.base_44k1 { 44100int } else { 48000int }) * (f.rate_mult + 1) / (f.rate_div as int + 1)
}

impl StreamFormat {
    /// 48kHz, 16-bit, stereo (the most common PCM format).
    pub fn pcm_48k_16bit_stereo() -> (f: Self)
        ensures
            f == (StreamFormat { base_44k1: false, rate_mult: 0, rate_div: 0, bits: 1, channels_minus_1: 1 }),
    {
        StreamFormat { base_44k1: false, rate_mult: 0, rate_div: 0, bits: 1, channels_minus_1: 1 }
    }

    /// 44.1kHz, 16-bit, stereo (CD quality).
    pub fn pcm_44k1_16bit_stereo() -> (f: Self)
        ensures
            f == (StreamFormat { base_44k1: true, rate_mult: 0, rate_div: 0, bits: 1, channels_minus_1: 1 }),
    {
        StreamFormat { base_44k1: true, rate_mult: 0, rate_div: 0, bits: 1, channels_minus_1: 1 }
    }

    /// 48kHz, 16-bit, mono.
    pub fn pcm_48k_16bit_mono() -> (f: Self)
        ensures
            f == (StreamFormat { base_44k1: false, rate_mult: 0, rate_div: 0, bits: 1, channels_minus_1: 0 }),
    {
        StreamFormat { base_44k1: false, rate_mult: 0, rate_div: 0, bits: 1, channels_minus_1: 0 }
    }

    /// 96kHz, 16-bit, stereo.
    pub fn pcm_96k_16bit_stereo() -> (f: Self)
        ensures
            f == (StreamFormat { base_44k1: false, rate_mult: 1, rate_div: 0, bits: 1, channels_minus_1: 1 }),
    {
        StreamFormat { base_44k1: false, rate_mult: 1, rate_div: 0, bits: 1, channels_minus_1: 1 }
    }

    /// 48kHz, 24-bit, stereo.
    pub fn pcm_48k_24bit_stereo() -> (f: Self)
        ensures
            f == (StreamFormat { base_44k1: false, rate_mult: 0, rate_div: 0, bits: 3, channels_minus_1: 1 }),
    {
        StreamFormat { base_44k1: false, rate_mult: 0, rate_div: 0, bits: 3, channels_minus_1: 1 }
    }

    /// Encode to the 16-bit SD_FMT register value.
    ///
    /// ```text
    /// Bit 15:    Base (0=48kHz, 1=44.1kHz)
    /// Bits 13:11: Mult (0=x1, 1=x2, 2=x3, 3=x4)
    /// Bits 10:8:  Div  (0=/1, 1=/2, ..., 7=/8)
    /// Bits 6:4:   Bits (0=8, 1=16, 2=20, 3=24, 4=32)
    /// Bits 3:0:   Chan (number of channels - 1)
    /// ```
    pub fn encode(&self) -> (v: u16)
        ensures
            v == format_word(*self),
    {
        let base: u16 = if self.base_44k1 { 0x8000 } else { 0 };
        let m: u16 = self.rate_mult as u16;
        let d: u16 = self.rate_div as u16;
        let b: u16 = self.bits as u16;
        let c: u16 = self.channels_minus_1 as u16;
        let val: u16 = base | ((m & 0x07) << 11u16) | ((d & 0x07) << 8u16) | ((b & 0x07) << 4u16) | (c
            & 0x0F);
        assert(val == base + (m % 8) * 0x800 + (d % 8) * 0x100 + (b % 8) * 0x10 + c % 16) by (bit_vector)
            requires
                base == 0 || base == 0x8000,
                m <= 0xFF,
                d <= 0xFF,
                b <= 0xFF,
                c <= 0xFF,
                val == base | ((m & 0x07) << 11u16) | ((d & 0x07) << 8u16) | ((b & 0x07) << 4u16) | (c
                    & 0x0F),
        ;
        val
    }

    /// Decode from a 16-bit SD_FMT register value.
    pub fn decode(val: u16) -> (f: Self)
        ensures
            f == format_of_word(val),
    {
        proof {
            assert((val >> 15u16) & 1 == (val / 0x8000) % 2
                && (val >> 11u16) & 0x07 == (val / 0x800) % 8
                && (val >> 8u16) & 0x07 == (val / 0x100) % 8
                && (val >> 4u16) & 0x07 == (val / 0x10) % 8
                && val & 0x0F == val % 16
            ) by (bit_vector);
        }
        StreamFormat {
            base_44k1: (val >> 15u16) & 1 != 0,
            rate_mult: ((val >> 11u16) & 0x07) as u8,
            rate_div: ((val >> 8u16) & 0x07) as u8,
            bits: ((val >> 4u16) & 0x07) as u8,
            channels_minus_1: (val & 0x0F) as u8,
        }
    }

    /// Get the effective sample rate in Hz.
    pub fn sample_rate_hz(&self) -> (hz: u32)
        ensures
            hz == sample_rate_of(*self),
    {
        let base: u32 = if self.base_44k1 { 44100 } else { 48000 };
        let mult: u32 = (self.rate_mult as u32) + 1;
        let div: u32 = (self.rate_div as u32) + 1;
        assert(base * mult <= 48000 * 256) by (nonlinear_arith)
            requires
                base <= 48000,
                mult <= 256,
        ;
        base * mult / div
    }

    /// Get the number of channels.
    pub fn channels(&self) -> (n: u16)
        ensures
            n == self.channels_minus_1 + 1,
    {
        (self.channels_minus_1 as u16) + 1
    }

    /// Get the bits per sample.
    pub fn bits_per_sample(&self) -> (b: u16)
        ensures
            b == bits_of_code(self.bits),
    {
        match self.bits {
            0 => 8,
            1 => 16,
            2 => 20,
            3 => 24,
            4 => 32,
            _ => 16,
        }
    }

    /// Bytes per frame (channels * bytes_per_sample).
    pub fn frame_size(&self) -> (n: usize)
        ensures
            n == (self.channels_minus_1 + 1) * ((bits_of_code(self.bits) + 7) / 8),
    {
        let bytes_per_sample = (self.bits_per_sample() as usize + 7) / 8;
        assert((self.channels_minus_1 + 1) * bytes_per_sample <= 256 * 5) by (nonlinear_arith)
            requires
                self.channels_minus_1 + 1 <= 256,
                bytes_per_sample <= 5,
        ;
        self.channels() as usize * bytes_per_sample
    }
}

/// Decoding an encoded format gives the format back, when its fields fit the register.
pub proof fn lemma_format_round_trip(f: StreamFormat)
    requires
        format_fits(f),
    ensures
        format_of_word(format_word(f)) == f,
{
    let bb: u16 = if f.base_44k1 { 1 } else { 0 };
    let m: u16 = f.rate_mult as u16;
    let d: u16 = f.rate_div as u16;
    let b: u16 = f.bits as u16;
    let c: u16 = f.channels_minus_1 as u16;
    let w: u16 = format_word(f);
    assert(w == bb * 0x8000 + m * 0x800 + d * 0x100 + b * 0x10 + c);
    assert((w / 0x8000) % 2 == bb && (w / 0x800) % 8 == m && (w / 0x100) % 8 == d && (w / 0x10) % 8
        == b && w % 16 == c) by (bit_vector)
        requires
            w == bb * 0x8000 + m * 0x800 + d * 0x100 + b * 0x10 + c,
            bb <= 1,
            m < 8,
            d < 8,
            b < 8,
            c < 16,
    ;
}

/// Encoding a decoded SD_FMT value gives the value back without the bits that carry
/// no field (bit 14 and bit 7).
pub proof fn lemma_format_word_round_trip(v: u16)
    ensures
        format_word(format_of_word(v)) == v & 0xBF7F,
{
    let f = format_of_word(v);
    assert(format_word(f) == (v / 0x8000) % 2 * 0x8000 + (v / 0x800) % 8 * 0x800 + (v / 0x100) % 8
        * 0x100 + (v / 0x10) % 8 * 0x10 + v % 16);
    assert(v & 0xBF7F == (v / 0x8000) % 2 * 0x8000 + (v / 0x800) % 8 * 0x800 + (v / 0x100) % 8
        * 0x100 + (v / 0x10) % 8 * 0x10 + v % 16) by (bit_vector);
}

// =============================================================================
// Stream descriptor management
// =============================================================================

/// What an [`HdaStream`] says of itself.
pub ghost struct StreamView {
    pub bar0: usize,
    pub sd_index: usize,
    pub stream_number: u8,
    pub bdl: Seq<BdlEntry>,
    pub bdl_phys: u64,
    pub dma: Seq<u8>,
    pub dma_phys: u64,
    pub format: StreamFormat,
    pub running: bool,
}

/// An HDA output stream backed by DMA buffers and a BDL.
pub struct HdaStream {
    /// BAR0 MMIO base.
    bar0: usize,
    /// Stream descriptor index (0-based, includes input streams offset).
    sd_index: usize,
    /// Stream number (1-15, programmed into CTL2 and codec converters).
    stream_number: u8,
    /// The BDL as the controller reads it: one 128-bit word per entry.
    bdl: Vec<u128>,
    /// Physical address of the BDL.
    bdl_phys: u64,
    /// DMA audio buffer.
    dma_buffer: Vec<u8>,
    /// Physical address of the DMA buffer.
    dma_phys: u64,
    /// Stream format.
    format: StreamFormat,
    /// Whether the stream is currently running.
    running: bool,
}

/// The two bytes of a 16-bit sample, least significant first.
pub open spec fn sample_lo(s: i16) -> u8 {
    ((s as u16) % 256) as u8
}

/// The two bytes of a 16-bit sample, most significant last.
pub open spec fn sample_hi(s: i16) -> u8 {
    ((s as u16) / 256) as u8
}

/// The SD_CTL byte 2 value that routes a stream: stream number in bits 7:4,
/// output direction in bit 3.
pub open spec fn ctl2_value(stream_number: u8) -> u32 {
    (((stream_number as int * 16) % 256) + SD_CTL2_DIR as int) as u32
}

/// Script that resets the stream descriptor at `sd_base`: set SRST and wait for it
/// to read back 1, clear it and wait for it to read back 0 (each wait gives up
/// silently after 10000 extra reads).
pub open spec fn stream_reset_script(sd_base: usize) -> Seq<Instr> {
    seq![
        Instr::Modify { width: Width::W8, offset: (sd_base + SD_CTL) as usize, clear: 0, set: SD_CTL_SRST as u32 },
        Instr::Wait {
            width: Width::W8,
            offset: (sd_base + SD_CTL) as usize,
            mask: SD_CTL_SRST as u32,
            when_set: true,
            limit: STREAM_WAIT_ATTEMPTS,
            pause: 1,
            fatal: None,
        },
        Instr::Modify { width: Width::W8, offset: (sd_base + SD_CTL) as usize, clear: SD_CTL_SRST as u32, set: 0 },
        Instr::Wait {
            width: Width::W8,
            offset: (sd_base + SD_CTL) as usize,
            mask: SD_CTL_SRST as u32,
            when_set: false,
            limit: STREAM_WAIT_ATTEMPTS,
            pause: 1,
            fatal: None,
        },
    ]
}

/// The register script that programs a stream (see [`HdaStream::setup_script`]).
pub open spec fn setup_script_of(v: StreamView) -> Seq<Instr> {
    stream_reset_script(sd_base_of(v)) + seq![
        Instr::Write { width: Width::W32, offset: (sd_base_of(v) + SD_BDPL) as usize, value: v.bdl_phys as u32 },
        Instr::Write { width: Width::W32, offset: (sd_base_of(v) + SD_BDPU) as usize, value: (v.bdl_phys / 0x1_0000_0000) as u32 },
        Instr::Write { width: Width::W32, offset: (sd_base_of(v) + SD_CBL) as usize, value: v.dma.len() as u32 },
        Instr::Write { width: Width::W16, offset: (sd_base_of(v) + SD_LVI) as usize, value: 0 },
        Instr::Write { width: Width::W16, offset: (sd_base_of(v) + SD_FMT) as usize, value: format_word(v.format) as u32 },
        Instr::Write { width: Width::W8, offset: (sd_base_of(v) + SD_CTL + 2) as usize, value: ctl2_value(v.stream_number) },
        Instr::Modify {
            width: Width::W8,
            offset: (sd_base_of(v) + SD_CTL) as usize,
            clear: 0,
            set: (SD_CTL_IOCE | SD_CTL_FEIE | SD_CTL_DEIE) as u32,
        },
    ]
}

/// Stream set-up points the descriptor at the BDL: it writes the low 32 bits of
/// the BDL's physical address to BDPL and the high 32 bits to BDPU, so that
/// BDPU * 2^32 + BDPL is the BDL address.
pub proof fn lemma_setup_points_at_bdl(v: StreamView)
    ensures
        ({
            let s = setup_script_of(v);
            exists|i: int, j: int| {
                &&& 0 <= i < s.len()
                &&& 0 <= j < s.len()
                &&& s[i] == Instr::Write {
                    width: Width::W32,
                    offset: (sd_base_of(v) + SD_BDPL) as usize,
                    value: s[i]->Write_value,
                }
                &&& s[j] == Instr::Write {
                    width: Width::W32,
                    offset: (sd_base_of(v) + SD_BDPU) as usize,
                    value: s[j]->Write_value,
                }
                &&& s[j]->Write_value as int * 0x1_0000_0000 + s[i]->Write_value as int == v.bdl_phys as int
            }
        }),
{
    let s = setup_script_of(v);
    let phys = v.bdl_phys;
    assert(s[4] == Instr::Write { width: Width::W32, offset: (sd_base_of(v) + SD_BDPL) as usize, value: phys as u32 });
    assert(s[5] == Instr::Write {
        width: Width::W32,
        offset: (sd_base_of(v) + SD_BDPU) as usize,
        value: (phys / 0x1_0000_0000) as u32,
    });
    assert(((phys / 0x1_0000_0000) as u32) as int * 0x1_0000_0000 + (phys as u32) as int == phys as int) by (bit_vector);
    assert(s[5]->Write_value as int * 0x1_0000_0000 + s[4]->Write_value as int == phys as int);
}

/// Stream set-up programs the descriptor for the stream: the cyclic buffer
/// length is the DMA buffer's size, the format register holds the stream's
/// format word, and byte 2 of the control register carries the stream number
/// in bits 7:4 with the output direction bit (bit 3) set and bits 2:0 clear.
pub proof fn lemma_setup_programs_stream(v: StreamView)
    requires
        v.dma.len() <= u32::MAX,
    ensures
        ({
            let s = setup_script_of(v);
            exists|i: int, j: int, k: int| {
                &&& 0 <= i < s.len() && 0 <= j < s.len() && 0 <= k < s.len()
                &&& s[i] == Instr::Write { width: Width::W32, offset: (sd_base_of(v) + SD_CBL) as usize, value: s[i]->Write_value }
                &&& s[i]->Write_value == v.dma.len()
                &&& s[j] == Instr::Write { width: Width::W16, offset: (sd_base_of(v) + SD_FMT) as usize, value: s[j]->Write_value }
                &&& s[j]->Write_value == format_word(v.format)
                &&& s[k] == Instr::Write { width: Width::W8, offset: (sd_base_of(v) + SD_CTL + 2) as usize, value: s[k]->Write_value }
                &&& s[k]->Write_value / 16 == v.stream_number % 16
                &&& (s[k]->Write_value / 8) % 2 == 1
                &&& s[k]->Write_value % 8 == 0
                &&& s[k]->Write_value < 256
            }
        }),
{
    let s = setup_script_of(v);
    assert(s[6]->Write_value == v.dma.len());
    assert(s[8]->Write_value == format_word(v.format));
    let c = s[9]->Write_value;
    let sn = v.stream_number;
    assert(c == ctl2_value(sn));
    assert(SD_CTL2_DIR == 8);
    assert(((sn as int * 16) % 256) / 16 == sn % 16 && ((sn as int * 16) % 256) % 16 == 0) by (nonlinear_arith)
        requires
            0 <= sn < 256,
    ;
    assert(c as int == (sn as int * 16) % 256 + 8);
}

/// The register script that starts a stream: nothing when it runs already.
pub open spec fn start_script_of(v: StreamView) -> Seq<Instr> {
    if v.running {
        Seq::empty()
    } else {
        seq![
            Instr::Write {
                width: Width::W8,
                offset: (sd_base_of(v) + SD_STS) as usize,
                value: (SD_STS_BCIS | SD_STS_FIFOE | SD_STS_DESE) as u32,
            },
            Instr::Modify { width: Width::W8, offset: (sd_base_of(v) + SD_CTL) as usize, clear: 0, set: SD_CTL_RUN as u32 },
        ]
    }
}

/// The register script that stops a stream: nothing when it is stopped already.
pub open spec fn stop_script_of(v: StreamView) -> Seq<Instr> {
    if !v.running {
        Seq::empty()
    } else {
        seq![
            Instr::Modify { width: Width::W8, offset: (sd_base_of(v) + SD_CTL) as usize, clear: SD_CTL_RUN as u32, set: 0 },
            Instr::Wait {
                width: Width::W8,
                offset: (sd_base_of(v) + SD_CTL) as usize,
                mask: SD_CTL_RUN as u32,
                when_set: false,
                limit: STREAM_WAIT_ATTEMPTS,
                pause: 1,
                fatal: None,
            },
        ]
    }
}

/// Starting a stream that runs asks for nothing, and so does stopping a stream
/// that is stopped; a stream that was started is stopped by clearing RUN and
/// waiting for it.
pub proof fn lemma_start_stop_idempotent(v: StreamView)
    ensures
        start_script_of(StreamView { running: true, ..v }).len() == 0,
        stop_script_of(StreamView { running: false, ..v }).len() == 0,
        stop_script_of(StreamView { running: true, ..v }).len() == 2,
{
}

impl View for HdaStream {
    type V = StreamView;

    closed spec fn view(&self) -> StreamView {
        StreamView {
            bar0: self.bar0,
            sd_index: self.sd_index,
            stream_number: self.stream_number,
            bdl: self.bdl@.map_values(|w: u128| bdl_entry_of_word(w)),
            bdl_phys: self.bdl_phys,
            dma: self.dma_buffer@,
            dma_phys: self.dma_phys,
            format: self.format,
            running: self.running,
        }
    }
}

/// Base offset of the stream descriptor of a stream.
pub open spec fn sd_base_of(v: StreamView) -> usize {
    (SD_BASE + v.sd_index * SD_STRIDE) as usize
}

impl HdaStream {
    #[verifier::type_invariant]
    closed spec fn inv(self) -> bool {
        &&& sd_index_fits(self.sd_index)
        &&& self.bdl@.len() == 1
    }

    /// Set up an output stream on stream descriptor `sd_index` with stream number
    /// `stream_number`, over the DMA buffer `dma_buffer` (at physical address
    /// `dma_phys`) and the one-entry BDL memory `bdl_memory` (at `bdl_phys`).
    /// The buffer is zeroed and the BDL gets one entry that covers the whole
    /// buffer and asks for an interrupt on completion. The stream is not running.
    pub fn new(
        bar0: usize,
        sd_index: usize,
        stream_number: u8,
        format: StreamFormat,
        dma_buffer: Vec<u8>,
        dma_phys: u64,
        bdl_memory: Vec<u128>,
        bdl_phys: u64,
    ) -> (s: HdaStream)
        requires
            sd_index_fits(sd_index),
            bdl_memory@.len() == 1,
        ensures
            s@.bar0 == bar0,
            s@.sd_index == sd_index,
            s@.stream_number == stream_number,
            s@.format == format,
            s@.dma_phys == dma_phys,
            s@.bdl_phys == bdl_phys,
            s@.dma == Seq::new(dma_buffer@.len(), |i: int| 0u8),
            s@.bdl == seq![BdlEntry { address: dma_phys, length: dma_buffer@.len() as u32, flags: BDL_IOC }],
            !s@.running,
    {
        let mut dma_buffer = dma_buffer;
        let n = dma_buffer.len();
        let mut i: usize = 0;
        while i < n
            invariant
                n == dma_buffer@.len(),
                i <= n,
                forall|j: int| 0 <= j < i ==> dma_buffer@[j] == 0u8,
            decreases n - i,
        {
            dma_buffer.set(i, 0u8);
            i = i + 1;
        }
        assert(dma_buffer@ =~= Seq::new(n as nat, |i: int| 0u8));
        let entry = BdlEntry { address: dma_phys, length: n as u32, flags: BDL_IOC };
        let mut bdl = bdl_memory;
        bdl.set(0, entry.to_word());
        proof {
            lemma_bdl_word_round_trip(entry);
            assert(bdl@.map_values(|w: u128| bdl_entry_of_word(w)) =~= seq![entry]);
        }
        HdaStream {
            bar0,
            sd_index,
            stream_number,
            bdl,
            bdl_phys,
            dma_buffer,
            dma_phys,
            format,
            running: false,
        }
    }

    /// Base offset of this stream's descriptor registers.
    pub fn descriptor_offset(&self) -> (off: usize)
        ensures
            off == sd_base_of(self@),
            off + SD_STRIDE <= usize::MAX,
    {
        proof { use_type_invariant(self); }
        stream_desc_offset(self.sd_index)
    }

    /// The DMA buffer.
    pub fn dma_buffer(&self) -> (b: &Vec<u8>)
        ensures
            b@ == self@.dma,
    {
        &self.dma_buffer
    }

    /// The BDL as the controller reads it.
    pub fn bdl_memory(&self) -> (b: &Vec<u128>)
        ensures
            b@.len() == self@.bdl.len(),
            b@.len() == 1,
            forall|i: int| 0 <= i < b@.len() ==> bdl_entry_of_word(#[trigger] b@[i]) == self@.bdl[i],
    {
        proof { use_type_invariant(self); }
        &self.bdl
    }

    /// Register script that programs the stream: reset the descriptor, point it at
    /// the BDL, set the cyclic buffer length to the buffer size, the last valid
    /// index to 0, the format, the stream number with output direction, and enable
    /// the completion, FIFO error and descriptor error interrupts.
    pub fn setup_script(&self) -> (s: Vec<Instr>)
        ensures
            script_wf(s@),
            s@ == setup_script_of(self@),
    {
        proof { use_type_invariant(self); }
        let sd_base = stream_desc_offset(self.sd_index);
        let ctl = sd_base + SD_CTL;
        let fmt = self.format.encode();
        let sn = self.stream_number;
        let ctl2: u8 = (sn << SD_CTL2_STRM_SHIFT) | SD_CTL2_DIR;
        assert(ctl2 as int == ((sn as int * 16) % 256) + 8) by (bit_vector)
            requires
                ctl2 == (sn << 4u8) | 8u8,
        ;
        let phys = self.bdl_phys;
        let hi = phys >> 32u64;
        assert(hi == phys / 0x1_0000_0000 && hi <= 0xFFFF_FFFF) by (bit_vector)
            requires
                hi == phys >> 32u64,
        ;
        let s = vec![
            Instr::Modify { width: Width::W8, offset: ctl, clear: 0, set: SD_CTL_SRST as u32 },
            Instr::Wait {
                width: Width::W8,
                offset: ctl,
                mask: SD_CTL_SRST as u32,
                when_set: true,
                limit: STREAM_WAIT_ATTEMPTS,
                pause: 1,
                fatal: None,
            },
            Instr::Modify { width: Width::W8, offset: ctl, clear: SD_CTL_SRST as u32, set: 0 },
            Instr::Wait {
                width: Width::W8,
                offset: ctl,
                mask: SD_CTL_SRST as u32,
                when_set: false,
                limit: STREAM_WAIT_ATTEMPTS,
                pause: 1,
                fatal: None,
            },
            Instr::Write { width: Width::W32, offset: sd_base + SD_BDPL, value: self.bdl_phys as u32 },
            Instr::Write { width: Width::W32, offset: sd_base + SD_BDPU, value: hi as u32 },
            Instr::Write { width: Width::W32, offset: sd_base + SD_CBL, value: self.dma_buffer.len() as u32 },
            Instr::Write { width: Width::W16, offset: sd_base + SD_LVI, value: 0 },
            Instr::Write { width: Width::W16, offset: sd_base + SD_FMT, value: fmt as u32 },
            Instr::Write { width: Width::W8, offset: ctl + 2, value: ctl2 as u32 },
            Instr::Modify {
                width: Width::W8,
                offset: ctl,
                clear: 0,
                set: (SD_CTL_IOCE | SD_CTL_FEIE | SD_CTL_DEIE) as u32,
            },
        ];
        proof {
            assert(s@ =~= stream_reset_script(sd_base_of(self@)) + seq![
                Instr::Write { width: Width::W32, offset: (sd_base_of(self@) + SD_BDPL) as usize, value: self@.bdl_phys as u32 },
                Instr::Write { width: Width::W32, offset: (sd_base_of(self@) + SD_BDPU) as usize, value: (self@.bdl_phys / 0x1_0000_0000) as u32 },
                Instr::Write { width: Width::W32, offset: (sd_base_of(self@) + SD_CBL) as usize, value: self@.dma.len() as u32 },
                Instr::Write { width: Width::W16, offset: (sd_base_of(self@) + SD_LVI) as usize, value: 0 },
                Instr::Write { width: Width::W16, offset: (sd_base_of(self@) + SD_FMT) as usize, value: format_word(self@.format) as u32 },
                Instr::Write { width: Width::W8, offset: (sd_base_of(self@) + SD_CTL + 2) as usize, value: ctl2_value(self@.stream_number) },
                Instr::Modify {
                    width: Width::W8,
                    offset: (sd_base_of(self@) + SD_CTL) as usize,
                    clear: 0,
                    set: (SD_CTL_IOCE | SD_CTL_FEIE | SD_CTL_DEIE) as u32,
                },
            ]);
            assert(forall|i: int| 0 <= i < s@.len() ==> #[trigger] s@[i].wf());
        }
        s
    }

    /// Fill the DMA buffer with PCM sample data.
    ///
    /// `samples` are interleaved signed 16-bit PCM samples, stored little-endian.
    /// As many whole samples as fit are copied; the rest of the buffer after
    /// them is zeroed, and the BDL entry's length becomes the copied length.
    /// Returns the number of bytes copied (two per sample). The controller's cyclic
    /// buffer length is then to be set with [`HdaStream::length_update`].
    pub fn fill_buffer(&mut self, samples: &[i16]) -> (copy_len: usize)
        ensures
            copy_len == 2 * if samples@.len() <= old(self)@.dma.len() / 2 {
                samples@.len() as int
            } else {
                (old(self)@.dma.len() / 2) as int
            },
            final(self)@.dma.len() == old(self)@.dma.len(),
            copy_len % 2 == 0,
            forall|i: int| 0 <= i && 2 * i < copy_len ==> {
                &&& #[trigger] final(self)@.dma[2 * i] == sample_lo(samples@[i])
                &&& final(self)@.dma[2 * i + 1] == sample_hi(samples@[i])
            },
            forall|j: int| copy_len <= j < final(self)@.dma.len() ==> #[trigger] final(self)@.dma[j] == 0u8,
            final(self)@.bdl.len() == 1,
            final(self)@.bdl == old(self)@.bdl.update(0, BdlEntry { length: copy_len as u32, ..old(self)@.bdl[0] }),
            final(self)@ == (StreamView { dma: final(self)@.dma, bdl: final(self)@.bdl, ..old(self)@ }),
    {
        proof { use_type_invariant(&*self); }
        let buf_len = self.dma_buffer.len();
        let sample_count = if samples.len() < buf_len / 2 { samples.len() } else { buf_len / 2 };
        let copy_len = sample_count * 2;
        let ghost old_dma = self.dma_buffer@;
        let mut i: usize = 0;
        while i < sample_count
            invariant
                sample_count == copy_len / 2,
                copy_len <= buf_len,
                copy_len <= samples@.len() * 2,
                buf_len == self.dma_buffer@.len(),
                sd_index_fits(self.sd_index),
                self.bdl@.len() == 1,
                self.bdl == old(self).bdl,
                self.bar0 == old(self).bar0,
                self.sd_index == old(self).sd_index,
                self.stream_number == old(self).stream_number,
                self.bdl_phys == old(self).bdl_phys,
                self.dma_phys == old(self).dma_phys,
                self.format == old(self).format,
                self.running == old(self).running,
                i <= sample_count,
                forall|k: int| 0 <= k < i ==> {
                    &&& #[trigger] self.dma_buffer@[2 * k] == sample_lo(samples@[k])
                    &&& self.dma_buffer@[2 * k + 1] == sample_hi(samples@[k])
                },
                forall|j: int| 2 * i <= j < buf_len ==> #[trigger] self.dma_buffer@[j] == old_dma[j],
            decreases sample_count - i,
        {
            let sample = samples[i];
            let word = sample as u16;
            proof {
                assert(word & 0xFF == word % 256 && word >> 8u16 == word / 256) by (bit_vector);
            }
            let ghost before = self.dma_buffer@;
            self.dma_buffer[i * 2] = (word & 0xFF) as u8;
            self.dma_buffer[i * 2 + 1] = (word >> 8u16) as u8;
            proof {
                assert(self.dma_buffer@ == before.update(2 * i, sample_lo(sample)).update(2 * i + 1, sample_hi(sample)));
                assert forall|k: int| 0 <= k < i + 1 implies {
                    &&& #[trigger] self.dma_buffer@[2 * k] == sample_lo(samples@[k])
                    &&& self.dma_buffer@[2 * k + 1] == sample_hi(samples@[k])
                } by {
                    if k < i {
                        assert(self.dma_buffer@[2 * k] == before[2 * k]);
                        assert(self.dma_buffer@[2 * k + 1] == before[2 * k + 1]);
                    }
                }
            }
            i = i + 1;
        }
        let mut j: usize = copy_len;
        while j < buf_len
            invariant
                buf_len == self.dma_buffer@.len(),
                sd_index_fits(self.sd_index),
                self.bdl@.len() == 1,
                self.bdl == old(self).bdl,
                self.bar0 == old(self).bar0,
                self.sd_index == old(self).sd_index,
                self.stream_number == old(self).stream_number,
                self.bdl_phys == old(self).bdl_phys,
                self.dma_phys == old(self).dma_phys,
                self.format == old(self).format,
                self.running == old(self).running,
                copy_len <= j <= buf_len,
                sample_count == copy_len / 2,
                forall|k: int| 0 <= k < sample_count ==> {
                    &&& #[trigger] self.dma_buffer@[2 * k] == sample_lo(samples@[k])
                    &&& self.dma_buffer@[2 * k + 1] == sample_hi(samples@[k])
                },
                forall|m: int| copy_len <= m < j ==> #[trigger] self.dma_buffer@[m] == 0u8,
                forall|m: int| 2 * sample_count <= m < copy_len ==> #[trigger] self.dma_buffer@[m] == old_dma[m],
            decreases buf_len - j,
        {
            let ghost before = self.dma_buffer@;
            self.dma_buffer[j] = 0u8;
            proof {
                assert forall|k: int| 0 <= k < sample_count implies {
                    &&& #[trigger] self.dma_buffer@[2 * k] == sample_lo(samples@[k])
                    &&& self.dma_buffer@[2 * k + 1] == sample_hi(samples@[k])
                } by {
                    assert(self.dma_buffer@[2 * k] == before[2 * k]);
                    assert(self.dma_buffer@[2 * k + 1] == before[2 * k + 1]);
                }
            }
            j = j + 1;
        }
        assert forall|i: int| 0 <= i && 2 * i < copy_len implies {
            &&& #[trigger] self.dma_buffer@[2 * i] == sample_lo(samples@[i])
            &&& self.dma_buffer@[2 * i + 1] == sample_hi(samples@[i])
        } by {
            assert(i < sample_count);
        }
        let ghost filled = self.dma_buffer@;
        let old_entry = BdlEntry::from_word(self.bdl[0]);
        let entry = BdlEntry { length: copy_len as u32, ..old_entry };
        self.bdl[0] = entry.to_word();
        proof {
            lemma_bdl_word_round_trip(entry);
            assert(self@.bdl =~= old(self)@.bdl.update(0, BdlEntry { length: copy_len as u32, ..old(self)@.bdl[0] }));
            assert(self@.dma == filled);
            assert forall|i: int| 0 <= i && 2 * i < copy_len implies {
                &&& #[trigger] self@.dma[2 * i] == sample_lo(samples@[i])
                &&& self@.dma[2 * i + 1] == sample_hi(samples@[i])
            } by {
                assert(filled[2 * i] == sample_lo(samples@[i]));
                assert(filled[2 * i + 1] == sample_hi(samples@[i]));
            }
        }
        copy_len
    }

    /// The register write that sets the controller's cyclic buffer length to `len` bytes.
    pub fn length_update(&self, len: usize) -> (i: Instr)
        ensures
            i == (Instr::Write { width: Width::W32, offset: (sd_base_of(self@) + SD_CBL) as usize, value: len as u32 }),
            i.wf(),
    {
        proof { use_type_invariant(self); }
        Instr::Write { width: Width::W32, offset: stream_desc_offset(self.sd_index) + SD_CBL, value: len as u32 }
    }

    /// Start the stream (begin DMA playback): unless it is already running, clear
    /// the pending status bits and set RUN. The stream counts as running afterwards.
    pub fn start(&mut self) -> (s: Vec<Instr>)
        ensures
            final(self)@ == (StreamView { running: true, ..old(self)@ }),
            final(self)@.bdl.len() == 1,
            script_wf(s@),
            s@ == start_script_of(old(self)@),
    {
        proof { use_type_invariant(&*self); }
        if self.running {
            return Vec::new();
        }
        let sd_base = stream_desc_offset(self.sd_index);
        let s = vec![
            Instr::Write { width: Width::W8, offset: sd_base + SD_STS, value: (SD_STS_BCIS | SD_STS_FIFOE | SD_STS_DESE) as u32 },
            Instr::Modify { width: Width::W8, offset: sd_base + SD_CTL, clear: 0, set: SD_CTL_RUN as u32 },
        ];
        self.running = true;
        proof {
            assert(forall|i: int| 0 <= i < s@.len() ==> #[trigger] s@[i].wf());
        }
        s
    }

    /// Stop the stream (halt DMA): unless it is already stopped, clear RUN and wait
    /// for it to read back 0 (giving up silently after 10000 extra reads). The
    /// stream counts as stopped afterwards.
    pub fn stop(&mut self) -> (s: Vec<Instr>)
        ensures
            final(self)@ == (StreamView { running: false, ..old(self)@ }),
            final(self)@.bdl.len() == 1,
            script_wf(s@),
            s@ == stop_script_of(old(self)@),
    {
        proof { use_type_invariant(&*self); }
        if !self.running {
            return Vec::new();
        }
        let ctl = stream_desc_offset(self.sd_index) + SD_CTL;
        let s = vec![
            Instr::Modify { width: Width::W8, offset: ctl, clear: SD_CTL_RUN as u32, set: 0 },
            Instr::Wait {
                width: Width::W8,
                offset: ctl,
                mask: SD_CTL_RUN as u32,
                when_set: false,
                limit: STREAM_WAIT_ATTEMPTS,
                pause: 1,
                fatal: None,
            },
        ];
        self.running = false;
        proof {
            assert(forall|i: int| 0 <= i < s@.len() ==> #[trigger] s@[i].wf());
        }
        s
    }

    /// Check if the buffer completion interrupt fired, given the value of the
    /// stream status register.
    pub fn buffer_complete(&self, status: u8) -> (r: bool)
        ensures
            r == (status & SD_STS_BCIS != 0),
    {
        status & SD_STS_BCIS != 0
    }

    /// The read of the link position in buffer (LPIB): the DMA position, in
    /// bytes, within the cyclic buffer.
    pub fn position_read(&self) -> (op: HwOp)
        ensures
            op == (HwOp::Read { width: Width::W32, offset: (sd_base_of(self@) + SD_LPIB) as usize }),
    {
        proof { use_type_invariant(self); }
        HwOp::Read { width: Width::W32, offset: stream_desc_offset(self.sd_index) + SD_LPIB }
    }

    /// The read of the stream status register.
    pub fn status_read(&self) -> (op: HwOp)
        ensures
            op == (HwOp::Read { width: Width::W8, offset: (sd_base_of(self@) + SD_STS) as usize }),
    {
        proof { use_type_invariant(self); }
        HwOp::Read { width: Width::W8, offset: stream_desc_offset(self.sd_index) + SD_STS }
    }

    /// The register write that clears the buffer completion interrupt status bit
    /// (the bit is cleared by writing 1 to it).
    pub fn clear_buffer_complete(&self) -> (i: Instr)
        ensures
            i == (Instr::Write {
                width: Width::W8,
                offset: (sd_base_of(self@) + SD_STS) as usize,
                value: SD_STS_BCIS as u32,
            }),
            i.wf(),
    {
        proof { use_type_invariant(self); }
        Instr::Write { width: Width::W8, offset: stream_desc_offset(self.sd_index) + SD_STS, value: SD_STS_BCIS as u32 }
    }

    /// The BAR0 MMIO base address of the controller the stream belongs to.
    pub fn bar0(&self) -> (b: usize)
        ensures
            b == self@.bar0,
    {
        self.bar0
    }

    /// Get the stream number (for programming the codec converter).
    pub fn stream_number(&self) -> (n: u8)
        ensures
            n == self@.stream_number,
    {
        self.stream_number
    }

    /// Get the format register value.
    pub fn format_register(&self) -> (v: u16)
        ensures
            v == format_word(self@.format),
    {
        self.format.encode()
    }

    /// Check if the stream is currently running.
    pub fn is_running(&self) -> (r: bool)
        ensures
            r == self@.running,
    {
        self.running
    }
}

// =============================================================================
// Tone generator
// =============================================================================

/// Integer division rounding toward zero, as Rust's `/` does.
pub open spec fn div_toward_zero(a: int, b: int) -> int {
    if a >= 0 {
        a / b
    } else {
        -((-a) / b)
    }
}

/// The tone value at `phase` samples into a period of `period` samples: with the
/// phase mapped linearly onto x in [-1, 1) (scaled by 32768), the parabolic sine
/// approximation 4x(1 - |x|), scaled to at most 32767 in magnitude and clamped to
/// [-32767, 32767].
pub open spec fn tone_value(phase: int, period: int) -> int {
    let x = (phase * 2 * 32768) / period - 32768;
    let abs_x = if x < 0 { -x } else { x };
    let sine = div_toward_zero(4 * x * (32768 - abs_x), 32768int * 32768 / 32767);
    if sine < -32767 {
        -32767
    } else if sine > 32767 {
        32767
    } else {
        sine
    }
}

/// Number of frames of a tone of `duration_ms` milliseconds at `sample_rate` Hz.
pub open spec fn tone_frames(sample_rate: u32, duration_ms: u32) -> int {
    sample_rate * duration_ms / 1000
}

/// The samples of a tone (see [`generate_tone`]): frame after frame, `channels`
/// equal samples each.
pub open spec fn tone_samples(frequency_hz: u16, sample_rate: u32, channels: u16, duration_ms: u32) -> Seq<i16> {
    Seq::new(
        (tone_frames(sample_rate, duration_ms) * channels) as nat,
        |i: int| tone_value(
            (i / channels as int) % (sample_rate / frequency_hz as u32) as int,
            (sample_rate / frequency_hz as u32) as int,
        ) as i16,
    )
}

/// Generate a sine wave tone as 16-bit PCM samples.
///
/// Returns a Vec of interleaved i16 samples for the given parameters: each of
/// the `sample_rate * duration_ms / 1000` frames holds `channels` equal samples,
/// the frame's phase being its index modulo the period `sample_rate /
/// frequency_hz`. Uses a fixed-point parabolic sine approximation (no libm dependency).
pub fn generate_tone(frequency_hz: u16, sample_rate: u32, channels: u16, duration_ms: u32) -> (samples: Vec<i16>)
    requires
        frequency_hz > 0,
        sample_rate * duration_ms <= u32::MAX,
        tone_frames(sample_rate, duration_ms) * channels <= usize::MAX,
        tone_frames(sample_rate, duration_ms) > 0 ==> sample_rate >= frequency_hz,
    ensures
        samples@ == tone_samples(frequency_hz, sample_rate, channels, duration_ms),
        samples@.len() == tone_frames(sample_rate, duration_ms) * channels,
        forall|i: int| 0 <= i < samples@.len() ==> #[trigger] samples@[i] as int == tone_value(
            (i / channels as int) % (sample_rate / frequency_hz as u32) as int,
            (sample_rate / frequency_hz as u32) as int,
        ),
{
    let total_frames = (sample_rate * duration_ms / 1000) as usize;
    let total_samples = total_frames * channels as usize;
    let mut samples: Vec<i16> = Vec::with_capacity(total_samples);
    let period_samples = sample_rate / frequency_hz as u32;
    let ghost ch = channels as int;
    let ghost period = period_samples as int;
    proof {
        if total_frames > 0 {
            let f = frequency_hz as u32;
            assert(sample_rate / f >= 1) by (nonlinear_arith)
                requires
                    sample_rate >= f,
                    f > 0,
            ;
        }
    }
    let mut frame: usize = 0;
    while frame < total_frames
        invariant
            total_frames == tone_frames(sample_rate, duration_ms),
            total_frames * ch <= usize::MAX,
            total_frames <= u32::MAX,
            total_frames > 0 ==> period_samples > 0,
            ch == channels,
            period == period_samples,
            frame <= total_frames,
            samples@.len() == frame * ch,
            forall|i: int| 0 <= i < samples@.len() ==> #[trigger] samples@[i] as int == tone_value((i / ch) % period, period),
        decreases total_frames - frame,
    {
        assert(frame < u32::MAX);
        let phase = (frame as u32) % period_samples;
        assert((phase as int * 2 * 32768) / (period_samples as int) < 65536) by (nonlinear_arith)
            requires
                phase < period_samples,
        ;
        let phase_scaled: i64 = (phase as i64 * 2 * 32768) / period_samples as i64 - 32768;
        let x = phase_scaled;
        let abs_x = if x < 0 { -x } else { x };
        assert(0 <= 4 * abs_x * (32768 - abs_x) <= 4 * 32768 * 32768) by (nonlinear_arith)
            requires
                0 <= abs_x <= 32768,
        ;
        let mag = (4 * abs_x * (32768 - abs_x)) / (32768 * 32768 / 32767);
        let sine: i64 = if x < 0 { -mag } else { mag };
        proof {
            if x < 0 {
                assert(4 * x * (32768 - abs_x) == -(4 * abs_x * (32768 - abs_x))) by (nonlinear_arith)
                    requires
                        abs_x == -x,
                ;
            }
        }
        let sample: i16 = if sine < -32767 {
            -32767
        } else if sine > 32767 {
            32767
        } else {
            sine as i16
        };
        assert(sample as int == tone_value(frame as int % period, period));
        let mut c: u16 = 0;
        while c < channels
            invariant
                total_frames * ch <= usize::MAX,
                ch == channels,
                period == period_samples,
                frame < total_frames,
                c <= channels,
                samples@.len() == frame * ch + c,
                sample as int == tone_value(frame as int % period, period),
                forall|i: int| 0 <= i < samples@.len() ==> #[trigger] samples@[i] as int == tone_value((i / ch) % period, period),
            decreases channels - c,
        {
            assert(frame * ch + c < total_frames * ch) by (nonlinear_arith)
                requires
                    frame < total_frames,
                    c < ch,
            ;
            assert((frame * ch + c) / ch == frame) by (nonlinear_arith)
                requires
                    0 <= c < ch,
                    0 <= frame,
            ;
            samples.push(sample);
            c = c + 1;
        }
        assert((frame + 1) * ch == frame * ch + ch) by (nonlinear_arith);
        frame = frame + 1;
    }
    assert(samples@ =~= tone_samples(frequency_hz, sample_rate, channels, duration_ms));
    samples
}

} // verus!
