//! RIFF/WAVE container parsing: finds the `fmt ` and `data` chunks and checks
//! the sample format, leaving sample decoding to the audio side.

use vstd::prelude::*;
use crate::text::decimal_u64;

verus! {

/// A parsed WAVE file: format fields and the raw bytes of its `data` chunk.
#[derive(Debug, Clone)]
pub struct WavData {
    pub channels: u16,
    pub sample_rate: u32,
    pub bits_per_sample: u16,
    pub data: Vec<u8>,
}

/// Why a byte buffer is not a playable WAVE file.
#[derive(Debug, Clone, Copy, PartialEq, Eq, Structural)]
pub enum WavError {
    /// The RIFF header or the WAVE form type is missing.
    NotRiffWave,
    /// No usable `fmt ` chunk (rate and channels non-zero) or no non-empty
    /// `data` chunk.
    MissingChunks,
    /// Samples of this width cannot be decoded (only 8, 16 and 32 bits can).
    UnsupportedBits(u16),
}

/// Little-endian 16-bit value at `o`.
pub open spec fn le_u16(b: Seq<u8>, o: int) -> int {
    b[o] + 256 * b[o + 1]
}

/// Little-endian 32-bit value at `o`.
pub open spec fn le_u32(b: Seq<u8>, o: int) -> int {
    b[o] + 256 * b[o + 1] + 65536 * b[o + 2] + 16777216 * b[o + 3]
}

/// Whether the four bytes at `o` spell `tag`.
pub open spec fn has_tag(b: Seq<u8>, o: int, tag: Seq<u8>) -> bool {
    0 <= o && o + 4 <= b.len() && b.subrange(o, o + 4) == tag
}

pub open spec fn riff_tag() -> Seq<u8> {
    seq![82u8, 73u8, 70u8, 70u8]
}

pub open spec fn wave_tag() -> Seq<u8> {
    seq![87u8, 65u8, 86u8, 69u8]
}

pub open spec fn fmt_tag() -> Seq<u8> {
    seq![102u8, 109u8, 116u8, 32u8]
}

pub open spec fn data_tag() -> Seq<u8> {
    seq![100u8, 97u8, 116u8, 97u8]
}

/// What the chunk walk has found so far: channels, sample rate, bits per
/// sample (from the last `fmt ` chunk of at least 16 bytes) and the body of
/// the last `data` chunk.
pub struct WavScan {
    pub channels: int,
    pub sample_rate: int,
    pub bits: int,
    pub data: Seq<u8>,
}

/// The state after the chunk whose header starts at `offset` (which must fit
/// 8 header bytes); a chunk whose body runs past the end is ignored.
pub open spec fn scan_step(b: Seq<u8>, offset: int, s: WavScan) -> WavScan {
    let size = le_u32(b, offset + 4);
    let body = offset + 8;
    if body + size > b.len() {
        s
    } else if has_tag(b, offset, fmt_tag()) && size >= 16 {
        WavScan {
            channels: le_u16(b, body + 2),
            sample_rate: le_u32(b, body + 4),
            bits: le_u16(b, body + 14),
            data: s.data,
        }
    } else if has_tag(b, offset, data_tag()) {
        WavScan { data: b.subrange(body, body + size), ..s }
    } else {
        s
    }
}

/// Where the chunk after the one at `offset` starts (bodies are padded to an
/// even length).
pub open spec fn next_chunk(b: Seq<u8>, offset: int) -> int {
    let size = le_u32(b, offset + 4);
    offset + 8 + size + size % 2
}

/// Walks the chunks from `offset` while a chunk header fits, stopping at the
/// first chunk whose body runs past the end.
pub open spec fn scan_chunks(b: Seq<u8>, offset: int, s: WavScan) -> WavScan
    decreases b.len() - offset,
{
    if offset < 0 || offset + 8 > b.len() {
        s
    } else if offset + 8 + le_u32(b, offset + 4) > b.len() {
        s
    } else if next_chunk(b, offset) + 8 > b.len() {
        scan_step(b, offset, s)
    } else {
        scan_chunks(b, next_chunk(b, offset), scan_step(b, offset, s))
    }
}

/// The outcome of parsing a WAVE file: the format and data found, or why it
/// is refused.
pub open spec fn wav_parse(b: Seq<u8>) -> Result<WavScan, WavError> {
    if b.len() < 12 || !has_tag(b, 0, riff_tag()) || !has_tag(b, 8, wave_tag()) {
        Err(WavError::NotRiffWave)
    } else {
        let s = scan_chunks(b, 12, WavScan { channels: 0, sample_rate: 0, bits: 0, data: Seq::empty() });
        let bytes_per_sample = s.bits / 8;
        if s.sample_rate == 0 || s.channels == 0 || s.data.len() == 0 {
            Err(WavError::MissingChunks)
        } else if bytes_per_sample == 0 {
            Err(WavError::UnsupportedBits(s.bits as u16))
        } else if frame_count(s.channels, s.bits, s.data.len() as int) > 0 && s.bits != 8 && s.bits != 16
            && s.bits != 32 {
            Err(WavError::UnsupportedBits(s.bits as u16))
        } else {
            Ok(s)
        }
    }
}

/// Number of whole frames (one sample per channel) in the data.
pub open spec fn frame_count(channels: int, bits: int, data_len: int) -> int {
    data_len / ((bits / 8) * channels)
}

impl WavData {
    /// Whether this value holds what `s` describes.
    pub open spec fn matches_scan(&self, s: WavScan) -> bool {
        &&& self.channels as int == s.channels
        &&& self.sample_rate as int == s.sample_rate
        &&& self.bits_per_sample as int == s.bits
        &&& self.data@ == s.data
    }

    /// Number of whole frames in the data (requires a supported format).
    pub fn frames(&self) -> (n: usize)
        requires
            self.channels > 0,
            self.bits_per_sample / 8 > 0,
        ensures
            n as int == frame_count(
                self.channels as int,
                self.bits_per_sample as int,
                self.data@.len() as int,
            ),
    {
        let bps = (self.bits_per_sample / 8) as usize;
        let ch = self.channels as usize;
        assert(bps * ch <= 8191 * 65535) by (nonlinear_arith)
            requires
                bps <= 8191,
                ch <= 65535,
        ;
        assert(bps * ch > 0) by (nonlinear_arith)
            requires
                bps > 0,
                ch > 0,
        ;
        self.data.len() / (bps * ch)
    }
}

/// The human-readable description of a WAVE parse error.
pub open spec fn wav_error_message(e: WavError) -> Seq<char> {
    match e {
        WavError::NotRiffWave => "not a RIFF/WAVE file"@,
        WavError::MissingChunks => "missing fmt or data chunk"@,
        WavError::UnsupportedBits(bits) => "unsupported bits_per_sample "@
            + crate::text::decimal_digits(bits as nat),
    }
}

impl WavError {
    /// The human-readable description of the error.
    pub fn message(&self) -> (m: String)
        ensures
            m@ == wav_error_message(*self),
    {
        match self {
            WavError::NotRiffWave => String::from_str("not a RIFF/WAVE file"),
            WavError::MissingChunks => String::from_str("missing fmt or data chunk"),
            WavError::UnsupportedBits(bits) => {
                let mut m = String::from_str("unsupported bits_per_sample ");
                let digits = decimal_u64(*bits as u64);
                m.append(digits.as_str());
                m
            },
        }
    }
}

fn read_u16_le(b: &[u8], o: usize) -> (v: u16)
    requires
        o + 2 <= b@.len(),
    ensures
        v as int == le_u16(b@, o as int),
{
    (b[o] as u16) + (b[o + 1] as u16) * 256
}

fn read_u32_le(b: &[u8], o: usize) -> (v: u32)
    requires
        o + 4 <= b@.len(),
    ensures
        v as int == le_u32(b@, o as int),
{
    (b[o] as u32) + (b[o + 1] as u32) * 256 + (b[o + 2] as u32) * 65536 + (b[o + 3] as u32)
        * 16777216
}

fn tag_at(b: &[u8], o: usize, t0: u8, t1: u8, t2: u8, t3: u8) -> (r: bool)
    requires
        o + 4 <= b@.len(),
    ensures
        r == has_tag(b@, o as int, seq![t0, t1, t2, t3]),
{
    let r = b[o] == t0 && b[o + 1] == t1 && b[o + 2] == t2 && b[o + 3] == t3;
    proof {
        if r {
            assert(b@.subrange(o as int, o + 4) =~= seq![t0, t1, t2, t3]);
        } else {
            if has_tag(b@, o as int, seq![t0, t1, t2, t3]) {
                assert(b@.subrange(o as int, o + 4)[0] == t0);
                assert(b@.subrange(o as int, o + 4)[1] == t1);
                assert(b@.subrange(o as int, o + 4)[2] == t2);
                assert(b@.subrange(o as int, o + 4)[3] == t3);
            }
        }
    }
    r
}

/// Parses a RIFF/WAVE file held in `bytes`.
pub fn parse_wav(bytes: &[u8]) -> (r: Result<WavData, WavError>)
    ensures
        match wav_parse(bytes@) {
            Ok(s) => r matches Ok(w) && w.matches_scan(s),
            Err(e) => r == Err::<WavData, WavError>(e),
        },
{
    let len = bytes.len();
    if len < 12 || !tag_at(bytes, 0, 82, 73, 70, 70) || !tag_at(bytes, 8, 87, 65, 86, 69) {
        return Err(WavError::NotRiffWave);
    }
    let ghost init = WavScan { channels: 0, sample_rate: 0, bits: 0, data: Seq::empty() };
    let mut channels: u16 = 0;
    let mut sample_rate: u32 = 0;
    let mut bits: u16 = 0;
    let mut data_start: usize = 0;
    let mut data_len: usize = 0;
    let mut offset: usize = 12;
    let mut done = false;
    assert(bytes@.subrange(0, 0) =~= Seq::<u8>::empty());
    while !done && offset <= len && len - offset >= 8
        invariant
            len == bytes@.len(),
            12 <= offset <= len,
            data_start + data_len <= len,
            ({
                let cur = WavScan {
                    channels: channels as int,
                    sample_rate: sample_rate as int,
                    bits: bits as int,
                    data: bytes@.subrange(data_start as int, data_start + data_len),
                };
                scan_chunks(bytes@, 12, init) == (if !done && offset + 8 <= len {
                    scan_chunks(bytes@, offset as int, cur)
                } else {
                    cur
                })
            }),
        decreases len - offset + (if done { 0int } else { 1int }),
    {
        let ghost cur = WavScan {
            channels: channels as int,
            sample_rate: sample_rate as int,
            bits: bits as int,
            data: bytes@.subrange(data_start as int, data_start + data_len),
        };
        let size = read_u32_le(bytes, offset + 4) as usize;
        let body = offset + 8;
        if size > len - body {
            done = true;
            continue;
        }
        let end = body + size;
        if tag_at(bytes, offset, 102, 109, 116, 32) && size >= 16 {
            channels = read_u16_le(bytes, body + 2);
            sample_rate = read_u32_le(bytes, body + 4);
            bits = read_u16_le(bytes, body + 14);
        } else if tag_at(bytes, offset, 100, 97, 116, 97) {
            data_start = body;
            data_len = size;
        }
        proof {
            let after = WavScan {
                channels: channels as int,
                sample_rate: sample_rate as int,
                bits: bits as int,
                data: bytes@.subrange(data_start as int, data_start + data_len),
            };
            assert(scan_step(bytes@, offset as int, cur) == after);
        }
        let pad = size % 2;
        if pad > len - end || len - (end + pad) < 8 {
            done = true;
        } else {
            offset = end + pad;
        }
    }
    let ghost s = scan_chunks(bytes@, 12, init);
    if sample_rate == 0 || channels == 0 || data_len == 0 {
        return Err(WavError::MissingChunks);
    }
    let bps = (bits / 8) as usize;
    if bps == 0 {
        return Err(WavError::UnsupportedBits(bits));
    }
    let mut data: Vec<u8> = Vec::new();
    let mut k: usize = 0;
    while k < data_len
        invariant
            data_start + data_len <= len,
            len == bytes@.len(),
            k <= data_len,
            data@ == bytes@.subrange(data_start as int, data_start + k),
        decreases data_len - k,
    {
        data.push(bytes[data_start + k]);
        assert(bytes@.subrange(data_start as int, data_start + k + 1) =~= bytes@.subrange(
            data_start as int,
            data_start + k,
        ).push(bytes@[data_start + k]));
        k += 1;
    }
    let wav = WavData { channels, sample_rate, bits_per_sample: bits, data };
    if wav.frames() > 0 && bits != 8 && bits != 16 && bits != 32 {
        return Err(WavError::UnsupportedBits(bits));
    }
    Ok(wav)
}

/// The format and data the chunk walk of a RIFF/WAVE buffer finds.
pub open spec fn scanned(b: Seq<u8>) -> WavScan {
    scan_chunks(b, 12, WavScan { channels: 0, sample_rate: 0, bits: 0, data: Seq::empty() })
}

/// 8-, 16- and 32-bit samples are all supported widths: a RIFF/WAVE buffer
/// whose chunks give a non-zero channel count and sample rate, one of these
/// widths and a non-empty data chunk parses to exactly what was found.
pub proof fn lemma_supported_widths_parse(b: Seq<u8>)
    requires
        b.len() >= 12,
        has_tag(b, 0, riff_tag()),
        has_tag(b, 8, wave_tag()),
        scanned(b).channels > 0,
        scanned(b).sample_rate > 0,
        scanned(b).data.len() > 0,
        scanned(b).bits == 8 || scanned(b).bits == 16 || scanned(b).bits == 32,
    ensures
        wav_parse(b) == Ok::<WavScan, WavError>(scanned(b)),
{
}

/// A parsed file is refused for its sample width only when that width is
/// neither 8, 16 nor 32 bits.
pub proof fn lemma_width_refusal(b: Seq<u8>)
    ensures
        wav_parse(b) matches Err(WavError::UnsupportedBits(_)) ==> (scanned(b).bits != 8
            && scanned(b).bits != 16 && scanned(b).bits != 32),
{
}

} // verus!
