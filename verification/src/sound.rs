//! Sound playback requests for the plugin `audio.play` capability: a WAV file
//! is parsed and checked here, then played once by the audio side.

use vstd::prelude::*;
use std::sync::Arc;
use crate::error::{ErrorView, PluginError, PluginResult};
use crate::wav::{
    frame_count, has_tag, lemma_supported_widths_parse, parse_wav, riff_tag, scanned, wav_error_message,
    wav_parse, wave_tag, WavData, WavScan,
};

verus! {

/// Plays WAV files on the system output device.
pub struct SoundPlayer;

/// What a playback request for the WAV bytes `b` is answered: the sound to
/// play, or the runtime error that refuses it.
pub open spec fn play_outcome(b: Seq<u8>) -> Result<crate::wav::WavScan, ErrorView> {
    match wav_parse(b) {
        Err(e) => Err(ErrorView::Runtime("wav parse: "@ + wav_error_message(e))),
        Ok(s) => if frame_count(s.channels, s.bits, s.data.len() as int) == 0 {
            Err(ErrorView::Runtime("empty wav data"@))
        } else if s.sample_rate == 0 {
            Err(ErrorView::Runtime("bad sample rate"@))
        } else {
            Ok(s)
        },
    }
}

impl SoundPlayer {
    /// Creates a shared player instance.
    pub fn new() -> (p: Arc<SoundPlayer>) {
        Arc::new(SoundPlayer)
    }

    /// Checks a WAV file for playback: the file must parse and hold at least
    /// one frame at a non-zero sample rate. The returned sound is what the
    /// audio side plays.
    pub fn play_wav(&self, wav_bytes: &[u8]) -> (r: PluginResult<WavData>)
        ensures
            match play_outcome(wav_bytes@) {
                Ok(s) => r matches Ok(w) && w.matches_scan(s),
                Err(ev) => r matches Err(e) && e@ == ev,
            },
    {
        let wav = match parse_wav(wav_bytes) {
            Ok(w) => w,
            Err(e) => {
                let mut msg = String::from_str("wav parse: ");
                let detail = e.message();
                msg.append(detail.as_str());
                return Err(PluginError::Runtime(msg));
            },
        };
        if wav.frames() == 0 {
            return Err(PluginError::Runtime(String::from_str("empty wav data")));
        }
        if wav.sample_rate == 0 {
            return Err(PluginError::Runtime(String::from_str("bad sample rate")));
        }
        Ok(wav)
    }
}

/// A WAVE file with 8-, 16- or 32-bit samples, a non-zero channel count and
/// sample rate, and at least one whole frame of data is accepted for playback
/// as parsed.
pub proof fn lemma_supported_sound_plays(b: Seq<u8>)
    requires
        b.len() >= 12,
        has_tag(b, 0, riff_tag()),
        has_tag(b, 8, wave_tag()),
        scanned(b).channels > 0,
        scanned(b).sample_rate > 0,
        scanned(b).bits == 8 || scanned(b).bits == 16 || scanned(b).bits == 32,
        scanned(b).data.len() >= (scanned(b).bits / 8) * scanned(b).channels,
    ensures
        play_outcome(b) == Ok::<WavScan, ErrorView>(scanned(b)),
{
    let s = scanned(b);
    let d = (s.bits / 8) * s.channels;
    assert(d > 0) by (nonlinear_arith)
        requires
            s.bits / 8 > 0,
            s.channels > 0,
            d == (s.bits / 8) * s.channels,
    ;
    assert(s.data.len() > 0);
    lemma_supported_widths_parse(b);
    assert(s.data.len() as int / d >= 1) by (nonlinear_arith)
        requires
            s.data.len() as int >= d,
            d > 0,
    ;
}

} // verus!
