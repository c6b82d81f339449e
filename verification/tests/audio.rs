use micyou_plugin::error::PluginError;
use micyou_plugin::sound::SoundPlayer;
use micyou_plugin::wav::{parse_wav, WavError};

fn chunk(id: &[u8; 4], body: &[u8]) -> Vec<u8> {
    let mut v = id.to_vec();
    v.extend_from_slice(&(body.len() as u32).to_le_bytes());
    v.extend_from_slice(body);
    if body.len() % 2 == 1 {
        v.push(0);
    }
    v
}

fn fmt_body(channels: u16, rate: u32, bits: u16) -> Vec<u8> {
    let mut b = Vec::new();
    b.extend_from_slice(&1u16.to_le_bytes());
    b.extend_from_slice(&channels.to_le_bytes());
    b.extend_from_slice(&rate.to_le_bytes());
    b.extend_from_slice(&(rate * channels as u32 * (bits as u32 / 8)).to_le_bytes());
    b.extend_from_slice(&(channels * (bits / 8)).to_le_bytes());
    b.extend_from_slice(&bits.to_le_bytes());
    b
}

fn wav(chunks: &[Vec<u8>]) -> Vec<u8> {
    let mut body: Vec<u8> = b"WAVE".to_vec();
    for c in chunks {
        body.extend_from_slice(c);
    }
    let mut v = b"RIFF".to_vec();
    v.extend_from_slice(&(body.len() as u32).to_le_bytes());
    v.extend_from_slice(&body);
    v
}

#[test]
fn parses_a_stereo_16_bit_file() {
    let data = [1u8, 0, 2, 0, 3, 0, 4, 0];
    let bytes = wav(&[chunk(b"fmt ", &fmt_body(2, 48000, 16)), chunk(b"data", &data)]);
    let w = parse_wav(&bytes).unwrap();
    assert_eq!(w.channels, 2);
    assert_eq!(w.sample_rate, 48000);
    assert_eq!(w.bits_per_sample, 16);
    assert_eq!(w.data, data.to_vec());
    assert_eq!(w.frames(), 2);
}

#[test]
fn skips_unknown_and_odd_sized_chunks() {
    let bytes = wav(&[
        chunk(b"LIST", &[1, 2, 3]),
        chunk(b"fmt ", &fmt_body(1, 8000, 8)),
        chunk(b"data", &[128, 129, 130]),
    ]);
    let w = parse_wav(&bytes).unwrap();
    assert_eq!(w.channels, 1);
    assert_eq!(w.sample_rate, 8000);
    assert_eq!(w.data, vec![128, 129, 130]);
    assert_eq!(w.frames(), 3);
}

#[test]
fn the_last_data_chunk_wins_and_truncated_chunks_stop_the_walk() {
    let mut bytes = wav(&[
        chunk(b"fmt ", &fmt_body(1, 8000, 8)),
        chunk(b"data", &[1, 2]),
        chunk(b"data", &[3, 4, 5, 6]),
    ]);
    assert_eq!(parse_wav(&bytes).unwrap().data, vec![3, 4, 5, 6]);
    // a chunk header claiming more bytes than remain ends the walk
    bytes.extend_from_slice(b"data");
    bytes.extend_from_slice(&1000u32.to_le_bytes());
    bytes.extend_from_slice(&[9, 9]);
    assert_eq!(parse_wav(&bytes).unwrap().data, vec![3, 4, 5, 6]);
}

#[test]
fn rejections() {
    assert_eq!(parse_wav(b"RIFF").unwrap_err(), WavError::NotRiffWave);
    assert_eq!(parse_wav(b"RIFX\0\0\0\0WAVE").unwrap_err(), WavError::NotRiffWave);
    assert_eq!(parse_wav(b"RIFF\0\0\0\0AVI ").unwrap_err(), WavError::NotRiffWave);
    let no_data = wav(&[chunk(b"fmt ", &fmt_body(1, 8000, 16))]);
    assert_eq!(parse_wav(&no_data).unwrap_err(), WavError::MissingChunks);
    let short_fmt = wav(&[chunk(b"fmt ", &[1, 0, 1, 0]), chunk(b"data", &[1, 2])]);
    assert_eq!(parse_wav(&short_fmt).unwrap_err(), WavError::MissingChunks);
    let zero_rate = wav(&[chunk(b"fmt ", &fmt_body(1, 0, 16)), chunk(b"data", &[1, 2])]);
    assert_eq!(parse_wav(&zero_rate).unwrap_err(), WavError::MissingChunks);
    let four_bits = wav(&[chunk(b"fmt ", &fmt_body(1, 8000, 4)), chunk(b"data", &[1, 2])]);
    assert_eq!(parse_wav(&four_bits).unwrap_err(), WavError::UnsupportedBits(4));
    let wide = wav(&[chunk(b"fmt ", &fmt_body(1, 8000, 24)), chunk(b"data", &[1, 2, 3])]);
    assert_eq!(parse_wav(&wide).unwrap_err(), WavError::UnsupportedBits(24));
    assert_eq!(WavError::UnsupportedBits(24).message(), "unsupported bits_per_sample 24");
    assert_eq!(WavError::NotRiffWave.message(), "not a RIFF/WAVE file");
    assert_eq!(WavError::MissingChunks.message(), "missing fmt or data chunk");
    // fewer bytes than one frame of an unsupported width is no decoding error
    let partial = wav(&[chunk(b"fmt ", &fmt_body(2, 8000, 24)), chunk(b"data", &[1, 2, 3])]);
    assert_eq!(parse_wav(&partial).unwrap().frames(), 0);
}

#[test]
fn playback_requests() {
    let player = SoundPlayer::new();
    let ok = wav(&[chunk(b"fmt ", &fmt_body(1, 44100, 16)), chunk(b"data", &[0, 0, 1, 0])]);
    let w = player.play_wav(&ok).unwrap();
    assert_eq!(w.frames(), 2);
    match player.play_wav(b"garbage") {
        Err(PluginError::Runtime(m)) => assert_eq!(m, "wav parse: not a RIFF/WAVE file"),
        other => panic!("unexpected {other:?}"),
    }
    let partial = wav(&[chunk(b"fmt ", &fmt_body(2, 8000, 16)), chunk(b"data", &[1, 2])]);
    match player.play_wav(&partial) {
        Err(PluginError::Runtime(m)) => assert_eq!(m, "empty wav data"),
        other => panic!("unexpected {other:?}"),
    }
    let wide = wav(&[chunk(b"fmt ", &fmt_body(1, 8000, 24)), chunk(b"data", &[1, 2, 3])]);
    match player.play_wav(&wide) {
        Err(PluginError::Runtime(m)) => assert_eq!(m, "wav parse: unsupported bits_per_sample 24"),
        other => panic!("unexpected {other:?}"),
    }
}
