//! The sample codecs, the quantizer and the chunk buffer.

use voice_gateway::audio::AudioBuffer;
use voice_gateway::audio::CHUNK_SIZE;
use voice_gateway::audio::FULL_SCALE;
use voice_gateway::audio::pcm16_to_sample;
use voice_gateway::audio::pcm_bytes_to_samples;
use voice_gateway::audio::sample_to_pcm16;
use voice_gateway::audio::samples_to_pcm_bytes;
use voice_gateway::b64::b64_decode;
use voice_gateway::b64::b64_encode;

#[test]
fn pcm_roundtrip_is_exact_above_the_extreme() {
    // Round trip through the fixed-point lattice: exact for every value
    // above the negative extreme, one quantization step off at the extreme.
    for s in [-32767i16, -12345, -1, 0, 1, 3276, 32767] {
        assert_eq!(sample_to_pcm16(pcm16_to_sample(s)), s);
    }
    assert_eq!(sample_to_pcm16(pcm16_to_sample(i16::MIN)), -32767);
    // A second trip changes nothing once quantized.
    for s in [i16::MIN, -32767, -1, 0, 1, 32767] {
        let once = sample_to_pcm16(pcm16_to_sample(s));
        let twice = sample_to_pcm16(pcm16_to_sample(once));
        assert_eq!(once, twice);
    }
}

#[test]
fn quantizer_rounds_to_the_nearest_step() {
    // One lattice step is 32768; halves round away from zero.
    assert_eq!(sample_to_pcm16(49151), 1); // 1.49997 steps
    assert_eq!(sample_to_pcm16(49152), 2); // exactly 1.5 steps
    assert_eq!(sample_to_pcm16(49153), 2); // 1.50003 steps
    assert_eq!(sample_to_pcm16(-49151), -1);
    assert_eq!(sample_to_pcm16(-49152), -2);
    assert_eq!(sample_to_pcm16(16383), 0);
    assert_eq!(sample_to_pcm16(16384), 1);
}

#[test]
fn quantizer_clamps_out_of_range_input() {
    // Inputs beyond full scale never leave the 16-bit range, however far out.
    assert_eq!(sample_to_pcm16(FULL_SCALE), 32767);
    assert_eq!(sample_to_pcm16(FULL_SCALE + 1), 32767);
    assert_eq!(sample_to_pcm16(i64::MAX), 32767);
    assert_eq!(sample_to_pcm16(-FULL_SCALE), -32767);
    assert_eq!(sample_to_pcm16(-FULL_SCALE - 1), -32767);
    assert_eq!(sample_to_pcm16(i64::MIN), -32767);
    // The quantizer corresponds to clamp-then-scale of the float pipeline:
    // 1.5 times full scale still reads as full scale.
    assert_eq!(sample_to_pcm16(FULL_SCALE / 2 * 3), 32767);
}

#[test]
fn pcm_bytes_little_endian() {
    assert_eq!(pcm_bytes_to_samples(&[0x34, 0x12]), vec![0x1234i16]);
    assert_eq!(pcm_bytes_to_samples(&[0xFF, 0xFF]), vec![-1i16]);
    assert_eq!(pcm_bytes_to_samples(&[0x00, 0x80]), vec![i16::MIN]);
    // A trailing odd byte is ignored.
    assert_eq!(pcm_bytes_to_samples(&[0x01, 0x00, 0x99]), vec![1i16]);
    let samples = vec![0x1234i16, -1, i16::MIN, 0];
    assert_eq!(
        samples_to_pcm_bytes(&samples),
        vec![0x34, 0x12, 0xFF, 0xFF, 0x00, 0x80, 0x00, 0x00]
    );
    assert_eq!(pcm_bytes_to_samples(&samples_to_pcm_bytes(&samples)), samples);
}

#[test]
fn buffer_drains_whole_chunks_in_order() {
    let mut buf = AudioBuffer::new();
    // 5000 samples: one full chunk leaves, 200 stay.
    let first: Vec<i64> = (0..5000).map(|i| i as i64).collect();
    let chunks = buf.append_and_drain(&first);
    assert_eq!(chunks.len(), 1);
    assert_eq!(chunks[0].len(), CHUNK_SIZE);
    let expected: Vec<i64> = (0..4800).map(|i| i as i64).collect();
    assert_eq!(chunks[0], expected);
    // 4599 more: still short of a chunk.
    let second: Vec<i64> = (0..4599).map(|i| 10000 + i as i64).collect();
    let chunks = buf.append_and_drain(&second);
    assert_eq!(chunks.len(), 0);
    // One more sample completes the second chunk: it starts with the 200
    // residue samples, so nothing was dropped or reordered.
    let chunks = buf.append_and_drain(&vec![77i64]);
    assert_eq!(chunks.len(), 1);
    assert_eq!(chunks[0][0], 4800);
    assert_eq!(chunks[0][199], 4999);
    assert_eq!(chunks[0][200], 10000);
    assert_eq!(chunks[0][4799], 77);
}

#[test]
fn buffer_handles_many_chunks_at_once() {
    let mut buf = AudioBuffer::new();
    let big: Vec<i64> = (0..3 * CHUNK_SIZE as i64 + 5).collect();
    let chunks = buf.append_and_drain(&big);
    assert_eq!(chunks.len(), 3);
    for (k, chunk) in chunks.iter().enumerate() {
        assert_eq!(chunk.len(), CHUNK_SIZE);
        assert_eq!(chunk[0], (k * CHUNK_SIZE) as i64);
    }
    // Residue is below one chunk: the draining invariant.
    let chunks = buf.append_and_drain(&Vec::new());
    assert_eq!(chunks.len(), 0);
}

#[test]
fn base64_wrappers_invert_each_other() {
    // Exact canonical encoding: the wrapper must really encode, not echo.
    assert_eq!(b64_encode(&[0]), b"AA==".to_vec());
    assert_eq!(b64_encode(b"ABC"), b"QUJD".to_vec());
    assert_eq!(b64_encode(&[]), Vec::<u8>::new());
    assert_eq!(b64_decode(b"QUJD"), Some(b"ABC".to_vec()));
    assert_eq!(b64_decode(b"AA=="), Some(vec![0]));
    // Non-canonical or corrupt text is refused.
    assert_eq!(b64_decode(b"A"), None);
    assert_eq!(b64_decode(b"A!=="), None);
    assert_eq!(b64_decode(b"AB=="), None);
    let payload: Vec<u8> = (0u16..=255).map(|b| b as u8).collect();
    assert_eq!(b64_decode(&b64_encode(&payload)), Some(payload));
}
