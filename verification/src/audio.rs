//! Audio sample codecs and the microphone chunk buffer.
//!
//! On the wire a sample is a little-endian signed 16-bit PCM value. Inside
//! the gateway a sample is a fixed-point value on a lattice 32768 times
//! finer: `FULL_SCALE` stands for amplitude one, and the PCM value `s`
//! corresponds to `s * 32768`. Converting fixed-point audio back to PCM
//! clamps to full scale first and then rounds to the nearest PCM step, so
//! out-of-range samples can never wrap.
//!
//! Microphone input accumulates in an [`AudioBuffer`], which hands out full
//! chunks of `CHUNK_SIZE` samples in arrival order and keeps the remainder —
//! always shorter than one chunk — for the next append.

use vstd::prelude::*;

verus! {

/// Samples per drained chunk: 200 ms at the 24 kHz client rate.
pub const CHUNK_SIZE: usize = 4800;

/// The fixed-point value standing for amplitude 1.0: 32767 * 32768.
pub const FULL_SCALE: i64 = 1073709056;

/// The signed value of two little-endian bytes.
pub open spec fn le16_val(lo: u8, hi: u8) -> i16 {
    if lo + 256 * (hi as int) < 32768 {
        (lo + 256 * (hi as int)) as i16
    } else {
        (lo + 256 * (hi as int) - 65536) as i16
    }
}

/// Low byte of a PCM value's little-endian form.
pub open spec fn le16_lo(s: i16) -> u8 {
    ((if s >= 0 {
        s as int
    } else {
        s + 65536
    }) % 256) as u8
}

/// High byte of a PCM value's little-endian form.
pub open spec fn le16_hi(s: i16) -> u8 {
    ((if s >= 0 {
        s as int
    } else {
        s + 65536
    }) / 256) as u8
}

/// The PCM samples a byte string holds, two bytes each; a trailing odd byte
/// is ignored.
pub open spec fn spec_pcm_samples(b: Seq<u8>) -> Seq<i16> {
    Seq::new(b.len() / 2, |i: int| le16_val(b[2 * i], b[2 * i + 1]))
}

/// The little-endian byte string of a sample sequence.
pub open spec fn spec_pcm_bytes(ss: Seq<i16>) -> Seq<u8> {
    Seq::new(
        2 * ss.len(),
        |i: int|
            if i % 2 == 0 {
                le16_lo(ss[i / 2])
            } else {
                le16_hi(ss[i / 2])
            },
    )
}

/// Reads PCM samples out of little-endian bytes.
pub fn pcm_bytes_to_samples(b: &[u8]) -> (out: Vec<i16>)
    ensures
        out@ == spec_pcm_samples(b@),
{
    let mut out: Vec<i16> = Vec::new();
    let mut p: usize = 0;
    while p + 1 < b.len()
        invariant
            0 <= p <= b@.len(),
            p % 2 == 0,
            out@.len() == p / 2,
            forall|j: int| 0 <= j < out@.len() ==> out@[j] == le16_val(b@[2 * j], b@[2 * j + 1]),
        decreases b@.len() - p,
    {
        let lo = b[p];
        let hi = b[p + 1];
        let u: u16 = lo as u16 + 256 * (hi as u16);
        let s: i16 = if u < 32768 {
            u as i16
        } else {
            ((u as i32) - 65536) as i16
        };
        proof {
            assert(2 * ((p / 2) as int) == p);
            assert(s == le16_val(b@[2 * ((p / 2) as int)], b@[2 * ((p / 2) as int) + 1]));
        }
        out.push(s);
        p = p + 2;
    }
    proof {
        assert(out@.len() == b@.len() / 2);
        assert(out@ =~= spec_pcm_samples(b@));
    }
    out
}

/// Writes samples out as little-endian bytes.
pub fn samples_to_pcm_bytes(ss: &[i16]) -> (out: Vec<u8>)
    ensures
        out@ == spec_pcm_bytes(ss@),
{
    let mut out: Vec<u8> = Vec::new();
    let mut i: usize = 0;
    while i < ss.len()
        invariant
            0 <= i <= ss@.len(),
            out@.len() == 2 * i,
            forall|j: int|
                0 <= j < 2 * i ==> out@[j] == (if j % 2 == 0 {
                    le16_lo(ss@[j / 2])
                } else {
                    le16_hi(ss@[j / 2])
                }),
        decreases ss@.len() - i,
    {
        let s = ss[i];
        let u: u16 = if s >= 0 {
            s as u16
        } else {
            ((s as i32) + 65536) as u16
        };
        let lo: u8 = (u % 256) as u8;
        let hi: u8 = (u / 256) as u8;
        proof {
            assert(lo == le16_lo(ss@[i as int]));
            assert(hi == le16_hi(ss@[i as int]));
        }
        out.push(lo);
        out.push(hi);
        i = i + 1;
    }
    proof {
        assert(out@ =~= spec_pcm_bytes(ss@));
    }
    out
}

/// Byte round trip: reading back the bytes written for any samples gives the
/// samples, unchanged and in order.
pub proof fn lemma_pcm_bytes_roundtrip(ss: Seq<i16>)
    ensures
        spec_pcm_samples(spec_pcm_bytes(ss)) == ss,
{
    let b = spec_pcm_bytes(ss);
    assert forall|i: int| 0 <= i < ss.len() implies spec_pcm_samples(b)[i] == ss[i] by {
        assert(b[2 * i] == le16_lo(ss[i]));
        assert(b[2 * i + 1] == le16_hi(ss[i]));
    }
    assert(spec_pcm_samples(b) =~= ss);
}

/// The fixed-point sample a PCM value stands for.
pub open spec fn spec_sample_of_pcm(s: i16) -> i64 {
    (s as int * 32768) as i64
}

/// The PCM value a fixed-point sample quantizes to: clamp to full scale,
/// then take the nearest lattice step, halves away from zero — the rounding
/// conversion to PCM is held to.
pub open spec fn spec_quantize(x: i64) -> i16 {
    let c = if x > FULL_SCALE {
        FULL_SCALE as int
    } else if x < -FULL_SCALE {
        -(FULL_SCALE as int)
    } else {
        x as int
    };
    if c >= 0 {
        ((c + 16384) / 32768) as i16
    } else {
        (-(((-c) + 16384) / 32768)) as i16
    }
}

/// Converts a PCM value to its fixed-point sample.
pub fn pcm16_to_sample(s: i16) -> (x: i64)
    ensures
        x == spec_sample_of_pcm(s),
{
    s as i64 * 32768
}

/// Quantizes a fixed-point sample to PCM.
pub fn sample_to_pcm16(x: i64) -> (s: i16)
    ensures
        s == spec_quantize(x),
{
    let c: i64 = if x > FULL_SCALE {
        FULL_SCALE
    } else if x < -FULL_SCALE {
        -FULL_SCALE
    } else {
        x
    };
    if c >= 0 {
        let q: u64 = (c as u64 + 16384) / 32768;
        q as i16
    } else {
        let q: u64 = ((-c) as u64 + 16384) / 32768;
        -(q as i16)
    }
}

/// Quantization always lands inside the 16-bit range, one short of the
/// negative extreme: no fixed-point input, however far out of range, can
/// produce a wrapped PCM value.
pub proof fn lemma_quantize_in_range(x: i64)
    ensures
        -32767 <= spec_quantize(x) <= 32767,
{
}

/// Round trip through the fixed-point lattice: every PCM value above the
/// negative extreme comes back exactly; the extreme itself clamps to
/// full scale and comes back one step short. In both cases the error is at
/// most one quantization step, and a second trip changes nothing.
pub proof fn lemma_pcm_roundtrip(s: i16)
    ensures
        s != i16::MIN ==> spec_quantize(spec_sample_of_pcm(s)) == s,
        s == i16::MIN ==> spec_quantize(spec_sample_of_pcm(s)) == -32767,
        spec_quantize(spec_sample_of_pcm(spec_quantize(spec_sample_of_pcm(s)))) == spec_quantize(
            spec_sample_of_pcm(s),
        ),
{
    assert(spec_quantize(spec_sample_of_pcm(s)) == if s == i16::MIN {
        -32767
    } else {
        s as int
    } as i16) by (nonlinear_arith);
}

/// Converts a whole PCM vector to fixed-point samples.
pub fn pcm_to_samples(pcm: &Vec<i16>) -> (out: Vec<i64>)
    ensures
        out@.len() == pcm@.len(),
        forall|i: int| 0 <= i < pcm@.len() ==> out@[i] == spec_sample_of_pcm(pcm@[i]),
{
    let mut out: Vec<i64> = Vec::new();
    let mut i: usize = 0;
    while i < pcm.len()
        invariant
            0 <= i <= pcm@.len(),
            out@.len() == i,
            forall|j: int| 0 <= j < i ==> out@[j] == spec_sample_of_pcm(pcm@[j]),
        decreases pcm@.len() - i,
    {
        out.push(pcm16_to_sample(pcm[i]));
        i = i + 1;
    }
    out
}

/// Quantizes a whole fixed-point vector to PCM.
pub fn samples_to_pcm(xs: &Vec<i64>) -> (out: Vec<i16>)
    ensures
        out@.len() == xs@.len(),
        forall|i: int| 0 <= i < xs@.len() ==> out@[i] == spec_quantize(xs@[i]),
{
    let mut out: Vec<i16> = Vec::new();
    let mut i: usize = 0;
    while i < xs.len()
        invariant
            0 <= i <= xs@.len(),
            out@.len() == i,
            forall|j: int| 0 <= j < i ==> out@[j] == spec_quantize(xs@[j]),
        decreases xs@.len() - i,
    {
        out.push(sample_to_pcm16(xs[i]));
        i = i + 1;
    }
    out
}

/// The microphone accumulation buffer. Between appends it always holds
/// fewer than `CHUNK_SIZE` samples; whole chunks leave at every append.
pub struct AudioBuffer {
    buf: Vec<i64>,
}

impl AudioBuffer {
    /// The samples waiting for the next full chunk.
    pub closed spec fn view(&self) -> Seq<i64> {
        self.buf@
    }

    /// The draining invariant: the residue is always shorter than a chunk.
    pub open spec fn wf(&self) -> bool {
        self@.len() < CHUNK_SIZE
    }

    pub fn new() -> (b: AudioBuffer)
        ensures
            b.wf(),
            b@ == Seq::<i64>::empty(),
    {
        AudioBuffer { buf: Vec::new() }
    }

    /// How many samples wait in the buffer.
    pub fn len(&self) -> (n: usize)
        ensures
            n == self@.len(),
    {
        self.buf.len()
    }

    /// Appends decoded microphone samples and drains every whole chunk, in
    /// arrival order. Each drained chunk holds exactly `CHUNK_SIZE` samples;
    /// what the chunks and the residue hold together is exactly what the
    /// buffer and the input held, so no sample is dropped, duplicated or
    /// reordered, and the drained total is a whole number of chunks.
    pub fn append_and_drain(&mut self, samples: &Vec<i64>) -> (chunks: Vec<Vec<i64>>)
        requires
            old(self).wf(),
        ensures
            final(self).wf(),
            chunks@.len() == (old(self)@.len() + samples@.len()) as int / (CHUNK_SIZE as int),
            forall|i: int|
                0 <= i < chunks@.len() ==> (#[trigger] chunks@[i])@ == (old(self)@
                    + samples@).subrange(i * (CHUNK_SIZE as int), (i + 1) * (CHUNK_SIZE as int)),
            final(self)@ == (old(self)@ + samples@).subrange(
                chunks@.len() * (CHUNK_SIZE as int),
                (old(self)@.len() + samples@.len()) as int,
            ),
    {
        let ghost total = old(self)@ + samples@;
        let mut combined: Vec<i64> = Vec::new();
        combined.append(&mut self.buf);
        combined.extend_from_slice(samples.as_slice());
        proof {
            assert(combined@ =~= total);
        }
        let mut chunks: Vec<Vec<i64>> = Vec::new();
        let mut start: usize = 0;
        while combined.len() - start >= CHUNK_SIZE
            invariant
                0 <= start <= combined@.len(),
                combined@ == total,
                start == chunks@.len() * (CHUNK_SIZE as int),
                forall|i: int|
                    0 <= i < chunks@.len() ==> (#[trigger] chunks@[i])@ == total.subrange(
                        i * (CHUNK_SIZE as int),
                        (i + 1) * (CHUNK_SIZE as int),
                    ),
            decreases combined@.len() - start,
        {
            let end = start + CHUNK_SIZE;
            let part = &combined.as_slice()[start..end];
            let chunk = vstd::slice::slice_to_vec(part);
            let ghost old_count = chunks@.len();
            chunks.push(chunk);
            proof {
                assert(old_count * (CHUNK_SIZE as int) == start);
                assert((old_count + 1) * (CHUNK_SIZE as int) == start + CHUNK_SIZE) by (
                nonlinear_arith)
                    requires
                        old_count * (CHUNK_SIZE as int) == start,
                ;
            }
            start = start + CHUNK_SIZE;
        }
        let rest = &combined.as_slice()[start..combined.len()];
        self.buf = vstd::slice::slice_to_vec(rest);
        proof {
            let k = chunks@.len();
            assert(k * (CHUNK_SIZE as int) <= total.len() < k * (CHUNK_SIZE as int) + (
            CHUNK_SIZE as int));
            assert(k == total.len() as int / (CHUNK_SIZE as int)) by (nonlinear_arith)
                requires
                    k * (CHUNK_SIZE as int) <= total.len() < k * (CHUNK_SIZE as int) + (
                    CHUNK_SIZE as int),
                    k >= 0,
                    CHUNK_SIZE as int == 4800,
            ;
        }
                chunks
    }
}

} // verus!
