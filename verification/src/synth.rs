use vstd::prelude::*;
use crate::schedule::Sound;

verus! {

/// One period of a 600 Hz sine wave sampled at 44100 Hz, quantized to
/// unsigned 8-bit amplitudes and DC-centered near 128. `On` segments
/// repeat this table, sample by sample.
pub const WAV: [u8; 75] = [
    128, 138, 149, 160, 170, 181, 190, 200, 208, 217, 224, 231, 237, 242, 247,
    250, 253, 255, 255, 255, 254, 252, 249, 246, 241, 236, 229, 222, 215, 206,
    197, 188, 178, 168, 157, 147, 136, 125, 114, 103,  92,  82,  72,  62,  53,
     45,  37,  29,  23,  17,  12,   7,   4,   2,   0,   0,   0,   1,   3,   6,
     10,  15,  21,  27,  35,  42,  51,  60,  70,  79,  90, 100, 111, 122, 128,
];

/// Clamp `n` into the band of width `range` around `center`.
pub open spec fn clamp_spec(center: u8, range: u8, n: u8) -> u8 {
    if n < center - range {
        (center - range) as u8
    } else if n > center + range {
        (center + range) as u8
    } else {
        n
    }
}

/// Clamp an amplitude into the band of width `range` around `center`:
/// the envelope shaper that keeps fading samples near the waveform's
/// DC center.
pub fn clamp(center: u8, range: u8, n: u8) -> (r: u8)
    requires
        range <= center,
        center + range <= u8::MAX,
    ensures
        r == clamp_spec(center, range, n),
{
    if n < center - range {
        return center - range;
    }
    if n > center + range {
        return center + range;
    }
    n
}

/// Amplitude of sample `i` within an `On` segment of duration `d`: the
/// waveform table repeated modulo its length, with the deviation from
/// the DC center clamped to a linearly growing band over the first 256
/// samples (fade-in) and a linearly shrinking band over the last 255
/// (fade-out). Segments shorter than the fade window stay entirely
/// inside the fade-in band.
pub open spec fn on_sample(d: u32, i: int) -> u8
    recommends
        0 <= i < d,
{
    let w = WAV[i % 75];
    if i < 256 {
        clamp_spec(127, (i / 2) as u8, w)
    } else if i > d - 256 {
        clamp_spec(127, ((d - i) / 2) as u8, w)
    } else {
        w
    }
}

/// The samples of one timed segment: an `Off` segment is all zeros; an
/// `On` segment is the enveloped waveform, sample by sample.
pub open spec fn segment_samples(seg: (Sound, u32)) -> Seq<u8> {
    match seg.0 {
        Sound::Off => Seq::new(seg.1 as nat, |i: int| 0u8),
        Sound::On => Seq::new(seg.1 as nat, |i: int| on_sample(seg.1, i)),
    }
}

/// The samples of a whole schedule: each segment's samples,
/// concatenated in playback order.
pub open spec fn rendered(segs: Seq<(Sound, u32)>) -> Seq<u8>
    decreases segs.len(),
{
    if segs.len() == 0 {
        Seq::empty()
    } else {
        rendered(segs.drop_last()) + segment_samples(segs.last())
    }
}

/// Total duration of a schedule: the sum of all segment durations,
/// in samples.
pub open spec fn total_samples(segs: Seq<(Sound, u32)>) -> int
    decreases segs.len(),
{
    if segs.len() == 0 {
        0
    } else {
        total_samples(segs.drop_last()) + segs.last().1
    }
}

/// A rendering emits exactly one sample per unit of duration: its
/// length is the sum of all segment durations.
pub proof fn lemma_rendered_len(segs: Seq<(Sound, u32)>)
    ensures
        rendered(segs).len() == total_samples(segs),
    decreases segs.len(),
{
    if segs.len() > 0 {
        lemma_rendered_len(segs.drop_last());
    }
}

/// Render a schedule into the flat 8-bit sample buffer: silence as
/// zeros, tones as the enveloped waveform table.
pub fn synthesize(segs: &Vec<(Sound, u32)>) -> (out: Vec<u8>)
    ensures
        out@ == rendered(segs@),
        out@.len() == total_samples(segs@),
{
    let mut out: Vec<u8> = Vec::new();
    let mut k: usize = 0;
    while k < segs.len()
        invariant
            k <= segs@.len(),
            out@ == rendered(segs@.subrange(0, k as int)),
        decreases segs@.len() - k,
    {
        let ghost pre = segs@.subrange(0, k as int);
        let (snd, d) = segs[k];
        match snd {
            Sound::Off => {
                let mut j: u32 = 0;
                while j < d
                    invariant
                        j <= d,
                        out@ == rendered(pre) + Seq::new(j as nat, |t: int| 0u8),
                    decreases d - j,
                {
                    out.push(0);
                    proof {
                        assert(Seq::new((j + 1) as nat, |t: int| 0u8) =~= Seq::new(
                            j as nat,
                            |t: int| 0u8,
                        ).push(0u8));
                    }
                    j += 1;
                }
            },
            Sound::On => {
                let mut j: u32 = 0;
                while j < d
                    invariant
                        j <= d,
                        out@ == rendered(pre) + Seq::new(j as nat, |t: int| on_sample(d, t)),
                    decreases d - j,
                {
                    let sample = WAV[(j as usize) % 75];
                    let v: u8;
                    if j < 256 {
                        let near: u8 = j as u8;
                        v = clamp(127, near / 2, sample);
                    } else if j > d - 256 {
                        let near: u8 = (d - j) as u8;
                        v = clamp(127, near / 2, sample);
                    } else {
                        v = sample;
                    }
                    proof {
                        assert(v == on_sample(d, j as int));
                        assert(Seq::new((j + 1) as nat, |t: int| on_sample(d, t)) =~= Seq::new(
                            j as nat,
                            |t: int| on_sample(d, t),
                        ).push(on_sample(d, j as int)));
                    }
                    out.push(v);
                    j += 1;
                }
            },
        }
        proof {
            let cur = segs@.subrange(0, k + 1);
            assert(cur.drop_last() =~= pre);
            assert(cur.last() == segs@[k as int]);
            assert(Seq::new(d as nat, |t: int| on_sample(d, t)) =~= Seq::new(
                segs@[k as int].1 as nat,
                |t: int| on_sample(segs@[k as int].1, t),
            ));
            assert(Seq::new(d as nat, |t: int| 0u8) =~= Seq::new(
                segs@[k as int].1 as nat,
                |t: int| 0u8,
            ));
        }
        k += 1;
    }
    proof {
        assert(segs@.subrange(0, segs@.len() as int) =~= segs@);
        lemma_rendered_len(segs@);
    }
    out
}

} // verus!
