//! Splitting a recorded take into fixed-size inference windows.
//!
//! Offline transcription feeds the engine the same fixed-length windows the
//! live path uses. The split zero-pads the final window, and a take whose
//! length is an exact multiple of the window size still gets one trailing
//! all-silence window — the window count is always `len / size + 1`. That
//! trailing window is observable in the emitted text and is kept as is.

use vstd::prelude::*;

use crate::sample::Sample;

verus! {

/// The sample an offline window holds at offset `j` of window `c`: the
/// recording's sample at that position, or silence past its end.
pub open spec fn chunk_slot(samples: Seq<Sample>, chunk_size: nat, c: int, j: int) -> Sample {
    if c * chunk_size + j < samples.len() {
        samples[c * chunk_size + j]
    } else {
        Sample::spec_zero()
    }
}

/// Splits a recording into `len / chunk_size + 1` windows of exactly
/// `chunk_size` samples each: sample `i` lands in window `i / chunk_size` at
/// offset `i % chunk_size`, and every slot past the recording is silence.
pub fn chunk_samples(samples: &Vec<Sample>, chunk_size: usize) -> (r: Vec<Vec<Sample>>)
    requires
        1 <= chunk_size,
        samples@.len() < usize::MAX,
    ensures
        r@.len() == samples@.len() as int / chunk_size as int + 1,
        forall|c: int| 0 <= c < r@.len() ==> r@[c]@.len() == chunk_size,
        forall|c: int, j: int|
            0 <= c < r@.len() && 0 <= j < chunk_size ==> r@[c]@[j] == chunk_slot(
                samples@,
                chunk_size as nat,
                c,
                j,
            ),
{
    let count = samples.len() / chunk_size + 1;
    let mut out: Vec<Vec<Sample>> = Vec::new();
    let mut c: usize = 0;
    let mut i: usize = 0;
    while c < count
        invariant
            1 <= chunk_size,
            samples@.len() < usize::MAX,
            count == samples@.len() as int / chunk_size as int + 1,
            c <= count,
            out@.len() == c,
            i <= samples@.len(),
            i == (if c * chunk_size <= samples@.len() {
                c * chunk_size
            } else {
                samples@.len() as int
            }),
            forall|c2: int| 0 <= c2 < c ==> out@[c2]@.len() == chunk_size,
            forall|c2: int, j: int|
                0 <= c2 < c && 0 <= j < chunk_size ==> out@[c2]@[j] == chunk_slot(
                    samples@,
                    chunk_size as nat,
                    c2,
                    j,
                ),
        decreases count - c,
    {
        let ghost c0 = c as int;
        let mut chunk: Vec<Sample> = Vec::new();
        let mut j: usize = 0;
        while j < chunk_size
            invariant
                1 <= chunk_size,
                j <= chunk_size,
                chunk@.len() == j,
                i <= samples@.len(),
                i == (if c0 * chunk_size + j <= samples@.len() {
                    c0 * chunk_size + j
                } else {
                    samples@.len() as int
                }),
                forall|k: int|
                    0 <= k < j ==> chunk@[k] == chunk_slot(samples@, chunk_size as nat, c0, k),
            decreases chunk_size - j,
        {
            if i < samples.len() {
                chunk.push(samples[i]);
                i = i + 1;
            } else {
                chunk.push(Sample::zero());
            }
            j = j + 1;
        }
        out.push(chunk);
        c = c + 1;
        proof {
            assert((c0 + 1) * chunk_size == c0 * chunk_size + chunk_size) by (nonlinear_arith);
        }
    }
    out
}

} // verus!
