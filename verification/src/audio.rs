//! The library's side of audio playback: what goes into an output buffer
//! that the audio device asks to have filled.

use vstd::prelude::*;

verus! {

/// The sample played at position `i` of an output buffer: the sample of
/// the same position where there is one, silence after the last one.
pub open spec fn playback_sample(samples: Seq<i16>, i: int) -> i16 {
    if 0 <= i < samples.len() {
        samples[i]
    } else {
        0
    }
}

/// Executable form of [`playback_sample`].
pub fn sample_at(samples: &[i16], i: usize) -> (v: i16)
    ensures
        v == playback_sample(samples@, i as int),
{
    if i < samples.len() {
        samples[i]
    } else {
        0
    }
}

/// Fills an output buffer from `samples`, index by index, and with silence
/// where `samples` has run out.
pub fn fill_playback(out: &mut [i16], samples: &[i16])
    ensures
        final(out)@.len() == old(out)@.len(),
        forall|i: int| 0 <= i < old(out)@.len() ==> final(out)@[i] == playback_sample(samples@, i),
{
    let n = out.len();
    let mut i: usize = 0;
    while i < n
        invariant
            i <= n,
            n == out@.len(),
            out@.len() == old(out)@.len(),
            forall|j: int| 0 <= j < i ==> out@[j] == playback_sample(samples@, j),
        decreases n - i,
    {
        out[i] = sample_at(samples, i);
        i += 1;
    }
}

} // verus!
