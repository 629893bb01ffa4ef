//! Signal generator: fills an output block, one value per sample frame and
//! channel, with silence while no note is held and with uniform noise while
//! at least one is.
//!
//! Sample values are fixed point: `FIXED_ONE` stands for full scale, so a
//! noise sample `s` represents the amplitude `s / FIXED_ONE`, always in
//! [-1, 1]. Zero represents exact silence. The host adapter scales each
//! value by the volume parameter when converting the block to the host's
//! sample format, which keeps every scaled sample within [-volume, +volume].
use vstd::prelude::*;

verus! {

/// Full scale of a fixed-point sample: 2^23, the granularity of a uniform
/// draw reduced to 24 bits.
pub const FIXED_ONE: i32 = 8388608;

/// Relies on rand::random: draws a value of the requested type from the
/// uniform distribution over it, using the thread-local generator. Nothing
/// can be promised of the value drawn.
pub assume_specification<T>[ rand::random::<T> ]() -> (r: T)
    where
        rand::distr::StandardUniform: rand::distr::Distribution<T>,
;

/// One noise sample: uniformly distributed over the 2^24 fixed-point values
/// in [-FIXED_ONE, FIXED_ONE), whatever the generator returned.
fn noise_sample() -> (r: i32)
    ensures
        -FIXED_ONE <= r < FIXED_ONE,
{
    let bits: u32 = rand::random();
    let reduced: u32 = bits >> 8;
    proof {
        assert(bits >> 8 < 0x1000000u32) by (bit_vector);
    }
    (reduced as i32) - FIXED_ONE
}

/// Every sample of the block is exact silence.
pub open spec fn block_silent(block: Seq<Vec<i32>>) -> bool {
    forall|c: int, i: int|
        0 <= c < block.len() && 0 <= i < block[c]@.len() ==> #[trigger] block[c]@[i] == 0
}

/// Every sample of the block lies within full scale, so scaling by a volume
/// keeps it within [-volume, +volume].
pub open spec fn block_bounded(block: Seq<Vec<i32>>) -> bool {
    forall|c: int, i: int|
        0 <= c < block.len() && 0 <= i < block[c]@.len() ==> -FIXED_ONE <= #[trigger] block[c]@[i]
            <= FIXED_ONE
}

/// The two blocks have the same channel count and the same frame count in
/// every channel.
pub open spec fn same_shape(a: Seq<Vec<i32>>, b: Seq<Vec<i32>>) -> bool {
    a.len() == b.len() && forall|c: int| 0 <= c < a.len() ==> a[c]@.len() == #[trigger] b[c]@.len()
}

/// Fill the output block in place: exact silence when the note gate is inactive,
/// otherwise an independently drawn noise sample per slot. The block keeps
/// its shape, so the caller's buffer layout is untouched.
pub fn render_block(active: bool, out: &mut Vec<Vec<i32>>)
    ensures
        same_shape(old(out)@, final(out)@),
        !active ==> block_silent(final(out)@),
        active ==> block_bounded(final(out)@),
{
    let channels = out.len();
    let mut c: usize = 0;
    while c < channels
        invariant
            channels == out@.len(),
            0 <= c <= channels,
            same_shape(old(out)@, out@),
            forall|k: int, j: int|
                0 <= k < c && 0 <= j < out@[k]@.len() ==> (if active {
                    -FIXED_ONE <= #[trigger] out@[k]@[j] <= FIXED_ONE
                } else {
                    out@[k]@[j] == 0
                }),
        decreases channels - c,
    {
        let frames = out[c].len();
        let mut i: usize = 0;
        while i < frames
            invariant
                channels == out@.len(),
                0 <= c < channels,
                frames == out@[c as int]@.len(),
                0 <= i <= frames,
                same_shape(old(out)@, out@),
                forall|k: int, j: int|
                    0 <= k < c && 0 <= j < out@[k]@.len() ==> (if active {
                        -FIXED_ONE <= #[trigger] out@[k]@[j] <= FIXED_ONE
                    } else {
                        out@[k]@[j] == 0
                    }),
                forall|j: int|
                    0 <= j < i ==> (if active {
                        -FIXED_ONE <= #[trigger] out@[c as int]@[j] <= FIXED_ONE
                    } else {
                        out@[c as int]@[j] == 0
                    }),
            decreases frames - i,
        {
            let v: i32 = if active {
                noise_sample()
            } else {
                0
            };
            out[c][i] = v;
            i = i + 1;
        }
        c = c + 1;
    }
}

} // verus!
