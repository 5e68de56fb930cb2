//! Deinterleaved (channel-major) audio storage.
//!
//! A buffer owns `channel_count × frame_count` samples with all frames of one
//! channel contiguous before the next channel begins. Its view is the
//! sequence of channels, each a sequence of `frame_count` samples.

use vstd::prelude::*;

verus! {

/// Channel-major multi-frame sample storage with dimensions fixed at
/// construction.
pub struct DeinterleavedBuffer<T> {
    /// Number of channels.
    pub channel_count: usize,
    /// Number of frames per channel.
    pub frame_count: usize,
    /// The samples, channel-major: channel `c` occupies
    /// `data[c * frame_count .. (c + 1) * frame_count]`.
    pub data: Vec<T>,
}

impl<T> View for DeinterleavedBuffer<T> {
    type V = Seq<Seq<T>>;

    /// One sequence per channel, each of `frame_count` samples.
    open spec fn view(&self) -> Seq<Seq<T>> {
        Seq::new(
            self.channel_count as nat,
            |c: int| Seq::new(self.frame_count as nat, |f: int| self.data@[c * self.frame_count + f]),
        )
    }
}

impl<T: Copy> DeinterleavedBuffer<T> {
    /// The storage length agrees with the dimensions; fixed for the buffer's
    /// whole life.
    pub open spec fn wf(&self) -> bool {
        self.data@.len() == self.channel_count * self.frame_count
    }

    /// Both dimensions of `self` and `other` agree.
    pub open spec fn same_dims(&self, other: &Self) -> bool {
        self.channel_count == other.channel_count && self.frame_count == other.frame_count
    }

    /// Allocates a `channel_count × frame_count` buffer with every sample set
    /// to `value`.
    pub fn new_filled(channel_count: usize, frame_count: usize, value: T) -> (r: Self)
        requires
            channel_count * frame_count <= usize::MAX,
        ensures
            r.wf(),
            r.channel_count == channel_count,
            r.frame_count == frame_count,
            forall|c: int, f: int|
                0 <= c < channel_count && 0 <= f < frame_count ==> r@[c][f] == value,
    {
        proof {
            lemma_flat_len(channel_count as int, frame_count as int);
        }
        let total: usize = channel_count * frame_count;
        let mut data: Vec<T> = Vec::new();
        let mut i: usize = 0;
        while i < total
            invariant
                i <= total,
                data@.len() == i,
                forall|k: int| 0 <= k < i ==> data@[k] == value,
            decreases total - i,
        {
            data.push(value);
            i = i + 1;
        }
        let r = DeinterleavedBuffer { channel_count, frame_count, data };
        proof {
            assert forall|c: int, f: int|
                0 <= c < channel_count && 0 <= f < frame_count implies r@[c][f] == value by {
                lemma_flat_index(c, f, channel_count as int, frame_count as int);
            }
        }
        r
    }

    /// Wraps an existing channel-major sample vector; `data` must hold
    /// exactly `channel_count * frame_count` samples.
    pub fn from_raw(channel_count: usize, frame_count: usize, data: Vec<T>) -> (r: Self)
        requires
            data@.len() == channel_count * frame_count,
        ensures
            r.wf(),
            r.channel_count == channel_count,
            r.frame_count == frame_count,
            forall|c: int, f: int|
                0 <= c < channel_count && 0 <= f < frame_count ==> r@[c][f] == data@[c
                    * frame_count + f],
    {
        DeinterleavedBuffer { channel_count, frame_count, data }
    }

    /// Number of channels.
    pub fn channels(&self) -> (r: usize)
        ensures
            r == self.channel_count,
    {
        self.channel_count
    }

    /// Number of frames per channel.
    pub fn frames(&self) -> (r: usize)
        ensures
            r == self.frame_count,
    {
        self.frame_count
    }

    /// Reads the sample of channel `c` at frame `f`.
    pub fn get(&self, c: usize, f: usize) -> (r: T)
        requires
            self.wf(),
            c < self.channel_count,
            f < self.frame_count,
        ensures
            r == self@[c as int][f as int],
    {
        proof {
            lemma_flat_index(c as int, f as int, self.channel_count as int, self.frame_count as int);
            assert(self.data.len() <= usize::MAX);
        }
        self.data[c * self.frame_count + f]
    }

    /// Writes `value` into channel `c` at frame `f`; every other sample is
    /// unchanged.
    pub fn set(&mut self, c: usize, f: usize, value: T)
        requires
            old(self).wf(),
            c < old(self).channel_count,
            f < old(self).frame_count,
        ensures
            final(self).wf(),
            final(self).same_dims(old(self)),
            final(self)@ == old(self)@.update(
                c as int,
                old(self)@[c as int].update(f as int, value),
            ),
    {
        proof {
            lemma_flat_index(c as int, f as int, self.channel_count as int, self.frame_count as int);
            assert(self.data.len() <= usize::MAX);
        }
        let idx: usize = c * self.frame_count + f;
        self.data[idx] = value;
        proof {
            let pre = old(self)@;
            let post = self@;
            let target = pre.update(c as int, pre[c as int].update(f as int, value));
            assert forall|cc: int| 0 <= cc < post.len() implies post[cc] == target[cc] by {
                assert forall|ff: int| 0 <= ff < self.frame_count implies post[cc][ff]
                    == target[cc][ff] by {
                    lemma_flat_index(cc, ff, self.channel_count as int, self.frame_count as int);
                    lemma_flat_index(c as int, f as int, self.channel_count as int, self.frame_count as int);
                    if cc != c || ff != f {
                        lemma_flat_index_distinct(
                            cc,
                            ff,
                            c as int,
                            f as int,
                            self.frame_count as int,
                        );
                    }
                }
                assert(post[cc] =~= target[cc]);
            }
            assert(post =~= target);
        }
    }
}

/// For in-range channel and frame indices the flat channel-major index lies
/// inside the storage.
proof fn lemma_flat_index(c: int, f: int, channels: int, frames: int)
    requires
        0 <= c < channels,
        0 <= f < frames,
    ensures
        0 <= c * frames + f < channels * frames,
{
    assert(c * frames + f < channels * frames) by (nonlinear_arith)
        requires
            0 <= c < channels,
            0 <= f < frames,
    ;
    assert(c * frames + f >= 0) by (nonlinear_arith)
        requires
            0 <= c,
            0 <= f,
            0 < frames,
    ;
}

/// Distinct channel/frame index pairs map to distinct flat indices.
proof fn lemma_flat_index_distinct(c1: int, f1: int, c2: int, f2: int, frames: int)
    requires
        0 <= f1 < frames,
        0 <= f2 < frames,
        0 <= c1,
        0 <= c2,
        c1 != c2 || f1 != f2,
    ensures
        c1 * frames + f1 != c2 * frames + f2,
{
    assert(c1 * frames + f1 != c2 * frames + f2) by (nonlinear_arith)
        requires
            0 <= f1 < frames,
            0 <= f2 < frames,
            0 <= c1,
            0 <= c2,
            c1 != c2 || f1 != f2,
    ;
}

/// The product of the dimensions is the storage length and is non-negative.
proof fn lemma_flat_len(channels: int, frames: int)
    requires
        0 <= channels,
        0 <= frames,
    ensures
        0 <= channels * frames,
{
    assert(0 <= channels * frames) by (nonlinear_arith)
        requires
            0 <= channels,
            0 <= frames,
    ;
}

} // verus!
