//! An unbounded, generative provider that synthesizes a periodic waveform.
//!
//! The waveform is computed in integer arithmetic: one period spans
//! `sample_rate / frequency` frames, and within a period the sample rises
//! linearly from the sample type's minimum towards its maximum (a sawtooth).
//! The sample at a given cursor position is a pure function of that cursor
//! alone, so playback is exactly reproducible.

use core::marker::PhantomData;
use vstd::prelude::*;
use crate::buffer::DeinterleavedBuffer;
use crate::providers::node::{ProcessingFlags, Provider};
use crate::sample::Sample;

verus! {

/// The waveform's phase at a cursor position: how far into the current
/// period the cursor lies, scaled so that `sample_rate` steps make up one
/// whole period of `frequency` cycles per second.
pub open spec fn wave_phase(cursor: nat, frequency: nat, sample_rate: nat) -> nat
    recommends
        sample_rate > 0,
{
    (cursor * frequency) % sample_rate
}

/// The synthesized sample at a cursor position, as a mathematical integer:
/// the phase mapped linearly into the sample type's representable range.
pub open spec fn wave_value<T: Sample>(cursor: nat, frequency: nat, sample_rate: nat) -> int
    recommends
        sample_rate > 0,
{
    T::spec_min() + ((T::spec_max() - T::spec_min()) * (wave_phase(cursor, frequency, sample_rate)
        as int)) / (sample_rate as int)
}

/// A generative provider producing a periodic waveform; it never exhausts.
pub struct Sine<T> {
    /// Frames produced so far.
    pub cursor: usize,
    /// The synthesized tone's frequency, in cycles per second.
    pub frequency: u32,
    /// The provider's native sample rate, in frames per second.
    pub sample_rate: u32,
    /// Ties the provider to its sample type.
    pub marker: PhantomData<T>,
}

impl<T: Sample> Sine<T> {
    /// A tone at `frequency` cycles per second synthesized at `sample_rate`
    /// frames per second, starting at the first frame.
    pub fn new(frequency: u32, sample_rate: u32) -> (r: Self)
        requires
            sample_rate > 0,
        ensures
            r.inv(),
            r.spec_cursor() == 0,
            r.frequency == frequency,
            r.spec_sample_rate() == sample_rate as nat,
    {
        Sine { cursor: 0, frequency, sample_rate, marker: PhantomData }
    }
}

/// Computes the waveform sample for one cursor position.
fn wave_sample<T: Sample>(cursor: usize, frequency: u32, sample_rate: u32) -> (r: T)
    requires
        sample_rate > 0,
    ensures
        r.as_int() == wave_value::<T>(cursor as nat, frequency as nat, sample_rate as nat),
{
    let reduced: u64 = (cursor as u64) % (sample_rate as u64);
    proof {
        assert(reduced * (frequency as u64) <= 0xffff_fffe * 0xffff_ffff) by (nonlinear_arith)
            requires
                0 <= reduced <= 0xffff_fffe,
                0 <= frequency <= 0xffff_ffff,
        ;
    }
    let phase: u64 = (reduced * (frequency as u64)) % (sample_rate as u64);
    proof {
        vstd::arithmetic::div_mod::lemma_mul_mod_noop_left(
            cursor as int,
            frequency as int,
            sample_rate as int,
        );
    }
    T::from_level(phase as u32, sample_rate)
}

impl<T: Sample> Provider<T> for Sine<T> {
    open spec fn inv(&self) -> bool {
        self.sample_rate > 0
    }

    open spec fn spec_cursor(&self) -> nat {
        self.cursor as nat
    }

    /// A generative source: no total frame count.
    open spec fn spec_sample_count(&self) -> Option<nat> {
        None
    }

    open spec fn spec_sample_rate(&self) -> nat {
        self.sample_rate as nat
    }

    open spec fn same_config(&self, other: &Self) -> bool {
        self.frequency == other.frequency && self.sample_rate == other.sample_rate
    }

    /// The cursor must be able to advance by `wanted` whole frames.
    open spec fn request_pre(&self, wanted: nat) -> bool {
        self.spec_cursor() + wanted <= usize::MAX
    }

    /// A tone never exhausts: every requested frame is produced.
    open spec fn spec_produced(&self, wanted: nat) -> nat {
        wanted
    }

    /// Every destination channel receives the same synthesized sample for a
    /// given frame, determined by the cursor position alone.
    open spec fn fill_spec(&self, pre: Seq<Seq<T>>, post: Seq<Seq<T>>, wanted: nat) -> bool {
        forall|c: int, f: int| #![auto]
            0 <= c < pre.len() && 0 <= f < wanted ==> post[c][f].as_int() == wave_value::<T>(
                (self.spec_cursor() + f) as nat,
                self.frequency as nat,
                self.spec_sample_rate(),
            )
    }

    open spec fn seek_pre(&self, frame: nat) -> bool {
        true
    }

    proof fn lemma_produced_le(&self, wanted: nat) {
    }

    proof fn lemma_seek_pre(&self, frame: nat) {
    }

    #[verifier::loop_isolation(false)]
    fn request(
        &mut self,
        buf: &mut DeinterleavedBuffer<T>,
        swap: &mut DeinterleavedBuffer<T>,
        in_size: usize,
        out_size: &mut usize,
        flags: ProcessingFlags,
    ) {
        let channels = buf.channels();
        let mut f: usize = 0;
        while f < in_size
            invariant
                f <= in_size,
                self.cursor == old(self).cursor + f,
                self.frequency == old(self).frequency,
                self.sample_rate == old(self).sample_rate,
                buf.wf(),
                buf.same_dims(old(buf)),
                forall|cc: int, ff: int| #![auto]
                    0 <= cc < buf.channel_count && 0 <= ff < f ==> buf@[cc][ff].as_int()
                        == wave_value::<T>(
                        (old(self).cursor + ff) as nat,
                        old(self).frequency as nat,
                        old(self).sample_rate as nat,
                    ),
                forall|cc: int, ff: int| #![auto]
                    0 <= cc < buf.channel_count && f <= ff < buf.frame_count ==> buf@[cc][ff]
                        == old(buf)@[cc][ff],
            decreases in_size - f,
        {
            let v: T = wave_sample::<T>(self.cursor, self.frequency, self.sample_rate);
            let mut c: usize = 0;
            while c < channels
                invariant
                    c <= channels,
                    f < in_size,
                    buf.wf(),
                    buf.same_dims(old(buf)),
                    forall|cc: int, ff: int| #![auto]
                        0 <= cc < buf.channel_count && 0 <= ff < f ==> buf@[cc][ff].as_int()
                            == wave_value::<T>(
                            (old(self).cursor + ff) as nat,
                            old(self).frequency as nat,
                            old(self).sample_rate as nat,
                        ),
                    forall|cc: int| #![auto]
                        0 <= cc < c ==> buf@[cc][f as int] == v,
                    forall|cc: int, ff: int| #![auto]
                        0 <= cc < buf.channel_count && f <= ff < buf.frame_count && !(cc < c && ff
                            == f) ==> buf@[cc][ff] == old(buf)@[cc][ff],
                decreases channels - c,
            {
                buf.set(c, f, v);
                c = c + 1;
            }
            self.cursor = self.cursor + 1;
            f = f + 1;
        }
        *out_size = in_size;
    }

    fn cursor(&self) -> (r: usize) {
        self.cursor
    }

    fn sample_count(&self) -> (r: Option<usize>) {
        None
    }

    fn sample_rate(&self) -> (r: u32) {
        self.sample_rate
    }

    fn can_produce(&self, wanted: usize) -> (r: bool) {
        wanted <= usize::MAX - self.cursor
    }

    fn seek_to(&mut self, frame: usize) {
        self.cursor = frame;
    }
}

/// Within one request, every destination channel carries the identical
/// synthesized sample for a given frame.
pub proof fn lemma_tone_channels_identical<T: Sample>(
    p: &Sine<T>,
    pre: Seq<Seq<T>>,
    post: Seq<Seq<T>>,
    wanted: nat,
    c1: int,
    c2: int,
    f: int,
)
    requires
        p.fill_spec(pre, post, wanted),
        0 <= c1 < pre.len(),
        0 <= c2 < pre.len(),
        0 <= f < wanted,
    ensures
        post[c1][f] == post[c2][f],
{
    T::lemma_as_int_injective(post[c1][f], post[c2][f]);
}

/// The synthesized sample for a given cursor position is the same across
/// calls: two requests made at the same cursor with the same configuration
/// write the identical sample, independent of call history.
pub proof fn lemma_tone_reproducible<T: Sample>(
    p1: &Sine<T>,
    p2: &Sine<T>,
    pre1: Seq<Seq<T>>,
    post1: Seq<Seq<T>>,
    pre2: Seq<Seq<T>>,
    post2: Seq<Seq<T>>,
    wanted1: nat,
    wanted2: nat,
    c1: int,
    c2: int,
    f: int,
)
    requires
        p1.spec_cursor() == p2.spec_cursor(),
        p1.frequency == p2.frequency,
        p1.sample_rate == p2.sample_rate,
        p1.fill_spec(pre1, post1, wanted1),
        p2.fill_spec(pre2, post2, wanted2),
        0 <= c1 < pre1.len(),
        0 <= c2 < pre2.len(),
        0 <= f < wanted1,
        0 <= f < wanted2,
    ensures
        post1[c1][f] == post2[c2][f],
{
    T::lemma_as_int_injective(post1[c1][f], post2[c2][f]);
}

} // verus!
