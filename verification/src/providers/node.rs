//! The pull-based provider contract: the driver obtains audio by calling
//! `request`, and inspects progress through `cursor`, `sample_count`,
//! `sample_rate` and `ended`.

use vstd::prelude::*;
use crate::buffer::DeinterleavedBuffer;
use crate::sample::Sample;

verus! {

/// Processing options handed to a provider with each request.
#[derive(Clone, Copy, Debug)]
pub enum ProcessingFlags {
    ALL,
}

/// A pull-based audio source.
///
/// A provider fills the destination buffer channel-major on each `request`
/// and reports how many frames it produced. Its cursor counts the frames
/// produced so far and never decreases on its own; `seek_to` repositions it
/// explicitly.
pub trait Provider<T: Sample>: Sized {
    /// Internal consistency of the provider's state.
    spec fn inv(&self) -> bool;

    /// Frames produced so far.
    spec fn spec_cursor(&self) -> nat;

    /// `Some(total)` for bounded sources, `None` for generative ones.
    spec fn spec_sample_count(&self) -> Option<nat>;

    /// The provider's native sample rate, in frames per second.
    spec fn spec_sample_rate(&self) -> nat;

    /// Everything but the cursor agrees between two provider states: the
    /// source material and the configuration are the same.
    spec fn same_config(&self, other: &Self) -> bool;

    /// The machine-limit condition under which `request` may be called.
    spec fn request_pre(&self, wanted: nat) -> bool;

    /// How many frames a request for `wanted` frames produces in state
    /// `self`.
    spec fn spec_produced(&self, wanted: nat) -> nat;

    /// What `request` writes: relates the destination's contents before and
    /// after a request for `wanted` frames made in state `self`.
    spec fn fill_spec(&self, pre: Seq<Seq<T>>, post: Seq<Seq<T>>, wanted: nat) -> bool;

    /// Cursor positions the provider can be repositioned to.
    spec fn seek_pre(&self, frame: nat) -> bool;

    /// A provider never produces more frames than requested; in particular a
    /// request for no frames produces none.
    proof fn lemma_produced_le(&self, wanted: nat)
        requires
            self.inv(),
        ensures
            self.spec_produced(wanted) <= wanted,
    ;

    /// The start of the stream can always be sought, and so can any frame up
    /// to a bounded source's total.
    proof fn lemma_seek_pre(&self, frame: nat)
        requires
            self.inv(),
            frame == 0 || (self.spec_sample_count() matches Some(total) && frame <= total),
        ensures
            self.seek_pre(frame),
    ;

    /// Fills up to `in_size` frames into `buf`, channel-major, and stores the
    /// number of produced frames in `out_size`. `swap` is scratch storage
    /// disjoint from the destination; frames beyond the produced count are
    /// left untouched.
    fn request(
        &mut self,
        buf: &mut DeinterleavedBuffer<T>,
        swap: &mut DeinterleavedBuffer<T>,
        in_size: usize,
        out_size: &mut usize,
        flags: ProcessingFlags,
    )
        requires
            old(self).inv(),
            old(buf).wf(),
            old(swap).wf(),
            in_size <= old(buf).frame_count,
            old(self).request_pre(in_size as nat),
        ensures
            final(self).inv(),
            final(self).same_config(old(self)),
            *final(out_size) == old(self).spec_produced(in_size as nat),
            *final(out_size) <= in_size,
            final(self).spec_cursor() == old(self).spec_cursor() + *final(out_size),
            final(self).spec_sample_count() == old(self).spec_sample_count(),
            final(self).spec_sample_rate() == old(self).spec_sample_rate(),
            final(buf).wf(),
            final(buf).same_dims(old(buf)),
            final(swap).wf(),
            final(swap).same_dims(old(swap)),
            old(self).fill_spec(old(buf)@, final(buf)@, in_size as nat),
            forall|c: int, f: int| #![auto]
                0 <= c < old(buf).channel_count && old(self).spec_produced(in_size as nat) <= f
                    < old(buf).frame_count ==> final(buf)@[c][f] == old(buf)@[c][f],
    ;

    /// Frames produced so far.
    fn cursor(&self) -> (r: usize)
        requires
            self.inv(),
        ensures
            r as nat == self.spec_cursor(),
    ;

    /// `Some(total)` for bounded sources, `None` for generative ones.
    fn sample_count(&self) -> (r: Option<usize>)
        requires
            self.inv(),
        ensures
            match (r, self.spec_sample_count()) {
                (Some(rt), Some(st)) => rt as nat == st,
                (None, None) => true,
                _ => false,
            },
    ;

    /// The provider's native sample rate, in frames per second.
    fn sample_rate(&self) -> (r: u32)
        requires
            self.inv(),
        ensures
            r as nat == self.spec_sample_rate(),
    ;

    /// Whether `request` may be called for `wanted` frames in the current
    /// state.
    fn can_produce(&self, wanted: usize) -> (r: bool)
        requires
            self.inv(),
        ensures
            r == self.request_pre(wanted as nat),
    ;

    /// Repositions the cursor to `frame`.
    fn seek_to(&mut self, frame: usize)
        requires
            old(self).inv(),
            old(self).seek_pre(frame as nat),
        ensures
            final(self).inv(),
            final(self).same_config(old(self)),
            final(self).spec_cursor() == frame as nat,
            final(self).spec_sample_count() == old(self).spec_sample_count(),
            final(self).spec_sample_rate() == old(self).spec_sample_rate(),
    ;

    /// A bounded source has ended once its cursor has reached its total
    /// frame count; a generative source never ends.
    fn ended(&self) -> (r: bool)
        requires
            self.inv(),
        ensures
            r == (match self.spec_sample_count() {
                Some(total) => self.spec_cursor() >= total,
                None => false,
            }),
    {
        match self.sample_count() {
            Some(total) => self.cursor() >= total,
            None => false,
        }
    }
}

/// A request for no frames produces no frames, for any provider; by the
/// `request` contract its cursor is then advanced by nothing and so stays
/// unchanged.
pub proof fn lemma_request_zero_produces_nothing<T: Sample, Pr: Provider<T>>(p: &Pr)
    requires
        p.inv(),
    ensures
        p.spec_produced(0) == 0,
{
    p.lemma_produced_le(0);
}

} // verus!
