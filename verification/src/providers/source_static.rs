//! A bounded provider that plays back a preloaded deinterleaved buffer.

use vstd::prelude::*;
use crate::buffer::DeinterleavedBuffer;
use crate::providers::node::{ProcessingFlags, Provider};
use crate::sample::Sample;

verus! {

/// Plays back an owned deinterleaved source buffer from a cursor.
///
/// Each request copies up to the remaining frames of every channel shared
/// between the source and the destination; destination channels beyond the
/// source's channel count are left untouched.
pub struct SourceStaticProvider<T> {
    /// The preloaded audio material, channel-major.
    pub source: DeinterleavedBuffer<T>,
    /// The source's native sample rate, in frames per second.
    pub source_rate: u32,
    /// Frames produced so far; never exceeds the source's frame count.
    pub cursor: usize,
}

impl<T: Sample> SourceStaticProvider<T> {
    /// Total number of frames the source holds.
    pub open spec fn spec_total(&self) -> nat {
        self.source.frame_count as nat
    }

    /// Wraps a preloaded source, starting playback at its first frame.
    pub fn new(source: DeinterleavedBuffer<T>, sample_rate: u32) -> (r: Self)
        requires
            source.wf(),
        ensures
            r.inv(),
            r.source == source,
            r.spec_cursor() == 0,
            r.spec_sample_count() == Some(source.frame_count as nat),
            r.spec_sample_rate() == sample_rate as nat,
    {
        SourceStaticProvider { source, source_rate: sample_rate, cursor: 0 }
    }
}

impl<T: Sample> Provider<T> for SourceStaticProvider<T> {
    open spec fn inv(&self) -> bool {
        &&& self.source.wf()
        &&& self.cursor <= self.source.frame_count
    }

    open spec fn spec_cursor(&self) -> nat {
        self.cursor as nat
    }

    open spec fn spec_sample_count(&self) -> Option<nat> {
        Some(self.spec_total())
    }

    open spec fn spec_sample_rate(&self) -> nat {
        self.source_rate as nat
    }

    open spec fn same_config(&self, other: &Self) -> bool {
        self.source == other.source && self.source_rate == other.source_rate
    }

    open spec fn request_pre(&self, wanted: nat) -> bool {
        true
    }

    /// The lesser of the requested frames and the frames left before the
    /// source is exhausted.
    open spec fn spec_produced(&self, wanted: nat) -> nat {
        static_produced(self.spec_cursor(), self.spec_total(), wanted)
    }

    /// Every channel shared between source and destination receives the
    /// produced frames starting at the cursor; destination channels beyond
    /// the source's channel count keep their previous contents.
    open spec fn fill_spec(&self, pre: Seq<Seq<T>>, post: Seq<Seq<T>>, wanted: nat) -> bool {
        let produced = self.spec_produced(wanted);
        let shared = if self.source.channel_count as int <= pre.len() as int {
            self.source.channel_count as int
        } else {
            pre.len() as int
        };
        &&& forall|c: int, f: int| #![auto]
            0 <= c < shared && 0 <= f < produced ==> post[c][f] == self.source@[c][self.spec_cursor()
                + f]
        &&& forall|c: int, f: int| #![auto]
            shared <= c < pre.len() && 0 <= f < produced ==> post[c][f] == pre[c][f]
    }

    open spec fn seek_pre(&self, frame: nat) -> bool {
        frame <= self.spec_total()
    }

    proof fn lemma_produced_le(&self, wanted: nat) {
    }

    proof fn lemma_seek_pre(&self, frame: nat) {
    }

    #[verifier::loop_isolation(false)]
    fn request(
        &mut self,
        buf: &mut DeinterleavedBuffer<T>,
        swap: &mut DeinterleavedBuffer<T>,
        in_size: usize,
        out_size: &mut usize,
        flags: ProcessingFlags,
    ) {
        let total = self.source.frames();
        let avail = total - self.cursor;
        let size = if in_size <= avail {
            in_size
        } else {
            avail
        };
        *out_size = size;

        let src_channels = self.source.channels();
        let dst_channels = buf.channels();
        let shared = if src_channels <= dst_channels {
            src_channels
        } else {
            dst_channels
        };

        let mut c: usize = 0;
        while c < shared
            invariant
                c <= shared,
                buf.wf(),
                buf.same_dims(old(buf)),
                forall|cc: int, ff: int| #![auto]
                    0 <= cc < c && 0 <= ff < size ==> buf@[cc][ff] == self.source@[cc][self.cursor
                        + ff],
                forall|cc: int, ff: int| #![auto]
                    0 <= cc < buf.channel_count && 0 <= ff < buf.frame_count && !(cc < c && ff
                        < size) ==> buf@[cc][ff] == old(buf)@[cc][ff],
            decreases shared - c,
        {
            let mut f: usize = 0;
            while f < size
                invariant
                    f <= size,
                    c < shared,
                    buf.wf(),
                    buf.same_dims(old(buf)),
                    forall|cc: int, ff: int| #![auto]
                        0 <= cc < c && 0 <= ff < size ==> buf@[cc][ff]
                            == self.source@[cc][self.cursor + ff],
                    forall|ff: int| #![auto]
                        0 <= ff < f ==> buf@[c as int][ff] == self.source@[c as int][self.cursor
                            + ff],
                    forall|cc: int, ff: int| #![auto]
                        0 <= cc < buf.channel_count && 0 <= ff < buf.frame_count && !(cc < c && ff
                            < size) && !(cc == c && ff < f) ==> buf@[cc][ff] == old(buf)@[cc][ff],
                decreases size - f,
            {
                let v = self.source.get(c, self.cursor + f);
                buf.set(c, f, v);
                f = f + 1;
            }
            c = c + 1;
        }
        self.cursor = self.cursor + size;
    }

    fn cursor(&self) -> (r: usize) {
        self.cursor
    }

    fn sample_count(&self) -> (r: Option<usize>) {
        Some(self.source.frames())
    }

    fn sample_rate(&self) -> (r: u32) {
        self.source_rate
    }

    fn can_produce(&self, wanted: usize) -> (r: bool) {
        true
    }

    fn seek_to(&mut self, frame: usize) {
        self.cursor = frame;
    }
}

/// The frames one request produces: the lesser of the requested frames and
/// the frames left between the cursor and the source's total.
pub open spec fn static_produced(cursor: nat, total: nat, wanted: nat) -> nat {
    if cursor + wanted <= total {
        wanted
    } else if cursor <= total {
        (total - cursor) as nat
    } else {
        0
    }
}

/// The cursor position after successive requests of the given sizes,
/// starting from `start` over a source of `total` frames.
pub open spec fn cursor_after(start: nat, total: nat, wants: Seq<nat>) -> nat
    decreases wants.len(),
{
    if wants.len() == 0 {
        start
    } else {
        let prev = cursor_after(start, total, wants.drop_last());
        prev + static_produced(prev, total, wants.last())
    }
}

/// The total frames produced by successive requests of the given sizes,
/// starting from `start` over a source of `total` frames.
pub open spec fn produced_total(start: nat, total: nat, wants: Seq<nat>) -> nat
    decreases wants.len(),
{
    if wants.len() == 0 {
        0
    } else {
        produced_total(start, total, wants.drop_last()) + static_produced(
            cursor_after(start, total, wants.drop_last()),
            total,
            wants.last(),
        )
    }
}

/// The sum of a sequence of request sizes.
pub open spec fn wants_sum(wants: Seq<nat>) -> nat
    decreases wants.len(),
{
    if wants.len() == 0 {
        0
    } else {
        wants_sum(wants.drop_last()) + wants.last()
    }
}

/// Conservation over successive requests: a static source provider's
/// request steps (each producing `static_produced` frames and advancing the
/// cursor by the same amount, as `request` ensures) produce in total
/// exactly the lesser of the frames requested and the frames the source
/// held beyond the starting cursor. In particular the cursor never passes
/// the total and reaches it exactly when the requests add up to it.
pub proof fn lemma_static_conservation(start: nat, total: nat, wants: Seq<nat>)
    requires
        start <= total,
    ensures
        cursor_after(start, total, wants) == start + produced_total(start, total, wants),
        cursor_after(start, total, wants) <= total,
        produced_total(start, total, wants) == if wants_sum(wants) <= total - start {
            wants_sum(wants)
        } else {
            (total - start) as nat
        },
    decreases wants.len(),
{
    if wants.len() == 0 {
    } else {
        lemma_static_conservation(start, total, wants.drop_last());
    }
}

/// Once a static source provider has ended, further requests produce
/// nothing, so its cursor stays at the total and `ended` stays true.
pub proof fn lemma_static_ended_stays<T: Sample>(p: &SourceStaticProvider<T>, wanted: nat)
    requires
        p.inv(),
        p.spec_cursor() >= p.spec_total(),
    ensures
        p.spec_produced(wanted) == 0,
{
}

/// Destination channels beyond the source's channel count are left
/// untouched by a static source provider's request: within the produced
/// frames the destination keeps its previous samples there.
pub proof fn lemma_static_untouched_channels<T: Sample>(
    p: &SourceStaticProvider<T>,
    pre: Seq<Seq<T>>,
    post: Seq<Seq<T>>,
    wanted: nat,
    c: int,
    f: int,
)
    requires
        p.fill_spec(pre, post, wanted),
        p.source.channel_count <= c < pre.len(),
        0 <= f < p.spec_produced(wanted),
    ensures
        post[c][f] == pre[c][f],
{
}

} // verus!
