//! The verified driver core: lifecycle transitions, provider handoff and
//! the per-period callback bridge.
//!
//! The control side creates the core from parameters and a backend probe,
//! opens the backend stream with the returned configuration, and forwards
//! the backend's periodic callback to [`DriverCore::callback`], which pulls
//! frames from the attached provider, interleaves them into the backend's
//! frame-major output and zero-fills any under-run.

use vstd::prelude::*;
use crate::buffer::DeinterleavedBuffer;
use crate::drivers::driver::{
    BackendProbe, CallbackResult, Driver, DriverError, DriverParameters, DriverState,
    PlaybackError, StreamConfig,
};
use crate::providers::node::{ProcessingFlags, Provider};
use crate::sample::Sample;

verus! {

/// The sample an interleaved output array holds at flat index `i` after a
/// callback: for frames below `produced` the working buffer's sample of
/// channel `i % channels` at frame `i / channels`, and silence beyond.
pub open spec fn interleaved_value<T: Sample>(
    buf: Seq<Seq<T>>,
    produced: nat,
    channels: nat,
    i: int,
) -> T
    recommends
        channels > 0,
{
    if i / (channels as int) < produced {
        buf[i % (channels as int)][i / (channels as int)]
    } else {
        T::spec_neutral_value()
    }
}

/// The flat interleaved index of channel `c` in frame `f` decomposes back
/// into that frame and channel.
pub proof fn lemma_interleaved_index(f: int, c: int, channels: int)
    requires
        0 <= f,
        0 <= c < channels,
    ensures
        (f * channels + c) / channels == f,
        (f * channels + c) % channels == c,
{
    vstd::arithmetic::div_mod::lemma_fundamental_div_mod_converse_div(
        f * channels + c,
        channels,
        f,
        c,
    );
    vstd::arithmetic::div_mod::lemma_fundamental_div_mod_converse_mod(
        f * channels + c,
        channels,
        f,
        c,
    );
}

/// Interleaves the first `produced` frames of the channel-major working
/// buffer into the frame-major `output` array and zero-fills the rest.
fn write_interleaved<T: Sample>(
    buf: &DeinterleavedBuffer<T>,
    produced: usize,
    output: &mut Vec<T>,
)
    requires
        buf.wf(),
        produced <= buf.frame_count,
        old(output).len() == buf.channel_count * buf.frame_count,
    ensures
        final(output).len() == old(output).len(),
        forall|i: int| #![auto]
            0 <= i < final(output).len() ==> final(output)@[i] == interleaved_value(
                buf@,
                produced as nat,
                buf.channel_count as nat,
                i,
            ),
{
    let channels = buf.channels();
    let len = output.len();
    let mut i: usize = 0;
    while i < len
        invariant
            i <= len,
            len == output.len(),
            len == buf.channel_count * buf.frame_count,
            buf.wf(),
            produced <= buf.frame_count,
            channels == buf.channel_count,
            forall|j: int| #![auto]
                0 <= j < i ==> output@[j] == interleaved_value(
                    buf@,
                    produced as nat,
                    buf.channel_count as nat,
                    j,
                ),
        decreases len - i,
    {
        proof {
            assert(channels > 0) by (nonlinear_arith)
                requires
                    i < len,
                    len == channels * buf.frame_count,
                    0 <= channels,
            ;
            vstd::arithmetic::div_mod::lemma_mod_division_less_than_divisor(
                i as int,
                channels as int,
            );
            vstd::arithmetic::div_mod::lemma_multiply_divide_lt(
                i as int,
                channels as int,
                buf.frame_count as int,
            );
            assert(i < channels * buf.frame_count);
            assert((i as int) < (channels as int) * (buf.frame_count as int));
        }
        let f = i / channels;
        let c = i % channels;
        let v: T = if f < produced {
            buf.get(c, f)
        } else {
            T::neutral_val()
        };
        output[i] = v;
        i = i + 1;
    }
}

/// A backend-agnostic playback driver.
///
/// It owns the stream configuration, a working and a swap buffer each sized
/// to one callback period, the lifecycle state and the attached provider.
/// The unverified control side owns the backend stream handle and forwards
/// lifecycle calls and the periodic callback here.
pub struct DriverCore<T: Sample, Pr: Provider<T>, P> {
    /// The configuration the driver was created from.
    pub params: DriverParameters<P>,
    /// The current lifecycle state.
    pub state: DriverState,
    /// The attached provider, if any; at most one is live at a time.
    pub provider: Option<Pr>,
    /// The working buffer one period of provider output is pulled into.
    pub buffer: DeinterleavedBuffer<T>,
    /// Scratch storage handed to the provider, disjoint from the working
    /// buffer.
    pub swap: DeinterleavedBuffer<T>,
    /// How many frames the most recent callback produced.
    pub out_size: usize,
}

impl<T: Sample, Pr: Provider<T>, P: Clone> Driver<T> for DriverCore<T, Pr, P> {
    type DriverParams = P;

    type Prov = Pr;

    /// Buffers are sized to one period of the configured channel count, and
    /// an attached provider satisfies its own invariant.
    open spec fn wf(&self) -> bool {
        &&& self.buffer.wf()
        &&& self.swap.wf()
        &&& self.buffer.channel_count as int == self.params.channel_count as int
        &&& self.buffer.frame_count as int == self.params.buffer_size as int
        &&& self.swap.same_dims(&self.buffer)
        &&& match self.provider {
            Some(p) => p.inv(),
            None => true,
        }
    }

    open spec fn spec_state(&self) -> DriverState {
        self.state
    }

    open spec fn spec_params(&self) -> DriverParameters<P> {
        self.params
    }

    open spec fn spec_provider(&self) -> Option<Pr> {
        self.provider
    }

    fn create(params: DriverParameters<P>, probe: BackendProbe) -> (r: Result<
        (Self, StreamConfig),
        DriverError,
    >) {
        if params.channel_count == 0 || params.sample_rate == 0 {
            return Err(DriverError::InvalidParameters);
        }
        if params.buffer_size > usize::MAX as u64 {
            return Err(DriverError::InvalidParameters);
        }
        proof {
            assert((params.channel_count as int) * (params.buffer_size as int) <= 0xffff_ffff
                * 0xffff_ffff_ffff_ffff) by (nonlinear_arith)
                requires
                    0 <= params.channel_count <= 0xffff_ffff,
                    0 <= params.buffer_size <= 0xffff_ffff_ffff_ffff,
            ;
        }
        if (params.channel_count as u128) * (params.buffer_size as u128) > usize::MAX as u128 {
            return Err(DriverError::InvalidParameters);
        }
        let device = match probe.output_device {
            None => {
                return Err(DriverError::NoOutputDevice);
            },
            Some(d) => d,
        };
        let latency = match probe.output_latency_micros {
            None => {
                return Err(DriverError::NoOutputLatency);
            },
            Some(l) => l,
        };
        if !probe.format_supported {
            return Err(DriverError::UnsupportedFormat);
        }
        let channels: usize = params.channel_count as usize;
        let frames: usize = params.buffer_size as usize;
        let neutral: T = T::neutral_val();
        let buffer = DeinterleavedBuffer::new_filled(channels, frames, neutral);
        let swap = DeinterleavedBuffer::new_filled(channels, frames, neutral);
        let suggested: u64 = if latency <= u64::MAX / 2 {
            latency * 2
        } else {
            u64::MAX
        };
        let config = StreamConfig {
            device,
            channel_count: params.channel_count,
            sample_rate: params.sample_rate,
            buffer_size: params.buffer_size,
            suggested_latency_micros: suggested,
        };
        let core = DriverCore {
            params,
            state: DriverState::Idle,
            provider: None,
            buffer,
            swap,
            out_size: 0,
        };
        Ok((core, config))
    }

    fn set_provider(&mut self, provider: Pr) {
        self.provider = Some(provider);
    }

    fn get_params(&self) -> (r: &DriverParameters<P>) {
        &self.params
    }
}

impl<T: Sample, Pr: Provider<T>, P: Clone> DriverCore<T, Pr, P> {
    /// Frames per callback period.
    pub open spec fn period(&self) -> nat {
        self.buffer.frame_count as nat
    }

    /// How many frames one callback produces in the current state: what the
    /// attached provider produces for a whole period, and none when no
    /// provider is attached or the provider cannot advance.
    pub open spec fn spec_callback_produced(&self) -> nat {
        match self.provider {
            None => 0,
            Some(p) => if p.request_pre(self.period()) {
                p.spec_produced(self.period())
            } else {
                0
            },
        }
    }

    /// Everything except the lifecycle state agrees between two driver
    /// states.
    pub open spec fn same_but_state(&self, other: &Self) -> bool {
        &&& self.params == other.params
        &&& self.provider == other.provider
        &&& self.buffer == other.buffer
        &&& self.swap == other.swap
        &&& self.out_size == other.out_size
    }

    /// One period of the backend's callback: pulls up to a period of frames
    /// from the attached provider into the working buffer, interleaves them
    /// into `output` with silence beyond the produced frames, and reports
    /// completion exactly when no frame was produced.
    ///
    /// This never fails: a missing provider or one that cannot advance
    /// degrades to zero produced frames, which reports completion.
    pub fn callback(&mut self, output: &mut Vec<T>) -> (r: CallbackResult)
        requires
            old(self).wf(),
            old(output).len() == old(self).buffer.channel_count * old(self).buffer.frame_count,
        ensures
            final(self).wf(),
            final(self).params == old(self).params,
            final(self).state == old(self).state,
            final(self).buffer.same_dims(&old(self).buffer),
            final(self).swap.same_dims(&old(self).swap),
            final(self).out_size as nat == old(self).spec_callback_produced(),
            r == (if old(self).spec_callback_produced() == 0 {
                CallbackResult::Complete
            } else {
                CallbackResult::Continue
            }),
            match (old(self).provider, final(self).provider) {
                (None, None) => final(self).buffer == old(self).buffer,
                (Some(p0), Some(p1)) => {
                    &&& p1.inv()
                    &&& p1.spec_sample_count() == p0.spec_sample_count()
                    &&& p1.spec_sample_rate() == p0.spec_sample_rate()
                    &&& if p0.request_pre(old(self).period()) {
                        &&& p1.same_config(&p0)
                        &&& p1.spec_cursor() == p0.spec_cursor() + old(
                            self,
                        ).spec_callback_produced()
                        &&& p0.fill_spec(old(self).buffer@, final(self).buffer@, old(self).period())
                    } else {
                        p1 == p0 && final(self).buffer == old(self).buffer
                    }
                },
                _ => false,
            },
            final(output).len() == old(output).len(),
            forall|i: int| #![auto]
                0 <= i < final(output).len() ==> final(output)@[i] == interleaved_value(
                    final(self).buffer@,
                    old(self).spec_callback_produced(),
                    old(self).buffer.channel_count as nat,
                    i,
                ),
    {
        let frames = self.buffer.frames();
        match &mut self.provider {
            None => {
                self.out_size = 0;
            },
            Some(p) => {
                if p.can_produce(frames) {
                    proof {
                        p.lemma_produced_le(frames as nat);
                    }
                    p.request(
                        &mut self.buffer,
                        &mut self.swap,
                        frames,
                        &mut self.out_size,
                        ProcessingFlags::ALL,
                    );
                } else {
                    self.out_size = 0;
                }
            },
        }
        let produced = self.out_size;
        write_interleaved(&self.buffer, produced, output);
        if produced == 0 {
            CallbackResult::Complete
        } else {
            CallbackResult::Continue
        }
    }

    /// Begins periodic callback invocation: allowed from `Idle` and
    /// `Paused`; starting an already started driver is an invalid
    /// transition and changes nothing.
    pub fn on_start(&mut self) -> (r: Result<(), PlaybackError>)
        requires
            old(self).wf(),
        ensures
            final(self).wf(),
            final(self).same_but_state(old(self)),
            match r {
                Ok(()) => {
                    &&& (old(self).state == DriverState::Idle || old(self).state
                        == DriverState::Paused)
                    &&& final(self).state == DriverState::Started
                },
                Err(e) => {
                    &&& e == PlaybackError::InvalidTransition
                    &&& old(self).state == DriverState::Started
                    &&& final(self).state == old(self).state
                },
            },
    {
        match self.state {
            DriverState::Started => Err(PlaybackError::InvalidTransition),
            _ => {
                self.state = DriverState::Started;
                Ok(())
            },
        }
    }

    /// Suspends the callback while retaining the open stream: allowed only
    /// from `Started`.
    pub fn on_pause(&mut self) -> (r: Result<(), PlaybackError>)
        requires
            old(self).wf(),
        ensures
            final(self).wf(),
            final(self).same_but_state(old(self)),
            match r {
                Ok(()) => {
                    &&& old(self).state == DriverState::Started
                    &&& final(self).state == DriverState::Paused
                },
                Err(e) => {
                    &&& e == PlaybackError::InvalidTransition
                    &&& old(self).state != DriverState::Started
                    &&& final(self).state == old(self).state
                },
            },
    {
        match self.state {
            DriverState::Started => {
                self.state = DriverState::Paused;
                Ok(())
            },
            _ => Err(PlaybackError::InvalidTransition),
        }
    }

    /// Halts the stream: allowed from `Started` and `Paused`. The attached
    /// provider's cursor is not reset; resuming without an explicit reset
    /// continues where playback left off.
    pub fn on_stop(&mut self) -> (r: Result<(), PlaybackError>)
        requires
            old(self).wf(),
        ensures
            final(self).wf(),
            final(self).same_but_state(old(self)),
            match r {
                Ok(()) => {
                    &&& (old(self).state == DriverState::Started || old(self).state
                        == DriverState::Paused)
                    &&& final(self).state == DriverState::Idle
                },
                Err(e) => {
                    &&& e == PlaybackError::InvalidTransition
                    &&& old(self).state == DriverState::Idle
                    &&& final(self).state == old(self).state
                },
            },
    {
        match self.state {
            DriverState::Idle => Err(PlaybackError::InvalidTransition),
            _ => {
                self.state = DriverState::Idle;
                Ok(())
            },
        }
    }

    /// Repositions the attached provider's cursor to the start of its
    /// stream. With no provider attached there is nothing to reposition and
    /// the call is a documented no-op.
    pub fn on_reset(&mut self) -> (r: Result<(), PlaybackError>)
        requires
            old(self).wf(),
        ensures
            final(self).wf(),
            final(self).state == old(self).state,
            final(self).params == old(self).params,
            final(self).buffer == old(self).buffer,
            final(self).swap == old(self).swap,
            final(self).out_size == old(self).out_size,
            r is Ok,
            match (old(self).provider, final(self).provider) {
                (None, None) => true,
                (Some(p0), Some(p1)) => {
                    &&& p1.inv()
                    &&& p1.same_config(&p0)
                    &&& p1.spec_cursor() == 0
                    &&& p1.spec_sample_count() == p0.spec_sample_count()
                    &&& p1.spec_sample_rate() == p0.spec_sample_rate()
                },
                _ => false,
            },
    {
        match &mut self.provider {
            None => Ok(()),
            Some(p) => {
                proof {
                    p.lemma_seek_pre(0);
                }
                p.seek_to(0);
                Ok(())
            },
        }
    }

    /// Repositions the attached provider to the fraction `num / den` of its
    /// total sample count, rounding half upward. Fails without an attached
    /// provider, and with an unsupported-operation error for a provider
    /// without a known sample count; on either error nothing changes.
    pub fn on_seek(&mut self, num: u64, den: u64) -> (r: Result<(), PlaybackError>)
        requires
            old(self).wf(),
            0 < den,
            num <= den,
        ensures
            final(self).wf(),
            final(self).state == old(self).state,
            final(self).params == old(self).params,
            final(self).buffer == old(self).buffer,
            final(self).swap == old(self).swap,
            final(self).out_size == old(self).out_size,
            match (old(self).provider, final(self).provider) {
                (None, None) => r == Err::<(), PlaybackError>(PlaybackError::NoProvider),
                (Some(p0), Some(p1)) => match p0.spec_sample_count() {
                    None => r == Err::<(), PlaybackError>(PlaybackError::UnsupportedSeek) && p1
                        == p0,
                    Some(total) => {
                        &&& r is Ok
                        &&& p1.inv()
                        &&& p1.same_config(&p0)
                        &&& p1.spec_cursor() == seek_target(num as nat, den as nat, total)
                        &&& p1.spec_sample_count() == p0.spec_sample_count()
                        &&& p1.spec_sample_rate() == p0.spec_sample_rate()
                    },
                },
                _ => false,
            },
    {
        match &mut self.provider {
            None => Err(PlaybackError::NoProvider),
            Some(p) => {
                match p.sample_count() {
                    None => Err(PlaybackError::UnsupportedSeek),
                    Some(total) => {
                        proof {
                            lemma_seek_target_le_total(num as nat, den as nat, total as nat);
                            assert((num as int) * (total as int) <= 0xffff_ffff_ffff_ffff
                                * 0xffff_ffff_ffff_ffff) by (nonlinear_arith)
                                requires
                                    0 <= num <= 0xffff_ffff_ffff_ffff,
                                    0 <= total <= 0xffff_ffff_ffff_ffff,
                            ;
                        }
                        let scaled: u128 = (num as u128) * (total as u128) + ((den / 2) as u128);
                        let target128: u128 = scaled / (den as u128);
                        let target: usize = target128 as usize;
                        proof {
                            p.lemma_seek_pre(target as nat);
                        }
                        p.seek_to(target);
                        Ok(())
                    },
                }
            },
        }
    }
}

/// The frame a seek to the fraction `num / den` of `total` frames
/// repositions the cursor to: `num * total / den`, rounded half upward.
pub open spec fn seek_target(num: nat, den: nat, total: nat) -> nat
    recommends
        0 < den,
        num <= den,
{
    ((num * total + den / 2) / den) as nat
}

/// A seek fraction of at most one never repositions past the total.
proof fn lemma_seek_target_le_total(num: nat, den: nat, total: nat)
    requires
        0 < den,
        num <= den,
    ensures
        seek_target(num, den, total) <= total,
{
    let n = num as int;
    let d = den as int;
    let t = total as int;
    assert(n * t <= d * t) by (nonlinear_arith)
        requires
            0 <= n <= d,
            0 <= t,
    ;
    vstd::arithmetic::div_mod::lemma_mod_division_less_than_divisor(d, 2);
    assert(0 <= d / 2 < d);
    vstd::arithmetic::div_mod::lemma_div_is_ordered(n * t + d / 2, d * t + d / 2, d);
    vstd::arithmetic::div_mod::lemma_div_multiples_vanish_fancy(t, d / 2, d);
    assert((d * t + d / 2) / d == t);
}

/// A corollary of the callback's output contract in frame/channel terms:
/// at channel `c` of frame `f` the interleaved output carries the working
/// buffer's sample when the frame was produced, and silence beyond the
/// produced frames (an under-run is zero-filled, never stale).
pub proof fn lemma_callback_output_frame<T: Sample>(
    out: Seq<T>,
    buf: Seq<Seq<T>>,
    produced: nat,
    channels: nat,
    f: int,
    c: int,
)
    requires
        0 <= c < channels,
        0 <= f,
        forall|i: int| #![auto]
            0 <= i < out.len() ==> out[i] == interleaved_value(buf, produced, channels, i),
        f * (channels as int) + c < out.len(),
    ensures
        f < produced ==> out[f * (channels as int) + c] == buf[c][f],
        f >= produced ==> out[f * (channels as int) + c] == T::spec_neutral_value(),
{
    lemma_interleaved_index(f, c, channels as int);
    assert(f * (channels as int) + c >= 0) by (nonlinear_arith)
        requires
            0 <= f,
            0 <= c,
            0 < channels,
    ;
}

} // verus!
