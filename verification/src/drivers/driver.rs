//! Driver configuration, lifecycle states, errors and the driver contract.
//!
//! A driver owns a working and a swap buffer sized to one callback period,
//! an optional provider, and the immutable stream configuration. It bridges
//! the backend's periodic callback to provider pulls and interleaves the
//! produced frames into the backend's frame-major output.

use vstd::prelude::*;
use crate::providers::node::Provider;
use crate::sample::Sample;

verus! {

/// A lifecycle error raised synchronously from a control-side call; the
/// driver's state is unchanged when one is returned.
#[derive(Clone, Copy, Debug, PartialEq, Eq, Structural)]
pub enum PlaybackError {
    /// The requested lifecycle transition is not allowed from the current
    /// state.
    InvalidTransition,
    /// The operation needs an attached provider and none is attached.
    NoProvider,
    /// Seeking was requested on a provider without a known sample count.
    UnsupportedSeek,
}

/// A setup error raised during driver creation; no driver is produced when
/// one is returned.
#[derive(Clone, Copy, Debug, PartialEq, Eq, Structural)]
pub enum DriverError {
    /// The configuration itself is unusable (a zero channel count or sample
    /// rate, or buffers that cannot be addressed).
    InvalidParameters,
    /// The backend reports no suitable output device.
    NoOutputDevice,
    /// The backend cannot report an output latency for the device.
    NoOutputLatency,
    /// The backend does not support the requested stream format.
    UnsupportedFormat,
}

/// The driver's lifecycle state.
#[derive(Clone, Copy, Debug, PartialEq, Eq, Structural)]
pub enum DriverState {
    /// The stream is open but halted; also the state right after creation.
    Idle,
    /// The backend is actively invoking the periodic callback.
    Started,
    /// The callback is suspended while the open stream is retained.
    Paused,
}

/// The result a driver callback reports back to the backend after one
/// period.
#[derive(Clone, Copy, Debug, PartialEq, Eq, Structural)]
pub enum CallbackResult {
    /// Frames were produced; the backend keeps invoking the callback.
    Continue,
    /// No frames were produced; the backend stops invoking the callback
    /// until restarted.
    Complete,
}

/// Immutable driver configuration.
#[derive(Clone)]
pub struct DriverParameters<P> {
    /// Number of output channels; must be positive.
    pub channel_count: u32,
    /// Output sample rate in frames per second; must be positive.
    pub sample_rate: u32,
    /// Frames per callback period; zero lets the backend choose.
    pub buffer_size: u64,
    /// An opaque backend-specific parameter block.
    pub driver_params: P,
}

impl<P> DriverParameters<P> {
    /// Bundles a stream configuration.
    pub fn new(channel_count: u32, sample_rate: u32, buffer_size: u64, driver_params: P) -> (r:
        Self)
        ensures
            r.channel_count == channel_count,
            r.sample_rate == sample_rate,
            r.buffer_size == buffer_size,
            r.driver_params == driver_params,
    {
        DriverParameters { channel_count, sample_rate, buffer_size, driver_params }
    }

    /// Number of output channels.
    pub fn get_channel_count(&self) -> (r: u32)
        ensures
            r == self.channel_count,
    {
        self.channel_count
    }

    /// Output sample rate in frames per second.
    pub fn get_sample_rate(&self) -> (r: u32)
        ensures
            r == self.sample_rate,
    {
        self.sample_rate
    }

    /// Frames per callback period.
    pub fn get_buffer_size(&self) -> (r: u64)
        ensures
            r == self.buffer_size,
    {
        self.buffer_size
    }

    /// The backend-specific parameter block.
    pub fn get_driver_params(&self) -> (r: &P)
        ensures
            *r == self.driver_params,
    {
        &self.driver_params
    }
}

/// What the backend reports about its output capabilities before a stream
/// is opened; the control side queries the backend and hands the answers to
/// `create` as plain values.
#[derive(Clone, Copy, Debug)]
pub struct BackendProbe {
    /// The default output device's index, if the backend found one.
    pub output_device: Option<u32>,
    /// The device's default low output latency in microseconds, if known.
    pub output_latency_micros: Option<u64>,
    /// Whether the backend supports the requested stream format.
    pub format_supported: bool,
}

/// The stream configuration a driver computes for the backend's open call.
#[derive(Clone, Copy, Debug)]
pub struct StreamConfig {
    /// The output device to open.
    pub device: u32,
    /// Number of interleaved output channels.
    pub channel_count: u32,
    /// Sample rate in frames per second.
    pub sample_rate: u32,
    /// Frames per callback period; zero lets the backend choose.
    pub buffer_size: u64,
    /// The latency to suggest to the backend: twice the device's default
    /// low output latency.
    pub suggested_latency_micros: u64,
}

/// The configuration is usable: positive channel count and sample rate, and
/// period storage that fits in memory.
pub open spec fn params_valid<P>(params: DriverParameters<P>) -> bool {
    &&& params.channel_count > 0
    &&& params.sample_rate > 0
    &&& params.buffer_size <= usize::MAX
    &&& (params.channel_count as int) * (params.buffer_size as int) <= usize::MAX as int
}

/// The backend probe allows a stream to be opened: a device was found, its
/// latency is known and the format is supported.
pub open spec fn probe_ok(probe: BackendProbe) -> bool {
    &&& probe.output_device is Some
    &&& probe.output_latency_micros is Some
    &&& probe.format_supported
}

/// The exact error `create` returns for a configuration and probe, or
/// `None` when creation succeeds.
pub open spec fn create_error<P>(params: DriverParameters<P>, probe: BackendProbe) -> Option<
    DriverError,
> {
    if !params_valid(params) {
        Some(DriverError::InvalidParameters)
    } else if probe.output_device is None {
        Some(DriverError::NoOutputDevice)
    } else if probe.output_latency_micros is None {
        Some(DriverError::NoOutputLatency)
    } else if !probe.format_supported {
        Some(DriverError::UnsupportedFormat)
    } else {
        None
    }
}

/// The stream configuration handed to the backend repeats the driver
/// parameters, names the probed device and suggests twice its default low
/// output latency (saturating).
pub open spec fn stream_config_matches<P>(
    params: DriverParameters<P>,
    probe: BackendProbe,
    config: StreamConfig,
) -> bool {
    &&& probe.output_device matches Some(d) && config.device == d
    &&& config.channel_count == params.channel_count
    &&& config.sample_rate == params.sample_rate
    &&& config.buffer_size == params.buffer_size
    &&& probe.output_latency_micros matches Some(l) && config.suggested_latency_micros as int == (
    if 2 * (l as int) <= u64::MAX as int {
        2 * (l as int)
    } else {
        u64::MAX as int
    })
}

/// A playback driver: create it from parameters and a backend probe, then
/// attach a provider and drive it from the backend's periodic callback.
pub trait Driver<T: Sample>: Sized {
    /// The backend-specific parameter block type.
    type DriverParams: Clone;

    /// The provider type this driver pulls from.
    type Prov: Provider<T>;

    /// Internal consistency of the driver's state.
    spec fn wf(&self) -> bool;

    /// The current lifecycle state.
    spec fn spec_state(&self) -> DriverState;

    /// The configuration the driver was created from.
    spec fn spec_params(&self) -> DriverParameters<Self::DriverParams>;

    /// The currently attached provider, if any.
    spec fn spec_provider(&self) -> Option<Self::Prov>;

    /// Validates the configuration against the backend probe and returns
    /// either a fully initialized idle driver together with the stream
    /// configuration for the backend's open call, or the setup error —
    /// never a partially-usable driver.
    fn create(params: DriverParameters<Self::DriverParams>, probe: BackendProbe) -> (r: Result<
        (Self, StreamConfig),
        DriverError,
    >)
        ensures
            match r {
                Ok(pair) => {
                    &&& create_error(params, probe) is None
                    &&& pair.0.wf()
                    &&& pair.0.spec_state() == DriverState::Idle
                    &&& pair.0.spec_provider() is None
                    &&& pair.0.spec_params() == params
                    &&& stream_config_matches(params, probe, pair.1)
                },
                Err(e) => create_error(params, probe) == Some(e),
            },
    ;

    /// Attaches `provider`, replacing and dropping any previous one; allowed
    /// in every lifecycle state.
    fn set_provider(&mut self, provider: Self::Prov)
        requires
            old(self).wf(),
            provider.inv(),
        ensures
            final(self).wf(),
            final(self).spec_provider() == Some(provider),
            final(self).spec_state() == old(self).spec_state(),
            final(self).spec_params() == old(self).spec_params(),
    ;

    /// The configuration the driver was created from.
    fn get_params(&self) -> (r: &DriverParameters<Self::DriverParams>)
        ensures
            *r == self.spec_params(),
    ;
}

} // verus!
