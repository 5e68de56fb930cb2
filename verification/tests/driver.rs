use litaudioplayer::buffer::DeinterleavedBuffer;
use litaudioplayer::drivers::driver::{
    BackendProbe, CallbackResult, Driver, DriverError, DriverParameters, DriverState,
    PlaybackError,
};
use litaudioplayer::drivers::engine::DriverCore;
use litaudioplayer::providers::sine::Sine;
use litaudioplayer::providers::source_static::SourceStaticProvider;

type StaticDriver = DriverCore<i16, SourceStaticProvider<i16>, ()>;

type ToneDriver = DriverCore<i16, Sine<i16>, ()>;

fn good_probe() -> BackendProbe {
    BackendProbe { output_device: Some(3), output_latency_micros: Some(500), format_supported: true }
}

#[test]
fn parameters_expose_their_fields() {
    let params = DriverParameters::new(2, 48000, 256, 7u8);
    assert_eq!(params.get_channel_count(), 2);
    assert_eq!(params.get_sample_rate(), 48000);
    assert_eq!(params.get_buffer_size(), 256);
    assert_eq!(*params.get_driver_params(), 7u8);
}

#[test]
fn create_without_output_device_fails() {
    let params = DriverParameters::new(2, 44100, 64, ());
    let probe = BackendProbe {
        output_device: None,
        output_latency_micros: Some(500),
        format_supported: true,
    };
    let r = StaticDriver::create(params, probe);
    assert!(matches!(r, Err(DriverError::NoOutputDevice)));
}

#[test]
fn create_without_latency_information_fails() {
    let params = DriverParameters::new(2, 44100, 64, ());
    let probe = BackendProbe {
        output_device: Some(0),
        output_latency_micros: None,
        format_supported: true,
    };
    let r = StaticDriver::create(params, probe);
    assert!(matches!(r, Err(DriverError::NoOutputLatency)));
}

#[test]
fn create_with_unsupported_format_fails() {
    let params = DriverParameters::new(2, 44100, 64, ());
    let probe = BackendProbe {
        output_device: Some(0),
        output_latency_micros: Some(500),
        format_supported: false,
    };
    let r = StaticDriver::create(params, probe);
    assert!(matches!(r, Err(DriverError::UnsupportedFormat)));
}

#[test]
fn create_with_zero_channels_fails() {
    let params = DriverParameters::new(0, 44100, 64, ());
    let r = StaticDriver::create(params, good_probe());
    assert!(matches!(r, Err(DriverError::InvalidParameters)));
}

#[test]
fn create_yields_idle_driver_and_stream_config() {
    let params = DriverParameters::new(2, 44100, 64, ());
    let (driver, config) = StaticDriver::create(params, good_probe()).unwrap();
    assert_eq!(driver.state, DriverState::Idle);
    assert!(driver.provider.is_none());
    assert_eq!(driver.get_params().get_channel_count(), 2);
    assert_eq!(config.device, 3);
    assert_eq!(config.channel_count, 2);
    assert_eq!(config.sample_rate, 44100);
    assert_eq!(config.buffer_size, 64);
    assert_eq!(config.suggested_latency_micros, 1000);
}

#[test]
fn lifecycle_transitions() {
    let params = DriverParameters::new(1, 44100, 16, ());
    let (mut driver, _) = ToneDriver::create(params, good_probe()).unwrap();

    // Starting twice is an invalid transition; the state is unchanged.
    assert!(driver.on_start().is_ok());
    assert_eq!(driver.state, DriverState::Started);
    assert!(matches!(driver.on_start(), Err(PlaybackError::InvalidTransition)));
    assert_eq!(driver.state, DriverState::Started);

    assert!(driver.on_pause().is_ok());
    assert_eq!(driver.state, DriverState::Paused);
    assert!(matches!(driver.on_pause(), Err(PlaybackError::InvalidTransition)));

    // Paused -> Started again, then stop from Started.
    assert!(driver.on_start().is_ok());
    assert!(driver.on_stop().is_ok());
    assert_eq!(driver.state, DriverState::Idle);
    assert!(matches!(driver.on_stop(), Err(PlaybackError::InvalidTransition)));

    // Stop is also allowed from Paused.
    assert!(driver.on_start().is_ok());
    assert!(driver.on_pause().is_ok());
    assert!(driver.on_stop().is_ok());
    assert_eq!(driver.state, DriverState::Idle);
}

#[test]
fn callback_without_provider_reports_silence_and_completion() {
    let params = DriverParameters::new(2, 44100, 4, ());
    let (mut driver, _) = StaticDriver::create(params, good_probe()).unwrap();
    let mut output = vec![55i16; 8];
    let r = driver.callback(&mut output);
    assert!(matches!(r, CallbackResult::Complete));
    assert_eq!(output, vec![0i16; 8]);
}

#[test]
fn callback_interleaves_and_zero_fills() {
    let params = DriverParameters::new(2, 44100, 4, ());
    let (mut driver, _) = StaticDriver::create(params, good_probe()).unwrap();

    // Channel-major source: channel 0 holds 1, 2, 3; channel 1 holds 4, 5, 6.
    let source = DeinterleavedBuffer::from_raw(2, 3, vec![1i16, 2, 3, 4, 5, 6]);
    driver.set_provider(SourceStaticProvider::new(source, 44100));
    assert!(driver.on_start().is_ok());

    let mut output = vec![55i16; 8];
    let r = driver.callback(&mut output);
    assert!(matches!(r, CallbackResult::Continue));
    // Three produced frames interleaved, the fourth zero-filled.
    assert_eq!(output, vec![1, 4, 2, 5, 3, 6, 0, 0]);

    // The source is exhausted: the next period is silent and completes.
    let r = driver.callback(&mut output);
    assert!(matches!(r, CallbackResult::Complete));
    assert_eq!(output, vec![0i16; 8]);
}

#[test]
fn callback_with_tone_fills_every_period() {
    let params = DriverParameters::new(2, 4, 4, ());
    let (mut driver, _) = ToneDriver::create(params, good_probe()).unwrap();
    driver.set_provider(Sine::new(1, 4));
    assert!(driver.on_start().is_ok());

    let mut output = vec![0i16; 8];
    let r = driver.callback(&mut output);
    assert!(matches!(r, CallbackResult::Continue));
    // One whole waveform period, each sample replicated on both channels.
    let expected = [-32768i16, -32768, -16385, -16385, -1, -1, 16383, 16383];
    assert_eq!(output, expected.to_vec());

    let r = driver.callback(&mut output);
    assert!(matches!(r, CallbackResult::Continue));
    assert_eq!(output, expected.to_vec());
}

#[test]
fn seek_halfway_and_seek_unsupported() {
    let params = DriverParameters::new(1, 44100, 16, ());
    let (mut driver, _) = StaticDriver::create(params, good_probe()).unwrap();
    let source = DeinterleavedBuffer::from_raw(1, 100, vec![0i16; 100]);
    driver.set_provider(SourceStaticProvider::new(source, 44100));

    assert!(driver.on_seek(1, 2).is_ok());
    assert_eq!(driver.provider.as_ref().unwrap().cursor, 50);

    // Two thirds of 100 frames rounds 66.67 up to 67.
    assert!(driver.on_seek(2, 3).is_ok());
    assert_eq!(driver.provider.as_ref().unwrap().cursor, 67);

    // A full-fraction seek lands on the total; a zero fraction on the start.
    assert!(driver.on_seek(1, 1).is_ok());
    assert_eq!(driver.provider.as_ref().unwrap().cursor, 100);
    assert!(driver.on_seek(0, 2).is_ok());
    assert_eq!(driver.provider.as_ref().unwrap().cursor, 0);

    // An unbounded provider cannot seek; its cursor is unchanged.
    let params = DriverParameters::new(1, 44100, 16, ());
    let (mut tone_driver, _) = ToneDriver::create(params, good_probe()).unwrap();
    tone_driver.set_provider(Sine::new(440, 44100));
    assert!(matches!(tone_driver.on_seek(1, 2), Err(PlaybackError::UnsupportedSeek)));
    assert_eq!(tone_driver.provider.as_ref().unwrap().cursor, 0);
}

#[test]
fn seek_without_provider_fails() {
    let params = DriverParameters::new(1, 44100, 16, ());
    let (mut driver, _) = StaticDriver::create(params, good_probe()).unwrap();
    assert!(matches!(driver.on_seek(1, 2), Err(PlaybackError::NoProvider)));
}

#[test]
fn reset_repositions_to_start_and_stop_does_not() {
    let params = DriverParameters::new(1, 44100, 4, ());
    let (mut driver, _) = StaticDriver::create(params, good_probe()).unwrap();
    let source = DeinterleavedBuffer::from_raw(1, 8, vec![1i16, 2, 3, 4, 5, 6, 7, 8]);
    driver.set_provider(SourceStaticProvider::new(source, 44100));
    assert!(driver.on_start().is_ok());

    let mut output = vec![0i16; 4];
    driver.callback(&mut output);
    assert_eq!(driver.provider.as_ref().unwrap().cursor, 4);

    // Stopping keeps the cursor where playback left off.
    assert!(driver.on_stop().is_ok());
    assert_eq!(driver.provider.as_ref().unwrap().cursor, 4);

    // Resetting repositions to the start; with no provider it is a no-op.
    assert!(driver.on_reset().is_ok());
    assert_eq!(driver.provider.as_ref().unwrap().cursor, 0);

    let params = DriverParameters::new(1, 44100, 4, ());
    let (mut empty, _) = StaticDriver::create(params, good_probe()).unwrap();
    assert!(empty.on_reset().is_ok());
}

#[test]
fn callback_output_shorter_than_a_period_is_rejected_by_length() {
    // The callback contract fixes the output length to one interleaved
    // period; the control side checks it before forwarding. Here we only
    // confirm the expected length.
    let params = DriverParameters::new(2, 44100, 64, ());
    let (driver, _) = StaticDriver::create(params, good_probe()).unwrap();
    assert_eq!(driver.buffer.channels(), 2);
    assert_eq!(driver.buffer.frames(), 64);
}
