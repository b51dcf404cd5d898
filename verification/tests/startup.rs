use hush::config::ConfigError;
use hush::config::StreamConfig;
use hush::config::wav_settings_for;
use hush::device::DeviceError;
use hush::device::DeviceSelection;
use hush::device::resolve_selection;
use hush::sample::SampleFormat;
use hush::stream::CaptureStream;
use hush::stream::StreamPhase;

fn live_config() -> StreamConfig {
    StreamConfig {
        channels: 1,
        sample_rate: 16000,
        format: SampleFormat::Float32,
        buffer_min: 256,
        buffer_max: 512,
    }
}

#[test]
fn valid_config_opens_idle() {
    let stream = CaptureStream::open(live_config()).expect("supported config opens");
    assert_eq!(stream.phase(), StreamPhase::Idle);
    assert_eq!(stream.config(), live_config());
}

#[test]
fn unsupported_format_fails_at_open() {
    let mut config = live_config();
    config.format = SampleFormat::Unsupported;
    assert_eq!(
        CaptureStream::open(config).unwrap_err(),
        ConfigError::UnsupportedSampleFormat
    );
}

#[test]
fn degenerate_configs_are_rejected() {
    let mut config = live_config();
    config.channels = 0;
    assert_eq!(config.validate().unwrap_err(), ConfigError::InvalidChannelCount);

    let mut config = live_config();
    config.sample_rate = 0;
    assert_eq!(config.validate().unwrap_err(), ConfigError::InvalidSampleRate);

    let mut config = live_config();
    config.buffer_min = 513;
    assert_eq!(config.validate().unwrap_err(), ConfigError::InvalidBufferRange);

    assert_eq!(live_config().validate(), Ok(()));
}

#[test]
fn start_is_idempotent_and_stop_is_final() {
    let mut stream = CaptureStream::open(live_config()).expect("config opens");
    stream.start();
    assert_eq!(stream.phase(), StreamPhase::Running);
    stream.start();
    assert_eq!(stream.phase(), StreamPhase::Running);
    stream.stop();
    assert_eq!(stream.phase(), StreamPhase::Stopped);
}

#[test]
fn container_settings_follow_the_format() {
    let s = wav_settings_for(&live_config()).expect("supported config has settings");
    assert_eq!(s.channels, 1);
    assert_eq!(s.sample_rate, 16000);
    assert_eq!(s.bits_per_sample, 32);
    assert!(s.float_format);

    let mut config = live_config();
    config.format = SampleFormat::Int16;
    let s = wav_settings_for(&config).expect("integer config has settings");
    assert_eq!(s.bits_per_sample, 16);
    assert!(!s.float_format);

    config.format = SampleFormat::Unsupported;
    assert_eq!(
        wav_settings_for(&config).unwrap_err(),
        ConfigError::UnsupportedSampleFormat
    );
}

#[test]
fn device_selection_decision() {
    assert_eq!(resolve_selection(Some(2), 5, true), Ok(DeviceSelection::Index(2)));
    assert_eq!(resolve_selection(Some(5), 5, true), Err(DeviceError::IndexOutOfRange));
    assert_eq!(resolve_selection(None, 0, true), Ok(DeviceSelection::Default));
    assert_eq!(resolve_selection(None, 3, false), Err(DeviceError::NoDefaultDevice));
}
