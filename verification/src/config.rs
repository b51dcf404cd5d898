//! Stream configuration and the startup-time checks that guard it.
//!
//! Every configuration error is detected before a stream is built; nothing
//! about the sample format is ever decided per block on the real-time path.

use vstd::prelude::*;

use crate::sample::SampleFormat;

verus! {

/// Errors detectable before any stream starts. Fatal to the operation that
/// requested capture; no partial operation follows one.
#[derive(Clone, Copy, PartialEq, Eq, Structural, Debug)]
pub enum ConfigError {
    UnsupportedSampleFormat,
    InvalidChannelCount,
    InvalidSampleRate,
    InvalidBufferRange,
}

/// The negotiated input-stream configuration, immutable once a stream is
/// built. The buffer bounds are the frame-count range the hardware may pick
/// a block size from.
#[derive(Clone, Copy, PartialEq, Eq, Structural, Debug)]
pub struct StreamConfig {
    pub channels: u16,
    pub sample_rate: u32,
    pub format: SampleFormat,
    pub buffer_min: u32,
    pub buffer_max: u32,
}

impl StreamConfig {
    /// A usable configuration: at least one channel, a positive rate, and a
    /// non-empty buffer-size range.
    pub open spec fn wf(self) -> bool {
        &&& 1 <= self.channels
        &&& 1 <= self.sample_rate
        &&& self.buffer_min <= self.buffer_max
    }

    /// The defect `validate` reports, if any: the format is checked first,
    /// then the channel count, the rate, and the buffer range.
    pub open spec fn validate_error(self) -> Option<ConfigError> {
        if !self.format.spec_supported() {
            Some(ConfigError::UnsupportedSampleFormat)
        } else if self.channels == 0 {
            Some(ConfigError::InvalidChannelCount)
        } else if self.sample_rate == 0 {
            Some(ConfigError::InvalidSampleRate)
        } else if self.buffer_min > self.buffer_max {
            Some(ConfigError::InvalidBufferRange)
        } else {
            None
        }
    }

    /// Startup-time validation: accepts exactly the well-formed
    /// configurations whose sample format the converter supports, and names
    /// the first defect otherwise.
    pub fn validate(&self) -> (r: Result<(), ConfigError>)
        ensures
            r is Ok <==> (self.wf() && self.format.spec_supported()),
            (match r {
                Ok(()) => self.validate_error() is None,
                Err(e) => self.validate_error() == Some(e),
            }),
    {
        if !self.format.is_supported() {
            Err(ConfigError::UnsupportedSampleFormat)
        } else if self.channels == 0 {
            Err(ConfigError::InvalidChannelCount)
        } else if self.sample_rate == 0 {
            Err(ConfigError::InvalidSampleRate)
        } else if self.buffer_min > self.buffer_max {
            Err(ConfigError::InvalidBufferRange)
        } else {
            Ok(())
        }
    }
}

/// The container header parameters a finalized recording declares. Derived
/// from the stream configuration alone.
#[derive(Clone, Copy, PartialEq, Eq, Structural, Debug)]
pub struct WavSettings {
    pub channels: u16,
    pub sample_rate: u32,
    pub bits_per_sample: u16,
    pub float_format: bool,
}

/// Computes the container header parameters for a configuration: the bit
/// depth is the native sample width, and the numeric encoding is float
/// exactly for the floating-point format. Rejects exactly the
/// configurations `validate` rejects, with the same error.
pub fn wav_settings_for(config: &StreamConfig) -> (r: Result<WavSettings, ConfigError>)
    ensures
        r is Ok <==> (config.wf() && config.format.spec_supported()),
        (match r {
            Ok(s) => {
                &&& s.channels == config.channels
                &&& s.sample_rate == config.sample_rate
                &&& s.bits_per_sample == 8 * config.format.spec_sample_bytes()
                &&& s.float_format == config.format.spec_is_float()
            },
            Err(e) => config.validate_error() == Some(e),
        }),
{
    match config.validate() {
        Err(e) => Err(e),
        Ok(()) => Ok(
            WavSettings {
                channels: config.channels,
                sample_rate: config.sample_rate,
                bits_per_sample: 8 * config.format.sample_bytes(),
                float_format: config.format.is_float(),
            },
        ),
    }
}

} // verus!
