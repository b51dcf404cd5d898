//! The capture-stream lifecycle and the per-block callback pipeline.
//!
//! The hardware handle itself belongs to the platform layer; this state
//! machine pins down what the pipeline decides about it: a stream opens only
//! on a validated configuration (a format defect is reported at open time,
//! never mid-stream), starting is idempotent, and teardown happens exactly
//! once — after which no callback can reach a bound sink, so a dependent
//! finalize is safe.

use vstd::prelude::*;

use crate::config::ConfigError;
use crate::config::StreamConfig;
use crate::sample::convert_block;
use crate::sample::converted_seq;
use crate::sample::NativeSample;
use crate::sample::Sample;
use crate::window::step_dispatch;
use crate::window::step_written;
use crate::window::WindowBuffer;

verus! {

/// Where a stream stands in its lifecycle.
#[derive(Clone, Copy, PartialEq, Eq, Structural, Debug)]
pub enum StreamPhase {
    Idle,
    Running,
    Stopped,
}

/// The lifecycle of one hardware input stream, bound to one immutable
/// configuration and exactly one sink.
#[derive(Debug)]
pub struct CaptureStream {
    config: StreamConfig,
    phase: StreamPhase,
}

impl CaptureStream {
    pub closed spec fn spec_config(self) -> StreamConfig {
        self.config
    }

    pub closed spec fn spec_phase(self) -> StreamPhase {
        self.phase
    }

    /// Validates the configuration and builds the stream, idle. Succeeds on
    /// exactly the well-formed configurations with a supported sample
    /// format, and reports the configuration's defect otherwise.
    pub fn open(config: StreamConfig) -> (r: Result<CaptureStream, ConfigError>)
        ensures
            r is Ok <==> (config.wf() && config.format.spec_supported()),
            (match r {
                Ok(s) => s.spec_config() == config && s.spec_phase() == StreamPhase::Idle,
                Err(e) => config.validate_error() == Some(e),
            }),
    {
        match config.validate() {
            Err(e) => Err(e),
            Ok(()) => Ok(CaptureStream { config, phase: StreamPhase::Idle }),
        }
    }

    pub fn config(&self) -> (r: StreamConfig)
        ensures
            r == self.spec_config(),
    {
        self.config
    }

    pub fn phase(&self) -> (r: StreamPhase)
        ensures
            r == self.spec_phase(),
    {
        self.phase
    }

    /// Begins delivery; a no-op when already running.
    pub fn start(&mut self)
        requires
            old(self).spec_phase() != StreamPhase::Stopped,
        ensures
            final(self).spec_phase() == StreamPhase::Running,
            final(self).spec_config() == old(self).spec_config(),
    {
        self.phase = StreamPhase::Running;
    }

    /// Halts delivery and releases the handle, exactly once per stream.
    pub fn stop(&mut self)
        requires
            old(self).spec_phase() != StreamPhase::Stopped,
        ensures
            final(self).spec_phase() == StreamPhase::Stopped,
            final(self).spec_config() == old(self).spec_config(),
    {
        self.phase = StreamPhase::Stopped;
    }
}

/// One per-block callback delivery for a transcription stream: converts the
/// native block and forwards it to the window buffer, handing back the
/// filled window, if this block completed one, for dispatch to the engine.
pub fn forward_to_window(buffer: &mut WindowBuffer, raw: &Vec<NativeSample>) -> (r: Option<
    Vec<Sample>,
>)
    requires
        old(buffer).wf(),
    ensures
        final(buffer).wf(),
        final(buffer).capacity() == old(buffer).capacity(),
        final(buffer).written() == step_written(
            old(buffer).written(),
            old(buffer).capacity(),
            converted_seq(raw@),
        ),
        (match r {
            None => step_dispatch(old(buffer).written(), old(buffer).capacity(), converted_seq(raw@))
                is None,
            Some(v) => step_dispatch(
                old(buffer).written(),
                old(buffer).capacity(),
                converted_seq(raw@),
            ) == Some(v@),
        }),
{
    let converted = convert_block(raw);
    buffer.accept(&converted)
}

} // verus!
