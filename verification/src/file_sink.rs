//! The durable file sink.
//!
//! A `FileSink` accumulates converted samples in arrival order and is sealed
//! by exactly one `finalize`, which consumes it: a second finalize is a type
//! error, not a runtime condition. Finalizing an empty recording is an
//! error. The caller that shares a sink across threads is responsible for
//! the non-blocking-acquire drop policy on the real-time side; the sink
//! itself never blocks.

use vstd::prelude::*;

use crate::config::WavSettings;
use crate::sample::convert_block;
use crate::sample::converted_seq;
use crate::sample::NativeSample;
use crate::sample::Sample;

verus! {

/// Why a finalize failed. Fatal to the finalize operation.
#[derive(Clone, Copy, PartialEq, Eq, Structural, Debug)]
pub enum SinkError {
    /// No sample was accepted before finalize.
    EmptyRecording,
    /// The recording does not fit the container's 32-bit size fields.
    TooLarge,
}

/// The declared sizes would overflow the container's 32-bit header fields.
pub open spec fn too_large(settings: WavSettings, count: nat) -> bool {
    ||| count > u32::MAX
    ||| count * (settings.bits_per_sample / 8) > u32::MAX
}

/// A sink that accumulates converted samples for one output file.
#[derive(Debug)]
pub struct FileSink {
    samples: Vec<Sample>,
    settings: WavSettings,
}

/// A sealed recording: the accepted samples in arrival order, with the
/// header metadata the container file declares for them.
#[derive(Debug)]
pub struct FinalizedRecording {
    pub settings: WavSettings,
    /// The declared frame count: the number of accepted samples.
    pub frame_count: u32,
    /// The declared size of the sample data in bytes.
    pub data_bytes: u32,
    pub samples: Vec<Sample>,
}

impl FileSink {
    /// The samples accepted so far, in arrival order.
    pub closed spec fn accepted(self) -> Seq<Sample> {
        self.samples@
    }

    /// The header parameters this sink was opened with.
    pub closed spec fn spec_settings(self) -> WavSettings {
        self.settings
    }

    /// Opens a sink with nothing accepted yet.
    pub fn new(settings: WavSettings) -> (r: FileSink)
        ensures
            r.accepted() == Seq::<Sample>::empty(),
            r.spec_settings() == settings,
    {
        FileSink { samples: Vec::new(), settings }
    }

    /// Appends a converted block to the recording in arrival order.
    pub fn accept(&mut self, block: &Vec<Sample>)
        ensures
            final(self).accepted() == old(self).accepted() + block@,
            final(self).spec_settings() == old(self).spec_settings(),
    {
        proof {
            assert(self.samples@ =~= old(self).samples@ + block@.take(0));
        }
        let mut i: usize = 0;
        while i < block.len()
            invariant
                i <= block@.len(),
                self.settings == old(self).settings,
                self.samples@ == old(self).samples@ + block@.take(i as int),
            decreases block@.len() - i,
        {
            self.samples.push(block[i]);
            i = i + 1;
            proof {
                assert(self.samples@ =~= old(self).samples@ + block@.take(i as int));
            }
        }
        proof {
            assert(old(self).samples@ + block@.take(block@.len() as int) =~= old(self).accepted()
                + block@);
        }
    }

    /// Seals the recording exactly once, consuming the sink. Returns the
    /// accepted samples with the header metadata to declare for them:
    /// the declared frame count equals the number of accepted samples.
    /// Errs on a recording with no samples, and on one whose declared sizes
    /// would not fit the container's 32-bit fields.
    pub fn finalize(self) -> (r: Result<FinalizedRecording, SinkError>)
        ensures
            (match r {
                Err(SinkError::EmptyRecording) => self.accepted().len() == 0,
                Err(SinkError::TooLarge) => self.accepted().len() > 0 && too_large(
                    self.spec_settings(),
                    self.accepted().len(),
                ),
                Ok(rec) => {
                    &&& self.accepted().len() > 0
                    &&& !too_large(self.spec_settings(), self.accepted().len())
                    &&& rec.settings == self.spec_settings()
                    &&& rec.samples@ == self.accepted()
                    &&& rec.frame_count == self.accepted().len()
                    &&& rec.data_bytes == self.accepted().len() * (
                    self.spec_settings().bits_per_sample / 8)
                },
            }),
    {
        let n = self.samples.len();
        if n == 0 {
            return Err(SinkError::EmptyRecording);
        }
        if n > u32::MAX as usize {
            return Err(SinkError::TooLarge);
        }
        let frame_count = n as u32;
        let bytes_per = (self.settings.bits_per_sample / 8) as u64;
        proof {
            assert((frame_count as u64) * bytes_per <= u64::MAX) by (nonlinear_arith)
                requires
                    frame_count <= u32::MAX,
                    bytes_per <= 0x2000,
            ;
        }
        let data = (frame_count as u64) * bytes_per;
        if data > u32::MAX as u64 {
            return Err(SinkError::TooLarge);
        }
        Ok(
            FinalizedRecording {
                settings: self.settings,
                frame_count,
                data_bytes: data as u32,
                samples: self.samples,
            },
        )
    }
}

/// One real-time delivery to the file sink: converts the native block and
/// appends it in arrival order. The converted block is produced fresh and
/// not retained beyond the call.
pub fn write_input_data(sink: &mut FileSink, input: &Vec<NativeSample>)
    ensures
        final(sink).accepted() == old(sink).accepted() + converted_seq(input@),
        final(sink).spec_settings() == old(sink).spec_settings(),
{
    let converted = convert_block(input);
    sink.accept(&converted);
}

} // verus!
