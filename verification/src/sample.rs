//! Sample formats and the pure sample converter.
//!
//! A target sample is a normalized value in signed Q1.31 fixed point: the
//! audio value is `q / 2^31`, so `-1.0` is exactly representable and the
//! largest value is `1.0 - 2^-31`. Integer native formats map linearly onto
//! this range (full scale to full scale); native floating-point samples are
//! already normalized and pass through unchanged.

use vstd::prelude::*;

verus! {

/// A normalized target sample in signed Q1.31 fixed point.
#[derive(Clone, Copy, PartialEq, Eq, Structural, Debug)]
pub struct Sample {
    pub q: i32,
}

impl Sample {
    /// The silence value that cleared buffer slots hold.
    pub open spec fn spec_zero() -> Sample {
        Sample { q: 0 }
    }

    pub fn zero() -> (r: Sample)
        ensures
            r == Sample::spec_zero(),
    {
        Sample { q: 0 }
    }
}

/// The native sample formats a capture device may deliver. `Unsupported`
/// stands for every format outside the four the pipeline handles; a
/// configuration that carries it is rejected before a stream is built.
#[derive(Clone, Copy, PartialEq, Eq, Structural, Debug)]
pub enum SampleFormat {
    Int8,
    Int16,
    Int32,
    Float32,
    Unsupported,
}

impl SampleFormat {
    pub open spec fn spec_supported(self) -> bool {
        self != SampleFormat::Unsupported
    }

    pub fn is_supported(&self) -> (r: bool)
        ensures
            r == self.spec_supported(),
    {
        match self {
            SampleFormat::Unsupported => false,
            _ => true,
        }
    }

    /// Width in bytes of one sample of this format in a container file.
    pub open spec fn spec_sample_bytes(self) -> u16 {
        match self {
            SampleFormat::Int8 => 1,
            SampleFormat::Int16 => 2,
            SampleFormat::Int32 => 4,
            SampleFormat::Float32 => 4,
            SampleFormat::Unsupported => 0,
        }
    }

    pub fn sample_bytes(&self) -> (r: u16)
        ensures
            r == self.spec_sample_bytes(),
    {
        match self {
            SampleFormat::Int8 => 1,
            SampleFormat::Int16 => 2,
            SampleFormat::Int32 => 4,
            SampleFormat::Float32 => 4,
            SampleFormat::Unsupported => 0,
        }
    }

    pub open spec fn spec_is_float(self) -> bool {
        self == SampleFormat::Float32
    }

    pub fn is_float(&self) -> (r: bool)
        ensures
            r == self.spec_is_float(),
    {
        match self {
            SampleFormat::Float32 => true,
            _ => false,
        }
    }
}

/// One sample as the hardware delivered it, tagged with its native format.
/// A native floating-point sample is carried as the normalized target value
/// it already is.
#[derive(Clone, Copy, PartialEq, Eq, Structural, Debug)]
pub enum NativeSample {
    Int8(i8),
    Int16(i16),
    Int32(i32),
    Float32(Sample),
}

impl NativeSample {
    pub open spec fn spec_format(self) -> SampleFormat {
        match self {
            NativeSample::Int8(_) => SampleFormat::Int8,
            NativeSample::Int16(_) => SampleFormat::Int16,
            NativeSample::Int32(_) => SampleFormat::Int32,
            NativeSample::Float32(_) => SampleFormat::Float32,
        }
    }
}

/// The Q1.31 value a native sample converts to: each integer format's range
/// maps linearly onto the normalized range, so an n-bit integer sample `v`
/// becomes `v * 2^(31-(n-1))`, and a floating-point sample passes through.
pub open spec fn converted_q(s: NativeSample) -> int {
    match s {
        NativeSample::Int8(v) => v * 0x0100_0000,
        NativeSample::Int16(v) => v * 0x0001_0000,
        NativeSample::Int32(v) => v as int,
        NativeSample::Float32(f) => f.q as int,
    }
}

/// The target sample a native sample converts to. The Q1.31 value always
/// fits: the widest product is an 8-bit sample scaled by 2^24.
pub open spec fn spec_convert(s: NativeSample) -> Sample {
    Sample { q: converted_q(s) as i32 }
}

/// A whole delivered block after conversion, in order.
pub open spec fn converted_seq(s: Seq<NativeSample>) -> Seq<Sample> {
    s.map_values(|n: NativeSample| spec_convert(n))
}

/// Converts one native sample to the normalized target representation.
/// Pure and total over all four supported formats.
pub fn convert(s: NativeSample) -> (r: Sample)
    ensures
        r == spec_convert(s),
        r.q == converted_q(s),
{
    match s {
        NativeSample::Int8(v) => Sample { q: (v as i32) * 0x0100_0000 },
        NativeSample::Int16(v) => Sample { q: (v as i32) * 0x0001_0000 },
        NativeSample::Int32(v) => Sample { q: v },
        NativeSample::Float32(f) => f,
    }
}

/// The target full-scale maximum for each native format: the value the
/// format's largest representable sample converts to.
pub open spec fn full_scale_max_q(f: SampleFormat) -> int {
    match f {
        SampleFormat::Int8 => 0x7f00_0000int,
        SampleFormat::Int16 => 0x7fff_0000int,
        SampleFormat::Int32 => 0x7fff_ffffint,
        SampleFormat::Float32 => 0x7fff_ffffint,
        SampleFormat::Unsupported => 0int,
    }
}

/// The target full-scale minimum: every supported format's smallest sample
/// converts to exactly -1.0, the bottom of the Q1.31 range.
pub open spec fn full_scale_min_q(f: SampleFormat) -> int {
    match f {
        SampleFormat::Unsupported => 0,
        _ => -0x8000_0000,
    }
}

/// The largest native sample of a supported format.
pub open spec fn native_max(f: SampleFormat) -> NativeSample {
    match f {
        SampleFormat::Int8 => NativeSample::Int8(127),
        SampleFormat::Int16 => NativeSample::Int16(32767),
        SampleFormat::Int32 => NativeSample::Int32(i32::MAX),
        _ => NativeSample::Float32(Sample { q: i32::MAX }),
    }
}

/// The smallest native sample of a supported format.
pub open spec fn native_min(f: SampleFormat) -> NativeSample {
    match f {
        SampleFormat::Int8 => NativeSample::Int8(i8::MIN),
        SampleFormat::Int16 => NativeSample::Int16(i16::MIN),
        SampleFormat::Int32 => NativeSample::Int32(i32::MIN),
        _ => NativeSample::Float32(Sample { q: i32::MIN }),
    }
}

/// Full-scale law: for every supported native format, converting the format's
/// maximum and minimum representable samples yields the target's full-scale
/// maximum and minimum for that format.
pub proof fn lemma_full_scale_conversion(f: SampleFormat)
    requires
        f.spec_supported(),
    ensures
        converted_q(native_max(f)) == full_scale_max_q(f),
        converted_q(native_min(f)) == full_scale_min_q(f),
{
}

/// Converts a whole delivered block, preserving length and ordering.
pub fn convert_block(block: &Vec<NativeSample>) -> (r: Vec<Sample>)
    ensures
        r@ == converted_seq(block@),
        r@.len() == block@.len(),
        forall|i: int| 0 <= i < block@.len() ==> r@[i] == spec_convert(block@[i]),
{
    let mut out: Vec<Sample> = Vec::new();
    let mut i: usize = 0;
    while i < block.len()
        invariant
            i <= block@.len(),
            out@.len() == i,
            forall|j: int| 0 <= j < i ==> out@[j] == spec_convert(block@[j]),
        decreases block@.len() - i,
    {
        let s = convert(block[i]);
        out.push(s);
        i = i + 1;
    }
    proof {
        assert(out@ =~= converted_seq(block@));
    }
    out
}

} // verus!
