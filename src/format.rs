use crate::error::RecordingError;
use vstd::prelude::*;

verus! {

/// hound's sample-format tag of a WAVE container: integer PCM or IEEE float.
#[verifier::external_type_specification]
pub struct ExSampleFormat(hound::SampleFormat);

/// hound's description of a WAVE container: channels, rate, bit depth, tag.
#[verifier::external_type_specification]
pub struct ExWavSpec(hound::WavSpec);

/// A sample representation that an input device may deliver.
#[derive(Debug, Clone, Copy, PartialEq, Eq, Structural)]
pub enum NativeFormat {
    I8,
    I16,
    I32,
    I64,
    U8,
    U16,
    U32,
    U64,
    F32,
    F64,
}

/// The representations that a capture stream is built for.
#[derive(Debug, Clone, Copy, PartialEq, Eq, Structural)]
pub enum CaptureFormat {
    I8,
    I16,
    I32,
    F32,
}

/// The input configuration that a device reports for capture.
#[derive(Debug, Clone, Copy, PartialEq, Eq, Structural)]
pub struct StreamConfig {
    pub channels: u16,
    pub sample_rate: u32,
    pub format: NativeFormat,
}

/// What a capture needs to know before it opens anything: the container
/// header to write and the representation the stream callback receives.
#[derive(Clone, Copy)]
pub struct CapturePlan {
    pub spec: hound::WavSpec,
    pub format: CaptureFormat,
}

/// Number of bytes of one sample in the given representation.
pub open spec fn byte_width(f: NativeFormat) -> nat {
    match f {
        NativeFormat::I8 | NativeFormat::U8 => 1,
        NativeFormat::I16 | NativeFormat::U16 => 2,
        NativeFormat::I32 | NativeFormat::U32 | NativeFormat::F32 => 4,
        NativeFormat::I64 | NativeFormat::U64 | NativeFormat::F64 => 8,
    }
}

/// Whether the representation is floating point.
pub open spec fn is_float_format(f: NativeFormat) -> bool {
    f is F32 || f is F64
}

/// The container tag that matches a representation.
pub open spec fn container_format(f: NativeFormat) -> hound::SampleFormat {
    if is_float_format(f) {
        hound::SampleFormat::Float
    } else {
        hound::SampleFormat::Int
    }
}

/// The container header for a configuration: the device's channel count and
/// rate, and the bit depth and tag of its native representation.
pub open spec fn spec_of(c: StreamConfig) -> hound::WavSpec {
    hound::WavSpec {
        channels: c.channels,
        sample_rate: c.sample_rate,
        bits_per_sample: (8 * byte_width(c.format)) as u16,
        sample_format: container_format(c.format),
    }
}

/// The stream representation that captures `f`, if it is one of those captured.
pub open spec fn captured_as(f: NativeFormat) -> Option<CaptureFormat> {
    match f {
        NativeFormat::I8 => Some(CaptureFormat::I8),
        NativeFormat::I16 => Some(CaptureFormat::I16),
        NativeFormat::I32 => Some(CaptureFormat::I32),
        NativeFormat::F32 => Some(CaptureFormat::F32),
        _ => None,
    }
}

impl NativeFormat {
    /// Number of bytes of one sample.
    pub fn sample_size(&self) -> (r: usize)
        ensures
            r == byte_width(*self),
    {
        match self {
            NativeFormat::I8 | NativeFormat::U8 => 1,
            NativeFormat::I16 | NativeFormat::U16 => 2,
            NativeFormat::I32 | NativeFormat::U32 | NativeFormat::F32 => 4,
            NativeFormat::I64 | NativeFormat::U64 | NativeFormat::F64 => 8,
        }
    }

    /// Whether samples are floating point.
    pub fn is_float(&self) -> (r: bool)
        ensures
            r == is_float_format(*self),
    {
        matches!(self, NativeFormat::F32 | NativeFormat::F64)
    }
}

/// Number of bytes of one sample of `format`.
pub fn sample_size(format: NativeFormat) -> (r: usize)
    ensures
        r == byte_width(format),
{
    format.sample_size()
}

/// The container tag for a native representation: float for float samples,
/// integer otherwise.
pub fn sample_format(format: NativeFormat) -> (r: hound::SampleFormat)
    ensures
        r == container_format(format),
{
    if format.is_float() {
        hound::SampleFormat::Float
    } else {
        hound::SampleFormat::Int
    }
}

/// The container header that records `config` without conversion.
pub fn wav_spec_from_config(config: &StreamConfig) -> (r: hound::WavSpec)
    ensures
        r == spec_of(*config),
{
    let bytes = config.format.sample_size();
    hound::WavSpec {
        channels: config.channels,
        sample_rate: config.sample_rate,
        bits_per_sample: (bytes * 8) as u16,
        sample_format: sample_format(config.format),
    }
}

/// The stream representation for `format`, or `UnsupportedFormat` when no
/// capture stream is built for it.
pub fn capture_format(format: NativeFormat) -> (r: Result<CaptureFormat, RecordingError>)
    ensures
        match captured_as(format) {
            Some(c) => r == Ok::<CaptureFormat, RecordingError>(c),
            None => r == Err::<CaptureFormat, RecordingError>(RecordingError::UnsupportedFormat),
        },
{
    match format {
        NativeFormat::I8 => Ok(CaptureFormat::I8),
        NativeFormat::I16 => Ok(CaptureFormat::I16),
        NativeFormat::I32 => Ok(CaptureFormat::I32),
        NativeFormat::F32 => Ok(CaptureFormat::F32),
        _ => Err(RecordingError::UnsupportedFormat),
    }
}

/// Negotiates a capture for `config`: the header to write and the stream
/// representation, or `UnsupportedFormat` before anything is opened.
pub fn plan_capture(config: &StreamConfig) -> (r: Result<CapturePlan, RecordingError>)
    ensures
        captured_as(config.format) is Some <==> r is Ok,
        captured_as(config.format) is None <==> r == Err::<CapturePlan, RecordingError>(
            RecordingError::UnsupportedFormat,
        ),
        r matches Ok(p) ==> p.spec == spec_of(*config) && captured_as(config.format) == Some(
            p.format,
        ),
{
    match capture_format(config.format) {
        Ok(format) => Ok(CapturePlan { spec: wav_spec_from_config(config), format }),
        Err(e) => Err(e),
    }
}

} // verus!
