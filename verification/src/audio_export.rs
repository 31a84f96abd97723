//! The choices an audio export makes before it writes a file.
use vstd::prelude::*;

verus! {

/// The file formats a project is exported to.
#[derive(Debug, Clone, Copy, PartialEq, Eq, Structural)]
pub enum ExportFormat {
    Wav,
    Flac,
    Ogg,
}

/// The sample encodings an export writes.
#[derive(Debug, Clone, Copy, PartialEq, Eq, Structural)]
pub enum SampleFormat {
    /// 16-bit integers.
    I16,
    /// 24-bit integers.
    I24,
    /// 32-bit floats.
    F32,
}

/// Why an export's settings were refused.
#[derive(Debug, Clone, Copy, PartialEq, Eq, Structural)]
pub enum ExportError {
    /// FLAC holds no float samples.
    FlacFloatUnsupported,
    /// No encoding of the format has this bit depth.
    UnsupportedBitDepth(u32),
}

impl ExportFormat {
    /// The file extension of the format.
    pub fn default_extension(self) -> (r: &'static str)
        ensures
            r@ == match self {
                ExportFormat::Wav => "wav"@,
                ExportFormat::Flac => "flac"@,
                ExportFormat::Ogg => "ogg"@,
            },
    {
        match self {
            ExportFormat::Wav => "wav",
            ExportFormat::Flac => "flac",
            ExportFormat::Ogg => "ogg",
        }
    }
}

/// The encoding chosen for a format (WAV where none is set) and a bit depth:
/// 16 and 24 bits are integers in every format; 32 bits are floats in WAV
/// and refused in FLAC; Ogg always takes floats; any other depth is refused.
pub open spec fn sample_format_for(format: Option<ExportFormat>, bit_depth: u32) -> Result<
    SampleFormat,
    ExportError,
> {
    let format = match format {
        Some(f) => f,
        None => ExportFormat::Wav,
    };
    if bit_depth == 16 {
        Ok(SampleFormat::I16)
    } else if bit_depth == 24 {
        Ok(SampleFormat::I24)
    } else if format == ExportFormat::Wav && bit_depth == 32 {
        Ok(SampleFormat::F32)
    } else if format == ExportFormat::Flac && bit_depth == 32 {
        Err(ExportError::FlacFloatUnsupported)
    } else if format == ExportFormat::Ogg {
        Ok(SampleFormat::F32)
    } else {
        Err(ExportError::UnsupportedBitDepth(bit_depth))
    }
}

/// The encoding an export writes, for its format and bit depth.
pub fn sample_format(format: Option<ExportFormat>, bit_depth: u32) -> (r: Result<
    SampleFormat,
    ExportError,
>)
    ensures
        r == sample_format_for(format, bit_depth),
{
    let format = match format {
        Some(f) => f,
        None => ExportFormat::Wav,
    };
    match (format, bit_depth) {
        (_, 16) => Ok(SampleFormat::I16),
        (_, 24) => Ok(SampleFormat::I24),
        (ExportFormat::Wav, 32) => Ok(SampleFormat::F32),
        (ExportFormat::Flac, 32) => Err(ExportError::FlacFloatUnsupported),
        (ExportFormat::Ogg, _) => Ok(SampleFormat::F32),
        (_, d) => Err(ExportError::UnsupportedBitDepth(d)),
    }
}

} // verus!
