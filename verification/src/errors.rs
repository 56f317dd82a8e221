use vstd::prelude::*;

verus! {

/// The categorical part of every failure the library reports.
#[derive(Clone, Copy, PartialEq, Eq, Structural, Debug)]
pub enum ErrorKind {
    /// The input bytes could not be parsed as a raster image.
    UnableToOpenImage,
    /// A symbol candidate could not be identified or decoded.
    IncorrectData,
    /// A shape name outside the fixed set of rendering shapes.
    UnknownShape,
    /// A width or height parameter at or above the 32-bit bound.
    SizeTooLarge,
    /// A width or height parameter of zero; sizes must be positive.
    SizeNotPositive,
    /// The symbol generator rejected the payload.
    QrGenerationFailed,
    /// The rendered raster could not be serialized as PNG.
    PngEncodingFailed,
}

/// A structured failure: a short label saying what failed and a longer
/// message saying why. Every error the pipelines report is such a value;
/// nothing ever aborts the process.
#[derive(Debug)]
pub struct QrError {
    pub kind: ErrorKind,
    pub label: String,
    pub msg: String,
}

} // verus!
