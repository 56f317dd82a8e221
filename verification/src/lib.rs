use vstd::prelude::*;

pub mod classify;
pub mod decode;
pub mod encode;
pub mod errors;
pub mod shape;
pub mod size;
pub mod text;

verus! {

/// The engine behind the two commands: decoding a raster image into the
/// payloads of the QR symbols it contains, and encoding a payload into a
/// styled PNG image of a QR symbol. It keeps no state across calls; every
/// invocation is a pure function of its input and parameters.
pub struct Qr;

impl Qr {
    /// Creates an engine instance.
    pub fn new() -> Qr {
        Qr {}
    }
}

} // verus!

