//! The in-memory image the library works on: plain dimensions and a raw
//! RGBA pixel buffer.

use vstd::prelude::*;

verus! {

/// A decoded image: `width * height` pixels, four bytes each, in RGBA
/// order. The binary around the library decodes a file into this form and
/// encodes the transformed buffer back to disk.
pub struct Image {
    pub width: u32,
    pub height: u32,
    pub pixels: Vec<u8>,
}

impl Image {
    /// The buffer holds exactly four bytes for every pixel.
    pub open spec fn wf(&self) -> bool {
        self.pixels@.len() == 4 * self.width * self.height
    }
}

} // verus!
