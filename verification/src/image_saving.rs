//! The hand-off buffer for saving a rendered frame.
//!
//! The renderer reads a frame back as packed RGBA tuples; `flatten` turns
//! them into the plain byte buffer the on-disk encoders expect, four bytes
//! per pixel in order.

use vstd::prelude::*;

verus! {

/// A frame read back from the renderer: packed RGBA pixels with the frame's
/// dimensions.
#[derive(Debug)]
pub struct RGBAImageData {
    pub data: Vec<(u8, u8, u8, u8)>,
    pub width: u32,
    pub height: u32,
}

impl RGBAImageData {
    /// Packs a raw readback into the hand-off buffer.
    pub fn from_raw(data: Vec<(u8, u8, u8, u8)>, width: u32, height: u32) -> (r: RGBAImageData)
        ensures
            r.data == data,
            r.width == width,
            r.height == height,
    {
        RGBAImageData { data, width, height }
    }
}

/// Flattens packed RGBA tuples into a plain byte buffer: four bytes per
/// pixel, channel order preserved.
pub fn flatten(data: Vec<(u8, u8, u8, u8)>) -> (r: Vec<u8>)
    ensures
        r@.len() == 4 * data@.len(),
        forall|i: int|
            0 <= i < data@.len() ==> {
                &&& r@[4 * i] == #[trigger] data@[i].0
                &&& r@[4 * i + 1] == data@[i].1
                &&& r@[4 * i + 2] == data@[i].2
                &&& r@[4 * i + 3] == data@[i].3
            },
{
    let mut out: Vec<u8> = Vec::new();
    let mut i: usize = 0;
    while i < data.len()
        invariant
            i <= data@.len(),
            out@.len() == 4 * i,
            forall|j: int|
                0 <= j < i ==> {
                    &&& out@[4 * j] == #[trigger] data@[j].0
                    &&& out@[4 * j + 1] == data@[j].1
                    &&& out@[4 * j + 2] == data@[j].2
                    &&& out@[4 * j + 3] == data@[j].3
                },
        decreases data@.len() - i,
    {
        let (a, b, c, d) = data[i];
        out.push(a);
        out.push(b);
        out.push(c);
        out.push(d);
        i = i + 1;
    }
    out
}

} // verus!
