//! Texture handles and the arithmetic behind texture uploads.
//!
//! A texture lives on the GPU; all the rest of the program ever holds is
//! the numeric name the GPU gave it.  `Texture` is that handle.  The
//! renderer decodes an image file to tightly packed RGBA bytes before
//! uploading, and `rgba_buffer_size` is the byte count such an upload
//! must supply for given dimensions.

use vstd::prelude::*;

verus! {

/// Handle of a texture that has been created on the GPU.
#[derive(Clone, Copy, Debug, PartialEq, Eq, Structural)]
pub struct Texture {
    id: u32,
}

impl Texture {
    /// The numeric name of the texture.
    pub closed spec fn spec_id(&self) -> u32 {
        self.id
    }

    /// Wrap the numeric name the GPU handed out.
    pub fn new(id: u32) -> (r: Self)
        ensures
            r.spec_id() == id,
    {
        Texture { id }
    }

    /// The numeric name of the texture.
    pub fn id(&self) -> (r: u32)
        ensures
            r == self.spec_id(),
    {
        self.id
    }
}

/// Byte length of a tightly packed RGBA image (four bytes per pixel)
/// with the given dimensions, or `None` when that count does not fit in
/// memory.
pub fn rgba_buffer_size(width: u32, height: u32) -> (r: Option<usize>)
    ensures
        (match r {
            Some(n) => n == width * height * 4,
            None => width * height * 4 > usize::MAX,
        }),
{
    let pixels = (width as usize).checked_mul(height as usize);
    match pixels {
        Some(p) => {
            let bytes = p.checked_mul(4);
            bytes
        },
        None => {
            proof {
                assert(width * height * 4 > usize::MAX) by (nonlinear_arith)
                    requires
                        width * height > usize::MAX,
                ;
            }
            None
        },
    }
}

} // verus!
