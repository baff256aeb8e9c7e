//! The output image: target dimensions, a destination name and a pixel buffer
//! bounded by the capacity that the dimensions declare.
use vstd::prelude::*;

verus! {

/// Why a merge was refused.
#[derive(Debug, Clone, Copy, PartialEq, Eq, Structural)]
pub enum ImageDataErrors {
    /// The two sources were decoded from different container formats.
    DifferentImageFormats,
    /// The pixel buffer exceeds the output's declared capacity.
    BufferTooSmall,
}

/// Declared capacity in bytes of an RGBA8 image of `width` by `height` pixels.
pub open spec fn capacity_of(width: u32, height: u32) -> nat {
    (width as nat) * (height as nat) * 4
}

/// An output image waiting for its pixels.
pub struct FloatingImage {
    pub width: u32,
    pub height: u32,
    pub data: Vec<u8>,
    pub name: String,
}

proof fn lemma_capacity_fits_u128(width: u32, height: u32)
    ensures
        capacity_of(width, height) <= u128::MAX,
{
    assert((width as nat) * (height as nat) <= (u32::MAX as nat) * (u32::MAX as nat))
        by (nonlinear_arith)
        requires
            width <= u32::MAX,
            height <= u32::MAX,
    ;
}

impl FloatingImage {
    /// Declared capacity in bytes: width * height * 4.
    pub open spec fn capacity(&self) -> nat {
        capacity_of(self.width, self.height)
    }

    /// An empty output image, with room reserved for `width * height` pixels.
    pub fn new(width: u32, height: u32, name: String) -> (r: Self)
        requires
            capacity_of(width, height) <= isize::MAX,
        ensures
            r.width == width,
            r.height == height,
            r.name == name,
            r.data@.len() == 0,
    {
        proof {
            lemma_capacity_fits_u128(width, height);
        }
        let buffer_capacity: u128 = width as u128 * height as u128 * 4;
        let buffer: Vec<u8> = Vec::with_capacity(buffer_capacity as usize);
        FloatingImage { width, height, data: buffer, name }
    }

    /// Takes `data` as the image's pixels, unless it is longer than the
    /// declared capacity: then the image is left as it was.
    pub fn set_data(&mut self, data: Vec<u8>) -> (r: Result<(), ImageDataErrors>)
        ensures
            final(self).width == old(self).width,
            final(self).height == old(self).height,
            final(self).name == old(self).name,
            r is Err <==> data@.len() > old(self).capacity(),
            r is Err ==> r == Err::<(), ImageDataErrors>(ImageDataErrors::BufferTooSmall)
                && final(self).data@ == old(self).data@,
            r is Ok ==> final(self).data@ == data@,
    {
        proof {
            lemma_capacity_fits_u128(self.width, self.height);
        }
        let capacity: u128 = self.width as u128 * self.height as u128 * 4;
        if data.len() as u128 > capacity {
            Err(ImageDataErrors::BufferTooSmall)
        } else {
            self.data = data;
            Ok(())
        }
    }
}

} // verus!
