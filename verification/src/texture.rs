//! Textures: a two-phase resource, allocated from a description and then
//! populated by an explicit upload that forces every pixel opaque.

use vstd::prelude::*;
use crate::pixel::{spec_force_opaque, force_opaque};

verus! {

/// The shape of a texture; only two-dimensional textures occur here.
#[derive(Clone, Copy, PartialEq, Eq, Structural, Debug)]
pub enum TextureKind {
    Texture2D,
}

/// The pixel format of a texture; packed four-byte RGBA.
#[derive(Clone, Copy, PartialEq, Eq, Structural, Debug)]
pub enum PixelFormat {
    Rgba8,
}

/// The description a texture is allocated from.
#[derive(Clone, Copy, PartialEq, Eq, Structural, Debug)]
pub struct TextureInfo {
    pub width: u16,
    pub height: u16,
    pub depth: u16,
    pub mip_min: i8,
    pub mip_max: i8,
    pub kind: TextureKind,
    pub format: PixelFormat,
}

/// The region an upload addresses within a texture.
#[derive(Clone, Copy, PartialEq, Eq, Structural, Debug)]
pub struct ImageInfo {
    pub xoffset: u16,
    pub yoffset: u16,
    pub width: u16,
    pub height: u16,
    pub format: PixelFormat,
    pub mipmap: i8,
}

impl TextureInfo {
    /// The region covering the whole texture at the base mip level.
    pub open spec fn spec_whole_image(self) -> ImageInfo {
        ImageInfo {
            xoffset: 0,
            yoffset: 0,
            width: self.width,
            height: self.height,
            format: self.format,
            mipmap: 0,
        }
    }

    /// Derive the upload region that covers the whole texture.
    pub fn to_image_info(&self) -> (r: ImageInfo)
        ensures
            r == self.spec_whole_image(),
    {
        ImageInfo {
            xoffset: 0,
            yoffset: 0,
            width: self.width,
            height: self.height,
            format: self.format,
            mipmap: 0,
        }
    }

    /// The number of pixels a full upload must supply.
    pub open spec fn pixel_count(self) -> int {
        self.width * self.height
    }
}

/// The failures of a texture upload.
#[derive(Clone, Copy, PartialEq, Eq, Structural, Debug)]
pub enum TextureError {
    /// The supplied pixel data does not hold exactly `width * height` pixels.
    SizeMismatch,
}

/// A texture: its description plus the backing pixel store. Freshly created
/// textures are unpopulated; an upload fills the store in one piece.
pub struct Texture {
    pub info: TextureInfo,
    pub pixels: Vec<u32>,
}

impl View for Texture {
    type V = Seq<u32>;

    open spec fn view(&self) -> Seq<u32> {
        self.pixels@
    }
}

impl Texture {
    /// Allocate a texture from its description; the pixel store starts empty.
    pub fn new(info: TextureInfo) -> (t: Texture)
        ensures
            t.info == info,
            t@ == Seq::<u32>::empty(),
    {
        let t = Texture { info, pixels: Vec::new() };
        proof {
            assert(t@ =~= Seq::<u32>::empty());
        }
        t
    }

    /// Populate the texture. Succeeds exactly when the data holds one pixel
    /// per texel of the addressed region; the stored pixels are the supplied
    /// ones with the alpha channel forced opaque. On failure the texture is
    /// left untouched.
    pub fn update(&mut self, img: ImageInfo, data: &Vec<u32>) -> (r: Result<(), TextureError>)
        requires
            img == old(self).info.spec_whole_image(),
        ensures
            r is Ok <==> data@.len() == old(self).info.pixel_count(),
            r is Ok ==> final(self)@ == data@.map_values(|p: u32| spec_force_opaque(p)),
            r is Err ==> *final(self) == *old(self) && r == Err::<(), TextureError>(TextureError::SizeMismatch),
            final(self).info == old(self).info,
    {
        proof {
            assert((img.width as int) * (img.height as int) <= 65535 * 65535) by (nonlinear_arith)
                requires img.width <= 65535 && img.height <= 65535;
        }
        let expected: usize = (img.width as usize) * (img.height as usize);
        if data.len() != expected {
            return Err(TextureError::SizeMismatch);
        }
        let mut store: Vec<u32> = Vec::new();
        let mut i: usize = 0;
        while i < data.len()
            invariant
                i <= data@.len(),
                store@ == data@.subrange(0, i as int).map_values(|p: u32| spec_force_opaque(p)),
            decreases data@.len() - i,
        {
            store.push(force_opaque(data[i]));
            proof {
                assert(data@.subrange(0, i + 1) =~= data@.subrange(0, i as int).push(data@[i as int]));
                assert(store@ =~= data@.subrange(0, i + 1).map_values(|p: u32| spec_force_opaque(p)));
            }
            i = i + 1;
        }
        proof {
            assert(data@.subrange(0, data@.len() as int) =~= data@);
        }
        self.pixels = store;
        Ok(())
    }

    /// Read the populated pixel store back.
    pub fn read_back(&self) -> (r: &Vec<u32>)
        ensures
            r@ == self@,
    {
        &self.pixels
    }
}

/// The store a successful upload of `data` leaves behind.
pub open spec fn uploaded(data: Seq<u32>) -> Seq<u32> {
    data.map_values(|p: u32| spec_force_opaque(p))
}

/// Uploads round-trip: the store a successful upload leaves behind has one
/// pixel per supplied pixel, each with the same color channels and with the
/// alpha channel forced to 0xFF, whatever alpha the input carried.
pub proof fn lemma_upload_round_trip(data: Seq<u32>)
    ensures
        uploaded(data).len() == data.len(),
        forall|i: int| 0 <= i < data.len()
            ==> crate::pixel::alpha_channel(#[trigger] uploaded(data)[i]) == 0xFF
                && crate::pixel::color_channels(uploaded(data)[i])
                    == crate::pixel::color_channels(data[i]),
{
    assert forall|i: int| 0 <= i < data.len()
        implies crate::pixel::alpha_channel(#[trigger] uploaded(data)[i]) == 0xFF
            && crate::pixel::color_channels(uploaded(data)[i])
                == crate::pixel::color_channels(data[i]) by {
        crate::pixel::lemma_force_opaque_round_trip(data[i]);
    }
}

} // verus!
