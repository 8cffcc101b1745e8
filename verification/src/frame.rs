//! The frame buffer: an RGBA image of the `image` crate, and the texture
//! data that `glium` takes.

use vstd::prelude::*;

verus! {

#[verifier::external_type_specification]
#[verifier::external_body]
#[verifier::reject_recursive_types(T)]
pub struct ExRawImage2d<'a, T: Clone>(glium::texture::RawImage2d<'a, T>);

/// Width and height of the frame, in pixels.
pub const FRAME_SIDE: u32 = 256;

/// Number of bytes in a frame: four for each pixel.
pub const FRAME_BYTES: usize = 262144;

/// An RGBA image of the `image` crate, `ImageBuffer<Rgba<u8>, Vec<u8>>`.
#[verifier::external_body]
pub struct FrameBuffer {
    image: image::ImageBuffer<image::Rgba<u8>, Vec<u8>>,
}

/// The bytes of an image buffer, row by row from the top, four to a pixel:
/// red, green, blue, alpha.
pub uninterp spec fn frame_bytes(frame: FrameBuffer) -> Seq<u8>;

/// The width and the height in pixels that an image buffer was made with.
pub uninterp spec fn frame_sides(frame: FrameBuffer) -> (nat, nat);

/// What a texture holds: its bytes, row by row from the bottom, and its
/// width and height in pixels.
pub uninterp spec fn texture_content(texture: glium::texture::RawImage2d<'static, u8>) -> (
    Seq<u8>,
    nat,
    nat,
);

/// The index in a frame's bytes of the first byte of the pixel at column
/// `x` of row `y`.
pub open spec fn spec_pixel_offset(x: int, y: int) -> int {
    (y * FRAME_SIDE + x) * 4
}

/// The bytes of a frame with its rows in the opposite order.
pub open spec fn spec_flip_rows(bytes: Seq<u8>) -> Seq<u8> {
    Seq::new(
        bytes.len(),
        |i: int| bytes[(FRAME_SIDE - 1 - i / (FRAME_SIDE * 4)) * (FRAME_SIDE * 4) + i % (FRAME_SIDE * 4)],
    )
}

impl FrameBuffer {
    /// Whether the buffer has the frame's width and height, and with them
    /// its number of bytes.
    pub open spec fn wf(self) -> bool {
        &&& frame_sides(self) == (FRAME_SIDE as nat, FRAME_SIDE as nat)
        &&& frame_bytes(self).len() == FRAME_BYTES
    }

    /// `image::ImageBuffer::new` with both sides 256: a buffer of that
    /// width and height whose bytes are all zero.
    #[verifier::external_body]
    pub(crate) fn new() -> (frame: FrameBuffer)
        ensures
            frame_sides(frame) == (FRAME_SIDE as nat, FRAME_SIDE as nat),
            frame_bytes(frame) == Seq::new(FRAME_BYTES as nat, |i: int| 0u8),
    {
        FrameBuffer { image: image::ImageBuffer::new(FRAME_SIDE, FRAME_SIDE) }
    }

    /// `image::ImageBuffer::put_pixel` with an `Rgba` pixel: the four bytes
    /// of the pixel at column `x` of row `y` are replaced, the others and
    /// the buffer's sides stay. The pixel must lie inside the buffer.
    #[verifier::external_body]
    pub(crate) fn put_pixel(&mut self, x: u32, y: u32, red: u8, green: u8, blue: u8, alpha: u8)
        requires
            x < frame_sides(*old(self)).0,
            y < frame_sides(*old(self)).1,
        ensures
            frame_sides(*final(self)) == frame_sides(*old(self)),
            frame_bytes(*final(self)) == frame_bytes(*old(self)).update(
                (y * frame_sides(*old(self)).0 + x) * 4,
                red,
            ).update((y * frame_sides(*old(self)).0 + x) * 4 + 1, green).update(
                (y * frame_sides(*old(self)).0 + x) * 4 + 2,
                blue,
            ).update((y * frame_sides(*old(self)).0 + x) * 4 + 3, alpha),
    {
        self.image.put_pixel(x, y, image::Rgba([red, green, blue, alpha]));
    }

    /// `image::ImageBuffer::into_raw` on a clone of the buffer: its bytes.
    #[verifier::external_body]
    pub(crate) fn to_raw(&self) -> (bytes: Vec<u8>)
        ensures
            bytes@ == frame_bytes(*self),
    {
        self.image.clone().into_raw()
    }
}

/// `glium::texture::RawImage2d::from_raw_rgba_reversed` on a frame's
/// bytes: a texture of the frame's width and height that holds the
/// frame's rows in the opposite order, since a texture starts at the
/// bottom.
#[verifier::external_body]
pub(crate) fn flipped_texture(bytes: &Vec<u8>) -> (texture: glium::texture::RawImage2d<'static, u8>)
    requires
        bytes@.len() == FRAME_BYTES,
    ensures
        texture_content(texture) == (
            spec_flip_rows(bytes@),
            FRAME_SIDE as nat,
            FRAME_SIDE as nat,
        ),
{
    glium::texture::RawImage2d::from_raw_rgba_reversed(bytes.as_slice(), (FRAME_SIDE, FRAME_SIDE))
}

} // verus!
