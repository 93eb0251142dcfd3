use vstd::prelude::*;

verus! {

/// The bytes that a pixel of a rendered image takes: one each for red,
/// green, blue and alpha.
pub const BYTES_PER_PIXEL: u32 = 4;

/// The most pixels whose bytes can still be counted in 32 bits.
pub const MAX_PIXELS: u64 = 0x3fff_ffff;

/// The number of bytes of an image of `width` by `height` pixels.
pub open spec fn image_bytes(width: int, height: int) -> int {
    width * height * BYTES_PER_PIXEL
}

/// The length in bytes of the buffer that takes up an image of `extent`
/// when it is read back from the device. There is none for an image whose
/// bytes cannot be counted in 32 bits.
pub fn staging_buffer_len(extent: [u32; 2]) -> (len: Option<u64>)
    ensures
        match len {
            Some(len) => len == image_bytes(extent[0] as int, extent[1] as int) && len <= u32::MAX,
            None => image_bytes(extent[0] as int, extent[1] as int) > u32::MAX,
        },
{
    let width = extent[0] as u64;
    let height = extent[1] as u64;
    assert(width * height <= 0xffff_ffff * 0xffff_ffff) by (nonlinear_arith)
        requires
            width <= 0xffff_ffff,
            height <= 0xffff_ffff,
    ;
    let pixels = width * height;
    if pixels > MAX_PIXELS {
        None
    } else {
        Some(pixels * 4)
    }
}

} // verus!
