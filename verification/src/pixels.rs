//! Tightly packed RGBA8 pixel buffers and the three image operations the
//! avatar needs: decoding the artwork, stretching it to the frame size and
//! darkening it.
//!
//! The operations themselves are done by the `image` crate. Each call into it
//! is a small function whose contract is taken on trust; everything around
//! the calls is verified against those contracts.

use vstd::prelude::*;
use image::imageops::FilterType;
use image::{ImageBuffer, ImageError, Rgba};
use crate::error::SetupError;

verus! {

#[verifier::external_type_specification]
#[verifier::external_body]
pub struct ExImageError(ImageError);

/// What `image::load_from_memory` makes of the given bytes, as RGBA8: width,
/// height and the packed pixel rows, or `None` where it reports an error.
pub uninterp spec fn decoded_artwork(bytes: Seq<u8>) -> Option<(u32, u32, Seq<u8>)>;

/// The pixel rows that `image::imageops::resize` with the nearest-neighbour
/// filter returns for an RGBA8 image of `width` x `height` stretched to
/// `new_width` x `new_height`.
pub uninterp spec fn nearest_resized(
    width: u32,
    height: u32,
    pixels: Seq<u8>,
    new_width: u32,
    new_height: u32,
) -> Seq<u8>;

/// The number of bytes of a packed RGBA8 image: four for each pixel.
pub open spec fn packed_len(width: u32, height: u32) -> nat {
    (4 * width * height) as nat
}

/// One colour channel moved by `shift` and clamped to the range of a byte.
pub open spec fn shifted_channel(channel: u8, shift: int) -> u8 {
    let moved = channel + shift;
    if moved < 0 {
        0u8
    } else if moved > 255 {
        255u8
    } else {
        moved as u8
    }
}

/// Packed RGBA8 pixels with every colour channel moved by `shift` and the
/// alpha channel left alone.
pub open spec fn brightened(pixels: Seq<u8>, shift: int) -> Seq<u8> {
    Seq::new(
        pixels.len(),
        |i: int|
            if i % 4 == 3 {
                pixels[i]
            } else {
                shifted_channel(pixels[i], shift)
            },
    )
}

/// Whether the buffers needed to stretch an image of the given width to
/// `new_width` x `new_height` can be addressed: the stretch goes through an
/// intermediate image of `width` x `new_height` pixels of four 32-bit
/// channels each.
pub open spec fn stretch_fits(width: u32, new_width: u32, new_height: u32) -> bool {
    &&& 16 * width * new_height <= isize::MAX
    &&& 4 * new_width * new_height <= isize::MAX
}

/// What stretching an image to a new size yields: the stretched pixel rows,
/// or the reason why the image cannot be stretched.
pub open spec fn stretched(
    width: u32,
    height: u32,
    pixels: Seq<u8>,
    new_width: u32,
    new_height: u32,
) -> Result<Seq<u8>, SetupError> {
    if width == 0 || height == 0 {
        Err(SetupError::ArtworkEmpty)
    } else if !stretch_fits(width, new_width, new_height) {
        Err(SetupError::ArtworkTooLarge)
    } else {
        Ok(nearest_resized(width, height, pixels, new_width, new_height))
    }
}

/// Calls `image::load_from_memory` and converts the image to RGBA8 with
/// `DynamicImage::to_rgba8`.
///
/// Trusted: the outcome depends on the bytes alone, which is what tying it to
/// `decoded_artwork` says, and the converted image holds exactly four bytes
/// per pixel, because `to_rgba8` fills a buffer that `ImageBuffer::new` made
/// for the image's own width and height.
#[verifier::external_body]
fn decode_rgba(bytes: &[u8]) -> (r: Result<(u32, u32, Vec<u8>), ImageError>)
    ensures
        match r {
            Ok(img) => decoded_artwork(bytes@) == Some((img.0, img.1, img.2@)) && img.2@.len()
                == packed_len(img.0, img.1),
            Err(_) => decoded_artwork(bytes@) is None,
        },
{
    let rgba = image::load_from_memory(bytes)?.to_rgba8();
    Ok((rgba.width(), rgba.height(), rgba.into_raw()))
}

/// Calls `image::imageops::resize` with `FilterType::Nearest`.
///
/// Trusted: the result depends on the arguments alone and is the buffer of an
/// image of exactly the new size. The preconditions keep the call away from
/// its panics: the source holds a pixel, the slice covers the source image,
/// and neither the intermediate image nor the result is larger than a `Vec`
/// can be.
#[verifier::external_body]
fn resize_nearest(width: u32, height: u32, pixels: &[u8], new_width: u32, new_height: u32) -> (out:
    Vec<u8>)
    requires
        width > 0,
        height > 0,
        pixels@.len() == packed_len(width, height),
        stretch_fits(width, new_width, new_height),
    ensures
        out@ == nearest_resized(width, height, pixels@, new_width, new_height),
        out@.len() == packed_len(new_width, new_height),
{
    let source = ImageBuffer::<Rgba<u8>, &[u8]>::from_raw(width, height, pixels).unwrap();
    image::imageops::resize(&source, new_width, new_height, FilterType::Nearest).into_raw()
}

/// Calls `image::imageops::brighten`.
///
/// Trusted: every colour channel of every pixel becomes the old value plus
/// `value`, clamped to `0..=255`; the alpha channel is copied. The
/// preconditions keep the call away from its panics: the image holds a pixel,
/// the slice covers it, and adding `value` to a channel cannot overflow an
/// `i32`.
#[verifier::external_body]
fn brighten_rgba(width: u32, height: u32, pixels: &[u8], value: i32) -> (out: Vec<u8>)
    requires
        width > 0,
        height > 0,
        pixels@.len() == packed_len(width, height),
        value + 255 <= i32::MAX,
    ensures
        out@ == brightened(pixels@, value as int),
{
    let source = ImageBuffer::<Rgba<u8>, &[u8]>::from_raw(width, height, pixels).unwrap();
    image::imageops::brighten(&source, value).into_raw()
}

/// An image of `width` x `height` RGBA8 pixels, stored row by row without
/// padding: the row stride is `4 * width` bytes.
pub struct PixelBuffer {
    width: u32,
    height: u32,
    data: Vec<u8>,
}

/// `4 * width * height`, which always fits in 128 bits.
fn packed_len_of(width: u32, height: u32) -> (n: u128)
    ensures
        n == packed_len(width, height),
        n <= 4 * 0xFFFF_FFFF * 0xFFFF_FFFF,
{
    let w: u128 = width as u128;
    let h: u128 = height as u128;
    assert(w * h <= 0xFFFF_FFFF * 0xFFFF_FFFF) by (nonlinear_arith)
        requires
            w <= 0xFFFF_FFFF,
            h <= 0xFFFF_FFFF,
    ;
    assert(4 * (w * h) == 4 * w * h) by (nonlinear_arith);
    4 * (w * h)
}

impl View for PixelBuffer {
    type V = Seq<u8>;

    /// The packed pixel rows.
    closed spec fn view(&self) -> Seq<u8> {
        self.data@
    }
}

impl PixelBuffer {
    /// The buffer holds exactly the pixels of an image of its size.
    #[verifier::type_invariant]
    pub closed spec fn wf(&self) -> bool {
        self.data@.len() == packed_len(self.width, self.height)
    }

    /// Width in pixels.
    pub closed spec fn spec_width(&self) -> u32 {
        self.width
    }

    /// Height in pixels.
    pub closed spec fn spec_height(&self) -> u32 {
        self.height
    }

    /// Wraps packed RGBA8 rows. `None` exactly when the number of bytes is
    /// not that of an image of the given size.
    pub fn new(width: u32, height: u32, data: Vec<u8>) -> (r: Option<PixelBuffer>)
        ensures
            r is Some <==> data@.len() == packed_len(width, height),
            r matches Some(p) ==> p.wf() && p.spec_width() == width && p.spec_height() == height
                && p@ == data@,
    {
        if data.len() as u128 == packed_len_of(width, height) {
            Some(PixelBuffer { width, height, data })
        } else {
            None
        }
    }

    /// Decodes artwork into RGBA8 pixels. Fails exactly when the bytes are
    /// not an image that can be decoded.
    pub fn decode(bytes: &[u8]) -> (r: Result<PixelBuffer, SetupError>)
        ensures
            match r {
                Ok(p) => p.wf() && decoded_artwork(bytes@) == Some((p.width(), p.height(), p@)),
                Err(e) => decoded_artwork(bytes@) is None && e == SetupError::ArtworkUndecodable,
            },
    {
        match decode_rgba(bytes) {
            Ok((width, height, data)) => Ok(PixelBuffer { width, height, data }),
            Err(_) => Err(SetupError::ArtworkUndecodable),
        }
    }

    /// A copy stretched to `width` x `height` by nearest-neighbour sampling,
    /// whatever the aspect ratio of `self`. Fails on an image without pixels
    /// and where the stretch would need a buffer beyond the address space.
    pub fn resized(&self, width: u32, height: u32) -> (r: Result<PixelBuffer, SetupError>)
        ensures
            match r {
                Ok(p) => p.wf() && p.width() == width && p.height() == height && stretched(
                    self.width(),
                    self.height(),
                    self@,
                    width,
                    height,
                ) == Ok::<Seq<u8>, SetupError>(p@),
                Err(e) => stretched(self.width(), self.height(), self@, width, height) == Err::<
                    Seq<u8>,
                    SetupError,
                >(e),
            },
    {
        proof {
            use_type_invariant(self);
        }
        if self.width == 0 || self.height == 0 {
            return Err(SetupError::ArtworkEmpty);
        }
        let limit: u128 = isize::MAX as u128;
        let between: u128 = packed_len_of(self.width, height);
        let after: u128 = packed_len_of(width, height);
        assert(16 * self.width * height == 4 * (4 * self.width * height)) by (nonlinear_arith);
        if 4 * between > limit || after > limit {
            return Err(SetupError::ArtworkTooLarge);
        }
        let data = resize_nearest(self.width, self.height, self.data.as_slice(), width, height);
        Ok(PixelBuffer { width, height, data })
    }

    /// A copy with every colour channel moved by `shift`, clamped to the
    /// range of a byte, and the alpha channel unchanged.
    pub fn shifted(&self, shift: i16) -> (r: PixelBuffer)
        ensures
            r.wf(),
            r.width() == self.width(),
            r.height() == self.height(),
            r@ == brightened(self@, shift as int),
    {
        proof {
            use_type_invariant(self);
        }
        if self.width == 0 || self.height == 0 {
            assert(packed_len(self.width, self.height) == 0) by (nonlinear_arith)
                requires
                    self.width == 0 || self.height == 0,
            ;
            let data: Vec<u8> = Vec::new();
            assert(data@ =~= brightened(self.data@, shift as int));
            PixelBuffer { width: self.width, height: self.height, data }
        } else {
            let data = brighten_rgba(self.width, self.height, self.data.as_slice(), shift as i32);
            PixelBuffer { width: self.width, height: self.height, data }
        }
    }

    /// A well-formed buffer holds four bytes for each of its pixels.
    pub proof fn lemma_len(self)
        requires
            self.wf(),
        ensures
            self@.len() == packed_len(self.width(), self.height()),
    {
    }

    /// Width in pixels.
    #[verifier::when_used_as_spec(spec_width)]
    pub fn width(&self) -> (w: u32)
        ensures
            w == self.spec_width(),
    {
        self.width
    }

    /// Height in pixels.
    #[verifier::when_used_as_spec(spec_height)]
    pub fn height(&self) -> (h: u32)
        ensures
            h == self.spec_height(),
    {
        self.height
    }

    /// The packed pixel rows, ready to be uploaded.
    pub fn bytes(&self) -> (b: &[u8])
        ensures
            b@ == self@,
            b@.len() == packed_len(self.width(), self.height()),
    {
        proof {
            use_type_invariant(self);
        }
        self.data.as_slice()
    }

    /// Bytes from the start of one row to the start of the next.
    pub fn row_stride(&self) -> (s: u64)
        ensures
            s == 4 * self.width(),
    {
        4 * (self.width as u64)
    }
}

} // verus!
