//! RGBA images in memory: PNG encoding and decoding, and the vertical flip.

use vstd::prelude::*;
use vstd::arithmetic::div_mod::{
    lemma_fundamental_div_mod_converse_div,
    lemma_fundamental_div_mod_converse_mod,
};
use crate::error::CaptureError;

verus! {

/// The error type of the `image` crate.  Nothing is read from it.
#[verifier::external_type_specification]
#[verifier::external_body]
pub struct ExImageError(image::ImageError);

/// The PNG file that the `image` crate's encoder writes for 8-bit RGBA
/// `pixels` of the given size, or `None` where it reports an error.
pub uninterp spec fn png_encoded(pixels: Seq<u8>, width: u32, height: u32) -> Option<Seq<u8>>;

/// The width, the height and the 8-bit RGBA pixels that the `image` crate's
/// PNG decoder reads from `png`, or `None` where it reports an error.
pub uninterp spec fn png_decoded(png: Seq<u8>) -> Option<(u32, u32, Seq<u8>)>;

/// Runs `image::codecs::png::PngEncoder::write_image` with the colour type
/// `Rgba8` into a fresh vector.
///
/// Trusted: the bytes written are a function of the pixels and the size
/// alone, and that function is called `png_encoded`.  The encoder panics on
/// a buffer whose length is not four bytes per pixel, so such a buffer is
/// not admitted.
#[verifier::external_body]
fn encode_rgba8(pixels: &Vec<u8>, width: u32, height: u32) -> (result: Result<
    Vec<u8>,
    image::ImageError,
>)
    requires
        pixels@.len() == 4 * width * height,
    ensures
        match result {
            Ok(png) => png_encoded(pixels@, width, height) == Some(png@),
            Err(_) => png_encoded(pixels@, width, height) is None,
        },
{
    let mut png: Vec<u8> = Vec::new();
    let encoder = image::codecs::png::PngEncoder::new(&mut png);
    image::ImageEncoder::write_image(
        encoder,
        pixels.as_slice(),
        width,
        height,
        image::ExtendedColorType::Rgba8,
    )?;
    Ok(png)
}

/// Runs `image::load_from_memory_with_format` with the format `Png` and
/// hands out the image as 8-bit RGBA (`DynamicImage::into_rgba8`): its
/// width, its height and its bytes.
///
/// Trusted: what is read is a function of the file's bytes alone, and that
/// function is called `png_decoded`.  Nothing is claimed of the size of the
/// pixel buffer.
#[verifier::external_body]
fn decode_rgba8(png: &Vec<u8>) -> (result: Result<(u32, u32, Vec<u8>), image::ImageError>)
    ensures
        match result {
            Ok(parts) => png_decoded(png@) == Some((parts.0, parts.1, parts.2@)),
            Err(_) => png_decoded(png@) is None,
        },
{
    let image = image::load_from_memory_with_format(png.as_slice(), image::ImageFormat::Png)?;
    let image = image.into_rgba8();
    let (width, height) = image.dimensions();
    Ok((width, height, image.into_raw()))
}

/// The size of an output in pixels.
#[derive(Clone, Copy, Debug, PartialEq, Eq, Structural)]
pub struct Resolution {
    pub width: u32,
    pub height: u32,
}

impl Resolution {
    /// An output has at least one column and one row.
    pub open spec fn valid(self) -> bool {
        self.width > 0 && self.height > 0
    }

    /// The number of bytes in one row of pixels.
    pub open spec fn stride(self) -> int {
        4 * self.width
    }

    /// The number of bytes in a frame of this size, four to a pixel.
    pub open spec fn frame_len(self) -> int {
        4 * self.width * self.height
    }

    /// Whether a buffer of `len` bytes is a frame of this size.
    pub open spec fn fits(self, len: nat) -> bool {
        self.valid() && len == self.frame_len()
    }

    /// Tells whether a buffer of `len` bytes is a frame of this size: the
    /// size is not empty and the buffer holds four bytes for each pixel.
    pub fn holds(&self, len: usize) -> (yes: bool)
        ensures
            yes == self.fits(len as nat),
    {
        let width: u128 = self.width as u128;
        let height: u128 = self.height as u128;
        assert(4 * width * height <= 4 * 0xffff_ffff * 0xffff_ffff) by (nonlinear_arith)
            requires
                width <= 0xffff_ffff,
                height <= 0xffff_ffff,
        ;
        self.width > 0 && self.height > 0 && len as u128 == 4 * width * height
    }
}

/// The pixels of an image with its rows in reverse order: the byte in
/// column `x` of row `y` is the old byte in column `x` of row
/// `rows - 1 - y`.  A row is `stride` bytes long.
pub open spec fn flipped_rows(pixels: Seq<u8>, stride: int, rows: int) -> Seq<u8> {
    Seq::new(pixels.len(), |i: int| pixels[(rows - 1 - i / stride) * stride + i % stride])
}

/// Where the byte in column `x` of row `y` stands in a buffer of `rows`
/// rows of `stride` bytes each.
pub proof fn lemma_cell(stride: int, rows: int, y: int, x: int)
    requires
        0 <= y < rows,
        0 <= x < stride,
    ensures
        0 <= y * stride + x < rows * stride,
        (y * stride + x) / stride == y,
        (y * stride + x) % stride == x,
{
    assert(0 <= y * stride && y * stride + stride <= rows * stride) by (nonlinear_arith)
        requires
            0 <= y < rows,
            0 < stride,
    ;
    lemma_fundamental_div_mod_converse_div(y * stride + x, stride, y, x);
    lemma_fundamental_div_mod_converse_mod(y * stride + x, stride, y, x);
}

/// The flipped image, cell by cell.
pub proof fn lemma_flipped_cell(pixels: Seq<u8>, stride: int, rows: int, y: int, x: int)
    requires
        pixels.len() == rows * stride,
        0 <= y < rows,
        0 <= x < stride,
    ensures
        0 <= y * stride + x < pixels.len(),
        0 <= (rows - 1 - y) * stride + x < pixels.len(),
        flipped_rows(pixels, stride, rows)[y * stride + x] == pixels[(rows - 1 - y) * stride + x],
{
    lemma_cell(stride, rows, y, x);
    lemma_cell(stride, rows, rows - 1 - y, x);
}

/// What a [`Raster`] stands for: a size and the bytes of its pixels, row
/// after row from the top, four bytes (red, green, blue, alpha) to a pixel.
pub struct RasterView {
    pub resolution: Resolution,
    pub pixels: Seq<u8>,
}

impl RasterView {
    /// The size is not empty and every pixel has its four bytes.
    pub open spec fn wf(self) -> bool {
        self.resolution.fits(self.pixels.len())
    }

    /// The image upside down.
    pub open spec fn flipped(self) -> RasterView {
        RasterView {
            resolution: self.resolution,
            pixels: flipped_rows(self.pixels, self.resolution.stride(), self.resolution.height as int),
        }
    }
}

/// An 8-bit RGBA image in memory.
#[derive(Clone, Debug, PartialEq, Eq)]
pub struct Raster {
    resolution: Resolution,
    pixels: Vec<u8>,
}

impl View for Raster {
    type V = RasterView;

    closed spec fn view(&self) -> RasterView {
        RasterView { resolution: self.resolution, pixels: self.pixels@ }
    }
}

/// The image that `pixels` and `resolution` make, where they fit.
pub open spec fn raster_of(pixels: Seq<u8>, resolution: Resolution) -> Result<
    RasterView,
    CaptureError,
> {
    if resolution.fits(pixels.len()) {
        Ok(RasterView { resolution, pixels })
    } else {
        Err(CaptureError::EncodeImage)
    }
}

/// The PNG file for an image.
pub open spec fn encoded(image: RasterView) -> Result<Seq<u8>, CaptureError> {
    match png_encoded(image.pixels, image.resolution.width, image.resolution.height) {
        Some(png) => Ok(png),
        None => Err(CaptureError::EncodeImage),
    }
}

/// The image in a PNG file.  A file whose pixel data does not match its
/// size counts as unreadable.
pub open spec fn decoded(png: Seq<u8>) -> Result<RasterView, CaptureError> {
    match png_decoded(png) {
        Some((width, height, pixels)) => {
            let resolution = Resolution { width, height };
            if resolution.fits(pixels.len()) {
                Ok(RasterView { resolution, pixels })
            } else {
                Err(CaptureError::ReadEncoded)
            }
        },
        None => Err(CaptureError::ReadEncoded),
    }
}

impl Raster {
    /// Makes an image of `pixels`, which must be a frame of the size
    /// `resolution`; fails with `EncodeImage` where the size is empty or the
    /// buffer has another length than four bytes per pixel.
    pub fn from_rgba8(pixels: Vec<u8>, resolution: Resolution) -> (result: Result<
        Raster,
        CaptureError,
    >)
        ensures
            match result {
                Ok(image) => raster_of(pixels@, resolution) == Ok::<RasterView, CaptureError>(
                    image@,
                ),
                Err(e) => raster_of(pixels@, resolution) == Err::<RasterView, CaptureError>(e),
            },
            result is Ok ==> result->Ok_0@.wf(),
    {
        if resolution.holds(pixels.len()) {
            Ok(Raster { resolution, pixels })
        } else {
            Err(CaptureError::EncodeImage)
        }
    }

    /// The size of the image.
    pub fn resolution(&self) -> (resolution: Resolution)
        ensures
            resolution == self@.resolution,
    {
        self.resolution
    }

    /// The bytes of the pixels, row after row from the top.
    pub fn pixels(&self) -> (pixels: &Vec<u8>)
        ensures
            pixels@ == self@.pixels,
    {
        &self.pixels
    }

    /// Gives up the image for the bytes of its pixels.
    pub fn into_pixels(self) -> (pixels: Vec<u8>)
        ensures
            pixels@ == self@.pixels,
    {
        self.pixels
    }

    /// The image upside down: the top row becomes the bottom row.
    pub fn flipv(&self) -> (flipped: Raster)
        requires
            self@.wf(),
        ensures
            flipped@ == self@.flipped(),
            flipped@.wf(),
    {
        let ghost stride_i = self@.resolution.stride();
        let ghost rows_i = self.resolution.height as int;
        let total: usize = self.pixels.len();
        assert(4 * self.resolution.width <= self.pixels@.len()) by (nonlinear_arith)
            requires
                self.pixels@.len() == 4 * self.resolution.width * self.resolution.height,
                self.resolution.height > 0,
        ;
        assert(self.pixels@.len() == rows_i * stride_i) by (nonlinear_arith)
            requires
                self.pixels@.len() == 4 * self.resolution.width * self.resolution.height,
                stride_i == 4 * self.resolution.width,
                rows_i == self.resolution.height,
        ;
        let stride: usize = 4 * (self.resolution.width as usize);
        let rows: usize = self.resolution.height as usize;
        let mut out: Vec<u8> = Vec::with_capacity(total);
        let mut y: usize = 0;
        while y < rows
            invariant
                stride == stride_i,
                rows == rows_i,
                0 < stride,
                y <= rows,
                self.pixels@.len() == rows * stride,
                self.pixels@.len() == total,
                out@.len() == y * stride,
                forall|k: int|
                    0 <= k < out@.len() ==> out@[k] == flipped_rows(self.pixels@, stride_i, rows_i)[k],
            decreases rows - y,
        {
            proof {
                lemma_cell(stride_i, rows_i, rows - 1 - y, 0);
                lemma_cell(stride_i, rows_i, y as int, 0);
            }
            let from: usize = (rows - 1 - y) * stride;
            let mut x: usize = 0;
            while x < stride
                invariant
                    stride == stride_i,
                    rows == rows_i,
                    y < rows,
                    x <= stride,
                    from == (rows - 1 - y) * stride,
                    self.pixels@.len() == rows * stride,
                    self.pixels@.len() == total,
                    out@.len() == y * stride + x,
                    forall|k: int|
                        0 <= k < out@.len() ==> out@[k] == flipped_rows(
                            self.pixels@,
                            stride_i,
                            rows_i,
                        )[k],
                decreases stride - x,
            {
                proof {
                    lemma_flipped_cell(self.pixels@, stride_i, rows_i, y as int, x as int);
                }
                out.push(self.pixels[from + x]);
                x += 1;
            }
            proof {
                assert((y + 1) * stride == y * stride + stride) by (nonlinear_arith);
            }
            y += 1;
        }
        assert(out@ =~= flipped_rows(self.pixels@, stride_i, rows_i));
        Raster { resolution: self.resolution, pixels: out }
    }

    /// Encodes the image as a PNG file with four 8-bit channels; fails with
    /// `EncodeImage` where the encoder reports an error.
    pub fn encode(&self) -> (result: Result<Vec<u8>, CaptureError>)
        requires
            self@.wf(),
        ensures
            match result {
                Ok(png) => encoded(self@) == Ok::<Seq<u8>, CaptureError>(png@),
                Err(e) => encoded(self@) == Err::<Seq<u8>, CaptureError>(e),
            },
    {
        match encode_rgba8(&self.pixels, self.resolution.width, self.resolution.height) {
            Ok(png) => Ok(png),
            Err(_) => Err(CaptureError::EncodeImage),
        }
    }

    /// Reads the image in a PNG file; fails with `ReadEncoded` where the
    /// decoder reports an error or hands out pixels that do not match the
    /// size it gives.
    pub fn decode(png: &Vec<u8>) -> (result: Result<Raster, CaptureError>)
        ensures
            match result {
                Ok(image) => decoded(png@) == Ok::<RasterView, CaptureError>(image@),
                Err(e) => decoded(png@) == Err::<RasterView, CaptureError>(e),
            },
            result is Ok ==> result->Ok_0@.wf(),
    {
        match decode_rgba8(png) {
            Ok((width, height, pixels)) => {
                match Raster::from_rgba8(pixels, Resolution { width, height }) {
                    Ok(image) => Ok(image),
                    Err(_) => Err(CaptureError::ReadEncoded),
                }
            },
            Err(_) => Err(CaptureError::ReadEncoded),
        }
    }
}

/// The finished file for a frame of RGBA pixels: the frame is encoded, read
/// back, turned upside down and encoded again.  The first failure ends it.
pub open spec fn rendered(pixels: Seq<u8>, resolution: Resolution) -> Result<
    Seq<u8>,
    CaptureError,
> {
    match raster_of(pixels, resolution) {
        Err(e) => Err(e),
        Ok(image) => match encoded(image) {
            Err(e) => Err(e),
            Ok(png) => match decoded(png) {
                Err(e) => Err(e),
                Ok(read) => encoded(read.flipped()),
            },
        },
    }
}

/// A frame never renders at an empty size or with a length other than four
/// bytes per pixel: the outcome is `EncodeImage`, whatever the encoder does.
pub proof fn lemma_misfit_never_renders(pixels: Seq<u8>, resolution: Resolution)
    requires
        resolution.width == 0 || resolution.height == 0 || pixels.len() != 4 * resolution.width
            * resolution.height,
    ensures
        rendered(pixels, resolution) == Err::<Seq<u8>, CaptureError>(CaptureError::EncodeImage),
{
}

/// Turns a frame of RGBA pixels into the bytes of the PNG file to write.
///
/// The frame is encoded with four 8-bit channels at the size `resolution`,
/// read back, flipped vertically and encoded again.  Fails with
/// `EncodeImage` where the size is empty, the frame has another length than
/// four bytes per pixel, or the encoder reports an error, and with
/// `ReadEncoded` where the encoded image cannot be read back.
pub fn render(pixels: Vec<u8>, resolution: Resolution) -> (result: Result<Vec<u8>, CaptureError>)
    ensures
        match result {
            Ok(file) => rendered(pixels@, resolution) == Ok::<Seq<u8>, CaptureError>(file@),
            Err(e) => rendered(pixels@, resolution) == Err::<Seq<u8>, CaptureError>(e),
        },
        !resolution.fits(pixels@.len()) ==> result == Err::<Vec<u8>, CaptureError>(
            CaptureError::EncodeImage,
        ),
{
    let image = Raster::from_rgba8(pixels, resolution)?;
    let png = image.encode()?;
    let read = Raster::decode(&png)?;
    read.flipv().encode()
}

} // verus!
