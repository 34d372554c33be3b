//! Export image formats and the encoding of pixels into their sample bytes.
use vstd::prelude::*;
use vstd::arithmetic::power2::pow2;

use crate::container::{png_gray, png_gray_of};
use crate::gamma::{gamma_sample, GammaCurve8};
use crate::raster::{subsample_view, window_view, Raster};
use crate::window::Window;

verus! {

/// Exportable canvas image formats.
#[derive(Debug, Clone, Copy, PartialEq, Eq, Structural)]
#[non_exhaustive]
pub enum ImageFormat {
    /// 8-bit gamma-compressed grayscale RAW
    RawGamma8Bpp,
    /// 10-bit linear light grayscale little-endian RAW
    RawLinear10BppLE,
    /// 12-bit linear light grayscale little-endian RAW
    RawLinear12BppLE,
    /// 8-bit gamma-compressed grayscale PNG
    PngGamma8Bpp,
    /// 16-bit linear light grayscale PNG
    PngLinear16Bpp,
}

/// Image export encoder error type.
#[derive(Debug, Clone, Copy, PartialEq, Eq, Hash, Structural)]
#[non_exhaustive]
pub enum EncoderError {
    /// Requested image format not supported
    NotImplemented,
    /// Requested image window is out of bounds
    BrokenWindow,
    /// The PNG encoder refused the image, as it does one without pixels
    Unencodable,
}

/// One gamma-compressed byte per pixel.
pub open spec fn gamma8_bytes(lut: Seq<u8>, pix: Seq<u16>) -> Seq<u8> {
    Seq::new(pix.len(), |k: int| gamma_sample(lut, pix[k]))
}

/// The `bits` most significant bits of each pixel, as two little-endian
/// bytes per pixel.
pub open spec fn linear_le_bytes(pix: Seq<u16>, bits: nat) -> Seq<u8> {
    Seq::new(
        2 * pix.len(),
        |k: int|
            {
                let v = pix[k / 2] as nat / pow2((16 - bits) as nat);
                if k % 2 == 0 {
                    (v % 256) as u8
                } else {
                    (v / 256) as u8
                }
            },
    )
}

/// Each pixel as two big-endian bytes.
pub open spec fn be16_bytes(pix: Seq<u16>) -> Seq<u8> {
    Seq::new(
        2 * pix.len(),
        |k: int|
            if k % 2 == 0 {
                (pix[k / 2] / 256) as u8
            } else {
                (pix[k / 2] % 256) as u8
            },
    )
}

/// The sample bytes of `pix` in `format`: the whole file for a RAW
/// format, the image data that the PNG container holds for a PNG format.
pub open spec fn format_samples(format: ImageFormat, lut: Seq<u8>, pix: Seq<u16>) -> Seq<u8> {
    match format {
        ImageFormat::RawGamma8Bpp => gamma8_bytes(lut, pix),
        ImageFormat::RawLinear10BppLE => linear_le_bytes(pix, 10),
        ImageFormat::RawLinear12BppLE => linear_le_bytes(pix, 12),
        ImageFormat::PngGamma8Bpp => gamma8_bytes(lut, pix),
        ImageFormat::PngLinear16Bpp => be16_bytes(pix),
    }
}

/// The exported file of a `width` x `height` image with sample bytes
/// `samples`: the samples themselves for a RAW format, their PNG container
/// for a PNG format.
pub open spec fn image_of(format: ImageFormat, width: u32, height: u32, samples: Seq<u8>) -> Seq<u8> {
    if format.spec_is_png() {
        png_gray_of(width, height, format.spec_png_bits(), format.spec_png_gamma(), samples)
    } else {
        samples
    }
}

impl ImageFormat {
    /// The format is a PNG container.
    pub open spec fn spec_is_png(self) -> bool {
        self is PngGamma8Bpp || self is PngLinear16Bpp
    }

    /// Bits per sample that a PNG file of the format declares.
    pub open spec fn spec_png_bits(self) -> u8 {
        if self is PngLinear16Bpp {
            16
        } else {
            8
        }
    }

    /// Source gamma, in units of 1/100000, that a PNG file of the format
    /// declares: linear light for 16-bit samples, 1/2.2 (rounded) for
    /// gamma-compressed 8-bit samples.
    pub open spec fn spec_png_gamma(self) -> u32 {
        if self is PngLinear16Bpp {
            100000
        } else {
            45455
        }
    }

    /// Checks if the format is a PNG container.
    pub fn is_png(&self) -> (r: bool)
        ensures
            r == self.spec_is_png(),
    {
        match self {
            ImageFormat::PngGamma8Bpp | ImageFormat::PngLinear16Bpp => true,
            _ => false,
        }
    }
}

/// Encodes pixels as gamma-compressed 8-bit samples.
pub fn encode_gamma8(curve: &GammaCurve8, pixels: &[u16]) -> (r: Vec<u8>)
    requires
        curve.wf(),
    ensures
        r@ == gamma8_bytes(curve@, pixels@),
{
    let mut out: Vec<u8> = Vec::with_capacity(pixels.len());
    let mut k: usize = 0;
    while k < pixels.len()
        invariant
            curve.wf(),
            0 <= k <= pixels@.len(),
            out@ == gamma8_bytes(curve@, pixels@.take(k as int)),
        decreases pixels@.len() - k,
    {
        out.push(curve.transform(pixels[k]));
        k = k + 1;
        assert(out@ =~= gamma8_bytes(curve@, pixels@.take(k as int)));
    }
    assert(pixels@.take(pixels@.len() as int) =~= pixels@);
    out
}

/// Encodes pixels as `bits`-bit linear light little-endian samples, two
/// bytes each.
pub fn encode_linear_le(pixels: &[u16], bits: u16) -> (r: Vec<u8>)
    requires
        9 <= bits <= 16,
    ensures
        r@ == linear_le_bytes(pixels@, bits as nat),
{
    let shift: u16 = 16 - bits;
    let mut out: Vec<u8> = Vec::new();
    let mut k: usize = 0;
    while k < pixels.len()
        invariant
            9 <= bits <= 16,
            shift == 16 - bits,
            0 <= k <= pixels@.len(),
            out@ == linear_le_bytes(pixels@.take(k as int), bits as nat),
        decreases pixels@.len() - k,
    {
        let p = pixels[k];
        let v = p >> shift;
        proof {
            vstd::bits::lemma_u16_shr_is_div(p, shift);
        }
        out.push((v % 256) as u8);
        out.push((v / 256) as u8);
        k = k + 1;
        assert(out@ =~= linear_le_bytes(pixels@.take(k as int), bits as nat));
    }
    assert(pixels@.take(pixels@.len() as int) =~= pixels@);
    out
}

/// Encodes pixels as 16-bit big-endian samples.
pub fn encode_be16(pixels: &[u16]) -> (r: Vec<u8>)
    ensures
        r@ == be16_bytes(pixels@),
{
    let mut out: Vec<u8> = Vec::new();
    let mut k: usize = 0;
    while k < pixels.len()
        invariant
            0 <= k <= pixels@.len(),
            out@ == be16_bytes(pixels@.take(k as int)),
        decreases pixels@.len() - k,
    {
        let p = pixels[k];
        out.push((p / 256) as u8);
        out.push((p % 256) as u8);
        k = k + 1;
        assert(out@ =~= be16_bytes(pixels@.take(k as int)));
    }
    assert(pixels@.take(pixels@.len() as int) =~= pixels@);
    out
}

/// Encodes pixels into the sample bytes of `format`.
pub fn encode_samples(format: ImageFormat, curve: &GammaCurve8, pixels: &[u16]) -> (r: Vec<u8>)
    requires
        curve.wf(),
    ensures
        r@ == format_samples(format, curve@, pixels@),
{
    match format {
        ImageFormat::RawGamma8Bpp => encode_gamma8(curve, pixels),
        ImageFormat::RawLinear10BppLE => encode_linear_le(pixels, 10),
        ImageFormat::RawLinear12BppLE => encode_linear_le(pixels, 12),
        ImageFormat::PngGamma8Bpp => encode_gamma8(curve, pixels),
        ImageFormat::PngLinear16Bpp => encode_be16(pixels),
    }
}

/// The export result for what the PNG encoder returned: its file, or
/// [`EncoderError::Unencodable`] where it refused.
pub fn png_result(encoded: Option<Vec<u8>>) -> (r: Result<Vec<u8>, EncoderError>)
    ensures
        encoded matches Some(v) ==> r matches Ok(w) && w@ == v@,
        encoded is None ==> r == Err::<Vec<u8>, EncoderError>(EncoderError::Unencodable),
{
    match encoded {
        Some(v) => Ok(v),
        None => Err(EncoderError::Unencodable),
    }
}

/// Puts the sample bytes of a `width` x `height` image into the file of
/// `format`: as they are for RAW, in a PNG container for PNG.
fn finish_image(format: ImageFormat, width: u32, height: u32, samples: Vec<u8>) -> (r: Result<
    Vec<u8>,
    EncoderError,
>)
    ensures
        !format.spec_is_png() ==> r is Ok,
        r matches Ok(v) ==> v@ == image_of(format, width, height, samples@),
        r matches Err(e) ==> e == EncoderError::Unencodable,
{
    match format {
        ImageFormat::PngGamma8Bpp => png_result(png_gray(width, height, 8, 45455, samples.as_slice())),
        ImageFormat::PngLinear16Bpp => png_result(
            png_gray(width, height, 16, 100000, samples.as_slice()),
        ),
        _ => Ok(samples),
    }
}

impl Raster {
    /// Exports the canvas contents in the requested image format.
    ///
    /// A RAW export always succeeds; a PNG export fails only where the PNG
    /// encoder refuses the image.
    pub fn export_image(&self, format: ImageFormat, curve: &GammaCurve8) -> (r: Result<
        Vec<u8>,
        EncoderError,
    >)
        requires
            self.wf(),
            curve.wf(),
        ensures
            !format.spec_is_png() ==> r is Ok,
            r matches Ok(v) ==> v@ == image_of(
                format,
                self.spec_width() as u32,
                self.spec_height() as u32,
                format_samples(format, curve@, self@),
            ),
            r matches Err(e) ==> e == EncoderError::Unencodable,
    {
        let (width, height) = self.dimensions();
        proof {
            crate::raster::lemma_full_window(self@, width, height);
        }
        self.export_window_image(Window::new(width, height), format, curve)
    }

    /// Exports a window of the canvas in the requested image format.
    ///
    /// Fails with [`EncoderError::BrokenWindow`] exactly when the window
    /// reaches beyond the canvas; otherwise as [`Raster::export_image`]
    /// does on the window's pixels.
    pub fn export_window_image(&self, win: Window, format: ImageFormat, curve: &GammaCurve8) -> (r:
        Result<Vec<u8>, EncoderError>)
        requires
            self.wf(),
            curve.wf(),
        ensures
            !win.spec_inside(self.spec_width() as int, self.spec_height() as int) ==> r
                == Err::<Vec<u8>, EncoderError>(EncoderError::BrokenWindow),
            win.spec_inside(self.spec_width() as int, self.spec_height() as int)
                && !format.spec_is_png() ==> r is Ok,
            r matches Ok(v) ==> v@ == image_of(
                format,
                win.w,
                win.h,
                format_samples(format, curve@, window_view(self@, self.spec_width() as int, win)),
            ),
            r matches Err(e) ==> (if win.spec_inside(
                self.spec_width() as int,
                self.spec_height() as int,
            ) {
                e == EncoderError::Unencodable
            } else {
                e == EncoderError::BrokenWindow
            }),
    {
        match self.window_pixels(win) {
            Some(pix) => finish_image(format, win.w, win.h, encode_samples(format, curve, pix.as_slice())),
            None => Err(EncoderError::BrokenWindow),
        }
    }

    /// Exports the canvas subsampled by the integer factors `(fx, fy)` in
    /// the requested image format: an image of `width / fx` x
    /// `height / fy` pixels.
    pub fn export_subsampled_image(
        &self,
        factors: (u32, u32),
        format: ImageFormat,
        curve: &GammaCurve8,
    ) -> (r: Result<Vec<u8>, EncoderError>)
        requires
            self.wf(),
            curve.wf(),
            factors.0 > 0,
            factors.1 > 0,
        ensures
            !format.spec_is_png() ==> r is Ok,
            r matches Ok(v) ==> v@ == image_of(
                format,
                (self.spec_width() / factors.0 as nat) as u32,
                (self.spec_height() / factors.1 as nat) as u32,
                format_samples(
                    format,
                    curve@,
                    subsample_view(
                        self@,
                        self.spec_width() as int,
                        self.spec_height() as int,
                        factors.0 as int,
                        factors.1 as int,
                    ),
                ),
            ),
            r matches Err(e) ==> e == EncoderError::Unencodable,
    {
        let (width, height) = self.dimensions();
        let pix = self.subsampled_pixels(factors.0, factors.1);
        finish_image(
            format,
            width / factors.0,
            height / factors.1,
            encode_samples(format, curve, pix.as_slice()),
        )
    }
}

} // verus!
