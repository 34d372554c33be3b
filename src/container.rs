//! PNG containers for encoded sample data, written by the png crate.
use vstd::prelude::*;

verus! {

/// The grayscale PNG file that png's encoder writes, with its default
/// options, for a `width` x `height` image of `bits`-bit samples with
/// source gamma `gamma` (in units of 1/100000) and image data `samples`.
pub uninterp spec fn png_gray_of(width: u32, height: u32, bits: u8, gamma: u32, samples: Seq<u8>) -> Seq<u8>;

/// Relies on png's `Encoder`, `Writer` and `StreamWriter`: they write a
/// grayscale PNG of the given size, bit depth, source gamma and image
/// data. `None` where png refuses, as on a zero width or height or on
/// image data that does not fill the image.
#[verifier::external_body]
pub(crate) fn png_gray(width: u32, height: u32, bits: u8, gamma: u32, samples: &[u8]) -> (r: Option<Vec<u8>>)
    ensures
        r matches Some(v) ==> v@ == png_gray_of(width, height, bits, gamma, samples@),
{
    let mut buf: Vec<u8> = Vec::new();
    let mut encoder = png::Encoder::new(std::io::Cursor::new(&mut buf), width, height);
    encoder.set_color(png::ColorType::Grayscale);
    encoder.set_depth(png::BitDepth::from_u8(bits)?);
    encoder.set_source_gamma(png::ScaledFloat::from_scaled(gamma));
    let mut writer = encoder.write_header().ok()?;
    let mut stream = writer.stream_writer().ok()?;
    std::io::Write::write_all(&mut stream, samples).ok()?;
    stream.finish().ok()?;
    writer.finish().ok()?;
    Some(buf)
}

} // verus!
