use planetarium::export::{encode_be16, encode_gamma8, encode_linear_le, png_result};
use planetarium::{EncoderError, GammaCurve8, ImageFormat, Raster, Window};

/// The sRGB compression curve sampled at 4096 points, 8-bit output.
fn srgb_table() -> Vec<u8> {
    let size = 1u32 << 12;
    (0..size)
        .map(|i| {
            let x = (i as f32) / ((size - 1) as f32);
            let gamma = if x <= 0.0031308 {
                12.92 * x
            } else {
                1.055 * x.powf(1.0 / 2.4) - 0.055
            };
            (gamma * (u8::MAX as f32) + 0.5) as u8
        })
        .collect()
}

fn srgb() -> GammaCurve8 {
    GammaCurve8::new(srgb_table()).unwrap()
}

fn flat(w: u32, h: u32, level: u16) -> Raster {
    let mut c = Raster::new(w, h);
    c.set_background(level);
    c.clear();
    c
}

#[test]
fn transform() {
    let lut = srgb();

    assert_eq!(lut.transform(0), 0);
    assert_eq!(lut.transform(16), 1);
    assert_eq!(lut.transform(32), 2);
    assert_eq!(lut.transform(64), 3);
    assert_eq!(lut.transform(80), 4);
    assert_eq!(lut.transform(96), 5);

    assert_eq!(lut.transform(256), 13);
    assert_eq!(lut.transform(1024), 34);
    assert_eq!(lut.transform(16384), 137);
    assert_eq!(lut.transform(32768), 188);
    assert_eq!(lut.transform(65535), 255);
}

#[test]
fn gamma_table_size_is_checked() {
    assert!(GammaCurve8::new(vec![0; 4095]).is_none());
    assert!(GammaCurve8::new(vec![0; 4097]).is_none());
    assert!(GammaCurve8::new(Vec::new()).is_none());
    let ramp: Vec<u8> = (0..4096u32).map(|i| (i / 16) as u8).collect();
    let c = GammaCurve8::new(ramp).unwrap();
    assert_eq!(c.transform(0xFFFF), 255);
    assert_eq!(c.transform(0x1230), 0x12);
    assert_eq!(c.transform(15), 0);
}

#[test]
fn linear_le_samples() {
    assert_eq!(encode_linear_le(&[0xAA00], 10), vec![0xA8, 0x02]);
    assert_eq!(encode_linear_le(&[0xAA00], 12), vec![0xA0, 0x0A]);
    assert_eq!(encode_linear_le(&[0x1234, 0xFFFF], 16), vec![0x34, 0x12, 0xFF, 0xFF]);
    assert_eq!(encode_linear_le(&[0xFFFF], 9), vec![0xFF, 0x01]);
    assert_eq!(encode_linear_le(&[], 10), Vec::<u8>::new());
}

#[test]
fn be16_samples() {
    assert_eq!(encode_be16(&[0x1234, 0x00FF]), vec![0x12, 0x34, 0x00, 0xFF]);
    assert_eq!(encode_be16(&[]), Vec::<u8>::new());
}

#[test]
fn gamma8_samples() {
    let c = srgb();
    assert_eq!(encode_gamma8(&c, &[0, 1024, 65535]), vec![0, 34, 255]);
}

#[test]
fn export_flat_raw_images() {
    let c = flat(256, 256, 0xAA00);
    let curve = srgb();

    let img = c.export_image(ImageFormat::RawGamma8Bpp, &curve).unwrap();
    assert_eq!(img.len(), 65536);
    assert_eq!(img[0], curve.transform(0xAA00));

    let img = c.export_image(ImageFormat::RawLinear10BppLE, &curve).unwrap();
    assert_eq!(img.len(), 131072);
    assert_eq!(img[0], 0xA8);
    assert_eq!(img[1], 0x02);

    let img = c.export_image(ImageFormat::RawLinear12BppLE, &curve).unwrap();
    assert_eq!(img.len(), 131072);
    assert_eq!(img[0], 0xA0);
    assert_eq!(img[1], 0x0A);
}

#[test]
fn export_window_errors() {
    let c = flat(100, 100, 1000);
    let curve = srgb();
    let wnd = Window::new(4, 100).at(50, 50);
    assert_eq!(
        c.export_window_image(wnd, ImageFormat::RawGamma8Bpp, &curve),
        Err(EncoderError::BrokenWindow)
    );
    assert_eq!(
        c.export_window_image(wnd, ImageFormat::PngLinear16Bpp, &curve),
        Err(EncoderError::BrokenWindow)
    );
    let wnd = Window::new(32, 16).at(60, 80);
    let img = c
        .export_window_image(wnd, ImageFormat::RawLinear10BppLE, &curve)
        .unwrap();
    assert_eq!(img.len() as u64, 2 * wnd.len());
    assert_eq!(img[0], 0x0F);
    assert_eq!(img[1], 0x00);
}

#[test]
fn export_subsampled() {
    let c = flat(256, 256, 1000);
    let curve = srgb();
    let img = c
        .export_subsampled_image((4, 2), ImageFormat::RawLinear12BppLE, &curve)
        .unwrap();
    assert_eq!(img.len(), 256 * 256 * 2 / 4 / 2);
    assert_eq!(img[0], 0x3E);
    assert_eq!(img[1], 0x00);
    let img = c
        .export_subsampled_image((2, 2), ImageFormat::RawGamma8Bpp, &curve)
        .unwrap();
    assert_eq!(img.len(), 256 * 256 / 2 / 2);
    assert_eq!(img[0], 33);
}

const PNG_SIGNATURE: [u8; 8] = [137, 80, 78, 71, 13, 10, 26, 10];

/// Width, height, bit depth and color type from a PNG file's header chunk.
fn png_header(img: &[u8]) -> (u32, u32, u8, u8) {
    assert_eq!(&img[..8], &PNG_SIGNATURE);
    assert_eq!(&img[12..16], b"IHDR");
    let width = u32::from_be_bytes([img[16], img[17], img[18], img[19]]);
    let height = u32::from_be_bytes([img[20], img[21], img[22], img[23]]);
    (width, height, img[24], img[25])
}

#[test]
fn export_png_images() {
    let c = flat(64, 48, 0xAA00);
    let curve = srgb();

    let img = c.export_image(ImageFormat::PngLinear16Bpp, &curve).unwrap();
    assert_eq!(png_header(&img), (64, 48, 16, 0));
    assert_ne!(img.len(), 64 * 48 * 2);

    let img = c.export_image(ImageFormat::PngGamma8Bpp, &curve).unwrap();
    assert_eq!(png_header(&img), (64, 48, 8, 0));

    let wnd = Window::new(32, 16).at(30, 20);
    let img = c
        .export_window_image(wnd, ImageFormat::PngGamma8Bpp, &curve)
        .unwrap();
    assert_eq!(png_header(&img), (32, 16, 8, 0));

    let img = c
        .export_subsampled_image((2, 3), ImageFormat::PngLinear16Bpp, &curve)
        .unwrap();
    assert_eq!(png_header(&img), (32, 16, 16, 0));
}

#[test]
fn export_empty_png_is_refused() {
    let c = flat(0, 0, 0);
    let curve = srgb();
    assert_eq!(
        c.export_image(ImageFormat::PngGamma8Bpp, &curve),
        Err(EncoderError::Unencodable)
    );
    assert_eq!(c.export_image(ImageFormat::RawGamma8Bpp, &curve), Ok(Vec::new()));
}

#[test]
fn png_result_maps_refusal() {
    assert_eq!(png_result(Some(vec![1, 2, 3])), Ok(vec![1, 2, 3]));
    assert_eq!(png_result(None), Err(EncoderError::Unencodable));
}

#[test]
fn png_formats() {
    assert!(ImageFormat::PngGamma8Bpp.is_png());
    assert!(ImageFormat::PngLinear16Bpp.is_png());
    assert!(!ImageFormat::RawGamma8Bpp.is_png());
    assert!(!ImageFormat::RawLinear10BppLE.is_png());
    assert!(!ImageFormat::RawLinear12BppLE.is_png());
}
