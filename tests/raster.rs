use planetarium::{BoundingBox, Raster, SpotImage, Window};

fn image(x0: u32, y0: u32, x1: u32, y1: u32, values: Vec<u16>) -> SpotImage {
    SpotImage { bbox: BoundingBox { x0, y0, x1, y1 }, values }
}

#[test]
fn create_canvas() {
    let w = 16;
    let h = 16;

    let c = Raster::new(w, h);

    let sz = c.pixels().len();
    assert_eq!(sz, (w * h) as usize);

    let dim = c.dimensions();
    assert_eq!(dim, (w, h));
}

#[test]
fn clear_canvas() {
    let mut c = Raster::new(16, 16);

    assert_eq!(c.pixels()[0], 0);

    c.set_background(100);
    c.clear();

    assert_eq!(c.pixels()[0], 100);

    c.set_background(200);
    c.render(&Vec::new());

    assert_eq!(c.pixels()[0], 200);
}

#[test]
fn set_background_keeps_pixels_until_clear() {
    let mut c = Raster::new(4, 4);
    c.set_background(7);
    assert_eq!(c.background(), 7);
    assert!(c.pixels().iter().all(|&p| p == 0));
    c.clear();
    assert!(c.pixels().iter().all(|&p| p == 7));
}

#[test]
fn empty_canvas() {
    let mut c = Raster::new(0, 0);
    c.set_background(5);
    c.clear();
    c.render(&vec![image(0, 0, 0, 0, Vec::new())]);
    assert_eq!(c.pixels().len(), 0);
    assert_eq!(c.dimensions(), (0, 0));
}

#[test]
fn add_image_fills_its_box() {
    let mut c = Raster::new(4, 3);
    c.set_background(10);
    c.clear();
    c.add_image(&image(1, 1, 3, 3, vec![1, 2, 3, 4]));
    assert_eq!(
        c.pixels(),
        &[10, 10, 10, 10, 10, 11, 12, 10, 10, 13, 14, 10]
    );
}

#[test]
fn overlapping_spots_saturate() {
    let mut c = Raster::new(3, 1);
    let a = image(0, 0, 2, 1, vec![40000, 1000]);
    let b = image(1, 0, 3, 1, vec![30000, 65535]);
    c.render(&vec![a, b]);
    // 40000 alone; 1000 + 30000; 65535 alone.
    assert_eq!(c.pixels(), &[40000, 31000, 65535]);

    let mut d = Raster::new(1, 1);
    d.set_background(50000);
    let e = image(0, 0, 1, 1, vec![40000]);
    let f = image(0, 0, 1, 1, vec![30000]);
    d.render(&vec![e, f]);
    // The sum 120000 does not fit a pixel: it clamps instead of wrapping.
    assert_eq!(d.pixels(), &[65535]);
    assert!(d.pixels()[0] >= 40000 && d.pixels()[0] >= 30000);
}

#[test]
fn render_twice_is_identical() {
    let mut c = Raster::new(5, 4);
    c.set_background(1000);
    let imgs = vec![
        image(0, 0, 3, 2, vec![1, 2, 3, 4, 5, 6]),
        image(2, 1, 5, 4, vec![60000; 9]),
    ];
    c.render(&imgs);
    let first = c.pixels().to_vec();
    c.render(&imgs);
    assert_eq!(c.pixels(), &first[..]);
    assert_eq!(first[5 + 2], 61006);
    assert_eq!(first[0], 1001);
    assert_eq!(first[3 * 5 + 4], 61000);
}

#[test]
fn render_starts_from_background() {
    let mut c = Raster::new(2, 2);
    c.add_image(&image(0, 0, 2, 2, vec![9, 9, 9, 9]));
    c.add_image(&image(0, 0, 2, 2, vec![9, 9, 9, 9]));
    assert_eq!(c.pixels(), &[18, 18, 18, 18]);
    c.set_background(3);
    c.render(&vec![image(1, 1, 2, 2, vec![4])]);
    assert_eq!(c.pixels(), &[3, 3, 3, 7]);
}

fn ramp(w: u32, h: u32) -> Raster {
    let mut c = Raster::new(w, h);
    let values: Vec<u16> = (0..(w * h)).map(|v| v as u16).collect();
    c.add_image(&image(0, 0, w, h, values));
    c
}

#[test]
fn get_window_pixels() {
    let c = ramp(10, 10);
    let wnd = Window::new(4, 3).at(5, 2);
    assert_eq!(
        c.window_pixels(wnd).unwrap(),
        vec![25, 26, 27, 28, 35, 36, 37, 38, 45, 46, 47, 48]
    );
    assert_eq!(c.window_pixels(Window::new(10, 10)).unwrap(), c.pixels().to_vec());
}

#[test]
fn broken_windows() {
    let c = Raster::new(100, 100);

    let wnd1 = Window::new(4, 100).at(50, 50);
    assert!(c.window_pixels(wnd1).is_none());

    let wnd2 = Window::new(4, 5).at(100, 100);
    assert!(c.window_pixels(wnd2).is_none());

    let wnd3 = Window::new(1, 1).at(100, 100);
    assert!(c.window_pixels(wnd3).is_none());

    let wnd4 = Window::new(0, 0).at(100, 100);
    let pixels = c.window_pixels(wnd4).unwrap();
    assert_eq!(pixels.len(), 0);
}

#[test]
fn subsample_pixels() {
    let c = ramp(5, 5);
    assert_eq!(c.subsampled_pixels(2, 2), vec![0, 2, 10, 12]);
    assert_eq!(c.subsampled_pixels(4, 1), vec![0, 5, 10, 15, 20]);
    assert_eq!(c.subsampled_pixels(1, 1), c.pixels().to_vec());
    assert_eq!(c.subsampled_pixels(6, 1), Vec::<u16>::new());
}
