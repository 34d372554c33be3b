//! The canvas pixel buffer: background fill and saturating composition of
//! rendered spot images.
use vstd::prelude::*;

use crate::bbox::BoundingBox;
use crate::window::Window;
use crate::Pixel;

verus! {

/// The largest pixel value.
pub const PIXEL_MAX: u16 = 65535;

/// Pixel addition that clamps at the largest pixel value instead of wrapping.
pub open spec fn sat_add(a: u16, b: u16) -> u16 {
    if a + b > PIXEL_MAX {
        PIXEL_MAX
    } else {
        (a + b) as u16
    }
}

/// A buffer of `n` pixels that all hold `level`.
pub open spec fn filled(n: nat, level: u16) -> Seq<u16> {
    Seq::new(n, |k: int| level)
}

/// The rendered pixel values of one spot over its bounding box.
///
/// `values` holds one value per box pixel, row by row: the value of
/// pixel `(x, y)` stands at `(y - y0) * (x1 - x0) + (x - x0)`.
pub struct SpotImage {
    /// Pixels the spot covers
    pub bbox: BoundingBox,
    /// Pixel values, row-major over the box
    pub values: Vec<Pixel>,
}

impl SpotImage {
    /// The image has one value per pixel of a box that lies within a
    /// `width` x `height` canvas.
    pub open spec fn fits(&self, width: int, height: int) -> bool {
        &&& self.bbox.fits(width, height)
        &&& self.values@.len() == self.bbox.spec_width() * self.bbox.spec_height()
    }

    /// Value that the image gives pixel `(x, y)` of its box.
    pub open spec fn value_at(&self, x: int, y: int) -> u16 {
        self.values@[(y - self.bbox.y0) * self.bbox.spec_width() + (x - self.bbox.x0)]
    }
}

/// The buffer `pix` of a canvas `width` pixels wide after adding `img`:
/// each pixel in the image's box gains the image's value, saturating at
/// the largest pixel value; every other pixel keeps its value.
pub open spec fn stamped(pix: Seq<u16>, width: int, img: SpotImage) -> Seq<u16> {
    Seq::new(
        pix.len(),
        |k: int|
            if img.bbox.covers(k % width, k / width) {
                sat_add(pix[k], img.value_at(k % width, k / width))
            } else {
                pix[k]
            },
    )
}

/// The buffer `pix` after adding the images one after another, in order.
pub open spec fn stamped_all(pix: Seq<u16>, width: int, imgs: Seq<SpotImage>) -> Seq<u16>
    decreases imgs.len(),
{
    if imgs.len() == 0 {
        pix
    } else {
        stamped(stamped_all(pix, width, imgs.drop_last()), width, imgs.last())
    }
}

/// A full frame: the background everywhere, then the images added in order.
pub open spec fn frame(width: nat, height: nat, background: u16, imgs: Seq<SpotImage>) -> Seq<u16> {
    stamped_all(filled(width * height, background), width as int, imgs)
}

/// Buffer index of sample `k` of window `win`: the window is read row by
/// row, so sample `k` is pixel `(win.x + k % win.w, win.y + k / win.w)`.
pub open spec fn window_index(width: int, win: Window, k: int) -> int {
    (win.y + k / (win.w as int)) * width + win.x + k % (win.w as int)
}

/// The pixels of window `win` of a buffer `width` pixels wide, row by row.
pub open spec fn window_view(pix: Seq<u16>, width: int, win: Window) -> Seq<u16> {
    Seq::new((win.w * win.h) as nat, |k: int| pix[window_index(width, win, k)])
}

/// Buffer index of sample `k` of the image subsampled by `fx` x `fy` that
/// has `cols` columns: every `fx`-th pixel of every `fy`-th row, starting
/// at the origin.
pub open spec fn subsample_index(width: int, fx: int, fy: int, cols: int, k: int) -> int {
    (k / cols) * fy * width + (k % cols) * fx
}

/// The canvas `width` x `height` subsampled by `fx` x `fy`: `width / fx`
/// columns and `height / fy` rows, row by row.
pub open spec fn subsample_view(pix: Seq<u16>, width: int, height: int, fx: int, fy: int) -> Seq<u16> {
    Seq::new(
        ((width / fx) * (height / fy)) as nat,
        |k: int| pix[subsample_index(width, fx, fy, width / fx, k)],
    )
}

/// Row-major grayscale pixel buffer of a canvas.
///
/// The buffer holds `width * height` pixels, origin top left,
/// with a stride of `width`.
pub struct Raster {
    /// Canvas width in pixels
    width: u32,
    /// Canvas height in pixels
    height: u32,
    /// Background light level
    background: Pixel,
    /// Image pixel buffer
    pixbuf: Vec<Pixel>,
}

impl View for Raster {
    type V = Seq<u16>;

    closed spec fn view(&self) -> Seq<u16> {
        self.pixbuf@
    }
}

impl Raster {
    /// Canvas width in pixels.
    pub closed spec fn spec_width(&self) -> nat {
        self.width as nat
    }

    /// Canvas height in pixels.
    pub closed spec fn spec_height(&self) -> nat {
        self.height as nat
    }

    /// Background light level that a clear fills the buffer with.
    pub closed spec fn spec_background(&self) -> u16 {
        self.background
    }

    /// The buffer holds exactly one pixel per canvas position.
    pub open spec fn wf(&self) -> bool {
        &&& self@.len() == self.spec_width() * self.spec_height()
        &&& self.spec_width() <= u32::MAX
        &&& self.spec_height() <= u32::MAX
    }

    /// `after` is this raster with a full frame of the images drawn: same
    /// dimensions and background, and pixels that depend on those and on
    /// the images alone.
    pub open spec fn renders_to(&self, after: Raster, imgs: Seq<SpotImage>) -> bool {
        &&& after.wf()
        &&& after.spec_width() == self.spec_width()
        &&& after.spec_height() == self.spec_height()
        &&& after.spec_background() == self.spec_background()
        &&& after@ == frame(self.spec_width(), self.spec_height(), self.spec_background(), imgs)
    }

    /// Creates a `width` x `height` raster with all pixels and the
    /// background at zero.
    pub fn new(width: u32, height: u32) -> (r: Raster)
        requires
            width * height <= usize::MAX,
        ensures
            r.wf(),
            r.spec_width() == width,
            r.spec_height() == height,
            r.spec_background() == 0,
            r@ == filled((width * height) as nat, 0),
    {
        let n = width as usize * height as usize;
        let pixbuf = fill_buffer(n, 0);
        Raster { width, height, background: 0, pixbuf }
    }

    /// Returns the canvas dimensions as `(width, height)`.
    pub fn dimensions(&self) -> (r: (u32, u32))
        ensures
            r.0 == self.spec_width(),
            r.1 == self.spec_height(),
    {
        (self.width, self.height)
    }

    /// Returns the background light level.
    pub fn background(&self) -> (r: Pixel)
        ensures
            r == self.spec_background(),
    {
        self.background
    }

    /// Returns the pixel buffer.
    pub fn pixels(&self) -> (r: &[Pixel])
        ensures
            r@ == self@,
    {
        self.pixbuf.as_slice()
    }

    /// Sets the background light level; the pixels stay as they are until
    /// the next clear.
    pub fn set_background(&mut self, level: Pixel)
        ensures
            final(self)@ == old(self)@,
            final(self).spec_width() == old(self).spec_width(),
            final(self).spec_height() == old(self).spec_height(),
            final(self).spec_background() == level,
    {
        self.background = level;
    }

    /// Fills the whole buffer with the background level.
    pub fn clear(&mut self)
        requires
            old(self).wf(),
        ensures
            final(self).wf(),
            final(self).spec_width() == old(self).spec_width(),
            final(self).spec_height() == old(self).spec_height(),
            final(self).spec_background() == old(self).spec_background(),
            final(self)@ == filled(old(self)@.len(), old(self).spec_background()),
    {
        let n = self.pixbuf.len();
        let mut k: usize = 0;
        while k < n
            invariant
                n == self.pixbuf@.len(),
                n == old(self)@.len(),
                self.width == old(self).width,
                self.height == old(self).height,
                self.background == old(self).background,
                0 <= k <= n,
                forall|m: int| 0 <= m < k ==> self.pixbuf@[m] == self.background,
            decreases n - k,
        {
            self.pixbuf.set(k, self.background);
            k = k + 1;
        }
        assert(self.pixbuf@ =~= filled(n as nat, self.background));
    }

    /// Draws a full frame: fills the buffer with the background level, then
    /// adds the spot images in order. What the buffer held before is lost.
    pub fn render(&mut self, imgs: &Vec<SpotImage>)
        requires
            old(self).wf(),
            forall|m: int|
                0 <= m < imgs@.len() ==> (#[trigger] imgs@[m]).fits(
                    old(self).spec_width() as int,
                    old(self).spec_height() as int,
                ),
        ensures
            old(self).renders_to(*final(self), imgs@),
    {
        self.clear();
        let ghost base = self@;
        let mut m: usize = 0;
        while m < imgs.len()
            invariant
                self.wf(),
                self.spec_width() == old(self).spec_width(),
                self.spec_height() == old(self).spec_height(),
                self.spec_background() == old(self).spec_background(),
                base == filled(
                    old(self).spec_width() * old(self).spec_height(),
                    old(self).spec_background(),
                ),
                forall|q: int|
                    0 <= q < imgs@.len() ==> (#[trigger] imgs@[q]).fits(
                        old(self).spec_width() as int,
                        old(self).spec_height() as int,
                    ),
                0 <= m <= imgs@.len(),
                self@ == stamped_all(base, self.spec_width() as int, imgs@.take(m as int)),
            decreases imgs@.len() - m,
        {
            self.add_image(&imgs[m]);
            proof {
                let next = imgs@.take(m as int + 1);
                assert(next.drop_last() =~= imgs@.take(m as int));
                assert(next.last() == imgs@[m as int]);
            }
            m = m + 1;
        }
        assert(imgs@.take(imgs@.len() as int) =~= imgs@);
    }

    /// Copies out the pixels of a window, row by row; `None` where the
    /// window reaches beyond the canvas.
    pub fn window_pixels(&self, win: Window) -> (r: Option<Vec<Pixel>>)
        requires
            self.wf(),
        ensures
            r is None <==> !win.spec_inside(self.spec_width() as int, self.spec_height() as int),
            r matches Some(v) ==> v@ == window_view(self@, self.spec_width() as int, win),
    {
        if !win.is_inside(self.width, self.height) {
            return None;
        }
        let width = self.width as usize;
        let n = self.pixbuf.len();
        let ghost w = width as int;
        let ghost ww = win.w as int;
        let mut out: Vec<Pixel> = Vec::new();
        let mut i: u32 = 0;
        while i < win.h
            invariant
                self.wf(),
                w == width,
                w == self.width,
                n == self@.len(),
                ww == win.w,
                win.spec_inside(w, self.height as int),
                0 <= i <= win.h,
                out@.len() == i * ww,
                forall|k: int|
                    0 <= k < out@.len() ==> #[trigger] out@[k] == self@[window_index(w, win, k)],
            decreases win.h - i,
        {
            let ghost row = win.y + i;
            proof {
                let hh = self.height as int;
                assert(row * w + w <= hh * w) by (nonlinear_arith)
                    requires
                        0 <= row < hh,
                        0 <= w,
                ;
                assert(hh * w == n) by (nonlinear_arith)
                    requires
                        n == w * hh,
                ;
            }
            let line = (win.y + i) as usize * width + win.x as usize;
            let mut j: u32 = 0;
            while j < win.w
                invariant
                    self.wf(),
                    w == width,
                    w == self.width,
                    n == self@.len(),
                    ww == win.w,
                    win.spec_inside(w, self.height as int),
                    0 <= i < win.h,
                    row == win.y + i,
                    line == row * w + win.x,
                    row * w + w <= n,
                    0 <= j <= win.w,
                    out@.len() == i * ww + j,
                    forall|k: int|
                        0 <= k < out@.len() ==> #[trigger] out@[k] == self@[window_index(w, win, k)],
                decreases win.w - j,
            {
                proof {
                    vstd::arithmetic::div_mod::lemma_fundamental_div_mod_converse(
                        i * ww + j,
                        ww,
                        i as int,
                        j as int,
                    );
                }
                out.push(self.pixbuf[line + j as usize]);
                j = j + 1;
            }
            proof {
                assert(i * ww + ww == (i + 1) * ww) by (nonlinear_arith);
            }
            i = i + 1;
        }
        assert(win.h * ww == ww * win.h) by (nonlinear_arith);
        assert(out@ =~= window_view(self@, w, win));
        Some(out)
    }

    /// Copies out every `fx`-th pixel of every `fy`-th row, starting at the
    /// origin: an image of `width / fx` x `height / fy` pixels.
    pub fn subsampled_pixels(&self, fx: u32, fy: u32) -> (r: Vec<Pixel>)
        requires
            self.wf(),
            fx > 0,
            fy > 0,
        ensures
            r@ == subsample_view(
                self@,
                self.spec_width() as int,
                self.spec_height() as int,
                fx as int,
                fy as int,
            ),
    {
        let width = self.width as usize;
        let cols = self.width / fx;
        let rows = self.height / fy;
        let n = self.pixbuf.len();
        let ghost w = width as int;
        let ghost hh = self.height as int;
        proof {
            vstd::arithmetic::div_mod::lemma_fundamental_div_mod(w, fx as int);
            vstd::arithmetic::div_mod::lemma_fundamental_div_mod(hh, fy as int);
            vstd::arithmetic::div_mod::lemma_mod_bound(w, fx as int);
            vstd::arithmetic::div_mod::lemma_mod_bound(hh, fy as int);
            assert(hh * w == n) by (nonlinear_arith)
                requires
                    n == w * hh,
            ;
            assert(cols * fx <= w) by (nonlinear_arith)
                requires
                    w == fx * cols + w % (fx as int),
                    w % (fx as int) >= 0,
            ;
            assert(rows * fy <= hh) by (nonlinear_arith)
                requires
                    hh == fy * rows + hh % (fy as int),
                    hh % (fy as int) >= 0,
            ;
        }
        let mut out: Vec<Pixel> = Vec::new();
        let mut i: u32 = 0;
        while i < rows
            invariant
                self.wf(),
                w == width,
                w == self.width,
                hh == self.height,
                n == self@.len(),
                hh * w == n,
                cols == w / (fx as int),
                rows == hh / (fy as int),
                fx > 0,
                fy > 0,
                cols * fx <= w,
                rows * fy <= hh,
                0 <= i <= rows,
                out@.len() == i * cols,
                forall|k: int|
                    0 <= k < out@.len() ==> #[trigger] out@[k] == self@[subsample_index(
                        w,
                        fx as int,
                        fy as int,
                        cols as int,
                        k,
                    )],
            decreases rows - i,
        {
            let ghost y = i * fy;
            proof {
                assert((i + 1) * fy <= rows * fy) by (nonlinear_arith)
                    requires
                        0 <= i < rows,
                        fy > 0,
                ;
                assert(y + fy == (i + 1) * fy) by (nonlinear_arith)
                    requires
                        y == i * fy,
                ;
                assert(y * w + w <= hh * w) by (nonlinear_arith)
                    requires
                        0 <= y < hh,
                        0 <= w,
                ;
            }
            let line = (i * fy) as usize * width;
            let mut j: u32 = 0;
            while j < cols
                invariant
                    self.wf(),
                    w == width,
                    w == self.width,
                    hh == self.height,
                    n == self@.len(),
                    hh * w == n,
                    cols == w / (fx as int),
                    rows == hh / (fy as int),
                    fx > 0,
                    fy > 0,
                    cols * fx <= w,
                    0 <= i < rows,
                    y == i * fy,
                    line == y * w,
                    y * w + w <= n,
                    0 <= j <= cols,
                    out@.len() == i * cols + j,
                    forall|k: int|
                        0 <= k < out@.len() ==> #[trigger] out@[k] == self@[subsample_index(
                            w,
                            fx as int,
                            fy as int,
                            cols as int,
                            k,
                        )],
                decreases cols - j,
            {
                proof {
                    vstd::arithmetic::div_mod::lemma_fundamental_div_mod_converse(
                        i * cols + j,
                        cols as int,
                        i as int,
                        j as int,
                    );
                    assert(j * fx + fx <= w) by (nonlinear_arith)
                        requires
                            0 <= j < cols,
                            cols * fx <= w,
                    ;
                }
                out.push(self.pixbuf[line + (j * fx) as usize]);
                j = j + 1;
            }
            proof {
                assert(i * cols + cols == (i + 1) * cols) by (nonlinear_arith);
            }
            i = i + 1;
        }
        assert(rows * cols == cols * rows) by (nonlinear_arith);
        assert(out@ =~= subsample_view(self@, w, hh, fx as int, fy as int));
        out
    }

    /// Adds a spot image to the buffer by saturating addition.
    pub fn add_image(&mut self, img: &SpotImage)
        requires
            old(self).wf(),
            img.fits(old(self).spec_width() as int, old(self).spec_height() as int),
        ensures
            final(self).wf(),
            final(self).spec_width() == old(self).spec_width(),
            final(self).spec_height() == old(self).spec_height(),
            final(self).spec_background() == old(self).spec_background(),
            final(self)@ == stamped(old(self)@, old(self).spec_width() as int, *img),
    {
        let width = self.width as usize;
        let bw = (img.bbox.x1 - img.bbox.x0) as usize;
        let ghost w = width as int;
        let ghost pix0 = self.pixbuf@;
        let ghost bx = img.bbox;
        // Both lengths fit a usize, which bounds the index arithmetic below.
        let n = self.pixbuf.len();
        let nv = img.values.len();
        let mut i = img.bbox.y0;
        while i < img.bbox.y1
            invariant
                self.width == old(self).width,
                self.height == old(self).height,
                self.background == old(self).background,
                pix0 == old(self)@,
                self.pixbuf@.len() == pix0.len(),
                n == pix0.len(),
                nv == img.values@.len(),
                old(self).wf(),
                img.fits(w, self.height as int),
                w == self.width,
                w == width,
                bw == bx.spec_width(),
                bx == img.bbox,
                bx.y0 <= i <= bx.y1,
                forall|k: int|
                    #![trigger self.pixbuf@[k]]
                    0 <= k < pix0.len() ==> self.pixbuf@[k] == if bx.covers(k % w, k / w) && k / w
                        < i {
                        sat_add(pix0[k], img.value_at(k % w, k / w))
                    } else {
                        pix0[k]
                    },
            decreases bx.y1 - i,
        {
            proof {
                let hh = self.height as int;
                let ii = i as int;
                assert(ii * w + w == (ii + 1) * w <= hh * w) by (nonlinear_arith)
                    requires
                        0 <= ii < hh,
                        0 <= w,
                ;
                assert(hh * w == pix0.len()) by (nonlinear_arith)
                    requires
                        pix0.len() == w * hh,
                ;
            }
            let line = i as usize * width;
            let mut j = img.bbox.x0;
            while j < img.bbox.x1
                invariant
                    self.width == old(self).width,
                    self.height == old(self).height,
                    self.background == old(self).background,
                    pix0 == old(self)@,
                    self.pixbuf@.len() == pix0.len(),
                    n == pix0.len(),
                    nv == img.values@.len(),
                    old(self).wf(),
                    img.fits(w, self.height as int),
                    w == self.width,
                    w == width,
                w == width,
                    bw == bx.spec_width(),
                    bx == img.bbox,
                    bx.y0 <= i < bx.y1,
                    line == i * w,
                    line + w <= pix0.len(),
                    bx.x0 <= j <= bx.x1,
                    forall|k: int|
                        #![trigger self.pixbuf@[k]]
                        0 <= k < pix0.len() ==> self.pixbuf@[k] == if bx.covers(k % w, k / w) && (k
                            / w < i || (k / w == i && k % w < j)) {
                            sat_add(pix0[k], img.value_at(k % w, k / w))
                        } else {
                            pix0[k]
                        },
                decreases bx.x1 - j,
            {
                let off = line + j as usize;
                let ghost row = (i - bx.y0) as int;
                let ghost col = (j - bx.x0) as int;
                proof {
                    vstd::arithmetic::div_mod::lemma_fundamental_div_mod_converse(
                        off as int,
                        w,
                        i as int,
                        j as int,
                    );
                    assert(row * bw + col < bw * (bx.y1 - bx.y0)) by (nonlinear_arith)
                        requires
                            0 <= row < bx.y1 - bx.y0,
                            0 <= col < bw,
                    ;
                }
                let vidx = (i - img.bbox.y0) as usize * bw + (j - img.bbox.x0) as usize;
                let v = img.values[vidx];
                let p = self.pixbuf[off];
                self.pixbuf.set(off, p.saturating_add(v));
                assert forall|k: int| 0 <= k < pix0.len() && #[trigger] (k / w) == i && k % w == j implies k
                    == off by {
                    vstd::arithmetic::div_mod::lemma_fundamental_div_mod(k, w);
                    assert(w * (i as int) == (i as int) * w) by (nonlinear_arith);
                }
                j = j + 1;
            }
            i = i + 1;
        }
        assert(self.pixbuf@ =~= stamped(pix0, w, *img));
    }
}

/// Adding a spot image never lowers a pixel and never wraps: a covered
/// pixel becomes its old value plus the image's value, clamped at the
/// largest pixel value, so it is at least either of the two.
pub proof fn lemma_add_saturates(pix: Seq<u16>, width: int, img: SpotImage, k: int)
    requires
        0 <= k < pix.len(),
    ensures
        stamped(pix, width, img)[k] >= pix[k],
        img.bbox.covers(k % width, k / width) ==> {
            let v = img.value_at(k % width, k / width);
            &&& stamped(pix, width, img)[k] >= v
            &&& stamped(pix, width, img)[k] == if pix[k] + v > PIXEL_MAX {
                PIXEL_MAX as int
            } else {
                pix[k] + v
            }
        },
{
}

/// Two overlapping spots: a pixel that both images cover ends at least as
/// bright as either image's own value there, and equals the sum of its
/// old value and both values, clamped at the largest pixel value, even
/// where that sum does not fit a pixel.
pub proof fn lemma_overlap_saturates(pix: Seq<u16>, width: int, a: SpotImage, b: SpotImage, k: int)
    requires
        0 <= k < pix.len(),
        a.bbox.covers(k % width, k / width),
        b.bbox.covers(k % width, k / width),
    ensures
        ({
            let r = stamped_all(pix, width, seq![a, b])[k];
            let va = a.value_at(k % width, k / width);
            let vb = b.value_at(k % width, k / width);
            &&& r >= va
            &&& r >= vb
            &&& r == if pix[k] + va + vb > PIXEL_MAX {
                PIXEL_MAX as int
            } else {
                pix[k] + va + vb
            }
        }),
{
    let imgs = seq![a, b];
    assert(imgs.drop_last() =~= seq![a]);
    assert(seq![a].drop_last() =~= Seq::<SpotImage>::empty());
    let p1 = stamped(pix, width, a);
    assert(stamped_all(pix, width, Seq::<SpotImage>::empty()) == pix);
    assert(seq![a].last() == a);
    assert(imgs.last() == b);
    assert(stamped_all(pix, width, seq![a]) == p1);
    assert(stamped_all(pix, width, imgs) == stamped(p1, width, b));
}

/// Drawing twice with nothing changed in between gives the same buffer
/// both times.
pub proof fn lemma_render_twice(r0: Raster, r1: Raster, r2: Raster, imgs: Seq<SpotImage>)
    requires
        r0.renders_to(r1, imgs),
        r1.renders_to(r2, imgs),
    ensures
        r2@ == r1@,
{
}

/// The window that covers the whole canvas reads the buffer as it is.
pub proof fn lemma_full_window(pix: Seq<u16>, width: u32, height: u32)
    requires
        pix.len() == width * height,
    ensures
        window_view(pix, width as int, Window::new_spec(width, height)) == pix,
{
    let win = Window::new_spec(width, height);
    let w = width as int;
    assert forall|k: int| 0 <= k < pix.len() implies #[trigger] window_index(w, win, k) == k by {
        vstd::arithmetic::div_mod::lemma_fundamental_div_mod(k, w);
        assert(w * (k / w) == (k / w) * w) by (nonlinear_arith);
    }
    assert(window_view(pix, w, win) =~= pix);
}

/// A new buffer of `n` pixels holding `level`.
fn fill_buffer(n: usize, level: Pixel) -> (r: Vec<Pixel>)
    ensures
        r@ == filled(n as nat, level),
{
    let mut v: Vec<Pixel> = Vec::with_capacity(n);
    let mut k: usize = 0;
    while k < n
        invariant
            0 <= k <= n,
            v@ == filled(k as nat, level),
        decreases n - k,
    {
        v.push(level);
        k = k + 1;
        assert(v@ =~= filled(k as nat, level));
    }
    v
}

} // verus!
