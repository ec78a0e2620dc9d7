use vstd::prelude::*;

use crate::pan::magnitude;
use crate::raster::{lemma_remap_identity, remap, remapped, Axis, Raster, RasterView};

verus! {

/// The largest magnitude a zoom level takes.
pub const MAX_ZOOM: i32 = 100;

/// A zoom level between `-MAX_ZOOM` and `MAX_ZOOM`; zero is unscaled, a positive
/// level zooms in and a negative one zooms out.
#[derive(Clone, Copy, Debug, PartialEq, Eq)]
pub struct ZoomLevel {
    level: i32,
}

impl View for ZoomLevel {
    type V = int;

    closed spec fn view(&self) -> int {
        self.level as int
    }
}

/// The level after one step of the scroll wheel: one up when zooming in, one
/// down otherwise, held at the bounds.
pub open spec fn scrolled(level: int, zoom_in: bool) -> int {
    if zoom_in {
        if level < MAX_ZOOM {
            level + 1
        } else {
            level
        }
    } else {
        if level > -MAX_ZOOM {
            level - 1
        } else {
            level
        }
    }
}

impl ZoomLevel {
    /// The level stays within its bounds.
    #[verifier::type_invariant]
    pub open spec fn inv(self) -> bool {
        -MAX_ZOOM <= self@ <= MAX_ZOOM
    }

    /// The unscaled level.
    pub fn new() -> (r: ZoomLevel)
        ensures
            r@ == 0,
    {
        ZoomLevel { level: 0 }
    }

    /// The level `level`, where it lies within the bounds.
    pub fn from_level(level: i32) -> (r: Option<ZoomLevel>)
        ensures
            r is Some <==> -MAX_ZOOM <= level <= MAX_ZOOM,
            r matches Some(z) ==> z@ == level,
    {
        if -MAX_ZOOM <= level && level <= MAX_ZOOM {
            Some(ZoomLevel { level })
        } else {
            None
        }
    }

    pub fn level(&self) -> (r: i32)
        ensures
            r == self@,
            -MAX_ZOOM <= r <= MAX_ZOOM,
    {
        proof {
            use_type_invariant(self);
        }
        self.level
    }

    /// One step of the scroll wheel.
    pub fn scroll(&mut self, zoom_in: bool)
        ensures
            final(self)@ == scrolled(old(self)@, zoom_in),
    {
        proof {
            use_type_invariant(&*self);
        }
        if zoom_in {
            if self.level < MAX_ZOOM {
                self.level = self.level + 1;
            }
        } else {
            if self.level > -MAX_ZOOM {
                self.level = self.level - 1;
            }
        }
    }
}

/// The step, in pixels, of one zoom level on an image of `width` by `height`:
/// a tenth of its smaller side.
pub open spec fn zoom_unit(width: int, height: int) -> int {
    (if width < height {
        width
    } else {
        height
    }) / 10
}

/// How many pixels a zoom level crops from, or pads onto, each side.
pub open spec fn zoom_margin(level: int, width: int, height: int) -> int {
    magnitude(level) * zoom_unit(width, height) / 2
}

/// The length an axis of `size` pixels keeps when `margin` pixels are cropped
/// from both of its ends; never less than one pixel of a non-empty axis.
pub open spec fn crop_keep(size: int, margin: int) -> int {
    if size > 2 * margin {
        size - 2 * margin
    } else if size > 0 {
        1
    } else {
        0
    }
}

/// Where the kept part of a cropped axis starts: centred on the axis.
pub open spec fn crop_start(size: int, margin: int) -> int {
    (size - crop_keep(size, margin)) / 2
}

/// The length of one axis of `size` pixels after zooming by `level`, with
/// `margin` the level's margin.
pub open spec fn zoomed_len(size: int, margin: int, level: int) -> int {
    if level > 0 {
        crop_keep(size, margin)
    } else {
        size + 2 * margin
    }
}

/// The zoomed image's dimensions fit a `u32` and its bytes a `usize`.
pub open spec fn zoom_fits(width: int, height: int, level: int) -> bool {
    let m = zoom_margin(level, width, height);
    let zw = zoomed_len(width, m, level);
    let zh = zoomed_len(height, m, level);
    &&& zw <= u32::MAX
    &&& zh <= u32::MAX
    &&& zw * zh * 4 <= usize::MAX
}

/// The image zoomed by `level`. A positive level crops the margin from every
/// side, keeping the centre (at least one pixel of each non-empty axis); zero
/// or a negative level pads every side with a transparent margin.
pub open spec fn zoomed(image: RasterView, level: i32) -> RasterView {
    let w = image.width as int;
    let h = image.height as int;
    let m = zoom_margin(level as int, w, h);
    if level > 0 {
        remapped(
            image,
            crop_keep(w, m) as nat,
            crop_keep(h, m) as nat,
            Axis::Offset((-crop_start(w, m)) as i64),
            Axis::Offset((-crop_start(h, m)) as i64),
        )
    } else {
        remapped(
            image,
            (w + 2 * m) as nat,
            (h + 2 * m) as nat,
            Axis::Offset(m as i64),
            Axis::Offset(m as i64),
        )
    }
}

proof fn lemma_margin_bound(level: int, width: int, height: int)
    requires
        magnitude(level) <= 0x8000_0000,
        0 <= width <= u32::MAX,
        0 <= height <= u32::MAX,
    ensures
        0 <= zoom_margin(level, width, height) < 0x4000_0000_0000_0000,
        0 <= zoom_unit(width, height) <= width,
        zoom_unit(width, height) <= height,
{
    let u = zoom_unit(width, height);
    assert(0 <= magnitude(level) * u <= 0x8000_0000 * 0xffff_ffff) by (nonlinear_arith)
        requires
            0 <= magnitude(level) <= 0x8000_0000,
            0 <= u <= 0xffff_ffff,
    ;
}

/// The area that a margin of `margin` pixels on every side adds to a `width` by
/// `height` image.
pub open spec fn padded_area(width: int, height: int, margin: int) -> int {
    (width + 2 * margin) * (height + 2 * margin) - width * height
}

proof fn lemma_margin_monotone(width: int, height: int, l1: int, l2: int)
    requires
        0 <= width,
        0 <= height,
        magnitude(l1) <= magnitude(l2),
    ensures
        0 <= zoom_margin(l1, width, height) <= zoom_margin(l2, width, height),
        zoom_unit(width, height) >= 2 && magnitude(l1) < magnitude(l2) ==> zoom_margin(
            l1,
            width,
            height,
        ) < zoom_margin(l2, width, height),
{
    let u = zoom_unit(width, height);
    let a1 = magnitude(l1);
    let a2 = magnitude(l2);
    assert(0 <= a1 * u <= a2 * u) by (nonlinear_arith)
        requires
            0 <= a1 <= a2,
            0 <= u,
    ;
    if u >= 2 && a1 < a2 {
        assert(a1 * u + 2 <= a2 * u) by (nonlinear_arith)
            requires
                0 <= a1 < a2,
                2 <= u,
        ;
    }
}

/// Zooming further in never shows more of the image: for levels
/// `0 <= l1 <= l2`, each axis keeps no more pixels at `l2` than at `l1`, so the
/// visible area is no larger; and where the margin grows while the crop at `l2`
/// is not yet clamped on either axis, the visible area is strictly smaller.
pub proof fn lemma_zoom_in_monotone(width: nat, height: nat, l1: int, l2: int)
    requires
        0 <= l1 <= l2,
    ensures
        ({
            let w = width as int;
            let h = height as int;
            let m1 = zoom_margin(l1, w, h);
            let m2 = zoom_margin(l2, w, h);
            &&& crop_keep(w, m2) <= crop_keep(w, m1)
            &&& crop_keep(h, m2) <= crop_keep(h, m1)
            &&& crop_keep(w, m2) * crop_keep(h, m2) <= crop_keep(w, m1) * crop_keep(h, m1)
            &&& m1 < m2 && w > 2 * m2 && h > 2 * m2 ==> crop_keep(w, m2) * crop_keep(h, m2)
                < crop_keep(w, m1) * crop_keep(h, m1)
        }),
{
    let w = width as int;
    let h = height as int;
    lemma_margin_monotone(w, h, l1, l2);
    let m1 = zoom_margin(l1, w, h);
    let m2 = zoom_margin(l2, w, h);
    let (a1, b1, a2, b2) = (crop_keep(w, m1), crop_keep(h, m1), crop_keep(w, m2), crop_keep(h, m2));
    assert(a2 * b2 <= a1 * b1) by (nonlinear_arith)
        requires
            0 <= a2 <= a1,
            0 <= b2 <= b1,
    ;
    if m1 < m2 && w > 2 * m2 && h > 2 * m2 {
        assert(a2 * b2 < a1 * b1) by (nonlinear_arith)
            requires
                0 < a2 < a1,
                0 < b2 < b1,
        ;
    }
}

/// Zooming further out never pads less: for levels `l2 <= l1 <= 0`, the margin
/// at `l2` is at least the margin at `l1`, so the padded area is no smaller;
/// and it is strictly larger wherever one zoom level is worth at least two
/// pixels. (With a smaller unit two neighbouring levels can round to the same
/// margin.)
pub proof fn lemma_zoom_out_monotone(width: nat, height: nat, l1: int, l2: int)
    requires
        l2 <= l1 <= 0,
    ensures
        ({
            let w = width as int;
            let h = height as int;
            let m1 = zoom_margin(l1, w, h);
            let m2 = zoom_margin(l2, w, h);
            &&& m1 <= m2
            &&& padded_area(w, h, m1) <= padded_area(w, h, m2)
            &&& zoom_unit(w, h) >= 2 && l2 < l1 ==> padded_area(w, h, m1) < padded_area(w, h, m2)
        }),
{
    let w = width as int;
    let h = height as int;
    lemma_margin_monotone(w, h, l1, l2);
    let m1 = zoom_margin(l1, w, h);
    let m2 = zoom_margin(l2, w, h);
    assert((w + 2 * m1) * (h + 2 * m1) <= (w + 2 * m2) * (h + 2 * m2)) by (nonlinear_arith)
        requires
            0 <= m1 <= m2,
            0 <= w,
            0 <= h,
    ;
    if zoom_unit(w, h) >= 2 && l2 < l1 {
        assert((w + 2 * m1) * (h + 2 * m1) < (w + 2 * m2) * (h + 2 * m2)) by (nonlinear_arith)
            requires
                0 <= m1 < m2,
                0 <= w,
                0 <= h,
        ;
    }
}

fn keep_len(size: u64, margin: u64) -> (r: u64)
    requires
        size <= u32::MAX,
        margin < 0x4000_0000_0000_0000,
    ensures
        r == crop_keep(size as int, margin as int),
        r <= size,
{
    if size > 2 * margin {
        size - 2 * margin
    } else if size > 0 {
        1
    } else {
        0
    }
}

/// Whether zooming a `width` by `height` image by `level` gives dimensions that
/// fit a `u32` and bytes that fit a `usize`.
pub fn zoom_can_fit(width: u32, height: u32, level: i32) -> (r: bool)
    ensures
        r == zoom_fits(width as int, height as int, level as int),
{
    let w: u64 = width as u64;
    let h: u64 = height as u64;
    let unit: u64 = (if w < h {
        w
    } else {
        h
    }) / 10;
    let mag: u64 = if level < 0 {
        (-(level as i64)) as u64
    } else {
        level as u64
    };
    proof {
        lemma_margin_bound(level as int, w as int, h as int);
        assert(mag * unit <= 0x8000_0000 * 0xffff_ffff) by (nonlinear_arith)
            requires
                mag <= 0x8000_0000,
                unit <= 0xffff_ffff,
        ;
    }
    let margin: u64 = mag * unit / 2;
    let (zw, zh) = if level > 0 {
        (keep_len(w, margin), keep_len(h, margin))
    } else {
        (w + 2 * margin, h + 2 * margin)
    };
    if zw > u32::MAX as u64 || zh > u32::MAX as u64 {
        return false;
    }
    proof {
        assert(zw * zh <= 0xffff_ffffu64 * 0xffff_ffffu64) by (nonlinear_arith)
            requires
                zw <= 0xffff_ffffu64,
                zh <= 0xffff_ffffu64,
        ;
    }
    (zw as u128) * (zh as u128) * 4 <= usize::MAX as u128
}

/// Zooms the image by `level`: crops toward the centre for a positive level,
/// pads with transparent margins for a negative one, and gives the image back
/// as it was for zero.
pub fn zoom(image: &Raster, level: i32) -> (r: Raster)
    requires
        zoom_fits(image@.width as int, image@.height as int, level as int),
    ensures
        r@ == zoomed(image@, level),
        level == 0 ==> r@ == image@,
{
    proof {
        use_type_invariant(image);
    }
    let w: u64 = image.width() as u64;
    let h: u64 = image.height() as u64;
    let unit: u64 = (if w < h {
        w
    } else {
        h
    }) / 10;
    let mag: u64 = if level < 0 {
        (-(level as i64)) as u64
    } else {
        level as u64
    };
    proof {
        lemma_margin_bound(level as int, w as int, h as int);
        assert(mag * unit <= 0x8000_0000 * 0xffff_ffff) by (nonlinear_arith)
            requires
                mag <= 0x8000_0000,
                unit <= 0xffff_ffff,
        ;
    }
    let margin: u64 = mag * unit / 2;
    if level == 0 {
        proof {
            let u = zoom_unit(w as int, h as int);
            assert(magnitude(0) == 0);
            assert(0 * u == 0) by (nonlinear_arith);
            assert(zoom_margin(0, w as int, h as int) == 0);
            lemma_remap_identity(image@);
            assert(zoomed(image@, level) == remapped(
                image@,
                image@.width,
                image@.height,
                Axis::Offset(0),
                Axis::Offset(0),
            ));
        }
        return image.duplicate();
    }
    if level > 0 {
        let kw: u64 = keep_len(w, margin);
        let kh: u64 = keep_len(h, margin);
            proof {
            assert(kw * kh <= w * h) by (nonlinear_arith)
                requires
                    kw <= w,
                    kh <= h,
            ;
        }
        let sx: i64 = ((w - kw) / 2) as i64;
        let sy: i64 = ((h - kh) / 2) as i64;
        remap(image, kw as u32, kh as u32, Axis::Offset(-sx), Axis::Offset(-sy))
    } else {
        let zw: u64 = w + 2 * margin;
        let zh: u64 = h + 2 * margin;
        remap(image, zw as u32, zh as u32, Axis::Offset(margin as i64), Axis::Offset(margin as i64))
    }
}

} // verus!
