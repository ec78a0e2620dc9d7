use vstd::prelude::*;

use crate::geometry::{fit, fit_spec, Size};
use crate::pan::{pan, panned, PanState};
use crate::raster::{lemma_remapped_pixel, remap, remapped, Axis, Raster, RasterView};
use crate::zoom::{zoom, zoom_can_fit, zoom_fits, zoomed, ZoomLevel};

verus! {

/// The image stretched over `target` with nearest-neighbour sampling: each output
/// pixel takes the source pixel under its centre.
pub open spec fn resampled(image: RasterView, target: Size) -> RasterView {
    remapped(image, target.width as nat, target.height as nat, Axis::Scale, Axis::Scale)
}

/// Resizes the image to `target`, nearest neighbour, without smoothing.
pub fn resample(image: &Raster, target: Size) -> (r: Raster)
    requires
        target.width * target.height * 4 <= usize::MAX,
    ensures
        r@ == resampled(image@, target),
{
    remap(image, target.width, target.height, Axis::Scale, Axis::Scale)
}

/// The larger half of `total` pixels of padding, which goes before the image.
pub open spec fn pad_before(total: int) -> int {
    (total + 1) / 2
}

/// The image centred in a `window`-sized raster, the rest transparent; of an odd
/// padding the extra pixel goes to the left and to the top.
pub open spec fn letterboxed(image: RasterView, window: Size) -> RasterView {
    remapped(
        image,
        window.width as nat,
        window.height as nat,
        Axis::Offset(pad_before(window.width - image.width) as i64),
        Axis::Offset(pad_before(window.height - image.height) as i64),
    )
}

/// Letterboxing centres the image: with `left` and `top` the larger halves of
/// the horizontal and vertical padding, the pixel at `(x, y)` is the image's
/// pixel at `(x - left, y - top)` inside the image's place, and transparent
/// everywhere else.
pub proof fn lemma_letterbox_centred(image: RasterView, window: Size, x: int, y: int, c: int)
    requires
        image.width <= window.width,
        image.height <= window.height,
        0 <= x < window.width,
        0 <= y < window.height,
        0 <= c < 4,
    ensures
        ({
            let left = pad_before(window.width - image.width);
            let top = pad_before(window.height - image.height);
            let out = letterboxed(image, window);
            &&& left == (window.width - image.width) - (window.width - image.width) / 2
            &&& top == (window.height - image.height) - (window.height - image.height) / 2
            &&& (left <= x < left + image.width && top <= y < top + image.height) ==> out.byte(x, y, c)
                == image.byte(x - left, y - top, c)
            &&& !(left <= x < left + image.width && top <= y < top + image.height) ==> out.byte(
                x,
                y,
                c,
            ) == 0
        }),
{
    let left = pad_before(window.width - image.width);
    let top = pad_before(window.height - image.height);
    lemma_remapped_pixel(
        image,
        window.width as nat,
        window.height as nat,
        Axis::Offset(left as i64),
        Axis::Offset(top as i64),
        x,
        y,
        c,
    );
}

/// The bytes of a raster of this size fit in memory's address range.
pub open spec fn size_fits(size: Size) -> bool {
    size.width * size.height * 4 <= usize::MAX
}

/// Centres the image in a raster of the window's size, padding it with
/// transparent pixels.
pub fn letterbox(image: &Raster, window: Size) -> (r: Raster)
    requires
        image@.width <= window.width,
        image@.height <= window.height,
        size_fits(window),
    ensures
        r@ == letterboxed(image@, window),
{
    let left: i64 = ((window.width - image.width()) as i64 + 1) / 2;
    let top: i64 = ((window.height - image.height()) as i64 + 1) / 2;
    remap(image, window.width, window.height, Axis::Offset(left), Axis::Offset(top))
}

/// The image after zoom and pan, in the order that keeps motion continuous: a
/// zoom out is applied before the pan, a zoom in after it.
pub open spec fn working_image(image: RasterView, pan: PanState, level: i32) -> RasterView {
    if level <= 0 {
        panned(zoomed(image, level), pan.offset_x, pan.offset_y)
    } else {
        zoomed(panned(image, pan.offset_x, pan.offset_y), level)
    }
}

/// One frame for a window of size `window`: the zoomed and panned image, fitted
/// to the window with its aspect ratio, resampled, and centred between
/// transparent bars.
pub open spec fn composited(image: RasterView, window: Size, pan: PanState, level: i32) -> RasterView {
    let working = working_image(image, pan, level);
    let target = fit_spec(window, Size { width: working.width as u32, height: working.height as u32 });
    letterboxed(resampled(working, target), window)
}

/// Whether `composite` can build the frame: the window's bytes fit in memory's
/// address range, and so do those of the zoomed image.
pub fn can_composite(image: &Raster, window: Size, zoom_level: ZoomLevel) -> (r: bool)
    ensures
        r == (size_fits(window) && zoom_fits(image@.width as int, image@.height as int, zoom_level@)),
{
    proof {
        assert(window.width * window.height <= 0xffff_ffffu64 * 0xffff_ffffu64) by (nonlinear_arith)
            requires
                window.width <= 0xffff_ffffu64,
                window.height <= 0xffff_ffffu64,
        ;
    }
    let window_bytes: u128 = (window.width as u128) * (window.height as u128) * 4;
    window_bytes <= usize::MAX as u128 && zoom_can_fit(image.width(), image.height(), zoom_level.level())
}

/// Composes the frame to present in a window of size `window`. A window without
/// area has nothing to present: the result is `None` exactly then.
pub fn composite(image: &Raster, window: Size, pan_state: &PanState, zoom_level: ZoomLevel) -> (r:
    Option<Raster>)
    requires
        size_fits(window),
        zoom_fits(image@.width as int, image@.height as int, zoom_level@),
    ensures
        r is None <==> window.is_degenerate(),
        r matches Some(out) ==> out@ == composited(image@, window, *pan_state, zoom_level@ as i32),
        r matches Some(out) ==> out@.width == window.width && out@.height == window.height,
{
    if window.degenerate() {
        return None;
    }
    let level: i32 = zoom_level.level();
    let working: Raster = if level <= 0 {
        let zoomed_image = zoom(image, level);
        pan(&zoomed_image, pan_state)
    } else {
        let panned_image = pan(image, pan_state);
        zoom(&panned_image, level)
    };
    let target: Size = fit(window, working.size());
    proof {
        assert(target.width * target.height <= window.width * window.height) by (nonlinear_arith)
            requires
                target.width <= window.width,
                target.height <= window.height,
        ;
    }
    let resized: Raster = resample(&working, target);
    Some(letterbox(&resized, window))
}

} // verus!
