use vstd::prelude::*;

use crate::geometry::Size;
use crate::raster::{lemma_remap_identity, remap, remapped, Axis, Raster, RasterView};

verus! {

/// The magnitude of an integer.
pub open spec fn magnitude(v: int) -> int {
    if v < 0 {
        -v
    } else {
        v
    }
}

/// How far the image is panned from its centre, in pixels, and whether a pan
/// gesture is under way.
#[derive(Clone, Copy, Debug, PartialEq, Eq, Structural)]
pub struct PanState {
    pub offset_x: i64,
    pub offset_y: i64,
    pub panning: bool,
}

/// The offset that one axis takes after a move by `delta`: the moved offset where
/// its magnitude stays below `limit`, else the offset as it was.
pub open spec fn moved_offset(offset: int, delta: int, limit: int) -> int {
    if magnitude(offset + delta) < limit {
        offset + delta
    } else {
        offset
    }
}

fn move_axis(offset: i64, delta: i64, limit: u32) -> (r: i64)
    requires
        magnitude(offset as int) < limit,
    ensures
        r == moved_offset(offset as int, delta as int, limit as int),
        magnitude(r as int) < limit,
{
    let moved: i128 = offset as i128 + delta as i128;
    if -(limit as i128) < moved && moved < limit as i128 {
        moved as i64
    } else {
        offset
    }
}

impl PanState {
    /// Both offsets lie strictly inside the image.
    pub open spec fn within(self, image: Size) -> bool {
        &&& magnitude(self.offset_x as int) < image.width
        &&& magnitude(self.offset_y as int) < image.height
    }

    /// Whether both offsets lie strictly inside an image of size `image`.
    pub fn is_within(&self, image: Size) -> (r: bool)
        ensures
            r == self.within(image),
    {
        let x: i128 = self.offset_x as i128;
        let y: i128 = self.offset_y as i128;
        -(image.width as i128) < x && x < image.width as i128 && -(image.height as i128) < y && y
            < image.height as i128
    }

    /// No offset, no gesture.
    pub fn new() -> (r: PanState)
        ensures
            r.offset_x == 0,
            r.offset_y == 0,
            !r.panning,
    {
        PanState { offset_x: 0, offset_y: 0, panning: false }
    }

    /// Moves the offset by `(dx, dy)` over an image of size `image`. Each axis
    /// moves only where its new magnitude stays below the image's side on that
    /// axis; otherwise it keeps its value.
    pub fn try_move(&mut self, dx: i64, dy: i64, image: Size)
        requires
            old(self).within(image),
        ensures
            final(self).offset_x == moved_offset(
                old(self).offset_x as int,
                dx as int,
                image.width as int,
            ),
            final(self).offset_y == moved_offset(
                old(self).offset_y as int,
                dy as int,
                image.height as int,
            ),
            final(self).panning == old(self).panning,
            final(self).within(image),
    {
        self.offset_x = move_axis(self.offset_x, dx, image.width);
        self.offset_y = move_axis(self.offset_y, dy, image.height);
    }

    /// A pan gesture begins.
    pub fn start(&mut self)
        ensures
            final(self).panning,
            final(self).offset_x == old(self).offset_x,
            final(self).offset_y == old(self).offset_y,
    {
        self.panning = true;
    }

    /// The pan gesture ends; the offset stays.
    pub fn stop(&mut self)
        ensures
            !final(self).panning,
            final(self).offset_x == old(self).offset_x,
            final(self).offset_y == old(self).offset_y,
    {
        self.panning = false;
    }

    /// The pointer moved to `(cursor_x, cursor_y)` in a window of size `window`,
    /// the pointer having been put back at the window's centre after the last
    /// move. While panning, the image follows the pointer: the offset moves by
    /// the centre minus the pointer, as `try_move` allows. Returns whether a
    /// gesture was under way; without one nothing changes.
    pub fn on_cursor_moved(&mut self, cursor_x: i32, cursor_y: i32, window: Size, image: Size) -> (r:
        bool)
        requires
            old(self).within(image),
        ensures
            r == old(self).panning,
            final(self).panning == old(self).panning,
            final(self).within(image),
            r ==> final(self).offset_x == moved_offset(
                old(self).offset_x as int,
                window.width / 2 - cursor_x,
                image.width as int,
            ),
            r ==> final(self).offset_y == moved_offset(
                old(self).offset_y as int,
                window.height / 2 - cursor_y,
                image.height as int,
            ),
            !r ==> *final(self) == *old(self),
    {
        if !self.panning {
            return false;
        }
        let dx: i64 = (window.width / 2) as i64 - cursor_x as i64;
        let dy: i64 = (window.height / 2) as i64 - cursor_y as i64;
        self.try_move(dx, dy, image);
        true
    }
}

/// The image moved by `(offset_x, offset_y)` within its own frame: the pixel at
/// `(x, y)` shows the source pixel at `(x - offset_x, y - offset_y)`, and the
/// edges uncovered by the move are transparent. A positive offset keeps the
/// leading part of an axis and pads before it; a negative one keeps the
/// trailing part and pads after it.
pub open spec fn panned(image: RasterView, offset_x: i64, offset_y: i64) -> RasterView {
    remapped(image, image.width, image.height, Axis::Offset(offset_x), Axis::Offset(offset_y))
}

/// Moves the image by the state's offset, keeping its dimensions. With no offset
/// the image comes back as it was.
pub fn pan(image: &Raster, state: &PanState) -> (r: Raster)
    ensures
        r@ == panned(image@, state.offset_x, state.offset_y),
        r@.width == image@.width,
        r@.height == image@.height,
        state.offset_x == 0 && state.offset_y == 0 ==> r@ == image@,
{
    proof {
        use_type_invariant(image);
    }
    if state.offset_x == 0 && state.offset_y == 0 {
        proof {
            lemma_remap_identity(image@);
        }
        return image.duplicate();
    }
    remap(
        image,
        image.width(),
        image.height(),
        Axis::Offset(state.offset_x),
        Axis::Offset(state.offset_y),
    )
}

} // verus!
