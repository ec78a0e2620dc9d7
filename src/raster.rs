use vstd::prelude::*;
use vstd::arithmetic::div_mod::{
    lemma_fundamental_div_mod, lemma_fundamental_div_mod_converse, lemma_multiply_divide_lt,
    lemma_div_pos_is_pos,
};

use crate::geometry::Size;

verus! {

/// The mathematical content of a raster: its dimensions and its RGBA8 bytes,
/// row after row, four bytes per pixel.
pub struct RasterView {
    pub width: nat,
    pub height: nat,
    pub bytes: Seq<u8>,
}

/// Where channel `c` of the pixel at column `x`, row `y` lies in the bytes of a
/// raster `width` pixels wide.
pub open spec fn byte_index(width: int, x: int, y: int, c: int) -> int {
    (y * width + x) * 4 + c
}

impl RasterView {
    /// Four bytes for each pixel, no more and no less.
    pub open spec fn wf(self) -> bool {
        self.bytes.len() == self.width * self.height * 4
    }

    /// Channel `c` of the pixel at column `x`, row `y`.
    pub open spec fn byte(self, x: int, y: int, c: int) -> u8 {
        self.bytes[byte_index(self.width as int, x, y, c)]
    }
}

/// An RGBA8 image: `width * height` pixels of four bytes each, stored row by row.
/// A raster never changes once built; every transform makes a new one.
#[derive(Debug)]
pub struct Raster {
    width: u32,
    height: u32,
    data: Vec<u8>,
}

impl View for Raster {
    type V = RasterView;

    closed spec fn view(&self) -> RasterView {
        RasterView { width: self.width as nat, height: self.height as nat, bytes: self.data@ }
    }
}

impl Raster {
    /// Every raster holds four bytes per pixel, and its bytes fit in memory's
    /// address range.
    #[verifier::type_invariant]
    pub open spec fn inv(self) -> bool {
        self@.wf() && self@.bytes.len() <= usize::MAX
    }

    /// Wraps a buffer of RGBA8 bytes; a buffer whose length is not
    /// `width * height * 4` is rejected.
    pub fn new(width: u32, height: u32, data: Vec<u8>) -> (r: Option<Raster>)
        ensures
            r is Some <==> data@.len() == width * height * 4,
            r matches Some(img) ==> img@ == (RasterView {
                width: width as nat,
                height: height as nat,
                bytes: data@,
            }),
    {
        proof {
            assert(width * height <= 0xffff_ffffu64 * 0xffff_ffffu64) by (nonlinear_arith)
                requires
                    width <= 0xffff_ffffu64,
                    height <= 0xffff_ffffu64,
            ;
        }
        let len: u128 = (width as u128) * (height as u128) * 4;
        if data.len() as u128 == len {
            Some(Raster { width, height, data })
        } else {
            None
        }
    }

    pub fn width(&self) -> (r: u32)
        ensures
            r == self@.width,
    {
        self.width
    }

    pub fn height(&self) -> (r: u32)
        ensures
            r == self@.height,
    {
        self.height
    }

    pub fn size(&self) -> (r: Size)
        ensures
            r.width == self@.width,
            r.height == self@.height,
    {
        Size { width: self.width, height: self.height }
    }

    /// The pixel bytes, row by row.
    pub fn data(&self) -> (r: &[u8])
        ensures
            r@ == self@.bytes,
    {
        self.data.as_slice()
    }

    /// Gives up the raster for its pixel bytes.
    pub fn into_data(self) -> (r: Vec<u8>)
        ensures
            r@ == self@.bytes,
    {
        self.data
    }

    /// A second raster with the same dimensions and bytes.
    pub fn duplicate(&self) -> (r: Raster)
        ensures
            r@ == self@,
    {
        proof {
            use_type_invariant(self);
        }
        let data = self.data.clone();
        proof {
            assert(data@ =~= self.data@);
        }
        Raster { width: self.width, height: self.height, data }
    }
}

/// How one axis of an output raster is read from the same axis of a source:
/// `Offset(d)` shows source coordinate `x - d` at output coordinate `x`, and
/// nothing where that lies outside the source; `Scale` stretches the whole source axis over the whole
/// output axis, taking for each output pixel the source pixel under its centre.
#[derive(Clone, Copy, Debug, PartialEq, Eq, Structural)]
pub enum Axis {
    Offset(i64),
    Scale,
}

/// The source coordinate that output coordinate `x` reads along an axis, if any.
pub open spec fn axis_source(a: Axis, src_len: int, out_len: int, x: int) -> Option<int> {
    match a {
        Axis::Offset(d) => if 0 <= x - d < src_len {
            Some(x - d)
        } else {
            None
        },
        Axis::Scale => if src_len > 0 && out_len > 0 {
            Some((2 * x + 1) * src_len / (2 * out_len))
        } else {
            None
        },
    }
}

/// Byte `i` of the output of `remapped`.
pub open spec fn remapped_byte(
    src: RasterView,
    width: nat,
    height: nat,
    ax: Axis,
    ay: Axis,
    i: int,
) -> u8 {
    let p = i / 4;
    let x = p % (width as int);
    let y = p / (width as int);
    match (
        axis_source(ax, src.width as int, width as int, x),
        axis_source(ay, src.height as int, height as int, y),
    ) {
        (Some(sx), Some(sy)) => src.byte(sx, sy, i % 4),
        _ => 0u8,
    }
}

/// A `width` by `height` raster whose pixel at `(x, y)` is the source pixel that
/// the two axis maps give, and transparent where either gives none.
pub open spec fn remapped(src: RasterView, width: nat, height: nat, ax: Axis, ay: Axis) -> RasterView {
    RasterView {
        width,
        height,
        bytes: Seq::new(width * height * 4, |i: int| remapped_byte(src, width, height, ax, ay, i)),
    }
}

proof fn lemma_index_bounds(w: int, h: int, x: int, y: int, c: int)
    requires
        0 <= x < w,
        0 <= y < h,
        0 <= c < 4,
    ensures
        0 <= byte_index(w, x, y, c) < w * h * 4,
{
    assert(0 <= y * w + x < w * h) by (nonlinear_arith)
        requires
            0 <= x < w,
            0 <= y < h,
    ;
}

/// Byte `i` of a raster `w` pixels wide and `h` high is channel `i % 4` of the
/// pixel at column `(i / 4) % w`, row `(i / 4) / w`.
proof fn lemma_split_index(w: int, h: int, i: int)
    requires
        0 < w,
        0 <= h,
        0 <= i < w * h * 4,
    ensures
        0 <= (i / 4) % w < w,
        0 <= (i / 4) / w < h,
        0 <= i % 4 < 4,
        byte_index(w, (i / 4) % w, (i / 4) / w, i % 4) == i,
{
    let p = i / 4;
    lemma_fundamental_div_mod(i, 4);
    lemma_fundamental_div_mod(p, w);
    lemma_div_pos_is_pos(i, 4);
    lemma_div_pos_is_pos(p, w);
    assert(i < 4 * (w * h)) by (nonlinear_arith)
        requires
            i < w * h * 4,
    ;
    lemma_multiply_divide_lt(i, 4, w * h);
    lemma_multiply_divide_lt(p, w, h);
    assert(w * (p / w) == (p / w) * w) by (nonlinear_arith);
}

proof fn lemma_scale_in_range(x: int, s: int, o: int)
    requires
        0 <= x < o,
        0 < s,
    ensures
        0 <= (2 * x + 1) * s / (2 * o) < s,
{
    assert(0 <= (2 * x + 1) * s < (2 * o) * s) by (nonlinear_arith)
        requires
            0 <= x < o,
            0 < s,
    ;
    lemma_multiply_divide_lt((2 * x + 1) * s, 2 * o, s);
    lemma_div_pos_is_pos((2 * x + 1) * s, 2 * o);
}

/// Every source coordinate that an axis map gives lies inside the source.
proof fn lemma_axis_source_in_range(a: Axis, src_len: int, out_len: int, x: int)
    requires
        0 <= x < out_len,
    ensures
        axis_source(a, src_len, out_len, x) matches Some(s) ==> 0 <= s < src_len,
{
    if let Axis::Scale = a {
        if src_len > 0 {
            lemma_scale_in_range(x, src_len, out_len);
        }
    }
}

fn source_coord(a: Axis, src_len: u32, out_len: u32, x: u32) -> (r: Option<u32>)
    requires
        x < out_len,
    ensures
        r is Some <==> axis_source(a, src_len as int, out_len as int, x as int) is Some,
        r matches Some(s) ==> axis_source(a, src_len as int, out_len as int, x as int) == Some(
            s as int,
        ) && s < src_len,
{
    proof {
        lemma_axis_source_in_range(a, src_len as int, out_len as int, x as int);
    }
    match a {
        Axis::Offset(d) => {
            let v: i128 = (x as i128) - (d as i128);
            if 0 <= v && v < src_len as i128 {
                Some(v as u32)
            } else {
                None
            }
        },
        Axis::Scale => {
            if src_len > 0 {
                proof {
                    assert((2 * x + 1) * src_len <= 0x2_0000_0000u64 * 0xffff_ffffu64)
                        by (nonlinear_arith)
                        requires
                            x < 0xffff_ffffu64,
                            src_len <= 0xffff_ffffu64,
                    ;
                }
                let num: u128 = (2 * (x as u128) + 1) * (src_len as u128);
                let den: u128 = 2 * (out_len as u128);
                Some((num / den) as u32)
            } else {
                None
            }
        },
    }
}

/// The pixel of a remapped raster at `(x, y)` is the source pixel that the two
/// axis maps give, or transparent where either gives none.
pub proof fn lemma_remapped_pixel(
    src: RasterView,
    width: nat,
    height: nat,
    ax: Axis,
    ay: Axis,
    x: int,
    y: int,
    c: int,
)
    requires
        0 <= x < width,
        0 <= y < height,
        0 <= c < 4,
    ensures
        remapped(src, width, height, ax, ay).byte(x, y, c) == match (
            axis_source(ax, src.width as int, width as int, x),
            axis_source(ay, src.height as int, height as int, y),
        ) {
            (Some(sx), Some(sy)) => src.byte(sx, sy, c),
            _ => 0u8,
        },
{
    let w = width as int;
    let i = byte_index(w, x, y, c);
    lemma_index_bounds(w, height as int, x, y, c);
    lemma_fundamental_div_mod_converse(i, 4, y * w + x, c);
    lemma_fundamental_div_mod_converse(y * w + x, w, y, x);
}

/// Reading every pixel from where it stands gives the raster back.
pub proof fn lemma_remap_identity(img: RasterView)
    requires
        img.wf(),
    ensures
        remapped(img, img.width, img.height, Axis::Offset(0), Axis::Offset(0)) == img,
{
    let r = remapped(img, img.width, img.height, Axis::Offset(0), Axis::Offset(0));
    assert forall|i: int| 0 <= i < r.bytes.len() implies r.bytes[i] == img.bytes[i] by {
        if img.width == 0 {
            assert(img.width * img.height * 4 == 0) by (nonlinear_arith)
                requires
                    img.width == 0,
            ;
        }
        lemma_split_index(img.width as int, img.height as int, i);
    }
    assert(r.bytes =~= img.bytes);
}

/// Builds a `width` by `height` raster whose pixels are read from `src` through
/// the two axis maps, transparent where a map reads nothing.
pub fn remap(src: &Raster, width: u32, height: u32, ax: Axis, ay: Axis) -> (r: Raster)
    requires
        width * height * 4 <= usize::MAX,
    ensures
        r@ == remapped(src@, width as nat, height as nat, ax, ay),
{
    proof {
        use_type_invariant(src);
    }
    let total: usize = (width as usize) * (height as usize) * 4;
    let mut data: Vec<u8> = Vec::with_capacity(total);
    let src_len: usize = src.data.len();
    let mut i: usize = 0;
    while i < total
        invariant
            total == width * height * 4,
            src@.wf(),
            src_len == src@.bytes.len(),
            i <= total,
            data@.len() == i,
            forall|j: int|
                0 <= j < i ==> data@[j] == remapped_byte(
                    src@,
                    width as nat,
                    height as nat,
                    ax,
                    ay,
                    j,
                ),
        decreases total - i,
    {
        proof {
            lemma_split_index(width as int, height as int, i as int);
        }
        let p: usize = i / 4;
        let c: usize = i % 4;
        let x: u32 = (p % (width as usize)) as u32;
        let y: u32 = (p / (width as usize)) as u32;
        let b: u8 = match (
            source_coord(ax, src.width, width, x),
            source_coord(ay, src.height, height, y),
        ) {
            (Some(sx), Some(sy)) => {
                proof {
                    lemma_index_bounds(
                        src.width as int,
                        src.height as int,
                        sx as int,
                        sy as int,
                        c as int,
                    );
                    assert(0 <= sy * src.width) by (nonlinear_arith);
                    assert(sy * src.width + sx < src_len);
                }
                let k: usize = ((sy as usize) * (src.width as usize) + (sx as usize)) * 4 + c;
                src.data[k]
            },
            _ => 0u8,
        };
        data.push(b);
        i += 1;
    }
    proof {
        assert(data@ =~= remapped(src@, width as nat, height as nat, ax, ay).bytes);
    }
    Raster { width, height, data }
}

impl Clone for Raster {
    fn clone(&self) -> (r: Raster)
        ensures
            r@ == self@,
    {
        self.duplicate()
    }
}

} // verus!
