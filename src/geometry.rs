use vstd::prelude::*;
use vstd::arithmetic::div_mod::{lemma_fundamental_div_mod, lemma_multiply_divide_lt};

verus! {

/// A width and a height in pixels.
#[derive(Clone, Copy, Debug, PartialEq, Eq, Structural)]
pub struct Size {
    pub width: u32,
    pub height: u32,
}

impl Size {
    /// A size with no area: one of its sides is zero.
    pub open spec fn is_degenerate(self) -> bool {
        self.width == 0 || self.height == 0
    }

    pub fn degenerate(&self) -> (r: bool)
        ensures
            r == self.is_degenerate(),
    {
        self.width == 0 || self.height == 0
    }
}

/// The largest size with the aspect ratio of `image` inside `window`, one side
/// of it equal to the window's and the other truncated toward zero. The ratios
/// are compared exactly, by cross-multiplication. `window` itself where the
/// image has no area, where the ratios are equal, or where the truncated side
/// would be zero.
pub open spec fn fit_spec(window: Size, image: Size) -> Size {
    let ww = window.width as int;
    let wh = window.height as int;
    let iw = image.width as int;
    let ih = image.height as int;
    if iw == 0 || ih == 0 {
        window
    } else if iw * wh < ww * ih {
        let w = wh * iw / ih;
        if w == 0 {
            window
        } else {
            Size { width: w as u32, height: window.height }
        }
    } else if iw * wh > ww * ih {
        let h = ww * ih / iw;
        if h == 0 {
            window
        } else {
            Size { width: window.width, height: h as u32 }
        }
    } else {
        window
    }
}

/// `fit_spec` gives `window` back because the side it computes truncates to zero,
/// and not because the ratios agree.
pub open spec fn fit_falls_back(window: Size, image: Size) -> bool {
    let ww = window.width as int;
    let wh = window.height as int;
    let iw = image.width as int;
    let ih = image.height as int;
    &&& iw > 0 && ih > 0
    &&& (iw * wh < ww * ih && wh * iw / ih == 0) || (iw * wh > ww * ih && ww * ih / iw == 0)
}

proof fn lemma_fit_within(window: Size, image: Size)
    ensures
        fit_spec(window, image).width <= window.width,
        fit_spec(window, image).height <= window.height,
{
    let ww = window.width as int;
    let wh = window.height as int;
    let iw = image.width as int;
    let ih = image.height as int;
    if iw > 0 && ih > 0 {
        if iw * wh < ww * ih {
            assert(wh * iw < ih * ww) by (nonlinear_arith)
                requires
                    iw * wh < ww * ih,
            ;
            lemma_multiply_divide_lt(wh * iw, ih, ww);
        } else if iw * wh > ww * ih {
            assert(ww * ih < iw * wh) by (nonlinear_arith)
                requires
                    iw * wh > ww * ih,
            ;
            lemma_multiply_divide_lt(ww * ih, iw, wh);
        }
    }
}

/// Fits an image of size `image` into `window`, keeping its aspect ratio.
pub fn fit(window: Size, image: Size) -> (r: Size)
    ensures
        r == fit_spec(window, image),
        r.width <= window.width,
        r.height <= window.height,
{
    proof {
        lemma_fit_within(window, image);
    }
    if image.width == 0 || image.height == 0 {
        return window;
    }
    let ww = window.width as u64;
    let wh = window.height as u64;
    let iw = image.width as u64;
    let ih = image.height as u64;
    proof {
        assert(iw * wh <= 0xffff_ffffu64 * 0xffff_ffffu64) by (nonlinear_arith)
            requires
                iw <= 0xffff_ffffu64,
                wh <= 0xffff_ffffu64,
        ;
        assert(ww * ih <= 0xffff_ffffu64 * 0xffff_ffffu64) by (nonlinear_arith)
            requires
                ww <= 0xffff_ffffu64,
                ih <= 0xffff_ffffu64,
        ;
        assert(iw * wh == wh * iw) by (nonlinear_arith);
        assert(ww * ih == ih * ww) by (nonlinear_arith);
    }
    if iw * wh < ww * ih {
        let w = wh * iw / ih;
        if w == 0 {
            window
        } else {
            Size { width: w as u32, height: window.height }
        }
    } else if iw * wh > ww * ih {
        let h = ww * ih / iw;
        if h == 0 {
            window
        } else {
            Size { width: window.width, height: h as u32 }
        }
    } else {
        window
    }
}

/// For an image and a window with positive sides, the fitted size lies inside
/// the window, reaches it on at least one side, and has the image's aspect ratio
/// up to the truncation of its other side: with the height reached,
/// `width / height` is below `image.width / image.height` by less than
/// `1 / height`, and the other way round with the width reached. This holds
/// wherever the truncated side is not zero, for then `fit` falls back to the
/// window.
pub proof fn lemma_fit_preserves_aspect(window: Size, image: Size)
    requires
        !window.is_degenerate(),
        !image.is_degenerate(),
        !fit_falls_back(window, image),
    ensures
        ({
            let r = fit_spec(window, image);
            let iw = image.width as int;
            let ih = image.height as int;
            &&& r.width <= window.width && r.height <= window.height
            &&& r.width == window.width || r.height == window.height
            &&& r.height == window.height ==> r.width * ih <= r.height * iw < (r.width + 1) * ih
            &&& r.width == window.width ==> r.height * iw <= r.width * ih < (r.height + 1) * iw
        }),
{
    lemma_fit_within(window, image);
    let r = fit_spec(window, image);
    let ww = window.width as int;
    let wh = window.height as int;
    let iw = image.width as int;
    let ih = image.height as int;
    if iw * wh < ww * ih {
        let w = wh * iw / ih;
        assert(wh * iw < ih * ww) by (nonlinear_arith)
            requires
                iw * wh < ww * ih,
        ;
        lemma_multiply_divide_lt(wh * iw, ih, ww);
        assert(r.width as int == w && r.height as int == wh);
        lemma_fundamental_div_mod(wh * iw, ih);
        assert(w * ih <= wh * iw < (w + 1) * ih) by (nonlinear_arith)
            requires
                wh * iw == ih * (wh * iw / ih) + (wh * iw) % ih,
                w == wh * iw / ih,
                0 <= (wh * iw) % ih < ih,
        ;
    } else if iw * wh > ww * ih {
        let h = ww * ih / iw;
        assert(ww * ih < iw * wh) by (nonlinear_arith)
            requires
                iw * wh > ww * ih,
        ;
        lemma_multiply_divide_lt(ww * ih, iw, wh);
        assert(r.height as int == h && r.width as int == ww);
        lemma_fundamental_div_mod(ww * ih, iw);
        assert(h * iw <= ww * ih < (h + 1) * iw) by (nonlinear_arith)
            requires
                ww * ih == iw * (ww * ih / iw) + (ww * ih) % iw,
                h == ww * ih / iw,
                0 <= (ww * ih) % iw < iw,
        ;
    } else {
        assert(wh * iw == ww * ih) by (nonlinear_arith)
            requires
                !(iw * wh < ww * ih),
                !(iw * wh > ww * ih),
        ;
        assert(wh * iw < (ww + 1) * ih) by (nonlinear_arith)
            requires
                wh * iw == ww * ih,
                ih > 0,
        ;
        assert(ww * ih < (wh + 1) * iw) by (nonlinear_arith)
            requires
                wh * iw == ww * ih,
                iw > 0,
        ;
    }
}

} // verus!
