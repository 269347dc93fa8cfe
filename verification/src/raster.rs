//! In-memory RGBA rasters and the alpha-bleed normalization step.
//!
//! Alpha bleeding replaces the RGB channels of every fully transparent
//! pixel with the RGB of the nearest pixel that has nonzero alpha
//! (Chebyshev distance, raster-scan order as the tie-break), and never
//! touches alpha values. This prevents dark fringing when a host
//! re-samples the image, since texture filtering blends RGB even where
//! alpha is zero. The step is idempotent and leaves images without
//! transparent pixels unchanged; both laws are proved below.

use vstd::prelude::*;

verus! {

/// One RGBA pixel, eight bits per channel.
#[derive(Clone, Copy, PartialEq, Eq, Structural, Debug)]
pub struct Pixel {
    pub r: u8,
    pub g: u8,
    pub b: u8,
    pub a: u8,
}

/// A decoded RGBA image: `width * height` pixels in raster-scan order.
#[derive(Clone, Debug)]
pub struct Raster {
    pub width: u32,
    pub height: u32,
    pub pixels: Vec<Pixel>,
}

impl Raster {
    /// The pixel vector holds exactly one pixel per raster position.
    pub open spec fn wf(&self) -> bool {
        self.pixels@.len() == (self.width as int) * (self.height as int)
    }
}

/// Absolute value.
pub open spec fn iabs(x: int) -> int {
    if x < 0 {
        -x
    } else {
        x
    }
}

/// Maximum of two integers.
pub open spec fn imax(a: int, b: int) -> int {
    if a < b {
        b
    } else {
        a
    }
}

/// Chebyshev distance between raster positions `i` and `j` in an image
/// of width `w`.
pub open spec fn cheb(w: int, i: int, j: int) -> int {
    imax(iabs(i % w - j % w), iabs(i / w - j / w))
}

/// Whether source position `j1` beats `j2` for target `i`: strictly
/// closer, or as close and earlier in raster-scan order.
pub open spec fn better_source(w: int, i: int, j1: int, j2: int) -> bool {
    cheb(w, i, j1) < cheb(w, i, j2) || (cheb(w, i, j1) == cheb(w, i, j2) && j1 < j2)
}

/// The best source for target `i` among the first `n` positions: the
/// position with nonzero alpha nearest to `i`, earliest position on ties.
pub open spec fn best_source_upto(s: Seq<Pixel>, w: int, i: int, n: int) -> Option<int>
    decreases n,
{
    if n <= 0 {
        None
    } else {
        let prev = best_source_upto(s, w, i, n - 1);
        if s[n - 1].a != 0 {
            match prev {
                None => Some(n - 1),
                Some(p) => if better_source(w, i, n - 1, p) {
                    Some(n - 1)
                } else {
                    Some(p)
                },
            }
        } else {
            prev
        }
    }
}

/// The pixel at `i` after alpha bleeding: unchanged if its alpha is
/// nonzero or no pixel has nonzero alpha; otherwise its RGB comes from
/// the best source and its alpha stays as it was.
pub open spec fn spec_bleed_pixel(s: Seq<Pixel>, w: int, i: int) -> Pixel {
    if s[i].a != 0 {
        s[i]
    } else {
        match best_source_upto(s, w, i, s.len() as int) {
            None => s[i],
            Some(j) => Pixel { r: s[j].r, g: s[j].g, b: s[j].b, a: s[i].a },
        }
    }
}

/// The whole image after alpha bleeding.
pub open spec fn spec_bleed(s: Seq<Pixel>, w: int) -> Seq<Pixel> {
    Seq::new(s.len(), |i: int| spec_bleed_pixel(s, w, i))
}

/// A best source lies in range and has nonzero alpha.
proof fn lemma_best_source_opaque(s: Seq<Pixel>, w: int, i: int, n: int)
    requires
        n <= s.len(),
    ensures
        best_source_upto(s, w, i, n) matches Some(j) ==> 0 <= j < n && s[j].a != 0,
    decreases n,
{
    if n > 0 {
        lemma_best_source_opaque(s, w, i, n - 1);
    }
}

/// The best source depends only on the alpha channel.
proof fn lemma_best_source_same_alpha(s1: Seq<Pixel>, s2: Seq<Pixel>, w: int, i: int, n: int)
    requires
        s1.len() == s2.len(),
        forall|k: int| 0 <= k < s1.len() ==> (#[trigger] s1[k]).a == s2[k].a,
        n <= s1.len(),
    ensures
        best_source_upto(s1, w, i, n) == best_source_upto(s2, w, i, n),
    decreases n,
{
    if n > 0 {
        lemma_best_source_same_alpha(s1, s2, w, i, n - 1);
    }
}

/// Alpha bleeding never changes any alpha value.
pub proof fn lemma_bleed_preserves_alpha(s: Seq<Pixel>, w: int)
    ensures
        spec_bleed(s, w).len() == s.len(),
        forall|i: int| 0 <= i < s.len() ==> (#[trigger] spec_bleed(s, w)[i]).a == s[i].a,
{
}

/// A pixel with nonzero alpha is untouched by bleeding: only fully
/// transparent pixels ever take new RGB values.
pub proof fn lemma_bleed_keeps_nonzero_alpha_pixels(s: Seq<Pixel>, w: int)
    ensures
        forall|i: int|
            0 <= i < s.len() && (#[trigger] s[i]).a != 0 ==> spec_bleed(s, w)[i] == s[i],
{
}

/// Alpha bleeding is idempotent: running it twice gives the same image
/// as running it once.
pub proof fn lemma_bleed_idempotent(s: Seq<Pixel>, w: int)
    ensures
        spec_bleed(spec_bleed(s, w), w) =~= spec_bleed(s, w),
{
    let b = spec_bleed(s, w);
    assert forall|i: int| 0 <= i < b.len() implies spec_bleed(b, w)[i] == b[i] by {
        lemma_best_source_same_alpha(b, s, w, i, s.len() as int);
        if b[i].a == 0 {
            assert(s[i].a == 0);
            lemma_best_source_opaque(s, w, i, s.len() as int);
            match best_source_upto(s, w, i, s.len() as int) {
                None => {},
                Some(j) => {
                    assert(b[j] == s[j]);
                },
            }
        }
    }
}

/// An image whose pixels all have nonzero alpha is unchanged by bleeding.
pub proof fn lemma_bleed_opaque_identity(s: Seq<Pixel>, w: int)
    requires
        forall|i: int| 0 <= i < s.len() ==> (#[trigger] s[i]).a != 0,
    ensures
        spec_bleed(s, w) =~= s,
{
}

/// Chebyshev distance between positions `i` and `j`, executable form.
fn cheb_exec(w: usize, i: usize, j: usize) -> (d: usize)
    requires
        w > 0,
    ensures
        d == cheb(w as int, i as int, j as int),
{
    let xi = i % w;
    let yi = i / w;
    let xj = j % w;
    let yj = j / w;
    let dx = if xi >= xj {
        xi - xj
    } else {
        xj - xi
    };
    let dy = if yi >= yj {
        yi - yj
    } else {
        yj - yi
    };
    if dx >= dy {
        dx
    } else {
        dy
    }
}

/// The best source for target `i` over the whole image, executable form.
fn find_best_source(pixels: &Vec<Pixel>, w: usize, i: usize) -> (r: Option<usize>)
    requires
        w > 0,
    ensures
        r is None <==> best_source_upto(pixels@, w as int, i as int, pixels@.len() as int)
            is None,
        r matches Some(b) ==> best_source_upto(pixels@, w as int, i as int, pixels@.len() as int)
            == Some(b as int),
{
    let len = pixels.len();
    let mut best: Option<usize> = None;
    let mut j: usize = 0;
    while j < len
        invariant
            w > 0,
            0 <= j <= len == pixels@.len(),
            best is None <==> best_source_upto(pixels@, w as int, i as int, j as int) is None,
            best matches Some(b) ==> b < j && best_source_upto(
                pixels@,
                w as int,
                i as int,
                j as int,
            ) == Some(b as int),
        decreases len - j,
    {
        if pixels[j].a != 0 {
            match best {
                None => {
                    best = Some(j);
                },
                Some(p) => {
                    let dj = cheb_exec(w, i, j);
                    let dp = cheb_exec(w, i, p);
                    if dj < dp {
                        best = Some(j);
                    }
                },
            }
        }
        j = j + 1;
    }
    best
}

/// Alpha-bleeds the image in place.
///
/// Every pixel keeps its alpha; a pixel with zero alpha takes the RGB of
/// the nearest pixel with nonzero alpha (earliest in raster-scan order on
/// ties); all other pixels are unchanged.
pub fn alpha_bleed(img: &mut Raster)
    requires
        old(img).wf(),
    ensures
        final (img).wf(),
        final (img).width == old(img).width,
        final (img).height == old(img).height,
        final (img).pixels@ == spec_bleed(old(img).pixels@, old(img).width as int),
{
    let len = img.pixels.len();
    let w = img.width as usize;
    let ghost s = img.pixels@;
    let ghost wi = img.width as int;
    proof {
        let hi = old(img).height as int;
        if len > 0 {
            assert(wi > 0) by (nonlinear_arith)
                requires
                    s.len() > 0,
                    wi * hi == s.len(),
                    wi >= 0,
                    hi >= 0,
            ;
        }
    }
    let mut out: Vec<Pixel> = Vec::new();
    let mut i: usize = 0;
    while i < len
        invariant
            len == s.len(),
            w == wi,
            img.pixels@ == s,
            len > 0 ==> w > 0,
            0 <= i <= len,
            out@.len() == i,
            forall|k: int| 0 <= k < i ==> out@[k] == spec_bleed_pixel(s, wi, k),
        decreases len - i,
    {
        let p = img.pixels[i];
        if p.a != 0 {
            out.push(p);
        } else {
            match find_best_source(&img.pixels, w, i) {
                None => {
                    out.push(p);
                },
                Some(j) => {
                    proof {
                        lemma_best_source_opaque(s, wi, i as int, len as int);
                    }
                    let src = img.pixels[j];
                    out.push(Pixel { r: src.r, g: src.g, b: src.b, a: p.a });
                },
            }
        }
        i = i + 1;
    }
    img.pixels = out;
    proof {
        assert(img.pixels@ =~= spec_bleed(s, wi));
    }
}

} // verus!
