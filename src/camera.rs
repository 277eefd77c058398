use vstd::prelude::*;
use vstd::arithmetic::div_mod::{lemma_fundamental_div_mod, lemma_fundamental_div_mod_converse};

verus! {

/// A nominal aspect ratio `width : height`, such as 16 : 9.
#[derive(Clone, Copy, Debug, PartialEq, Eq, Structural)]
pub struct AspectRatio {
    pub width: u32,
    pub height: u32,
}

impl AspectRatio {
    /// Both sides of the ratio are positive.
    pub open spec fn wf(self) -> bool {
        self.width > 0 && self.height > 0
    }
}

/// `n / d` rounded to the nearest integer, halves rounded up.
pub open spec fn rounded_quotient(n: int, d: int) -> int {
    (2 * n + d) / (2 * d)
}

/// Number of image rows for an image `image_width` pixels wide at the given
/// aspect ratio: the rounded quotient, but never less than one row.
pub open spec fn image_height_of(image_width: nat, aspect: AspectRatio) -> int {
    let h = rounded_quotient(image_width * aspect.height, aspect.width as int);
    if h < 1 { 1 } else { h }
}

/// Derives the image height from its width and nominal aspect ratio.
pub fn image_height(image_width: u32, aspect: AspectRatio) -> (r: u64)
    requires
        aspect.wf(),
    ensures
        r == image_height_of(image_width as nat, aspect),
        r >= 1,
{
    proof {
        let (w, a) = (image_width as int, aspect.height as int);
        assert(0 <= w * a <= 0xffff_ffff * 0xffff_ffff) by (nonlinear_arith)
            requires 0 <= w <= 0xffff_ffff, 0 <= a <= 0xffff_ffff;
    }
    let x: u64 = image_width as u64 * aspect.height as u64;
    let d: u64 = aspect.width as u64;
    let q: u64 = x / d;
    let rem: u64 = x % d;
    let up: u64 = if 2 * rem >= d { 1 } else { 0 };
    proof {
        let (xi, di, qi, ri, ui) = (x as int, d as int, q as int, rem as int, up as int);
        lemma_fundamental_div_mod(xi, di);
        assert(xi == di * qi + ri);
        let r2 = if up == 1 { 2 * ri - di } else { 2 * ri + di };
        assert(2 * xi + di == (qi + ui) * (2 * di) + r2) by (nonlinear_arith)
            requires
                xi == di * qi + ri,
                ui == 0 || ui == 1,
                ui == 1 ==> r2 == 2 * ri - di,
                ui == 0 ==> r2 == 2 * ri + di,
        ;
        lemma_fundamental_div_mod_converse(2 * xi + di, 2 * di, qi + ui, r2);
    }
    let h: u64 = q + up;
    if h < 1 { 1 } else { h }
}

} // verus!
