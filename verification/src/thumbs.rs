//! Thumbnail generation: scaling a decoded source image down to the fixed
//! bounding box that cache records are stored at.
//!
//! The dimension arithmetic — fit the image inside the box, preserve its
//! aspect ratio, never collapse a side to zero — is the engine's own logic
//! and is verified here; the resampling itself is the image crate's work.

use vstd::prelude::*;
use vstd::arithmetic::div_mod::{lemma_div_is_ordered, lemma_div_multiples_vanish};

verus! {

/// Width of the fixed bounding box of a cached thumbnail, in pixels.
pub const THUMB_BOX_WIDTH: u32 = 256;

/// Height of the fixed bounding box of a cached thumbnail, in pixels.
pub const THUMB_BOX_HEIGHT: u32 = 256;

/// The dimensions of an image of size `w` by `h` scaled uniformly to the
/// largest size that fits inside a `bw` by `bh` box, each side truncated to
/// whole pixels but kept at least one pixel wide.
pub open spec fn fit_spec(w: int, h: int, bw: int, bh: int) -> (int, int) {
    if w * bh >= h * bw {
        let nh = h * bw / w;
        (bw, if nh < 1 { 1 } else { nh })
    } else {
        let nw = w * bh / h;
        (if nw < 1 { 1 } else { nw }, bh)
    }
}

/// Scales source dimensions to fit the given bounding box.
pub fn fit_dimensions(w: u32, h: u32, bw: u32, bh: u32) -> (r: (u32, u32))
    requires
        w > 0,
        h > 0,
        bw > 0,
        bh > 0,
    ensures
        r.0 == fit_spec(w as int, h as int, bw as int, bh as int).0,
        r.1 == fit_spec(w as int, h as int, bw as int, bh as int).1,
        1 <= r.0 <= bw,
        1 <= r.1 <= bh,
{
    proof {
        assert((w as int) * (bh as int) <= (u32::MAX as int) * (u32::MAX as int)
            && (h as int) * (bw as int) <= (u32::MAX as int) * (u32::MAX as int))
            by (nonlinear_arith)
            requires
                w <= u32::MAX,
                h <= u32::MAX,
                bw <= u32::MAX,
                bh <= u32::MAX,
        ;
    }
    let a: u64 = (w as u64) * (bh as u64);
    let b: u64 = (h as u64) * (bw as u64);
    if a >= b {
        let nh64: u64 = b / (w as u64);
        proof {
            lemma_div_is_ordered((h as int) * (bw as int), (w as int) * (bh as int), w as int);
            lemma_div_multiples_vanish(bh as int, w as int);
            assert((w as int) * (bh as int) / (w as int) == bh as int);
        }
        let nh: u32 = if nh64 < 1 {
            1
        } else {
            nh64 as u32
        };
        (bw, nh)
    } else {
        let nw64: u64 = a / (h as u64);
        proof {
            lemma_div_is_ordered((w as int) * (bh as int), (h as int) * (bw as int), h as int);
            lemma_div_multiples_vanish(bw as int, h as int);
            assert((h as int) * (bw as int) / (h as int) == bw as int);
        }
        let nw: u32 = if nw64 < 1 {
            1
        } else {
            nw64 as u32
        };
        (nw, bh)
    }
}

/// The thumbnail dimensions for a decoded source image, or `None` when a
/// reported dimension is zero and no thumbnail can be derived (the entry is
/// then skipped, never a fatal error).
pub fn thumbnail_dims(w: u32, h: u32) -> (r: Option<(u32, u32)>)
    ensures
        r is Some <==> w > 0 && h > 0,
        r matches Some(d) ==> (d.0 == fit_spec(
            w as int,
            h as int,
            THUMB_BOX_WIDTH as int,
            THUMB_BOX_HEIGHT as int,
        ).0 && d.1 == fit_spec(
            w as int,
            h as int,
            THUMB_BOX_WIDTH as int,
            THUMB_BOX_HEIGHT as int,
        ).1 && 1 <= d.0 <= THUMB_BOX_WIDTH && 1 <= d.1 <= THUMB_BOX_HEIGHT),
{
    if w == 0 || h == 0 {
        None
    } else {
        Some(fit_dimensions(w, h, THUMB_BOX_WIDTH, THUMB_BOX_HEIGHT))
    }
}

#[verifier::external_type_specification]
#[verifier::external_body]
pub struct ExDynamicImage(image::DynamicImage);

/// Relies on image::DynamicImage::width and image::DynamicImage::height: the
/// decoded image's pixel dimensions.
#[verifier::external_body]
fn image_dimensions(img: &image::DynamicImage) -> (r: (u32, u32)) {
    (img.width(), img.height())
}

/// Relies on image::DynamicImage::resize_exact with the Lanczos3 filter: a
/// high-quality resample of the image to exactly the given dimensions.
#[verifier::external_body]
fn resize_image(img: &image::DynamicImage, w: u32, h: u32) -> (r: image::DynamicImage) {
    img.resize_exact(w, h, image::imageops::FilterType::Lanczos3)
}

/// A generated thumbnail: the resampled raster and the dimensions it was
/// resampled to.
pub struct Thumbnail {
    pub image: image::DynamicImage,
    pub width: u32,
    pub height: u32,
}

impl Thumbnail {
    /// The dimensions a well-formed thumbnail may have: inside the fixed
    /// bounding box, with neither side collapsed.
    pub open spec fn wf(&self) -> bool {
        &&& 1 <= self.width <= THUMB_BOX_WIDTH
        &&& 1 <= self.height <= THUMB_BOX_HEIGHT
    }
}

/// Scales a decoded source image down into the fixed bounding box. Returns
/// `None` when the source reports a zero dimension; such a file is omitted
/// from the gallery rather than treated as an error.
pub fn make_thumbnail(src: &image::DynamicImage) -> (r: Option<Thumbnail>)
    ensures
        r matches Some(t) ==> t.wf(),
{
    let (w, h) = image_dimensions(src);
    match thumbnail_dims(w, h) {
        None => None,
        Some((tw, th)) => {
            let resized = resize_image(src, tw, th);
            Some(Thumbnail { image: resized, width: tw, height: th })
        },
    }
}

} // verus!
