use vstd::prelude::*;

use crate::buffer::{EdgeResponse, LumaImage};

verus! {

/// The 4-neighbour discrete Laplacian `[[0,1,0],[1,-4,1],[0,1,0]]` at
/// `(x, y)`, with neighbours outside the image replicated from the border.
pub open spec fn laplacian_at(img: LumaImage, x: int, y: int) -> int {
    img.sample(x, y - 1) + img.sample(x - 1, y) + img.sample(x + 1, y) + img.sample(x, y + 1) - 4
        * img.sample(x, y)
}

/// The Laplacian response of every pixel, in row-major order.
pub open spec fn laplacian_seq(img: LumaImage) -> Seq<int> {
    Seq::new(img.samples@.len(), |i: int| laplacian_at(img, i % img.width as int, i / img.width as int))
}

/// Relies on imageproc::filter::laplacian_filter: a 3x3 correlation with the
/// 4-neighbour Laplacian kernel, clamping sample coordinates to the image,
/// written row by row into an image of the same dimensions. Its 8-bit
/// inputs keep every response within ±1020, so none saturates in `i16`.
/// `ImageBuffer::from_raw` and `into_raw` of the image crate only move the
/// samples in and out; `from_raw` succeeds since the storage matches the
/// dimensions.
#[verifier::external_body]
fn laplacian_filter_raw(img: &LumaImage) -> (r: Vec<i16>)
    requires
        img.wf(),
    ensures
        r@.len() == img.samples@.len(),
        forall|i: int|
            0 <= i < r@.len() ==> r@[i] as int == laplacian_at(
                *img,
                i % img.width as int,
                i / img.width as int,
            ),
{
    let gray = image::GrayImage::from_raw(img.width, img.height, img.samples.clone()).unwrap();
    imageproc::filter::laplacian_filter(&gray).into_raw()
}

/// The edge response of a luminance image: the 4-neighbour Laplacian of
/// every pixel, with edge replication at the borders.
pub fn laplacian_filter(img: &LumaImage) -> (r: EdgeResponse)
    requires
        img.wf(),
    ensures
        r.wf(),
        r.width == img.width,
        r.height == img.height,
        r.samples@.len() == img.samples@.len(),
        r.values() == laplacian_seq(*img),
{
    let samples = laplacian_filter_raw(img);
    let r = EdgeResponse { width: img.width, height: img.height, samples };
    assert(r.values() =~= laplacian_seq(*img));
    r
}

} // verus!
