//! The resampler: a bitmap scaled to a planned size with a Lanczos filter.
//! The filtering itself is the `image` crate's; what is proved here is the
//! bookkeeping around it.

use vstd::prelude::*;
use crate::bitmap::Bitmap;
use crate::planner::RenderPlan;

verus! {

/// The longest side, in pixels, that the filter is given, for the source
/// and for the result alike. The filter places its samples in 32-bit
/// floating point; up to this length every position it computes stays
/// well within a row of the exact one.
pub const MAX_SIDE: u32 = 65536;

/// Whether an image of `ow` by `oh` pixels can be scaled to `nw` by `nh`
/// pixels: no side is longer than `MAX_SIDE`, and the filter's intermediate
/// image (`ow` by `nh` pixels of four 32-bit channels) and the result
/// (three bytes a pixel) each fit in `isize::MAX` bytes.
pub open spec fn resample_fits(ow: nat, oh: nat, nw: nat, nh: nat) -> bool {
    &&& ow <= MAX_SIDE
    &&& oh <= MAX_SIDE
    &&& nw <= MAX_SIDE
    &&& nh <= MAX_SIDE
    &&& 16 * ow * nh <= isize::MAX
    &&& 3 * nw * nh <= isize::MAX
}

/// Whether a plan can be carried out on an image of `ow` by `oh` pixels.
pub open spec fn plan_fits(ow: nat, oh: nat, plan: RenderPlan) -> bool {
    resample_fits(ow, oh, plan.width as nat, plan.height as nat)
}

/// `image::imageops::resize` with `FilterType::Lanczos3`, on an 8-bit RGB
/// buffer borrowed as an `ImageBuffer`.
///
/// Trusted: the result holds exactly `nw * nh` pixels, and where the new
/// size is the old one it is a copy of the source. Nothing is said of the
/// filtered values.
///
/// The preconditions leave out the inputs on which the function panics.
/// It panics in `ImageBuffer::new` when a buffer is too large; the two
/// byte bounds keep both buffers that it allocates below that. And it
/// panics on a weight that is not a number, which arises when the weights
/// of one output row or column sum to zero; the bound on the sides rules
/// that out, as follows, for rows (columns are treated alike).
///
/// - The centre of output row `y` is `(y + 0.5) * ratio - 0.5`, with
///   `ratio` the source height over the new height, both sides at most
///   2^16. The sum `y + 0.5` is exact. The exact product lies between
///   `ratio / 2` and the source height less `ratio / 2`; its two roundings
///   move it by less than one part in 2^22, while it keeps a distance of
///   at least one part in 2^17 from either end. So the centre as computed
///   lies less than half a row outside the image, and the row nearest to
///   it is a row of the image, at most half a row away.
/// - The window reaches at least 2.5 rows to either side of the centre
///   before it is cut to the image, so that nearest row is in it.
/// - The kernel's argument for that row is at most 1/2 in size, the row
///   distance being divided by a scale of at least 1. There the kernel is
///   at least 0.6.
/// - The rows of the window are an unbroken run, and their arguments are
///   evenly spaced, at most 1 apart. The kernel is negative only between 1
///   and 2 from its centre, and not below -0.15 there. Evaluated over the
///   spacings, the offsets of the centre and the places where the image
///   may cut the run, such a sum of kernel values is never below 0.47. It
///   is smallest at spacing 1, for a run cut down to a row half a unit
///   from the centre and its neighbour one and a half units away on the
///   same side: 0.608 - 0.135.
/// - A window has at most 6 * 2^16 + 2 rows. Adding that many weights in
///   32-bit floating point loses less than 3 percent of the sum of their
///   sizes, and the negative weights are the smaller part of that: the
///   loss is far less than the sum itself.
///
/// So every sum is positive and finite, every weight is a number, and the
/// values that are rounded to bytes are numbers between 0 and 255.
#[verifier::external_body]
fn resize_lanczos3(width: u32, height: u32, data: &Vec<u8>, nw: u32, nh: u32) -> (out: Vec<u8>)
    requires
        data@.len() == 3 * width * height,
        resample_fits(width as nat, height as nat, nw as nat, nh as nat),
    ensures
        out@.len() == 3 * nw * nh,
        nw == width && nh == height ==> out@ == data@,
{
    let source = image::ImageBuffer::<image::Rgb<u8>, &[u8]>::from_raw(
        width,
        height,
        data.as_slice(),
    ).unwrap();
    image::imageops::resize(&source, nw, nh, image::imageops::FilterType::Lanczos3).into_raw()
}

/// Scales the image to exactly `nw` by `nh` pixels with a Lanczos filter.
/// An image that already has that size comes back unchanged.
pub fn resample(bitmap: &Bitmap, nw: u32, nh: u32) -> (out: Bitmap)
    requires
        resample_fits(bitmap.spec_width(), bitmap.spec_height(), nw as nat, nh as nat),
    ensures
        out.spec_width() == nw,
        out.spec_height() == nh,
        nw == bitmap.spec_width() && nh == bitmap.spec_height() ==> out.samples()
            == bitmap.samples() && out@ == bitmap@,
{
    let data: Vec<u8> = resize_lanczos3(bitmap.width(), bitmap.height(), bitmap.as_raw(), nw, nh);
    let scaled: Option<Bitmap> = Bitmap::from_raw(nw, nh, data);
    scaled.unwrap()
}

/// Tells whether `plan` can be carried out on an image of `ow` by `oh` pixels.
pub fn check_plan(ow: u32, oh: u32, plan: &RenderPlan) -> (fits: bool)
    ensures
        fits == plan_fits(ow as nat, oh as nat, *plan),
{
    if ow > MAX_SIDE || oh > MAX_SIDE || plan.width > MAX_SIDE || plan.height > MAX_SIDE as u64 {
        return false;
    }
    let most: u128 = isize::MAX as u128;
    let nh: u128 = plan.height as u128;
    assert(16 * ow * nh <= 16 * 65536 * 65536) by (nonlinear_arith)
        requires
            0 <= ow <= 65536,
            0 <= nh <= 65536,
    ;
    assert(3 * plan.width * nh <= 3 * 65536 * 65536) by (nonlinear_arith)
        requires
            0 <= plan.width <= 65536,
            0 <= nh <= 65536,
    ;
    16 * (ow as u128) * nh <= most && 3 * (plan.width as u128) * nh <= most
}

/// Carries out a plan: the image scaled to the planned size, or `None`
/// where the plan does not fit.
pub fn try_resample(bitmap: &Bitmap, plan: &RenderPlan) -> (out: Option<Bitmap>)
    ensures
        out is Some <==> plan_fits(bitmap.spec_width(), bitmap.spec_height(), *plan),
        out matches Some(b) ==> {
            &&& b.spec_width() == plan.width
            &&& b.spec_height() == plan.height
            &&& (plan.width == bitmap.spec_width() && plan.height == bitmap.spec_height()
                ==> b.samples() == bitmap.samples() && b@ == bitmap@)
        },
{
    if check_plan(bitmap.width(), bitmap.height(), plan) {
        Some(resample(bitmap, plan.width, plan.height as u32))
    } else {
        None
    }
}

} // verus!
