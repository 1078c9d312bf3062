//! The decode worker's generic fallback path.
//!
//! When the format-optimised decoder cannot handle a file, the worker
//! falls back to the generic decoder of the `image` crate and then
//! downscales the result to the request's target size — only downwards,
//! never upscaling — with the high-quality filter for `Normal` requests
//! and the fastest filter for `Priority` ones.  Decode and resize errors
//! become failure messages, never a crash.
//!
//! What comes back from a decode depends on what is on disk, so the
//! trusted items here promise nothing of their results; the worker's
//! caller treats every outcome as one event (success or failure).

use crate::types::DecodeTier;
use vstd::prelude::*;

verus! {

#[verifier::external_type_specification]
#[verifier::external_body]
pub struct ExDynamicImage(image::DynamicImage);

/// Relies on `image::open`: reads the file at `path` and decodes it by
/// its extension's format.  The outcome depends on what is on disk, so
/// nothing is assumed of it; the error is carried as its message.
#[verifier::external_body]
fn open_image(path: &String) -> Result<image::DynamicImage, String> {
    image::open(path.as_str()).map_err(|e| e.to_string())
}

/// Relies on `DynamicImage::width`: the stored width of the decoded
/// image, about which nothing is assumed.
#[verifier::external_body]
fn image_width(img: &image::DynamicImage) -> u32 {
    img.width()
}

/// Relies on `DynamicImage::height`: the stored height of the decoded
/// image, about which nothing is assumed.
#[verifier::external_body]
fn image_height(img: &image::DynamicImage) -> u32 {
    img.height()
}

/// Relies on `DynamicImage::resize`: scales the image to fit within the
/// given bounds, preserving its aspect ratio.  The filter is the tier's
/// quality/latency profile: `Triangle` (high quality) for `Normal`,
/// `Nearest` (fastest) for `Priority`.
#[verifier::external_body]
fn resize_image(
    img: &image::DynamicImage,
    width: u32,
    height: u32,
    tier: DecodeTier,
) -> image::DynamicImage {
    let filter = match tier {
        DecodeTier::Normal => image::imageops::FilterType::Triangle,
        DecodeTier::Priority => image::imageops::FilterType::Nearest,
    };
    img.resize(width, height, filter)
}

/// Whether an image of the given size must be downscaled to fit a
/// target: exactly when it exceeds the target in either dimension.  An
/// image that already fits is never touched — no upscaling.
pub fn should_downscale(width: u32, height: u32, target_width: u32, target_height: u32) -> (r:
    bool)
    ensures
        r == (width > target_width || height > target_height),
{
    width > target_width || height > target_height
}

/// Generic fallback decode for a worker: opens the file, and downscales
/// the decoded image to the target size with the tier's filter — but
/// only when its dimensions exceed the target (`should_downscale`), an
/// image already small enough is kept as decoded.  Every error is
/// returned as a message, so the worker can report a failure outcome
/// instead of crashing.
pub fn decode_fallback(
    path: &String,
    target_width: u32,
    target_height: u32,
    tier: DecodeTier,
) -> Result<image::DynamicImage, String> {
    match open_image(path) {
        Err(e) => Err(e),
        Ok(img) => {
            let orig_width = image_width(&img);
            let orig_height = image_height(&img);
            if should_downscale(orig_width, orig_height, target_width, target_height) {
                Ok(resize_image(&img, target_width, target_height, tier))
            } else {
                Ok(img)
            }
        },
    }
}

} // verus!
