//! The image generation service's answer.
use vstd::prelude::*;

verus! {

/// The answer to an image generation: the images, base64-encoded, and the
/// generation's parameters as text.
pub struct Txt2ImgRes {
    pub images: Option<Vec<String>>,
    pub info: String,
}

} // verus!
