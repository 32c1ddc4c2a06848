//! The image normalizer: decode whatever was sent, bound its size, drop any
//! transparency and re-encode it as JPEG.
use vstd::prelude::*;
use base64::Engine;
use image::GenericImageView;
use crate::error::ImageError;
use crate::policy::{target_dimensions, target_of};

verus! {

#[verifier::external_type_specification]
#[verifier::external_body]
pub struct ExDynamicImage(image::DynamicImage);

/// The bytes that standard base64 (with padding) decodes `s` to, if it is well formed.
pub uninterp spec fn base64_decoded(s: Seq<char>) -> Option<Seq<u8>>;

/// Whether `b` is an image in a format that is recognised from its content.
pub uninterp spec fn decodes_as_image(b: Seq<u8>) -> bool;

/// Relies on `base64::Engine::decode` of `BASE64_STANDARD`: the decoded bytes,
/// or an error for malformed input.
#[verifier::external_body]
fn decode_base64(s: &str) -> (r: Option<Vec<u8>>)
    ensures
        match r {
            Some(v) => base64_decoded(s@) == Some(v@),
            None => base64_decoded(s@) is None,
        },
{
    base64::prelude::BASE64_STANDARD.decode(s).ok()
}

/// The (width, height) of the image that `b` decodes to.
pub uninterp spec fn decoded_size(b: Seq<u8>) -> (u32, u32);

/// A decoded image together with its size, as the image itself reports it.
struct Picture {
    img: image::DynamicImage,
    width: u32,
    height: u32,
}

/// Relies on `image::load_from_memory` (the format is guessed from the bytes,
/// then the image is decoded, or an error is returned) and on
/// `GenericImageView::dimensions` for its size.
#[verifier::external_body]
fn decode_image(bytes: &Vec<u8>) -> (r: Option<Picture>)
    ensures
        r is Some <==> decodes_as_image(bytes@),
        r is Some ==> (r->0.width, r->0.height) == decoded_size(bytes@),
{
    let img = image::load_from_memory(bytes.as_slice()).ok()?;
    let (width, height) = img.dimensions();
    Some(Picture { img, width, height })
}

/// Relies on `DynamicImage::resize_to_fill` with the Lanczos filter: scaled to
/// cover the size asked for, then cropped to exactly that size. Its scale
/// factors divide by the sizes, and its crop offsets subtract them, so no side
/// of either may be zero.
#[verifier::external_body]
fn fill(pic: &Picture, width: u32, height: u32) -> (r: Picture)
    requires
        pic.width > 0,
        pic.height > 0,
        width > 0,
        height > 0,
    ensures
        r.width == width,
        r.height == height,
{
    let img = pic.img.resize_to_fill(width, height, image::imageops::FilterType::Lanczos3);
    let (width, height) = img.dimensions();
    Picture { img, width, height }
}

/// Relies on `DynamicImage::into_rgb8`: three colour channels, alpha dropped,
/// size kept.
#[verifier::external_body]
fn flatten(pic: Picture) -> (r: Picture)
    ensures
        r.width == pic.width,
        r.height == pic.height,
{
    Picture {
        img: image::DynamicImage::ImageRgb8(pic.img.into_rgb8()),
        width: pic.width,
        height: pic.height,
    }
}

/// Relies on `DynamicImage::write_to` with `ImageFormat::Jpeg`: the encoded
/// bytes. The JPEG encoder refuses only sides outside 1 to 65535, and writing
/// into memory does not fail.
#[verifier::external_body]
fn encode_jpeg(pic: &Picture) -> (r: Option<Vec<u8>>)
    ensures
        0 < pic.width <= 65535 && 0 < pic.height <= 65535 ==> r is Some,
{
    let mut buf: Vec<u8> = Vec::new();
    let done = pic.img.write_to(&mut std::io::Cursor::new(&mut buf), image::ImageFormat::Jpeg);
    done.ok().map(|_| buf)
}

/// A normalised image, ready to be stored.
pub struct Normalized {
    /// The JPEG bytes.
    pub jpeg: Vec<u8>,
    /// The width of the stored image.
    pub width: u32,
    /// The height of the stored image.
    pub height: u32,
    /// The width of the image as it was sent.
    pub source_width: u32,
    /// The height of the image as it was sent.
    pub source_height: u32,
}

impl Normalized {
    /// The stored size is the policy's target for the size sent.
    pub open spec fn on_target(&self) -> bool {
        (self.width, self.height) == target_of(self.source_width, self.source_height)
    }
}

/// The input error, if any, that an upload payload `data` is refused for.
pub open spec fn payload_error(data: Seq<char>) -> Option<ImageError> {
    match base64_decoded(data) {
        None => Some(ImageError::BadRequest),
        Some(bytes) => if decodes_as_image(bytes) {
            None
        } else {
            Some(ImageError::BadRequest)
        },
    }
}

/// The size of the image in a payload that decodes.
pub open spec fn payload_size(data: Seq<char>) -> (u32, u32) {
    decoded_size(base64_decoded(data)->0)
}

/// Decodes a base64 image payload and normalises the image: it is resized
/// and cropped to exactly the policy's target for its size, its alpha
/// channel dropped, and it is encoded as JPEG. Malformed base64 or bytes that
/// are no image give `BadRequest`; an image without pixels gives
/// `InternalError`; every other image is normalised.
pub fn normalize(data: &str) -> (r: Result<Normalized, ImageError>)
    ensures
        payload_error(data@) is Some ==> r == Err::<Normalized, ImageError>(payload_error(data@)->0),
        payload_error(data@) is None ==> {
            let (w0, h0) = payload_size(data@);
            &&& (w0 == 0 || h0 == 0) ==> r == Err::<Normalized, ImageError>(ImageError::InternalError)
            &&& (w0 > 0 && h0 > 0) ==> {
                &&& r is Ok
                &&& r->Ok_0.source_width == w0
                &&& r->Ok_0.source_height == h0
                &&& r->Ok_0.on_target()
            }
        },
{
    let bytes = match decode_base64(data) {
        Some(b) => b,
        None => return Err(ImageError::BadRequest),
    };
    let pic = match decode_image(&bytes) {
        Some(p) => p,
        None => return Err(ImageError::BadRequest),
    };
    let source_width = pic.width;
    let source_height = pic.height;
    if source_width == 0 || source_height == 0 {
        return Err(ImageError::InternalError);
    }
    let (width, height) = target_dimensions(source_width, source_height);
    let resized = flatten(fill(&pic, width, height));
    match encode_jpeg(&resized) {
        Some(jpeg) => Ok(Normalized { jpeg, width, height, source_width, source_height }),
        None => Err(ImageError::InternalError),
    }
}

} // verus!
