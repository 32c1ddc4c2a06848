use base64::Engine;
use backend::auth::Authorizer;
use backend::error::ImageError;
use backend::layout::{delete_token_path, image_path, link_target};
use backend::normalize::normalize;
use backend::workflow::{
    delete_begin, delete_image_removed, delete_link_read, delete_link_removed, plan_upload,
    upload_stored, DeleteStep, Removal, Uploaded,
};
use image::GenericImageView;

fn png_payload(width: u32, height: u32) -> String {
    let img = image::RgbaImage::from_pixel(width, height, image::Rgba([10, 200, 30, 128]));
    encode_png(image::DynamicImage::ImageRgba8(img))
}

fn encode_png(img: image::DynamicImage) -> String {
    let mut buf: Vec<u8> = Vec::new();
    img.write_to(&mut std::io::Cursor::new(&mut buf), image::ImageFormat::Png).unwrap();
    base64::prelude::BASE64_STANDARD.encode(&buf)
}

fn jpeg_size(bytes: &[u8]) -> (u32, u32) {
    assert_eq!(&bytes[..2], &[0xff, 0xd8]);
    image::load_from_memory_with_format(bytes, image::ImageFormat::Jpeg).unwrap().dimensions()
}

#[test]
fn non_base64_payload_is_bad_request() {
    assert_eq!(normalize("not base64 at all!").err(), Some(ImageError::BadRequest));
}

#[test]
fn base64_non_image_payload_is_bad_request() {
    let data = base64::prelude::BASE64_STANDARD.encode(b"hello, this is no image");
    assert_eq!(normalize(&data).err(), Some(ImageError::BadRequest));
    assert_eq!(normalize("").err(), Some(ImageError::BadRequest));
}

#[test]
fn small_image_keeps_its_size_as_jpeg() {
    let n = normalize(&png_payload(30, 20)).unwrap();
    assert_eq!((n.width, n.height), (30, 20));
    assert_eq!((n.source_width, n.source_height), (30, 20));
    assert_eq!(jpeg_size(&n.jpeg), (30, 20));
}

#[test]
fn wide_image_is_cut_to_landscape_bounds() {
    let n = normalize(&png_payload(1400, 40)).unwrap();
    assert_eq!((n.width, n.height), (1280, 40));
    assert_eq!(jpeg_size(&n.jpeg), (1280, 40));
}

#[test]
fn tall_image_is_cut_to_portrait_bounds() {
    let n = normalize(&png_payload(40, 1400)).unwrap();
    assert_eq!((n.width, n.height), (40, 1280));
    assert_eq!(jpeg_size(&n.jpeg), (40, 1280));
}

#[test]
fn upload_with_wrong_secret_is_unauthorized() {
    let auth = Authorizer::new("key");
    assert_eq!(plan_upload(&auth, "nope", &png_payload(4, 4)).err(), Some(ImageError::Unauthorized));
    assert_eq!(plan_upload(&auth, "nope", "garbage").err(), Some(ImageError::Unauthorized));
}

#[test]
fn upload_with_malformed_payload_is_bad_request() {
    let auth = Authorizer::new("key");
    assert_eq!(plan_upload(&auth, "key", "%%%").err(), Some(ImageError::BadRequest));
    let data = base64::prelude::BASE64_STANDARD.encode(b"plain text");
    assert_eq!(plan_upload(&auth, "key", &data).err(), Some(ImageError::BadRequest));
}

#[test]
fn upload_plan_names_its_paths() {
    let auth = Authorizer::new("key");
    let plan = plan_upload(&auth, "key", &png_payload(8, 6)).unwrap();
    assert_eq!(plan.image, image_path(plan.result.id));
    assert_eq!(plan.link, delete_token_path(plan.result.delete_token));
    assert_eq!(plan.link_target, link_target(plan.result.id));
    assert_eq!((plan.result.width, plan.result.height), (8, 6));
    assert_eq!(jpeg_size(&plan.jpeg), (8, 6));
    assert_ne!(plan.result.id, plan.result.delete_token);
}

#[test]
fn identical_uploads_get_distinct_ids_and_tokens() {
    let auth = Authorizer::new("key");
    let data = png_payload(5, 5);
    let a = plan_upload(&auth, "key", &data).unwrap();
    let b = plan_upload(&auth, "key", &data).unwrap();
    assert_ne!(a.result.id, b.result.id);
    assert_ne!(a.result.delete_token, b.result.delete_token);
}

#[test]
fn delete_with_wrong_secret_is_unauthorized() {
    let auth = Authorizer::new("key");
    assert!(matches!(
        delete_begin(&auth, "other", 7),
        DeleteStep::Finish(Err(ImageError::Unauthorized))
    ));
}

#[test]
fn delete_reads_the_token_link_first() {
    let auth = Authorizer::new("key");
    match delete_begin(&auth, "key", 7) {
        DeleteStep::ReadLink(p) => assert_eq!(p, delete_token_path(7)),
        _ => panic!("expected a link read"),
    }
}

#[test]
fn missing_token_is_not_found() {
    assert!(matches!(delete_link_read(None), DeleteStep::Finish(Err(ImageError::NotFound))));
}

#[test]
fn resolved_token_removes_its_image_then_its_link() {
    let target = link_target(42);
    match delete_link_read(Some(target)) {
        DeleteStep::RemoveImage(p) => {
            assert_eq!(p, format!("data/delete_token/{}", link_target(42)))
        }
        _ => panic!("expected an image removal"),
    }
    match delete_image_removed(9, Removal::Removed) {
        DeleteStep::RemoveLink(p) => assert_eq!(p, delete_token_path(9)),
        _ => panic!("expected a link removal"),
    }
    assert!(matches!(delete_link_removed(true), DeleteStep::Finish(Ok(()))));
}

#[test]
fn failed_removals_are_internal_errors() {
    assert!(matches!(
        delete_image_removed(9, Removal::Failed),
        DeleteStep::Finish(Err(ImageError::InternalError))
    ));
    assert!(matches!(
        delete_link_removed(false),
        DeleteStep::Finish(Err(ImageError::InternalError))
    ));
}

#[test]
fn large_landscape_upload_is_exactly_1280_by_720() {
    let img = image::DynamicImage::ImageRgb8(image::RgbImage::new(2000, 1000));
    let auth = Authorizer::new("key");
    let plan = plan_upload(&auth, "key", &encode_png(img)).unwrap();
    assert_eq!((plan.result.width, plan.result.height), (1280, 720));
    assert_eq!((plan.source_width, plan.source_height), (2000, 1000));
    assert_eq!(jpeg_size(&plan.jpeg), (1280, 720));
}

#[test]
fn mid_size_image_is_kept_exactly() {
    let n = normalize(&png_payload(500, 300)).unwrap();
    assert_eq!((n.width, n.height), (500, 300));
    assert_eq!(jpeg_size(&n.jpeg), (500, 300));
}

#[test]
fn token_whose_image_is_gone_is_not_found() {
    assert!(matches!(
        delete_image_removed(9, Removal::Absent),
        DeleteStep::Finish(Err(ImageError::NotFound))
    ));
}

#[test]
fn upload_succeeds_only_when_both_steps_do() {
    let u = Uploaded { id: 1, width: 2, height: 3, delete_token: 4 };
    assert_eq!(upload_stored(u, true, true), Ok(u));
    assert_eq!(upload_stored(u, false, false), Err(ImageError::InternalError));
    assert_eq!(upload_stored(u, true, false), Err(ImageError::InternalError));
}
