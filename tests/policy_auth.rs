use backend::auth::Authorizer;
use backend::error::ImageError;
use backend::policy::{target_dimensions, MAX_IMAGE_BIG, MAX_IMAGE_SMALL};

#[test]
fn landscape_is_bounded_by_1280_by_720() {
    assert_eq!(target_dimensions(2000, 1000), (1280, 720));
}

#[test]
fn portrait_is_bounded_by_720_by_1280() {
    assert_eq!(target_dimensions(1000, 2000), (720, 1280));
}

#[test]
fn small_image_is_not_enlarged() {
    assert_eq!(target_dimensions(500, 300), (500, 300));
}

#[test]
fn square_counts_as_portrait() {
    assert_eq!(target_dimensions(1500, 1500), (720, 1280));
    assert_eq!(target_dimensions(800, 800), (720, 800));
}

#[test]
fn each_side_is_clamped_on_its_own() {
    assert_eq!(target_dimensions(1000, 900), (1000, 720));
    assert_eq!(target_dimensions(3000, 100), (1280, 100));
    assert_eq!(target_dimensions(0, 0), (0, 0));
    assert_eq!(target_dimensions(u32::MAX, u32::MAX - 1), (MAX_IMAGE_BIG, MAX_IMAGE_SMALL));
}

#[test]
fn matching_secret_is_allowed() {
    let auth = Authorizer::new("s3cret");
    assert_eq!(auth.authorize("s3cret"), Ok(()));
}

#[test]
fn mismatched_secret_is_unauthorized() {
    let auth = Authorizer::new("s3cret");
    assert_eq!(auth.authorize("s3cre"), Err(ImageError::Unauthorized));
    assert_eq!(auth.authorize("s3cret!"), Err(ImageError::Unauthorized));
    assert_eq!(auth.authorize(""), Err(ImageError::Unauthorized));
}

#[test]
fn empty_secret_accepts_only_empty_input() {
    let auth = Authorizer::new("");
    assert_eq!(auth.authorize(""), Ok(()));
    assert_eq!(auth.authorize("x"), Err(ImageError::Unauthorized));
}

#[test]
fn errors_map_to_statuses() {
    assert_eq!(ImageError::BadRequest.status_code(), 400);
    assert_eq!(ImageError::Unauthorized.status_code(), 401);
    assert_eq!(ImageError::NotFound.status_code(), 404);
    assert_eq!(ImageError::InternalError.status_code(), 500);
}
