use backend::ids::{format_id, new_id};
use backend::layout::{delete_token_path, image_path, link_target, resolve_link};

const SAMPLE: u128 = 0x0123_4567_89ab_cdef_0123_4567_89ab_cdef;

#[test]
fn id_text_is_hyphenated_lower_hex() {
    assert_eq!(format_id(SAMPLE), "01234567-89ab-cdef-0123-456789abcdef");
    assert_eq!(format_id(0), "00000000-0000-0000-0000-000000000000");
    assert_eq!(format_id(u128::MAX), "ffffffff-ffff-ffff-ffff-ffffffffffff");
}

#[test]
fn new_ids_are_random_version_four() {
    let id = new_id();
    assert_eq!((id >> 76) & 15, 4);
    assert_eq!((id >> 62) & 3, 2);
}

#[test]
fn new_ids_differ() {
    assert_ne!(new_id(), new_id());
}

#[test]
fn image_path_is_named_by_id() {
    assert_eq!(image_path(SAMPLE), "data/image/01234567-89ab-cdef-0123-456789abcdef.jpeg");
}

#[test]
fn token_path_is_named_by_token() {
    assert_eq!(delete_token_path(SAMPLE), "data/delete_token/01234567-89ab-cdef-0123-456789abcdef");
}

#[test]
fn link_target_climbs_two_levels() {
    assert_eq!(link_target(SAMPLE), "../../data/image/01234567-89ab-cdef-0123-456789abcdef.jpeg");
}

#[test]
fn link_resolves_against_token_directory() {
    assert_eq!(
        resolve_link("../../data/image/01234567-89ab-cdef-0123-456789abcdef.jpeg"),
        "data/delete_token/../../data/image/01234567-89ab-cdef-0123-456789abcdef.jpeg"
    );
}
