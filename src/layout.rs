//! Where images and delete tokens live on disk.
//!
//! Images are files named by their identifier; a delete token is a link named
//! by the token that points, relative to its own directory, at its image.
use vstd::prelude::*;
use vstd::string::StringExecFns;
use crate::ids::{format_id, id_text};

verus! {

/// The directory of the image files, with its separator.
pub open spec fn image_dir() -> Seq<char> {
    "data/image/"@
}

/// The directory of the delete-token links, with its separator.
pub open spec fn token_dir() -> Seq<char> {
    "data/delete_token/"@
}

/// The step from the token directory back to the data root's parent.
pub open spec fn up_two() -> Seq<char> {
    "../../"@
}

/// The extension of every stored image.
pub open spec fn image_ext() -> Seq<char> {
    ".jpeg"@
}

/// The path of the image file for `id`.
pub open spec fn image_path_of(id: u128) -> Seq<char> {
    image_dir() + id_text(id) + image_ext()
}

/// The path of the delete-token link for `token`.
pub open spec fn token_path_of(token: u128) -> Seq<char> {
    token_dir() + id_text(token)
}

/// What the delete-token link of the image `id` holds.
pub open spec fn link_target_of(id: u128) -> Seq<char> {
    up_two() + image_path_of(id)
}

/// The path at which a link in the token directory holding `target` points.
pub open spec fn resolved_of(target: Seq<char>) -> Seq<char> {
    token_dir() + target
}

/// The path of the image file for `id`.
pub fn image_path(id: u128) -> (r: String)
    ensures
        r@ == image_path_of(id),
{
    let mut p = String::from_str("data/image/");
    let t = format_id(id);
    p.append(t.as_str());
    p.append(".jpeg");
    proof {
        reveal_strlit("data/image/");
        reveal_strlit(".jpeg");
    }
    p
}

/// The path of the delete-token link for `token`.
pub fn delete_token_path(token: u128) -> (r: String)
    ensures
        r@ == token_path_of(token),
{
    let mut p = String::from_str("data/delete_token/");
    let t = format_id(token);
    p.append(t.as_str());
    proof {
        reveal_strlit("data/delete_token/");
    }
    p
}

/// What the delete-token link of the image `id` holds: the image's path,
/// relative to the token directory.
pub fn link_target(id: u128) -> (r: String)
    ensures
        r@ == link_target_of(id),
{
    let mut p = String::from_str("../../");
    let i = image_path(id);
    p.append(i.as_str());
    proof {
        reveal_strlit("../../");
    }
    p
}

/// The path that a link in the token directory holding `target` points at.
pub fn resolve_link(target: &str) -> (r: String)
    ensures
        r@ == resolved_of(target@),
{
    let mut p = String::from_str("data/delete_token/");
    p.append(target);
    proof {
        reveal_strlit("data/delete_token/");
    }
    p
}

} // verus!
