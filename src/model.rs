//! A model of the storage directories, and the laws that the workflows keep
//! over it.
//!
//! The disk maps each location to a file or a link. A path is looked up at its
//! location: a path that climbs out of the token directory and back into the
//! data root (as a link target does, joined to its directory) names the same
//! entry as the path it climbs to.
use vstd::prelude::*;
use crate::error::ImageError;
use crate::auth::Authorizer;
use crate::normalize::{base64_decoded, decodes_as_image};
use crate::policy::{bounds_for, lemma_target_within_bounds};
use crate::workflow::{upload_error, UploadPlan, Uploaded};
use crate::ids::{hex_digit, id_text, nibble, is_hyphen_at, digit_index};
use crate::layout::{image_dir, image_ext, image_path_of, link_target_of, resolved_of, token_dir, token_path_of, up_two};

verus! {

/// An entry of the disk.
pub enum Node {
    /// A file with these bytes.
    File(Seq<u8>),
    /// A link holding this target.
    Link(Seq<char>),
}

/// The token directory followed by the climb back to the data root's parent.
pub open spec fn climb() -> Seq<char> {
    token_dir() + up_two()
}

/// The location that a path names.
pub open spec fn location(p: Seq<char>) -> Seq<char> {
    if climb().len() <= p.len() && p.take(climb().len() as int) == climb() {
        p.skip(climb().len() as int)
    } else {
        p
    }
}

proof fn lemma_hex_digit_not_dot(n: u128)
    requires
        n < 16,
    ensures
        hex_digit(n) != '.',
        hex_digit(n) != '/',
{
    let s = seq!['0', '1', '2', '3', '4', '5', '6', '7', '8', '9', 'a', 'b', 'c', 'd', 'e', 'f'];
    assert(hex_digit(n) == s[n as int]);
}

proof fn lemma_nibble_bound(id: u128, k: int)
    requires
        0 <= k < 32,
    ensures
        nibble(id, k) < 16,
{
    let s = (124 - 4 * k) as u128;
    assert((id >> s) & 15u128 < 16u128) by (bit_vector);
}

proof fn lemma_text_first_char(id: u128)
    ensures
        id_text(id)[0] != '.',
        id_text(id).len() == 36,
{
    lemma_nibble_bound(id, 0);
    lemma_hex_digit_not_dot(nibble(id, 0));
}

/// A token path is its own location.
pub proof fn lemma_token_location(token: u128)
    ensures
        location(token_path_of(token)) == token_path_of(token),
{
    reveal_strlit("data/delete_token/");
    reveal_strlit("../../");
    lemma_text_first_char(token);
    let p = token_path_of(token);
    if climb().len() <= p.len() && p.take(climb().len() as int) == climb() {
        assert(p.take(climb().len() as int)[18] == p[18]);
        assert(p[18] == id_text(token)[0]);
        assert(climb()[18] == '.');
    }
}

/// An image path is its own location.
pub proof fn lemma_image_location(id: u128)
    ensures
        location(image_path_of(id)) == image_path_of(id),
{
    reveal_strlit("data/delete_token/");
    reveal_strlit("data/image/");
    reveal_strlit("../../");
    let p = image_path_of(id);
    assert(p[5] == 'i');
    if climb().len() <= p.len() && p.take(climb().len() as int) == climb() {
        assert(p.take(climb().len() as int)[5] == p[5]);
        assert(climb()[5] == 'd');
    }
}

/// The link of an image, joined to the token directory, names the image's location.
pub proof fn lemma_link_resolves(id: u128)
    ensures
        location(resolved_of(link_target_of(id))) == image_path_of(id),
{
    let p = resolved_of(link_target_of(id));
    assert(p == climb() + image_path_of(id));
    assert(p.take(climb().len() as int) =~= climb());
    assert(p.skip(climb().len() as int) =~= image_path_of(id));
}

/// No token path is an image path.
pub proof fn lemma_token_not_image(token: u128, id: u128)
    ensures
        token_path_of(token) != image_path_of(id),
{
    reveal_strlit("data/delete_token/");
    reveal_strlit("data/image/");
    assert(token_path_of(token)[5] == 'd');
    assert(image_path_of(id)[5] == 'i');
}

proof fn lemma_hex_digit_injective(n: u128, m: u128)
    requires
        n < 16,
        m < 16,
        hex_digit(n) == hex_digit(m),
    ensures
        n == m,
{
}

proof fn lemma_nibbles_determine(a: u128, b: u128)
    requires
        (a >> 124u128) & 15u128 == (b >> 124u128) & 15u128,
        (a >> 120u128) & 15u128 == (b >> 120u128) & 15u128,
        (a >> 116u128) & 15u128 == (b >> 116u128) & 15u128,
        (a >> 112u128) & 15u128 == (b >> 112u128) & 15u128,
        (a >> 108u128) & 15u128 == (b >> 108u128) & 15u128,
        (a >> 104u128) & 15u128 == (b >> 104u128) & 15u128,
        (a >> 100u128) & 15u128 == (b >> 100u128) & 15u128,
        (a >> 96u128) & 15u128 == (b >> 96u128) & 15u128,
        (a >> 92u128) & 15u128 == (b >> 92u128) & 15u128,
        (a >> 88u128) & 15u128 == (b >> 88u128) & 15u128,
        (a >> 84u128) & 15u128 == (b >> 84u128) & 15u128,
        (a >> 80u128) & 15u128 == (b >> 80u128) & 15u128,
        (a >> 76u128) & 15u128 == (b >> 76u128) & 15u128,
        (a >> 72u128) & 15u128 == (b >> 72u128) & 15u128,
        (a >> 68u128) & 15u128 == (b >> 68u128) & 15u128,
        (a >> 64u128) & 15u128 == (b >> 64u128) & 15u128,
        (a >> 60u128) & 15u128 == (b >> 60u128) & 15u128,
        (a >> 56u128) & 15u128 == (b >> 56u128) & 15u128,
        (a >> 52u128) & 15u128 == (b >> 52u128) & 15u128,
        (a >> 48u128) & 15u128 == (b >> 48u128) & 15u128,
        (a >> 44u128) & 15u128 == (b >> 44u128) & 15u128,
        (a >> 40u128) & 15u128 == (b >> 40u128) & 15u128,
        (a >> 36u128) & 15u128 == (b >> 36u128) & 15u128,
        (a >> 32u128) & 15u128 == (b >> 32u128) & 15u128,
        (a >> 28u128) & 15u128 == (b >> 28u128) & 15u128,
        (a >> 24u128) & 15u128 == (b >> 24u128) & 15u128,
        (a >> 20u128) & 15u128 == (b >> 20u128) & 15u128,
        (a >> 16u128) & 15u128 == (b >> 16u128) & 15u128,
        (a >> 12u128) & 15u128 == (b >> 12u128) & 15u128,
        (a >> 8u128) & 15u128 == (b >> 8u128) & 15u128,
        (a >> 4u128) & 15u128 == (b >> 4u128) & 15u128,
        (a >> 0u128) & 15u128 == (b >> 0u128) & 15u128,
    ensures
        a == b,
{
    assert(a == b) by (bit_vector)
        requires
            (a >> 124u128) & 15u128 == (b >> 124u128) & 15u128,
            (a >> 120u128) & 15u128 == (b >> 120u128) & 15u128,
            (a >> 116u128) & 15u128 == (b >> 116u128) & 15u128,
            (a >> 112u128) & 15u128 == (b >> 112u128) & 15u128,
            (a >> 108u128) & 15u128 == (b >> 108u128) & 15u128,
            (a >> 104u128) & 15u128 == (b >> 104u128) & 15u128,
            (a >> 100u128) & 15u128 == (b >> 100u128) & 15u128,
            (a >> 96u128) & 15u128 == (b >> 96u128) & 15u128,
            (a >> 92u128) & 15u128 == (b >> 92u128) & 15u128,
            (a >> 88u128) & 15u128 == (b >> 88u128) & 15u128,
            (a >> 84u128) & 15u128 == (b >> 84u128) & 15u128,
            (a >> 80u128) & 15u128 == (b >> 80u128) & 15u128,
            (a >> 76u128) & 15u128 == (b >> 76u128) & 15u128,
            (a >> 72u128) & 15u128 == (b >> 72u128) & 15u128,
            (a >> 68u128) & 15u128 == (b >> 68u128) & 15u128,
            (a >> 64u128) & 15u128 == (b >> 64u128) & 15u128,
            (a >> 60u128) & 15u128 == (b >> 60u128) & 15u128,
            (a >> 56u128) & 15u128 == (b >> 56u128) & 15u128,
            (a >> 52u128) & 15u128 == (b >> 52u128) & 15u128,
            (a >> 48u128) & 15u128 == (b >> 48u128) & 15u128,
            (a >> 44u128) & 15u128 == (b >> 44u128) & 15u128,
            (a >> 40u128) & 15u128 == (b >> 40u128) & 15u128,
            (a >> 36u128) & 15u128 == (b >> 36u128) & 15u128,
            (a >> 32u128) & 15u128 == (b >> 32u128) & 15u128,
            (a >> 28u128) & 15u128 == (b >> 28u128) & 15u128,
            (a >> 24u128) & 15u128 == (b >> 24u128) & 15u128,
            (a >> 20u128) & 15u128 == (b >> 20u128) & 15u128,
            (a >> 16u128) & 15u128 == (b >> 16u128) & 15u128,
            (a >> 12u128) & 15u128 == (b >> 12u128) & 15u128,
            (a >> 8u128) & 15u128 == (b >> 8u128) & 15u128,
            (a >> 4u128) & 15u128 == (b >> 4u128) & 15u128,
            (a >> 0u128) & 15u128 == (b >> 0u128) & 15u128,
    ;
}

/// The position of the `k`-th digit in the hyphenated form.
spec fn digit_position(k: int) -> int {
    if k < 8 {
        k
    } else if k < 12 {
        k + 1
    } else if k < 16 {
        k + 2
    } else if k < 20 {
        k + 3
    } else {
        k + 4
    }
}

proof fn lemma_same_nibble(a: u128, b: u128, k: int)
    requires
        0 <= k < 32,
        id_text(a) == id_text(b),
    ensures
        nibble(a, k) == nibble(b, k),
{
    let i = digit_position(k);
    assert(!is_hyphen_at(i) && digit_index(i) == k);
    assert(id_text(a)[i] == hex_digit(nibble(a, k)));
    assert(id_text(b)[i] == hex_digit(nibble(b, k)));
    lemma_nibble_bound(a, k);
    lemma_nibble_bound(b, k);
    lemma_hex_digit_injective(nibble(a, k), nibble(b, k));
}

/// Distinct identifiers have distinct texts.
pub proof fn lemma_id_text_injective(a: u128, b: u128)
    ensures
        id_text(a) == id_text(b) ==> a == b,
{
    if id_text(a) == id_text(b) {
        lemma_same_nibble(a, b, 0);
        lemma_same_nibble(a, b, 1);
        lemma_same_nibble(a, b, 2);
        lemma_same_nibble(a, b, 3);
        lemma_same_nibble(a, b, 4);
        lemma_same_nibble(a, b, 5);
        lemma_same_nibble(a, b, 6);
        lemma_same_nibble(a, b, 7);
        lemma_same_nibble(a, b, 8);
        lemma_same_nibble(a, b, 9);
        lemma_same_nibble(a, b, 10);
        lemma_same_nibble(a, b, 11);
        lemma_same_nibble(a, b, 12);
        lemma_same_nibble(a, b, 13);
        lemma_same_nibble(a, b, 14);
        lemma_same_nibble(a, b, 15);
        lemma_same_nibble(a, b, 16);
        lemma_same_nibble(a, b, 17);
        lemma_same_nibble(a, b, 18);
        lemma_same_nibble(a, b, 19);
        lemma_same_nibble(a, b, 20);
        lemma_same_nibble(a, b, 21);
        lemma_same_nibble(a, b, 22);
        lemma_same_nibble(a, b, 23);
        lemma_same_nibble(a, b, 24);
        lemma_same_nibble(a, b, 25);
        lemma_same_nibble(a, b, 26);
        lemma_same_nibble(a, b, 27);
        lemma_same_nibble(a, b, 28);
        lemma_same_nibble(a, b, 29);
        lemma_same_nibble(a, b, 30);
        lemma_same_nibble(a, b, 31);
        lemma_nibbles_determine(a, b);
    }
}

/// What reading the link at path `p` hands back: its target, or nothing when
/// there is no entry there or the entry is no link.
pub open spec fn read_link(disk: Map<Seq<char>, Node>, p: Seq<char>) -> Option<Seq<char>> {
    if disk.contains_key(location(p)) {
        match disk[location(p)] {
            Node::Link(t) => Some(t),
            Node::File(_) => None,
        }
    } else {
        None
    }
}

/// Removing the entry at path `p`: the disk after, and whether there was one.
pub open spec fn remove_entry(disk: Map<Seq<char>, Node>, p: Seq<char>) -> (Map<Seq<char>, Node>, bool) {
    if disk.contains_key(location(p)) {
        (disk.remove(location(p)), true)
    } else {
        (disk, false)
    }
}

/// Retrieval of the image `id`: its bytes, or `NotFound`.
pub open spec fn retrieve(disk: Map<Seq<char>, Node>, id: u128) -> Result<Seq<u8>, ImageError> {
    let at = location(image_path_of(id));
    if disk.contains_key(at) {
        match disk[at] {
            Node::File(b) => Ok(b),
            Node::Link(_) => Err(ImageError::NotFound),
        }
    } else {
        Err(ImageError::NotFound)
    }
}

/// Performing an upload plan for `result` with bytes `jpeg`: the link is
/// created first (which fails where an entry already stands), then the image
/// is written; a failed step is `InternalError`.
pub open spec fn upload_run(disk: Map<Seq<char>, Node>, result: Uploaded, jpeg: Seq<u8>) -> (
    Map<Seq<char>, Node>,
    Result<Uploaded, ImageError>,
) {
    let link = location(token_path_of(result.delete_token));
    if disk.contains_key(link) {
        (disk, Err(ImageError::InternalError))
    } else {
        let linked = disk.insert(link, Node::Link(link_target_of(result.id)));
        (linked.insert(location(image_path_of(result.id)), Node::File(jpeg)), Ok(result))
    }
}

/// Performing the deletion steps for `token`, by a caller whose secret is
/// `allowed` or not. A token that is missing, or whose image is gone, is
/// `NotFound` and changes nothing.
pub open spec fn delete_run(disk: Map<Seq<char>, Node>, allowed: bool, token: u128) -> (
    Map<Seq<char>, Node>,
    Result<(), ImageError>,
) {
    if !allowed {
        (disk, Err(ImageError::Unauthorized))
    } else {
        match read_link(disk, token_path_of(token)) {
            None => (disk, Err(ImageError::NotFound)),
            Some(t) => {
                let (without_image, removed) = remove_entry(disk, resolved_of(t));
                if !removed {
                    (disk, Err(ImageError::NotFound))
                } else {
                    let (without_link, unlinked) = remove_entry(without_image, token_path_of(token));
                    if unlinked {
                        (without_link, Ok(()))
                    } else {
                        (without_link, Err(ImageError::InternalError))
                    }
                }
            },
        }
    }
}

/// An upload stores what it returns: retrieving its identifier gives its bytes.
pub proof fn lemma_upload_then_retrieve(disk: Map<Seq<char>, Node>, result: Uploaded, jpeg: Seq<u8>)
    requires
        upload_run(disk, result, jpeg).1 is Ok,
    ensures
        retrieve(upload_run(disk, result, jpeg).0, result.id) == Ok::<Seq<u8>, ImageError>(jpeg),
{
    lemma_image_location(result.id);
}

/// A successful deletion is effective: the image it removed can no longer be
/// retrieved, and the same token then gives `NotFound`, leaving the disk as it is.
pub proof fn lemma_deletion_effective(disk: Map<Seq<char>, Node>, token: u128, id: u128)
    requires
        read_link(disk, token_path_of(token)) == Some(link_target_of(id)),
        delete_run(disk, true, token).1 is Ok,
    ensures
        retrieve(delete_run(disk, true, token).0, id) == Err::<Seq<u8>, ImageError>(ImageError::NotFound),
        delete_run(delete_run(disk, true, token).0, true, token) == (
            delete_run(disk, true, token).0,
            Err::<(), ImageError>(ImageError::NotFound),
        ),
{
    lemma_link_resolves(id);
    lemma_image_location(id);
    lemma_token_location(token);
}

/// An upload can be deleted with its token, after which neither the image nor
/// the token is found.
pub proof fn lemma_upload_then_delete(disk: Map<Seq<char>, Node>, result: Uploaded, jpeg: Seq<u8>)
    requires
        upload_run(disk, result, jpeg).1 is Ok,
    ensures
        ({
            let stored = upload_run(disk, result, jpeg).0;
            let (after, outcome) = delete_run(stored, true, result.delete_token);
            &&& outcome == Ok::<(), ImageError>(())
            &&& retrieve(after, result.id) == Err::<Seq<u8>, ImageError>(ImageError::NotFound)
            &&& delete_run(after, true, result.delete_token).1 == Err::<(), ImageError>(ImageError::NotFound)
        }),
{
    let stored = upload_run(disk, result, jpeg).0;
    lemma_token_location(result.delete_token);
    lemma_image_location(result.id);
    lemma_link_resolves(result.id);
    lemma_token_not_image(result.delete_token, result.id);
    assert(read_link(stored, token_path_of(result.delete_token)) == Some(link_target_of(result.id)));
    lemma_deletion_effective(stored, result.delete_token, result.id);
}

/// A caller with the wrong secret is refused and the disk is left as it is.
pub proof fn lemma_unauthorized_delete(disk: Map<Seq<char>, Node>, token: u128)
    ensures
        delete_run(disk, false, token) == (disk, Err::<(), ImageError>(ImageError::Unauthorized)),
{
}

/// A delete token reaches only its own image: deleting with a token whose link
/// points at image `a` leaves every other image `b` as it was.
pub proof fn lemma_token_isolation(
    disk: Map<Seq<char>, Node>,
    allowed: bool,
    token: u128,
    a: u128,
    b: u128,
)
    requires
        read_link(disk, token_path_of(token)) == Some(link_target_of(a)),
        a != b,
    ensures
        retrieve(delete_run(disk, allowed, token).0, b) == retrieve(disk, b),
{
    lemma_link_resolves(a);
    lemma_image_location(a);
    lemma_image_location(b);
    lemma_token_location(token);
    lemma_token_not_image(token, b);
    lemma_id_text_injective(a, b);
    assert(image_path_of(a) != image_path_of(b)) by {
        if image_path_of(a) == image_path_of(b) {
            let n = image_dir().len() as int;
            assert(id_text(a) =~= image_path_of(a).subrange(n, n + 36));
            assert(id_text(b) =~= image_path_of(b).subrange(n, n + 36));
        }
    }
}

/// Of two uploads with distinct identifiers and tokens, the first one's token
/// deletes nothing of the second: its image is still retrieved.
pub proof fn lemma_uploads_isolated(
    disk: Map<Seq<char>, Node>,
    first: Uploaded,
    first_jpeg: Seq<u8>,
    second: Uploaded,
    second_jpeg: Seq<u8>,
    allowed: bool,
)
    requires
        first.id != second.id,
        first.delete_token != second.delete_token,
        upload_run(disk, first, first_jpeg).1 is Ok,
        upload_run(upload_run(disk, first, first_jpeg).0, second, second_jpeg).1 is Ok,
    ensures
        ({
            let both = upload_run(upload_run(disk, first, first_jpeg).0, second, second_jpeg).0;
            retrieve(delete_run(both, allowed, first.delete_token).0, second.id) == Ok::<
                Seq<u8>,
                ImageError,
            >(second_jpeg)
        }),
{
    let one = upload_run(disk, first, first_jpeg).0;
    let both = upload_run(one, second, second_jpeg).0;
    lemma_token_location(first.delete_token);
    lemma_token_location(second.delete_token);
    lemma_image_location(first.id);
    lemma_image_location(second.id);
    lemma_token_not_image(first.delete_token, first.id);
    lemma_token_not_image(first.delete_token, second.id);
    lemma_id_text_injective(first.delete_token, second.delete_token);
    assert(token_path_of(first.delete_token) != token_path_of(second.delete_token)) by {
        if token_path_of(first.delete_token) == token_path_of(second.delete_token) {
            let n = token_dir().len() as int;
            assert(id_text(first.delete_token) =~= token_path_of(first.delete_token).skip(n));
            assert(id_text(second.delete_token) =~= token_path_of(second.delete_token).skip(n));
        }
    }
    assert(read_link(both, token_path_of(first.delete_token)) == Some(link_target_of(first.id)));
    lemma_upload_then_retrieve(one, second, second_jpeg);
    lemma_token_isolation(both, allowed, first.delete_token, first.id, second.id);
}

/// A payload that is no base64, and one that is base64 but no image, are both
/// refused as `BadRequest` when the secret matches.
pub proof fn lemma_malformed_payload(auth: &Authorizer, supplied: Seq<char>, data: Seq<char>)
    requires
        auth.allows(supplied),
    ensures
        base64_decoded(data) is None ==> upload_error(auth, supplied, data) == Some(ImageError::BadRequest),
        (base64_decoded(data) is Some && !decodes_as_image(base64_decoded(data)->0)) ==> upload_error(
            auth,
            supplied,
            data,
        ) == Some(ImageError::BadRequest),
{
}

/// What an upload stores can be retrieved under its identifier, and its size
/// lies within the bounds of its orientation and within the size sent.
pub proof fn lemma_stored_within_bounds(disk: Map<Seq<char>, Node>, plan: UploadPlan)
    requires
        plan.well_formed(),
        upload_run(disk, plan.result, plan.jpeg@).1 is Ok,
    ensures
        retrieve(upload_run(disk, plan.result, plan.jpeg@).0, plan.result.id) == Ok::<
            Seq<u8>,
            ImageError,
        >(plan.jpeg@),
        plan.result.width <= bounds_for(plan.source_width, plan.source_height).0,
        plan.result.height <= bounds_for(plan.source_width, plan.source_height).1,
        plan.result.width <= plan.source_width,
        plan.result.height <= plan.source_height,
{
    lemma_upload_then_retrieve(disk, plan.result, plan.jpeg@);
    lemma_target_within_bounds(plan.source_width, plan.source_height);
}

/// Performing a whole upload: the error that decides it before anything is
/// stored, if any; otherwise the storage steps of its plan.
pub open spec fn ingest_run(
    disk: Map<Seq<char>, Node>,
    auth: &Authorizer,
    supplied: Seq<char>,
    data: Seq<char>,
    result: Uploaded,
    jpeg: Seq<u8>,
) -> (Map<Seq<char>, Node>, Result<Uploaded, ImageError>) {
    match upload_error(auth, supplied, data) {
        Some(e) => (disk, Err(e)),
        None => upload_run(disk, result, jpeg),
    }
}

/// An upload with the wrong secret is `Unauthorized` and leaves the disk as it is.
pub proof fn lemma_unauthorized_ingest(
    disk: Map<Seq<char>, Node>,
    auth: &Authorizer,
    supplied: Seq<char>,
    data: Seq<char>,
    result: Uploaded,
    jpeg: Seq<u8>,
)
    requires
        !auth.allows(supplied),
    ensures
        ingest_run(disk, auth, supplied, data, result, jpeg) == (
            disk,
            Err::<Uploaded, ImageError>(ImageError::Unauthorized),
        ),
{
}

/// An upload into a disk where its token is free stores exactly its link and
/// its image, and nothing else.
pub proof fn lemma_upload_effect(disk: Map<Seq<char>, Node>, result: Uploaded, jpeg: Seq<u8>)
    requires
        !disk.contains_key(token_path_of(result.delete_token)),
    ensures
        upload_run(disk, result, jpeg) == (
            disk.insert(token_path_of(result.delete_token), Node::Link(link_target_of(result.id))).insert(
                image_path_of(result.id),
                Node::File(jpeg),
            ),
            Ok::<Uploaded, ImageError>(result),
        ),
        read_link(upload_run(disk, result, jpeg).0, token_path_of(result.delete_token)) == Some(
            link_target_of(result.id),
        ),
{
    lemma_token_location(result.delete_token);
    lemma_image_location(result.id);
    lemma_token_not_image(result.delete_token, result.id);
}

/// A token whose image is gone is `NotFound`, and the disk is left as it is.
pub proof fn lemma_broken_token(disk: Map<Seq<char>, Node>, token: u128, id: u128)
    requires
        read_link(disk, token_path_of(token)) == Some(link_target_of(id)),
        !disk.contains_key(image_path_of(id)),
    ensures
        delete_run(disk, true, token) == (disk, Err::<(), ImageError>(ImageError::NotFound)),
{
    lemma_link_resolves(id);
}

} // verus!
