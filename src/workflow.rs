//! The ingestion and deletion workflows, as decisions between storage steps.
//!
//! The library decides what to store and where; the caller performs each
//! storage step and hands back what happened. No step is retried, and no
//! partial state is rolled back: a failed step ends the workflow.
use vstd::prelude::*;
use crate::auth::Authorizer;
use crate::error::ImageError;
use crate::ids::{is_random_id, new_id};
use crate::layout::{
    delete_token_path, image_path, image_path_of, link_target, link_target_of, resolve_link,
    resolved_of, token_path_of,
};
use crate::normalize::{normalize, payload_error, payload_size, Normalized};
use crate::policy::target_of;

verus! {

/// What an upload returns to its caller.
#[derive(Clone, Copy, Debug, PartialEq, Eq, Structural)]
pub struct Uploaded {
    /// The identifier under which the image can be retrieved.
    pub id: u128,
    /// The width of the stored image.
    pub width: u32,
    /// The height of the stored image.
    pub height: u32,
    /// The capability that deletes the image.
    pub delete_token: u128,
}

/// The storage steps of one upload, in order: create the link, then write the image.
pub struct UploadPlan {
    /// Where the delete-token link is created.
    pub link: String,
    /// What the link holds: the image path relative to the link's directory.
    pub link_target: String,
    /// Where the image file is written.
    pub image: String,
    /// The JPEG bytes written there.
    pub jpeg: Vec<u8>,
    /// What the upload returns once both steps succeeded.
    pub result: Uploaded,
    /// The width of the image as it was sent.
    pub source_width: u32,
    /// The height of the image as it was sent.
    pub source_height: u32,
}

impl UploadPlan {
    /// The plan stores the image under its identifier, with its link under its
    /// token, and the stored size is the policy's target for the size sent.
    pub open spec fn well_formed(&self) -> bool {
        &&& self.link@ == token_path_of(self.result.delete_token)
        &&& self.link_target@ == link_target_of(self.result.id)
        &&& self.image@ == image_path_of(self.result.id)
        &&& (self.result.width, self.result.height) == target_of(self.source_width, self.source_height)
    }
}

/// The error, if any, that decides an upload before anything is generated or stored.
pub open spec fn upload_error(auth: &Authorizer, supplied: Seq<char>, data: Seq<char>) -> Option<
    ImageError,
> {
    if !auth.allows(supplied) {
        Some(ImageError::Unauthorized)
    } else {
        payload_error(data)
    }
}

/// Authorizes an upload, normalises its image and draws a fresh image
/// identifier and a fresh, independent delete token. Nothing is stored yet:
/// the plan names the two storage steps.
pub fn plan_upload(auth: &Authorizer, supplied: &str, data: &str) -> (r: Result<
    UploadPlan,
    ImageError,
>)
    ensures
        upload_error(auth, supplied@, data@) is Some ==> r == Err::<UploadPlan, ImageError>(
            upload_error(auth, supplied@, data@)->0,
        ),
        upload_error(auth, supplied@, data@) is None ==> {
            let (w0, h0) = payload_size(data@);
            &&& (w0 == 0 || h0 == 0) ==> r == Err::<UploadPlan, ImageError>(ImageError::InternalError)
            &&& (w0 > 0 && h0 > 0) ==> {
                &&& r is Ok
                &&& r->Ok_0.source_width == w0
                &&& r->Ok_0.source_height == h0
            }
        },
        r is Ok ==> {
            let p = r->Ok_0;
            &&& p.well_formed()
            &&& is_random_id(p.result.id)
            &&& is_random_id(p.result.delete_token)
        },
{
    auth.authorize(supplied)?;
    let n: Normalized = normalize(data)?;
    let id = new_id();
    let delete_token = new_id();
    let link = delete_token_path(delete_token);
    let target = link_target(id);
    let image = image_path(id);
    let result = Uploaded { id, width: n.width, height: n.height, delete_token };
    Ok(
        UploadPlan {
            link,
            link_target: target,
            image,
            jpeg: n.jpeg,
            result,
            source_width: n.source_width,
            source_height: n.source_height,
        },
    )
}

/// Ends an upload once its storage steps were tried: creating the link, then
/// (only if that succeeded) writing the image. A failed step is
/// `InternalError`; a link whose image write failed is left in place.
pub fn upload_stored(result: Uploaded, linked: bool, written: bool) -> (r: Result<
    Uploaded,
    ImageError,
>)
    ensures
        linked && written ==> r == Ok::<Uploaded, ImageError>(result),
        !(linked && written) ==> r == Err::<Uploaded, ImageError>(ImageError::InternalError),
{
    if linked && written {
        Ok(result)
    } else {
        Err(ImageError::InternalError)
    }
}

/// What trying to remove a file came to.
#[derive(Clone, Copy, Debug, PartialEq, Eq, Structural)]
pub enum Removal {
    /// The file was removed.
    Removed,
    /// There was no such file.
    Absent,
    /// The file is there but could not be removed.
    Failed,
}

/// The next storage step of a deletion, or its end.
pub enum DeleteStep {
    /// Read the delete-token link at this path.
    ReadLink(String),
    /// Remove the image file at this path.
    RemoveImage(String),
    /// Remove the delete-token link at this path.
    RemoveLink(String),
    /// The deletion is over, with this outcome.
    Finish(Result<(), ImageError>),
}

/// Starts a deletion: an unauthorized caller is refused before any storage
/// step; otherwise the token's link is read.
pub fn delete_begin(auth: &Authorizer, supplied: &str, token: u128) -> (r: DeleteStep)
    ensures
        !auth.allows(supplied@) ==> r == DeleteStep::Finish(
            Err::<(), ImageError>(ImageError::Unauthorized),
        ),
        auth.allows(supplied@) ==> (r is ReadLink && r->ReadLink_0@ == token_path_of(token)),
{
    match auth.authorize(supplied) {
        Ok(()) => DeleteStep::ReadLink(delete_token_path(token)),
        Err(e) => DeleteStep::Finish(Err(e)),
    }
}

/// Continues a deletion once the link was read (`None`: it is missing or is
/// no link): an unresolvable token is `NotFound`; otherwise the image it
/// points at is removed.
pub fn delete_link_read(target: Option<String>) -> (r: DeleteStep)
    ensures
        target is None ==> r == DeleteStep::Finish(Err::<(), ImageError>(ImageError::NotFound)),
        target is Some ==> (r is RemoveImage && r->RemoveImage_0@ == resolved_of(target->0@)),
{
    match target {
        None => DeleteStep::Finish(Err(ImageError::NotFound)),
        Some(t) => DeleteStep::RemoveImage(resolve_link(t.as_str())),
    }
}

/// Continues a deletion once removing the image was tried. A link whose image
/// is gone is a broken token: `NotFound`, and nothing is changed. A failed
/// removal ends it as `InternalError`, with the link left in place. Otherwise
/// the link goes.
pub fn delete_image_removed(token: u128, removal: Removal) -> (r: DeleteStep)
    ensures
        removal == Removal::Absent ==> r == DeleteStep::Finish(Err::<(), ImageError>(ImageError::NotFound)),
        removal == Removal::Failed ==> r == DeleteStep::Finish(
            Err::<(), ImageError>(ImageError::InternalError),
        ),
        removal == Removal::Removed ==> (r is RemoveLink && r->RemoveLink_0@ == token_path_of(token)),
{
    match removal {
        Removal::Removed => DeleteStep::RemoveLink(delete_token_path(token)),
        Removal::Absent => DeleteStep::Finish(Err(ImageError::NotFound)),
        Removal::Failed => DeleteStep::Finish(Err(ImageError::InternalError)),
    }
}

/// Ends a deletion once removing the link was tried.
pub fn delete_link_removed(removed: bool) -> (r: DeleteStep)
    ensures
        removed ==> r == DeleteStep::Finish(Ok::<(), ImageError>(())),
        !removed ==> r == DeleteStep::Finish(Err::<(), ImageError>(ImageError::InternalError)),
{
    if removed {
        DeleteStep::Finish(Ok(()))
    } else {
        DeleteStep::Finish(Err(ImageError::InternalError))
    }
}

} // verus!
