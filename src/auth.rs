//! The capability authorizer: one shared secret, fixed at start-up.
use vstd::prelude::*;
use vstd::string::StringExecFns;
use crate::error::ImageError;

verus! {

/// Holds the configured secret and checks supplied secrets against it.
///
/// An empty configured secret accepts an empty supplied secret: the secret is
/// compared as a whole, with no special case for emptiness.
pub struct Authorizer {
    secret: String,
}

impl Authorizer {
    /// The configured secret.
    pub closed spec fn secret(&self) -> Seq<char> {
        self.secret@
    }

    /// Whether `supplied` grants access.
    pub open spec fn allows(&self, supplied: Seq<char>) -> bool {
        supplied == self.secret()
    }

    /// An authorizer for the configured `secret`.
    pub fn new(secret: &str) -> (r: Authorizer)
        ensures
            r.secret() == secret@,
    {
        Authorizer { secret: String::from_str(secret) }
    }

    /// Allows exactly the supplied secret that equals the configured one.
    pub fn authorize(&self, supplied: &str) -> (r: Result<(), ImageError>)
        ensures
            r is Ok <==> self.allows(supplied@),
            r is Err ==> r == Err::<(), ImageError>(ImageError::Unauthorized),
    {
        let given = String::from_str(supplied);
        if given == self.secret {
            Ok(())
        } else {
            Err(ImageError::Unauthorized)
        }
    }
}

} // verus!
