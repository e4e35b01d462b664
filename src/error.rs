use vstd::prelude::*;

verus! {

/// Why an inbound activity was refused. Nothing is written to the store
/// when any of these is returned.
#[derive(Debug, Clone, Copy, PartialEq, Eq, Structural)]
pub enum InboxError {
    /// The message has no `type` property.
    MalformedEnvelope,
    /// The `type` (or, for a Create, the object's `type`) is not handled.
    UnsupportedActivity,
    /// An Undo whose object is not a Like.
    UnsupportedUndoTarget,
    /// A reference names neither a user nor a publication.
    ActorNotFound,
    /// The sender of a Follow is not a known user.
    UnknownActor,
    /// The object of a Follow is neither a known user nor a known publication.
    UnknownTarget,
    /// The author of a Note is not a known user.
    AuthorNotFound,
    /// The sender of a Like is not a known user.
    LikerNotFound,
    /// A reference names no known post or comment.
    ContentNotFound,
    /// A Note replies to neither a known comment nor a known post.
    ThreadTargetNotFound,
    /// An Undo names a Like that is not stored.
    LikeNotFound,
    /// A property that the activity needs is absent.
    RequiredFieldMissing,
}

impl InboxError {
    /// Whether this error comes from resolving an actor reference.
    pub fn is_actor_resolution_failure(&self) -> (r: bool)
        ensures
            r == (*self is ActorNotFound || *self is UnknownActor || *self is UnknownTarget
                || *self is AuthorNotFound || *self is LikerNotFound),
    {
        match self {
            InboxError::ActorNotFound | InboxError::UnknownActor | InboxError::UnknownTarget
            | InboxError::AuthorNotFound | InboxError::LikerNotFound => true,
            _ => false,
        }
    }

    /// Whether this error comes from resolving a content or like reference.
    pub fn is_content_resolution_failure(&self) -> (r: bool)
        ensures
            r == (*self is ContentNotFound || *self is ThreadTargetNotFound
                || *self is LikeNotFound),
    {
        match self {
            InboxError::ContentNotFound | InboxError::ThreadTargetNotFound
            | InboxError::LikeNotFound => true,
            _ => false,
        }
    }
}

} // verus!
