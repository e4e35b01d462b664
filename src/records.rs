use vstd::prelude::*;

use crate::envelope::Follow;

verus! {

/// A local user account, looked up by its remote URL.
pub struct User {
    pub id: u64,
    pub ap_url: String,
}

/// A local publication account, looked up by its remote URL.
pub struct Blog {
    pub id: u64,
    pub ap_url: String,
}

/// A post. Its id is its position in the store.
pub struct Post {
    /// The publication that owns it; an article received from a peer names none.
    pub blog_id: Option<u64>,
    pub title: String,
    pub content: String,
    pub ap_url: String,
}

/// A reply. Its id is its position in the store.
pub struct Comment {
    pub content: String,
    pub spoiler_text: Option<String>,
    pub ap_url: Option<String>,
    /// The comment this one answers, if it answers a comment.
    pub in_response_to_id: Option<usize>,
    pub post_id: usize,
    pub author_id: u64,
    pub sensitive: bool,
}

/// A stored Like, addressed by the remote identifier of the activity that made it.
pub struct LikeRecord {
    pub post_id: usize,
    pub user_id: u64,
    pub ap_url: String,
}

/// A resolved actor: a user or a publication, by numeric id.
#[derive(Debug, Clone, Copy, PartialEq, Eq, Structural)]
pub enum Actor {
    User(u64),
    Publication(u64),
}

/// A resolved content record, by position.
#[derive(Debug, Clone, Copy, PartialEq, Eq, Structural)]
pub enum Content {
    Post(usize),
    Comment(usize),
}

/// What an accepted activity did.
pub enum Outcome {
    /// A post was stored at this position.
    PostCreated(usize),
    /// A comment was stored at this position.
    CommentCreated(usize),
    /// Both sides of a Follow resolved. Storing the relationship and answering
    /// the sender are left to whoever receives this.
    FollowAccepted { follower: u64, target: Actor, follow: Follow },
    /// A Like was stored.
    Liked,
    /// A stored Like was removed.
    Unliked,
    /// A record with the activity's remote identifier is already stored;
    /// nothing was changed.
    AlreadyStored,
}

} // verus!
