use vstd::prelude::*;

use crate::error::InboxError;
use crate::envelope::{spec_parse, Activity, Article, Follow, Like, Message, Note};
use crate::records::{Actor, Blog, Comment, Content, LikeRecord, Outcome, Post, User};

verus! {

/// What an inbox holds, as sequences of records in the order they were stored.
pub struct InboxView {
    pub users: Seq<User>,
    pub blogs: Seq<Blog>,
    pub posts: Seq<Post>,
    pub comments: Seq<Comment>,
    pub likes: Seq<LikeRecord>,
}

pub open spec fn comment_url(c: Comment) -> Option<Seq<char>> {
    match c.ap_url {
        Some(u) => Some(u@),
        None => None,
    }
}

impl InboxView {
    pub open spec fn user_urls(self) -> Seq<Seq<char>> {
        self.users.map_values(|u: User| u.ap_url@)
    }

    pub open spec fn blog_urls(self) -> Seq<Seq<char>> {
        self.blogs.map_values(|b: Blog| b.ap_url@)
    }

    pub open spec fn post_urls(self) -> Seq<Seq<char>> {
        self.posts.map_values(|p: Post| p.ap_url@)
    }

    pub open spec fn comment_urls(self) -> Seq<Option<Seq<char>>> {
        self.comments.map_values(|c: Comment| comment_url(c))
    }

    pub open spec fn like_urls(self) -> Seq<Seq<char>> {
        self.likes.map_values(|l: LikeRecord| l.ap_url@)
    }

    /// Position of the first user with this URL.
    pub open spec fn find_user(self, url: Seq<char>) -> Option<int> {
        self.user_urls().index_of_first(url)
    }

    pub open spec fn find_blog(self, url: Seq<char>) -> Option<int> {
        self.blog_urls().index_of_first(url)
    }

    pub open spec fn find_post(self, url: Seq<char>) -> Option<int> {
        self.post_urls().index_of_first(url)
    }

    pub open spec fn find_comment(self, url: Seq<char>) -> Option<int> {
        self.comment_urls().index_of_first(Some(url))
    }

    pub open spec fn find_like(self, url: Seq<char>) -> Option<int> {
        self.like_urls().index_of_first(url)
    }

    /// A user first, then a publication.
    pub open spec fn resolve_actor(self, url: Seq<char>) -> Result<Actor, InboxError> {
        match self.find_user(url) {
            Some(i) => Ok(Actor::User(self.users[i].id)),
            None => match self.find_blog(url) {
                Some(i) => Ok(Actor::Publication(self.blogs[i].id)),
                None => Err(InboxError::ActorNotFound),
            },
        }
    }

    /// A comment first, then a post.
    pub open spec fn resolve_content(self, url: Seq<char>) -> Result<Content, InboxError> {
        match self.find_comment(url) {
            Some(i) => Ok(Content::Comment(i as usize)),
            None => match self.find_post(url) {
                Some(i) => Ok(Content::Post(i as usize)),
                None => Err(InboxError::ContentNotFound),
            },
        }
    }

    /// No two comments share a remote identifier.
    pub open spec fn comment_urls_unique(self) -> bool {
        forall|i: int, j: int|
            0 <= i < self.comments.len() && 0 <= j < self.comments.len() && self.comment_urls()[i] is Some
                && self.comment_urls()[i] == self.comment_urls()[j] ==> i == j
    }

    /// Positions fit in `usize`, every remote identifier names at most one
    /// record, every reference between records points at a record that
    /// exists, and no URL names both a user and a publication.
    pub open spec fn wf(self) -> bool {
        &&& self.posts.len() <= usize::MAX && self.comments.len() <= usize::MAX
        &&& self.user_urls().no_duplicates() && self.blog_urls().no_duplicates()
        &&& self.post_urls().no_duplicates() && self.like_urls().no_duplicates()
        &&& self.comment_urls_unique()
        &&& forall|i: int| 0 <= i < self.comments.len() ==> self.comments[i].post_id < self.posts.len()
        &&& forall|i: int| 0 <= i < self.comments.len()
            ==> (#[trigger] self.comments[i].in_response_to_id matches Some(c) ==> c < i)
        &&& forall|i: int| 0 <= i < self.likes.len() ==> self.likes[i].post_id < self.posts.len()
        &&& forall|i: int, j: int| 0 <= i < self.users.len() && 0 <= j < self.blogs.len()
            ==> self.users[i].ap_url@ != self.blogs[j].ap_url@
    }
}

/// A Create whose object is an article: a post with its title, body and URL
/// is stored, unless a post with that URL already is. With any of the three
/// absent, nothing is stored.
pub open spec fn article_step(s: InboxView, a: Article) -> (InboxView, Result<Outcome, InboxError>) {
    match (a.name, a.content, a.url) {
        (Some(t), Some(c), Some(u)) => if s.find_post(u@) is Some {
            (s, Ok(Outcome::AlreadyStored))
        } else {
            (
                InboxView { posts: s.posts.push(Post { blog_id: None, title: t, content: c, ap_url: u }), ..s },
                Ok(Outcome::PostCreated(s.posts.len() as usize)),
            )
        },
        _ => (s, Err(InboxError::RequiredFieldMissing)),
    }
}

/// The thread a reply joins: the comment it answers, if any, and its post.
pub open spec fn thread_of(s: InboxView, target: Content) -> (Option<usize>, usize) {
    match target {
        Content::Comment(ci) => (Some(ci), s.comments[ci as int].post_id),
        Content::Post(pi) => (None, pi),
    }
}

/// A Create whose object is a reply by `author`. A reply whose identifier is
/// already a comment's is not stored again.
pub open spec fn note_step(s: InboxView, note: Note, author: Option<String>) -> (InboxView, Result<Outcome, InboxError>) {
    match (note.content, note.in_reply_to) {
        (Some(c), Some(target)) => {
            let user = match author {
                Some(a) => s.find_user(a@),
                None => None,
            };
            match user {
                None => (s, Err(InboxError::AuthorNotFound)),
                Some(ui) => match s.resolve_content(target@) {
                    Err(_) => (s, Err(InboxError::ThreadTargetNotFound)),
                    Ok(t) => if note.id matches Some(id) && s.find_comment(id@) is Some {
                        (s, Ok(Outcome::AlreadyStored))
                    } else { (
                        InboxView {
                            comments: s.comments.push(Comment {
                                content: c,
                                spoiler_text: note.summary,
                                ap_url: note.id,
                                in_response_to_id: thread_of(s, t).0,
                                post_id: thread_of(s, t).1,
                                author_id: s.users[ui].id,
                                sensitive: false,
                            }),
                            ..s
                        },
                        Ok(Outcome::CommentCreated(s.comments.len() as usize)),
                    ) },
                },
            }
        },
        _ => (s, Err(InboxError::RequiredFieldMissing)),
    }
}

/// A Follow from a user to a user or a publication. Nothing is stored.
pub open spec fn follow_step(s: InboxView, f: Follow) -> Result<Outcome, InboxError> {
    let from = match f.actor {
        Some(a) => s.find_user(a@),
        None => None,
    };
    match from {
        None => Err(InboxError::UnknownActor),
        Some(ui) => {
            let target = match f.object {
                Some(o) => s.resolve_actor(o@),
                None => Err(InboxError::ActorNotFound),
            };
            match target {
                Err(_) => Err(InboxError::UnknownTarget),
                Ok(t) => Ok(Outcome::FollowAccepted { follower: s.users[ui].id, target: t, follow: f }),
            }
        },
    }
}

/// A Like from a user of a post, stored under the activity's own identifier
/// unless a Like with that identifier is already stored.
pub open spec fn like_step(s: InboxView, l: Like) -> (InboxView, Result<Outcome, InboxError>) {
    let liker = match l.actor {
        Some(a) => s.find_user(a@),
        None => None,
    };
    let post = match l.object {
        Some(o) => s.find_post(o@),
        None => None,
    };
    match liker {
        None => (s, Err(InboxError::LikerNotFound)),
        Some(ui) => match post {
            None => (s, Err(InboxError::ContentNotFound)),
            Some(pi) => match l.id {
                None => (s, Err(InboxError::RequiredFieldMissing)),
                Some(id) => if s.find_like(id@) is Some {
                    (s, Ok(Outcome::AlreadyStored))
                } else {
                    (
                        InboxView {
                            likes: s.likes.push(LikeRecord { post_id: pi as usize, user_id: s.users[ui].id, ap_url: id }),
                            ..s
                        },
                        Ok(Outcome::Liked),
                    )
                },
            },
        },
    }
}

/// An Undo of the Like `l`: the stored Like with its identifier is removed.
pub open spec fn unlike_step(s: InboxView, l: Like) -> (InboxView, Result<Outcome, InboxError>) {
    match l.id {
        None => (s, Err(InboxError::RequiredFieldMissing)),
        Some(id) => match s.find_like(id@) {
            None => (s, Err(InboxError::LikeNotFound)),
            Some(i) => (InboxView { likes: s.likes.remove(i), ..s }, Ok(Outcome::Unliked)),
        },
    }
}

/// What processing one message does to the inbox, and what it returns.
pub open spec fn save_step(s: InboxView, m: Message) -> (InboxView, Result<Outcome, InboxError>) {
    match spec_parse(m) {
        Err(e) => (s, Err(e)),
        Ok(Activity::CreateArticle(a)) => article_step(s, a),
        Ok(Activity::CreateNote { note, author }) => note_step(s, note, author),
        Ok(Activity::Follow(f)) => (s, follow_step(s, f)),
        Ok(Activity::Like(l)) => like_step(s, l),
        Ok(Activity::UndoLike(l)) => unlike_step(s, l),
    }
}

/// The first position of `x` in `s` is `i`.
pub proof fn lemma_first_at<A>(s: Seq<A>, x: A, i: int)
    requires
        0 <= i < s.len(),
        s[i] == x,
        forall|j: int| 0 <= j < i ==> s[j] != x,
    ensures
        s.index_of_first(x) == Some(i),
{
    s.index_of_first_ensures(x);
    assert(s.contains(x));
}

/// `x` has no position in `s`.
pub proof fn lemma_absent<A>(s: Seq<A>, x: A)
    requires
        forall|j: int| 0 <= j < s.len() ==> s[j] != x,
    ensures
        s.index_of_first(x) is None,
        !s.contains(x),
{
    s.index_of_first_ensures(x);
}

/// Appending a new element keeps the elements distinct.
pub proof fn lemma_push_distinct<A>(s: Seq<A>, x: A)
    requires
        s.no_duplicates(),
        !s.contains(x),
    ensures
        s.push(x).no_duplicates(),
{
    let t = s.push(x);
    assert forall|i: int, j: int| 0 <= i < t.len() && 0 <= j < t.len() && i != j implies t[i] != t[j] by {
        if i < s.len() && j < s.len() {
            assert(t[i] == s[i] && t[j] == s[j]);
        } else if i < s.len() {
            assert(t[i] == s[i]);
        } else {
            assert(t[j] == s[j]);
        }
    }
}

/// Removing an element keeps the others distinct.
pub proof fn lemma_remove_distinct<A>(s: Seq<A>, k: int)
    requires
        s.no_duplicates(),
        0 <= k < s.len(),
    ensures
        s.remove(k).no_duplicates(),
        !s.remove(k).contains(s[k]),
{
    let t = s.remove(k);
    assert forall|i: int, j: int| 0 <= i < t.len() && 0 <= j < t.len() && i != j implies t[i] != t[j] by {
        let a = if i < k { i } else { i + 1 };
        let b = if j < k { j } else { j + 1 };
        assert(t[i] == s[a] && t[j] == s[b]);
    }
    assert forall|i: int| 0 <= i < t.len() implies t[i] != s[k] by {
        let a = if i < k { i } else { i + 1 };
        assert(t[i] == s[a]);
    }
}

} // verus!
