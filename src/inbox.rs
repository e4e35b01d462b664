use vstd::prelude::*;

use crate::error::InboxError;
use crate::envelope::{parse, Activity, Article, Follow, Like, Message, Note};
use crate::json::{read_message, reads, NESTING};
use crate::model::{
    lemma_push_distinct, lemma_remove_distinct,
    article_step, follow_step, lemma_absent, lemma_first_at, like_step, note_step, save_step, unlike_step,
    InboxView,
};
use crate::records::{Actor, Blog, Comment, Content, LikeRecord, Outcome, Post, User};
use crate::text::is_word;

verus! {

/// The records the inbox reads and writes.
pub struct Inbox {
    users: Vec<User>,
    blogs: Vec<Blog>,
    posts: Vec<Post>,
    comments: Vec<Comment>,
    likes: Vec<LikeRecord>,
}

impl View for Inbox {
    type V = InboxView;

    closed spec fn view(&self) -> InboxView {
        InboxView {
            users: self.users@,
            blogs: self.blogs@,
            posts: self.posts@,
            comments: self.comments@,
            likes: self.likes@,
        }
    }
}

impl Inbox {
    /// An inbox with no records.
    pub fn new() -> (r: Inbox)
        ensures
            r@.users.len() == 0,
            r@.blogs.len() == 0,
            r@.posts.len() == 0,
            r@.comments.len() == 0,
            r@.likes.len() == 0,
            r@.wf(),
    {
        Inbox { users: Vec::new(), blogs: Vec::new(), posts: Vec::new(), comments: Vec::new(), likes: Vec::new() }
    }

    /// Registers a user. Refused, with nothing changed, when the URL already
    /// names a user or a publication.
    pub fn add_user(&mut self, id: u64, ap_url: String) -> (r: bool)
        requires
            old(self)@.wf(),
        ensures
            r == (old(self)@.find_user(ap_url@) is None && old(self)@.find_blog(ap_url@) is None),
            r ==> final(self)@ == (InboxView { users: old(self)@.users.push(User { id, ap_url }), ..old(self)@ }),
            !r ==> final(self)@ == old(self)@,
            final(self)@.wf(),
    {
        if self.find_user(ap_url.as_str()).is_some() || self.find_blog(ap_url.as_str()).is_some() {
            return false;
        }
        proof {
            self@.blog_urls().index_of_first_ensures(ap_url@);
            assert forall|j: int| 0 <= j < self@.blogs.len() implies self@.blogs[j].ap_url@ != ap_url@ by {
                assert(self@.blog_urls()[j] == self@.blogs[j].ap_url@);
            }
        }
        let ghost old_urls = self@.user_urls();
        self.users.push(User { id, ap_url });
        proof {
            assert(self@.user_urls() =~= old_urls.push(ap_url@));
            lemma_push_distinct(old_urls, ap_url@);
        }
        true
    }

    /// Registers a publication. Refused, with nothing changed, when the URL
    /// already names a user or a publication.
    pub fn add_blog(&mut self, id: u64, ap_url: String) -> (r: bool)
        requires
            old(self)@.wf(),
        ensures
            r == (old(self)@.find_user(ap_url@) is None && old(self)@.find_blog(ap_url@) is None),
            r ==> final(self)@ == (InboxView { blogs: old(self)@.blogs.push(Blog { id, ap_url }), ..old(self)@ }),
            !r ==> final(self)@ == old(self)@,
            final(self)@.wf(),
    {
        if self.find_user(ap_url.as_str()).is_some() || self.find_blog(ap_url.as_str()).is_some() {
            return false;
        }
        proof {
            self@.user_urls().index_of_first_ensures(ap_url@);
            assert forall|j: int| 0 <= j < self@.users.len() implies self@.users[j].ap_url@ != ap_url@ by {
                assert(self@.user_urls()[j] == self@.users[j].ap_url@);
            }
        }
        let ghost old_urls = self@.blog_urls();
        self.blogs.push(Blog { id, ap_url });
        proof {
            assert(self@.blog_urls() =~= old_urls.push(ap_url@));
            lemma_push_distinct(old_urls, ap_url@);
        }
        true
    }

    pub fn users(&self) -> (r: &Vec<User>)
        ensures
            r@ == self@.users,
    {
        &self.users
    }

    pub fn blogs(&self) -> (r: &Vec<Blog>)
        ensures
            r@ == self@.blogs,
    {
        &self.blogs
    }

    pub fn posts(&self) -> (r: &Vec<Post>)
        ensures
            r@ == self@.posts,
    {
        &self.posts
    }

    pub fn comments(&self) -> (r: &Vec<Comment>)
        ensures
            r@ == self@.comments,
    {
        &self.comments
    }

    pub fn likes(&self) -> (r: &Vec<LikeRecord>)
        ensures
            r@ == self@.likes,
    {
        &self.likes
    }

    pub fn find_user(&self, url: &str) -> (r: Option<usize>)
        ensures
            r matches Some(i) ==> self@.find_user(url@) == Some(i as int) && i < self@.users.len(),
            r is None ==> self@.find_user(url@) is None,
            r is None ==> !self@.user_urls().contains(url@),
    {
        let mut i: usize = 0;
        while i < self.users.len()
            invariant
                i <= self.users@.len(),
                forall|j: int| 0 <= j < i ==> self@.user_urls()[j] != url@,
            decreases self.users@.len() - i,
        {
            if is_word(self.users[i].ap_url.as_str(), url) {
                proof { lemma_first_at(self@.user_urls(), url@, i as int); }
                return Some(i);
            }
            i = i + 1;
        }
        proof { lemma_absent(self@.user_urls(), url@); }
        None
    }

    pub fn find_blog(&self, url: &str) -> (r: Option<usize>)
        ensures
            r matches Some(i) ==> self@.find_blog(url@) == Some(i as int) && i < self@.blogs.len(),
            r is None ==> self@.find_blog(url@) is None,
            r is None ==> !self@.blog_urls().contains(url@),
    {
        let mut i: usize = 0;
        while i < self.blogs.len()
            invariant
                i <= self.blogs@.len(),
                forall|j: int| 0 <= j < i ==> self@.blog_urls()[j] != url@,
            decreases self.blogs@.len() - i,
        {
            if is_word(self.blogs[i].ap_url.as_str(), url) {
                proof { lemma_first_at(self@.blog_urls(), url@, i as int); }
                return Some(i);
            }
            i = i + 1;
        }
        proof { lemma_absent(self@.blog_urls(), url@); }
        None
    }

    pub fn find_post(&self, url: &str) -> (r: Option<usize>)
        ensures
            r matches Some(i) ==> self@.find_post(url@) == Some(i as int) && i < self@.posts.len(),
            r is None ==> self@.find_post(url@) is None,
            r is None ==> !self@.post_urls().contains(url@),
    {
        let mut i: usize = 0;
        while i < self.posts.len()
            invariant
                i <= self.posts@.len(),
                forall|j: int| 0 <= j < i ==> self@.post_urls()[j] != url@,
            decreases self.posts@.len() - i,
        {
            if is_word(self.posts[i].ap_url.as_str(), url) {
                proof { lemma_first_at(self@.post_urls(), url@, i as int); }
                return Some(i);
            }
            i = i + 1;
        }
        proof { lemma_absent(self@.post_urls(), url@); }
        None
    }

    pub fn find_comment(&self, url: &str) -> (r: Option<usize>)
        ensures
            r matches Some(i) ==> self@.find_comment(url@) == Some(i as int) && i < self@.comments.len(),
            r is None ==> self@.find_comment(url@) is None,
            r is None ==> !self@.comment_urls().contains(Some(url@)),
    {
        let mut i: usize = 0;
        while i < self.comments.len()
            invariant
                i <= self.comments@.len(),
                forall|j: int| 0 <= j < i ==> self@.comment_urls()[j] != Some(url@),
            decreases self.comments@.len() - i,
        {
            let hit = match &self.comments[i].ap_url {
                Some(u) => is_word(u.as_str(), url),
                None => false,
            };
            if hit {
                proof { lemma_first_at(self@.comment_urls(), Some(url@), i as int); }
                return Some(i);
            }
            i = i + 1;
        }
        proof { lemma_absent(self@.comment_urls(), Some(url@)); }
        None
    }

    pub fn find_like(&self, url: &str) -> (r: Option<usize>)
        ensures
            r matches Some(i) ==> self@.find_like(url@) == Some(i as int) && i < self@.likes.len(),
            r is None ==> self@.find_like(url@) is None,
            r is None ==> !self@.like_urls().contains(url@),
    {
        let mut i: usize = 0;
        while i < self.likes.len()
            invariant
                i <= self.likes@.len(),
                forall|j: int| 0 <= j < i ==> self@.like_urls()[j] != url@,
            decreases self.likes@.len() - i,
        {
            if is_word(self.likes[i].ap_url.as_str(), url) {
                proof { lemma_first_at(self@.like_urls(), url@, i as int); }
                return Some(i);
            }
            i = i + 1;
        }
        proof { lemma_absent(self@.like_urls(), url@); }
        None
    }

    /// Resolves a reference to a local actor: a user first, then a publication.
    pub fn resolve_actor(&self, url: &str) -> (r: Result<Actor, InboxError>)
        ensures
            r == self@.resolve_actor(url@),
    {
        match self.find_user(url) {
            Some(i) => Ok(Actor::User(self.users[i].id)),
            None => match self.find_blog(url) {
                Some(i) => Ok(Actor::Publication(self.blogs[i].id)),
                None => Err(InboxError::ActorNotFound),
            },
        }
    }

    /// Resolves a reference to a content record: a comment first, then a post.
    pub fn resolve_content(&self, url: &str) -> (r: Result<Content, InboxError>)
        ensures
            r == self@.resolve_content(url@),
            r matches Ok(Content::Comment(i)) ==> i < self@.comments.len(),
            r matches Ok(Content::Post(i)) ==> i < self@.posts.len(),
    {
        match self.find_comment(url) {
            Some(i) => Ok(Content::Comment(i)),
            None => match self.find_post(url) {
                Some(i) => Ok(Content::Post(i)),
                None => Err(InboxError::ContentNotFound),
            },
        }
    }

    /// Stores a post for a received article. Title, body and URL are all
    /// needed; without one of them nothing is stored, nor when a post with
    /// that URL is already stored.
    pub fn new_article(&mut self, article: Article) -> (r: Result<Outcome, InboxError>)
        requires
            old(self)@.wf(),
        ensures
            (final(self)@, r) == article_step(old(self)@, article),
            final(self)@.wf(),
    {
        match (article.name, article.content, article.url) {
            (Some(title), Some(content), Some(ap_url)) => {
                if self.find_post(ap_url.as_str()).is_some() {
                    return Ok(Outcome::AlreadyStored);
                }
                let id = self.posts.len();
                let ghost old_urls = self@.post_urls();
                self.posts.push(Post { blog_id: None, title, content, ap_url });
                proof {
                    assert(self.posts@.len() == self.posts.len());
                    assert(self@.post_urls() =~= old_urls.push(ap_url@));
                    lemma_push_distinct(old_urls, ap_url@);
                }
                Ok(Outcome::PostCreated(id))
            },
            _ => Err(InboxError::RequiredFieldMissing),
        }
    }

    /// Stores a reply by the user `actor_id`. The reply joins the thread of
    /// the comment it answers, or else the post it answers.
    pub fn new_comment(&mut self, note: Note, actor_id: Option<String>) -> (r: Result<Outcome, InboxError>)
        requires
            old(self)@.wf(),
        ensures
            (final(self)@, r) == note_step(old(self)@, note, actor_id),
            final(self)@.wf(),
    {
        let (content, target) = match (note.content, note.in_reply_to) {
            (Some(c), Some(t)) => (c, t),
            _ => { return Err(InboxError::RequiredFieldMissing); },
        };
        let author = match &actor_id {
            Some(a) => self.find_user(a.as_str()),
            None => None,
        };
        let ui = match author {
            Some(ui) => ui,
            None => { return Err(InboxError::AuthorNotFound); },
        };
        let (in_response_to_id, post_id) = match self.resolve_content(target.as_str()) {
            Ok(Content::Comment(ci)) => (Some(ci), self.comments[ci].post_id),
            Ok(Content::Post(pi)) => (None, pi),
            Err(_) => { return Err(InboxError::ThreadTargetNotFound); },
        };
        let known = match &note.id {
            Some(i) => self.find_comment(i.as_str()).is_some(),
            None => false,
        };
        if known {
            return Ok(Outcome::AlreadyStored);
        }
        let id = self.comments.len();
        let ghost old_view = self@;
        self.comments.push(Comment {
            content,
            spoiler_text: note.summary,
            ap_url: note.id,
            in_response_to_id,
            post_id,
            author_id: self.users[ui].id,
            sensitive: false,
        });
        proof {
            assert(self.comments@.len() == self.comments.len());
            assert(self@.comment_urls() =~= old_view.comment_urls().push(self@.comment_urls().last()));
            let n = old_view.comments.len() as int;
            assert forall|i: int, j: int|
                0 <= i < self@.comments.len() && 0 <= j < self@.comments.len()
                    && self@.comment_urls()[i] is Some
                    && self@.comment_urls()[i] == self@.comment_urls()[j] implies i == j by {
                if i < n && j < n {
                    assert(self@.comment_urls()[i] == old_view.comment_urls()[i]);
                    assert(self@.comment_urls()[j] == old_view.comment_urls()[j]);
                } else if i < n {
                    assert(self@.comment_urls()[i] == old_view.comment_urls()[i]);
                } else if j < n {
                    assert(self@.comment_urls()[j] == old_view.comment_urls()[j]);
                }
            }
        }
        Ok(Outcome::CommentCreated(id))
    }

    /// Resolves both sides of a Follow. The sender must be a user; the
    /// followed actor a user or a publication. Nothing is stored here.
    pub fn follow(&self, follow: Follow) -> (r: Result<Outcome, InboxError>)
        ensures
            r == follow_step(self@, follow),
    {
        let from = match &follow.actor {
            Some(a) => self.find_user(a.as_str()),
            None => None,
        };
        let ui = match from {
            Some(ui) => ui,
            None => { return Err(InboxError::UnknownActor); },
        };
        let target = match &follow.object {
            Some(o) => self.resolve_actor(o.as_str()),
            None => Err(InboxError::ActorNotFound),
        };
        match target {
            Ok(t) => Ok(Outcome::FollowAccepted { follower: self.users[ui].id, target: t, follow }),
            Err(_) => Err(InboxError::UnknownTarget),
        }
    }

    /// Stores a Like from a user of a post, under the activity's identifier,
    /// unless a Like with that identifier is already stored.
    pub fn like(&mut self, like: Like) -> (r: Result<Outcome, InboxError>)
        requires
            old(self)@.wf(),
        ensures
            (final(self)@, r) == like_step(old(self)@, like),
            final(self)@.wf(),
    {
        let liker = match &like.actor {
            Some(a) => self.find_user(a.as_str()),
            None => None,
        };
        let post = match &like.object {
            Some(o) => self.find_post(o.as_str()),
            None => None,
        };
        let ui = match liker {
            Some(ui) => ui,
            None => { return Err(InboxError::LikerNotFound); },
        };
        let pi = match post {
            Some(pi) => pi,
            None => { return Err(InboxError::ContentNotFound); },
        };
        match like.id {
            Some(ap_url) => {
                if self.find_like(ap_url.as_str()).is_some() {
                    return Ok(Outcome::AlreadyStored);
                }
                let ghost old_urls = self@.like_urls();
                self.likes.push(LikeRecord { post_id: pi, user_id: self.users[ui].id, ap_url });
                proof {
                    assert(self@.like_urls() =~= old_urls.push(ap_url@));
                    lemma_push_distinct(old_urls, ap_url@);
                }
                Ok(Outcome::Liked)
            },
            None => Err(InboxError::RequiredFieldMissing),
        }
    }

    /// Removes the stored Like that the undone Like activity created.
    pub fn unlike(&mut self, like: Like) -> (r: Result<Outcome, InboxError>)
        requires
            old(self)@.wf(),
        ensures
            (final(self)@, r) == unlike_step(old(self)@, like),
            final(self)@.wf(),
    {
        let id = match &like.id {
            Some(id) => id,
            None => { return Err(InboxError::RequiredFieldMissing); },
        };
        match self.find_like(id.as_str()) {
            Some(i) => {
                let ghost old_urls = self@.like_urls();
                self.likes.remove(i);
                proof {
                    assert(self@.like_urls() =~= old_urls.remove(i as int));
                    lemma_remove_distinct(old_urls, i as int);
                }
                Ok(Outcome::Unliked)
            },
            None => Err(InboxError::LikeNotFound),
        }
    }

    /// Processes one message: decides its kind, then hands it to its handler.
    /// Every reference is resolved before anything is stored, so a refused
    /// message leaves the inbox as it was.
    pub fn save(&mut self, act: Message) -> (r: Result<Outcome, InboxError>)
        requires
            old(self)@.wf(),
        ensures
            (final(self)@, r) == save_step(old(self)@, act),
            final(self)@.wf(),
    {
        match parse(act) {
            Err(e) => Err(e),
            Ok(Activity::CreateArticle(a)) => self.new_article(a),
            Ok(Activity::CreateNote { note, author }) => self.new_comment(note, author),
            Ok(Activity::Follow(f)) => self.follow(f),
            Ok(Activity::Like(l)) => self.like(l),
            Ok(Activity::UndoLike(l)) => self.unlike(l),
        }
    }

    /// Processes one delivered JSON activity, as `save` does with the
    /// message that holds its properties.
    pub fn received(&mut self, act: &serde_json::Value) -> (r: Result<Outcome, InboxError>)
        requires
            old(self)@.wf(),
        ensures
            exists|m: Message| reads(m, *act, NESTING as nat) && (final(self)@, r) == save_step(old(self)@, m),
            final(self)@.wf(),
    {
        let m = read_message(act, NESTING);
        let ghost g = m;
        let r = self.save(m);
        assert((self@, r) == save_step(old(self)@, g));
        r
    }
}

} // verus!
