use vstd::prelude::*;

use crate::envelope::{spec_reference, Field, Message};
use crate::error::InboxError;
use crate::model::{lemma_first_at, lemma_push_distinct, lemma_remove_distinct, save_step, InboxView};
use crate::records::{LikeRecord, Outcome, Post};

verus! {

/// Exactly one stored Like carries the identifier `x`.
pub open spec fn stored_once(s: InboxView, x: Seq<char>) -> bool {
    &&& s.like_urls().contains(x)
    &&& forall|i: int, j: int|
        0 <= i < s.likes.len() && 0 <= j < s.likes.len() && s.like_urls()[i] == x && s.like_urls()[j] == x
            ==> i == j
}

/// The discriminators the inbox knows are told apart by their first letter.
proof fn lemma_kinds_distinct()
    ensures
        "Create"@ != "Follow"@,
        "Create"@ != "Like"@,
        "Create"@ != "Undo"@,
        "Follow"@ != "Like"@,
        "Follow"@ != "Undo"@,
        "Like"@ != "Undo"@,
        "Article"@ != "Note"@,
{
    reveal_strlit("Create");
    reveal_strlit("Follow");
    reveal_strlit("Like");
    reveal_strlit("Undo");
    reveal_strlit("Article");
    reveal_strlit("Note");
    assert("Create"@[0] != "Follow"@[0]);
    assert("Create"@[0] != "Like"@[0]);
    assert("Create"@[0] != "Undo"@[0]);
    assert("Follow"@[0] != "Like"@[0]);
    assert("Follow"@[0] != "Undo"@[0]);
    assert("Like"@[0] != "Undo"@[0]);
    assert("Article"@[0] != "Note"@[0]);
}

/// A message without a discriminator is refused as malformed, and nothing
/// is stored.
pub proof fn lemma_untyped_refused(s: InboxView, m: Message)
    requires
        m.kind is None,
    ensures
        save_step(s, m) == (s, Err::<Outcome, InboxError>(InboxError::MalformedEnvelope)),
{
}

/// A discriminator other than Create, Follow, Like and Undo is refused as
/// unsupported, and nothing is stored.
pub proof fn lemma_unknown_kind_refused(s: InboxView, m: Message)
    requires
        m.kind matches Some(k) && k@ != "Create"@ && k@ != "Follow"@ && k@ != "Like"@ && k@ != "Undo"@,
    ensures
        save_step(s, m) == (s, Err::<Outcome, InboxError>(InboxError::UnsupportedActivity)),
{
}

/// A Create of an article with a title, a body and a URL that no stored post
/// has stores exactly one post with those three, after the posts already
/// stored, and changes nothing else. With a URL already stored, or without one
/// of the three, it stores nothing.
pub proof fn lemma_article_creates_one_post(s: InboxView, m: Message)
    requires
        m.kind matches Some(k) && k@ == "Create"@,
        m.object matches Field::Nested(o) && (o.kind matches Some(ok) && ok@ == "Article"@),
    ensures
        ({
            let o = m.object->Nested_0;
            let (t, r) = save_step(s, m);
            match (o.name, o.content, o.url) {
                (Some(title), Some(content), Some(ap_url)) => if !s.post_urls().contains(ap_url@) {
                    &&& r == Ok::<Outcome, InboxError>(Outcome::PostCreated(s.posts.len() as usize))
                    &&& t.posts.len() == s.posts.len() + 1
                    &&& t.posts == s.posts.push(Post { blog_id: None, title, content, ap_url })
                    &&& t.users == s.users && t.blogs == s.blogs
                    &&& t.comments == s.comments && t.likes == s.likes
                } else {
                    t == s && r == Ok::<Outcome, InboxError>(Outcome::AlreadyStored)
                },
                _ => t == s && r == Err::<Outcome, InboxError>(InboxError::RequiredFieldMissing),
            }
        }),
{
    lemma_kinds_distinct();
    if let Some(u) = m.object->Nested_0.url {
        s.post_urls().index_of_first_ensures(u@);
    }
}

/// `m` is a Create of a reply with a body, by the user at `author`, answering
/// `target`, whose own identifier, if it has one, no stored comment has.
pub open spec fn new_reply(s: InboxView, m: Message, author: Seq<char>, target: Seq<char>) -> bool {
    &&& m.kind matches Some(k) && k@ == "Create"@
    &&& m.object matches Field::Nested(o) && (o.kind matches Some(ok) && ok@ == "Note"@)
    &&& m.object->Nested_0.content is Some
    &&& m.object->Nested_0.in_reply_to matches Some(u) && u@ == target
    &&& m.object->Nested_0.id matches Some(i) ==> !s.comment_urls().contains(Some(i@))
    &&& spec_reference(m.actor) matches Some(a) && a@ == author
    &&& s.user_urls().contains(author)
}

/// A reply to the stored comment `c` is stored as an answer to `c`, in the
/// post that `c` belongs to.
pub proof fn lemma_reply_to_comment(s: InboxView, m: Message, author: Seq<char>, target: Seq<char>, c: int)
    requires
        s.wf(),
        new_reply(s, m, author, target),
        0 <= c < s.comments.len(),
        s.comment_urls()[c] == Some(target),
    ensures
        ({
            let (t, r) = save_step(s, m);
            &&& r == Ok::<Outcome, InboxError>(Outcome::CommentCreated(s.comments.len() as usize))
            &&& t.comments.len() == s.comments.len() + 1
            &&& t.comments.drop_last() == s.comments
            &&& t.comments.last().post_id == s.comments[c].post_id
            &&& t.comments.last().in_response_to_id == Some(c as usize)
        }),
{
    lemma_kinds_distinct();
    s.user_urls().index_of_first_ensures(author);
    lemma_first_at(s.comment_urls(), Some(target), c);
    if let Some(i) = m.object->Nested_0.id {
        s.comment_urls().index_of_first_ensures(Some(i@));
    }
    let (t, r) = save_step(s, m);
    assert(t.comments.drop_last() =~= s.comments);
}

/// A reply to the stored post `p`, when no comment has that URL, is stored
/// in `p`, answering no comment.
pub proof fn lemma_reply_to_post(s: InboxView, m: Message, author: Seq<char>, target: Seq<char>, p: int)
    requires
        s.wf(),
        new_reply(s, m, author, target),
        0 <= p < s.posts.len(),
        s.post_urls()[p] == target,
        !s.comment_urls().contains(Some(target)),
    ensures
        ({
            let (t, r) = save_step(s, m);
            &&& r == Ok::<Outcome, InboxError>(Outcome::CommentCreated(s.comments.len() as usize))
            &&& t.comments.len() == s.comments.len() + 1
            &&& t.comments.drop_last() == s.comments
            &&& t.comments.last().post_id == p
            &&& t.comments.last().in_response_to_id is None
        }),
{
    lemma_kinds_distinct();
    s.user_urls().index_of_first_ensures(author);
    s.comment_urls().index_of_first_ensures(Some(target));
    lemma_first_at(s.post_urls(), target, p);
    if let Some(i) = m.object->Nested_0.id {
        s.comment_urls().index_of_first_ensures(Some(i@));
    }
    let (t, r) = save_step(s, m);
    assert(t.comments.drop_last() =~= s.comments);
}

/// Removing the element at `i` from a sequence of Likes removes the
/// identifier at `i` from their identifiers.
proof fn lemma_remove_urls(s: InboxView, i: int)
    requires
        0 <= i < s.likes.len(),
    ensures
        (InboxView { likes: s.likes.remove(i), ..s }).like_urls() == s.like_urls().remove(i),
{
    assert((InboxView { likes: s.likes.remove(i), ..s }).like_urls() =~= s.like_urls().remove(i));
}

/// Undoing a Like removes the stored Like `k` that carries its identifier
/// and nothing else; undoing it again is refused because no such Like is left.
pub proof fn lemma_undo_twice(s: InboxView, m: Message, x: Seq<char>, k: int)
    requires
        s.wf(),
        m.kind matches Some(kind) && kind@ == "Undo"@,
        m.object matches Field::Nested(o) && (o.kind matches Some(ok) && ok@ == "Like"@),
        m.object->Nested_0.id matches Some(id) && id@ == x,
        0 <= k < s.likes.len(),
        s.like_urls()[k] == x,
    ensures
        ({
            let (t, r) = save_step(s, m);
            &&& r == Ok::<Outcome, InboxError>(Outcome::Unliked)
            &&& t == (InboxView { likes: s.likes.remove(k), ..s })
            &&& !t.like_urls().contains(x)
            &&& save_step(t, m) == (t, Err::<Outcome, InboxError>(InboxError::LikeNotFound))
        }),
{
    lemma_kinds_distinct();
    lemma_first_at(s.like_urls(), x, k);
    let t = InboxView { likes: s.likes.remove(k), ..s };
    lemma_remove_urls(s, k);
    lemma_remove_distinct(s.like_urls(), k);
    t.like_urls().index_of_first_ensures(x);
}

/// A Like from a known user of a known post leaves exactly one stored Like
/// under the activity's identifier, storing it if none was; an Undo of it
/// removes that Like and nothing else, leaving the inbox as it was when the
/// Like was new; the same Undo once more is refused because no such Like is
/// left.
pub proof fn lemma_like_then_undo(s: InboxView, like: Message, undo: Message, x: Seq<char>)
    requires
        s.wf(),
        like.kind matches Some(k) && k@ == "Like"@,
        spec_reference(like.actor) matches Some(a) && s.user_urls().contains(a@),
        spec_reference(like.object) matches Some(o) && s.post_urls().contains(o@),
        like.id matches Some(id) && id@ == x,
        undo.kind matches Some(k) && k@ == "Undo"@,
        undo.object matches Field::Nested(o) && (o.kind matches Some(ok) && ok@ == "Like"@),
        undo.object->Nested_0.id matches Some(id) && id@ == x,
    ensures
        ({
            let (s1, r1) = save_step(s, like);
            let (s2, r2) = save_step(s1, undo);
            let (s3, r3) = save_step(s2, undo);
            &&& !s.like_urls().contains(x) ==> {
                &&& r1 == Ok::<Outcome, InboxError>(Outcome::Liked)
                &&& s1.likes.len() == s.likes.len() + 1
                &&& s1.likes.last().ap_url@ == x
                &&& s1.likes.drop_last() == s.likes
                &&& s2 == s
            }
            &&& s.like_urls().contains(x) ==> s1 == s && r1 == Ok::<Outcome, InboxError>(Outcome::AlreadyStored)
            &&& stored_once(s1, x)
            &&& s1.users == s.users && s1.blogs == s.blogs && s1.posts == s.posts && s1.comments == s.comments
            &&& r2 == Ok::<Outcome, InboxError>(Outcome::Unliked)
            &&& s2 == (InboxView { likes: s1.likes.remove(s1.find_like(x)->Some_0), ..s1 })
            &&& !s2.like_urls().contains(x)
            &&& r3 == Err::<Outcome, InboxError>(InboxError::LikeNotFound)
            &&& s3 == s2
        }),
{
    lemma_kinds_distinct();
    s.user_urls().index_of_first_ensures(spec_reference(like.actor)->Some_0@);
    s.post_urls().index_of_first_ensures(spec_reference(like.object)->Some_0@);
    s.like_urls().index_of_first_ensures(x);
    let (s1, r1) = save_step(s, like);
    let n = s.likes.len() as int;
    if !s.like_urls().contains(x) {
        assert(s1.like_urls() =~= s.like_urls().push(x));
        assert forall|j: int| 0 <= j < n implies s1.like_urls()[j] != x by {
            assert(s1.like_urls()[j] == s.like_urls()[j]);
        }
        assert(s1.like_urls()[n] == x);
        lemma_push_distinct(s.like_urls(), x);
        assert(s1.likes.remove(n) =~= s.likes);
        assert(s1.likes.drop_last() =~= s.likes);
        lemma_undo_twice(s1, undo, x, n);
    } else {
        let k = s.find_like(x)->Some_0;
        lemma_undo_twice(s1, undo, x, k);
    }
}

} // verus!
