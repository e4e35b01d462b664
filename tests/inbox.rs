use plume_inbox::envelope::{parse, Activity, Field, Like, Message};
use plume_inbox::error::InboxError;
use plume_inbox::inbox::Inbox;
use plume_inbox::records::{Actor, Content, Outcome};
use plume_inbox::text::is_word;

fn json(text: &str) -> serde_json::Value {
    serde_json::from_str(text).unwrap()
}

fn empty_message() -> Message {
    Message {
        kind: None,
        id: None,
        actor: Field::Absent,
        object: Field::Absent,
        name: None,
        content: None,
        url: None,
        summary: None,
        in_reply_to: None,
    }
}

/// An inbox with user 7 at https://a/u/alice, user 8 at https://a/u/bob,
/// publication 3 at https://a/b/news, and one post at https://a/p/1.
fn populated() -> Inbox {
    let mut inbox = Inbox::new();
    assert!(inbox.add_user(7, "https://a/u/alice".to_string()));
    assert!(inbox.add_user(8, "https://a/u/bob".to_string()));
    assert!(inbox.add_blog(3, "https://a/b/news".to_string()));
    let r = inbox.received(&json(
        r#"{"type":"Create","actor":"https://a/u/alice",
            "object":{"type":"Article","name":"First","content":"Body","url":"https://a/p/1"}}"#,
    ));
    assert!(matches!(r, Ok(Outcome::PostCreated(0))));
    inbox
}

fn like_json(id: &str) -> serde_json::Value {
    json(&format!(
        r#"{{"type":"Like","id":"{}","actor":"https://a/u/bob","object":"https://a/p/1"}}"#,
        id
    ))
}

fn undo_json(id: &str) -> serde_json::Value {
    json(&format!(
        r#"{{"type":"Undo","actor":"https://a/u/bob",
            "object":{{"type":"Like","id":"{}","actor":"https://a/u/bob","object":"https://a/p/1"}}}}"#,
        id
    ))
}

fn counts(inbox: &Inbox) -> (usize, usize, usize) {
    (inbox.posts().len(), inbox.comments().len(), inbox.likes().len())
}

#[test]
fn missing_type_is_malformed() {
    let mut inbox = populated();
    let before = counts(&inbox);
    let r = inbox.received(&json(r#"{"actor":"https://a/u/bob","object":"https://a/p/1"}"#));
    assert!(matches!(r, Err(InboxError::MalformedEnvelope)));
    assert_eq!(counts(&inbox), before);
}

#[test]
fn article_creates_one_post() {
    let mut inbox = populated();
    let r = inbox.received(&json(
        r#"{"type":"Create","actor":"https://a/u/alice",
            "object":{"type":"Article","name":"T","content":"C","url":"U"}}"#,
    ));
    assert!(matches!(r, Ok(Outcome::PostCreated(1))));
    assert_eq!(inbox.posts().len(), 2);
    let p = &inbox.posts()[1];
    assert_eq!(p.title, "T");
    assert_eq!(p.content, "C");
    assert_eq!(p.ap_url, "U");
    assert_eq!(p.blog_id, None);
}

#[test]
fn article_missing_field_stores_nothing() {
    let mut inbox = populated();
    let before = counts(&inbox);
    for text in [
        r#"{"type":"Create","object":{"type":"Article","content":"C","url":"U"}}"#,
        r#"{"type":"Create","object":{"type":"Article","name":"T","url":"U"}}"#,
        r#"{"type":"Create","object":{"type":"Article","name":"T","content":"C"}}"#,
    ] {
        let r = inbox.received(&json(text));
        assert!(matches!(r, Err(InboxError::RequiredFieldMissing)));
        assert_eq!(counts(&inbox), before);
    }
}

#[test]
fn reply_to_post_joins_post() {
    let mut inbox = populated();
    let r = inbox.received(&json(
        r#"{"type":"Create","actor":"https://a/u/bob",
            "object":{"type":"Note","id":"https://a/c/1","content":"Hi","summary":"cw","inReplyTo":"https://a/p/1"}}"#,
    ));
    assert!(matches!(r, Ok(Outcome::CommentCreated(0))));
    let c = &inbox.comments()[0];
    assert_eq!(c.post_id, 0);
    assert_eq!(c.in_response_to_id, None);
    assert_eq!(c.author_id, 8);
    assert_eq!(c.content, "Hi");
    assert_eq!(c.spoiler_text.as_deref(), Some("cw"));
    assert_eq!(c.ap_url.as_deref(), Some("https://a/c/1"));
    assert!(!c.sensitive);
}

#[test]
fn reply_to_comment_joins_its_post() {
    let mut inbox = populated();
    inbox.received(&json(
        r#"{"type":"Create","actor":"https://a/u/alice",
            "object":{"type":"Article","name":"Second","content":"B","url":"https://a/p/2"}}"#,
    ))
    .unwrap();
    inbox.received(&json(
        r#"{"type":"Create","actor":"https://a/u/bob",
            "object":{"type":"Note","id":"https://a/c/1","content":"Hi","inReplyTo":"https://a/p/2"}}"#,
    ))
    .unwrap();
    let r = inbox.received(&json(
        r#"{"type":"Create","actor":{"type":"Person","id":"https://a/u/alice"},
            "object":{"type":"Note","id":"https://a/c/2","content":"Yes","inReplyTo":"https://a/c/1"}}"#,
    ));
    assert!(matches!(r, Ok(Outcome::CommentCreated(1))));
    let c = &inbox.comments()[1];
    assert_eq!(c.post_id, 1);
    assert_eq!(c.in_response_to_id, Some(0));
    assert_eq!(c.author_id, 7);
    assert_eq!(c.spoiler_text, None);
}

#[test]
fn reply_errors() {
    let mut inbox = populated();
    let before = counts(&inbox);
    let r = inbox.received(&json(
        r#"{"type":"Create","actor":"https://a/u/bob","object":{"type":"Note","inReplyTo":"https://a/p/1"}}"#,
    ));
    assert!(matches!(r, Err(InboxError::RequiredFieldMissing)));
    let r = inbox.received(&json(
        r#"{"type":"Create","actor":"https://a/b/news",
            "object":{"type":"Note","content":"x","inReplyTo":"https://a/p/1"}}"#,
    ));
    assert!(matches!(r, Err(InboxError::AuthorNotFound)));
    let r = inbox.received(&json(
        r#"{"type":"Create","actor":"https://a/u/bob",
            "object":{"type":"Note","content":"x","inReplyTo":"https://a/p/9"}}"#,
    ));
    assert!(matches!(r, Err(InboxError::ThreadTargetNotFound)));
    assert_eq!(counts(&inbox), before);
}

#[test]
fn create_of_other_object_is_unsupported() {
    let mut inbox = populated();
    let r = inbox.received(&json(r#"{"type":"Create","object":{"type":"Video"}}"#));
    assert!(matches!(r, Err(InboxError::UnsupportedActivity)));
    let r = inbox.received(&json(r#"{"type":"Create","object":"https://a/p/1"}"#));
    assert!(matches!(r, Err(InboxError::UnsupportedActivity)));
}

#[test]
fn announce_is_unsupported() {
    let mut inbox = populated();
    let before = counts(&inbox);
    let r = inbox.received(&json(r#"{"type":"Announce","actor":"https://a/u/bob","object":"https://a/p/1"}"#));
    assert!(matches!(r, Err(InboxError::UnsupportedActivity)));
    assert_eq!(counts(&inbox), before);
}

#[test]
fn follow_user_and_publication() {
    let mut inbox = populated();
    let r = inbox.received(&json(
        r#"{"type":"Follow","id":"https://a/f/1","actor":"https://a/u/bob","object":"https://a/u/alice"}"#,
    ));
    match r {
        Ok(Outcome::FollowAccepted { follower, target, follow }) => {
            assert_eq!(follower, 8);
            assert_eq!(target, Actor::User(7));
            assert_eq!(follow.id.as_deref(), Some("https://a/f/1"));
        }
        _ => panic!("follow of a user refused"),
    }
    let r = inbox.received(&json(r#"{"type":"Follow","actor":"https://a/u/bob","object":"https://a/b/news"}"#));
    assert!(matches!(r, Ok(Outcome::FollowAccepted { follower: 8, target: Actor::Publication(3), .. })));
}

#[test]
fn follow_errors() {
    let mut inbox = populated();
    let before = counts(&inbox);
    let r = inbox.received(&json(r#"{"type":"Follow","actor":"https://a/b/news","object":"https://a/u/alice"}"#));
    assert!(matches!(r, Err(InboxError::UnknownActor)));
    let r = inbox.received(&json(r#"{"type":"Follow","actor":"https://a/u/bob","object":"https://a/u/nobody"}"#));
    assert!(matches!(r, Err(InboxError::UnknownTarget)));
    assert_eq!(counts(&inbox), before);
}

#[test]
fn like_errors() {
    let mut inbox = populated();
    let before = counts(&inbox);
    let r = inbox.received(&json(r#"{"type":"Like","id":"X","actor":"https://a/u/nobody","object":"https://a/p/1"}"#));
    assert!(matches!(r, Err(InboxError::LikerNotFound)));
    let r = inbox.received(&json(r#"{"type":"Like","id":"X","actor":"https://a/u/bob","object":"https://a/p/9"}"#));
    assert!(matches!(r, Err(InboxError::ContentNotFound)));
    let r = inbox.received(&json(r#"{"type":"Like","actor":"https://a/u/bob","object":"https://a/p/1"}"#));
    assert!(matches!(r, Err(InboxError::RequiredFieldMissing)));
    assert_eq!(counts(&inbox), before);
}

#[test]
fn like_then_undo_twice() {
    let mut inbox = populated();
    assert!(matches!(inbox.received(&like_json("X")), Ok(Outcome::Liked)));
    assert_eq!(inbox.likes().len(), 1);
    let l = &inbox.likes()[0];
    assert_eq!(l.ap_url, "X");
    assert_eq!(l.user_id, 8);
    assert_eq!(l.post_id, 0);
    assert!(matches!(inbox.received(&undo_json("X")), Ok(Outcome::Unliked)));
    assert_eq!(inbox.likes().len(), 0);
    assert!(matches!(inbox.received(&undo_json("X")), Err(InboxError::LikeNotFound)));
    assert_eq!(inbox.likes().len(), 0);
}

#[test]
fn undo_removes_only_its_like() {
    let mut inbox = populated();
    inbox.received(&like_json("X")).unwrap();
    inbox.received(&like_json("Y")).unwrap();
    assert!(matches!(inbox.received(&undo_json("X")), Ok(Outcome::Unliked)));
    assert_eq!(inbox.likes().len(), 1);
    assert_eq!(inbox.likes()[0].ap_url, "Y");
}

#[test]
fn undo_of_other_kind_is_refused() {
    let mut inbox = populated();
    inbox.received(&like_json("X")).unwrap();
    let r = inbox.received(&json(r#"{"type":"Undo","object":{"type":"Follow","id":"X"}}"#));
    assert!(matches!(r, Err(InboxError::UnsupportedUndoTarget)));
    let r = inbox.received(&json(r#"{"type":"Undo","object":"X"}"#));
    assert!(matches!(r, Err(InboxError::UnsupportedUndoTarget)));
    let r = inbox.received(&json(r#"{"type":"Undo","object":{"type":"Like"}}"#));
    assert!(matches!(r, Err(InboxError::RequiredFieldMissing)));
    assert_eq!(inbox.likes().len(), 1);
}

#[test]
fn parse_decides_kind() {
    let mut m = empty_message();
    m.kind = Some("Like".to_string());
    m.id = Some("L".to_string());
    m.actor = Field::Link("https://a/u/bob".to_string());
    m.object = Field::Link("https://a/p/1".to_string());
    match parse(m) {
        Ok(Activity::Like(Like { id, actor, object })) => {
            assert_eq!(id.as_deref(), Some("L"));
            assert_eq!(actor.as_deref(), Some("https://a/u/bob"));
            assert_eq!(object.as_deref(), Some("https://a/p/1"));
        }
        _ => panic!("a Like was not parsed as one"),
    }
    assert!(matches!(parse(empty_message()), Err(InboxError::MalformedEnvelope)));
    let mut m = empty_message();
    m.kind = Some("Liked".to_string());
    assert!(matches!(parse(m), Err(InboxError::UnsupportedActivity)));
}

#[test]
fn save_takes_messages() {
    let mut inbox = populated();
    let mut note = empty_message();
    note.kind = Some("Note".to_string());
    note.content = Some("via save".to_string());
    note.in_reply_to = Some("https://a/p/1".to_string());
    let mut m = empty_message();
    m.kind = Some("Create".to_string());
    m.actor = Field::Link("https://a/u/alice".to_string());
    m.object = Field::Nested(Box::new(note));
    assert!(matches!(inbox.save(m), Ok(Outcome::CommentCreated(0))));
    assert_eq!(inbox.comments()[0].author_id, 7);
    assert_eq!(inbox.comments()[0].ap_url, None);
}

#[test]
fn actor_resolution() {
    let inbox = populated();
    assert_eq!(inbox.resolve_actor("https://a/u/alice"), Ok(Actor::User(7)));
    assert_eq!(inbox.resolve_actor("https://a/b/news"), Ok(Actor::Publication(3)));
    assert_eq!(inbox.resolve_actor("https://a/x"), Err(InboxError::ActorNotFound));
    assert!(InboxError::ActorNotFound.is_actor_resolution_failure());
    assert!(!InboxError::LikeNotFound.is_actor_resolution_failure());
    assert!(InboxError::LikeNotFound.is_content_resolution_failure());
    assert!(!InboxError::MalformedEnvelope.is_content_resolution_failure());
}

#[test]
fn content_resolution() {
    let mut inbox = populated();
    inbox.received(&json(
        r#"{"type":"Create","actor":"https://a/u/bob",
            "object":{"type":"Note","id":"https://a/c/1","content":"Hi","inReplyTo":"https://a/p/1"}}"#,
    ))
    .unwrap();
    assert_eq!(inbox.resolve_content("https://a/p/1"), Ok(Content::Post(0)));
    assert_eq!(inbox.resolve_content("https://a/c/1"), Ok(Content::Comment(0)));
    assert_eq!(inbox.resolve_content("https://a/c/2"), Err(InboxError::ContentNotFound));
}

#[test]
fn actor_urls_stay_disjoint() {
    let mut inbox = populated();
    assert!(!inbox.add_user(9, "https://a/b/news".to_string()));
    assert!(!inbox.add_blog(9, "https://a/u/alice".to_string()));
    assert!(!inbox.add_user(9, "https://a/u/alice".to_string()));
    assert_eq!(inbox.users().len(), 2);
    assert_eq!(inbox.blogs().len(), 1);
}

#[test]
fn words_compare_exactly() {
    assert!(is_word("Like", "Like"));
    assert!(!is_word("Like", "Lik"));
    assert!(!is_word("Like", "like"));
    assert!(is_word("", ""));
}

#[test]
fn second_like_with_same_identifier_stores_nothing() {
    let mut inbox = populated();
    assert!(matches!(inbox.received(&like_json("X")), Ok(Outcome::Liked)));
    assert!(matches!(inbox.received(&like_json("X")), Ok(Outcome::AlreadyStored)));
    assert_eq!(inbox.likes().len(), 1);
    assert!(matches!(inbox.received(&undo_json("X")), Ok(Outcome::Unliked)));
    assert!(matches!(inbox.received(&undo_json("X")), Err(InboxError::LikeNotFound)));
    assert_eq!(inbox.likes().len(), 0);
}

#[test]
fn article_with_stored_url_stores_nothing() {
    let mut inbox = populated();
    let r = inbox.received(&json(
        r#"{"type":"Create","object":{"type":"Article","name":"Other","content":"D","url":"https://a/p/1"}}"#,
    ));
    assert!(matches!(r, Ok(Outcome::AlreadyStored)));
    assert_eq!(inbox.posts().len(), 1);
    assert_eq!(inbox.posts()[0].title, "First");
}

#[test]
fn reply_with_stored_identifier_stores_nothing() {
    let mut inbox = populated();
    let text = r#"{"type":"Create","actor":"https://a/u/bob",
        "object":{"type":"Note","id":"https://a/c/1","content":"Hi","inReplyTo":"https://a/p/1"}}"#;
    assert!(matches!(inbox.received(&json(text)), Ok(Outcome::CommentCreated(0))));
    assert!(matches!(inbox.received(&json(text)), Ok(Outcome::AlreadyStored)));
    assert_eq!(inbox.comments().len(), 1);
}
