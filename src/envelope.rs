use vstd::prelude::*;

use crate::error::InboxError;
use crate::text::is_word;

verus! {

/// A property whose value is either a bare reference or a nested object.
pub enum Field {
    Absent,
    Link(String),
    Nested(Box<Message>),
}

/// An inbound message with no kind given to it yet: the properties that
/// the inbox reads, each as it was delivered.
pub struct Message {
    /// The discriminator (`type`).
    pub kind: Option<String>,
    /// The remote identifier of the message itself (`id`).
    pub id: Option<String>,
    pub actor: Field,
    pub object: Field,
    /// Title of an article (`name`).
    pub name: Option<String>,
    pub content: Option<String>,
    pub url: Option<String>,
    pub summary: Option<String>,
    pub in_reply_to: Option<String>,
}

/// The object of a Create that is an article.
pub struct Article {
    pub name: Option<String>,
    pub content: Option<String>,
    pub url: Option<String>,
}

/// The object of a Create that is a reply.
pub struct Note {
    pub id: Option<String>,
    pub content: Option<String>,
    pub summary: Option<String>,
    pub in_reply_to: Option<String>,
}

/// A Follow: `actor` asks to follow `object`.
pub struct Follow {
    pub id: Option<String>,
    pub actor: Option<String>,
    pub object: Option<String>,
}

/// A Like: `actor` likes the content `object`.
pub struct Like {
    pub id: Option<String>,
    pub actor: Option<String>,
    pub object: Option<String>,
}

/// A message with its kind decided, once, from its discriminators.
pub enum Activity {
    CreateArticle(Article),
    CreateNote { note: Note, author: Option<String> },
    Follow(Follow),
    Like(Like),
    UndoLike(Like),
}

/// The URL a property refers to: the link itself, or the nested object's `id`.
pub open spec fn spec_reference(f: Field) -> Option<String> {
    match f {
        Field::Absent => None,
        Field::Link(u) => Some(u),
        Field::Nested(m) => m.id,
    }
}

pub open spec fn spec_like_of(m: Message) -> Like {
    Like { id: m.id, actor: spec_reference(m.actor), object: spec_reference(m.object) }
}

/// The kind of activity a message is, or why it has none.
pub open spec fn spec_parse(m: Message) -> Result<Activity, InboxError> {
    match m.kind {
        None => Err(InboxError::MalformedEnvelope),
        Some(k) => if k@ == "Create"@ {
            match m.object {
                Field::Nested(o) => match o.kind {
                    Some(ok) => if ok@ == "Article"@ {
                        Ok(Activity::CreateArticle(Article { name: o.name, content: o.content, url: o.url }))
                    } else if ok@ == "Note"@ {
                        Ok(Activity::CreateNote {
                            note: Note { id: o.id, content: o.content, summary: o.summary, in_reply_to: o.in_reply_to },
                            author: spec_reference(m.actor),
                        })
                    } else {
                        Err(InboxError::UnsupportedActivity)
                    },
                    None => Err(InboxError::UnsupportedActivity),
                },
                _ => Err(InboxError::UnsupportedActivity),
            }
        } else if k@ == "Follow"@ {
            Ok(Activity::Follow(Follow { id: m.id, actor: spec_reference(m.actor), object: spec_reference(m.object) }))
        } else if k@ == "Like"@ {
            Ok(Activity::Like(spec_like_of(m)))
        } else if k@ == "Undo"@ {
            match m.object {
                Field::Nested(o) => match o.kind {
                    Some(ok) => if ok@ == "Like"@ {
                        Ok(Activity::UndoLike(spec_like_of(*o)))
                    } else {
                        Err(InboxError::UnsupportedUndoTarget)
                    },
                    None => Err(InboxError::UnsupportedUndoTarget),
                },
                _ => Err(InboxError::UnsupportedUndoTarget),
            }
        } else {
            Err(InboxError::UnsupportedActivity)
        },
    }
}

impl Field {
    /// The URL this property refers to.
    pub fn into_reference(self) -> (r: Option<String>)
        ensures
            r == spec_reference(self),
    {
        match self {
            Field::Absent => None,
            Field::Link(u) => Some(u),
            Field::Nested(m) => m.id,
        }
    }
}

impl Message {
    fn into_like(self) -> (r: Like)
        ensures
            r == spec_like_of(self),
    {
        Like { id: self.id, actor: self.actor.into_reference(), object: self.object.into_reference() }
    }
}

/// Decides the kind of a message from its discriminator and, for Create and
/// Undo, from the nested object's discriminator.
pub fn parse(m: Message) -> (r: Result<Activity, InboxError>)
    ensures
        r == spec_parse(m),
{
    let k = match m.kind {
        None => { return Err(InboxError::MalformedEnvelope); },
        Some(k) => k,
    };
    if is_word(k.as_str(), "Create") {
        match m.object {
            Field::Nested(o) => {
                let o = *o;
                match o.kind {
                    Some(ok) => if is_word(ok.as_str(), "Article") {
                        Ok(Activity::CreateArticle(Article { name: o.name, content: o.content, url: o.url }))
                    } else if is_word(ok.as_str(), "Note") {
                        Ok(Activity::CreateNote {
                            note: Note { id: o.id, content: o.content, summary: o.summary, in_reply_to: o.in_reply_to },
                            author: m.actor.into_reference(),
                        })
                    } else {
                        Err(InboxError::UnsupportedActivity)
                    },
                    None => Err(InboxError::UnsupportedActivity),
                }
            },
            _ => Err(InboxError::UnsupportedActivity),
        }
    } else if is_word(k.as_str(), "Follow") {
        Ok(Activity::Follow(Follow { id: m.id, actor: m.actor.into_reference(), object: m.object.into_reference() }))
    } else if is_word(k.as_str(), "Like") {
        Ok(Activity::Like(Like { id: m.id, actor: m.actor.into_reference(), object: m.object.into_reference() }))
    } else if is_word(k.as_str(), "Undo") {
        match m.object {
            Field::Nested(o) => {
                let o = *o;
                let is_like = match &o.kind {
                    Some(ok) => is_word(ok.as_str(), "Like"),
                    None => false,
                };
                if is_like {
                    Ok(Activity::UndoLike(o.into_like()))
                } else {
                    Err(InboxError::UnsupportedUndoTarget)
                }
            },
            _ => Err(InboxError::UnsupportedUndoTarget),
        }
    } else {
        Err(InboxError::UnsupportedActivity)
    }
}

} // verus!
