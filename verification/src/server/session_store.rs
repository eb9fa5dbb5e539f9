//! The rules of session storage that do not depend on the database: new
//! sessions, the preview shown for a session, and session names.

use vstd::prelude::*;

use crate::text::{push_str, string_of, trim, trimmed};
use crate::text::str_eq;
use crate::types::{preview_source, preview_text, truncate_ok, MessageContent, MessageRole, Session};

verus! {

/// How many bytes of the first message a session preview shows.
pub const PREVIEW_LEN: usize = 80;

/// A stored comparison of two models run on one input within a session.
#[derive(Clone, Debug)]
pub struct ComparisonRecord {
    pub id: String,
    pub session_id: String,
    pub input_json: String,
    pub left_model_id: String,
    pub right_model_id: String,
    pub left_message_id: Option<String>,
    pub right_message_id: Option<String>,
    pub created_at: i64,
}

/// A session just created: no message and no preview yet.
pub fn new_session(id: String, model_id: &str, model_name: &str, now: i64) -> (r: Session)
    ensures
        r.id == id,
        r.model_id@ == model_id@,
        r.model_name@ == model_name@,
        r.created_at == now,
        r.updated_at == now,
        r.preview@ == Seq::<char>::empty(),
        r.message_count == 0,
{
    Session {
        id,
        model_id: string_of(model_id),
        model_name: string_of(model_name),
        created_at: now,
        updated_at: now,
        preview: String::new(),
        message_count: 0,
    }
}

/// The preview of a session: its name when it was renamed, else the preview
/// of its first user message, else nothing.
pub open spec fn session_preview_text(display_name: Option<Seq<char>>, first_user: Option<MessageContent>) -> Seq<char> {
    match display_name {
        Some(n) => n,
        None => match first_user {
            Some(c) => preview_text(c, PREVIEW_LEN as nat),
            None => Seq::empty(),
        },
    }
}

/// The preview of the first user message can be cut at the preview length.
pub open spec fn preview_cuttable(first_user: Option<MessageContent>) -> bool {
    first_user matches Some(c) ==> (preview_source(c) matches Some(t) ==> truncate_ok(t, PREVIEW_LEN as nat))
}

/// The preview of a session (see `session_preview_text`).
pub fn session_preview(display_name: Option<&str>, first_user: Option<&MessageContent>) -> (r: String)
    requires
        display_name is None ==> preview_cuttable(match first_user { Some(c) => Some(*c), None => None }),
    ensures
        r@ == session_preview_text(
            match display_name { Some(n) => Some(n@), None => None },
            match first_user { Some(c) => Some(*c), None => None },
        ),
{
    match display_name {
        Some(n) => string_of(n),
        None => match first_user {
            Some(c) => c.preview(PREVIEW_LEN),
            None => String::new(),
        },
    }
}

/// Whether the preview of a message can be cut at `max` bytes.
pub fn can_preview(content: &MessageContent, max: usize) -> (r: bool)
    ensures
        r == (preview_source(*content) matches Some(t) ==> truncate_ok(t, max as nat)),
{
    let text: Option<&str> = match content {
        MessageContent::Text(s) => Some(s.as_str()),
        MessageContent::Image { caption: Some(c), .. } => Some(c.as_str()),
        MessageContent::Streaming { partial, .. } => Some(partial.as_str()),
        _ => None,
    };
    match text {
        Some(t) => {
            let n = crate::text::str_bytes(t).len();
            n <= max || t.is_char_boundary(max)
        },
        None => true,
    }
}

/// The error of a rename to an empty name.
pub open spec fn empty_name_error() -> Seq<char> {
    "session name cannot be empty"@
}

/// The name a session is renamed to: the given name without surrounding
/// white space; an error when nothing is left.
pub fn normalize_session_name(name: &str) -> (r: Result<String, String>)
    ensures
        match r {
            Ok(n) => n@ == trimmed(name@) && n@.len() > 0,
            Err(e) => trimmed(name@).len() == 0 && e@ == empty_name_error(),
        },
{
    let t = trim(name);
    if t.is_empty() {
        Err(string_of("session name cannot be empty"))
    } else {
        Ok(string_of(t))
    }
}

/// The error of an operation on a session that does not exist.
pub fn session_not_found(session_id: &str) -> (r: String)
    ensures
        r@ == "session not found: "@ + session_id@,
{
    let mut e = string_of("session not found: ");
    push_str(&mut e, session_id);
    e
}

/// The name under which a role is stored.
pub open spec fn role_name_of(r: MessageRole) -> Seq<char> {
    match r {
        MessageRole::User => "User"@,
        MessageRole::Model => "Model"@,
        MessageRole::System => "System"@,
    }
}

/// The name under which a role is stored.
pub fn role_name(r: MessageRole) -> (s: &'static str)
    ensures
        s@ == role_name_of(r),
{
    match r {
        MessageRole::User => "User",
        MessageRole::Model => "Model",
        MessageRole::System => "System",
    }
}

/// The role stored under a name; an unknown name reads as `System`.
pub fn role_from_name(s: &str) -> (r: MessageRole)
    ensures
        r == (if s@ == "User"@ {
            MessageRole::User
        } else if s@ == "Model"@ {
            MessageRole::Model
        } else {
            MessageRole::System
        }),
{
    if str_eq(s, "User") {
        MessageRole::User
    } else if str_eq(s, "Model") {
        MessageRole::Model
    } else {
        MessageRole::System
    }
}

/// Reading back the stored name of a role gives the role.
pub proof fn law_role_name_round_trip(r: MessageRole)
    ensures
        (if role_name_of(r) == "User"@ {
            MessageRole::User
        } else if role_name_of(r) == "Model"@ {
            MessageRole::Model
        } else {
            MessageRole::System
        }) == r,
{
    reveal_strlit("User");
    reveal_strlit("Model");
    reveal_strlit("System");
    assert("User"@[0] != "Model"@[0]);
    assert("User"@[0] != "System"@[0]);
    assert("Model"@[0] != "System"@[0]);
}

/// The label a session records for its model: the model's name, or a
/// placeholder when the model is unknown.
pub fn session_model_name(name: Option<String>) -> (r: String)
    ensures
        r@ == (match name { Some(n) => n@, None => "Unknown Model"@ }),
{
    match name {
        Some(n) => n,
        None => string_of("Unknown Model"),
    }
}

/// The content stored for a message whose JSON cannot be read back.
pub fn unreadable_content() -> (r: MessageContent)
    ensures
        r matches MessageContent::Text(t) && t@ == "[deserialization error]"@,
{
    MessageContent::Text(string_of("[deserialization error]"))
}

} // verus!
