//! The session sidebar: relative times, the search over sessions, and the
//! rename and two-step delete of a session row.

use vstd::prelude::*;

use crate::text::{decimal, lowercase_of, push_decimal, push_str, seq_contains, str_contains, str_eq, string_of,
    to_lowercase, trim, trimmed};
use crate::types::Session;

verus! {

/// How long ago `diff` seconds is, in words.
pub open spec fn relative_text(diff: int) -> Seq<char> {
    let minutes = diff / 60;
    let hours = minutes / 60;
    let days = hours / 24;
    if diff < 0 || minutes < 1 {
        "just now"@
    } else if minutes < 60 {
        decimal(minutes as nat) + "m ago"@
    } else if hours < 24 {
        decimal(hours as nat) + "h ago"@
    } else if days == 1 {
        "yesterday"@
    } else if days < 7 {
        decimal(days as nat) + "d ago"@
    } else {
        decimal((days / 7) as nat) + "w ago"@
    }
}

/// How long ago reads, by the largest whole unit: under a minute (or in the
/// future) is "just now", then whole minutes under an hour, whole hours under
/// a day, "yesterday" for one whole day, whole days under a week, and whole
/// weeks after that; the seconds left over never change the text.
pub proof fn law_relative_time_units(n: int, r: int)
    requires
        0 <= r,
    ensures
        r < 60 ==> relative_text(r) == "just now"@,
        relative_text(-1 - r) == "just now"@,
        r < 60 && 1 <= n < 60 ==> relative_text(60 * n + r) == decimal(n as nat) + "m ago"@,
        r < 3600 && 1 <= n < 24 ==> relative_text(3600 * n + r) == decimal(n as nat) + "h ago"@,
        r < 86400 ==> relative_text(86400 + r) == "yesterday"@,
        r < 86400 && 2 <= n < 7 ==> relative_text(86400 * n + r) == decimal(n as nat) + "d ago"@,
        r < 604800 && 1 <= n ==> relative_text(604800 * n + r) == decimal(n as nat) + "w ago"@,
{
}

/// How long before `now` a timestamp is, in words (both in seconds).
pub open spec fn relative_since(now: i64, timestamp_secs: i64) -> Seq<char> {
    relative_text(now - timestamp_secs)
}

/// How long before `now` a timestamp is, in words (both in seconds).
pub fn relative_time_at(now: i64, timestamp_secs: i64) -> (r: String)
    ensures
        r@ == relative_text(now - timestamp_secs),
{
    let diff: i128 = now as i128 - timestamp_secs as i128;
    if diff < 0 {
        return string_of("just now");
    }
    let minutes: i128 = diff / 60;
    let hours: i128 = minutes / 60;
    let days: i128 = hours / 24;
    let mut out = String::new();
    if minutes < 1 {
        return string_of("just now");
    } else if minutes < 60 {
        push_decimal(&mut out, minutes as u64);
        push_str(&mut out, "m ago");
    } else if hours < 24 {
        push_decimal(&mut out, hours as u64);
        push_str(&mut out, "h ago");
    } else if days == 1 {
        return string_of("yesterday");
    } else if days < 7 {
        push_decimal(&mut out, days as u64);
        push_str(&mut out, "d ago");
    } else {
        assert(days / 7 <= u64::MAX);
        push_decimal(&mut out, (days / 7) as u64);
        push_str(&mut out, "w ago");
    }
    out
}

/// Wraps `chrono::Utc::now().timestamp()`: the current Unix time in seconds.
/// Nothing is stated of its value.
#[verifier::external_body]
fn unix_now() -> (r: i64) {
    chrono::Utc::now().timestamp()
}

/// How long ago a timestamp is, in words, measured from the current time.
pub fn relative_time(timestamp_secs: i64) -> (r: String)
    ensures
        exists|now: i64| r@ == #[trigger] relative_since(now, timestamp_secs),
{
    let now = unix_now();
    let r = relative_time_at(now, timestamp_secs);
    assert(r@ == relative_since(now, timestamp_secs));
    r
}

/// What a row shows of a session: its preview, or a note when it has none.
pub open spec fn row_preview(preview: Seq<char>) -> Seq<char> {
    if preview.len() == 0 {
        "No messages yet"@
    } else {
        preview
    }
}

/// What a row shows of a session.
pub fn preview_text(session: &Session) -> (r: String)
    ensures
        r@ == row_preview(session.preview@),
{
    if session.preview.as_str().is_empty() {
        string_of("No messages yet")
    } else {
        string_of(session.preview.as_str())
    }
}

/// The sessions whose lowercased preview contains `q`, in order.
pub open spec fn sessions_matching(sessions: Seq<Session>, q: Seq<char>) -> Seq<Session>
    decreases sessions.len(),
{
    if sessions.len() == 0 {
        Seq::empty()
    } else if seq_contains(lowercase_of(sessions.last().preview@), q) {
        sessions_matching(sessions.drop_last(), q).push(sessions.last())
    } else {
        sessions_matching(sessions.drop_last(), q)
    }
}

proof fn lemma_sessions_matching_members(sessions: Seq<Session>, q: Seq<char>, t: Session)
    ensures
        sessions_matching(sessions, q).contains(t) == (sessions.contains(t) && seq_contains(
            lowercase_of(t.preview@),
            q,
        )),
    decreases sessions.len(),
{
    if sessions.len() > 0 {
        let rest = sessions.drop_last();
        lemma_sessions_matching_members(rest, q, t);
        assert(sessions == rest.push(sessions.last()));
        if sessions.contains(t) && !rest.contains(t) {
            let k = choose|k: int| 0 <= k < sessions.len() && sessions[k] == t;
            if k < rest.len() {
                assert(rest[k] == t);
            }
        }
        if rest.contains(t) {
            let k = choose|k: int| 0 <= k < rest.len() && rest[k] == t;
            assert(sessions[k] == t);
        }
        let m = sessions_matching(rest, q);
        if m.contains(t) {
            let k = choose|k: int| 0 <= k < m.len() && m[k] == t;
            assert(m.push(sessions.last())[k] == t);
        }
        if seq_contains(lowercase_of(sessions.last().preview@), q) {
            assert(m.push(sessions.last())[m.len() as int] == sessions.last());
            if m.push(sessions.last()).contains(t) && !m.contains(t) {
                let k = choose|k: int| 0 <= k < m.len() + 1 && m.push(sessions.last())[k] == t;
                if k < m.len() {
                    assert(m[k] == t);
                }
            }
        }
    }
}

/// A search lists exactly the sessions whose lowercased preview holds the
/// lowercased query somewhere, at any position.
pub proof fn law_session_search_lists_previews_containing_query(sessions: Seq<Session>, query: Seq<char>, t: Session)
    requires
        lowercase_of(query).len() > 0,
    ensures
        sessions_matching(sessions, lowercase_of(query)).contains(t) == (sessions.contains(t) && exists|i: int|
            0 <= i && i + lowercase_of(query).len() <= lowercase_of(t.preview@).len() && #[trigger] lowercase_of(
                t.preview@,
            ).subrange(i, i + lowercase_of(query).len()) == lowercase_of(query)),
{
    lemma_sessions_matching_members(sessions, lowercase_of(query), t);
    let q = lowercase_of(query);
    let l = lowercase_of(t.preview@);
    if seq_contains(l, q) {
        let i = choose|i: int| crate::text::occurs_at(l, q, i);
        assert(l.subrange(i, i + q.len()) == q);
    }
    if exists|i: int| 0 <= i && i + q.len() <= l.len() && #[trigger] l.subrange(i, i + q.len()) == q {
        let i = choose|i: int| 0 <= i && i + q.len() <= l.len() && #[trigger] l.subrange(i, i + q.len()) == q;
        assert(crate::text::occurs_at(l, q, i));
    }
}

/// The sessions listed for a search: all of them for an empty query, else
/// those whose lowercased preview contains the lowercased query.
pub fn filter_sessions(sessions: Vec<Session>, query: &str) -> (r: Vec<Session>)
    ensures
        lowercase_of(query@).len() == 0 ==> r@ == sessions@,
        lowercase_of(query@).len() > 0 ==> r@ == sessions_matching(sessions@, lowercase_of(query@)),
{
    let q = to_lowercase(query);
    if q.as_str().is_empty() {
        return sessions;
    }
    let ghost all = sessions@;
    let mut rest = sessions;
    let ghost mut done: Seq<Session> = Seq::empty();
    let mut out: Vec<Session> = Vec::new();
    while rest.len() > 0
        invariant
            all == done + rest@,
            q@ == lowercase_of(query@),
            out@ == sessions_matching(done, q@),
        decreases rest.len(),
    {
        let s = rest.remove(0);
        let lower = to_lowercase(s.preview.as_str());
        let keep = str_contains(lower.as_str(), q.as_str());
        proof {
            assert(done.push(s).drop_last() == done);
            assert(done.push(s).last() == s);
            assert(all == done.push(s) + rest@);
            done = done.push(s);
        }
        if keep {
            out.push(s);
        }
    }
    assert(done == all);
    out
}

/// The note shown when no session is listed.
pub fn empty_list_note(query_empty: bool, model_loaded: bool) -> (r: (&'static str, Option<&'static str>))
    ensures
        r.0@ == (if query_empty { "No sessions yet"@ } else { "No matching sessions"@ }),
        r.1 matches Some(h) ==> query_empty && model_loaded && h@ == "Click + to start one"@,
        r.1 is None ==> !(query_empty && model_loaded),
{
    if query_empty {
        if model_loaded {
            ("No sessions yet", Some("Click + to start one"))
        } else {
            ("No sessions yet", None)
        }
    } else {
        ("No matching sessions", None)
    }
}

/// The classes of a session row.
pub fn row_class(is_active: bool) -> (r: String)
    ensures
        r@ == "w-full text-left px-3 py-2.5 rounded-lg transition-colors duration-100 group "@ + if is_active {
            "sidebar-session-active bg-zinc-800/60"@
        } else {
            "hover:bg-zinc-800/30"@
        },
{
    let mut out = string_of("w-full text-left px-3 py-2.5 rounded-lg transition-colors duration-100 group ");
    if is_active {
        push_str(&mut out, "sidebar-session-active bg-zinc-800/60");
    } else {
        push_str(&mut out, "hover:bg-zinc-800/30");
    }
    out
}

/// The classes, tooltip and label of a row's delete button.
pub fn delete_button(confirming: bool) -> (r: (String, &'static str, Option<&'static str>))
    ensures
        r.0@ == "absolute top-1.5 right-1 p-1 rounded transition-colors "@ + if confirming {
            "text-red-400 bg-red-500/10 opacity-100"@
        } else {
            "text-zinc-600 hover:text-zinc-400 hover:bg-zinc-800/50 opacity-0 group-hover:opacity-100"@
        },
        r.1@ == (if confirming { "Click again to delete"@ } else { "Delete session"@ }),
        r.2 matches Some(l) ==> confirming && l@ == "Delete?"@,
        r.2 is None ==> !confirming,
{
    let mut class = string_of("absolute top-1.5 right-1 p-1 rounded transition-colors ");
    if confirming {
        push_str(&mut class, "text-red-400 bg-red-500/10 opacity-100");
        (class, "Click again to delete", Some("Delete?"))
    } else {
        push_str(&mut class, "text-zinc-600 hover:text-zinc-400 hover:bg-zinc-800/50 opacity-0 group-hover:opacity-100");
        (class, "Delete session", None)
    }
}

/// The rename and delete state shared by the rows of the sidebar.
pub struct SidebarState {
    /// The session being renamed, with the text typed so far.
    pub renaming_id: Option<String>,
    pub rename_value: String,
    /// The session whose delete button was clicked once.
    pub confirming_delete_id: Option<String>,
}

/// What committing a rename asks for.
#[derive(Debug)]
pub enum RenameOutcome {
    /// Nothing is sent: no rename in progress, or the trimmed name is empty.
    Dropped,
    /// Rename this session to this (trimmed) name.
    Rename { session_id: String, name: String },
}

/// What a click on a delete button asks for.
#[derive(Debug)]
pub enum DeleteClick {
    /// First click: the row asks for confirmation, which lapses after
    /// three seconds.
    Confirm,
    /// Second click: delete this session.
    Delete(String),
}

/// How long a delete waits for its confirming click, in milliseconds.
pub const DELETE_CONFIRM_MS: u32 = 3000;

impl SidebarState {
    /// Nothing being renamed or deleted.
    pub fn new() -> (r: SidebarState)
        ensures
            r.renaming_id is None,
            r.confirming_delete_id is None,
    {
        SidebarState { renaming_id: None, rename_value: String::new(), confirming_delete_id: None }
    }

    /// A double click starts renaming a session, from the text it shows.
    pub fn start_rename(&mut self, session_id: String, shown: String)
        ensures
            final(self).renaming_id == Some(session_id),
            final(self).rename_value == shown,
            final(self).confirming_delete_id == old(self).confirming_delete_id,
    {
        self.renaming_id = Some(session_id);
        self.rename_value = shown;
    }

    /// The text typed in the rename box.
    pub fn edit_rename(&mut self, value: String)
        ensures
            final(self).rename_value == value,
            final(self).renaming_id == old(self).renaming_id,
            final(self).confirming_delete_id == old(self).confirming_delete_id,
    {
        self.rename_value = value;
    }

    /// Commits the rename (Enter or leaving the box): the box closes, and the
    /// trimmed name is sent unless it is empty.
    pub fn commit_rename(&mut self) -> (r: RenameOutcome)
        ensures
            final(self).renaming_id is None,
            final(self).confirming_delete_id == old(self).confirming_delete_id,
            match r {
                RenameOutcome::Rename { session_id, name } => {
                    &&& old(self).renaming_id == Some(session_id)
                    &&& name@ == trimmed(old(self).rename_value@)
                    &&& name@.len() > 0
                },
                RenameOutcome::Dropped => old(self).renaming_id is None || trimmed(old(self).rename_value@).len()
                    == 0,
            },
    {
        let name = string_of(trim(self.rename_value.as_str()));
        let id = self.renaming_id.take();
        match id {
            Some(sid) => {
                if name.as_str().is_empty() {
                    RenameOutcome::Dropped
                } else {
                    RenameOutcome::Rename { session_id: sid, name }
                }
            },
            None => RenameOutcome::Dropped,
        }
    }

    /// Escape closes the rename box without renaming.
    pub fn cancel_rename(&mut self)
        ensures
            final(self).renaming_id is None,
            final(self).rename_value == old(self).rename_value,
            final(self).confirming_delete_id == old(self).confirming_delete_id,
    {
        self.renaming_id = None;
    }

    /// A click on the delete button of a session: the first asks for
    /// confirmation, a second one on the same session deletes it.
    pub fn click_delete(&mut self, session_id: &str) -> (r: DeleteClick)
        ensures
            final(self).renaming_id == old(self).renaming_id,
            match r {
                DeleteClick::Delete(id) => {
                    &&& old(self).confirming_delete_id matches Some(c) && c@ == session_id@
                    &&& id@ == session_id@
                    &&& final(self).confirming_delete_id is None
                },
                DeleteClick::Confirm => {
                    &&& !(old(self).confirming_delete_id matches Some(c) && c@ == session_id@)
                    &&& final(self).confirming_delete_id matches Some(c) && c@ == session_id@
                },
            },
    {
        let confirming = match &self.confirming_delete_id {
            Some(c) => str_eq(c.as_str(), session_id),
            None => false,
        };
        if confirming {
            self.confirming_delete_id = None;
            DeleteClick::Delete(string_of(session_id))
        } else {
            self.confirming_delete_id = Some(string_of(session_id));
            DeleteClick::Confirm
        }
    }

    /// The confirmation of a session lapsed: it is dropped if it is still the
    /// one waiting.
    pub fn confirm_timeout(&mut self, session_id: &str)
        ensures
            final(self).confirming_delete_id == (if old(self).confirming_delete_id matches Some(c) && c@
                == session_id@ {
                None
            } else {
                old(self).confirming_delete_id
            }),
            final(self).renaming_id == old(self).renaming_id,
    {
        let same = match &self.confirming_delete_id {
            Some(c) => str_eq(c.as_str(), session_id),
            None => false,
        };
        if same {
            self.confirming_delete_id = None;
        }
    }
}

/// A session was deleted: it stops being the active one if it was.
pub fn active_after_delete(active: Option<String>, deleted: &str) -> (r: Option<String>)
    ensures
        r == (if active matches Some(a) && a@ == deleted@ { None } else { active }),
{
    let same = match &active {
        Some(a) => str_eq(a.as_str(), deleted),
        None => false,
    };
    if same {
        None
    } else {
        active
    }
}

/// What a key press in the rename box does.
#[derive(Clone, Copy, Debug, PartialEq, Eq, Structural)]
pub enum RenameKey {
    Commit,
    Cancel,
    Other,
}

/// Enter commits, Escape cancels.
pub fn rename_key(key: &str) -> (r: RenameKey)
    ensures
        r == (if key@ == "Enter"@ {
            RenameKey::Commit
        } else if key@ == "Escape"@ {
            RenameKey::Cancel
        } else {
            RenameKey::Other
        }),
{
    if str_eq(key, "Enter") {
        RenameKey::Commit
    } else if str_eq(key, "Escape") {
        RenameKey::Cancel
    } else {
        RenameKey::Other
    }
}

} // verus!
