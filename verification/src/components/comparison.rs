//! Side-by-side comparison of two models on the same text input.

use vstd::prelude::*;

use crate::components::input_bar::SessionPlan;
use crate::text::{push_str, str_eq, string_of, trim, trimmed};
use crate::components::toast::{new_uuid, ToastLevel};
use crate::types::{ChatMessage, InferenceInput};

verus! {

/// One row of the comparison: the input and the two replies.
#[derive(Clone, Debug)]
pub struct ComparisonEntry {
    pub id: String,
    pub input_text: String,
    pub left_response: Option<ChatMessage>,
    pub right_response: Option<ChatMessage>,
    pub left_loading: bool,
    pub right_loading: bool,
}

/// One of the two panes.
#[derive(Clone, Copy, Debug, PartialEq, Eq, Structural)]
pub enum Side {
    Left,
    Right,
}

/// The state of the comparison view.
pub struct ComparisonState {
    pub left_model: Option<String>,
    pub right_model: Option<String>,
    pub left_session: Option<String>,
    pub right_session: Option<String>,
    pub entries: Vec<ComparisonEntry>,
    pub input_text: String,
    pub sending: bool,
}

/// What a submission did.
#[derive(Debug)]
pub enum ComparisonSubmit {
    /// A comparison is already running: nothing happens.
    Busy,
    /// The trimmed text is empty: nothing happens.
    Empty,
    /// A model is missing on one side: a warning is shown.
    NeedBothModels,
    /// A row was added; the input goes to both models.
    Started { input: InferenceInput, left_model: String, right_model: String },
}

/// No reply is awaited on either side of any row.
pub open spec fn all_done(entries: Seq<ComparisonEntry>) -> bool {
    forall|i: int| 0 <= i < entries.len() ==> !(#[trigger] entries[i]).left_loading && !entries[i].right_loading
}

/// The position of the first row with the given id among the first `k`.
pub open spec fn entry_index(entries: Seq<ComparisonEntry>, id: Seq<char>, k: int) -> Option<int>
    decreases k,
{
    if k <= 0 {
        None
    } else {
        match entry_index(entries, id, k - 1) {
            Some(i) => Some(i),
            None => if entries[k - 1].id@ == id {
                Some(k - 1)
            } else {
                None
            },
        }
    }
}

/// A row after the reply (or failure) of one side.
pub open spec fn finished_entry(e: ComparisonEntry, side: Side, response: Option<ChatMessage>) -> ComparisonEntry {
    match side {
        Side::Left => ComparisonEntry {
            left_response: if response is Some { response } else { e.left_response },
            left_loading: false,
            ..e
        },
        Side::Right => ComparisonEntry {
            right_response: if response is Some { response } else { e.right_response },
            right_loading: false,
            ..e
        },
    }
}

/// The row that `entry_index` finds has the id looked for.
proof fn lemma_entry_index_found(entries: Seq<ComparisonEntry>, id: Seq<char>, k: int)
    ensures
        entry_index(entries, id, k) matches Some(i) ==> 0 <= i < k && entries[i].id@ == id,
    decreases k,
{
    if k > 0 {
        lemma_entry_index_found(entries, id, k - 1);
    }
}

/// A reply fills in its own side of a row and leaves the other side as it
/// was; so replies to both sides, in either order, end up each on its side.
pub proof fn law_replies_land_on_their_side(e: ComparisonEntry, left: ChatMessage, right: ChatMessage)
    ensures
        finished_entry(e, Side::Left, Some(left)).left_response == Some(left),
        finished_entry(e, Side::Left, Some(left)).right_response == e.right_response,
        finished_entry(e, Side::Right, Some(right)).right_response == Some(right),
        finished_entry(e, Side::Right, Some(right)).left_response == e.left_response,
        ({
            let both = finished_entry(finished_entry(e, Side::Left, Some(left)), Side::Right, Some(right));
            both.left_response == Some(left) && both.right_response == Some(right) && !both.left_loading
                && !both.right_loading
        }),
        ({
            let both = finished_entry(finished_entry(e, Side::Right, Some(right)), Side::Left, Some(left));
            both.left_response == Some(left) && both.right_response == Some(right) && !both.left_loading
                && !both.right_loading
        }),
        finished_entry(e, Side::Left, None).left_response == e.left_response,
        finished_entry(e, Side::Right, None).right_response == e.right_response,
{
}

/// The warning shown when a side has no model.
pub fn need_both_models_toast() -> (r: (&'static str, ToastLevel))
    ensures
        r.0@ == "Select both models before comparing"@,
        r.1 == ToastLevel::Warning,
{
    ("Select both models before comparing", ToastLevel::Warning)
}

/// The error shown when creating a side's session fails.
pub fn session_error_message(side: Side, error: &str) -> (r: String)
    ensures
        r@ == (if side == Side::Left { "Left session error: "@ } else { "Right session error: "@ }) + error@,
{
    let mut out = match side {
        Side::Left => string_of("Left session error: "),
        Side::Right => string_of("Right session error: "),
    };
    push_str(&mut out, error);
    out
}

/// The error shown when a side's model fails.
pub fn model_error_message(side: Side, error: &str) -> (r: String)
    ensures
        r@ == (if side == Side::Left { "Left model error: "@ } else { "Right model error: "@ }) + error@,
{
    let mut out = match side {
        Side::Left => string_of("Left model error: "),
        Side::Right => string_of("Right model error: "),
    };
    push_str(&mut out, error);
    out
}

/// The height of the text area for its content height: between 40 and 192.
pub fn textarea_height(scroll_height: i32) -> (r: i32)
    ensures
        r == (if scroll_height < 40 { 40 } else if scroll_height > 192 { 192 } else { scroll_height }),
{
    if scroll_height < 40 {
        40
    } else if scroll_height > 192 {
        192
    } else {
        scroll_height
    }
}

fn copy_opt(s: &Option<String>) -> (r: Option<String>)
    ensures
        r == *s,
{
    match s {
        Some(t) => Some(t.clone()),
        None => None,
    }
}

impl ComparisonState {
    /// A view with no model picked and no row.
    pub fn new() -> (r: ComparisonState)
        ensures
            r.left_model is None,
            r.right_model is None,
            r.left_session is None,
            r.right_session is None,
            r.entries@.len() == 0,
            r.input_text@ == Seq::<char>::empty(),
            !r.sending,
    {
        ComparisonState {
            left_model: None,
            right_model: None,
            left_session: None,
            right_session: None,
            entries: Vec::new(),
            input_text: String::new(),
            sending: false,
        }
    }

    /// Both sides have a model.
    pub fn both_selected(&self) -> (r: bool)
        ensures
            r == (self.left_model is Some && self.right_model is Some),
    {
        self.left_model.is_some() && self.right_model.is_some()
    }

    /// Submits the text to both models, with `entry_id` for the new row.
    pub fn submit_with_id(&mut self, entry_id: String) -> (r: ComparisonSubmit)
        ensures
            old(self).sending ==> r is Busy && *final(self) == *old(self),
            !old(self).sending && trimmed(old(self).input_text@).len() == 0 ==> r is Empty && *final(self)
                == *old(self),
            !old(self).sending && trimmed(old(self).input_text@).len() > 0 && (old(self).left_model is None
                || old(self).right_model is None) ==> r is NeedBothModels && *final(self) == *old(self),
            !old(self).sending && trimmed(old(self).input_text@).len() > 0 && old(self).left_model is Some
                && old(self).right_model is Some ==> {
                &&& r matches ComparisonSubmit::Started { input, left_model, right_model }
                &&& input matches InferenceInput::Text(t) && t@ == trimmed(old(self).input_text@)
                &&& Some(left_model) == old(self).left_model
                &&& Some(right_model) == old(self).right_model
                &&& final(self).sending
                &&& final(self).input_text@ == Seq::<char>::empty()
                &&& final(self).entries@.len() == old(self).entries@.len() + 1
                &&& final(self).entries@.drop_last() == old(self).entries@
                &&& final(self).entries@.last().id == entry_id
                &&& final(self).entries@.last().input_text@ == trimmed(old(self).input_text@)
                &&& final(self).entries@.last().left_response is None
                &&& final(self).entries@.last().right_response is None
                &&& final(self).entries@.last().left_loading
                &&& final(self).entries@.last().right_loading
                &&& final(self).left_model == old(self).left_model
                &&& final(self).right_model == old(self).right_model
                &&& final(self).left_session == old(self).left_session
                &&& final(self).right_session == old(self).right_session
            },
    {
        if self.sending {
            return ComparisonSubmit::Busy;
        }
        let text = trim(self.input_text.as_str());
        if text.is_empty() {
            return ComparisonSubmit::Empty;
        }
        let l = copy_opt(&self.left_model);
        let r = copy_opt(&self.right_model);
        match (l, r) {
            (Some(lm), Some(rm)) => {
                let t = string_of(text);
                self.sending = true;
                self.input_text = String::new();
                let entry = ComparisonEntry {
                    id: entry_id,
                    input_text: t.clone(),
                    left_response: None,
                    right_response: None,
                    left_loading: true,
                    right_loading: true,
                };
                let ghost before = self.entries@;
                self.entries.push(entry);
                assert(self.entries@.drop_last() == before);
                ComparisonSubmit::Started { input: InferenceInput::Text(t), left_model: lm, right_model: rm }
            },
            _ => ComparisonSubmit::NeedBothModels,
        }
    }

    /// Submits the text to both models, with a fresh random id for the new row.
    pub fn submit(&mut self) -> (r: ComparisonSubmit)
        ensures
            old(self).sending ==> r is Busy && *final(self) == *old(self),
            !old(self).sending && trimmed(old(self).input_text@).len() == 0 ==> r is Empty && *final(self)
                == *old(self),
            !old(self).sending && trimmed(old(self).input_text@).len() > 0 && (old(self).left_model is None
                || old(self).right_model is None) ==> r is NeedBothModels && *final(self) == *old(self),
            !old(self).sending && trimmed(old(self).input_text@).len() > 0 && old(self).left_model is Some
                && old(self).right_model is Some ==> {
                &&& r matches ComparisonSubmit::Started { input, left_model, right_model }
                &&& input matches InferenceInput::Text(t) && t@ == trimmed(old(self).input_text@)
                &&& Some(left_model) == old(self).left_model
                &&& Some(right_model) == old(self).right_model
                &&& final(self).sending
                &&& final(self).input_text@ == Seq::<char>::empty()
                &&& final(self).entries@.len() == old(self).entries@.len() + 1
                &&& final(self).entries@.drop_last() == old(self).entries@
                &&& final(self).entries@.last().input_text@ == trimmed(old(self).input_text@)
                &&& final(self).entries@.last().left_response is None
                &&& final(self).entries@.last().right_response is None
                &&& final(self).entries@.last().left_loading
                &&& final(self).entries@.last().right_loading
                &&& final(self).left_model == old(self).left_model
                &&& final(self).right_model == old(self).right_model
                &&& final(self).left_session == old(self).left_session
                &&& final(self).right_session == old(self).right_session
            },
    {
        let id = new_uuid();
        self.submit_with_id(id)
    }

    /// Where a side finds its session: the one it has, else a new one for its
    /// model.
    pub fn session_plan(&self, side: Side) -> (r: SessionPlan)
        ensures
            ({
                let (session, model) = match side {
                    Side::Left => (self.left_session, self.left_model),
                    Side::Right => (self.right_session, self.right_model),
                };
                match r {
                    SessionPlan::Use(id) => session == Some(id),
                    SessionPlan::Create(m) => session is None && model == Some(m),
                    SessionPlan::Abort => session is None && model is None,
                }
            }),
    {
        let (session, model) = match side {
            Side::Left => (copy_opt(&self.left_session), copy_opt(&self.left_model)),
            Side::Right => (copy_opt(&self.right_session), copy_opt(&self.right_model)),
        };
        crate::components::input_bar::plan_session(session, model)
    }

    /// Records the session created for a side.
    pub fn set_session(&mut self, side: Side, id: String)
        ensures
            side == Side::Left ==> final(self).left_session == Some(id) && final(self).right_session == old(
                self,
            ).right_session,
            side == Side::Right ==> final(self).right_session == Some(id) && final(self).left_session == old(
                self,
            ).left_session,
            final(self).entries == old(self).entries,
            final(self).sending == old(self).sending,
            final(self).left_model == old(self).left_model,
            final(self).right_model == old(self).right_model,
    {
        match side {
            Side::Left => self.left_session = Some(id),
            Side::Right => self.right_session = Some(id),
        }
    }

    /// Records the outcome of one side for row `entry_id`: the reply when
    /// there is one, and that the side no longer waits. When no row waits on
    /// either side any more, the view takes input again.
    pub fn finish_side(&mut self, side: Side, entry_id: &str, response: Option<ChatMessage>)
        ensures
            ({
                let old_e = old(self).entries@;
                let new_e = match entry_index(old_e, entry_id@, old_e.len() as int) {
                    Some(k) => old_e.update(k, finished_entry(old_e[k], side, response)),
                    None => old_e,
                };
                &&& final(self).entries@ == new_e
                &&& final(self).sending == (old(self).sending && !all_done(new_e))
            }),
            final(self).left_model == old(self).left_model,
            final(self).right_model == old(self).right_model,
            final(self).left_session == old(self).left_session,
            final(self).right_session == old(self).right_session,
            final(self).input_text == old(self).input_text,
            final(self).entries@.len() == old(self).entries@.len(),
            forall|k: int|
                0 <= k < old(self).entries@.len() ==> {
                    let o = old(self).entries@[k];
                    let n = #[trigger] final(self).entries@[k];
                    &&& n.id == o.id
                    &&& n.input_text == o.input_text
                    &&& (o.id@ != entry_id@ ==> n == o)
                    &&& (side == Side::Left && response is Some && entry_index(
                        old(self).entries@,
                        entry_id@,
                        old(self).entries@.len() as int,
                    ) == Some(k) ==> n.left_response == response && n.right_response == o.right_response)
                    &&& (side == Side::Right && response is Some && entry_index(
                        old(self).entries@,
                        entry_id@,
                        old(self).entries@.len() as int,
                    ) == Some(k) ==> n.right_response == response && n.left_response == o.left_response)
                },
    {
        let ghost old_e = self.entries@;
        proof {
            lemma_entry_index_found(old_e, entry_id@, old_e.len() as int);
        }
        match self.find_entry(entry_id) {
            Some(k) => {
                let mut e = self.entries.remove(k);
                match side {
                    Side::Left => {
                        if response.is_some() {
                            e.left_response = response;
                        }
                        e.left_loading = false;
                    },
                    Side::Right => {
                        if response.is_some() {
                            e.right_response = response;
                        }
                        e.right_loading = false;
                    },
                }
                assert(e == finished_entry(old_e[k as int], side, response));
                self.entries.insert(k, e);
                assert(self.entries@ =~= old_e.update(k as int, e));
            },
            None => {},
        }
        let done = self.all_entries_done();
        if done {
            self.sending = false;
        }
    }

    fn find_entry(&self, entry_id: &str) -> (r: Option<usize>)
        ensures
            match r {
                Some(k) => entry_index(self.entries@, entry_id@, self.entries@.len() as int) == Some(k as int)
                    && k < self.entries@.len(),
                None => entry_index(self.entries@, entry_id@, self.entries@.len() as int) is None,
            },
    {
        let mut k: usize = 0;
        while k < self.entries.len()
            invariant
                k <= self.entries@.len(),
                entry_index(self.entries@, entry_id@, k as int) is None,
            decreases self.entries.len() - k,
        {
            if str_eq(self.entries[k].id.as_str(), entry_id) {
                proof {
                    lemma_entry_index_stable(self.entries@, entry_id@, k + 1, self.entries@.len() as int);
                }
                return Some(k);
            }
            k = k + 1;
        }
        None
    }

    fn all_entries_done(&self) -> (r: bool)
        ensures
            r == all_done(self.entries@),
    {
        let mut i: usize = 0;
        while i < self.entries.len()
            invariant
                i <= self.entries@.len(),
                forall|j: int| 0 <= j < i ==> !(#[trigger] self.entries@[j]).left_loading && !self.entries@[j].right_loading,
            decreases self.entries.len() - i,
        {
            if self.entries[i].left_loading || self.entries[i].right_loading {
                return false;
            }
            i = i + 1;
        }
        true
    }
}

proof fn lemma_entry_index_stable(entries: Seq<ComparisonEntry>, id: Seq<char>, k: int, m: int)
    requires
        0 <= k <= m,
        entry_index(entries, id, k) is Some,
    ensures
        entry_index(entries, id, m) == entry_index(entries, id, k),
    decreases m - k,
{
    if m > k {
        lemma_entry_index_stable(entries, id, k, m - 1);
    }
}

} // verus!
