//! Toast notifications: their levels and the list of active toasts.

use vstd::prelude::*;

use crate::text::{push_str, str_eq, string_of};

verus! {

/// Severity level for a toast notification.
#[derive(Clone, Copy, Debug, PartialEq, Eq, Structural)]
pub enum ToastLevel {
    Info,
    Warning,
    Error,
}

/// The CSS class of a level.
pub open spec fn level_class(l: ToastLevel) -> Seq<char> {
    match l {
        ToastLevel::Info => "toast-info"@,
        ToastLevel::Warning => "toast-warning"@,
        ToastLevel::Error => "toast-error"@,
    }
}

impl ToastLevel {
    /// The CSS class name for this level.
    pub fn css_class(&self) -> (r: &'static str)
        ensures
            r@ == level_class(*self),
    {
        match self {
            ToastLevel::Info => "toast-info",
            ToastLevel::Warning => "toast-warning",
            ToastLevel::Error => "toast-error",
        }
    }
}

/// How long a toast stays on screen, in milliseconds.
pub const TOAST_TTL_MS: u64 = 4000;

/// A single toast notification.
#[derive(Clone, Debug)]
pub struct Toast {
    pub id: String,
    pub message: String,
    pub level: ToastLevel,
    pub ttl_ms: u64,
}

/// The abstract content of a toast.
pub struct ToastView {
    pub id: Seq<char>,
    pub message: Seq<char>,
    pub level: ToastLevel,
    pub ttl_ms: u64,
}

impl View for Toast {
    type V = ToastView;

    open spec fn view(&self) -> ToastView {
        ToastView { id: self.id@, message: self.message@, level: self.level, ttl_ms: self.ttl_ms }
    }
}

/// The views of a list of toasts.
pub open spec fn toasts_view(v: Seq<Toast>) -> Seq<ToastView> {
    v.map_values(|t: Toast| t@)
}

/// The toasts of `v` whose id is not `id`, in order.
pub open spec fn without_id(v: Seq<ToastView>, id: Seq<char>) -> Seq<ToastView>
    decreases v.len(),
{
    if v.len() == 0 {
        Seq::empty()
    } else if v.last().id == id {
        without_id(v.drop_last(), id)
    } else {
        without_id(v.drop_last(), id).push(v.last())
    }
}

/// The classes of a toast's element.
pub open spec fn toast_classes(l: ToastLevel) -> Seq<char> {
    "toast "@ + level_class(l) + " flex items-center gap-2 pointer-events-auto"@
}

/// The classes of a toast's element.
pub fn toast_css(level: ToastLevel) -> (r: String)
    ensures
        r@ == toast_classes(level),
{
    let mut out = string_of("toast ");
    push_str(&mut out, level.css_class());
    push_str(&mut out, " flex items-center gap-2 pointer-events-auto");
    out
}

/// Wraps `uuid::Uuid::new_v4().to_string()`: a fresh random identifier.
/// Nothing is stated of its value.
#[verifier::external_body]
pub(crate) fn new_uuid() -> (r: String) {
    uuid::Uuid::new_v4().to_string()
}

/// The list of active toasts.
pub struct ToastStore {
    pub toasts: Vec<Toast>,
}

impl ToastStore {
    /// An empty list.
    pub fn new() -> (r: ToastStore)
        ensures
            r.toasts@.len() == 0,
    {
        ToastStore { toasts: Vec::new() }
    }

    /// Appends a toast with the given id and the default lifetime.
    pub fn push_with_id(&mut self, id: String, message: String, level: ToastLevel)
        ensures
            toasts_view(final(self).toasts@) == toasts_view(old(self).toasts@).push(
                ToastView { id: id@, message: message@, level, ttl_ms: TOAST_TTL_MS },
            ),
    {
        let t = Toast { id, message, level, ttl_ms: TOAST_TTL_MS };
        self.toasts.push(t);
        assert(toasts_view(self.toasts@) =~= toasts_view(old(self).toasts@).push(t@));
    }

    /// Appends a toast with a fresh random id and the default lifetime.
    pub fn push(&mut self, message: String, level: ToastLevel)
        ensures
            final(self).toasts@.len() == old(self).toasts@.len() + 1,
            toasts_view(final(self).toasts@).drop_last() == toasts_view(old(self).toasts@),
            final(self).toasts@.last()@.message == message@,
            final(self).toasts@.last()@.level == level,
            final(self).toasts@.last()@.ttl_ms == TOAST_TTL_MS,
    {
        let id = new_uuid();
        self.push_with_id(id, message, level);
        assert(toasts_view(self.toasts@).drop_last() =~= toasts_view(old(self).toasts@));
        assert(self.toasts@.last()@ == toasts_view(self.toasts@).last());
    }

    /// Removes every toast with the given id, keeping the others in order.
    pub fn dismiss(&mut self, id: &str)
        ensures
            toasts_view(final(self).toasts@) == without_id(toasts_view(old(self).toasts@), id@),
    {
        let mut kept: Vec<Toast> = Vec::new();
        let mut i: usize = 0;
        while i < self.toasts.len()
            invariant
                i <= self.toasts@.len(),
                self.toasts@ == old(self).toasts@,
                toasts_view(kept@) == without_id(toasts_view(self.toasts@.subrange(0, i as int)), id@),
            decreases self.toasts.len() - i,
        {
            let ghost before = kept@;
            if !str_eq(self.toasts[i].id.as_str(), id) {
                kept.push(self.toasts[i].clone_toast());
                assert(toasts_view(kept@) =~= toasts_view(before).push(self.toasts@[i as int]@));
            }
            proof {
                let p = self.toasts@.subrange(0, i + 1);
                assert(toasts_view(p).drop_last() =~= toasts_view(self.toasts@.subrange(0, i as int)));
                assert(toasts_view(p).last() == self.toasts@[i as int]@);
            }
            i = i + 1;
        }
        assert(self.toasts@.subrange(0, self.toasts@.len() as int) == self.toasts@);
        self.toasts = kept;
    }
}

impl Toast {
    /// A copy of this toast equal to it.
    pub fn clone_toast(&self) -> (r: Toast)
        ensures
            r@ == self@,
    {
        Toast {
            id: self.id.clone(),
            message: self.message.clone(),
            level: self.level,
            ttl_ms: self.ttl_ms,
        }
    }
}

/// After dismissing an id, no toast with that id is left.
pub proof fn lemma_dismissed_id_is_gone(v: Seq<ToastView>, id: Seq<char>)
    ensures
        forall|i: int| 0 <= i < without_id(v, id).len() ==> (#[trigger] without_id(v, id)[i]).id != id,
    decreases v.len(),
{
    if v.len() > 0 {
        lemma_dismissed_id_is_gone(v.drop_last(), id);
    }
}

/// Dismissing an id that no toast has leaves the list unchanged; in
/// particular, pushing a toast with a fresh id and dismissing that id gives
/// back the list as it was.
pub proof fn lemma_dismiss_fresh_restores(v: Seq<ToastView>, t: ToastView)
    requires
        forall|i: int| 0 <= i < v.len() ==> (#[trigger] v[i]).id != t.id,
    ensures
        without_id(v.push(t), t.id) == v,
        without_id(v, t.id) == v,
    decreases v.len(),
{
    assert(v.push(t).drop_last() == v);
    if v.len() > 0 {
        assert forall|i: int| 0 <= i < v.drop_last().len() implies (#[trigger] v.drop_last()[i]).id != t.id by {
            assert(v.drop_last()[i] == v[i]);
        }
        lemma_dismiss_fresh_restores(v.drop_last(), t);
        assert(v.drop_last().push(v.last()) == v);
    }
    assert(v.push(t).last() == t);
    assert(without_id(v.push(t), t.id) == without_id(v, t.id));
}

} // verus!
