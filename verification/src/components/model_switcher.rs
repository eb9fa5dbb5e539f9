//! The model lens: the bar that shows the active model and the picker that
//! loads another one.

use vstd::prelude::*;

use crate::server::interpreter::join_texts;
use crate::text::{push_str, string_of};
use crate::types::{ModelType, PortInfo, PortView, ports_view};

verus! {

/// The badge classes of a model type.
pub open spec fn badge_class(t: ModelType) -> Seq<char> {
    match t {
        ModelType::Text => "bg-blue-500/15 text-blue-400 ring-blue-500/20"@,
        ModelType::Vision => "bg-purple-500/15 text-purple-400 ring-purple-500/20"@,
        ModelType::Multimodal => "bg-amber-500/15 text-amber-400 ring-amber-500/20"@,
        ModelType::Audio => "bg-green-500/15 text-green-400 ring-green-500/20"@,
        ModelType::Unknown => "bg-zinc-500/15 text-zinc-400 ring-zinc-500/20"@,
    }
}

/// The badge classes of the active model's type, with a glow.
pub open spec fn badge_class_active(t: ModelType) -> Seq<char> {
    match t {
        ModelType::Text => "bg-blue-500/25 text-blue-300 ring-blue-400/40 shadow-[0_0_8px_rgba(59,130,246,0.3)]"@,
        ModelType::Vision => "bg-purple-500/25 text-purple-300 ring-purple-400/40 shadow-[0_0_8px_rgba(168,85,247,0.3)]"@,
        ModelType::Multimodal => "bg-amber-500/25 text-amber-300 ring-amber-400/40 shadow-[0_0_8px_rgba(245,158,11,0.3)]"@,
        ModelType::Audio => "bg-green-500/25 text-green-300 ring-green-400/40 shadow-[0_0_8px_rgba(34,197,94,0.3)]"@,
        ModelType::Unknown => "bg-zinc-500/25 text-zinc-300 ring-zinc-400/40 shadow-[0_0_8px_rgba(161,161,170,0.2)]"@,
    }
}

/// The badge classes of a model type.
pub fn badge_classes(model_type: &ModelType) -> (r: &'static str)
    ensures
        r@ == badge_class(*model_type),
{
    match model_type {
        ModelType::Text => "bg-blue-500/15 text-blue-400 ring-blue-500/20",
        ModelType::Vision => "bg-purple-500/15 text-purple-400 ring-purple-500/20",
        ModelType::Multimodal => "bg-amber-500/15 text-amber-400 ring-amber-500/20",
        ModelType::Audio => "bg-green-500/15 text-green-400 ring-green-500/20",
        ModelType::Unknown => "bg-zinc-500/15 text-zinc-400 ring-zinc-500/20",
    }
}

/// The badge classes of the active model's type.
pub fn badge_classes_active(model_type: &ModelType) -> (r: &'static str)
    ensures
        r@ == badge_class_active(*model_type),
{
    match model_type {
        ModelType::Text => "bg-blue-500/25 text-blue-300 ring-blue-400/40 shadow-[0_0_8px_rgba(59,130,246,0.3)]",
        ModelType::Vision => "bg-purple-500/25 text-purple-300 ring-purple-400/40 shadow-[0_0_8px_rgba(168,85,247,0.3)]",
        ModelType::Multimodal => "bg-amber-500/25 text-amber-300 ring-amber-400/40 shadow-[0_0_8px_rgba(245,158,11,0.3)]",
        ModelType::Audio => "bg-green-500/25 text-green-300 ring-green-400/40 shadow-[0_0_8px_rgba(34,197,94,0.3)]",
        ModelType::Unknown => "bg-zinc-500/25 text-zinc-300 ring-zinc-400/40 shadow-[0_0_8px_rgba(161,161,170,0.2)]",
    }
}

/// The classes of a type badge.
pub fn type_badge_classes(model_type: &ModelType, active: bool) -> (r: String)
    ensures
        r@ == "inline-flex items-center rounded-md px-2 py-0.5 text-xs font-medium ring-1 ring-inset transition-all duration-200 "@
            + if active { badge_class_active(*model_type) } else { badge_class(*model_type) },
{
    let mut out = string_of(
        "inline-flex items-center rounded-md px-2 py-0.5 text-xs font-medium ring-1 ring-inset transition-all duration-200 ",
    );
    if active {
        push_str(&mut out, badge_classes_active(model_type));
    } else {
        push_str(&mut out, badge_classes(model_type));
    }
    out
}

/// The names of a list of ports.
pub open spec fn port_names(ports: Seq<PortView>) -> Seq<Seq<char>> {
    ports.map_values(|p: PortView| p.name)
}

/// The names of the ports joined by ", ", or "none".
pub open spec fn port_summary_text(ports: Seq<PortView>) -> Seq<char> {
    if ports.len() == 0 {
        "none"@
    } else {
        join_texts(port_names(ports), ", "@)
    }
}

/// A brief summary of a model's ports: their names, or "none".
pub fn port_summary(ports: &[PortInfo]) -> (r: String)
    ensures
        r@ == port_summary_text(ports_view(ports@)),
{
    if ports.len() == 0 {
        return string_of("none");
    }
    let mut out = String::new();
    let mut i: usize = 0;
    while i < ports.len()
        invariant
            0 < ports@.len(),
            i <= ports@.len(),
            out@ == join_texts(port_names(ports_view(ports@.subrange(0, i as int))), ", "@),
        decreases ports.len() - i,
    {
        if i > 0 {
            push_str(&mut out, ", ");
        }
        push_str(&mut out, ports[i].name.as_str());
        proof {
            let p = port_names(ports_view(ports@.subrange(0, i + 1)));
            assert(p.drop_last() =~= port_names(ports_view(ports@.subrange(0, i as int))));
            assert(p.last() == ports@[i as int].name@);
            if i == 0 {
                assert(port_names(ports_view(ports@.subrange(0, 0))) =~= Seq::<Seq<char>>::empty());
            }
        }
        i = i + 1;
    }
    assert(ports@.subrange(0, ports@.len() as int) == ports@);
    out
}

/// The state of the model lens.
pub struct LensState {
    pub dropdown_open: bool,
    /// The id of the model being loaded.
    pub loading_model: Option<String>,
    /// The load has taken long enough to show a hint.
    pub loading_slow: bool,
    /// Counts loads, so that a timer started by an earlier load is ignored.
    pub load_gen: u64,
}

/// The wrapping successor of a load generation.
pub open spec fn next_gen(g: u64) -> u64 {
    if g == u64::MAX {
        0
    } else {
        (g + 1) as u64
    }
}

impl LensState {
    /// A closed lens with nothing loading.
    pub fn new() -> (r: LensState)
        ensures
            !r.dropdown_open,
            r.loading_model is None,
            !r.loading_slow,
            r.load_gen == 0,
    {
        LensState { dropdown_open: false, loading_model: None, loading_slow: false, load_gen: 0 }
    }

    /// Opens or closes the picker.
    pub fn toggle_dropdown(&mut self)
        ensures
            final(self).dropdown_open == !old(self).dropdown_open,
            final(self).loading_model == old(self).loading_model,
            final(self).loading_slow == old(self).loading_slow,
            final(self).load_gen == old(self).load_gen,
    {
        self.dropdown_open = !self.dropdown_open;
    }

    /// Opens or closes the picker from outside (the keyboard shortcut).
    pub fn set_dropdown(&mut self, open: bool)
        ensures
            final(self).dropdown_open == open,
            final(self).loading_model == old(self).loading_model,
            final(self).loading_slow == old(self).loading_slow,
            final(self).load_gen == old(self).load_gen,
    {
        self.dropdown_open = open;
    }

    /// A model was picked: it is loading, the picker closes and a new load
    /// generation starts, whose number is returned for the slow-load timer.
    pub fn select(&mut self, model_id: String) -> (g: u64)
        ensures
            final(self).loading_model == Some(model_id),
            !final(self).loading_slow,
            !final(self).dropdown_open,
            final(self).load_gen == next_gen(old(self).load_gen),
            g == final(self).load_gen,
    {
        self.loading_model = Some(model_id);
        self.loading_slow = false;
        self.dropdown_open = false;
        self.load_gen = self.load_gen.wrapping_add(1);
        self.load_gen
    }

    /// The slow-load timer of generation `g` fired: the hint shows only when
    /// that load is the latest and is still running.
    pub fn slow_timer_fired(&mut self, g: u64)
        ensures
            final(self).loading_slow == (if g == old(self).load_gen && old(self).loading_model is Some {
                true
            } else {
                old(self).loading_slow
            }),
            final(self).loading_model == old(self).loading_model,
            final(self).dropdown_open == old(self).dropdown_open,
            final(self).load_gen == old(self).load_gen,
    {
        if self.load_gen == g && self.loading_model.is_some() {
            self.loading_slow = true;
        }
    }

    /// The load ended, well or not.
    pub fn load_finished(&mut self)
        ensures
            final(self).loading_model is None,
            !final(self).loading_slow,
            final(self).dropdown_open == old(self).dropdown_open,
            final(self).load_gen == old(self).load_gen,
    {
        self.loading_model = None;
        self.loading_slow = false;
    }
}

/// Picking a model starts a generation different from the previous one, so
/// the slow-load timer of the replaced load never shows the hint for the new
/// load (`slow_timer_fired` with the old generation leaves the state as it is).
pub proof fn lemma_replaced_load_timer_ignored(g: u64)
    ensures
        next_gen(g) != g,
{
}

/// The label shown while a model loads.
pub fn loading_label(model_id: &str) -> (r: String)
    ensures
        r@ == "Loading "@ + model_id@ + "..."@,
{
    let mut out = string_of("Loading ");
    push_str(&mut out, model_id);
    push_str(&mut out, "...");
    out
}

} // verus!
