//! The application shell: its global keyboard shortcuts, theme, overlays and
//! the first-visit onboarding flow.

use vstd::prelude::*;

use crate::components::command_palette::{toggle_theme, toggled_theme};
use crate::text::{str_eq, string_of};

verus! {

/// The state shared by the main screen.
pub struct HomeState {
    pub show_introspection: bool,
    pub model_picker_open: bool,
    /// Bumped by the new-session shortcut; the sidebar watches it.
    pub shortcut_new_session: u64,
    pub theme: String,
    pub show_comparison: bool,
    pub show_export: bool,
}

/// The wrapping successor of a counter.
pub open spec fn wrapping_next(v: u64) -> u64 {
    if v == u64::MAX {
        0
    } else {
        (v + 1) as u64
    }
}

impl HomeState {
    /// The main screen at start: dark theme, nothing open.
    pub fn new() -> (r: HomeState)
        ensures
            !r.show_introspection,
            !r.model_picker_open,
            r.shortcut_new_session == 0,
            r.theme@ == "dark"@,
            !r.show_comparison,
            !r.show_export,
    {
        HomeState {
            show_introspection: false,
            model_picker_open: false,
            shortcut_new_session: 0,
            theme: string_of("dark"),
            show_comparison: false,
            show_export: false,
        }
    }

    /// A global key press: Cmd/Ctrl+N asks for a new session, Cmd/Ctrl+I
    /// toggles the introspection panel, Escape closes the panel and the model
    /// picker. Returns whether the key was handled.
    pub fn handle_shortcut(&mut self, meta_or_ctrl: bool, key: &str) -> (handled: bool)
        ensures
            meta_or_ctrl && key@ == "n"@ ==> handled && final(self).shortcut_new_session == wrapping_next(
                old(self).shortcut_new_session,
            ) && final(self).show_introspection == old(self).show_introspection
                && final(self).model_picker_open == old(self).model_picker_open,
            meta_or_ctrl && key@ == "i"@ ==> handled && final(self).show_introspection
                == !old(self).show_introspection && final(self).shortcut_new_session == old(
                self,
            ).shortcut_new_session && final(self).model_picker_open == old(self).model_picker_open,
            !(meta_or_ctrl && (key@ == "n"@ || key@ == "i"@)) && key@ == "Escape"@ ==> !handled
                && !final(self).show_introspection && !final(self).model_picker_open
                && final(self).shortcut_new_session == old(self).shortcut_new_session,
            !(meta_or_ctrl && (key@ == "n"@ || key@ == "i"@)) && key@ != "Escape"@ ==> !handled
                && final(self).show_introspection == old(self).show_introspection
                && final(self).model_picker_open == old(self).model_picker_open
                && final(self).shortcut_new_session == old(self).shortcut_new_session,
            final(self).theme == old(self).theme,
            final(self).show_comparison == old(self).show_comparison,
            final(self).show_export == old(self).show_export,
    {
        proof {
            reveal_strlit("n");
            reveal_strlit("i");
            assert("n"@[0] != "i"@[0]);
            assert("n"@ != "i"@);
        }
        if meta_or_ctrl && str_eq(key, "n") {
            self.shortcut_new_session = self.shortcut_new_session.wrapping_add(1);
            true
        } else if meta_or_ctrl && str_eq(key, "i") {
            self.show_introspection = !self.show_introspection;
            true
        } else {
            if str_eq(key, "Escape") {
                self.show_introspection = false;
                self.model_picker_open = false;
            }
            false
        }
    }

    /// The theme button: dark becomes light, anything else dark.
    pub fn toggle_theme(&mut self)
        ensures
            final(self).theme@ == toggled_theme(old(self).theme@),
            final(self).show_introspection == old(self).show_introspection,
            final(self).model_picker_open == old(self).model_picker_open,
            final(self).shortcut_new_session == old(self).shortcut_new_session,
            final(self).show_comparison == old(self).show_comparison,
            final(self).show_export == old(self).show_export,
    {
        self.theme = toggle_theme(self.theme.as_str());
    }

    /// The export button opens or closes the export menu.
    pub fn toggle_export(&mut self)
        ensures
            final(self).show_export == !old(self).show_export,
            final(self).theme == old(self).theme,
            final(self).show_introspection == old(self).show_introspection,
            final(self).model_picker_open == old(self).model_picker_open,
            final(self).shortcut_new_session == old(self).shortcut_new_session,
            final(self).show_comparison == old(self).show_comparison,
    {
        self.show_export = !self.show_export;
    }
}

/// How many steps the onboarding flow has.
pub const ONBOARDING_STEPS: usize = 3;

/// The onboarding flow shown on a first visit.
pub struct OnboardingState {
    pub visible: bool,
    pub step: usize,
}

/// Whether the stored flag says the flow was completed: exactly `true`.
pub fn onboarding_complete(stored: Option<&str>) -> (r: bool)
    ensures
        r == (match stored { Some(s) => s@ == "true"@, None => false }),
{
    match stored {
        Some(s) => str_eq(s, "true"),
        None => false,
    }
}

impl OnboardingState {
    /// The flow at its first step, shown unless it was completed before.
    pub fn new(completed: bool) -> (r: OnboardingState)
        ensures
            r.visible == !completed,
            r.step == 0,
    {
        OnboardingState { visible: !completed, step: 0 }
    }

    /// Next: one step forward, up to the last.
    pub fn next(&mut self)
        requires
            old(self).step < ONBOARDING_STEPS,
        ensures
            final(self).step == (if old(self).step < ONBOARDING_STEPS - 1 { old(self).step + 1 } else { old(self).step as int }),
            final(self).visible == old(self).visible,
    {
        if self.step < ONBOARDING_STEPS - 1 {
            self.step = self.step + 1;
        }
    }

    /// Back: one step back, down to the first.
    pub fn back(&mut self)
        ensures
            final(self).step == (if old(self).step > 0 { old(self).step - 1 } else { 0int }),
            final(self).visible == old(self).visible,
    {
        if self.step > 0 {
            self.step = self.step - 1;
        }
    }

    /// Finish or skip: the flow closes (and is recorded as completed).
    pub fn close(&mut self)
        ensures
            !final(self).visible,
            final(self).step == old(self).step,
    {
        self.visible = false;
    }

    /// The back button shows after the first step.
    pub fn shows_back(&self) -> (r: bool)
        ensures
            r == (self.step > 0),
    {
        self.step > 0
    }

    /// The last step shows "finish" in place of "next".
    pub fn is_last_step(&self) -> (r: bool)
        ensures
            r == (self.step >= ONBOARDING_STEPS - 1),
    {
        self.step >= ONBOARDING_STEPS - 1
    }
}

/// The value stored once the flow is completed.
pub fn onboarding_complete_text() -> (r: &'static str)
    ensures
        r@ == "true"@,
{
    "true"
}

/// The width of the sidebar while its divider is dragged: the width at the
/// start of the drag moved by the pointer, not below zero, then kept within
/// `min_px..=max_px`.
pub open spec fn dragged_width(start_width: u32, start_x: i32, client_x: i32, min_px: u32, max_px: u32) -> u32 {
    let raw = start_width + (client_x - start_x);
    let raw0: int = if raw < 0 { 0 } else { raw };
    if raw0 < min_px {
        min_px
    } else if raw0 > max_px {
        max_px
    } else {
        raw0 as u32
    }
}

/// The width of the sidebar while its divider is dragged (see
/// `dragged_width`). The pointer's move and the start width must fit the
/// 32-bit arithmetic of the drag.
pub fn drag_width(start_width: u32, start_x: i32, client_x: i32, min_px: u32, max_px: u32) -> (r: u32)
    requires
        min_px <= max_px,
        start_width <= i32::MAX,
        i32::MIN <= client_x - start_x <= i32::MAX,
        i32::MIN <= start_width + (client_x - start_x) <= i32::MAX,
    ensures
        r == dragged_width(start_width, start_x, client_x, min_px, max_px),
        min_px <= r <= max_px,
{
    let delta: i32 = client_x - start_x;
    let sum: i32 = start_width as i32 + delta;
    let raw: u32 = if sum < 0 { 0 } else { sum as u32 };
    if raw < min_px {
        min_px
    } else if raw > max_px {
        max_px
    } else {
        raw
    }
}

/// The classes of the divider.
pub fn divider_class(dragging: bool, hovered: bool) -> (r: &'static str)
    ensures
        r@ == (if dragging {
            "w-1.5 bg-amber-500/40"@
        } else if hovered {
            "w-1.5 bg-amber-500/30"@
        } else {
            "w-0.5 bg-zinc-800/40"@
        }),
{
    if dragging {
        "w-1.5 bg-amber-500/40"
    } else if hovered {
        "w-1.5 bg-amber-500/30"
    } else {
        "w-0.5 bg-zinc-800/40"
    }
}

} // verus!
