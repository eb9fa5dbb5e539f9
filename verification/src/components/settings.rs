//! Persona modes, progressive feature unlocking and the visibility of
//! features that follows from them.

use vstd::prelude::*;

use crate::components::toast::ToastLevel;
use crate::text::{chars_of, decimal, push_decimal, str_eq};

verus! {

/// UI persona controlling which features are surfaced.
#[derive(Clone, Copy, PartialEq, Eq, Debug, Structural)]
pub enum PersonaMode {
    /// Simplified UI, plain-English descriptions.
    Explorer,
    /// Current UI as-is with introspection.
    Developer,
    /// Full UI + timing graphs, batch queue, raw JSON toggle.
    Researcher,
}

impl PersonaMode {
    pub fn label(self) -> (r: &'static str)
        ensures
            r@ == (match self {
                PersonaMode::Explorer => "Explorer"@,
                PersonaMode::Developer => "Developer"@,
                PersonaMode::Researcher => "Researcher"@,
            }),
    {
        match self {
            PersonaMode::Explorer => "Explorer",
            PersonaMode::Developer => "Developer",
            PersonaMode::Researcher => "Researcher",
        }
    }

    pub fn description(self) -> (r: &'static str)
        ensures
            r@ == (match self {
                PersonaMode::Explorer => "Simple chat interface, great for trying models"@,
                PersonaMode::Developer => "Full features with model introspection"@,
                PersonaMode::Researcher => "Advanced analysis with timing and batch tools"@,
            }),
    {
        match self {
            PersonaMode::Explorer => "Simple chat interface, great for trying models",
            PersonaMode::Developer => "Full features with model introspection",
            PersonaMode::Researcher => "Advanced analysis with timing and batch tools",
        }
    }
}

impl Default for PersonaMode {
    fn default() -> (r: Self)
        ensures
            r == PersonaMode::Explorer,
    {
        PersonaMode::Explorer
    }
}

/// Progressive-unlock tier derived from usage counters.
#[derive(Clone, Copy, PartialEq, Eq, PartialOrd, Ord, Debug, Structural)]
pub enum ComplexityTier {
    /// Chat only, no sidebar, no introspection, minimal model switcher.
    Tier1,
    /// Session sidebar, introspection, image drop zone.
    Tier2,
    /// All features unlocked.
    Tier3,
}

/// The position of a tier in the unlock order.
pub open spec fn tier_rank(t: ComplexityTier) -> int {
    match t {
        ComplexityTier::Tier1 => 1,
        ComplexityTier::Tier2 => 2,
        ComplexityTier::Tier3 => 3,
    }
}

/// The tier that usage counters unlock.
pub open spec fn tier_for_usage(session_count: u32, inference_count: u32) -> ComplexityTier {
    if inference_count >= 20 {
        ComplexityTier::Tier3
    } else if session_count >= 5 {
        ComplexityTier::Tier2
    } else {
        ComplexityTier::Tier1
    }
}

/// The position of a tier in the unlock order.
pub fn tier_rank_of(t: ComplexityTier) -> (r: u8)
    ensures
        r == tier_rank(t),
{
    match t {
        ComplexityTier::Tier1 => 1,
        ComplexityTier::Tier2 => 2,
        ComplexityTier::Tier3 => 3,
    }
}

impl ComplexityTier {
    /// Derive the tier from usage counters: twenty inferences unlock
    /// everything, five sessions unlock the second tier.
    pub fn from_usage(session_count: u32, inference_count: u32) -> (r: Self)
        ensures
            r == tier_for_usage(session_count, inference_count),
    {
        if inference_count >= 20 {
            ComplexityTier::Tier3
        } else if session_count >= 5 {
            ComplexityTier::Tier2
        } else {
            ComplexityTier::Tier1
        }
    }
}

impl Default for ComplexityTier {
    fn default() -> (r: Self)
        ensures
            r == ComplexityTier::Tier1,
    {
        ComplexityTier::Tier1
    }
}

/// More usage never unlocks less: the tier grows with each counter.
pub proof fn lemma_tier_monotone(s1: u32, i1: u32, s2: u32, i2: u32)
    requires
        s1 <= s2,
        i1 <= i2,
    ensures
        tier_rank(tier_for_usage(s1, i1)) <= tier_rank(tier_for_usage(s2, i2)),
{
}

/// The unlock thresholds: twenty inferences unlock every feature whatever
/// the number of sessions; short of that, five sessions unlock the second
/// tier; fewer of both leaves the first tier; and the first request of each
/// kind never unlocks anything.
pub proof fn law_tier_thresholds(sessions: u32, inferences: u32)
    ensures
        inferences >= 20 ==> tier_for_usage(sessions, inferences) == ComplexityTier::Tier3,
        inferences < 20 && sessions >= 5 ==> tier_for_usage(sessions, inferences) == ComplexityTier::Tier2,
        inferences < 20 && sessions < 5 ==> tier_for_usage(sessions, inferences) == ComplexityTier::Tier1,
        tier_for_usage(1, 1) == ComplexityTier::Tier1,
{
}

/// Whether the session sidebar should be displayed: always for developers
/// and researchers, from the second tier on for explorers.
pub fn should_show_sidebar(persona: PersonaMode, tier: ComplexityTier) -> (r: bool)
    ensures
        r == (persona != PersonaMode::Explorer || tier_rank(tier) >= 2),
{
    match persona {
        PersonaMode::Explorer => tier_rank_of(tier) >= 2,
        PersonaMode::Developer | PersonaMode::Researcher => true,
    }
}

/// Whether the introspection panel should be available: always for
/// developers and researchers, from the second tier on for explorers.
pub fn should_show_introspection(persona: PersonaMode, tier: ComplexityTier) -> (r: bool)
    ensures
        r == (persona != PersonaMode::Explorer || tier_rank(tier) >= 2),
{
    match persona {
        PersonaMode::Explorer => tier_rank_of(tier) >= 2,
        PersonaMode::Developer | PersonaMode::Researcher => true,
    }
}

/// Whether batch-queue tools should be available: for researchers only.
pub fn should_show_batch(persona: PersonaMode) -> (r: bool)
    ensures
        r == (persona == PersonaMode::Researcher),
{
    match persona {
        PersonaMode::Researcher => true,
        _ => false,
    }
}

/// Whether the raw-JSON toggle should be available: for researchers only.
pub fn should_show_raw_json(persona: PersonaMode) -> (r: bool)
    ensures
        r == (persona == PersonaMode::Researcher),
{
    match persona {
        PersonaMode::Researcher => true,
        _ => false,
    }
}

/// The tier at start-up: everything when unlocked by hand, else what the
/// counters unlock.
pub fn initial_tier(manual_unlock: bool, session_count: u32, inference_count: u32) -> (r: ComplexityTier)
    ensures
        r == (if manual_unlock { ComplexityTier::Tier3 } else { tier_for_usage(session_count, inference_count) }),
{
    if manual_unlock {
        ComplexityTier::Tier3
    } else {
        ComplexityTier::from_usage(session_count, inference_count)
    }
}

/// The toast that announces an unlocked tier.
pub open spec fn unlock_message(t: ComplexityTier) -> Option<Seq<char>> {
    match t {
        ComplexityTier::Tier2 => Some("Session history is now available"@),
        ComplexityTier::Tier3 => Some("All features are now unlocked"@),
        ComplexityTier::Tier1 => None,
    }
}

/// What recomputing the tier from the counters does: nothing when unlocked
/// by hand or when the counters unlock no higher tier than the current one;
/// else the higher tier, with the message that announces it.
pub fn tier_upgrade(manual_unlock: bool, current: ComplexityTier, session_count: u32, inference_count: u32) -> (r:
    Option<(ComplexityTier, &'static str, ToastLevel)>)
    ensures
        match r {
            Some((t, msg, level)) => {
                &&& !manual_unlock
                &&& t == tier_for_usage(session_count, inference_count)
                &&& tier_rank(t) > tier_rank(current)
                &&& unlock_message(t) == Some(msg@)
                &&& level == ToastLevel::Info
            },
            None => manual_unlock || tier_rank(tier_for_usage(session_count, inference_count)) <= tier_rank(current),
        },
{
    if manual_unlock {
        return None;
    }
    let new_tier = ComplexityTier::from_usage(session_count, inference_count);
    if tier_rank_of(new_tier) > tier_rank_of(current) {
        match new_tier {
            ComplexityTier::Tier2 => Some((new_tier, "Session history is now available", ToastLevel::Info)),
            ComplexityTier::Tier3 => Some((new_tier, "All features are now unlocked", ToastLevel::Info)),
            ComplexityTier::Tier1 => None,
        }
    } else {
        None
    }
}

/// The toast shown when every feature is unlocked by hand.
pub fn unlock_all_toast() -> (r: (&'static str, ToastLevel))
    ensures
        r.0@ == "All features are now unlocked"@,
        r.1 == ToastLevel::Info,
{
    ("All features are now unlocked", ToastLevel::Info)
}

/// The value of a decimal digit character.
pub open spec fn digit_value(c: char) -> nat {
    (c as nat - '0' as nat) as nat
}

/// The number written by the first `k` digits of `s`.
pub open spec fn digits_value(s: Seq<char>, k: int) -> nat
    decreases k,
{
    if k <= 0 {
        0
    } else {
        digits_value(s, k - 1) * 10 + digit_value(s[k - 1])
    }
}

/// The digits of a counter as stored: without a leading `+`.
pub open spec fn counter_digits(s: Seq<char>) -> Seq<char> {
    if s.len() > 0 && s[0] == '+' {
        s.drop_first()
    } else {
        s
    }
}

/// A stored counter: what `str::parse::<u32>` accepts (an optional `+` and
/// one or more decimal digits, at most `u32::MAX`), and 0 for anything else
/// or nothing stored.
pub open spec fn counter_value(stored: Option<Seq<char>>) -> u32 {
    match stored {
        None => 0,
        Some(s) => {
            let d = counter_digits(s);
            if d.len() > 0 && (forall|i: int| 0 <= i < d.len() ==> '0' <= #[trigger] d[i] <= '9')
                && digits_value(d, d.len() as int) <= u32::MAX {
                digits_value(d, d.len() as int) as u32
            } else {
                0
            }
        },
    }
}

/// Reads a stored counter (see `counter_value`).
pub fn parse_counter(stored: Option<&str>) -> (r: u32)
    ensures
        r == counter_value(match stored { Some(s) => Some(s@), None => None }),
{
    let s = match stored {
        Some(s) => s,
        None => return 0,
    };
    let cs = chars_of(s);
    let start: usize = if cs.len() > 0 && cs[0] == '+' { 1 } else { 0 };
    let ghost d = counter_digits(s@);
    assert(d == cs@.subrange(start as int, cs@.len() as int));
    if start >= cs.len() {
        return 0;
    }
    let mut value: u64 = 0;
    let mut i: usize = start;
    while i < cs.len()
        invariant
            stored == Some(s),
            cs@ == s@,
            d == counter_digits(s@),
            start <= i <= cs@.len(),
            start < cs@.len(),
            d == cs@.subrange(start as int, cs@.len() as int),
            forall|j: int| 0 <= j < i - start ==> '0' <= #[trigger] d[j] <= '9',
            value == digits_value(d, i - start),
            value <= u32::MAX,
        decreases cs.len() - i,
    {
        let c = cs[i];
        assert(d[i - start] == c);
        if c < '0' || c > '9' {
            assert(!('0' <= d[i - start] <= '9'));
            return 0;
        }
        let digit: u64 = (c as u32 - '0' as u32) as u64;
        assert(digit == digit_value(c));
        let next = value * 10 + digit;
        if next > 4294967295u64 {
            proof {
                lemma_digits_value_grows(d, i + 1 - start, d.len() as int);
                assert(digits_value(d, i + 1 - start) == next);
            }
            return 0;
        }
        value = next;
        i = i + 1;
    }
    value as u32
}

proof fn lemma_digits_value_grows(s: Seq<char>, k: int, m: int)
    requires
        0 <= k <= m,
    ensures
        digits_value(s, k) <= digits_value(s, m),
    decreases m - k,
{
    if m > k {
        lemma_digits_value_grows(s, k, m - 1);
    }
}

/// The text under which a counter is stored: its decimal form.
pub fn counter_text(value: u32) -> (r: String)
    ensures
        r@ == decimal(value as nat),
{
    let mut out = String::new();
    push_decimal(&mut out, value as u64);
    out
}

/// Whether the stored flag means "unlocked by hand": exactly `true`.
pub fn parse_manual_unlock(stored: Option<&str>) -> (r: bool)
    ensures
        r == (match stored { Some(s) => s@ == "true"@, None => false }),
{
    match stored {
        Some(s) => str_eq(s, "true"),
        None => false,
    }
}

/// The text under which the flag is stored.
pub fn manual_unlock_text(value: bool) -> (r: &'static str)
    ensures
        r@ == (if value { "true"@ } else { "false"@ }),
{
    if value {
        "true"
    } else {
        "false"
    }
}

/// A counter after one more use, when it can still grow.
pub fn bumped_counter(count: u32) -> (r: u32)
    requires
        count < u32::MAX,
    ensures
        r == count + 1,
{
    count + 1
}

} // verus!
