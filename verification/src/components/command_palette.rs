//! The command palette: its commands, the search over them, the recently
//! used list and keyboard navigation.

use vstd::prelude::*;

use crate::text::{lowercase_of, push_str, seq_contains, str_contains, str_eq, string_of, to_lowercase};
use crate::components::toast::ToastLevel;
use crate::types::ModelInfo;

verus! {

/// What a command does.
#[derive(Clone, Debug)]
pub enum PaletteAction {
    LoadModel(String),
    NewSession,
    ExportSession,
    CompareModels,
    ToggleTheme,
    ToggleIntrospection,
}

/// A command of the palette.
#[derive(Clone, Debug)]
pub struct PaletteCommand {
    pub id: String,
    pub label: String,
    pub category: String,
    pub shortcut: Option<String>,
    pub action: PaletteAction,
}

/// The abstract content of an action.
pub enum ActionView {
    LoadModel(Seq<char>),
    NewSession,
    ExportSession,
    CompareModels,
    ToggleTheme,
    ToggleIntrospection,
}

/// The abstract content of a command.
pub struct CommandView {
    pub id: Seq<char>,
    pub label: Seq<char>,
    pub category: Seq<char>,
    pub shortcut: Option<Seq<char>>,
    pub action: ActionView,
}

impl View for PaletteAction {
    type V = ActionView;

    open spec fn view(&self) -> ActionView {
        match self {
            PaletteAction::LoadModel(id) => ActionView::LoadModel(id@),
            PaletteAction::NewSession => ActionView::NewSession,
            PaletteAction::ExportSession => ActionView::ExportSession,
            PaletteAction::CompareModels => ActionView::CompareModels,
            PaletteAction::ToggleTheme => ActionView::ToggleTheme,
            PaletteAction::ToggleIntrospection => ActionView::ToggleIntrospection,
        }
    }
}

/// The view of an optional string.
pub open spec fn opt_chars(s: Option<String>) -> Option<Seq<char>> {
    match s {
        Some(t) => Some(t@),
        None => None,
    }
}

impl View for PaletteCommand {
    type V = CommandView;

    open spec fn view(&self) -> CommandView {
        CommandView {
            id: self.id@,
            label: self.label@,
            category: self.category@,
            shortcut: opt_chars(self.shortcut),
            action: self.action@,
        }
    }
}

/// The views of a list of commands.
pub open spec fn commands_view(v: Seq<PaletteCommand>) -> Seq<CommandView> {
    v.map_values(|c: PaletteCommand| c@)
}

/// The views of a list of strings.
pub open spec fn strings_view(v: Seq<String>) -> Seq<Seq<char>> {
    v.map_values(|s: String| s@)
}

/// The commands that are always there.
pub open spec fn static_commands() -> Seq<CommandView> {
    seq![
        CommandView {
            id: "new-session"@,
            label: "New session"@,
            category: "Session"@,
            shortcut: Some("\u{2318}N"@),
            action: ActionView::NewSession,
        },
        CommandView {
            id: "export-session"@,
            label: "Export session"@,
            category: "Session"@,
            shortcut: None,
            action: ActionView::ExportSession,
        },
        CommandView {
            id: "compare-models"@,
            label: "Compare models"@,
            category: "Models"@,
            shortcut: None,
            action: ActionView::CompareModels,
        },
        CommandView {
            id: "toggle-theme"@,
            label: "Toggle theme"@,
            category: "View"@,
            shortcut: None,
            action: ActionView::ToggleTheme,
        },
        CommandView {
            id: "toggle-introspection"@,
            label: "Toggle introspection"@,
            category: "View"@,
            shortcut: Some("\u{2318}I"@),
            action: ActionView::ToggleIntrospection,
        },
    ]
}

/// The command that loads a model.
pub open spec fn load_command(id: Seq<char>, name: Seq<char>) -> CommandView {
    CommandView {
        id: "load-model-"@ + id,
        label: "Load model: "@ + name,
        category: "Models"@,
        shortcut: None,
        action: ActionView::LoadModel(id),
    }
}

/// The commands that load each model, in order.
pub open spec fn load_commands(models: Seq<ModelInfo>) -> Seq<CommandView> {
    models.map_values(|m: ModelInfo| load_command(m.id@, m.name@))
}

fn command(id: &str, label: &str, category: &str, shortcut: Option<&str>, action: PaletteAction) -> (r:
    PaletteCommand)
    ensures
        r.id@ == id@,
        r.label@ == label@,
        r.category@ == category@,
        r.shortcut matches Some(s) ==> shortcut matches Some(t) && s@ == t@,
        r.shortcut is None ==> shortcut is None,
        r.action == action,
{
    PaletteCommand {
        id: string_of(id),
        label: string_of(label),
        category: string_of(category),
        shortcut: match shortcut {
            Some(s) => Some(string_of(s)),
            None => None,
        },
        action,
    }
}

/// Every command: the fixed ones, then one per model to load it.
pub fn all_commands(models: &[ModelInfo]) -> (r: Vec<PaletteCommand>)
    ensures
        commands_view(r@) == static_commands() + load_commands(models@),
{
    let mut cmds: Vec<PaletteCommand> = Vec::new();
    cmds.push(command("new-session", "New session", "Session", Some("\u{2318}N"), PaletteAction::NewSession));
    cmds.push(command("export-session", "Export session", "Session", None, PaletteAction::ExportSession));
    cmds.push(command("compare-models", "Compare models", "Models", None, PaletteAction::CompareModels));
    cmds.push(command("toggle-theme", "Toggle theme", "View", None, PaletteAction::ToggleTheme));
    cmds.push(
        command(
            "toggle-introspection",
            "Toggle introspection",
            "View",
            Some("\u{2318}I"),
            PaletteAction::ToggleIntrospection,
        ),
    );
    assert(commands_view(cmds@) =~= static_commands());
    let mut i: usize = 0;
    while i < models.len()
        invariant
            i <= models@.len(),
            commands_view(cmds@) == static_commands() + load_commands(models@.subrange(0, i as int)),
        decreases models.len() - i,
    {
        let m = &models[i];
        let mut id = string_of("load-model-");
        push_str(&mut id, m.id.as_str());
        let mut label = string_of("Load model: ");
        push_str(&mut label, m.name.as_str());
        let c = PaletteCommand {
            id,
            label,
            category: string_of("Models"),
            shortcut: None,
            action: PaletteAction::LoadModel(m.id.clone()),
        };
        let ghost before = cmds@;
        cmds.push(c);
        assert(commands_view(cmds@) =~= commands_view(before).push(c@));
        assert(load_commands(models@.subrange(0, i + 1)) =~= load_commands(models@.subrange(0, i as int)).push(
            load_command(models@[i as int].id@, models@[i as int].name@),
        ));
        i = i + 1;
    }
    assert(models@.subrange(0, models@.len() as int) == models@);
    cmds
}

/// The commands whose id is `id`, in order.
pub open spec fn with_id(cmds: Seq<CommandView>, id: Seq<char>) -> Seq<CommandView>
    decreases cmds.len(),
{
    if cmds.len() == 0 {
        Seq::empty()
    } else if cmds.last().id == id {
        with_id(cmds.drop_last(), id).push(cmds.last())
    } else {
        with_id(cmds.drop_last(), id)
    }
}

/// The commands whose id is none of `ids`, in order.
pub open spec fn not_in(cmds: Seq<CommandView>, ids: Seq<Seq<char>>) -> Seq<CommandView>
    decreases cmds.len(),
{
    if cmds.len() == 0 {
        Seq::empty()
    } else if ids.contains(cmds.last().id) {
        not_in(cmds.drop_last(), ids)
    } else {
        not_in(cmds.drop_last(), ids).push(cmds.last())
    }
}

/// The recently used commands, most recent first: for each of the first `k`
/// recent ids not seen before in the list, the commands with that id.
pub open spec fn recent_part(cmds: Seq<CommandView>, recents: Seq<Seq<char>>, k: int) -> Seq<CommandView>
    decreases k,
{
    if k <= 0 {
        Seq::empty()
    } else if recents.subrange(0, k - 1).contains(recents[k - 1]) {
        recent_part(cmds, recents, k - 1)
    } else {
        recent_part(cmds, recents, k - 1) + with_id(cmds, recents[k - 1])
    }
}

/// The commands whose lowercased label contains `q`, in order.
pub open spec fn matching(cmds: Seq<CommandView>, q: Seq<char>) -> Seq<CommandView>
    decreases cmds.len(),
{
    if cmds.len() == 0 {
        Seq::empty()
    } else if seq_contains(lowercase_of(cmds.last().label), q) {
        matching(cmds.drop_last(), q).push(cmds.last())
    } else {
        matching(cmds.drop_last(), q)
    }
}

/// What the palette lists for a search: with an empty query, the recently
/// used commands (most recent first) and then the others in order; else the
/// commands whose lowercased label contains the lowercased query.
pub open spec fn filtered(cmds: Seq<CommandView>, query: Seq<char>, recents: Seq<Seq<char>>) -> Seq<CommandView> {
    let q = lowercase_of(query);
    if q.len() == 0 {
        recent_part(cmds, recents, recents.len() as int) + not_in(cmds, recents)
    } else {
        matching(cmds, q)
    }
}

proof fn lemma_matching_members(cmds: Seq<CommandView>, q: Seq<char>, c: CommandView)
    ensures
        matching(cmds, q).contains(c) == (cmds.contains(c) && seq_contains(lowercase_of(c.label), q)),
    decreases cmds.len(),
{
    if cmds.len() > 0 {
        let rest = cmds.drop_last();
        lemma_matching_members(rest, q, c);
        assert(cmds == rest.push(cmds.last()));
        if cmds.contains(c) && !rest.contains(c) {
            let k = choose|k: int| 0 <= k < cmds.len() && cmds[k] == c;
            if k < rest.len() {
                assert(rest[k] == c);
            }
            assert(c == cmds.last());
        }
        if rest.contains(c) {
            let k = choose|k: int| 0 <= k < rest.len() && rest[k] == c;
            assert(cmds[k] == c);
        }
        let m = matching(rest, q);
        if m.contains(c) {
            let k = choose|k: int| 0 <= k < m.len() && m[k] == c;
            assert(m.push(cmds.last())[k] == c);
        }
        if seq_contains(lowercase_of(cmds.last().label), q) {
            assert(m.push(cmds.last())[m.len() as int] == cmds.last());
            if m.push(cmds.last()).contains(c) && !m.contains(c) {
                let k = choose|k: int| 0 <= k < m.len() + 1 && m.push(cmds.last())[k] == c;
                if k < m.len() {
                    assert(m[k] == c);
                }
            }
        }
    }
}

/// A search with a non-empty query lists exactly the commands whose
/// lowercased label holds the lowercased query somewhere, at any position
/// (not only at its start).
pub proof fn law_search_lists_labels_containing_query(
    cmds: Seq<CommandView>,
    query: Seq<char>,
    recents: Seq<Seq<char>>,
    c: CommandView,
)
    requires
        lowercase_of(query).len() > 0,
    ensures
        filtered(cmds, query, recents).contains(c) == (cmds.contains(c) && exists|i: int|
            0 <= i && i + lowercase_of(query).len() <= lowercase_of(c.label).len() && #[trigger] lowercase_of(
                c.label,
            ).subrange(i, i + lowercase_of(query).len()) == lowercase_of(query)),
{
    lemma_matching_members(cmds, lowercase_of(query), c);
    let q = lowercase_of(query);
    let l = lowercase_of(c.label);
    if seq_contains(l, q) {
        let i = choose|i: int| crate::text::occurs_at(l, q, i);
        assert(l.subrange(i, i + q.len()) == q);
    }
    if exists|i: int| 0 <= i && i + q.len() <= l.len() && #[trigger] l.subrange(i, i + q.len()) == q {
        let i = choose|i: int| 0 <= i && i + q.len() <= l.len() && #[trigger] l.subrange(i, i + q.len()) == q;
        assert(crate::text::occurs_at(l, q, i));
    }
}

impl PaletteCommand {
    /// A copy of this command equal to it.
    pub fn copy_of(&self) -> (r: PaletteCommand)
        ensures
            r@ == self@,
    {
        PaletteCommand {
            id: self.id.clone(),
            label: self.label.clone(),
            category: self.category.clone(),
            shortcut: match &self.shortcut {
                Some(s) => Some(s.clone()),
                None => None,
            },
            action: match &self.action {
                PaletteAction::LoadModel(id) => PaletteAction::LoadModel(id.clone()),
                PaletteAction::NewSession => PaletteAction::NewSession,
                PaletteAction::ExportSession => PaletteAction::ExportSession,
                PaletteAction::CompareModels => PaletteAction::CompareModels,
                PaletteAction::ToggleTheme => PaletteAction::ToggleTheme,
                PaletteAction::ToggleIntrospection => PaletteAction::ToggleIntrospection,
            },
        }
    }
}

fn contains_id(ids: &[String], id: &str, upto: usize) -> (r: bool)
    requires
        upto <= ids@.len(),
    ensures
        r == strings_view(ids@).subrange(0, upto as int).contains(id@),
{
    let mut i: usize = 0;
    while i < upto
        invariant
            i <= upto <= ids@.len(),
            !strings_view(ids@).subrange(0, i as int).contains(id@),
        decreases upto - i,
    {
        if str_eq(ids[i].as_str(), id) {
            assert(strings_view(ids@).subrange(0, upto as int)[i as int] == id@);
            return true;
        }
        assert(strings_view(ids@).subrange(0, i + 1) =~= strings_view(ids@).subrange(0, i as int).push(ids@[i as int]@));
        i = i + 1;
    }
    false
}

fn push_with_id(out: &mut Vec<PaletteCommand>, cmds: &[PaletteCommand], id: &str)
    ensures
        commands_view(final(out)@) == commands_view(old(out)@) + with_id(commands_view(cmds@), id@),
{
    let mut i: usize = 0;
    while i < cmds.len()
        invariant
            i <= cmds@.len(),
            commands_view(out@) == commands_view(old(out)@) + with_id(
                commands_view(cmds@.subrange(0, i as int)),
                id@,
            ),
        decreases cmds.len() - i,
    {
        let ghost before = out@;
        if str_eq(cmds[i].id.as_str(), id) {
            out.push(cmds[i].copy_of());
            assert(commands_view(out@) =~= commands_view(before).push(cmds@[i as int]@));
        }
        assert(commands_view(cmds@.subrange(0, i + 1)).drop_last() =~= commands_view(cmds@.subrange(0, i as int)));
        i = i + 1;
    }
    assert(cmds@.subrange(0, cmds@.len() as int) == cmds@);
}

/// What the palette lists for a search (see `filtered`).
pub fn filter_commands(cmds: &[PaletteCommand], query: &str, recents: &[String]) -> (r: Vec<PaletteCommand>)
    ensures
        commands_view(r@) == filtered(commands_view(cmds@), query@, strings_view(recents@)),
        lowercase_of(query@).len() > 0 ==> forall|c: CommandView|
            commands_view(r@).contains(c) == (commands_view(cmds@).contains(c) && exists|i: int|
                0 <= i && i + lowercase_of(query@).len() <= lowercase_of(c.label).len() && #[trigger] lowercase_of(
                    c.label,
                ).subrange(i, i + lowercase_of(query@).len()) == lowercase_of(query@)),
{
    proof {
        if lowercase_of(query@).len() > 0 {
            assert forall|c: CommandView|
                filtered(commands_view(cmds@), query@, strings_view(recents@)).contains(c) == (commands_view(
                    cmds@,
                ).contains(c) && exists|i: int|
                    0 <= i && i + lowercase_of(query@).len() <= lowercase_of(c.label).len()
                        && #[trigger] lowercase_of(c.label).subrange(i, i + lowercase_of(query@).len())
                        == lowercase_of(query@)) by {
                law_search_lists_labels_containing_query(commands_view(cmds@), query@, strings_view(recents@), c);
            }
        }
    }
    let q = to_lowercase(query);
    let ghost cv = commands_view(cmds@);
    let ghost rv = strings_view(recents@);
    let mut out: Vec<PaletteCommand> = Vec::new();
    if q.as_str().is_empty() {
        let mut k: usize = 0;
        while k < recents.len()
            invariant
                k <= recents@.len(),
                cv == commands_view(cmds@),
                rv == strings_view(recents@),
                commands_view(out@) == recent_part(cv, rv, k as int),
            decreases recents.len() - k,
        {
            if !contains_id(recents, recents[k].as_str(), k) {
                push_with_id(&mut out, cmds, recents[k].as_str());
            }
            assert(rv[k as int] == recents@[k as int]@);
            k = k + 1;
        }
        let mut i: usize = 0;
        while i < cmds.len()
            invariant
                i <= cmds@.len(),
                cv == commands_view(cmds@),
                rv == strings_view(recents@),
                commands_view(out@) == recent_part(cv, rv, rv.len() as int) + not_in(
                    commands_view(cmds@.subrange(0, i as int)),
                    rv,
                ),
            decreases cmds.len() - i,
        {
            let ghost before = out@;
            if !contains_id(recents, cmds[i].id.as_str(), recents.len()) {
                out.push(cmds[i].copy_of());
                assert(commands_view(out@) =~= commands_view(before).push(cmds@[i as int]@));
            }
            assert(strings_view(recents@).subrange(0, recents@.len() as int) == rv);
            assert(commands_view(cmds@.subrange(0, i + 1)).drop_last() =~= commands_view(cmds@.subrange(0, i as int)));
            i = i + 1;
        }
        assert(cmds@.subrange(0, cmds@.len() as int) == cmds@);
    } else {
        let mut i: usize = 0;
        while i < cmds.len()
            invariant
                i <= cmds@.len(),
                q@ == lowercase_of(query@),
                q@.len() > 0,
                commands_view(out@) == matching(commands_view(cmds@.subrange(0, i as int)), q@),
            decreases cmds.len() - i,
        {
            let ghost before = out@;
            let label = to_lowercase(cmds[i].label.as_str());
            if str_contains(label.as_str(), q.as_str()) {
                out.push(cmds[i].copy_of());
                assert(commands_view(out@) =~= commands_view(before).push(cmds@[i as int]@));
            }
            assert(commands_view(cmds@.subrange(0, i + 1)).drop_last() =~= commands_view(cmds@.subrange(0, i as int)));
            i = i + 1;
        }
        assert(cmds@.subrange(0, cmds@.len() as int) == cmds@);
    }
    out
}

/// A heading of the palette's list with the positions of its commands.
#[derive(Debug)]
pub struct CommandGroup {
    pub category: String,
    pub indices: Vec<usize>,
}

/// The abstract content of a list of groups.
pub open spec fn groups_view(v: Seq<CommandGroup>) -> Seq<(Seq<char>, Seq<usize>)> {
    v.map_values(|g: CommandGroup| (g.category@, g.indices@))
}

/// The position of the first of the first `k` groups with category `cat`.
pub open spec fn group_index(groups: Seq<(Seq<char>, Seq<usize>)>, cat: Seq<char>, k: int) -> Option<int>
    decreases k,
{
    if k <= 0 {
        None
    } else {
        match group_index(groups, cat, k - 1) {
            Some(g) => Some(g),
            None => if groups[k - 1].0 == cat {
                Some(k - 1)
            } else {
                None
            },
        }
    }
}

/// The groups after adding command `idx` of category `cat`: to the group of
/// that category if there is one, else to a new group at the end.
pub open spec fn add_to_group(groups: Seq<(Seq<char>, Seq<usize>)>, cat: Seq<char>, idx: usize) -> Seq<
    (Seq<char>, Seq<usize>),
> {
    match group_index(groups, cat, groups.len() as int) {
        Some(g) => groups.update(g, (groups[g].0, groups[g].1.push(idx))),
        None => groups.push((cat, seq![idx])),
    }
}

/// The first `k` commands whose id is not in `skip`, grouped by category in
/// the order in which the categories first appear.
pub open spec fn grouped(cmds: Seq<CommandView>, skip: Seq<Seq<char>>, k: int) -> Seq<(Seq<char>, Seq<usize>)>
    decreases k,
{
    if k <= 0 {
        Seq::empty()
    } else if skip.contains(cmds[k - 1].id) {
        grouped(cmds, skip, k - 1)
    } else {
        add_to_group(grouped(cmds, skip, k - 1), cmds[k - 1].category, (k - 1) as usize)
    }
}

/// The positions of the first `k` commands whose id is in `ids`.
pub open spec fn positions_in(cmds: Seq<CommandView>, ids: Seq<Seq<char>>, k: int) -> Seq<usize>
    decreases k,
{
    if k <= 0 {
        Seq::empty()
    } else if ids.contains(cmds[k - 1].id) {
        positions_in(cmds, ids, k - 1).push((k - 1) as usize)
    } else {
        positions_in(cmds, ids, k - 1)
    }
}

/// The headings of the listed commands: with recently used commands shown
/// (empty query and a non-empty recent list), a "Recent" group first and the
/// other commands by category; else every command by category.
pub open spec fn display_groups(cmds: Seq<CommandView>, recents: Seq<Seq<char>>, show_recents: bool) -> Seq<
    (Seq<char>, Seq<usize>),
> {
    if show_recents {
        let rec = positions_in(cmds, recents, cmds.len() as int);
        let head = if rec.len() > 0 {
            seq![("Recent"@, rec)]
        } else {
            Seq::empty()
        };
        head + grouped(cmds, recents, cmds.len() as int)
    } else {
        grouped(cmds, Seq::empty(), cmds.len() as int)
    }
}

fn pushed_copy(v: &Vec<usize>, x: usize) -> (r: Vec<usize>)
    ensures
        r@ == v@.push(x),
{
    let mut out: Vec<usize> = Vec::new();
    let mut i: usize = 0;
    while i < v.len()
        invariant
            i <= v@.len(),
            out@ == v@.subrange(0, i as int),
        decreases v.len() - i,
    {
        out.push(v[i]);
        i = i + 1;
    }
    out.push(x);
    assert(out@ =~= v@.push(x));
    out
}

fn add_command_to_groups(groups: &mut Vec<CommandGroup>, category: &String, idx: usize)
    ensures
        groups_view(final(groups)@) == add_to_group(groups_view(old(groups)@), category@, idx),
{
    let ghost gv = groups_view(groups@);
    let mut g: usize = 0;
    while g < groups.len()
        invariant
            g <= groups@.len(),
            gv == groups_view(groups@),
            *groups == *old(groups),
            group_index(gv, category@, g as int) is None,
        decreases groups.len() - g,
    {
        if str_eq(groups[g].category.as_str(), category.as_str()) {
            proof {
                assert(group_index(gv, category@, g + 1) == Some(g as int));
                lemma_group_index_stable(gv, category@, g + 1, gv.len() as int);
            }
            let idxs = pushed_copy(&groups[g].indices, idx);
            let cat = groups[g].category.clone();
            groups.set(g, CommandGroup { category: cat, indices: idxs });
            assert(groups_view(groups@) =~= gv.update(g as int, (gv[g as int].0, gv[g as int].1.push(idx))));
            return;
        }
        g = g + 1;
    }
    let mut first: Vec<usize> = Vec::new();
    first.push(idx);
    groups.push(CommandGroup { category: category.clone(), indices: first });
    assert(groups_view(groups@) =~= gv.push((category@, seq![idx])));
}

proof fn lemma_group_index_stable(groups: Seq<(Seq<char>, Seq<usize>)>, cat: Seq<char>, k: int, m: int)
    requires
        0 <= k <= m,
        group_index(groups, cat, k) is Some,
    ensures
        group_index(groups, cat, m) == group_index(groups, cat, k),
    decreases m - k,
{
    if m > k {
        lemma_group_index_stable(groups, cat, k, m - 1);
    }
}

fn ids_contain(ids: &[String], id: &str) -> (r: bool)
    ensures
        r == strings_view(ids@).contains(id@),
{
    let r = contains_id(ids, id, ids.len());
    assert(strings_view(ids@).subrange(0, ids@.len() as int) == strings_view(ids@));
    r
}

/// The headings of the listed commands (see `display_groups`).
pub fn group_commands(cmds: &[PaletteCommand], recents: &[String], show_recents: bool) -> (r: Vec<CommandGroup>)
    ensures
        groups_view(r@) == display_groups(commands_view(cmds@), strings_view(recents@), show_recents),
{
    let ghost cv = commands_view(cmds@);
    let ghost skip: Seq<Seq<char>> = if show_recents { strings_view(recents@) } else { Seq::empty() };
    let mut groups: Vec<CommandGroup> = Vec::new();
    let mut rec: Vec<usize> = Vec::new();
    let mut i: usize = 0;
    while i < cmds.len()
        invariant
            i <= cmds@.len(),
            cv == commands_view(cmds@),
            skip == (if show_recents { strings_view(recents@) } else { Seq::<Seq<char>>::empty() }),
            groups_view(groups@) == grouped(cv, skip, i as int),
            show_recents ==> rec@ == positions_in(cv, strings_view(recents@), i as int),
        decreases cmds.len() - i,
    {
        assert(cv[i as int] == cmds@[i as int]@);
        let recent = show_recents && ids_contain(recents, cmds[i].id.as_str());
        if recent {
            rec.push(i);
        } else {
            add_command_to_groups(&mut groups, &cmds[i].category, i);
        }
        i = i + 1;
    }
    if show_recents && rec.len() > 0 {
        let mut out: Vec<CommandGroup> = Vec::new();
        out.push(CommandGroup { category: string_of("Recent"), indices: rec });
        let ghost head = groups_view(out@);
        out.append(&mut groups);
        assert(groups_view(out@) =~= head + grouped(cv, skip, cv.len() as int));
        out
    } else {
        groups
    }
}

/// How many recently used commands are remembered.
pub const MAX_RECENTS: usize = 5;

/// The ids of `ids` other than `id`, in order.
pub open spec fn others(ids: Seq<Seq<char>>, id: Seq<char>) -> Seq<Seq<char>>
    decreases ids.len(),
{
    if ids.len() == 0 {
        Seq::empty()
    } else if ids.last() == id {
        others(ids.drop_last(), id)
    } else {
        others(ids.drop_last(), id).push(ids.last())
    }
}

/// The recent list after using command `id`: `id` first, then the others in
/// order, at most five in all.
pub open spec fn recents_after(ids: Seq<Seq<char>>, id: Seq<char>) -> Seq<Seq<char>> {
    let l = seq![id] + others(ids, id);
    if l.len() <= MAX_RECENTS {
        l
    } else {
        l.take(MAX_RECENTS as int)
    }
}

/// Records that command `id` was used.
pub fn record_recent(recents: &mut Vec<String>, id: &str)
    ensures
        strings_view(final(recents)@) == recents_after(strings_view(old(recents)@), id@),
{
    let ghost old_v = strings_view(recents@);
    let mut kept: Vec<String> = Vec::new();
    kept.push(string_of(id));
    let mut i: usize = 0;
    while i < recents.len()
        invariant
            i <= recents@.len(),
            old_v == strings_view(recents@),
            strings_view(kept@) == seq![id@] + others(old_v.subrange(0, i as int), id@),
        decreases recents.len() - i,
    {
        let ghost before = kept@;
        assert(old_v.subrange(0, i + 1).drop_last() == old_v.subrange(0, i as int));
        assert(old_v.subrange(0, i + 1).last() == recents@[i as int]@);
        if !str_eq(recents[i].as_str(), id) {
            kept.push(recents[i].clone());
            assert(strings_view(kept@) =~= strings_view(before).push(recents@[i as int]@));
        }
        i = i + 1;
    }
    assert(old_v.subrange(0, old_v.len() as int) == old_v);
    if kept.len() > MAX_RECENTS {
        kept.truncate(MAX_RECENTS);
        assert(strings_view(kept@) =~= (seq![id@] + others(old_v, id@)).take(MAX_RECENTS as int));
    }
    *recents = kept;
}

/// The ids of a list are pairwise distinct.
pub open spec fn distinct(ids: Seq<Seq<char>>) -> bool {
    forall|i: int, j: int| 0 <= i < j < ids.len() ==> ids[i] != ids[j]
}

proof fn lemma_others_members(ids: Seq<Seq<char>>, id: Seq<char>)
    ensures
        forall|k: int| 0 <= k < others(ids, id).len() ==> #[trigger] others(ids, id)[k] != id && ids.contains(others(ids, id)[k]),
        distinct(ids) ==> distinct(others(ids, id)),
    decreases ids.len(),
{
    if ids.len() > 0 {
        let a = ids.drop_last();
        lemma_others_members(a, id);
        let o = others(a, id);
        assert forall|k: int| 0 <= k < o.len() implies ids.contains(#[trigger] o[k]) by {
            let w = choose|w: int| 0 <= w < a.len() && a[w] == o[k];
            assert(ids[w] == o[k]);
        }
        assert(ids[ids.len() - 1] == ids.last());
        if distinct(ids) {
            assert forall|i: int, j: int| 0 <= i < j < a.len() implies a[i] != a[j] by {
                assert(a[i] == ids[i]);
                assert(a[j] == ids[j]);
            }
            if ids.last() != id {
                let p = o.push(ids.last());
                assert forall|i: int, j: int| 0 <= i < j < p.len() implies p[i] != p[j] by {
                    if j == p.len() - 1 {
                        assert(p[i] == o[i]);
                        assert(a.contains(o[i]));
                        let w = choose|w: int| 0 <= w < a.len() && a[w] == o[i];
                        assert(ids[w] == a[w]);
                    } else {
                        assert(p[i] == o[i]);
                        assert(p[j] == o[j]);
                    }
                }
            }
        }
    }
}

/// The recent list stays short, starts with the command just used, and never
/// holds an id twice when it did not before.
pub proof fn lemma_recents_after(ids: Seq<Seq<char>>, id: Seq<char>)
    ensures
        recents_after(ids, id).len() <= MAX_RECENTS,
        recents_after(ids, id)[0] == id,
        distinct(ids) ==> distinct(recents_after(ids, id)),
{
    let o = others(ids, id);
    let l = seq![id] + o;
    assert(l[0] == id);
    lemma_others_members(ids, id);
    if distinct(ids) {
        assert forall|i: int, j: int| 0 <= i < j < l.len() implies l[i] != l[j] by {
            assert(l[j] == o[j - 1]);
            if i > 0 {
                assert(l[i] == o[i - 1]);
            }
        }
        let r = recents_after(ids, id);
        assert forall|i: int, j: int| 0 <= i < j < r.len() implies r[i] != r[j] by {
            assert(r[i] == l[i]);
            assert(r[j] == l[j]);
        }
    }
}

/// The selection after ArrowDown: the next command, wrapping to the first.
pub fn select_next(i: usize, count: usize) -> (r: usize)
    requires
        count > 0 ==> i < count,
    ensures
        count == 0 ==> r == i,
        count > 0 ==> r == (i + 1) % (count as int),
{
    if count > 0 {
        (i + 1) % count
    } else {
        i
    }
}

/// The selection after ArrowUp: the previous command, wrapping to the last.
pub fn select_previous(i: usize, count: usize) -> (r: usize)
    requires
        count > 0 ==> i < count,
    ensures
        count == 0 ==> r == i,
        count > 0 ==> r == if i == 0 { count - 1 } else { i - 1 },
{
    if count > 0 {
        if i == 0 {
            count - 1
        } else {
            i - 1
        }
    } else {
        i
    }
}

/// Moving down then up, or up then down, comes back to the same command;
/// the selection stays within the list either way.
pub proof fn lemma_selection_round_trip(i: int, count: int)
    requires
        0 <= i < count,
    ensures
        (i + 1) % count < count,
        ({
            let d = (i + 1) % count;
            (if d == 0 { count - 1 } else { d - 1 }) == i
        }),
        ({
            let u = if i == 0 { count - 1 } else { i - 1 };
            (u + 1) % count == i
        }),
{
    if i + 1 == count {
        assert((i + 1) % count == 0) by (nonlinear_arith)
            requires
                i + 1 == count,
                count > 0,
        ;
    } else {
        assert((i + 1) % count == i + 1) by (nonlinear_arith)
            requires
                0 <= i,
                i + 1 < count,
        ;
    }
    if i == 0 {
        assert(((count - 1) + 1) % count == 0) by (nonlinear_arith)
            requires
                count > 0,
        ;
    } else {
        assert(((i - 1) + 1) % count == i) by (nonlinear_arith)
            requires
                0 < i < count,
        ;
    }
}

/// A key pressed in the palette's search box.
#[derive(Clone, Copy, Debug, PartialEq, Eq, Structural)]
pub enum PaletteKey {
    Down,
    Up,
    Enter,
    Escape,
    Other,
}

/// Classifies a key name.
pub fn palette_key(key: &str) -> (r: PaletteKey)
    ensures
        r == (if key@ == "ArrowDown"@ {
            PaletteKey::Down
        } else if key@ == "ArrowUp"@ {
            PaletteKey::Up
        } else if key@ == "Enter"@ {
            PaletteKey::Enter
        } else if key@ == "Escape"@ {
            PaletteKey::Escape
        } else {
            PaletteKey::Other
        }),
{
    if str_eq(key, "ArrowDown") {
        PaletteKey::Down
    } else if str_eq(key, "ArrowUp") {
        PaletteKey::Up
    } else if str_eq(key, "Enter") {
        PaletteKey::Enter
    } else if str_eq(key, "Escape") {
        PaletteKey::Escape
    } else {
        PaletteKey::Other
    }
}

/// Whether a global key press opens or closes the palette: Cmd/Ctrl+K.
pub fn toggles_palette(meta_or_ctrl: bool, key: &str) -> (r: bool)
    ensures
        r == (meta_or_ctrl && key@ == "k"@),
{
    meta_or_ctrl && str_eq(key, "k")
}

/// The theme after toggling: "light" after "dark", "dark" after anything else.
pub open spec fn toggled_theme(t: Seq<char>) -> Seq<char> {
    if t == "dark"@ {
        "light"@
    } else {
        "dark"@
    }
}

/// Toggles the colour theme.
pub fn toggle_theme(t: &str) -> (r: String)
    ensures
        r@ == toggled_theme(t@),
{
    if str_eq(t, "dark") {
        string_of("light")
    } else {
        string_of("dark")
    }
}

/// Toggling the theme twice from either theme comes back to it.
pub proof fn lemma_toggle_theme_twice(t: Seq<char>)
    requires
        t == "dark"@ || t == "light"@,
    ensures
        toggled_theme(toggled_theme(t)) == t,
{
    reveal_strlit("dark");
    reveal_strlit("light");
}

/// The message shown by "Export session".
pub fn export_hint_toast() -> (r: (&'static str, ToastLevel))
    ensures
        r.0@ == "Use the export button in the top bar"@,
        r.1 == ToastLevel::Info,
{
    ("Use the export button in the top bar", ToastLevel::Info)
}

/// The message shown when loading a model fails.
pub fn load_failure_message(label: &str, error: &str) -> (r: String)
    ensures
        r@ == "Failed to load "@ + label@ + ": "@ + error@,
{
    let mut out = string_of("Failed to load ");
    push_str(&mut out, label);
    push_str(&mut out, ": ");
    push_str(&mut out, error);
    out
}

} // verus!
