//! The command palette and the slash-command popup: lists of commands
//! narrowed by a typed query and ranked by how well each command matches it.
use vstd::prelude::*;
use crate::text::{string_pop, string_push};
use crate::tui::app_state::{visibility_title, visibility_title_spec, PaletteToggle, VisibilityLabels};

verus! {

/// Whether `a` ranks before `b`: a higher score first, the earlier command
/// first among equal scores.
pub open spec fn ranks_before(scores: Seq<Option<i32>>, a: usize, b: usize) -> bool {
    let sa = scores[a as int]->0;
    let sb = scores[b as int]->0;
    sa > sb || (sa == sb && a < b)
}

/// `f` lists exactly the commands that matched (those with a score), best
/// score first, ties in the commands' order.
pub open spec fn ranked(scores: Seq<Option<i32>>, f: Seq<usize>) -> bool {
    &&& forall|k: int| 0 <= k < f.len() ==> #[trigger] f[k] < scores.len() && scores[f[k] as int] is Some
    &&& forall|j: int, k: int| 0 <= j < k < f.len() ==> ranks_before(scores, #[trigger] f[j], #[trigger] f[k])
    &&& forall|i: int| 0 <= i < scores.len() && (#[trigger] scores[i]) is Some ==> f.contains(i as usize)
}

/// Whether the command at `idx` scored at least `s` (or not at all).
fn scores_at_least(scores: &Vec<Option<i32>>, idx: usize, s: i32) -> (r: bool)
    requires
        idx < scores@.len(),
    ensures
        r == (scores@[idx as int] is None || scores@[idx as int]->0 >= s),
{
    match scores[idx] {
        Some(t) => t >= s,
        None => true,
    }
}

/// The commands that matched, ranked.
pub fn rank_matches(scores: &Vec<Option<i32>>) -> (r: Vec<usize>)
    ensures
        ranked(scores@, r@),
{
    let mut out: Vec<usize> = Vec::new();
    let mut i: usize = 0;
    while i < scores.len()
        invariant
            0 <= i <= scores@.len(),
            forall|k: int| 0 <= k < out@.len() ==> #[trigger] out@[k] < i && scores@[out@[k] as int] is Some,
            forall|j: int, k: int| 0 <= j < k < out@.len() ==> ranks_before(scores@, #[trigger] out@[j], #[trigger] out@[k]),
            forall|m: int| 0 <= m < i && (#[trigger] scores@[m]) is Some ==> out@.contains(m as usize),
        decreases scores.len() - i,
    {
        match scores[i] {
            Some(s) => {
                let mut p: usize = 0;
                while p < out.len() && scores_at_least(scores, out[p], s)
                    invariant
                        0 <= p <= out@.len(),
                        i < scores@.len(),
                        forall|k: int| 0 <= k < out@.len() ==> #[trigger] out@[k] < i && scores@[out@[k] as int] is Some,
                        forall|k: int| 0 <= k < p ==> scores@[#[trigger] out@[k] as int]->0 >= s,
                    decreases out.len() - p,
                {
                    p = p + 1;
                }
                let ghost old_out = out@;
                proof {
                    assert forall|k: int| p <= k < old_out.len() implies scores@[#[trigger] old_out[k] as int]->0 < s by {
                        if k > p {
                            assert(ranks_before(scores@, old_out[p as int], old_out[k]));
                        }
                    }
                }
                out.insert(p, i);
                proof {
                    assert(out@ == old_out.insert(p as int, i));
                    assert forall|j: int, k: int| 0 <= j < k < out@.len() implies ranks_before(scores@, #[trigger] out@[j], #[trigger] out@[k]) by {
                        if j < p && k < p {
                            assert(ranks_before(scores@, old_out[j], old_out[k]));
                        } else if j < p && k == p {
                            assert(scores@[old_out[j] as int]->0 >= s);
                        } else if j < p && k > p {
                            assert(ranks_before(scores@, old_out[j], old_out[k - 1]));
                        } else if j == p {
                            assert(scores@[old_out[k - 1] as int]->0 < s);
                        } else {
                            assert(ranks_before(scores@, old_out[j - 1], old_out[k - 1]));
                        }
                    }
                    assert forall|m: int| 0 <= m < i + 1 && (#[trigger] scores@[m]) is Some implies out@.contains(m as usize) by {
                        if m < i {
                            let w = choose|w: int| 0 <= w < old_out.len() && old_out[w] == m as usize;
                            if w < p {
                                assert(out@[w] == m as usize);
                            } else {
                                assert(out@[w + 1] == m as usize);
                            }
                        } else {
                            assert(out@[p as int] == i);
                        }
                    }
                }
            },
            None => {},
        }
        i = i + 1;
    }
    out
}

/// The first ranked command scored at least as well as every command that
/// matched.
pub proof fn lemma_first_ranked_is_best(scores: Seq<Option<i32>>, f: Seq<usize>)
    requires
        scores.len() <= usize::MAX,
        ranked(scores, f),
        f.len() > 0,
    ensures
        forall|i: int| 0 <= i < scores.len() && (#[trigger] scores[i]) is Some ==> scores[f[0] as int]->0 >= scores[i]->0,
{
    assert forall|i: int| 0 <= i < scores.len() && (#[trigger] scores[i]) is Some implies scores[f[0] as int]->0 >= scores[i]->0 by {
        assert(f.contains(i as usize));
        let w = choose|w: int| 0 <= w < f.len() && f[w] == i as usize;
        if w > 0 {
            assert(ranks_before(scores, f[0], f[w]));
        }
    }
}

/// Right after opening, the first command is the selected one (none when
/// the palette has no commands).
pub proof fn lemma_opened_palette_selects_first(p: CommandPalette)
    requires
        p.filtered@ == all_indices(p.commands@.len()),
        p.selected == Some(0usize),
    ensures
        p.commands@.len() > 0 ==> p.selected_index() == Some(0usize),
        p.commands@.len() == 0 ==> p.selected_index() is None,
{
}

/// What a palette command does: a display toggle, whose title follows a
/// preference, or another action, named by its number in the command
/// registry.
#[derive(Clone, Copy, Debug, PartialEq, Eq, Structural)]
pub enum PaletteAction {
    Toggle(PaletteToggle),
    Other(u32),
}

pub struct Command {
    pub action_id: PaletteAction,
    pub title: String,
    pub keybind: Option<String>,
    pub category: String,
}

/// The palette: its commands, the indices of those shown (ranked), the
/// query, the selected row and whether it is open.
pub struct CommandPalette {
    pub commands: Vec<Command>,
    pub filtered: Vec<usize>,
    pub query: String,
    pub selected: Option<usize>,
    pub open: bool,
}

/// Every command, in order.
pub open spec fn all_indices(n: nat) -> Seq<usize> {
    Seq::new(n, |i: int| i as usize)
}

fn all_rows(n: usize) -> (r: Vec<usize>)
    ensures
        r@ == all_indices(n as nat),
{
    let mut v: Vec<usize> = Vec::new();
    let mut i: usize = 0;
    while i < n
        invariant
            i <= n,
            v@ == all_indices(i as nat),
        decreases n - i,
    {
        v.push(i);
        i = i + 1;
        assert(v@ =~= all_indices(i as nat));
    }
    v
}

/// The rows after filtering: every command for an empty query, else the
/// matches ranked; the first row selected when there is one.
pub open spec fn filtered_for(query: Seq<char>, n: nat, scores: Seq<Option<i32>>, f: Seq<usize>, sel: Option<usize>) -> bool {
    &&& if query.len() == 0 { f == all_indices(n) } else { ranked(scores, f) }
    &&& sel == if f.len() == 0 { None::<usize> } else { Some(0usize) }
}

pub open spec fn titles(cs: Seq<Command>) -> Seq<Seq<char>> {
    cs.map_values(|c: Command| c.title@)
}

pub open spec fn actions(cs: Seq<Command>) -> Seq<PaletteAction> {
    cs.map_values(|c: Command| c.action_id)
}

impl CommandPalette {
    /// A closed palette over the commands, all shown, the first selected.
    pub fn new(commands: Vec<Command>) -> (r: Self)
        ensures
            r.commands@ == commands@,
            r.filtered@ == all_indices(commands@.len()),
            r.query@.len() == 0,
            r.selected == Some(0usize),
            !r.open,
    {
        let filtered = all_rows(commands.len());
        CommandPalette { commands, filtered, query: String::new(), selected: Some(0), open: false }
    }

    /// Opens with an empty query, every command shown, the first selected.
    pub fn open(&mut self)
        ensures
            final(self).commands@ == old(self).commands@,
            final(self).filtered@ == all_indices(old(self).commands@.len()),
            final(self).query@.len() == 0,
            final(self).selected == Some(0usize),
            final(self).open,
    {
        self.open = true;
        self.query = String::new();
        self.filtered = all_rows(self.commands.len());
        self.selected = Some(0);
    }

    pub fn close(&mut self)
        ensures
            *final(self) == (CommandPalette { open: false, ..*old(self) }),
    {
        self.open = false;
    }

    pub fn is_open(&self) -> (r: bool)
        ensures
            r == self.open,
    {
        self.open
    }

    /// Re-filters for the current query; `scores[i]` is how well the query
    /// matches command `i` (the better of its title and its category), none
    /// when it does not match.
    pub fn filter_commands(&mut self, scores: &Vec<Option<i32>>)
        requires
            scores@.len() == old(self).commands@.len(),
        ensures
            final(self).commands@ == old(self).commands@,
            final(self).query@ == old(self).query@,
            final(self).open == old(self).open,
            filtered_for(old(self).query@, old(self).commands@.len(), scores@, final(self).filtered@, final(self).selected),
    {
        if self.query.unicode_len() == 0 {
            self.filtered = all_rows(self.commands.len());
        } else {
            self.filtered = rank_matches(scores);
        }
        if self.filtered.len() == 0 {
            self.selected = None;
        } else {
            self.selected = Some(0);
        }
    }

    /// Types a char; `scores` are those of the query with the char added.
    pub fn handle_input(&mut self, c: char, scores: &Vec<Option<i32>>)
        requires
            scores@.len() == old(self).commands@.len(),
        ensures
            final(self).query@ == old(self).query@.push(c),
            final(self).commands@ == old(self).commands@,
            final(self).open == old(self).open,
            filtered_for(final(self).query@, old(self).commands@.len(), scores@, final(self).filtered@, final(self).selected),
    {
        string_push(&mut self.query, c);
        self.filter_commands(scores);
    }

    /// Deletes the last char of the query, if any; `scores` are those of the
    /// shortened query.
    pub fn handle_backspace(&mut self, scores: &Vec<Option<i32>>)
        requires
            scores@.len() == old(self).commands@.len(),
        ensures
            final(self).query@ == (if old(self).query@.len() == 0 { old(self).query@ } else { old(self).query@.drop_last() }),
            final(self).commands@ == old(self).commands@,
            final(self).open == old(self).open,
            filtered_for(final(self).query@, old(self).commands@.len(), scores@, final(self).filtered@, final(self).selected),
    {
        let _ = string_pop(&mut self.query);
        self.filter_commands(scores);
    }

    /// Moves the selection one row up, stopping at the top.
    pub fn move_up(&mut self)
        ensures
            final(self).selected == match old(self).selected {
                Some(s) => if s > 0 { Some((s - 1) as usize) } else { Some(s) },
                None => None,
            },
            final(self).commands@ == old(self).commands@,
            final(self).filtered@ == old(self).filtered@,
            final(self).query@ == old(self).query@,
            final(self).open == old(self).open,
    {
        if let Some(s) = self.selected {
            if s > 0 {
                self.selected = Some(s - 1);
            }
        }
    }

    /// Moves the selection one row down, stopping at the last row.
    pub fn move_down(&mut self)
        ensures
            final(self).selected == match old(self).selected {
                Some(s) => if s + 1 < old(self).filtered@.len() { Some((s + 1) as usize) } else { Some(s) },
                None => None,
            },
            final(self).commands@ == old(self).commands@,
            final(self).filtered@ == old(self).filtered@,
            final(self).query@ == old(self).query@,
            final(self).open == old(self).open,
    {
        if let Some(s) = self.selected {
            let last = if self.filtered.len() > 0 { self.filtered.len() - 1 } else { 0 };
            if s < last {
                self.selected = Some(s + 1);
            }
        }
    }

    /// The index of the selected command, when the selected row holds one.
    pub open spec fn selected_index(self) -> Option<usize> {
        match self.selected {
            Some(s) => if s < self.filtered@.len() && self.filtered@[s as int] < self.commands@.len() {
                Some(self.filtered@[s as int])
            } else {
                None
            },
            None => None,
        }
    }

    pub fn selected_command(&self) -> (r: Option<&Command>)
        ensures
            match self.selected_index() {
                Some(i) => r == Some(&self.commands@[i as int]),
                None => r is None,
            },
    {
        match self.selected {
            Some(s) => if s < self.filtered.len() && self.filtered[s] < self.commands.len() {
                Some(&self.commands[self.filtered[s]])
            } else {
                None
            },
            None => None,
        }
    }

    pub fn selected_action(&self) -> (r: Option<PaletteAction>)
        ensures
            match self.selected_index() {
                Some(i) => r == Some(self.commands@[i as int].action_id),
                None => r is None,
            },
    {
        match self.selected_command() {
            Some(c) => Some(c.action_id),
            None => None,
        }
    }

    /// Retitles the display toggles after the preferences, then re-filters;
    /// `scores` are those of the query against the new titles.
    pub fn sync_visibility_labels(&mut self, labels: VisibilityLabels, scores: &Vec<Option<i32>>)
        requires
            scores@.len() == old(self).commands@.len(),
        ensures
            final(self).commands@.len() == old(self).commands@.len(),
            actions(final(self).commands@) == actions(old(self).commands@),
            forall|i: int| 0 <= i < old(self).commands@.len() ==> (#[trigger] final(self).commands@[i]).title@ == match old(self).commands@[i].action_id {
                PaletteAction::Toggle(t) => visibility_title_spec(t, labels),
                PaletteAction::Other(_) => old(self).commands@[i].title@,
            },
            forall|i: int| 0 <= i < old(self).commands@.len() ==> (#[trigger] final(self).commands@[i]).keybind == old(self).commands@[i].keybind
                && final(self).commands@[i].category == old(self).commands@[i].category,
            final(self).query@ == old(self).query@,
            final(self).open == old(self).open,
            filtered_for(old(self).query@, old(self).commands@.len(), scores@, final(self).filtered@, final(self).selected),
    {
        let n = self.commands.len();
        let mut i: usize = 0;
        while i < n
            invariant
                n == old(self).commands@.len(),
                self.commands@.len() == n,
                0 <= i <= n,
                self.query@ == old(self).query@,
                self.open == old(self).open,
                forall|k: int| 0 <= k < n ==> (#[trigger] self.commands@[k]).action_id == old(self).commands@[k].action_id
                    && self.commands@[k].keybind == old(self).commands@[k].keybind
                    && self.commands@[k].category == old(self).commands@[k].category,
                forall|k: int| i <= k < n ==> (#[trigger] self.commands@[k]).title == old(self).commands@[k].title,
                forall|k: int| 0 <= k < i ==> (#[trigger] self.commands@[k]).title@ == match old(self).commands@[k].action_id {
                    PaletteAction::Toggle(t) => visibility_title_spec(t, labels),
                    PaletteAction::Other(_) => old(self).commands@[k].title@,
                },
            decreases n - i,
        {
            match self.commands[i].action_id {
                PaletteAction::Toggle(t) => {
                    let title = visibility_title(t, &labels);
                    self.commands[i].title = title.to_string();
                },
                PaletteAction::Other(_) => {},
            }
            i = i + 1;
        }
        proof {
            assert(actions(self.commands@) =~= actions(old(self).commands@));
        }
        self.filter_commands(scores);
    }
}

// ---------------------------------------------------------------------------
// The slash-command popup
// ---------------------------------------------------------------------------

/// The popup under a `/` in the prompt: the suggested commands for an empty
/// query, else every slash command that matches, ranked.
pub struct SlashCommandPopup {
    /// The actions suggested before anything is typed.
    pub suggested: Vec<PaletteAction>,
    /// The actions of every slash command, in the registry's order.
    pub all: Vec<PaletteAction>,
    pub query: String,
    pub filtered: Vec<PaletteAction>,
    pub selected: Option<usize>,
    pub open: bool,
    pub selected_action: Option<PaletteAction>,
}

/// The actions at the ranked indices.
pub open spec fn actions_at(all: Seq<PaletteAction>, idx: Seq<usize>) -> Seq<PaletteAction> {
    idx.map_values(|i: usize| all[i as int])
}

/// The popup's rows for a query: the suggestions when it is empty, else the
/// actions of the matches, ranked.
pub open spec fn slash_rows(query: Seq<char>, suggested: Seq<PaletteAction>, all: Seq<PaletteAction>, scores: Seq<Option<i32>>, rows: Seq<PaletteAction>) -> bool {
    if query.len() == 0 {
        rows == suggested
    } else {
        exists|idx: Seq<usize>| ranked(scores, idx) && rows == actions_at(all, idx)
    }
}

fn pick_actions(all: &Vec<PaletteAction>, idx: &Vec<usize>) -> (r: Vec<PaletteAction>)
    requires
        forall|k: int| 0 <= k < idx@.len() ==> #[trigger] idx@[k] < all@.len(),
    ensures
        r@ == actions_at(all@, idx@),
{
    let mut out: Vec<PaletteAction> = Vec::new();
    let mut k: usize = 0;
    while k < idx.len()
        invariant
            0 <= k <= idx@.len(),
            forall|j: int| 0 <= j < idx@.len() ==> #[trigger] idx@[j] < all@.len(),
            out@ == actions_at(all@, idx@.take(k as int)),
        decreases idx.len() - k,
    {
        out.push(all[idx[k]]);
        k = k + 1;
        assert(out@ =~= actions_at(all@, idx@.take(k as int)));
    }
    assert(idx@.take(idx@.len() as int) =~= idx@);
    out
}

fn copy_actions(v: &Vec<PaletteAction>) -> (r: Vec<PaletteAction>)
    ensures
        r@ == v@,
{
    let mut out: Vec<PaletteAction> = Vec::new();
    let mut k: usize = 0;
    while k < v.len()
        invariant
            0 <= k <= v@.len(),
            out@ == v@.take(k as int),
        decreases v.len() - k,
    {
        out.push(v[k]);
        k = k + 1;
        assert(out@ =~= v@.take(k as int));
    }
    assert(v@.take(v@.len() as int) =~= v@);
    out
}

impl SlashCommandPopup {
    /// A closed popup over the registry's slash commands.
    pub fn new(suggested: Vec<PaletteAction>, all: Vec<PaletteAction>) -> (r: Self)
        ensures
            r.suggested@ == suggested@,
            r.all@ == all@,
            r.query@.len() == 0,
            r.filtered@.len() == 0,
            r.selected is None,
            !r.open,
            r.selected_action is None,
    {
        SlashCommandPopup {
            suggested,
            all,
            query: String::new(),
            filtered: Vec::new(),
            selected: None,
            open: false,
            selected_action: None,
        }
    }

    /// Re-filters for the current query, selecting the first row;
    /// `scores[i]` is how well the query matches slash command `i` (its
    /// name, an alias or its title, the best of them), none when none does.
    pub fn refresh_filter(&mut self, scores: &Vec<Option<i32>>)
        requires
            scores@.len() == old(self).all@.len(),
        ensures
            slash_rows(old(self).query@, old(self).suggested@, old(self).all@, scores@, final(self).filtered@),
            final(self).selected == Some(0usize),
            final(self).suggested@ == old(self).suggested@,
            final(self).all@ == old(self).all@,
            final(self).query@ == old(self).query@,
            final(self).open == old(self).open,
            final(self).selected_action == old(self).selected_action,
    {
        if self.query.unicode_len() == 0 {
            self.filtered = copy_actions(&self.suggested);
        } else {
            let idx = rank_matches(scores);
            self.filtered = pick_actions(&self.all, &idx);
            assert(ranked(scores@, idx@) && self.filtered@ == actions_at(self.all@, idx@));
        }
        self.selected = Some(0);
    }

    /// Opens with an empty query and the suggestions, nothing chosen yet.
    pub fn open(&mut self)
        ensures
            final(self).query@.len() == 0,
            final(self).filtered@ == old(self).suggested@,
            final(self).selected == Some(0usize),
            final(self).open,
            final(self).selected_action is None,
            final(self).suggested@ == old(self).suggested@,
            final(self).all@ == old(self).all@,
    {
        self.query = String::new();
        self.filtered = copy_actions(&self.suggested);
        self.selected = Some(0);
        self.open = true;
        self.selected_action = None;
    }

    /// Closes, dropping the query and the rows.
    pub fn close(&mut self)
        ensures
            !final(self).open,
            final(self).query@.len() == 0,
            final(self).filtered@.len() == 0,
            final(self).selected == old(self).selected,
            final(self).selected_action == old(self).selected_action,
            final(self).suggested@ == old(self).suggested@,
            final(self).all@ == old(self).all@,
    {
        self.open = false;
        self.query = String::new();
        self.filtered = Vec::new();
    }

    pub fn is_open(&self) -> (r: bool)
        ensures
            r == self.open,
    {
        self.open
    }

    /// The chosen action, handed out once.
    pub fn take_action(&mut self) -> (r: Option<PaletteAction>)
        ensures
            r == old(self).selected_action,
            final(self).selected_action is None,
            final(self).query@ == old(self).query@,
            final(self).filtered@ == old(self).filtered@,
            final(self).selected == old(self).selected,
            final(self).open == old(self).open,
    {
        let r = self.selected_action;
        self.selected_action = None;
        r
    }

    pub fn query(&self) -> (r: &str)
        ensures
            r@ == self.query@,
    {
        self.query.as_str()
    }

    /// Types a char; `scores` are those of the query with the char added.
    pub fn handle_input(&mut self, c: char, scores: &Vec<Option<i32>>)
        requires
            scores@.len() == old(self).all@.len(),
        ensures
            final(self).query@ == old(self).query@.push(c),
            slash_rows(final(self).query@, old(self).suggested@, old(self).all@, scores@, final(self).filtered@),
            final(self).selected == Some(0usize),
            final(self).open == old(self).open,
    {
        string_push(&mut self.query, c);
        self.refresh_filter(scores);
    }

    /// Deletes the last char of the query and re-filters; false (and
    /// nothing changed) when the query was already empty. `scores` are those
    /// of the shortened query.
    pub fn handle_backspace(&mut self, scores: &Vec<Option<i32>>) -> (r: bool)
        requires
            scores@.len() == old(self).all@.len(),
        ensures
            r == (old(self).query@.len() > 0),
            !r ==> final(self).query@ == old(self).query@ && final(self).filtered@ == old(self).filtered@
                && final(self).selected == old(self).selected,
            r ==> final(self).query@ == old(self).query@.drop_last()
                && slash_rows(final(self).query@, old(self).suggested@, old(self).all@, scores@, final(self).filtered@)
                && final(self).selected == Some(0usize),
            final(self).open == old(self).open,
    {
        match string_pop(&mut self.query) {
            Some(_) => {
                self.refresh_filter(scores);
                true
            },
            None => false,
        }
    }

    /// One row up, stopping at the top.
    pub fn move_up(&mut self)
        ensures
            final(self).selected == match old(self).selected {
                Some(s) => Some(if s > 0 { (s - 1) as usize } else { 0usize }),
                None => None,
            },
            final(self).filtered@ == old(self).filtered@,
    {
        if let Some(s) = self.selected {
            self.selected = Some(if s > 0 { s - 1 } else { 0 });
        }
    }

    /// One row down, stopping at the last row (row 0 when there is none).
    pub fn move_down(&mut self)
        ensures
            final(self).selected == match old(self).selected {
                Some(s) => Some(
                    if s + 1 <= old(self).filtered@.len() - 1 { (s + 1) as usize }
                    else if old(self).filtered@.len() == 0 { 0usize }
                    else { (old(self).filtered@.len() - 1) as usize },
                ),
                None => None,
            },
            final(self).filtered@ == old(self).filtered@,
    {
        if let Some(s) = self.selected {
            let last = if self.filtered.len() > 0 { self.filtered.len() - 1 } else { 0 };
            let next = if s < last { s + 1 } else { last };
            self.selected = Some(next);
        }
    }

    /// Chooses the selected row's action and closes; nothing happens when
    /// no row is selected.
    pub fn select_current(&mut self)
        ensures
            match old(self).selected {
                Some(s) => if s < old(self).filtered@.len() {
                    final(self).selected_action == Some(old(self).filtered@[s as int]) && !final(self).open
                        && final(self).query@.len() == 0 && final(self).filtered@.len() == 0
                } else {
                    final(self).selected_action == old(self).selected_action && final(self).open == old(self).open
                        && final(self).filtered@ == old(self).filtered@
                },
                None => final(self).selected_action == old(self).selected_action && final(self).open == old(self).open
                    && final(self).filtered@ == old(self).filtered@,
            },
    {
        if let Some(s) = self.selected {
            if s < self.filtered.len() {
                self.selected_action = Some(self.filtered[s]);
                self.close();
            }
        }
    }
}

} // verus!
