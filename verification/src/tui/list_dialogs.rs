//! Small list dialogs: the prompt stash with its filter, the tag picker,
//! and the list of running tool calls to cancel.
use vstd::prelude::*;
use crate::text::{chars_of, string_pop, string_push};

verus! {

// ---------------------------------------------------------------------------
// Prompt stash
// ---------------------------------------------------------------------------

#[derive(Clone, Debug)]
pub struct StashItem {
    pub input: String,
    pub created_at: i64,
}

/// Char codes with ASCII capitals lowered, as `to_ascii_lowercase` leaves them.
pub open spec fn lower_codes(s: Seq<char>) -> Seq<u32> {
    s.map_values(|c: char| if 'A' <= c <= 'Z' { ((c as u32) + 32) as u32 } else { c as u32 })
}

/// Does `needle` occur in `hay`?
pub open spec fn contains_sub(hay: Seq<u32>, needle: Seq<u32>) -> bool {
    exists|k: int| 0 <= k && k + needle.len() <= hay.len() && #[trigger] hay.subrange(k, k + needle.len()) == needle
}

pub(crate) fn lower_codes_exec(s: &str) -> (r: Vec<u32>)
    ensures
        r@ == lower_codes(s@),
{
    let c = chars_of(s);
    let mut out: Vec<u32> = Vec::new();
    let mut i: usize = 0;
    while i < c.len()
        invariant
            0 <= i <= c@.len(),
            c@ == s@,
            out@ == lower_codes(c@).take(i as int),
        decreases c.len() - i,
    {
        let x = c[i];
        let code: u32 = if 'A' <= x && x <= 'Z' { (x as u32) + 32 } else { x as u32 };
        out.push(code);
        i = i + 1;
        assert(out@ =~= lower_codes(c@).take(i as int));
    }
    assert(lower_codes(c@).take(i as int) =~= lower_codes(c@));
    out
}

pub(crate) fn contains_sub_exec(hay: &Vec<u32>, needle: &Vec<u32>) -> (r: bool)
    ensures
        r == contains_sub(hay@, needle@),
{
    if needle.len() > hay.len() {
        return false;
    }
    let hl = hay.len();
    let mut k: usize = 0;
    while k <= hay.len() - needle.len()
        invariant
            hl == hay@.len(),
            needle@.len() <= hay@.len(),
            0 <= k <= hay@.len() - needle@.len() + 1,
            forall|j: int| 0 <= j < k ==> #[trigger] hay@.subrange(j, j + needle@.len()) != needle@,
        decreases hay.len() - needle.len() + 1 - k,
    {
        let mut m: usize = 0;
        let mut same = true;
        while m < needle.len()
            invariant
                0 <= m <= needle@.len(),
                hl == hay@.len(),
                k + needle@.len() <= hay@.len(),
                same == (forall|t: int| 0 <= t < m ==> hay@[k + t] == needle@[t]),
            decreases needle.len() - m,
        {
            if hay[k + m] != needle[m] {
                same = false;
            }
            m = m + 1;
        }
        if same {
            assert(hay@.subrange(k as int, k + needle@.len()) =~= needle@);
            return true;
        }
        proof {
            let t = choose|t: int| 0 <= t < needle@.len() && hay@[k + t] != needle@[t];
            assert(hay@.subrange(k as int, k + needle@.len())[t] != needle@[t]);
        }
        k = k + 1;
    }
    false
}

/// Indices of the entries whose text holds the query, ignoring ASCII case,
/// in order.
pub open spec fn stash_matches(entries: Seq<StashItem>, query: Seq<char>) -> Seq<usize>
    decreases entries.len(),
{
    if entries.len() == 0 {
        Seq::empty()
    } else {
        let pre = stash_matches(entries.drop_last(), query);
        if contains_sub(lower_codes(entries.last().input@), lower_codes(query)) {
            pre.push((entries.len() - 1) as usize)
        } else {
            pre
        }
    }
}

/// The stash of prompts put aside, with a filter typed over it.
pub struct PromptStashDialog {
    entries: Vec<StashItem>,
    filtered: Vec<usize>,
    query: String,
    selected: Option<usize>,
    open: bool,
}

pub struct PromptStashModel {
    pub entries: Seq<StashItem>,
    pub filtered: Seq<usize>,
    pub query: Seq<char>,
    pub selected: Option<usize>,
    pub open: bool,
}

impl View for PromptStashDialog {
    type V = PromptStashModel;

    closed spec fn view(&self) -> PromptStashModel {
        PromptStashModel {
            entries: self.entries@,
            filtered: self.filtered@,
            query: self.query@,
            selected: self.selected,
            open: self.open,
        }
    }
}

/// The stash after filtering: the matches, the first highlighted.
pub open spec fn filtered_model(m: PromptStashModel) -> PromptStashModel {
    let f = stash_matches(m.entries, m.query);
    PromptStashModel { filtered: f, selected: if f.len() == 0 { None } else { Some(0usize) }, ..m }
}

impl PromptStashDialog {
    pub fn new() -> (r: Self)
        ensures
            r@.entries.len() == 0 && r@.filtered.len() == 0 && r@.query.len() == 0,
            r@.selected == Some(0usize) && !r@.open,
    {
        PromptStashDialog {
            entries: Vec::new(),
            filtered: Vec::new(),
            query: String::new(),
            selected: Some(0),
            open: false,
        }
    }

    fn filter(&mut self)
        ensures
            final(self)@ == filtered_model(old(self)@),
    {
        let q = lower_codes_exec(self.query.as_str());
        let mut out: Vec<usize> = Vec::new();
        let mut i: usize = 0;
        while i < self.entries.len()
            invariant
                0 <= i <= self.entries@.len(),
                q@ == lower_codes(self.query@),
                self@ == old(self)@,
                out@ == stash_matches(self.entries@.take(i as int), self.query@),
            decreases self.entries.len() - i,
        {
            proof {
                assert(self.entries@.take(i + 1).drop_last() =~= self.entries@.take(i as int));
            }
            let h = lower_codes_exec(self.entries[i].input.as_str());
            if contains_sub_exec(&h, &q) {
                out.push(i);
            }
            i = i + 1;
        }
        assert(self.entries@.take(i as int) =~= self.entries@);
        self.selected = if out.len() == 0 { None } else { Some(0) };
        self.filtered = out;
    }

    pub fn set_entries(&mut self, entries: Vec<StashItem>)
        ensures
            final(self)@ == filtered_model(PromptStashModel { entries: entries@, ..old(self)@ }),
    {
        self.entries = entries;
        self.filter();
    }

    pub fn open(&mut self)
        ensures
            final(self)@ == filtered_model(PromptStashModel { open: true, query: Seq::empty(), ..old(self)@ }),
    {
        self.open = true;
        self.query = String::new();
        self.filter();
    }

    pub fn close(&mut self)
        ensures
            final(self)@ == (PromptStashModel { open: false, ..old(self)@ }),
    {
        self.open = false;
    }

    pub fn is_open(&self) -> (r: bool)
        ensures
            r == self@.open,
    {
        self.open
    }

    pub fn handle_input(&mut self, c: char)
        ensures
            final(self)@ == filtered_model(PromptStashModel { query: old(self)@.query.push(c), ..old(self)@ }),
    {
        string_push(&mut self.query, c);
        self.filter();
    }

    pub fn handle_backspace(&mut self)
        ensures
            final(self)@ == filtered_model(PromptStashModel {
                query: if old(self)@.query.len() > 0 { old(self)@.query.drop_last() } else { old(self)@.query },
                ..old(self)@
            }),
    {
        string_pop(&mut self.query);
        self.filter();
    }

    pub fn move_up(&mut self)
        ensures
            final(self)@ == (PromptStashModel {
                selected: match old(self)@.selected {
                    Some(i) => if i > 0 { Some((i - 1) as usize) } else { Some(i) },
                    None => None,
                },
                ..old(self)@
            }),
    {
        if let Some(i) = self.selected {
            if i > 0 {
                self.selected = Some(i - 1);
            }
        }
    }

    pub fn move_down(&mut self)
        ensures
            final(self)@ == (PromptStashModel {
                selected: match old(self)@.selected {
                    Some(i) => if i + 1 < old(self)@.filtered.len() { Some((i + 1) as usize) } else { Some(i) },
                    None => None,
                },
                ..old(self)@
            }),
    {
        if let Some(i) = self.selected {
            let n = self.filtered.len();
            let last = if n > 0 { n - 1 } else { 0 };
            if i < last {
                self.selected = Some(i + 1);
            }
        }
    }

    /// The entry index of the highlighted match.
    pub fn selected_index(&self) -> (r: Option<usize>)
        ensures
            r == match self@.selected {
                Some(i) => if i < self@.filtered.len() { Some(self@.filtered[i as int]) } else { None },
                None => None,
            },
    {
        match self.selected {
            Some(i) => if i < self.filtered.len() { Some(self.filtered[i]) } else { None },
            None => None,
        }
    }

    /// Drops the highlighted entry from the stash; tells which it was.
    pub fn remove_selected(&mut self) -> (r: Option<usize>)
        ensures
            match r {
                Some(index) => index < old(self)@.entries.len() && Some(index) == match old(self)@.selected {
                    Some(i) => if i < old(self)@.filtered.len() { Some(old(self)@.filtered[i as int]) } else { None },
                    None => None,
                } && final(self)@ == filtered_model(PromptStashModel {
                    entries: old(self)@.entries.remove(index as int),
                    ..old(self)@
                }),
                None => final(self)@ == old(self)@,
            },
            (match old(self)@.selected {
                Some(i) => i < old(self)@.filtered.len() && old(self)@.filtered[i as int] < old(self)@.entries.len(),
                None => false,
            }) ==> r is Some,
    {
        let index = match self.selected_index() {
            Some(i) => i,
            None => return None,
        };
        if index >= self.entries.len() {
            return None;
        }
        self.entries.remove(index);
        self.filter();
        Some(index)
    }
}

// ---------------------------------------------------------------------------
// Tag picker
// ---------------------------------------------------------------------------

#[derive(Clone, Debug)]
pub struct Tag {
    pub id: String,
    pub name: String,
    pub color: Option<String>,
}

pub open spec fn str_seq(v: Seq<String>) -> Seq<Seq<char>> {
    v.map_values(|s: String| s@)
}

/// The ids without every copy of `id`.
pub open spec fn without(v: Seq<Seq<char>>, id: Seq<char>) -> Seq<Seq<char>> {
    v.filter(|s: Seq<char>| s != id)
}

/// Tags to pick from, and the ids picked.
pub struct TagDialog {
    pub tags: Vec<Tag>,
    pub selected_tags: Vec<String>,
    pub selected: Option<usize>,
    pub open: bool,
}

fn remove_all_ids(v: &Vec<String>, id: &[char]) -> (r: Vec<String>)
    ensures
        str_seq(r@) == without(str_seq(v@), id@),
{
    let mut out: Vec<String> = Vec::new();
    let mut i: usize = 0;
    while i < v.len()
        invariant
            0 <= i <= v@.len(),
            str_seq(out@) == without(str_seq(v@.take(i as int)), id@),
        decreases v.len() - i,
    {
        proof {
            assert(str_seq(v@.take(i + 1)) =~= str_seq(v@.take(i as int)).push(v@[i as int]@));
            assert(str_seq(v@.take(i + 1)).drop_last() =~= str_seq(v@.take(i as int)));
            reveal(Seq::filter);
        }
        if !crate::text::chars_eq(&chars_of(v[i].as_str()), id) {
            let ghost before = out@;
            out.push(v[i].clone());
            assert(str_seq(out@) =~= str_seq(before).push(v@[i as int]@));
        }
        i = i + 1;
    }
    assert(v@.take(i as int) =~= v@);
    out
}

fn contains_id(v: &Vec<String>, id: &[char]) -> (r: bool)
    ensures
        r == str_seq(v@).contains(id@),
{
    let mut i: usize = 0;
    while i < v.len()
        invariant
            0 <= i <= v@.len(),
            forall|j: int| 0 <= j < i ==> v@[j]@ != id@,
        decreases v.len() - i,
    {
        if crate::text::chars_eq(&chars_of(v[i].as_str()), id) {
            assert(str_seq(v@)[i as int] == id@);
            return true;
        }
        i = i + 1;
    }
    proof {
        if str_seq(v@).contains(id@) {
            let w = choose|w: int| 0 <= w < str_seq(v@).len() && str_seq(v@)[w] == id@;
            assert(v@[w]@ == id@);
        }
    }
    false
}

impl TagDialog {
    pub fn new() -> (r: Self)
        ensures
            r.tags@.len() == 0 && r.selected_tags@.len() == 0 && r.selected is None && !r.open,
    {
        TagDialog { tags: Vec::new(), selected_tags: Vec::new(), selected: None, open: false }
    }

    pub fn open(&mut self)
        ensures
            final(self).open && final(self).selected == Some(0usize),
            final(self).tags == old(self).tags && final(self).selected_tags == old(self).selected_tags,
    {
        self.open = true;
        self.selected = Some(0);
    }

    pub fn close(&mut self)
        ensures
            !final(self).open && final(self).selected == old(self).selected,
            final(self).tags == old(self).tags && final(self).selected_tags == old(self).selected_tags,
    {
        self.open = false;
    }

    pub fn is_open(&self) -> (r: bool)
        ensures
            r == self.open,
    {
        self.open
    }

    pub fn set_tags(&mut self, tags: Vec<Tag>)
        ensures
            final(self).tags == tags && final(self).selected_tags == old(self).selected_tags,
            final(self).selected == old(self).selected && final(self).open == old(self).open,
    {
        self.tags = tags;
    }

    /// Picks the highlighted tag, or drops it when it was picked.
    pub fn toggle_selection(&mut self)
        ensures
            final(self).tags == old(self).tags && final(self).selected == old(self).selected,
            final(self).open == old(self).open,
            match old(self).selected {
                Some(i) => if i < old(self).tags@.len() {
                    let id = old(self).tags@[i as int].id@;
                    if str_seq(old(self).selected_tags@).contains(id) {
                        str_seq(final(self).selected_tags@) == without(str_seq(old(self).selected_tags@), id)
                    } else {
                        str_seq(final(self).selected_tags@) == str_seq(old(self).selected_tags@).push(id)
                    }
                } else {
                    final(self).selected_tags == old(self).selected_tags
                },
                None => final(self).selected_tags == old(self).selected_tags,
            },
    {
        let i = match self.selected {
            Some(i) => i,
            None => return,
        };
        if i >= self.tags.len() {
            return;
        }
        let id = chars_of(self.tags[i].id.as_str());
        if contains_id(&self.selected_tags, &id) {
            self.selected_tags = remove_all_ids(&self.selected_tags, &id);
        } else {
            let ghost before = self.selected_tags@;
            let tag_id = self.tags[i].id.clone();
            self.selected_tags.push(tag_id);
            assert(str_seq(self.selected_tags@) =~= str_seq(before).push(id@));
        }
    }

    pub fn move_up(&mut self)
        ensures
            final(self).selected == match old(self).selected {
                Some(i) => Some(if i > 0 { (i - 1) as usize } else { 0usize }),
                None => None,
            },
            final(self).tags == old(self).tags && final(self).selected_tags == old(self).selected_tags,
            final(self).open == old(self).open,
    {
        if let Some(i) = self.selected {
            self.selected = Some(i.saturating_sub(1));
        }
    }

    pub fn move_down(&mut self)
        ensures
            final(self).selected == match old(self).selected {
                Some(i) => Some({
                    let max = if old(self).tags@.len() > 0 { old(self).tags@.len() - 1 } else { 0 };
                    if i + 1 <= max { (i + 1) as usize } else { max as usize }
                }),
                None => None,
            },
            final(self).tags == old(self).tags && final(self).selected_tags == old(self).selected_tags,
            final(self).open == old(self).open,
    {
        if let Some(i) = self.selected {
            let n = self.tags.len();
            let max = if n > 0 { n - 1 } else { 0 };
            self.selected = Some(if i >= max { max } else { i + 1 });
        }
    }

    pub fn selected_tags(&self) -> (r: &[String])
        ensures
            r@ == self.selected_tags@,
    {
        self.selected_tags.as_slice()
    }
}

// ---------------------------------------------------------------------------
// Tool calls to cancel
// ---------------------------------------------------------------------------

#[derive(Clone, Debug)]
pub struct ToolCallItem {
    pub id: String,
    pub tool_name: String,
}

/// The running tool calls, one highlighted, the list wrapping round.
pub struct ToolCallCancelDialog {
    items: Vec<ToolCallItem>,
    selected: Option<usize>,
    open: bool,
}

pub struct ToolCallCancelModel {
    pub items: Seq<ToolCallItem>,
    pub selected: Option<usize>,
    pub open: bool,
}

impl View for ToolCallCancelDialog {
    type V = ToolCallCancelModel;

    closed spec fn view(&self) -> ToolCallCancelModel {
        ToolCallCancelModel { items: self.items@, selected: self.selected, open: self.open }
    }
}

/// The row after `i`, wrapping to the first.
pub open spec fn wrap_next(i: Option<usize>, n: nat) -> usize {
    match i {
        Some(i) => if i >= n - 1 { 0 } else { (i + 1) as usize },
        None => 0,
    }
}

/// The row before `i`, wrapping to the last.
pub open spec fn wrap_previous(i: Option<usize>, n: nat) -> usize {
    match i {
        Some(i) => if i == 0 { (n - 1) as usize } else { (i - 1) as usize },
        None => 0,
    }
}

impl ToolCallCancelDialog {
    pub fn new() -> (r: Self)
        ensures
            r@.items.len() == 0 && r@.selected == Some(0usize) && !r@.open,
    {
        ToolCallCancelDialog { items: Vec::new(), selected: Some(0), open: false }
    }

    pub fn open(&mut self, items: Vec<ToolCallItem>)
        ensures
            final(self)@ == (ToolCallCancelModel { items: items@, selected: Some(0usize), open: true }),
    {
        self.items = items;
        self.open = true;
        self.selected = Some(0);
    }

    pub fn close(&mut self)
        ensures
            final(self)@ == (ToolCallCancelModel { items: Seq::empty(), open: false, ..old(self)@ }),
    {
        self.open = false;
        self.items = Vec::new();
    }

    pub fn is_open(&self) -> (r: bool)
        ensures
            r == self@.open,
    {
        self.open
    }

    pub fn next(&mut self)
        ensures
            old(self)@.items.len() == 0 ==> final(self)@ == old(self)@,
            old(self)@.items.len() > 0 ==> final(self)@ == (ToolCallCancelModel {
                selected: Some(wrap_next(old(self)@.selected, old(self)@.items.len())),
                ..old(self)@
            }),
    {
        let n = self.items.len();
        if n == 0 {
            return;
        }
        let i = match self.selected {
            Some(i) => if i >= n - 1 { 0 } else { i + 1 },
            None => 0,
        };
        self.selected = Some(i);
    }

    pub fn previous(&mut self)
        ensures
            old(self)@.items.len() == 0 ==> final(self)@ == old(self)@,
            old(self)@.items.len() > 0 ==> final(self)@ == (ToolCallCancelModel {
                selected: Some(wrap_previous(old(self)@.selected, old(self)@.items.len())),
                ..old(self)@
            }),
    {
        let n = self.items.len();
        if n == 0 {
            return;
        }
        let i = match self.selected {
            Some(i) => if i == 0 { n - 1 } else { i - 1 },
            None => 0,
        };
        self.selected = Some(i);
    }

    /// The id of the highlighted call.
    pub fn selected(&self) -> (r: Option<String>)
        ensures
            match self@.selected {
                Some(i) => if i < self@.items.len() {
                    r == Some(self@.items[i as int].id)
                } else {
                    r is None
                },
                None => r is None,
            },
    {
        match self.selected {
            Some(i) => if i < self.items.len() { Some(self.items[i].id.clone()) } else { None },
            None => None,
        }
    }
}

/// On a row of the list, next and previous undo each other.
pub proof fn lemma_wrap_next_previous(i: usize, n: nat)
    requires
        i < n <= usize::MAX,
    ensures
        wrap_previous(Some(wrap_next(Some(i), n)), n) == i,
        wrap_next(Some(wrap_previous(Some(i), n)), n) == i,
{
}

} // verus!
