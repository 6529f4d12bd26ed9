//! What the skill list's browse screen shows: the filter, the matching
//! skills with their details and governance line, and the preview pane
//! (the hub's summary and the selected skill's source) or the timeline.
use vstd::prelude::*;
use crate::text::{chars_of, decimal, lines_of, lines_view as char_lines, push_all, split_lines, string_from_chars, u64_decimal};
use crate::tui::app_state::eq_ignore_ascii_case_spec;
use crate::tui::skill_editor::{governance_line_tone, GovernanceTone};
use crate::tui::skill_governance::{
    governance_summary_line, guarded_entry_of, latest_guard_report_for_skill, managed_record_for_skill,
    summary_holds,
};
use crate::tui::skill_hub_view::{
    hub_preview_spec, lines_view, push_blank, push_styled, styled, timeline_spec, PreviewLine, PreviewStyle,
};
use crate::tui::skill_list::{SkillBrowsePane, SkillCatalogEntry, SkillListDialog};
use crate::types::skill::{ManagedSkillRecord, SkillGovernanceTimelineEntry, SkillGuardReport, SkillGuardStatus};

verus! {

/// A skill in the list.
#[derive(Clone, Debug)]
pub struct BrowseItem {
    pub name: String,
    /// Category, description, supporting files and where it lives.
    pub detail: String,
    /// The governance summary and its emphasis, when there is one.
    pub governance: Option<(String, GovernanceTone)>,
    pub location: String,
}

#[derive(Clone, Debug)]
pub struct BrowseView {
    pub title: String,
    pub query: String,
    /// The matching skills; empty shows `No skills available`.
    pub items: Vec<BrowseItem>,
    pub pane_title: String,
    pub pane: Vec<PreviewLine>,
    pub scroll: u16,
}

/// The skill's first managed record, as the summary picks it.
pub open spec fn is_first_record(records: Seq<ManagedSkillRecord>, name: Seq<char>, o: Option<ManagedSkillRecord>) -> bool {
    match o {
        Some(x) => exists|k: int| 0 <= k < records.len() && records[k] == x
            && eq_ignore_ascii_case_spec(records[k].skill_name@, name)
            && forall|j: int| 0 <= j < k ==> !eq_ignore_ascii_case_spec(#[trigger] records[j].skill_name@, name),
        None => forall|j: int| 0 <= j < records.len() ==> !eq_ignore_ascii_case_spec(#[trigger] records[j].skill_name@, name),
    }
}

/// The skill's first guard report on the timeline.
pub open spec fn is_first_guard(timeline: Seq<SkillGovernanceTimelineEntry>, name: Seq<char>, o: Option<SkillGuardReport>) -> bool {
    match o {
        Some(x) => exists|k: int| 0 <= k < timeline.len() && guarded_entry_of(timeline[k], name)
            && timeline[k].guard_report == Some(x)
            && forall|j: int| 0 <= j < k ==> !guarded_entry_of(#[trigger] timeline[j], name),
        None => forall|j: int| 0 <= j < timeline.len() ==> !guarded_entry_of(#[trigger] timeline[j], name),
    }
}

proof fn lemma_first_record_unique(records: Seq<ManagedSkillRecord>, name: Seq<char>, a: Option<ManagedSkillRecord>, b: Option<ManagedSkillRecord>)
    requires
        is_first_record(records, name, a),
        is_first_record(records, name, b),
    ensures
        a == b,
{
    if a is Some && b is Some {
        let ka = choose|k: int| 0 <= k < records.len() && records[k] == a->0
            && eq_ignore_ascii_case_spec(records[k].skill_name@, name)
            && forall|j: int| 0 <= j < k ==> !eq_ignore_ascii_case_spec(#[trigger] records[j].skill_name@, name);
        let kb = choose|k: int| 0 <= k < records.len() && records[k] == b->0
            && eq_ignore_ascii_case_spec(records[k].skill_name@, name)
            && forall|j: int| 0 <= j < k ==> !eq_ignore_ascii_case_spec(#[trigger] records[j].skill_name@, name);
        if ka < kb {
            assert(!eq_ignore_ascii_case_spec(records[ka].skill_name@, name));
        } else if kb < ka {
            assert(!eq_ignore_ascii_case_spec(records[kb].skill_name@, name));
        }
    } else if a is Some {
        let ka = choose|k: int| 0 <= k < records.len() && records[k] == a->0
            && eq_ignore_ascii_case_spec(records[k].skill_name@, name)
            && forall|j: int| 0 <= j < k ==> !eq_ignore_ascii_case_spec(#[trigger] records[j].skill_name@, name);
        assert(!eq_ignore_ascii_case_spec(records[ka].skill_name@, name));
    } else if b is Some {
        let kb = choose|k: int| 0 <= k < records.len() && records[k] == b->0
            && eq_ignore_ascii_case_spec(records[k].skill_name@, name)
            && forall|j: int| 0 <= j < k ==> !eq_ignore_ascii_case_spec(#[trigger] records[j].skill_name@, name);
        assert(!eq_ignore_ascii_case_spec(records[kb].skill_name@, name));
    }
}

proof fn lemma_first_guard_unique(timeline: Seq<SkillGovernanceTimelineEntry>, name: Seq<char>, a: Option<SkillGuardReport>, b: Option<SkillGuardReport>)
    requires
        is_first_guard(timeline, name, a),
        is_first_guard(timeline, name, b),
    ensures
        a == b,
{
    if a is Some && b is Some {
        let ka = choose|k: int| 0 <= k < timeline.len() && guarded_entry_of(timeline[k], name)
            && timeline[k].guard_report == Some(a->0)
            && forall|j: int| 0 <= j < k ==> !guarded_entry_of(#[trigger] timeline[j], name);
        let kb = choose|k: int| 0 <= k < timeline.len() && guarded_entry_of(timeline[k], name)
            && timeline[k].guard_report == Some(b->0)
            && forall|j: int| 0 <= j < k ==> !guarded_entry_of(#[trigger] timeline[j], name);
        if ka < kb {
            assert(!guarded_entry_of(timeline[ka], name));
        } else if kb < ka {
            assert(!guarded_entry_of(timeline[kb], name));
        }
    } else if a is Some {
        let ka = choose|k: int| 0 <= k < timeline.len() && guarded_entry_of(timeline[k], name)
            && timeline[k].guard_report == Some(a->0)
            && forall|j: int| 0 <= j < k ==> !guarded_entry_of(#[trigger] timeline[j], name);
        assert(!guarded_entry_of(timeline[ka], name));
    } else if b is Some {
        let kb = choose|k: int| 0 <= k < timeline.len() && guarded_entry_of(timeline[k], name)
            && timeline[k].guard_report == Some(b->0)
            && forall|j: int| 0 <= j < k ==> !guarded_entry_of(#[trigger] timeline[j], name);
        assert(!guarded_entry_of(timeline[kb], name));
    }
}

pub open spec fn tone_of(rec: Option<ManagedSkillRecord>, rep: Option<SkillGuardReport>) -> GovernanceTone {
    if rep matches Some(g) && g.status == SkillGuardStatus::Blocked {
        GovernanceTone::Error
    } else if (rep matches Some(g) && g.status == SkillGuardStatus::Warn) || (rec matches Some(m) && (m.locally_modified
        || m.deleted_locally)) {
        GovernanceTone::Warning
    } else {
        GovernanceTone::Muted
    }
}

/// The governance line of a skill: its summary built from its first
/// managed record and first guard report, shown (with the emphasis those
/// give) when not empty.
pub open spec fn governance_ok(
    records: Seq<ManagedSkillRecord>,
    timeline: Seq<SkillGovernanceTimelineEntry>,
    name: Seq<char>,
    g: Option<(String, GovernanceTone)>,
) -> bool {
    exists|rec: Option<ManagedSkillRecord>, rep: Option<SkillGuardReport>, text: Seq<char>|
        #![trigger summary_holds(records, timeline, name, rec, rep, text)]
        is_first_record(records, name, rec) && is_first_guard(timeline, name, rep) && summary_holds(
            records,
            timeline,
            name,
            rec,
            rep,
            text,
        ) && (text.len() == 0 <==> g is None) && (g matches Some(p) ==> p.0@ == text && p.1 == tone_of(rec, rep))
}

/// `[category] description · files n · workspace` (or `· read-only`), the
/// parts that apply.
pub open spec fn item_detail(s: SkillCatalogEntry) -> Seq<char> {
    let cat = match s.category {
        Some(c) => if c@.len() > 0 { "["@ + c@ + "] "@ } else { Seq::empty() },
        None => Seq::empty(),
    };
    let files = if s.supporting_files@.len() > 0 {
        " \u{b7} files "@ + decimal(s.supporting_files@.len())
    } else {
        Seq::empty()
    };
    cat + s.description@ + files + if s.writable { " \u{b7} workspace"@ } else { " \u{b7} read-only"@ }
}

pub open spec fn item_ok(d: SkillListDialog, it: BrowseItem, s: SkillCatalogEntry) -> bool {
    &&& it.name@ == s.name@
    &&& it.detail@ == item_detail(s)
    &&& it.location@ == s.location@
    &&& governance_ok(d.managed_skills@, d.governance_timeline@, s.name@, it.governance)
}

/// The skills that the filter keeps, those positions that exist, in order.
pub open spec fn listed(filtered: Seq<usize>, skills: Seq<SkillCatalogEntry>) -> Seq<SkillCatalogEntry>
    decreases filtered.len(),
{
    if filtered.len() == 0 {
        Seq::empty()
    } else {
        let pre = listed(filtered.drop_last(), skills);
        if filtered.last() < skills.len() { pre.push(skills[filtered.last() as int]) } else { pre }
    }
}

/// The preview pane: the hub's summary, then the loaded skill (its name,
/// description, facts, location, a blank line and its source's lines), or
/// the error of loading it, or a prompt to select one.
pub open spec fn preview_pane_spec(d: SkillListDialog) -> Seq<Seq<(Seq<char>, PreviewStyle)>> {
    hub_preview_spec(d) + match d.detail {
        Some(det) => seq![
            styled(det.skill.meta.name@, PreviewStyle::Title),
            styled(det.skill.meta.description@, PreviewStyle::Muted),
            styled(
                match det.skill.meta.category {
                    Some(c) => c@,
                    None => "uncategorized"@,
                } + " \u{b7} "@ + decimal(det.skill.meta.supporting_files@.len()) + " supporting files \u{b7} "@
                    + if det.writable { "workspace writable"@ } else { "read-only"@ },
                PreviewStyle::Muted,
            ),
            styled(det.skill.meta.location@, PreviewStyle::Muted),
            Seq::empty(),
        ] + lines_of(det.source@).map_values(|l: Seq<char>| styled(l, PreviewStyle::Text)),
        None => match d.detail_error {
            Some(m) => seq![styled(m@, PreviewStyle::Error)],
            None => seq![styled("Select a skill to load its raw SKILL.md preview."@, PreviewStyle::Muted)],
        },
    }
}

fn governance_of(d: &SkillListDialog, name: &str) -> (r: Option<(String, GovernanceTone)>)
    ensures
        governance_ok(d.managed_skills@, d.governance_timeline@, name@, r),
{
    let rec = managed_record_for_skill(&d.managed_skills, name);
    let rep = latest_guard_report_for_skill(&d.governance_timeline, name);
    let tone = governance_line_tone(rec, rep);
    let text = governance_summary_line(&d.managed_skills, &d.governance_timeline, name);
    let ghost orec = match rec {
        Some(x) => Some(*x),
        None => None,
    };
    let ghost orep = match rep {
        Some(x) => Some(*x),
        None => None,
    };
    proof {
        let (rec2, rep2) = choose|rec2: Option<ManagedSkillRecord>, rep2: Option<SkillGuardReport>| summary_holds(
            d.managed_skills@,
            d.governance_timeline@,
            name@,
            rec2,
            rep2,
            text@,
        );
        assert(is_first_record(d.managed_skills@, name@, rec2));
        assert(is_first_guard(d.governance_timeline@, name@, rep2));
        lemma_first_record_unique(d.managed_skills@, name@, orec, rec2);
        lemma_first_guard_unique(d.governance_timeline@, name@, orep, rep2);
        assert(summary_holds(d.managed_skills@, d.governance_timeline@, name@, orec, orep, text@));
    }
    let r = if chars_of(text.as_str()).len() == 0 { None } else { Some((text, tone)) };
    proof {
        assert(tone == tone_of(orec, orep));
        assert(summary_holds(d.managed_skills@, d.governance_timeline@, name@, orec, orep, text@));
    }
    r
}

fn item_of(d: &SkillListDialog, s: &SkillCatalogEntry) -> (r: BrowseItem)
    ensures
        item_ok(*d, r, *s),
{
    let mut detail: Vec<char> = Vec::new();
    match &s.category {
        Some(c) => {
            let cc = chars_of(c.as_str());
            if cc.len() > 0 {
                push_all(&mut detail, &chars_of("["));
                push_all(&mut detail, &cc);
                push_all(&mut detail, &chars_of("] "));
            }
        },
        None => {},
    }
    push_all(&mut detail, &chars_of(s.description.as_str()));
    if s.supporting_files.len() > 0 {
        push_all(&mut detail, &chars_of(" \u{b7} files "));
        push_all(&mut detail, &u64_decimal(s.supporting_files.len() as u64));
    }
    if s.writable {
        push_all(&mut detail, &chars_of(" \u{b7} workspace"));
    } else {
        push_all(&mut detail, &chars_of(" \u{b7} read-only"));
    }
    assert(detail@ =~= item_detail(*s));
    BrowseItem {
        name: s.name.clone(),
        detail: string_from_chars(&detail),
        governance: governance_of(d, s.name.as_str()),
        location: s.location.clone(),
    }
}

impl SkillListDialog {
    fn preview_pane(&self) -> (r: Vec<PreviewLine>)
        ensures
            lines_view(r@) == preview_pane_spec(*self),
    {
        let mut out = self.hub_preview_lines();
        let ghost base = lines_view(out@);
        match &self.detail {
            Some(det) => {
                let meta = &det.skill.meta;
                push_styled(&mut out, &chars_of(meta.name.as_str()), PreviewStyle::Title);
                push_styled(&mut out, &chars_of(meta.description.as_str()), PreviewStyle::Muted);
                let mut facts = match &meta.category {
                    Some(c) => chars_of(c.as_str()),
                    None => chars_of("uncategorized"),
                };
                push_all(&mut facts, &chars_of(" \u{b7} "));
                push_all(&mut facts, &u64_decimal(meta.supporting_files.len() as u64));
                push_all(&mut facts, &chars_of(" supporting files \u{b7} "));
                push_all(&mut facts, &chars_of(if det.writable { "workspace writable" } else { "read-only" }));
                push_styled(&mut out, &facts, PreviewStyle::Muted);
                push_styled(&mut out, &chars_of(meta.location.as_str()), PreviewStyle::Muted);
                push_blank(&mut out);
                let ghost mid = lines_view(out@);
                let src = split_lines(&chars_of(det.source.as_str()));
                let ghost ls = lines_of(det.source@);
                assert(char_lines(src@) == ls);
                let mut i: usize = 0;
                while i < src.len()
                    invariant
                        0 <= i <= src@.len(),
                        char_lines(src@) == ls,
                        lines_view(out@) == mid + ls.take(i as int).map_values(|l: Seq<char>| styled(l, PreviewStyle::Text)),
                    decreases src.len() - i,
                {
                    assert(src@[i as int]@ == ls[i as int]);
                    push_styled(&mut out, &src[i], PreviewStyle::Text);
                    assert(ls.take(i + 1).map_values(|l: Seq<char>| styled(l, PreviewStyle::Text)) =~= ls.take(
                        i as int,
                    ).map_values(|l: Seq<char>| styled(l, PreviewStyle::Text)).push(styled(ls[i as int], PreviewStyle::Text)));
                    i = i + 1;
                }
                assert(ls.take(src@.len() as int) =~= ls);
                proof {
                    reveal_strlit("workspace writable");
                    reveal_strlit("read-only");
                }
            },
            None => match &self.detail_error {
                Some(m) => push_styled(&mut out, &chars_of(m.as_str()), PreviewStyle::Error),
                None => push_styled(
                    &mut out,
                    &chars_of("Select a skill to load its raw SKILL.md preview."),
                    PreviewStyle::Muted,
                ),
            },
        }
        assert(lines_view(out@) =~= preview_pane_spec(*self));
        out
    }

    /// The browse screen.
    pub fn browse_view(&self) -> (r: BrowseView)
        ensures
            r.title@ == " Skills ("@ + decimal(self.filtered@.len()) + "/"@ + decimal(self.skills@.len()) + ") "@,
            r.query == self.query,
            r.items@.len() == listed(self.filtered@, self.skills@).len(),
            forall|k: int| 0 <= k < r.items@.len() ==> item_ok(*self, #[trigger] r.items@[k], listed(self.filtered@, self.skills@)[k]),
            r.pane_title@ == match self.browse_pane {
                SkillBrowsePane::Preview => " Preview "@,
                SkillBrowsePane::Timeline => " Governance Timeline "@,
            },
            lines_view(r.pane@) == match self.browse_pane {
                SkillBrowsePane::Preview => preview_pane_spec(*self),
                SkillBrowsePane::Timeline => timeline_spec(*self),
            },
            r.scroll == self.detail_scroll,
    {
        let mut title = chars_of(" Skills (");
        push_all(&mut title, &u64_decimal(self.filtered.len() as u64));
        push_all(&mut title, &chars_of("/"));
        push_all(&mut title, &u64_decimal(self.skills.len() as u64));
        push_all(&mut title, &chars_of(") "));
        let mut items: Vec<BrowseItem> = Vec::new();
        let mut i: usize = 0;
        while i < self.filtered.len()
            invariant
                0 <= i <= self.filtered@.len(),
                items@.len() == listed(self.filtered@.take(i as int), self.skills@).len(),
                forall|k: int| 0 <= k < items@.len() ==> item_ok(*self, #[trigger] items@[k], listed(self.filtered@.take(i as int), self.skills@)[k]),
            decreases self.filtered.len() - i,
        {
            let idx = self.filtered[i];
            assert(self.filtered@.take(i + 1).drop_last() =~= self.filtered@.take(i as int));
            if idx < self.skills.len() {
                let it = item_of(self, &self.skills[idx]);
                items.push(it);
            }
            i = i + 1;
        }
        assert(self.filtered@.take(self.filtered@.len() as int) =~= self.filtered@);
        let pane_title = match self.browse_pane {
            SkillBrowsePane::Preview => " Preview ",
            SkillBrowsePane::Timeline => " Governance Timeline ",
        };
        let pane = match self.browse_pane {
            SkillBrowsePane::Preview => self.preview_pane(),
            SkillBrowsePane::Timeline => self.timeline_lines(),
        };
        BrowseView {
            title: string_from_chars(&title),
            query: self.query.clone(),
            items,
            pane_title: string_from_chars(&chars_of(pane_title)),
            pane,
            scroll: self.detail_scroll,
        }
    }
}

} // verus!
