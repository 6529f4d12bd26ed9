//! The governance side of the skill list: which timeline entries concern
//! the skill or source in focus, and the one-line summary of a skill's
//! managed copy and latest guard report.
use vstd::prelude::*;
use crate::jsonish::sanitize::{trim, trim_spec};
use crate::text::{chars_of, decimal, push_all, string_from_chars, u64_decimal};
use crate::tui::app_state::{eq_ignore_ascii_case, eq_ignore_ascii_case_spec};
use crate::tui::skill_editor::timeline_guard_status_label;
use crate::types::skill::{ManagedSkillRecord, SkillGovernanceTimelineEntry, SkillGuardReport, SkillGuardStatus};

verus! {

fn same_ignoring_ascii_case(a: &str, b: &str) -> (r: bool)
    ensures
        r == eq_ignore_ascii_case_spec(a@, b@),
{
    eq_ignore_ascii_case(&chars_of(a), &chars_of(b))
}

/// The first managed record of the skill (names compared ignoring ASCII
/// case).
pub fn managed_record_for_skill<'a>(records: &'a Vec<ManagedSkillRecord>, skill_name: &str) -> (r: Option<&'a ManagedSkillRecord>)
    ensures
        match r {
            Some(rec) => exists|k: int| 0 <= k < records@.len() && records@[k] == *rec
                && eq_ignore_ascii_case_spec(records@[k].skill_name@, skill_name@)
                && forall|j: int| 0 <= j < k ==> !eq_ignore_ascii_case_spec(#[trigger] records@[j].skill_name@, skill_name@),
            None => forall|j: int| 0 <= j < records@.len() ==> !eq_ignore_ascii_case_spec(#[trigger] records@[j].skill_name@, skill_name@),
        },
{
    let mut k: usize = 0;
    while k < records.len()
        invariant
            0 <= k <= records@.len(),
            forall|j: int| 0 <= j < k ==> !eq_ignore_ascii_case_spec(#[trigger] records@[j].skill_name@, skill_name@),
        decreases records.len() - k,
    {
        if same_ignoring_ascii_case(records[k].skill_name.as_str(), skill_name) {
            return Some(&records[k]);
        }
        k = k + 1;
    }
    None
}

/// Does the entry concern the skill and carry a guard report?
pub open spec fn guarded_entry_of(e: SkillGovernanceTimelineEntry, skill_name: Seq<char>) -> bool {
    &&& e.skill_name matches Some(n) && eq_ignore_ascii_case_spec(n@, skill_name)
    &&& e.guard_report is Some
}

/// The guard report of the first timeline entry of the skill that has one.
pub fn latest_guard_report_for_skill<'a>(
    timeline: &'a Vec<SkillGovernanceTimelineEntry>,
    skill_name: &str,
) -> (r: Option<&'a SkillGuardReport>)
    ensures
        match r {
            Some(rep) => exists|k: int| 0 <= k < timeline@.len() && guarded_entry_of(timeline@[k], skill_name@)
                && timeline@[k].guard_report == Some(*rep)
                && forall|j: int| 0 <= j < k ==> !guarded_entry_of(#[trigger] timeline@[j], skill_name@),
            None => forall|j: int| 0 <= j < timeline@.len() ==> !guarded_entry_of(#[trigger] timeline@[j], skill_name@),
        },
{
    let mut k: usize = 0;
    while k < timeline.len()
        invariant
            0 <= k <= timeline@.len(),
            forall|j: int| 0 <= j < k ==> !guarded_entry_of(#[trigger] timeline@[j], skill_name@),
        decreases timeline.len() - k,
    {
        let e = &timeline[k];
        let name_matches = match &e.skill_name {
            Some(n) => same_ignoring_ascii_case(n.as_str(), skill_name),
            None => false,
        };
        if name_matches {
            match &e.guard_report {
                Some(rep) => {
                    return Some(rep);
                },
                None => {},
            }
        }
        k = k + 1;
    }
    None
}

/// `a · b · c`.
pub open spec fn joined(parts: Seq<Seq<char>>) -> Seq<char>
    decreases parts.len(),
{
    if parts.len() == 0 {
        Seq::empty()
    } else if parts.len() == 1 {
        parts[0]
    } else {
        joined(parts.drop_last()) + " · "@ + parts.last()
    }
}

/// The parts of the summary of a managed copy: where it comes from, and
/// whether it was changed here.
pub open spec fn record_parts(rec: ManagedSkillRecord) -> Seq<Seq<char>> {
    seq![
        "source "@ + match rec.source {
            Some(src) => src.source_id@,
            None => "workspace-local"@,
        },
        if rec.deleted_locally {
            "deleted locally"@
        } else if rec.locally_modified {
            "locally modified"@
        } else {
            "managed clean"@
        },
    ]
}

pub open spec fn guard_status_label_spec(s: SkillGuardStatus) -> Seq<char> {
    match s {
        SkillGuardStatus::Passed => "passed"@,
        SkillGuardStatus::Warn => "warn"@,
        SkillGuardStatus::Blocked => "blocked"@,
    }
}

/// `guard {status} ({violations})`.
pub open spec fn guard_part(rep: SkillGuardReport) -> Seq<char> {
    "guard "@ + guard_status_label_spec(rep.status) + " ("@ + decimal(rep.violations@.len()) + ")"@
}

fn join_parts(parts: &Vec<Vec<char>>) -> (r: Vec<char>)
    ensures
        r@ == joined(parts@.map_values(|p: Vec<char>| p@)),
{
    let ghost pv = parts@.map_values(|p: Vec<char>| p@);
    let mut out: Vec<char> = Vec::new();
    let mut i: usize = 0;
    while i < parts.len()
        invariant
            0 <= i <= parts@.len(),
            pv == parts@.map_values(|p: Vec<char>| p@),
            out@ == joined(pv.take(i as int)),
        decreases parts.len() - i,
    {
        proof {
            assert(pv.take(i + 1).drop_last() =~= pv.take(i as int));
            assert(pv.take(i + 1).last() == parts@[i as int]@);
        }
        if i > 0 {
            push_all(&mut out, &chars_of(" · "));
        }
        push_all(&mut out, &parts[i]);
        proof {
            if i == 0 {
                assert(pv.take(1) =~= seq![parts@[0]@]);
            }
        }
        i = i + 1;
    }
    assert(pv.take(i as int) =~= pv);
    out
}

/// `r` is the summary built from `rec`, the skill's first managed record
/// (if any), and `rep`, its first guard report on the timeline (if any).
pub open spec fn summary_holds(
    records: Seq<ManagedSkillRecord>,
    timeline: Seq<SkillGovernanceTimelineEntry>,
    skill_name: Seq<char>,
    rec: Option<ManagedSkillRecord>,
    rep: Option<SkillGuardReport>,
    r: Seq<char>,
) -> bool {
    &&& match rec {
        Some(x) => exists|k: int| 0 <= k < records.len() && records[k] == x
            && eq_ignore_ascii_case_spec(records[k].skill_name@, skill_name)
            && forall|j: int| 0 <= j < k ==> !eq_ignore_ascii_case_spec(#[trigger] records[j].skill_name@, skill_name),
        None => forall|j: int| 0 <= j < records.len() ==> !eq_ignore_ascii_case_spec(#[trigger] records[j].skill_name@, skill_name),
    }
    &&& match rep {
        Some(x) => exists|k: int| 0 <= k < timeline.len() && guarded_entry_of(timeline[k], skill_name)
            && timeline[k].guard_report == Some(x)
            && forall|j: int| 0 <= j < k ==> !guarded_entry_of(#[trigger] timeline[j], skill_name),
        None => forall|j: int| 0 <= j < timeline.len() ==> !guarded_entry_of(#[trigger] timeline[j], skill_name),
    }
    &&& r == joined(
        match rec {
            Some(x) => record_parts(x),
            None => Seq::empty(),
        } + match rep {
            Some(x) => seq![guard_part(x)],
            None => Seq::empty(),
        },
    )
}

/// The governance summary of a skill: its managed copy's source and state,
/// then its latest guard verdict with the number of violations, joined by
/// ` · ` (empty when there is neither).
pub fn governance_summary_line(
    records: &Vec<ManagedSkillRecord>,
    timeline: &Vec<SkillGovernanceTimelineEntry>,
    skill_name: &str,
) -> (r: String)
    ensures
        exists|rec: Option<ManagedSkillRecord>, rep: Option<SkillGuardReport>| summary_holds(
            records@,
            timeline@,
            skill_name@,
            rec,
            rep,
            r@,
        ),
{
    let mut parts: Vec<Vec<char>> = Vec::new();
    let rec = managed_record_for_skill(records, skill_name);
    match rec {
        Some(record) => {
            let mut src = chars_of("source ");
            match &record.source {
                Some(s) => push_all(&mut src, &chars_of(s.source_id.as_str())),
                None => push_all(&mut src, &chars_of("workspace-local")),
            }
            parts.push(src);
            let state = if record.deleted_locally {
                chars_of("deleted locally")
            } else if record.locally_modified {
                chars_of("locally modified")
            } else {
                chars_of("managed clean")
            };
            parts.push(state);
        },
        None => {},
    }
    let ghost after_rec = parts@.map_values(|p: Vec<char>| p@);
    let rep = latest_guard_report_for_skill(timeline, skill_name);
    match rep {
        Some(report) => {
            let mut g = chars_of("guard ");
            push_all(&mut g, &chars_of(timeline_guard_status_label(report)));
            push_all(&mut g, &chars_of(" ("));
            push_all(&mut g, &u64_decimal(report.violations.len() as u64));
            push_all(&mut g, &chars_of(")"));
            assert(g@ =~= guard_part(*report));
            parts.push(g);
        },
        None => {},
    }
    let line = join_parts(&parts);
    proof {
        let pv = parts@.map_values(|p: Vec<char>| p@);
        let rp = match rec {
            Some(x) => record_parts(*x),
            None => Seq::<Seq<char>>::empty(),
        };
        let gp = match rep {
            Some(x) => seq![guard_part(*x)],
            None => Seq::<Seq<char>>::empty(),
        };
        assert(after_rec =~= rp);
        assert(pv =~= rp + gp);
        let orec = match rec { Some(x) => Some(*x), None => None };
        let orep = match rep { Some(x) => Some(*x), None => None };
        assert(summary_holds(records@, timeline@, skill_name@, orec, orep, line@));
    }
    string_from_chars(&line)
}

/// Does the entry concern the skill (names trimmed, ASCII case ignored)?
pub open spec fn entry_of_skill(e: SkillGovernanceTimelineEntry, skill: Seq<char>) -> bool {
    e.skill_name matches Some(n) && eq_ignore_ascii_case_spec(trim_spec(n@), trim_spec(skill))
}

pub open spec fn entry_of_source(e: SkillGovernanceTimelineEntry, source_id: Seq<char>) -> bool {
    e.source_id matches Some(s) && s@ == source_id
}

/// Indices of the entries that satisfy `p`, in order.
pub open spec fn indices_where(timeline: Seq<SkillGovernanceTimelineEntry>, p: spec_fn(SkillGovernanceTimelineEntry) -> bool) -> Seq<usize>
    decreases timeline.len(),
{
    if timeline.len() == 0 {
        Seq::empty()
    } else {
        let pre = indices_where(timeline.drop_last(), p);
        if p(timeline.last()) { pre.push((timeline.len() - 1) as usize) } else { pre }
    }
}

pub open spec fn all_indices(n: nat) -> Seq<usize> {
    Seq::new(n, |i: int| i as usize)
}

/// The positions picked out of a timeline lie inside it.
pub proof fn lemma_indices_where_in_range(
    timeline: Seq<SkillGovernanceTimelineEntry>,
    p: spec_fn(SkillGovernanceTimelineEntry) -> bool,
)
    requires
        timeline.len() <= usize::MAX,
    ensures
        forall|k: int|
            0 <= k < indices_where(timeline, p).len() ==> #[trigger] indices_where(timeline, p)[k] < timeline.len(),
    decreases timeline.len(),
{
    if timeline.len() > 0 {
        let pre = indices_where(timeline.drop_last(), p);
        lemma_indices_where_in_range(timeline.drop_last(), p);
        assert forall|k: int| 0 <= k < indices_where(timeline, p).len() implies #[trigger] indices_where(
            timeline,
            p,
        )[k] < timeline.len() by {
            if k < pre.len() {
                assert(pre[k] < timeline.drop_last().len());
            }
        }
    }
}

/// The positions of the timeline in focus lie inside the timeline.
pub proof fn lemma_focused_in_range(
    timeline: Seq<SkillGovernanceTimelineEntry>,
    skill: Option<Seq<char>>,
    source_id: Option<Seq<char>>,
)
    requires
        timeline.len() <= usize::MAX,
    ensures
        forall|k: int|
            0 <= k < focused_spec(timeline, skill, source_id).len() ==> #[trigger] focused_spec(
                timeline,
                skill,
                source_id,
            )[k] < timeline.len(),
{
    match skill {
        Some(sk) => lemma_indices_where_in_range(timeline, |e: SkillGovernanceTimelineEntry| entry_of_skill(e, sk)),
        None => {},
    }
    match source_id {
        Some(src) => lemma_indices_where_in_range(timeline, |e: SkillGovernanceTimelineEntry| entry_of_source(e, src)),
        None => {},
    }
}

/// The timeline in focus: the entries of the selected skill, else of the
/// selected source, else every entry; a selection with no entry falls
/// through to the next.
pub open spec fn focused_spec(
    timeline: Seq<SkillGovernanceTimelineEntry>,
    skill: Option<Seq<char>>,
    source_id: Option<Seq<char>>,
) -> Seq<usize> {
    let by_skill = match skill {
        Some(sk) => indices_where(timeline, |e: SkillGovernanceTimelineEntry| entry_of_skill(e, sk)),
        None => Seq::empty(),
    };
    let by_source = match source_id {
        Some(src) => indices_where(timeline, |e: SkillGovernanceTimelineEntry| entry_of_source(e, src)),
        None => Seq::empty(),
    };
    if by_skill.len() > 0 {
        by_skill
    } else if by_source.len() > 0 {
        by_source
    } else {
        all_indices(timeline.len())
    }
}

fn entries_of_skill(timeline: &Vec<SkillGovernanceTimelineEntry>, skill: &str) -> (r: Vec<usize>)
    ensures
        r@ == indices_where(timeline@, |e: SkillGovernanceTimelineEntry| entry_of_skill(e, skill@)),
{
    let target = trim(&chars_of(skill));
    let mut out: Vec<usize> = Vec::new();
    let mut i: usize = 0;
    while i < timeline.len()
        invariant
            0 <= i <= timeline@.len(),
            target@ == trim_spec(skill@),
            out@ == indices_where(timeline@.take(i as int), |e: SkillGovernanceTimelineEntry| entry_of_skill(e, skill@)),
        decreases timeline.len() - i,
    {
        proof {
            assert(timeline@.take(i + 1).drop_last() =~= timeline@.take(i as int));
        }
        let hit = match &timeline[i].skill_name {
            Some(n) => eq_ignore_ascii_case(&trim(&chars_of(n.as_str())), &target),
            None => false,
        };
        if hit {
            out.push(i);
        }
        i = i + 1;
    }
    assert(timeline@.take(i as int) =~= timeline@);
    out
}

fn entries_of_source(timeline: &Vec<SkillGovernanceTimelineEntry>, source_id: &str) -> (r: Vec<usize>)
    ensures
        r@ == indices_where(timeline@, |e: SkillGovernanceTimelineEntry| entry_of_source(e, source_id@)),
{
    let target = chars_of(source_id);
    let mut out: Vec<usize> = Vec::new();
    let mut i: usize = 0;
    while i < timeline.len()
        invariant
            0 <= i <= timeline@.len(),
            target@ == source_id@,
            out@ == indices_where(timeline@.take(i as int), |e: SkillGovernanceTimelineEntry| entry_of_source(e, source_id@)),
        decreases timeline.len() - i,
    {
        proof {
            assert(timeline@.take(i + 1).drop_last() =~= timeline@.take(i as int));
        }
        let hit = match &timeline[i].source_id {
            Some(s) => crate::text::chars_eq(&chars_of(s.as_str()), &target),
            None => false,
        };
        if hit {
            out.push(i);
        }
        i = i + 1;
    }
    assert(timeline@.take(i as int) =~= timeline@);
    out
}

/// Positions of the timeline entries in focus for the selected skill or
/// source.
pub fn focused_timeline_entries(
    timeline: &Vec<SkillGovernanceTimelineEntry>,
    selected_skill: Option<&str>,
    selected_source_id: Option<&str>,
) -> (r: Vec<usize>)
    ensures
        r@ == focused_spec(
            timeline@,
            match selected_skill { Some(s) => Some(s@), None => None },
            match selected_source_id { Some(s) => Some(s@), None => None },
        ),
{
    match selected_skill {
        Some(sk) => {
            let entries = entries_of_skill(timeline, sk);
            if entries.len() > 0 {
                return entries;
            }
        },
        None => {},
    }
    match selected_source_id {
        Some(src) => {
            let entries = entries_of_source(timeline, src);
            if entries.len() > 0 {
                return entries;
            }
        },
        None => {},
    }
    let mut all: Vec<usize> = Vec::new();
    let mut i: usize = 0;
    while i < timeline.len()
        invariant
            0 <= i <= timeline@.len(),
            all@ == all_indices(i as nat),
        decreases timeline.len() - i,
    {
        all.push(i);
        i = i + 1;
        assert(all@ =~= all_indices(i as nat));
    }
    all
}

/// What the timeline is about: the selected skill, else the selected
/// source, else everything.
pub fn timeline_focus_label(selected_skill: Option<&str>, selected_source_id: Option<&str>) -> (r: String)
    ensures
        r@ == match selected_skill {
            Some(s) => "skill `"@ + s@ + "`"@,
            None => match selected_source_id {
                Some(src) => "source `"@ + src@ + "`"@,
                None => "all governance entries"@,
            },
        },
{
    let mut out: Vec<char>;
    match selected_skill {
        Some(s) => {
            out = chars_of("skill `");
            push_all(&mut out, &chars_of(s));
            push_all(&mut out, &chars_of("`"));
        },
        None => match selected_source_id {
            Some(src) => {
                out = chars_of("source `");
                push_all(&mut out, &chars_of(src));
                push_all(&mut out, &chars_of("`"));
            },
            None => {
                out = chars_of("all governance entries");
            },
        },
    }
    string_from_chars(&out)
}

} // verus!
