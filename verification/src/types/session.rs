//! Session summaries, list contracts and status records as exchanged with the server.
use vstd::prelude::*;
use vstd::string::StringExecFns;
use crate::jsonish::sanitize::{trim, trim_spec};
use crate::text::{chars_of, decimal, push_all, string_from_chars, u64_decimal};

verus! {

#[derive(Debug, Clone, Default)]
pub struct SessionSummary {
    pub additions: u64,
    pub deletions: u64,
    pub files: u64,
    pub diffs: Option<Vec<FileDiff>>,
}

#[derive(Debug, Clone)]
pub struct FileDiff {
    pub path: String,
    pub additions: u64,
    pub deletions: u64,
}

#[derive(Debug, Clone)]
pub struct SessionShare {
    pub url: String,
}

#[derive(Debug, Clone)]
pub struct SessionRevert {
    pub message_id: String,
    pub part_id: Option<String>,
    pub snapshot: Option<String>,
    pub diff: Option<String>,
}

#[derive(Debug, Clone, Default)]
pub struct PermissionRuleset {
    pub allow: Vec<String>,
    pub deny: Vec<String>,
    pub mode: Option<String>,
}

#[derive(Debug, Clone, PartialEq, Eq)]
pub struct SessionTime {
    pub created: i64,
    pub updated: i64,
    pub compacting: Option<i64>,
    pub archived: Option<i64>,
}

#[derive(Debug, Clone, PartialEq, Default)]
pub enum SessionStatus {
    #[default]
    Active,
    Completed,
    Archived,
    Compacting,
}

#[derive(Debug, Clone, PartialEq)]
pub enum RunStatus {
    Idle,
    Busy,
    Retrying { attempt: u32 },
}

#[derive(Debug, Clone, Copy, PartialEq, Eq, Default)]
pub enum SessionTelemetrySnapshotVersion {
    #[default]
    V1,
    V2,
}

#[derive(Debug, Clone, PartialEq, Eq)]
pub struct SessionListHints {
    pub current_model: Option<String>,
    pub model_provider: Option<String>,
    pub model_id: Option<String>,
    pub scheduler_profile: Option<String>,
    pub resolved_scheduler_profile: Option<String>,
    pub agent: Option<String>,
}

#[derive(Debug, Clone, PartialEq, Eq)]
pub struct SessionListSummary {
    pub additions: u64,
    pub deletions: u64,
    pub files: u64,
}

#[derive(Debug, Clone, PartialEq, Eq)]
pub struct SessionListContract {
    pub filter_query_parameters: Vec<String>,
    pub search_fields: Vec<String>,
    pub non_search_fields: Vec<String>,
    pub note: String,
}

#[derive(Debug, Clone, PartialEq, Eq)]
pub struct SessionMultimodalAttachmentInfo {
    pub filename: String,
    pub mime: String,
}

#[derive(Debug, Clone, PartialEq, Eq)]
pub struct SessionMultimodalInsight {
    pub user_message_id: String,
    pub attachment_count: u32,
    pub kinds: Vec<String>,
    pub badges: Vec<String>,
    pub compact_label: Option<String>,
    pub resolved_model: Option<String>,
    pub warnings: Vec<String>,
    pub unsupported_parts: Vec<String>,
    pub recommended_downgrade: Option<String>,
    pub hard_block: bool,
    pub transport_replaced_parts: Vec<String>,
    pub transport_warnings: Vec<String>,
    pub attachments: Vec<SessionMultimodalAttachmentInfo>,
}

#[derive(Debug, Clone)]
pub struct SessionStatusInfo {
    pub status: String,
    pub idle: bool,
    pub busy: bool,
    pub attempt: Option<u32>,
    pub message: Option<String>,
    pub next: Option<i64>,
}


/// Appends `w` unless it is already there.
pub open spec fn push_unique(acc: Seq<Seq<char>>, w: Seq<char>) -> Seq<Seq<char>> {
    if acc.contains(w) { acc } else { acc.push(w) }
}

/// The trimmed, non-empty entries of `ws`, without repeats, first
/// occurrence first, added to `acc`.
pub open spec fn unique_trimmed(acc: Seq<Seq<char>>, ws: Seq<Seq<char>>) -> Seq<Seq<char>>
    decreases ws.len(),
{
    if ws.len() == 0 {
        acc
    } else {
        let t = trim_spec(ws[0]);
        let acc2 = if t.len() == 0 { acc } else { push_unique(acc, t) };
        unique_trimmed(acc2, ws.drop_first())
    }
}

pub open spec fn string_seq_view(v: Seq<String>) -> Seq<Seq<char>> {
    v.map_values(|s: String| s@)
}

impl SessionMultimodalInsight {
    /// The label shown for the insight: the compact label when it has text,
    /// else a count of attachments.
    pub open spec fn display_label_spec(&self) -> Seq<char> {
        let label = match self.compact_label {
            Some(l) => trim_spec(l@),
            None => Seq::empty(),
        };
        if label.len() > 0 {
            label
        } else if self.attachment_count == 1 {
            "attachment-backed input"@
        } else {
            decimal(self.attachment_count as nat) + " attachments"@
        }
    }

    pub fn display_label(&self) -> (r: String)
        ensures
            r@ == self.display_label_spec(),
    {
        if let Some(label) = &self.compact_label {
            let t = trim(&chars_of(label.as_str()));
            if t.len() > 0 {
                return string_from_chars(&t);
            }
        }
        if self.attachment_count == 1 {
            String::from_str("attachment-backed input")
        } else {
            let digits = u64_decimal(self.attachment_count as u64);
            let mut out = string_from_chars(&digits);
            out.append(" attachments");
            out
        }
    }

    /// Warnings and transport warnings, trimmed, without blanks or repeats.
    pub fn combined_warnings(&self) -> (r: Vec<String>)
        ensures
            string_seq_view(r@) == unique_trimmed(
                Seq::empty(),
                string_seq_view(self.warnings@) + string_seq_view(self.transport_warnings@),
            ),
    {
        let mut out: Vec<String> = Vec::new();
        assert(string_seq_view(out@) =~= Seq::<Seq<char>>::empty());
        add_unique_trimmed(&mut out, &self.warnings);
        add_unique_trimmed(&mut out, &self.transport_warnings);
        proof {
            lemma_unique_trimmed_concat(
                Seq::empty(),
                string_seq_view(self.warnings@),
                string_seq_view(self.transport_warnings@),
            );
        }
        out
    }
}

pub proof fn lemma_unique_trimmed_concat(acc: Seq<Seq<char>>, a: Seq<Seq<char>>, b: Seq<Seq<char>>)
    ensures
        unique_trimmed(acc, a + b) == unique_trimmed(unique_trimmed(acc, a), b),
    decreases a.len(),
{
    if a.len() == 0 {
        assert(a + b =~= b);
    } else {
        let t = trim_spec(a[0]);
        let acc2 = if t.len() == 0 { acc } else { push_unique(acc, t) };
        lemma_unique_trimmed_concat(acc2, a.drop_first(), b);
        assert((a + b).drop_first() =~= a.drop_first() + b);
        assert((a + b)[0] == a[0]);
    }
}

fn add_unique_trimmed(out: &mut Vec<String>, ws: &Vec<String>)
    ensures
        string_seq_view(final(out)@) == unique_trimmed(string_seq_view(old(out)@), string_seq_view(ws@)),
{
    let ghost all = string_seq_view(ws@);
    let ghost target = unique_trimmed(string_seq_view(out@), all);
    assert(all.skip(0) =~= all);
    let mut k: usize = 0;
    while k < ws.len()
        invariant
            0 <= k <= ws@.len(),
            all == string_seq_view(ws@),
            target == unique_trimmed(string_seq_view(out@), all.skip(k as int)),
        decreases ws.len() - k,
    {
        let w = &ws[k];
        assert(all[k as int] == w@);
        let t = trim(&chars_of(w.as_str()));
        if t.len() > 0 {
            let mut found = false;
            let mut j: usize = 0;
            while j < out.len()
                invariant
                    0 <= j <= out@.len(),
                    !found ==> forall|q: int| 0 <= q < j ==> out@[q]@ != t@,
                    found ==> string_seq_view(out@).contains(t@),
                decreases out.len() - j,
            {
                let oc = chars_of(out[j].as_str());
                if crate::text::chars_eq(&oc, &t) {
                    found = true;
                    assert(string_seq_view(out@)[j as int] == t@);
                }
                j = j + 1;
            }
            let ghost before = string_seq_view(out@);
            if !found {
                assert(!before.contains(t@));
                out.push(string_from_chars(&t));
                assert(string_seq_view(out@) =~= before.push(t@));
            }
        }
        proof {
            assert(all.skip(k as int).drop_first() =~= all.skip(k + 1));
            assert(all.skip(k as int)[0] == all[k as int]);
        }
        k = k + 1;
    }
    assert(all.skip(ws@.len() as int) =~= Seq::<Seq<char>>::empty());
}

} // verus!
