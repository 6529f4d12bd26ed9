//! The full repair pipeline: sanitize, normalize, repair, close, balance.
use vstd::prelude::*;
use crate::jsonish::normalize::{normalize_syntax, normalize_syntax_spec};
use crate::jsonish::repair::{
    aggressive_close, aggressive_close_spec, balance_brackets_spec, balance_brackets_stateful,
    convert_single_quotes, convert_single_quotes_spec, escape_control_chars_in_strings,
    escape_control_chars_spec, insert_missing_colons, insert_missing_colons_spec,
    insert_missing_commas, insert_missing_commas_spec, normalize_line_endings,
    normalize_line_endings_spec, note_if, remove_trailing_commas, remove_trailing_commas_spec,
    repair_unclosed_strings, repair_unclosed_strings_spec, views,
};
use crate::jsonish::sanitize::{note_opt, sanitize_input, sanitize_spec};
use crate::text::{chars_of, string_from_chars};

verus! {

/// The repair pipeline on a text and the notes it records, in order.
/// `aggressive` adds the finalization of truncated input.
pub open spec fn repair_json_spec(c: Seq<char>, aggressive: bool) -> (Seq<char>, Seq<Seq<char>>) {
    let (s0, n0) = sanitize_spec(c);
    let q = convert_single_quotes_spec(s0);
    let n1 = note_if(n0, q.1, "converted single quotes to double quotes"@);
    let (s2, n2x) = normalize_syntax_spec(q.0);
    let n2 = n1 + n2x;
    let le = normalize_line_endings_spec(s2);
    let n3 = note_if(n2, le.1, "normalized line endings in strings"@);
    let ec = escape_control_chars_spec(le.0);
    let n4 = note_if(n3, ec.1, "escaped control characters / fixed escape sequences in strings"@);
    let us = repair_unclosed_strings_spec(ec.0);
    let n5 = note_if(n4, us.1, "closed unclosed string"@);
    let mc = insert_missing_commas_spec(us.0);
    let n6 = note_if(n5, mc.1, "inserted missing commas between fields"@);
    let ml = insert_missing_colons_spec(mc.0);
    let n7 = note_if(n6, ml.1, "inserted missing colons"@);
    let tc = remove_trailing_commas_spec(ml.0);
    let n8 = note_if(n7, tc.1, "removed trailing commas"@);
    let ac = if aggressive { aggressive_close_spec(tc.0) } else { (tc.0, None) };
    let n9 = note_opt(n8, ac.1);
    let bb = balance_brackets_spec(ac.0);
    (bb.0, note_opt(n9, bb.1))
}

/// Core repair pipeline. `aggressive` enables more forceful strategies (finalize).
#[verifier::rlimit(80)]
pub fn repair_json(input: &[char], aggressive: bool, repairs: &mut Vec<String>) -> (r: Vec<char>)
    ensures
        r@ == repair_json_spec(input@, aggressive).0,
        views(final(repairs)@) == views(old(repairs)@) + repair_json_spec(input@, aggressive).1,
{
    let ghost base = views(repairs@);
    let ghost spec = repair_json_spec(input@, aggressive);
    let s0 = sanitize_input(input, repairs);
    let ghost n0 = views(repairs@);
    let s1 = convert_single_quotes(&s0, repairs);
    let ghost n1 = views(repairs@);
    let s2 = normalize_syntax(&s1, repairs);
    let ghost n2 = views(repairs@);
    let s3 = normalize_line_endings(&s2, repairs);
    let ghost n3 = views(repairs@);
    let s4 = escape_control_chars_in_strings(&s3, repairs);
    let ghost n4 = views(repairs@);
    let s5 = repair_unclosed_strings(&s4, repairs);
    let ghost n5 = views(repairs@);
    let s6 = insert_missing_commas(&s5, repairs);
    let ghost n6 = views(repairs@);
    let s7 = insert_missing_colons(&s6, repairs);
    let ghost n7 = views(repairs@);
    let s8 = remove_trailing_commas(&s7, repairs);
    let ghost n8 = views(repairs@);
    let s9 = if aggressive {
        aggressive_close(&s8, repairs)
    } else {
        s8
    };
    let ghost n9 = views(repairs@);
    let s10 = balance_brackets_stateful(&s9, repairs);
    proof {
        let (t0, m0) = sanitize_spec(input@);
        assert(n0 == base + m0);
        let q = convert_single_quotes_spec(t0);
        assert(n1 == base + note_if(m0, q.1, "converted single quotes to double quotes"@)) by {
            if q.1 {
                assert(base + m0.push("converted single quotes to double quotes"@) =~= (base + m0).push("converted single quotes to double quotes"@));
            }
        }
        assert(n2 == n1 + normalize_syntax_spec(q.0).1);
        assert(views(repairs@) =~= base + spec.1) by {
            assert(n2 =~= base + (note_if(m0, q.1, "converted single quotes to double quotes"@) + normalize_syntax_spec(q.0).1));
        }
    }
    s10
}

/// Apply the full repair pipeline to a raw JSON string without requiring a
/// streaming parser or tool schemas. Returns the repaired string and the
/// repair operations applied.
pub fn repair_json_standalone(input: &str, aggressive: bool) -> (r: (String, Vec<String>))
    ensures
        r.0@ == repair_json_spec(input@, aggressive).0,
        views(r.1@) == repair_json_spec(input@, aggressive).1,
{
    let mut repairs: Vec<String> = Vec::new();
    let chars = chars_of(input);
    let repaired = repair_json(&chars, aggressive, &mut repairs);
    assert(views(Seq::<String>::empty()) =~= Seq::<Seq<char>>::empty());
    assert(Seq::<Seq<char>>::empty() + repair_json_spec(input@, aggressive).1 =~= repair_json_spec(input@, aggressive).1);
    (string_from_chars(&repaired), repairs)
}

/// Apply only the sanitize phase: strip framing noise without modifying the
/// JSON structure itself.
pub fn sanitize_standalone(input: &str) -> (r: (String, Vec<String>))
    ensures
        r.0@ == sanitize_spec(input@).0,
        views(r.1@) == sanitize_spec(input@).1,
{
    let mut repairs: Vec<String> = Vec::new();
    let chars = chars_of(input);
    let sanitized = sanitize_input(&chars, &mut repairs);
    assert(views(Seq::<String>::empty()) =~= Seq::<Seq<char>>::empty());
    assert(Seq::<Seq<char>>::empty() + sanitize_spec(input@).1 =~= sanitize_spec(input@).1);
    (string_from_chars(&sanitized), repairs)
}

} // verus!
