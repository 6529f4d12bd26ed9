//! Parsing the repaired text and matching the result to a tool schema.
use vstd::prelude::*;
use crate::jsonish::scanner::ToolSchema;

verus! {

#[verifier::external_type_specification]
#[verifier::external_body]
pub struct ExJsonValue(serde_json::Value);

/// `Clone` of a `serde_json::Value`, which serde_json derives: a deep copy,
/// equal to the original.
pub assume_specification[ <serde_json::Value as Clone>::clone ](v: &serde_json::Value) -> (r: serde_json::Value)
    ensures
        r == *v,
;

/// A top-level field of a parsed object: its key and, when the value is a
/// string, that string.
pub type JsonField = (String, Option<String>);

pub open spec fn field_view(f: JsonField) -> (Seq<char>, Option<Seq<char>>) {
    (f.0@, match f.1 {
        Some(s) => Some(s@),
        None => None,
    })
}

pub open spec fn fields_view(v: Seq<JsonField>) -> Seq<(Seq<char>, Option<Seq<char>>)> {
    v.map_values(|f: JsonField| field_view(f))
}

/// A parsed JSON document as the library holds it: a number as the text
/// serde_json writes for it, an object as its entries in the map's order.
#[derive(Debug)]
pub enum JsonDoc {
    Null,
    Bool(bool),
    Number(String),
    Str(String),
    Array(Vec<JsonDoc>),
    Object(Vec<(String, JsonDoc)>),
}

/// What `serde_json::from_str::<serde_json::Value>` gives for a text: the
/// document, held as a `JsonDoc`, or the error's message.
pub uninterp spec fn json_parse(text: Seq<char>) -> Result<JsonDoc, Seq<char>>;

/// Turns a `serde_json::Value` into a `JsonDoc`, variant for variant; a
/// number becomes the text that its `Display` writes.
#[verifier::external_body]
fn doc_of(v: &serde_json::Value) -> JsonDoc {
    match v {
        serde_json::Value::Null => JsonDoc::Null,
        serde_json::Value::Bool(b) => JsonDoc::Bool(*b),
        serde_json::Value::Number(n) => JsonDoc::Number(n.to_string()),
        serde_json::Value::String(s) => JsonDoc::Str(s.clone()),
        serde_json::Value::Array(a) => JsonDoc::Array(a.iter().map(doc_of).collect()),
        serde_json::Value::Object(o) => JsonDoc::Object(o.iter().map(|(k, x)| (k.clone(), doc_of(x))).collect()),
    }
}

/// Calls `serde_json::from_str::<serde_json::Value>`. The contract ties the
/// outcome to the text alone through `json_parse`: the document, or the
/// error's message.
#[verifier::external_body]
pub fn parse_json_value(text: &str) -> (r: Result<JsonDoc, String>)
    ensures
        match r {
            Ok(d) => json_parse(text@) == Ok::<JsonDoc, Seq<char>>(d),
            Err(msg) => json_parse(text@) == Err::<JsonDoc, Seq<char>>(msg@),
        },
{
    match serde_json::from_str::<serde_json::Value>(text) {
        Ok(value) => Ok(doc_of(&value)),
        Err(e) => Err(e.to_string()),
    }
}

/// A field of an object entry: its key and, when the value is a string,
/// that string.
pub open spec fn entry_field(e: (String, JsonDoc)) -> (Seq<char>, Option<Seq<char>>) {
    (e.0@, match e.1 {
        JsonDoc::Str(s) => Some(s@),
        _ => None,
    })
}

/// The top-level fields of a document; `None` when it is not an object.
pub open spec fn doc_fields(d: JsonDoc) -> Option<Seq<(Seq<char>, Option<Seq<char>>)>> {
    match d {
        JsonDoc::Object(es) => Some(es@.map_values(|e: (String, JsonDoc)| entry_field(e))),
        _ => None,
    }
}

/// What parsing a text gives in the terms that tool detection reads: `Err`
/// with the error's message when the text is not JSON; otherwise `None`
/// when the document is not an object, or the object's fields in order.
pub open spec fn json_top_fields(text: Seq<char>) -> Result<Option<Seq<(Seq<char>, Option<Seq<char>>)>>, Seq<char>> {
    match json_parse(text) {
        Ok(d) => Ok(doc_fields(d)),
        Err(m) => Err(m),
    }
}

/// The top-level fields of a document.
pub fn top_fields(d: &JsonDoc) -> (r: Option<Vec<JsonField>>)
    ensures
        match r {
            Some(fs) => doc_fields(*d) == Some(fields_view(fs@)),
            None => doc_fields(*d) is None,
        },
{
    match d {
        JsonDoc::Object(es) => {
            let mut out: Vec<JsonField> = Vec::new();
            let mut i: usize = 0;
            while i < es.len()
                invariant
                    0 <= i <= es@.len(),
                    fields_view(out@) == es@.take(i as int).map_values(|e: (String, JsonDoc)| entry_field(e)),
                decreases es.len() - i,
            {
                let key = es[i].0.clone();
                let val = match &es[i].1 {
                    JsonDoc::Str(s) => Some(s.clone()),
                    _ => None,
                };
                let ghost before = out@;
                out.push((key, val));
                proof {
                    assert(fields_view(out@) =~= fields_view(before).push(field_view((key, val))));
                    assert(es@.take(i + 1) =~= es@.take(i as int).push(es@[i as int]));
                    assert(field_view((key, val)) == entry_field(es@[i as int]));
                    assert(fields_view(out@) =~= es@.take(i + 1).map_values(|e: (String, JsonDoc)| entry_field(e)));
                }
                i = i + 1;
            }
            assert(es@.take(es@.len() as int) =~= es@);
            Some(out)
        },
        _ => None,
    }
}

// ---------------------------------------------------------------------------
// Scored schema matching
// ---------------------------------------------------------------------------

pub open spec fn has_key(fields: Seq<(Seq<char>, Option<Seq<char>>)>, key: Seq<char>) -> bool {
    exists|k: int| 0 <= k < fields.len() && fields[k].0 == key
}

/// The value of the first field named `key`, if any (`Some(None)`: present,
/// not a string).
pub open spec fn field_lookup(fields: Seq<(Seq<char>, Option<Seq<char>>)>, key: Seq<char>, k: int) -> Option<Option<Seq<char>>>
    decreases fields.len() - k,
{
    if k < 0 || k >= fields.len() {
        None
    } else if fields[k].0 == key {
        Some(fields[k].1)
    } else {
        field_lookup(fields, key, k + 1)
    }
}

pub open spec fn key_count(fields: Seq<(Seq<char>, Option<Seq<char>>)>, keys: Seq<Seq<char>>, present: int, absent: int) -> int
    decreases keys.len(),
{
    if keys.len() == 0 {
        0
    } else {
        key_count(fields, keys.drop_last(), present, absent) + if has_key(fields, keys.last()) {
            present
        } else {
            absent
        }
    }
}

pub open spec fn string_views(v: Seq<String>) -> Seq<Seq<char>> {
    v.map_values(|s: String| s@)
}

/// Score of a schema: +3 per required key present, -1 per required key
/// missing, +1 per optional key present.
pub open spec fn schema_score(fields: Seq<(Seq<char>, Option<Seq<char>>)>, s: ToolSchema) -> int {
    key_count(fields, string_views(s.required_keys@), 3, -1) + key_count(
        fields,
        string_views(s.optional_keys@),
        1,
        0,
    )
}

/// Best schema so far over `schemas[..k]`: (index, score, tie seen).
pub open spec fn best_schema(fields: Seq<(Seq<char>, Option<Seq<char>>)>, schemas: Seq<ToolSchema>, k: int) -> (Option<int>, int, bool)
    decreases k,
{
    if k <= 0 {
        (None, 0, false)
    } else {
        let (best, score, amb) = best_schema(fields, schemas, k - 1);
        let sc = schema_score(fields, schemas[k - 1]);
        if sc > score {
            (Some(k - 1), sc, false)
        } else if sc == score && sc > 0 {
            (best, score, true)
        } else {
            (best, score, amb)
        }
    }
}

/// First schema whose name equals `name`.
pub open spec fn schema_named(schemas: Seq<ToolSchema>, name: Seq<char>, k: int) -> Option<int>
    decreases schemas.len() - k,
{
    if k < 0 || k >= schemas.len() {
        None
    } else if schemas[k].name@ == name {
        Some(k)
    } else {
        schema_named(schemas, name, k + 1)
    }
}

pub open spec fn name_hint(fields: Seq<(Seq<char>, Option<Seq<char>>)>) -> Option<Seq<char>> {
    let v = match field_lookup(fields, "name"@, 0) {
        Some(v) => Some(v),
        None => field_lookup(fields, "tool"@, 0),
    };
    match v {
        Some(Some(s)) => Some(s),
        _ => None,
    }
}

/// The tool a parsed document is for: the schema named by its `name` field
/// (or, without one, its `tool` field); else the best-scoring schema,
/// unless a low score (under 3) is shared.
pub open spec fn detect_tool_spec(
    shape: Option<Seq<(Seq<char>, Option<Seq<char>>)>>,
    schemas: Seq<ToolSchema>,
) -> Option<Seq<char>> {
    match shape {
        None => None,
        Some(fields) => {
            let direct = match name_hint(fields) {
                Some(n) => schema_named(schemas, n, 0),
                None => None,
            };
            match direct {
                Some(i) => Some(schemas[i].name@),
                None => {
                    let (best, score, amb) = best_schema(fields, schemas, schemas.len() as int);
                    if amb && score < 3 {
                        None
                    } else {
                        match best {
                            Some(i) => Some(schemas[i].name@),
                            None => None,
                        }
                    }
                },
            }
        },
    }
}

proof fn lemma_schema_named_in_range(schemas: Seq<ToolSchema>, name: Seq<char>, k: int)
    ensures
        schema_named(schemas, name, k) matches Some(i) ==> 0 <= i < schemas.len() && schemas[i].name@ == name,
    decreases schemas.len() - k,
{
    if 0 <= k < schemas.len() && schemas[k].name@ != name {
        lemma_schema_named_in_range(schemas, name, k + 1);
    }
}

proof fn lemma_best_schema_in_range(fields: Seq<(Seq<char>, Option<Seq<char>>)>, schemas: Seq<ToolSchema>, k: int)
    requires
        k <= schemas.len(),
    ensures
        best_schema(fields, schemas, k).0 matches Some(i) ==> 0 <= i < k,
    decreases k,
{
    if k > 0 {
        lemma_best_schema_in_range(fields, schemas, k - 1);
    }
}

/// A detected tool is always one of the listed schemas.
pub proof fn lemma_detected_tool_is_listed(
    shape: Option<Seq<(Seq<char>, Option<Seq<char>>)>>,
    schemas: Seq<ToolSchema>,
)
    ensures
        detect_tool_spec(shape, schemas) matches Some(n) ==> exists|i: int|
            0 <= i < schemas.len() && #[trigger] schemas[i].name@ == n,
{
    if let Some(fields) = shape {
        if let Some(h) = name_hint(fields) {
            lemma_schema_named_in_range(schemas, h, 0);
        }
        lemma_best_schema_in_range(fields, schemas, schemas.len() as int);
    }
}

proof fn lemma_field_lookup_first(fields: Seq<(Seq<char>, Option<Seq<char>>)>, key: Seq<char>, j: int, k: int)
    requires
        0 <= j <= k < fields.len(),
        fields[k].0 == key,
        forall|m: int| j <= m < k ==> (#[trigger] fields[m]).0 != key,
    ensures
        field_lookup(fields, key, j) == Some(fields[k].1),
    decreases k - j,
{
    if j < k {
        lemma_field_lookup_first(fields, key, j + 1, k);
    }
}

proof fn lemma_field_lookup_absent(fields: Seq<(Seq<char>, Option<Seq<char>>)>, key: Seq<char>, j: int)
    requires
        0 <= j,
        forall|m: int| j <= m < fields.len() ==> (#[trigger] fields[m]).0 != key,
    ensures
        field_lookup(fields, key, j) is None,
    decreases fields.len() - j,
{
    if j < fields.len() {
        lemma_field_lookup_absent(fields, key, j + 1);
    }
}

proof fn lemma_schema_named_found(schemas: Seq<ToolSchema>, name: Seq<char>, k: int, i: int)
    requires
        0 <= k <= i < schemas.len(),
        schemas[i].name@ == name,
    ensures
        schema_named(schemas, name, k) is Some,
    decreases i - k,
{
    if schemas[k].name@ != name {
        lemma_schema_named_found(schemas, name, k + 1, i);
    }
}

/// The `name` field decides: when the first `name` field of a document is
/// a string naming a listed schema, that schema is the tool, whatever the
/// other fields say.
pub proof fn lemma_name_field_decides(
    fields: Seq<(Seq<char>, Option<Seq<char>>)>,
    schemas: Seq<ToolSchema>,
    k: int,
    i: int,
)
    requires
        0 <= k < fields.len(),
        fields[k] == ("name"@, Some(schemas[i].name@)),
        forall|m: int| 0 <= m < k ==> (#[trigger] fields[m]).0 != "name"@,
        0 <= i < schemas.len(),
    ensures
        detect_tool_spec(Some(fields), schemas) == Some(schemas[i].name@),
{
    let v = schemas[i].name@;
    lemma_field_lookup_first(fields, "name"@, 0, k);
    lemma_schema_named_found(schemas, v, 0, i);
    lemma_schema_named_in_range(schemas, v, 0);
}

/// Without a `name` field, the `tool` field decides in the same way.
pub proof fn lemma_tool_field_decides(
    fields: Seq<(Seq<char>, Option<Seq<char>>)>,
    schemas: Seq<ToolSchema>,
    k: int,
    i: int,
)
    requires
        0 <= k < fields.len(),
        fields[k] == ("tool"@, Some(schemas[i].name@)),
        forall|m: int| 0 <= m < k ==> (#[trigger] fields[m]).0 != "tool"@,
        forall|m: int| 0 <= m < fields.len() ==> (#[trigger] fields[m]).0 != "name"@,
        0 <= i < schemas.len(),
    ensures
        detect_tool_spec(Some(fields), schemas) == Some(schemas[i].name@),
{
    let v = schemas[i].name@;
    lemma_field_lookup_absent(fields, "name"@, 0);
    lemma_field_lookup_first(fields, "tool"@, 0, k);
    lemma_schema_named_found(schemas, v, 0, i);
    lemma_schema_named_in_range(schemas, v, 0);
}

/// Two field lists with the same keys in the same order.
pub open spec fn same_keys(a: Seq<(Seq<char>, Option<Seq<char>>)>, b: Seq<(Seq<char>, Option<Seq<char>>)>) -> bool {
    a.len() == b.len() && forall|k: int| 0 <= k < a.len() ==> (#[trigger] a[k]).0 == b[k].0
}

proof fn lemma_field_lookup_same(
    a: Seq<(Seq<char>, Option<Seq<char>>)>,
    b: Seq<(Seq<char>, Option<Seq<char>>)>,
    key: Seq<char>,
    j: int,
)
    requires
        0 <= j,
        same_keys(a, b),
        forall|k: int| 0 <= k < a.len() && (#[trigger] a[k]).0 == key ==> a[k].1 == b[k].1,
    ensures
        field_lookup(a, key, j) == field_lookup(b, key, j),
    decreases a.len() - j,
{
    if j < a.len() {
        assert(a[j].0 == b[j].0);
        lemma_field_lookup_same(a, b, key, j + 1);
    }
}

proof fn lemma_key_count_same(
    a: Seq<(Seq<char>, Option<Seq<char>>)>,
    b: Seq<(Seq<char>, Option<Seq<char>>)>,
    keys: Seq<Seq<char>>,
    present: int,
    absent: int,
)
    requires
        same_keys(a, b),
    ensures
        key_count(a, keys, present, absent) == key_count(b, keys, present, absent),
    decreases keys.len(),
{
    if keys.len() > 0 {
        lemma_key_count_same(a, b, keys.drop_last(), present, absent);
        let key = keys.last();
        if has_key(a, key) {
            let k = choose|k: int| 0 <= k < a.len() && a[k].0 == key;
            assert(b[k].0 == key);
        }
        if has_key(b, key) {
            let k = choose|k: int| 0 <= k < b.len() && b[k].0 == key;
            assert(a[k].0 == key);
        }
    }
}

proof fn lemma_best_schema_same(
    a: Seq<(Seq<char>, Option<Seq<char>>)>,
    b: Seq<(Seq<char>, Option<Seq<char>>)>,
    schemas: Seq<ToolSchema>,
    k: int,
)
    requires
        same_keys(a, b),
    ensures
        best_schema(a, schemas, k) == best_schema(b, schemas, k),
    decreases k,
{
    if k > 0 {
        lemma_best_schema_same(a, b, schemas, k - 1);
        let s = schemas[k - 1];
        lemma_key_count_same(a, b, string_views(s.required_keys@), 3, -1);
        lemma_key_count_same(a, b, string_views(s.optional_keys@), 1, 0);
    }
}

/// Once a document has a `name` field, the `tool` field and the values of
/// all other fields play no part: two documents with the same keys in the
/// same order and the same `name` values are matched to the same tool.
pub proof fn lemma_name_field_shadows_others(
    a: Seq<(Seq<char>, Option<Seq<char>>)>,
    b: Seq<(Seq<char>, Option<Seq<char>>)>,
    schemas: Seq<ToolSchema>,
)
    requires
        same_keys(a, b),
        forall|k: int| 0 <= k < a.len() && (#[trigger] a[k]).0 == "name"@ ==> a[k].1 == b[k].1,
        has_key(a, "name"@),
    ensures
        detect_tool_spec(Some(a), schemas) == detect_tool_spec(Some(b), schemas),
{
    lemma_field_lookup_same(a, b, "name"@, 0);
    let k = choose|k: int| 0 <= k < a.len() && a[k].0 == "name"@;
    if field_lookup(a, "name"@, 0) is None {
        lemma_field_lookup_present(a, "name"@, 0, k);
    }
    lemma_best_schema_same(a, b, schemas, schemas.len() as int);
}

proof fn lemma_field_lookup_present(fields: Seq<(Seq<char>, Option<Seq<char>>)>, key: Seq<char>, j: int, k: int)
    requires
        0 <= j <= k < fields.len(),
        fields[k].0 == key,
    ensures
        field_lookup(fields, key, j) is Some,
    decreases k - j,
{
    if j < k && fields[j].0 != key {
        lemma_field_lookup_present(fields, key, j + 1, k);
    }
}

pub fn strings_eq(a: &String, b: &String) -> (r: bool)
    ensures
        r == (a@ == b@),
{
    *a == *b
}

pub(crate) fn lookup_field(fields: &Vec<JsonField>, key: &String) -> (r: Option<Option<String>>)
    ensures
        match r {
            Some(Some(s)) => field_lookup(fields_view(fields@), key@, 0) == Some(Some(s@)),
            Some(None) => field_lookup(fields_view(fields@), key@, 0) == Some(None::<Seq<char>>),
            None => field_lookup(fields_view(fields@), key@, 0) is None,
        },
{
    let ghost fv = fields_view(fields@);
    let mut k: usize = 0;
    while k < fields.len()
        invariant
            0 <= k <= fields@.len(),
            fv == fields_view(fields@),
            field_lookup(fv, key@, k as int) == field_lookup(fv, key@, 0),
        decreases fields.len() - k,
    {
        if strings_eq(&fields[k].0, key) {
            return Some(fields[k].1.clone());
        }
        k = k + 1;
    }
    None
}

fn has_field(fields: &Vec<JsonField>, key: &String) -> (r: bool)
    ensures
        r == has_key(fields_view(fields@), key@),
{
    let ghost fv = fields_view(fields@);
    let mut k: usize = 0;
    while k < fields.len()
        invariant
            0 <= k <= fields@.len(),
            fv == fields_view(fields@),
            forall|j: int| 0 <= j < k ==> fv[j].0 != key@,
        decreases fields.len() - k,
    {
        if strings_eq(&fields[k].0, key) {
            assert(fv[k as int].0 == key@);
            return true;
        }
        k = k + 1;
    }
    false
}

fn count_keys(fields: &Vec<JsonField>, keys: &Vec<String>, present: i128, absent: i128) -> (r: i128)
    requires
        0 <= present <= 3,
        -1 <= absent <= 0,
    ensures
        r == key_count(fields_view(fields@), string_views(keys@), present as int, absent as int),
        -(keys@.len() as int) <= r <= 3 * keys@.len(),
        -(usize::MAX as int) <= r <= 3 * (usize::MAX as int),
{
    let key_total = keys.len();
    assert(keys@.len() == key_total);
    let mut total: i128 = 0;
    let mut k: usize = 0;
    while k < keys.len()
        invariant
            0 <= k <= keys@.len(),
            keys@.len() <= usize::MAX,
            0 <= present <= 3,
            -1 <= absent <= 0,
            total == key_count(fields_view(fields@), string_views(keys@.take(k as int)), present as int, absent as int),
            -(k as int) <= total <= 3 * k,
        decreases keys.len() - k,
    {
        proof {
            assert(string_views(keys@.take(k + 1)).drop_last() =~= string_views(keys@.take(k as int)));
            assert(string_views(keys@.take(k + 1)).last() == keys@[k as int]@);
        }
        if has_field(fields, &keys[k]) {
            total = total + present;
        } else {
            total = total + absent;
        }
        k = k + 1;
    }
    assert(keys@.take(keys@.len() as int) =~= keys@);
    total
}

/// Scores one schema against the fields.
fn score_schema(fields: &Vec<JsonField>, schema: &ToolSchema) -> (r: i128)
    ensures
        r == schema_score(fields_view(fields@), *schema),
{
    let a = count_keys(fields, &schema.required_keys, 3, -1);
    let b = count_keys(fields, &schema.optional_keys, 1, 0);
    a + b
}

/// Matches a parsed document (its top-level fields, `None` when it is not
/// an object) to a tool schema.
pub fn detect_tool(shape: &Option<Vec<JsonField>>, schemas: &Vec<ToolSchema>) -> (r: Option<String>)
    ensures
        match r {
            Some(name) => detect_tool_spec(
                match shape {
                    Some(fs) => Some(fields_view(fs@)),
                    None => None,
                },
                schemas@,
            ) == Some(name@),
            None => detect_tool_spec(
                match shape {
                    Some(fs) => Some(fields_view(fs@)),
                    None => None,
                },
                schemas@,
            ) is None,
        },
{
    let fields = match shape {
        Some(fs) => fs,
        None => return None,
    };
    let ghost fv = fields_view(fields@);
    assert((match shape {
        Some(fs) => Some(fields_view(fs@)),
        None => None,
    }) == Some(fv));
    let name_key = String::from_str("name");
    let tool_key = String::from_str("tool");
    let looked = match lookup_field(fields, &name_key) {
        Some(v) => Some(v),
        None => lookup_field(fields, &tool_key),
    };
    if let Some(Some(name_str)) = looked {
        let mut k: usize = 0;
        while k < schemas.len()
            invariant
                0 <= k <= schemas@.len(),
                name_hint(fv) == Some(name_str@),
                fv == fields_view(fields@),
                (match shape {
                    Some(fs) => Some(fields_view(fs@)),
                    None => None,
                }) == Some(fv),
                schema_named(schemas@, name_str@, k as int) == schema_named(schemas@, name_str@, 0),
            decreases schemas.len() - k,
        {
            if strings_eq(&schemas[k].name, &name_str) {
                let found = schemas[k].name.clone();
                assert(schema_named(schemas@, name_str@, k as int) == Some(k as int));
                assert(name_hint(fv) == Some(name_str@));
                assert(detect_tool_spec(Some(fv), schemas@) == Some(schemas@[k as int].name@));
                assert(found@ == schemas@[k as int].name@);
                assert(detect_tool_spec(
                    match shape {
                        Some(fs) => Some(fields_view(fs@)),
                        None => None,
                    },
                    schemas@,
                ) == Some(found@));
                return Some(found);
            }
            k = k + 1;
        }
    }
    let mut best: Option<usize> = None;
    let mut best_score: i128 = 0;
    let mut ambiguous = false;
    let mut k: usize = 0;
    while k < schemas.len()
        invariant
            0 <= k <= schemas@.len(),
            fv == fields_view(fields@),
            (match shape {
                Some(fs) => Some(fields_view(fs@)),
                None => None,
            }) == Some(fv),
            name_hint(fv) is Some ==> schema_named(schemas@, name_hint(fv)->0, 0) is None,
            best_schema(fv, schemas@, k as int) == (
                match best {
                    Some(i) => Some(i as int),
                    None => None::<int>,
                },
                best_score as int,
                ambiguous,
            ),
            best matches Some(i) ==> i < k,
        decreases schemas.len() - k,
    {
        let sc = score_schema(fields, &schemas[k]);
        if sc > best_score {
            best_score = sc;
            best = Some(k);
            ambiguous = false;
        } else if sc == best_score && sc > 0 {
            ambiguous = true;
        }
        k = k + 1;
    }
    if ambiguous && best_score < 3 {
        return None;
    }
    match best {
        Some(i) => Some(schemas[i].name.clone()),
        None => None,
    }
}

} // verus!
