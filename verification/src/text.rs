//! Character-level helpers shared by the parsers and the view models.
//!
//! Text is handled as `Vec<char>` inside the library; a `String` is only
//! built where a public result is one.
use vstd::prelude::*;

verus! {

// ---------------------------------------------------------------------------
// Unicode properties that std decides from its tables
// ---------------------------------------------------------------------------

/// The `White_Space` property of a char, which `char::is_whitespace`
/// reports: tab through carriage return, space, next line, no-break space,
/// the ogham space mark, the en quad through the hair space, the line and
/// paragraph separators, the narrow no-break space, the medium mathematical
/// space and the ideographic space.
pub open spec fn unicode_white_space(c: char) -> bool {
    let v = c as u32;
    ||| 0x9 <= v <= 0xD
    ||| v == 0x20
    ||| v == 0x85
    ||| v == 0xA0
    ||| v == 0x1680
    ||| 0x2000 <= v <= 0x200A
    ||| v == 0x2028
    ||| v == 0x2029
    ||| v == 0x202F
    ||| v == 0x205F
    ||| v == 0x3000
}

/// The `Alphabetic` property of a char, as std's tables give it.
pub uninterp spec fn unicode_alphabetic(c: char) -> bool;

/// `Alphabetic` or `Numeric`, as std's tables give it.
pub uninterp spec fn unicode_alphanumeric(c: char) -> bool;

/// Whether the char is whitespace, as `char::is_whitespace` answers.
pub fn is_whitespace(c: char) -> (r: bool)
    ensures
        r == unicode_white_space(c),
{
    let v = c as u32;
    (0x9 <= v && v <= 0xD) || v == 0x20 || v == 0x85 || v == 0xA0 || v == 0x1680 || (0x2000 <= v && v <= 0x200A)
        || v == 0x2028 || v == 0x2029 || v == 0x202F || v == 0x205F || v == 0x3000
}

/// Calls `char::is_alphabetic`; the answer is the char's `Alphabetic`
/// property, only named here.
#[verifier::external_body]
pub fn is_alphabetic(c: char) -> (r: bool)
    ensures
        r == unicode_alphabetic(c),
{
    c.is_alphabetic()
}

/// Calls `char::is_alphanumeric`; the answer is `Alphabetic` or `Numeric`,
/// only named here. std documents it as true for the ASCII letters and digits.
#[verifier::external_body]
pub fn is_alphanumeric(c: char) -> (r: bool)
    ensures
        r == unicode_alphanumeric(c),
        is_ascii_alnum_spec(c) ==> r,
{
    c.is_alphanumeric()
}

/// Calls `String::pop`: the last char is removed and returned, if any.
#[verifier::external_body]
pub fn string_pop(s: &mut String) -> (r: Option<char>)
    ensures
        old(s)@.len() == 0 ==> r is None && final(s)@ == old(s)@,
        old(s)@.len() > 0 ==> r == Some(old(s)@.last()) && final(s)@ == old(s)@.drop_last(),
{
    s.pop()
}

/// Calls `String::push`: the char is appended at the end.
#[verifier::external_body]
pub fn string_push(s: &mut String, c: char)
    ensures
        final(s)@ == old(s)@.push(c),
{
    s.push(c);
}

/// The full uppercase mapping of a char, as std's tables give it.
pub uninterp spec fn unicode_uppercase(c: char) -> Seq<char>;

/// Calls `char::to_uppercase` and collects the chars. The contract claims
/// the mapping (a table, so it is only named here), that it yields at least
/// one char, and what std's documentation and the Unicode data give for
/// ASCII: a lowercase letter maps to its capital, any other ASCII char to
/// itself.
#[verifier::external_body]
pub fn to_uppercase(c: char) -> (r: Vec<char>)
    ensures
        r@ == unicode_uppercase(c),
        r@.len() >= 1,
        'a' <= c <= 'z' ==> r@ == seq![((c as u32) - 32) as char],
        (c as u32) < 128 && !('a' <= c <= 'z') ==> r@ == seq![c],
{
    c.to_uppercase().collect()
}

// ---------------------------------------------------------------------------
// Classes whose definition is a few lines
// ---------------------------------------------------------------------------

pub open spec fn is_ascii_digit_spec(c: char) -> bool {
    '0' <= c && c <= '9'
}

pub open spec fn is_ascii_hexdigit_spec(c: char) -> bool {
    is_ascii_digit_spec(c) || ('a' <= c && c <= 'f') || ('A' <= c && c <= 'F')
}

pub open spec fn is_ascii_alnum_spec(c: char) -> bool {
    is_ascii_digit_spec(c) || ('a' <= c && c <= 'z') || ('A' <= c && c <= 'Z')
}

/// The `Cc` general category: U+0000..=U+001F and U+007F..=U+009F.
pub open spec fn is_control_spec(c: char) -> bool {
    (c as u32) <= 0x1f || (0x7f <= (c as u32) && (c as u32) <= 0x9f)
}

/// Number of bytes of the UTF-8 encoding of `c`.
pub open spec fn utf8_width_spec(c: char) -> nat {
    if (c as u32) < 0x80 {
        1
    } else if (c as u32) < 0x800 {
        2
    } else if (c as u32) < 0x10000 {
        3
    } else {
        4
    }
}

/// Number of bytes of the UTF-8 encoding of a whole text.
pub open spec fn utf8_len(s: Seq<char>) -> nat
    decreases s.len(),
{
    if s.len() == 0 {
        0
    } else {
        utf8_len(s.drop_last()) + utf8_width_spec(s.last())
    }
}

pub fn is_ascii_digit(c: char) -> (r: bool)
    ensures
        r == is_ascii_digit_spec(c),
{
    '0' <= c && c <= '9'
}

pub fn is_ascii_hexdigit(c: char) -> (r: bool)
    ensures
        r == is_ascii_hexdigit_spec(c),
{
    ('0' <= c && c <= '9') || ('a' <= c && c <= 'f') || ('A' <= c && c <= 'F')
}

pub fn is_control(c: char) -> (r: bool)
    ensures
        r == is_control_spec(c),
{
    let v = c as u32;
    v <= 0x1f || (0x7f <= v && v <= 0x9f)
}

pub fn utf8_width(c: char) -> (r: usize)
    ensures
        r == utf8_width_spec(c),
        1 <= r <= 4,
{
    let v = c as u32;
    if v < 0x80 {
        1
    } else if v < 0x800 {
        2
    } else if v < 0x10000 {
        3
    } else {
        4
    }
}

pub proof fn lemma_utf8_len_push(s: Seq<char>, c: char)
    ensures
        utf8_len(s.push(c)) == utf8_len(s) + utf8_width_spec(c),
{
    assert(s.push(c).drop_last() =~= s);
}

pub proof fn lemma_utf8_len_single(c: char)
    ensures
        utf8_len(seq![c]) == utf8_width_spec(c),
{
    let s = seq![c];
    assert(s.drop_last() =~= Seq::<char>::empty());
    assert(utf8_len(Seq::<char>::empty()) == 0);
    assert(s.last() == c);
}

pub proof fn lemma_utf8_len_concat(a: Seq<char>, b: Seq<char>)
    ensures
        utf8_len(a + b) == utf8_len(a) + utf8_len(b),
    decreases b.len(),
{
    if b.len() == 0 {
        assert(a + b =~= a);
    } else {
        lemma_utf8_len_concat(a, b.drop_last());
        assert((a + b).drop_last() =~= a + b.drop_last());
    }
}

pub proof fn lemma_utf8_len_bounds(s: Seq<char>)
    ensures
        s.len() <= utf8_len(s) <= 4 * s.len(),
    decreases s.len(),
{
    if s.len() > 0 {
        lemma_utf8_len_bounds(s.drop_last());
    }
}

// ---------------------------------------------------------------------------
// Conversions
// ---------------------------------------------------------------------------

pub fn chars_of(s: &str) -> (r: Vec<char>)
    ensures
        r@ == s@,
{
    let mut out: Vec<char> = Vec::new();
    proof {
        broadcast use vstd::string::group_string_axioms;
    }
    for c in it: s.chars()
        invariant
            out@ == it.seq().take(it.index() as int),
    {
        out.push(c);
    }
    proof {
        broadcast use vstd::string::group_string_axioms;
    }
    assert(out@ =~= s@);
    out
}

pub fn string_from_chars(v: &[char]) -> (r: String)
    ensures
        r@ == v@,
{
    let mut out = String::new();
    let mut i: usize = 0;
    while i < v.len()
        invariant
            0 <= i <= v.len(),
            out@ == v@.take(i as int),
        decreases v.len() - i,
    {
        string_push(&mut out, v[i]);
        i = i + 1;
        assert(out@ =~= v@.take(i as int));
    }
    assert(v@.take(v@.len() as int) =~= v@);
    out
}

/// Appends every char of `src` to `dst`.
pub fn push_all(dst: &mut Vec<char>, src: &[char])
    ensures
        final(dst)@ == old(dst)@ + src@,
{
    let mut i: usize = 0;
    while i < src.len()
        invariant
            0 <= i <= src.len(),
            dst@ == old(dst)@ + src@.take(i as int),
        decreases src.len() - i,
    {
        dst.push(src[i]);
        i = i + 1;
        assert(dst@ =~= old(dst)@ + src@.take(i as int));
    }
    assert(src@.take(src@.len() as int) =~= src@);
}

/// The chars of `v` from `start` (inclusive) to `end` (exclusive).
pub fn slice_chars(v: &[char], start: usize, end: usize) -> (r: Vec<char>)
    requires
        start <= end <= v@.len(),
    ensures
        r@ == v@.subrange(start as int, end as int),
{
    let mut out: Vec<char> = Vec::new();
    let mut i: usize = start;
    while i < end
        invariant
            start <= i <= end <= v@.len(),
            out@ == v@.subrange(start as int, i as int),
        decreases end - i,
    {
        out.push(v[i]);
        i = i + 1;
        assert(out@ =~= v@.subrange(start as int, i as int));
    }
    out
}

// ---------------------------------------------------------------------------
// Prefix tests
// ---------------------------------------------------------------------------

pub fn chars_eq(a: &[char], b: &[char]) -> (r: bool)
    ensures
        r == (a@ == b@),
{
    if a.len() != b.len() {
        return false;
    }
    let mut k: usize = 0;
    while k < a.len()
        invariant
            a@.len() == b@.len(),
            0 <= k <= a@.len(),
            forall|j: int| 0 <= j < k ==> a@[j] == b@[j],
        decreases a.len() - k,
    {
        if a[k] != b[k] {
            return false;
        }
        k = k + 1;
    }
    assert(a@ =~= b@);
    true
}

/// Does `pat` occur in `s` at position `i`?
pub open spec fn matches_at(s: Seq<char>, i: int, pat: Seq<char>) -> bool {
    0 <= i && i + pat.len() <= s.len() && s.subrange(i, i + pat.len()) == pat
}

pub fn starts_with_at(s: &[char], i: usize, pat: &[char]) -> (r: bool)
    ensures
        r == matches_at(s@, i as int, pat@),
{
    if i > s.len() || pat.len() > s.len() - i {
        return false;
    }
    let n = s.len();
    let mut k: usize = 0;
    while k < pat.len()
        invariant
            n == s@.len(),
            i + pat@.len() <= n,
            0 <= k <= pat@.len(),
            forall|j: int| 0 <= j < k ==> s@[i + j] == pat@[j],
        decreases pat.len() - k,
    {
        if s[i + k] != pat[k] {
            assert(s@.subrange(i as int, i + pat@.len())[k as int] != pat@[k as int]);
            return false;
        }
        k = k + 1;
    }
    assert(s@.subrange(i as int, i + pat@.len()) =~= pat@);
    true
}


// ---------------------------------------------------------------------------
// Hexadecimal and decimal digits
// ---------------------------------------------------------------------------

pub open spec fn hex_val_spec(c: char) -> nat {
    if '0' <= c && c <= '9' {
        (c as u32 - '0' as u32) as nat
    } else if 'a' <= c && c <= 'f' {
        (c as u32 - 'a' as u32 + 10) as nat
    } else if 'A' <= c && c <= 'F' {
        (c as u32 - 'A' as u32 + 10) as nat
    } else {
        0
    }
}

pub fn hex_val(c: char) -> (r: u32)
    ensures
        r == hex_val_spec(c),
        r < 16,
{
    if '0' <= c && c <= '9' {
        c as u32 - '0' as u32
    } else if 'a' <= c && c <= 'f' {
        c as u32 - 'a' as u32 + 10
    } else if 'A' <= c && c <= 'F' {
        c as u32 - 'A' as u32 + 10
    } else {
        0
    }
}

/// Lower-case hexadecimal digit for `n < 16`.
pub open spec fn hex_digit_lower(n: nat) -> char {
    if n < 10 {
        ((48 + n) as u8) as char
    } else {
        ((87 + n) as u8) as char
    }
}

pub fn hex_digit(n: u32) -> (r: char)
    requires
        n < 16,
    ensures
        r == hex_digit_lower(n as nat),
{
    if n < 10 {
        ((48 + n) as u8) as char
    } else {
        ((87 + n) as u8) as char
    }
}

/// Decimal digit for `n < 10`.
pub open spec fn decimal_digit(n: nat) -> char {
    ((48 + n) as u8) as char
}

/// Decimal representation of a natural number, without leading zeros.
pub open spec fn decimal(n: nat) -> Seq<char>
    decreases n,
{
    if n < 10 {
        seq![decimal_digit(n)]
    } else {
        decimal(n / 10).push(decimal_digit(n % 10))
    }
}

/// `n.to_string()` for an unsigned integer, as chars.
pub fn u64_decimal(n: u64) -> (r: Vec<char>)
    ensures
        r@ == decimal(n as nat),
{
    let mut digits: Vec<char> = Vec::new();
    let mut m = n;
    // digits collected least significant first
    while m >= 10
        invariant
            decimal(n as nat) == decimal(m as nat) + digits@.reverse(),
        decreases m,
    {
        let d = (m % 10) as u8;
        proof {
            assert(decimal(m as nat) == decimal((m / 10) as nat).push(decimal_digit((m % 10) as nat)));
            assert(decimal((m / 10) as nat).push(decimal_digit((m % 10) as nat)) + digits@.reverse()
                =~= decimal((m / 10) as nat) + digits@.push(decimal_digit((m % 10) as nat)).reverse());
        }
        digits.push(((48 + d) as u8) as char);
        m = m / 10;
    }
    let d = m as u8;
    digits.push(((48 + d) as u8) as char);
    assert(decimal(m as nat) == seq![decimal_digit(m as nat)]);
    let mut out: Vec<char> = Vec::new();
    let mut k = digits.len();
    assert(digits@.reverse() =~= seq![decimal_digit(m as nat)] + digits@.drop_last().reverse());
    while k > 0
        invariant
            0 <= k <= digits@.len(),
            out@ + digits@.take(k as int).reverse() == digits@.reverse(),
        decreases k,
    {
        proof {
            assert(digits@.take(k as int).reverse() =~= seq![digits@[k - 1]] + digits@.take(k - 1).reverse());
        }
        out.push(digits[k - 1]);
        k = k - 1;
        assert(out@ + digits@.take(k as int).reverse() =~= digits@.reverse());
    }
    assert(digits@.take(0).reverse() =~= Seq::<char>::empty());
    assert(out@ =~= decimal(n as nat));
    out
}

/// The UTF-8 length of a prefix grows with every char.
pub proof fn lemma_utf8_take_increasing(s: Seq<char>, a: int, b: int)
    requires
        0 <= a < b <= s.len(),
    ensures
        utf8_len(s.take(a)) < utf8_len(s.take(b)),
{
    assert(s.take(b) =~= s.take(a) + s.subrange(a, b));
    lemma_utf8_len_concat(s.take(a), s.subrange(a, b));
    lemma_utf8_len_bounds(s.subrange(a, b));
}

/// Whether a char ends exactly `b` bytes into the text's UTF-8 form.
pub open spec fn is_byte_boundary(s: Seq<char>, b: int) -> bool {
    exists|c: int| 0 <= c <= s.len() && #[trigger] utf8_len(s.take(c)) == b
}

/// The number of chars that make up the first `b` bytes of the text's
/// UTF-8 form, when a char ends there.
pub fn chars_in_bytes(s: &[char], b: u128) -> (r: Option<usize>)
    ensures
        match r {
            Some(c) => c <= s@.len() && utf8_len(s@.take(c as int)) == b,
            None => !is_byte_boundary(s@, b as int),
        },
{
    let mut k: usize = 0;
    let mut total: u128 = 0;
    assert(s@.take(0) =~= Seq::<char>::empty());
    while k < s.len() && total < b
        invariant
            0 <= k <= s@.len(),
            total == utf8_len(s@.take(k as int)),
            total <= b,
            forall|c: int| 0 <= c < k ==> #[trigger] utf8_len(s@.take(c)) < b,
        decreases s.len() - k,
    {
        proof {
            lemma_utf8_len_push(s@.take(k as int), s@[k as int]);
            assert(s@.take(k as int).push(s@[k as int]) =~= s@.take(k + 1));
        }
        let w = utf8_width(s[k]);
        if (w as u128) > b - total {
            proof {
                assert forall|c: int| 0 <= c <= s@.len() implies #[trigger] utf8_len(s@.take(c)) != b by {
                    if c > k {
                        if c > k + 1 {
                            lemma_utf8_take_increasing(s@, k + 1, c);
                        }
                    }
                }
            }
            return None;
        }
        total = total + w as u128;
        k = k + 1;
    }
    if total == b {
        Some(k)
    } else {
        proof {
            assert forall|c: int| 0 <= c <= s@.len() implies #[trigger] utf8_len(s@.take(c)) != b by {
                if c > k {
                    lemma_utf8_take_increasing(s@, k as int, c);
                }
            }
        }
        None
    }
}

/// A signed integer in decimal, with `-` before a negative one.
pub open spec fn signed_decimal(n: int) -> Seq<char> {
    if n < 0 {
        seq!['-'] + decimal((-n) as nat)
    } else {
        decimal(n as nat)
    }
}

/// `n.to_string()` for a signed integer, as chars.
pub fn i64_decimal(n: i64) -> (r: Vec<char>)
    ensures
        r@ == signed_decimal(n as int),
{
    if n < 0 {
        let magnitude: u64 = ((-(n + 1)) as u64) + 1;
        let mut out: Vec<char> = Vec::new();
        out.push('-');
        push_all(&mut out, &u64_decimal(magnitude));
        out
    } else {
        u64_decimal(n as u64)
    }
}

// ---------------------------------------------------------------------------
// Lines
// ---------------------------------------------------------------------------

/// Index of the first `c` in `s`, or `s.len()` when there is none.
pub open spec fn find_char(s: Seq<char>, c: char) -> nat
    decreases s.len(),
{
    if s.len() == 0 {
        0
    } else if s[0] == c {
        0
    } else {
        1 + find_char(s.skip(1), c)
    }
}

/// The first `c` is at `m` when none comes before it.
pub proof fn lemma_find_char(s: Seq<char>, c: char, m: int)
    requires
        0 <= m <= s.len(),
        m < s.len() ==> s[m] == c,
        forall|i: int| 0 <= i < m ==> s[i] != c,
    ensures
        find_char(s, c) == m,
    decreases m,
{
    if s.len() == 0 {
    } else if m == 0 {
    } else {
        lemma_find_char(s.skip(1), c, m - 1);
    }
}

/// A line without the `\r` of a `\r\n` ending.
pub open spec fn strip_cr(l: Seq<char>) -> Seq<char> {
    if l.len() > 0 && l.last() == '\r' {
        l.drop_last()
    } else {
        l
    }
}

/// `str::lines`: the text split at each `\n`, a `\r` before the `\n`
/// dropped; a final line ending gives no empty line, and a lone `\r` at
/// the very end stays.
pub open spec fn lines_of(s: Seq<char>) -> Seq<Seq<char>>
    decreases s.len(),
{
    if s.len() == 0 {
        Seq::empty()
    } else {
        let i = find_char(s, '\n');
        if i < s.len() {
            seq![strip_cr(s.take(i as int))] + lines_of(s.skip(i + 1int))
        } else {
            seq![s]
        }
    }
}

pub open spec fn lines_view(v: Seq<Vec<char>>) -> Seq<Seq<char>> {
    v.map_values(|l: Vec<char>| l@)
}

/// The lines of `s`, as `str::lines` gives them.
pub fn split_lines(s: &[char]) -> (r: Vec<Vec<char>>)
    ensures
        lines_view(r@) == lines_of(s@),
{
    let mut out: Vec<Vec<char>> = Vec::new();
    let mut pos: usize = 0;
    assert(s@.skip(0) =~= s@);
    while pos < s.len()
        invariant
            0 <= pos <= s@.len(),
            lines_of(s@) == lines_view(out@) + lines_of(s@.skip(pos as int)),
        decreases s.len() - pos,
    {
        let mut j: usize = pos;
        while j < s.len() && s[j] != '\n'
            invariant
                pos <= j <= s@.len(),
                forall|i: int| pos <= i < j ==> s@[i] != '\n',
            decreases s.len() - j,
        {
            j = j + 1;
        }
        let ghost rest = s@.skip(pos as int);
        proof {
            lemma_find_char(rest, '\n', j - pos);
        }
        let ghost before = out@;
        if j < s.len() {
            let end = if j > pos && s[j - 1] == '\r' { j - 1 } else { j };
            let line = slice_chars(s, pos, end);
            out.push(line);
            proof {
                assert(rest.take(j - pos) =~= s@.subrange(pos as int, j as int));
                assert(line@ =~= strip_cr(rest.take(j - pos)));
                assert(rest.skip(j - pos + 1) =~= s@.skip(j + 1));
                assert(lines_view(out@) =~= lines_view(before).push(line@));
                assert(lines_of(rest) == seq![strip_cr(rest.take(j - pos))] + lines_of(rest.skip(j - pos + 1)));
                assert(lines_view(out@) + lines_of(s@.skip(j + 1)) =~= lines_view(before) + lines_of(rest));
            }
            pos = j + 1;
        } else {
            let line = slice_chars(s, pos, j);
            out.push(line);
            proof {
                assert(line@ =~= rest);
                assert(lines_view(out@) =~= lines_view(before).push(line@));
                assert(s@.skip(j as int) =~= Seq::<char>::empty());
                assert(lines_of(s@.skip(j as int)) =~= Seq::<Seq<char>>::empty());
                assert(lines_view(out@) + lines_of(s@.skip(j as int)) =~= lines_view(before) + lines_of(rest));
            }
            pos = j;
        }
    }
    proof {
        assert(s@.skip(pos as int) =~= Seq::<char>::empty());
        assert(lines_of(s@.skip(pos as int)) =~= Seq::<Seq<char>>::empty());
        assert(lines_view(out@) + Seq::<Seq<char>>::empty() =~= lines_view(out@));
    }
    out
}

// ---------------------------------------------------------------------------
// Parsing unsigned integers
// ---------------------------------------------------------------------------

pub open spec fn all_ascii_digits(s: Seq<char>) -> bool {
    forall|i: int| 0 <= i < s.len() ==> is_ascii_digit_spec(#[trigger] s[i])
}

/// The number that a string of decimal digits spells.
pub open spec fn digits_value(s: Seq<char>) -> nat
    decreases s.len(),
{
    if s.len() == 0 {
        0
    } else {
        digits_value(s.drop_last()) * 10 + ((s.last() as u32 - '0' as u32) as nat)
    }
}

/// `str::parse::<usize>`: an optional `+`, then one or more decimal
/// digits whose value fits in `usize`.
pub open spec fn parse_usize_spec(s: Seq<char>) -> Option<usize> {
    let d = if s.len() > 0 && s[0] == '+' { s.skip(1) } else { s };
    if d.len() > 0 && all_ascii_digits(d) && digits_value(d) <= usize::MAX {
        Some(digits_value(d) as usize)
    } else {
        None
    }
}

/// A longer run of digits spells at least as much.
pub proof fn lemma_digits_value_prefix(s: Seq<char>, k: int)
    requires
        0 <= k <= s.len(),
        all_ascii_digits(s),
    ensures
        digits_value(s.take(k)) <= digits_value(s),
    decreases s.len() - k,
{
    if k < s.len() {
        lemma_digits_value_prefix(s, k + 1);
        assert(s.take(k + 1).drop_last() =~= s.take(k));
        assert(is_ascii_digit_spec(s[k]));
    }
    assert(s.take(s.len() as int) =~= s);
}

pub fn parse_usize(s: &[char]) -> (r: Option<usize>)
    ensures
        r == parse_usize_spec(s@),
{
    let start: usize = if s.len() > 0 && s[0] == '+' { 1 } else { 0 };
    let ghost d = if s@.len() > 0 && s@[0] == '+' { s@.skip(1) } else { s@ };
    assert(d =~= s@.skip(start as int));
    if start >= s.len() {
        return None;
    }
    let mut value: usize = 0;
    let mut i: usize = start;
    while i < s.len()
        invariant
            start <= i <= s@.len(),
            d =~= s@.skip(start as int),
            d == (if s@.len() > 0 && s@[0] == '+' { s@.skip(1) } else { s@ }),
            all_ascii_digits(d.take(i - start)),
            value as nat == digits_value(d.take(i - start)),
        decreases s.len() - i,
    {
        let c = s[i];
        if !is_ascii_digit(c) {
            assert(!is_ascii_digit_spec(d[(i - start) as int]));
            return None;
        }
        let digit = (c as u32 - '0' as u32) as usize;
        proof {
            assert(d.take(i - start + 1).drop_last() =~= d.take(i - start));
            assert(d.take(i - start + 1).last() == c);
            assert(all_ascii_digits(d.take(i - start + 1)));
            assert(digits_value(d.take(i - start + 1)) == value * 10 + digit);
        }
        let next = match value.checked_mul(10) {
            Some(v) => v.checked_add(digit),
            None => None,
        };
        match next {
            Some(v) => {
                value = v;
            },
            None => {
                proof {
                    if all_ascii_digits(d) {
                        lemma_digits_value_prefix(d, i - start + 1);
                    }
                }
                return None;
            },
        }
        i = i + 1;
    }
    assert(d.take(i - start) =~= d);
    Some(value)
}

// ---------------------------------------------------------------------------
// Splitting at a char
// ---------------------------------------------------------------------------

/// `str::split(c)`: the pieces between the `c`s, empty ones included.
pub open spec fn split_char(s: Seq<char>, c: char) -> Seq<Seq<char>>
    decreases s.len(),
{
    let i = find_char(s, c);
    if i < s.len() {
        seq![s.take(i as int)] + split_char(s.skip(i + 1int), c)
    } else {
        seq![s]
    }
}

/// The pieces of `s` between the `c`s, as `str::split` gives them.
pub fn split_on_char(s: &[char], c: char) -> (r: Vec<Vec<char>>)
    ensures
        lines_view(r@) == split_char(s@, c),
{
    let mut out: Vec<Vec<char>> = Vec::new();
    let mut pos: usize = 0;
    assert(s@.skip(0) =~= s@);
    loop
        invariant
            0 <= pos <= s@.len(),
            split_char(s@, c) == lines_view(out@) + split_char(s@.skip(pos as int), c),
        decreases s.len() - pos,
    {
        let mut j: usize = pos;
        while j < s.len() && s[j] != c
            invariant
                pos <= j <= s@.len(),
                forall|i: int| pos <= i < j ==> s@[i] != c,
            decreases s.len() - j,
        {
            j = j + 1;
        }
        let ghost rest = s@.skip(pos as int);
        proof {
            lemma_find_char(rest, c, j - pos);
        }
        let ghost before = out@;
        let piece = slice_chars(s, pos, j);
        out.push(piece);
        proof {
            assert(lines_view(out@) =~= lines_view(before).push(piece@));
            assert(rest.take(j - pos) =~= piece@);
        }
        if j < s.len() {
            proof {
                assert(rest.skip(j - pos + 1) =~= s@.skip(j + 1));
                assert(lines_view(out@) + split_char(s@.skip(j + 1), c) =~= lines_view(before) + split_char(rest, c));
            }
            pos = j + 1;
        } else {
            proof {
                assert(piece@ =~= rest);
                assert(lines_view(out@) =~= lines_view(before) + split_char(rest, c));
            }
            return out;
        }
    }
}

// ---------------------------------------------------------------------------
// Lowercase and lexicographic order
// ---------------------------------------------------------------------------

/// The lowercase of a text, as std's tables and rules give it.
pub uninterp spec fn unicode_lowercase(s: Seq<char>) -> Seq<char>;

/// Calls `str::to_lowercase`. The contract only names the result: the
/// mapping takes std's tables and its rule for a final sigma.
#[verifier::external_body]
pub fn to_lowercase(s: &str) -> (r: String)
    ensures
        r@ == unicode_lowercase(s@),
{
    s.to_lowercase()
}

/// Lexicographic order of texts by code point (the order of `str`, whose
/// UTF-8 bytes sort as their code points do).
pub open spec fn seq_lt(a: Seq<char>, b: Seq<char>) -> bool
    decreases a.len(),
{
    if a.len() == 0 {
        b.len() > 0
    } else if b.len() == 0 {
        false
    } else if a[0] < b[0] {
        true
    } else if a[0] == b[0] {
        seq_lt(a.skip(1), b.skip(1))
    } else {
        false
    }
}

/// Exactly one of `a < b`, `a == b`, `b < a`.
pub proof fn lemma_seq_lt_trichotomy(a: Seq<char>, b: Seq<char>)
    ensures
        a != b ==> (seq_lt(a, b) || seq_lt(b, a)),
        !(seq_lt(a, b) && seq_lt(b, a)),
        !seq_lt(a, a),
    decreases a.len(),
{
    if a.len() == 0 && b.len() == 0 {
        assert(a =~= b);
    }
    if a.len() > 0 && b.len() > 0 && a[0] == b[0] {
        lemma_seq_lt_trichotomy(a.skip(1), b.skip(1));
        if a != b {
            assert(a.skip(1) != b.skip(1)) by {
                if a.skip(1) == b.skip(1) {
                    assert(a =~= seq![a[0]] + a.skip(1));
                    assert(b =~= seq![b[0]] + b.skip(1));
                    assert(a =~= b);
                }
            }
        }
    }
    if a.len() > 0 {
        lemma_seq_lt_trichotomy(a.skip(1), a.skip(1));
    }
}

pub proof fn lemma_seq_lt_transitive(a: Seq<char>, b: Seq<char>, c: Seq<char>)
    requires
        seq_lt(a, b),
        seq_lt(b, c),
    ensures
        seq_lt(a, c),
    decreases a.len(),
{
    if a.len() > 0 && b.len() > 0 && c.len() > 0 && a[0] == b[0] && b[0] == c[0] {
        lemma_seq_lt_transitive(a.skip(1), b.skip(1), c.skip(1));
    }
}

/// Compares two texts lexicographically: -1, 0 or 1.
pub fn compare_chars(a: &[char], b: &[char]) -> (r: i8)
    ensures
        r == -1 <==> seq_lt(a@, b@),
        r == 0 <==> a@ == b@,
        r == 1 <==> seq_lt(b@, a@),
        r == -1 || r == 0 || r == 1,
{
    proof {
        lemma_seq_lt_trichotomy(a@, b@);
    }
    let mut k: usize = 0;
    assert(a@.skip(0) =~= a@);
    assert(b@.skip(0) =~= b@);
    while k < a.len() && k < b.len()
        invariant
            0 <= k <= a@.len(),
            k <= b@.len(),
            a@.take(k as int) == b@.take(k as int),
            seq_lt(a@, b@) == seq_lt(a@.skip(k as int), b@.skip(k as int)),
            seq_lt(b@, a@) == seq_lt(b@.skip(k as int), a@.skip(k as int)),
        decreases a.len() - k,
    {
        let x = a[k];
        let y = b[k];
        proof {
            assert(a@.skip(k as int)[0] == x);
            assert(b@.skip(k as int)[0] == y);
            assert(a@.skip(k as int).skip(1) =~= a@.skip(k + 1));
            assert(b@.skip(k as int).skip(1) =~= b@.skip(k + 1));
        }
        if x < y {
            return -1;
        }
        if y < x {
            return 1;
        }
        proof {
            assert(a@.take(k + 1) =~= a@.take(k as int).push(x));
            assert(b@.take(k + 1) =~= b@.take(k as int).push(y));
        }
        k = k + 1;
    }
    if a.len() == b.len() {
        assert(a@ =~= a@.take(k as int));
        assert(b@ =~= b@.take(k as int));
        return 0;
    }
    proof {
        if k == a@.len() {
            assert(a@.skip(k as int).len() == 0);
            assert(b@ != a@) by {
                assert(b@.len() != a@.len());
            }
        } else {
            assert(b@.skip(k as int).len() == 0);
        }
    }
    if k == a.len() { -1 } else { 1 }
}

/// Whether a text is all whitespace: trimmed, it is empty.
pub open spec fn blank(s: Seq<char>) -> bool {
    forall|i: int| 0 <= i < s.len() ==> unicode_white_space(#[trigger] s[i])
}

/// Whether a text is all whitespace: `s.trim().is_empty()`.
pub fn is_blank(s: &str) -> (r: bool)
    ensures
        r == blank(s@),
{
    let cs = chars_of(s);
    let mut i: usize = 0;
    while i < cs.len()
        invariant
            cs@ == s@,
            i <= cs@.len(),
            forall|j: int| 0 <= j < i ==> unicode_white_space(#[trigger] s@[j]),
        decreases cs@.len() - i,
    {
        if !is_whitespace(cs[i]) {
            return false;
        }
        i += 1;
    }
    true
}

/// The parts joined with the separator.
pub open spec fn joined(parts: Seq<Seq<char>>, sep: Seq<char>) -> Seq<char>
    decreases parts.len(),
{
    if parts.len() == 0 {
        Seq::empty()
    } else if parts.len() == 1 {
        parts[0]
    } else {
        joined(parts.drop_last(), sep) + sep + parts.last()
    }
}

} // verus!
