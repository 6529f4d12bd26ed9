//! Small decisions of the session view's rendering: memo keys, message
//! gaps, number formatting.
use vstd::prelude::*;
use vstd::std_specs::hash::DefaultHasherAdditionalSpecFns;
use std::collections::hash_map::DefaultHasher;
use std::hash::Hasher;
use crate::text::{chars_of, decimal, string_from_chars, u64_decimal};

verus! {

/// The first `n` bytes of a number, least significant first.
pub open spec fn le_bytes(v: nat, n: nat) -> Seq<u8>
    decreases n,
{
    if n == 0 {
        Seq::empty()
    } else {
        seq![(v % 256) as u8] + le_bytes(v / 256, (n - 1) as nat)
    }
}

/// The eight bytes of a number, least significant first.
fn eight_bytes(v: u64) -> (r: Vec<u8>)
    ensures
        r@ == le_bytes(v as nat, 8),
{
    let mut out: Vec<u8> = Vec::new();
    let mut x = v;
    let mut k: usize = 0;
    while k < 8
        invariant
            k <= 8,
            out@ + le_bytes(x as nat, (8 - k) as nat) == le_bytes(v as nat, 8),
        decreases 8 - k,
    {
        let ghost before = out@;
        out.push((x % 256) as u8);
        proof {
            assert(le_bytes(x as nat, (8 - k) as nat) == seq![(x % 256) as u8] + le_bytes(
                (x / 256) as nat,
                (8 - k - 1) as nat,
            ));
            assert(out@ + le_bytes((x / 256) as nat, (8 - k - 1) as nat) =~= before + le_bytes(
                x as nat,
                (8 - k) as nat,
            ));
        }
        x = x / 256;
        k = k + 1;
    }
    assert(out@ =~= out@ + le_bytes(x as nat, 0));
    out
}

/// What the viewport's memo key hashes: the render model's key, the
/// scroll offset and the viewport height, each as eight bytes, least
/// significant first, in that order.
pub open spec fn viewport_memo_words(render_model_memo_key: u64, scroll_offset: usize, viewport_height: usize) -> Seq<
    Seq<u8>,
> {
    seq![
        le_bytes(render_model_memo_key as nat, 8),
        le_bytes(scroll_offset as nat, 8),
        le_bytes(viewport_height as nat, 8),
    ]
}

/// The memo key of the viewport's visible content: std's default hasher,
/// fresh, fed the render model's key, the scroll offset and the viewport
/// height, then finished.
pub fn build_session_viewport_content_memo_key(
    render_model_memo_key: u64,
    scroll_offset: usize,
    viewport_height: usize,
) -> (r: u64)
    ensures
        r == DefaultHasher::spec_finish(viewport_memo_words(render_model_memo_key, scroll_offset, viewport_height)),
{
    let mut hasher = DefaultHasher::new();
    let a = eight_bytes(render_model_memo_key);
    hasher.write(a.as_slice());
    let b = eight_bytes(scroll_offset as u64);
    hasher.write(b.as_slice());
    let c = eight_bytes(viewport_height as u64);
    hasher.write(c.as_slice());
    proof {
        assert(hasher@ =~= viewport_memo_words(render_model_memo_key, scroll_offset, viewport_height));
    }
    hasher.finish()
}

// ---------------------------------------------------------------------------
// The rendered lines, in chunks
// ---------------------------------------------------------------------------

/// A run of rendered lines and where it stands in the whole.
#[derive(Clone, Debug)]
pub struct SessionRenderChunk<L> {
    pub start_line: usize,
    pub end_line: usize,
    pub lines: Vec<L>,
}

/// The part of a chunk inside the viewport.
#[derive(Clone, Copy, Debug, PartialEq, Eq, Structural)]
pub struct VisibleChunkRange {
    pub chunk_index: usize,
    pub start_in_chunk: usize,
    pub end_in_chunk: usize,
}

pub open spec fn sat_add(a: usize, b: usize) -> usize {
    if a + b <= usize::MAX { (a + b) as usize } else { usize::MAX }
}

pub open spec fn sat_sub(a: usize, b: usize) -> usize {
    if a >= b { (a - b) as usize } else { 0 }
}

/// Chunks that follow one another: each starts where the one before ended
/// and spans its lines (the end kept within `usize`).
pub open spec fn chunks_contiguous<L>(chunks: Seq<SessionRenderChunk<L>>) -> bool {
    &&& forall|i: int| 0 <= i < chunks.len() ==> #[trigger] chunks[i].end_line == sat_add(
        chunks[i].start_line,
        chunks[i].lines@.len() as usize,
    )
    &&& forall|i: int| 0 < i < chunks.len() ==> #[trigger] chunks[i].start_line == chunks[i - 1].end_line
    &&& chunks.len() > 0 ==> chunks[0].start_line == 0
}

/// The first chunk that ends after `offset`, counting from `k`.
pub open spec fn first_ending_after<L>(chunks: Seq<SessionRenderChunk<L>>, offset: usize, k: int) -> int
    decreases chunks.len() - k,
{
    if k < 0 || k >= chunks.len() || chunks[k].end_line > offset {
        k
    } else {
        first_ending_after(chunks, offset, k + 1)
    }
}

/// The visible parts of chunks `k` onwards, up to the viewport's end.
pub open spec fn visible_from<L>(chunks: Seq<SessionRenderChunk<L>>, k: int, offset: usize, end_offset: usize) -> Seq<VisibleChunkRange>
    decreases chunks.len() - k,
{
    if k < 0 || k >= chunks.len() || chunks[k].start_line >= end_offset {
        Seq::empty()
    } else {
        let c = chunks[k];
        let end_in = sat_sub(end_offset, c.start_line);
        seq![VisibleChunkRange {
            chunk_index: k as usize,
            start_in_chunk: sat_sub(offset, c.start_line),
            end_in_chunk: if c.lines@.len() < end_in { c.lines@.len() as usize } else { end_in },
        }] + visible_from(chunks, k + 1, offset, end_offset)
    }
}

/// The ends of contiguous chunks never go down.
pub proof fn lemma_contiguous_ends_sorted<L>(chunks: Seq<SessionRenderChunk<L>>, i: int, j: int)
    requires
        chunks_contiguous(chunks),
        0 <= i <= j < chunks.len(),
    ensures
        chunks[i].end_line <= chunks[j].end_line,
    decreases j - i,
{
    if i < j {
        lemma_contiguous_ends_sorted(chunks, i, j - 1);
        assert(chunks[j].start_line == chunks[j - 1].end_line);
    }
}

/// The linear definition of the first chunk ending after `offset` agrees
/// with any split point of the sorted ends.
pub proof fn lemma_first_ending_after<L>(chunks: Seq<SessionRenderChunk<L>>, offset: usize, k: int, p: int)
    requires
        0 <= k <= p <= chunks.len(),
        forall|i: int| k <= i < p ==> #[trigger] chunks[i].end_line <= offset,
        p < chunks.len() ==> chunks[p].end_line > offset,
    ensures
        first_ending_after(chunks, offset, k) == p,
    decreases p - k,
{
    if k < p {
        lemma_first_ending_after(chunks, offset, k + 1, p);
    }
}

/// The first chunk whose end lies past `offset`, by binary search.
fn first_chunk_ending_after<L>(chunks: &[SessionRenderChunk<L>], offset: usize) -> (r: usize)
    requires
        chunks_contiguous(chunks@),
    ensures
        r as int == first_ending_after(chunks@, offset, 0),
        r <= chunks@.len(),
{
    let mut lo: usize = 0;
    let mut hi: usize = chunks.len();
    while lo < hi
        invariant
            0 <= lo <= hi <= chunks@.len(),
            chunks_contiguous(chunks@),
            forall|i: int| 0 <= i < lo ==> #[trigger] chunks@[i].end_line <= offset,
            forall|i: int| hi <= i < chunks@.len() ==> #[trigger] chunks@[i].end_line > offset,
        decreases hi - lo,
    {
        let mid = lo + (hi - lo) / 2;
        if chunks[mid].end_line <= offset {
            proof {
                assert forall|i: int| 0 <= i < mid + 1 implies #[trigger] chunks@[i].end_line <= offset by {
                    lemma_contiguous_ends_sorted(chunks@, i, mid as int);
                }
            }
            lo = mid + 1;
        } else {
            proof {
                assert forall|i: int| mid <= i < chunks@.len() implies #[trigger] chunks@[i].end_line > offset by {
                    lemma_contiguous_ends_sorted(chunks@, mid as int, i);
                }
            }
            hi = mid;
        }
    }
    proof {
        lemma_first_ending_after(chunks@, offset, 0, lo as int);
    }
    lo
}

/// The parts of the chunks that a viewport of `viewport_height` lines at
/// `scroll_offset` shows, in order. The first chunk is found by a binary
/// search over the chunks' ends.
pub fn collect_visible_chunk_ranges<L>(
    chunks: &[SessionRenderChunk<L>],
    scroll_offset: usize,
    viewport_height: usize,
) -> (r: Vec<VisibleChunkRange>)
    requires
        chunks_contiguous(chunks@),
    ensures
        viewport_height == 0 ==> r@.len() == 0,
        viewport_height > 0 ==> r@ == visible_from(
            chunks@,
            first_ending_after(chunks@, scroll_offset, 0),
            scroll_offset,
            sat_add(scroll_offset, viewport_height),
        ),
{
    if viewport_height == 0 {
        return Vec::new();
    }
    let end_offset = scroll_offset.saturating_add(viewport_height);
    let lo = first_chunk_ending_after(chunks, scroll_offset);
    let mut visible: Vec<VisibleChunkRange> = Vec::new();
    let mut k = lo;
    while k < chunks.len() && chunks[k].start_line < end_offset
        invariant
            lo <= k <= chunks@.len(),
            visible_from(chunks@, lo as int, scroll_offset, end_offset) == visible@ + visible_from(
                chunks@,
                k as int,
                scroll_offset,
                end_offset,
            ),
        decreases chunks.len() - k,
    {
        let c = &chunks[k];
        let end_in = end_offset.saturating_sub(c.start_line);
        let n = c.lines.len();
        let range = VisibleChunkRange {
            chunk_index: k,
            start_in_chunk: scroll_offset.saturating_sub(c.start_line),
            end_in_chunk: if n < end_in { n } else { end_in },
        };
        let ghost before = visible@;
        visible.push(range);
        assert(visible@ + visible_from(chunks@, k + 1, scroll_offset, end_offset) =~= before + visible_from(
            chunks@,
            k as int,
            scroll_offset,
            end_offset,
        ));
        k = k + 1;
    }
    assert(visible_from(chunks@, k as int, scroll_offset, end_offset) =~= Seq::<VisibleChunkRange>::empty());
    assert(visible@ + Seq::<VisibleChunkRange>::empty() =~= visible@);
    visible
}

/// Lines gathered chunk by chunk, and the first line of each message.
#[derive(Clone, Debug)]
pub struct SessionRenderBuffer<L> {
    pub chunks: Vec<SessionRenderChunk<L>>,
    pub rendered_line_count: usize,
    /// Message ids with their first line, each id once, first seen kept.
    pub message_first_lines: Vec<(String, usize)>,
}

impl<L> SessionRenderBuffer<L> {
    /// The chunks follow one another and the count is where the last ends.
    pub open spec fn wf(&self) -> bool {
        &&& chunks_contiguous(self.chunks@)
        &&& self.rendered_line_count == if self.chunks@.len() == 0 {
            0usize
        } else {
            self.chunks@.last().end_line
        }
    }

    pub fn new() -> (r: Self)
        ensures
            r.wf(),
            r.chunks@.len() == 0 && r.rendered_line_count == 0 && r.message_first_lines@.len() == 0,
    {
        SessionRenderBuffer { chunks: Vec::new(), rendered_line_count: 0, message_first_lines: Vec::new() }
    }

    pub fn line_count(&self) -> (r: usize)
        ensures
            r == self.rendered_line_count,
    {
        self.rendered_line_count
    }

    /// Notes where a message starts, unless its start is known already.
    pub fn record_message_start(&mut self, message_id: &str)
        ensures
            final(self).chunks == old(self).chunks,
            final(self).rendered_line_count == old(self).rendered_line_count,
            (exists|i: int| 0 <= i < old(self).message_first_lines@.len() && #[trigger] old(self).message_first_lines@[i].0@ == message_id@)
                ==> final(self).message_first_lines == old(self).message_first_lines,
            (forall|i: int| 0 <= i < old(self).message_first_lines@.len() ==> #[trigger] old(self).message_first_lines@[i].0@ != message_id@)
                ==> final(self).message_first_lines@.len() == old(self).message_first_lines@.len() + 1
                && final(self).message_first_lines@.last().0@ == message_id@
                && final(self).message_first_lines@.last().1 == old(self).rendered_line_count
                && final(self).message_first_lines@.drop_last() == old(self).message_first_lines@,
    {
        let id = chars_of(message_id);
        let mut i: usize = 0;
        while i < self.message_first_lines.len()
            invariant
                0 <= i <= self.message_first_lines@.len(),
                id@ == message_id@,
                forall|j: int| 0 <= j < i ==> #[trigger] self.message_first_lines@[j].0@ != message_id@,
            decreases self.message_first_lines.len() - i,
        {
            if crate::text::chars_eq(&chars_of(self.message_first_lines[i].0.as_str()), &id) {
                return;
            }
            i = i + 1;
        }
        let ghost before = self.message_first_lines@;
        self.message_first_lines.push((string_from_chars(&id), self.rendered_line_count));
        assert(self.message_first_lines@.drop_last() =~= before);
    }

    /// Appends a chunk of lines after the last one.
    pub fn append_lines(&mut self, lines: Vec<L>)
        requires
            old(self).wf(),
        ensures
            final(self).wf(),
            final(self).chunks@.len() == old(self).chunks@.len() + 1,
            final(self).chunks@.drop_last() == old(self).chunks@,
            final(self).chunks@.last().start_line == old(self).rendered_line_count,
            final(self).chunks@.last().lines == lines,
            final(self).rendered_line_count == sat_add(old(self).rendered_line_count, lines@.len() as usize),
            final(self).message_first_lines == old(self).message_first_lines,
    {
        let line_count = lines.len();
        let start_line = self.rendered_line_count;
        let end_line = start_line.saturating_add(line_count);
        let ghost before = self.chunks@;
        self.chunks.push(SessionRenderChunk { start_line, end_line, lines });
        proof {
            assert(self.chunks@.drop_last() =~= before);
            let c = self.chunks@;
            assert forall|i: int| 0 < i < c.len() implies #[trigger] c[i].start_line == c[i - 1].end_line by {
                if i < before.len() {
                    assert(c[i] == before[i]);
                    assert(c[i - 1] == before[i - 1]);
                }
            }
            assert forall|i: int| 0 <= i < c.len() implies #[trigger] c[i].end_line == sat_add(
                c[i].start_line,
                c[i].lines@.len() as usize,
            ) by {
                if i < before.len() {
                    assert(c[i] == before[i]);
                }
            }
        }
        self.rendered_line_count = end_line;
    }

    /// Appends the lines of a message.
    pub fn append_message(&mut self, message_id: &str, lines: Vec<L>)
        requires
            old(self).wf(),
        ensures
            final(self).wf(),
            final(self).chunks@.drop_last() == old(self).chunks@,
            final(self).chunks@.last().lines == lines,
            final(self).rendered_line_count == sat_add(old(self).rendered_line_count, lines@.len() as usize),
            final(self).message_first_lines == old(self).message_first_lines,
    {
        self.append_lines(lines);
    }

    /// Appends lines that belong to no message.
    pub fn append_non_message(&mut self, lines: Vec<L>)
        requires
            old(self).wf(),
        ensures
            final(self).wf(),
            final(self).chunks@.drop_last() == old(self).chunks@,
            final(self).chunks@.last().lines == lines,
            final(self).rendered_line_count == sat_add(old(self).rendered_line_count, lines@.len() as usize),
            final(self).message_first_lines == old(self).message_first_lines,
    {
        self.append_lines(lines);
    }
}

/// The number of lines in the chunks before the `i`-th.
pub open spec fn lines_before<L>(chunks: Seq<SessionRenderChunk<L>>, i: int) -> int
    decreases i,
{
    if i <= 0 {
        0
    } else {
        lines_before(chunks, i - 1) + chunks[i - 1].lines@.len()
    }
}

/// Contiguous chunks cover the lines from 0 without gaps: while the count
/// fits in `usize`, a chunk starts at the number of lines before it and
/// ends at that number with its own lines added.
pub proof fn lemma_chunks_start_at_prefix_sum<L>(chunks: Seq<SessionRenderChunk<L>>, i: int)
    requires
        chunks_contiguous(chunks),
        0 <= i < chunks.len(),
        lines_before(chunks, i + 1) <= usize::MAX,
    ensures
        chunks[i].start_line == lines_before(chunks, i),
        chunks[i].end_line == lines_before(chunks, i + 1),
    decreases i,
{
    assert(lines_before(chunks, i) >= 0) by {
        lemma_lines_before_nonnegative(chunks, i);
    }
    if i > 0 {
        lemma_chunks_start_at_prefix_sum(chunks, i - 1);
        assert(chunks[i].start_line == chunks[i - 1].end_line);
    }
    assert(chunks[i].end_line == sat_add(chunks[i].start_line, chunks[i].lines@.len() as usize));
}

proof fn lemma_lines_before_nonnegative<L>(chunks: Seq<SessionRenderChunk<L>>, i: int)
    ensures
        lines_before(chunks, i) >= 0,
    decreases i,
{
    if i > 0 {
        lemma_lines_before_nonnegative(chunks, i - 1);
    }
}

// ---------------------------------------------------------------------------
// Numbers
// ---------------------------------------------------------------------------

/// Decimal digits with a comma between each group of three, from the right.
pub open spec fn group_thousands(d: Seq<char>) -> Seq<char>
    decreases d.len(),
{
    if d.len() <= 3 {
        d
    } else {
        group_thousands(d.subrange(0, d.len() - 3)) + seq![','] + d.subrange(d.len() - 3, d.len() as int)
    }
}

/// A count with thousands separators, such as `1,234,567`.
pub fn format_number(value: u64) -> (r: String)
    ensures
        r@ == group_thousands(decimal(value as nat)),
{
    let digits = u64_decimal(value);
    let n = digits.len();
    let mut out: Vec<char> = Vec::new();
    // the first group holds 1 to 3 digits; every later group holds 3
    let first = if n % 3 == 0 { if n == 0 { 0 } else { 3 } } else { n % 3 };
    let mut i: usize = 0;
    while i < first
        invariant
            0 <= i <= first <= n,
            n == digits@.len(),
            out@ == digits@.subrange(0, i as int),
        decreases first - i,
    {
        out.push(digits[i]);
        i = i + 1;
        assert(out@ =~= digits@.subrange(0, i as int));
    }
    proof {
        lemma_group_thousands_head(digits@, first as int);
    }
    while i < n
        invariant
            first <= i <= n,
            n == digits@.len(),
            (i - first) % 3 == 0,
            (n - first) % 3 == 0,
            first <= 3,
            first >= 1 || n == 0,
            out@ == group_thousands(digits@.subrange(0, i as int)),
        decreases n - i,
    {
        out.push(',');
        out.push(digits[i]);
        out.push(digits[i + 1]);
        out.push(digits[i + 2]);
        proof {
            let d = digits@.subrange(0, i + 3);
            assert(d.subrange(0, d.len() - 3) =~= digits@.subrange(0, i as int));
            assert(d.subrange(d.len() - 3, d.len() as int) =~= seq![digits@[i as int], digits@[i + 1], digits@[i + 2]]);
            assert(out@ =~= group_thousands(d));
        }
        i = i + 3;
    }
    assert(digits@.subrange(0, n as int) =~= digits@);
    string_from_chars(&out)
}

/// The first group of digits stands alone.
pub proof fn lemma_group_thousands_head(d: Seq<char>, first: int)
    requires
        0 <= first <= 3,
        first <= d.len(),
    ensures
        group_thousands(d.subrange(0, first)) == d.subrange(0, first),
{
}

} // verus!
