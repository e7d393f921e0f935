use vstd::prelude::*;

verus! {

/// The line terminator of the log.
pub const NEWLINE: u8 = 10;

/// Where a committed, non-empty line sits in a byte buffer: its bytes are
/// `start..end`, and the terminator is at `end`.
#[derive(Clone, Copy, Debug, PartialEq, Eq, Structural)]
pub struct LineSpan {
    pub start: u64,
    pub end: u64,
}

impl LineSpan {
    /// The offset just past this line's terminator: where the next line starts.
    pub open spec fn next_spec(self) -> int {
        self.end + 1
    }

    /// The offset just past this line's terminator.
    pub fn next_offset(&self) -> (r: u64)
        requires
            self.end < u64::MAX,
        ensures
            r == self.next_spec(),
    {
        self.end + 1
    }
}

/// Where the line that is still open at the end of `s` begins: just past the
/// last terminator, or 0 when there is none.
pub open spec fn line_start(s: Seq<u8>) -> int
    decreases s.len(),
{
    if s.len() == 0 {
        0
    } else if s.last() == NEWLINE {
        s.len() as int
    } else {
        line_start(s.drop_last())
    }
}

/// The committed, non-empty lines of `s`, as `(start, end)` pairs in order.
/// A line is committed once its terminator is written; bytes after the last
/// terminator are a partial line and are not reported. Empty lines (a bare
/// terminator) are skipped.
pub open spec fn committed(s: Seq<u8>) -> Seq<(int, int)>
    decreases s.len(),
{
    if s.len() == 0 {
        Seq::empty()
    } else if s.last() == NEWLINE {
        let p = s.drop_last();
        let st = line_start(p);
        if st == p.len() {
            committed(p)
        } else {
            committed(p).push((st, p.len() as int))
        }
    } else {
        committed(s.drop_last())
    }
}

/// The bytes of the committed lines of `s`, without terminators, in order.
pub open spec fn committed_lines(s: Seq<u8>) -> Seq<Seq<u8>> {
    committed(s).map_values(|p: (int, int)| s.subrange(p.0, p.1))
}

/// The spans of `committed(s)` moved by `base` bytes.
pub open spec fn shifted(spans: Seq<(int, int)>, base: int) -> Seq<(int, int)> {
    spans.map_values(|p: (int, int)| (p.0 + base, p.1 + base))
}

/// Whether `s` ends on a line boundary: empty, or its last byte a terminator.
pub open spec fn ends_on_boundary(s: Seq<u8>) -> bool {
    s.len() == 0 || s.last() == NEWLINE
}

/// Scans `buf`, the bytes of the active log from offset `base` to its end,
/// and returns the committed, non-empty lines in order, with offsets in the
/// log. A final line without terminator is left out.
pub fn scan_lines(buf: &[u8], base: u64) -> (r: Vec<LineSpan>)
    requires
        base + buf@.len() < u64::MAX,
    ensures
        r@.map_values(|l: LineSpan| (l.start as int, l.end as int)) == shifted(
            committed(buf@),
            base as int,
        ),
{
    let mut out: Vec<LineSpan> = Vec::new();
    let mut start: usize = 0;
    let mut i: usize = 0;
    while i < buf.len()
        invariant
            base + buf@.len() < u64::MAX,
            i <= buf@.len(),
            start as int == line_start(buf@.take(i as int)),
            out@.map_values(|l: LineSpan| (l.start as int, l.end as int)) == shifted(
                committed(buf@.take(i as int)),
                base as int,
            ),
        decreases buf@.len() - i,
    {
        proof {
            lemma_line_start_bound(buf@.take(i as int));
        }
        let ghost pre = buf@.take(i as int);
        let ghost cur = buf@.take(i + 1);
        assert(cur.drop_last() =~= pre);
        if buf[i] == NEWLINE {
            if start < i {
                assert(cur.last() == NEWLINE);
                assert(committed(cur) == committed(pre).push((start as int, i as int)));
                let ghost before = out@;
                out.push(LineSpan { start: base + start as u64, end: base + i as u64 });
                assert(out@.map_values(|l: LineSpan| (l.start as int, l.end as int)) =~= before.map_values(
                    |l: LineSpan| (l.start as int, l.end as int),
                ).push((base + start, base + i)));
                assert(shifted(committed(cur), base as int) =~= shifted(committed(pre), base as int).push(
                    (base + start, base + i),
                ));
                assert(out@.map_values(|l: LineSpan| (l.start as int, l.end as int)) =~= shifted(
                    committed(cur),
                    base as int,
                ));
            }
            start = i + 1;
        }
        i = i + 1;
    }
    assert(buf@.take(buf@.len() as int) =~= buf@);
    out
}

proof fn lemma_line_start_bound(s: Seq<u8>)
    ensures
        0 <= line_start(s) <= s.len(),
    decreases s.len(),
{
    if s.len() > 0 && s.last() != NEWLINE {
        lemma_line_start_bound(s.drop_last());
    }
}

/// Every span of `committed(s)` lies inside `s` before the open line, is
/// non-empty, ends at a terminator, and the spans come in strictly
/// increasing order.
pub proof fn lemma_committed_ordered(s: Seq<u8>)
    ensures
        0 <= line_start(s) <= s.len(),
        forall|k: int|
            0 <= k < committed(s).len() ==> 0 <= (#[trigger] committed(s)[k]).0 < committed(s)[k].1
                < line_start(s) && s[committed(s)[k].1] == NEWLINE,
        forall|j: int, k: int|
            0 <= j < k < committed(s).len() ==> (#[trigger] committed(s)[j]).1 < (
            #[trigger] committed(s)[k]).0,
    decreases s.len(),
{
    lemma_line_start_bound(s);
    if s.len() > 0 {
        let p = s.drop_last();
        lemma_committed_ordered(p);
        lemma_line_start_bound(p);
        let c = committed(s);
        let cp = committed(p);
        assert forall|k: int| 0 <= k < cp.len() implies s[#[trigger] cp[k].1] == NEWLINE by {
            assert(s[cp[k].1] == p[cp[k].1]);
        }
    }
}

/// `lines` written out, each followed by a terminator.
pub open spec fn join_lines(lines: Seq<Seq<u8>>) -> Seq<u8>
    decreases lines.len(),
{
    if lines.len() == 0 {
        Seq::empty()
    } else {
        join_lines(lines.drop_last()) + lines.last().push(NEWLINE)
    }
}

/// Whether `s` holds no terminator.
pub open spec fn no_newline(s: Seq<u8>) -> bool {
    forall|i: int| 0 <= i < s.len() ==> s[i] != NEWLINE
}

proof fn lemma_no_newline_nothing_committed(s: Seq<u8>)
    requires
        no_newline(s),
    ensures
        committed(s) == Seq::<(int, int)>::empty(),
        line_start(s) == 0,
    decreases s.len(),
{
    if s.len() > 0 {
        assert(s.last() == s[s.len() - 1]);
        lemma_no_newline_nothing_committed(s.drop_last());
    }
}

proof fn lemma_line_start_concat(a: Seq<u8>, b: Seq<u8>)
    requires
        ends_on_boundary(a),
    ensures
        line_start(a + b) == a.len() + line_start(b),
    decreases b.len(),
{
    if b.len() == 0 {
        assert(a + b =~= a);
    } else {
        assert((a + b).drop_last() =~= a + b.drop_last());
        assert((a + b).last() == b.last());
        lemma_line_start_concat(a, b.drop_last());
    }
}

/// A buffer that ends on a line boundary followed by more bytes has the
/// committed spans of both parts, the second part's moved past the first.
pub proof fn lemma_committed_concat(a: Seq<u8>, b: Seq<u8>)
    requires
        ends_on_boundary(a),
    ensures
        committed(a + b) == committed(a) + shifted(committed(b), a.len() as int),
    decreases b.len(),
{
    if b.len() == 0 {
        assert(a + b =~= a);
        assert(committed(a) + shifted(committed(b), a.len() as int) =~= committed(a));
    } else {
        let bp = b.drop_last();
        assert((a + b).drop_last() =~= a + bp);
        assert((a + b).last() == b.last());
        lemma_committed_concat(a, bp);
        lemma_line_start_concat(a, bp);
        let base = a.len() as int;
        if b.last() == NEWLINE && line_start(bp) != bp.len() {
            assert(shifted(committed(b), base) =~= shifted(committed(bp), base).push(
                (line_start(bp) + base, bp.len() + base),
            ));
            assert(committed(a + b) =~= committed(a) + shifted(committed(b), base));
        }
    }
}

/// The committed lines of a buffer that ends on a line boundary, followed
/// by more bytes, are those of the first part followed by those of the
/// second: appending a sealed log in front of another keeps every line and
/// its order.
pub proof fn lemma_committed_lines_concat(a: Seq<u8>, b: Seq<u8>)
    requires
        ends_on_boundary(a),
    ensures
        committed_lines(a + b) == committed_lines(a) + committed_lines(b),
{
    lemma_committed_concat(a, b);
    lemma_committed_ordered(a);
    lemma_committed_ordered(b);
    let s = a + b;
    let ca = committed(a);
    let cb = committed(b);
    let base = a.len() as int;
    assert forall|k: int| 0 <= k < committed_lines(s).len() implies #[trigger] committed_lines(s)[k]
        == (committed_lines(a) + committed_lines(b))[k] by {
        if k < ca.len() {
            assert(committed(s)[k] == ca[k]);
            assert(s.subrange(ca[k].0, ca[k].1) =~= a.subrange(ca[k].0, ca[k].1));
        } else {
            let m = k - ca.len();
            assert(committed(s)[k] == (cb[m].0 + base, cb[m].1 + base));
            assert(s.subrange(cb[m].0 + base, cb[m].1 + base) =~= b.subrange(cb[m].0, cb[m].1));
        }
    }
    assert(committed_lines(s) =~= committed_lines(a) + committed_lines(b));
}

proof fn lemma_join_ends_on_boundary(lines: Seq<Seq<u8>>)
    ensures
        ends_on_boundary(join_lines(lines)),
{
    if lines.len() > 0 {
        let j = join_lines(lines);
        assert(j.last() == NEWLINE);
    }
}

/// A log holding `lines`, each non-empty and written out in full, followed by
/// any bytes that hold no terminator (a line cut short by a crash), commits
/// exactly `lines`: the cut line is never reported.
pub proof fn lemma_partial_tail_ignored(lines: Seq<Seq<u8>>, tail: Seq<u8>)
    requires
        forall|k: int| 0 <= k < lines.len() ==> (#[trigger] lines[k]).len() > 0 && no_newline(
            lines[k],
        ),
        no_newline(tail),
    ensures
        committed_lines(join_lines(lines) + tail) == lines,
    decreases lines.len(),
{
    lemma_join_ends_on_boundary(lines);
    lemma_committed_lines_concat(join_lines(lines), tail);
    lemma_no_newline_nothing_committed(tail);
    assert(committed_lines(tail) =~= Seq::<Seq<u8>>::empty());
    if lines.len() == 0 {
        assert(join_lines(lines) =~= Seq::<u8>::empty());
        assert(committed_lines(join_lines(lines)) =~= Seq::<Seq<u8>>::empty());
    } else {
        let rest = lines.drop_last();
        let l = lines.last();
        assert(lines[lines.len() - 1] == l);
        lemma_partial_tail_ignored(rest, Seq::empty());
        assert(join_lines(rest) + Seq::<u8>::empty() =~= join_lines(rest));
        lemma_join_ends_on_boundary(rest);
        let lnl = l.push(NEWLINE);
        lemma_committed_lines_concat(join_lines(rest), lnl);
        assert(lnl.drop_last() =~= l);
        lemma_no_newline_nothing_committed(l);
        assert(committed(lnl) =~= seq![(0int, l.len() as int)]);
        assert(lnl.subrange(0, l.len() as int) =~= l);
        assert(committed_lines(lnl) =~= seq![l]);
        assert(join_lines(lines) + tail =~= join_lines(lines) + tail);
        assert(committed_lines(join_lines(lines) + tail) =~= committed_lines(join_lines(lines)));
        assert(lines =~= rest.push(l));
        assert(rest + seq![l] =~= lines);
    }
}

/// The lines that a full read yields: those of the archive's decompressed
/// stream, then those of the active log.
pub open spec fn full_history(archive: Seq<u8>, active: Seq<u8>) -> Seq<Seq<u8>> {
    committed_lines(archive) + committed_lines(active)
}

/// Appending a line to the active log adds it at the end of the full
/// history; sealing the active log into the archive (a rotation) leaves the
/// full history as it was. So a full read yields the lines in the order
/// they were appended, across any rotations, as long as the sealed logs end
/// on a line boundary.
pub proof fn lemma_history_in_append_order(archive: Seq<u8>, active: Seq<u8>, line: Seq<u8>)
    requires
        ends_on_boundary(archive),
        ends_on_boundary(active),
        line.len() > 0,
        no_newline(line),
    ensures
        full_history(archive, active + line.push(NEWLINE)) == full_history(archive, active).push(line),
        full_history(archive + active, Seq::empty()) == full_history(archive, active),
{
    lemma_committed_lines_concat(archive, active);
    lemma_no_newline_nothing_committed(Seq::<u8>::empty());
    assert(committed_lines(Seq::<u8>::empty()) =~= Seq::<Seq<u8>>::empty());
    let lnl = line.push(NEWLINE);
    lemma_committed_lines_concat(active, lnl);
    assert(lnl.drop_last() =~= line);
    lemma_no_newline_nothing_committed(line);
    assert(committed(lnl) =~= seq![(0int, line.len() as int)]);
    assert(lnl.subrange(0, line.len() as int) =~= line);
    assert(committed_lines(lnl) =~= seq![line]);
    assert(full_history(archive, active + lnl) =~= full_history(archive, active).push(line));
    assert(full_history(archive + active, Seq::empty()) =~= full_history(archive, active));
}

} // verus!
