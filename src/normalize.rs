use vstd::prelude::*;
use vstd::utf8::encode_utf8;

verus! {

/// A line without the carriage return that preceded its newline.
pub open spec fn strip_cr(l: Seq<char>) -> Seq<char> {
    if l.len() > 0 && l.last() == '\r' {
        l.drop_last()
    } else {
        l
    }
}

/// The lines of `s` that follow, when the current line began at `start` and
/// scanning has reached `i`: a newline ends a line (and a carriage return just
/// before it is dropped); a last line without a newline is kept as it is.
pub open spec fn split_from(s: Seq<char>, start: int, i: int) -> Seq<Seq<char>>
    decreases s.len() - i,
{
    if i >= s.len() {
        if start < s.len() {
            seq![s.subrange(start, s.len() as int)]
        } else {
            seq![]
        }
    } else if s[i] == '\n' {
        seq![strip_cr(s.subrange(start, i))] + split_from(s, i + 1, i + 1)
    } else {
        split_from(s, start, i + 1)
    }
}

/// The lines of a text, as `str::lines` yields them.
pub open spec fn lines_of(s: Seq<char>) -> Seq<Seq<char>> {
    split_from(s, 0, 0)
}

/// Lines joined by a single space.
pub open spec fn join_lines(ls: Seq<Seq<char>>) -> Seq<char>
    decreases ls.len(),
{
    if ls.len() == 0 {
        seq![]
    } else if ls.len() == 1 {
        ls[0]
    } else {
        join_lines(ls.drop_last()) + seq![' '] + ls.last()
    }
}

/// The length in bytes of the UTF-8 encoding of `s`, as `str::len` reports it.
pub open spec fn byte_len(s: Seq<char>) -> usize {
    encode_utf8(s).len() as usize
}

/// Whether a text is normalized at all: only texts of two or more lines are.
pub open spec fn is_multi_line(s: Seq<char>) -> bool {
    lines_of(s).len() > 1
}

/// The single logical line that a text of several lines becomes.
pub open spec fn normalized_text(s: Seq<char>) -> Seq<char> {
    if is_multi_line(s) {
        join_lines(lines_of(s)) + seq!['\n']
    } else {
        s
    }
}

/// The line that the cursor `(line, _)` takes in the normalized text.
pub open spec fn normalized_line(s: Seq<char>, line: usize) -> usize {
    if is_multi_line(s) {
        0
    } else {
        line
    }
}

/// The column that the cursor `(line, ch)` takes in the normalized text: the
/// bytes of the lines before it, joined, then the column, plus one (saturating
/// at the largest `usize`).
pub open spec fn normalized_column(s: Seq<char>, line: usize, ch: usize) -> usize {
    if is_multi_line(s) {
        let k = if line < lines_of(s).len() { line as int } else { lines_of(s).len() as int };
        let c = byte_len(join_lines(lines_of(s).take(k))) + ch + 1;
        if c > usize::MAX { usize::MAX } else { c as usize }
    } else {
        ch
    }
}

/// Finds the lines of `doc`, as ranges of character indices.
fn line_ranges(doc: &str) -> (r: Vec<(usize, usize)>)
    ensures
        r@.len() == lines_of(doc@).len(),
        forall|j: int|
            0 <= j < r@.len() ==> {
                &&& #[trigger] r@[j].0 <= r@[j].1 <= doc@.len()
                &&& lines_of(doc@)[j] == doc@.subrange(r@[j].0 as int, r@[j].1 as int)
            },
{
    let n = doc.unicode_len();
    let ghost s = doc@;
    let mut ranges: Vec<(usize, usize)> = Vec::new();
    let ghost mut acc: Seq<Seq<char>> = seq![];
    let mut start: usize = 0;
    let mut i: usize = 0;
    while i < n
        invariant
            n == s.len(),
            s == doc@,
            start <= i <= n,
            acc.len() == ranges@.len(),
            acc + split_from(s, start as int, i as int) == lines_of(s),
            forall|j: int|
                0 <= j < ranges@.len() ==> {
                    &&& #[trigger] ranges@[j].0 <= ranges@[j].1 <= n
                    &&& acc[j] == s.subrange(ranges@[j].0 as int, ranges@[j].1 as int)
                },
        decreases n - i,
    {
        if doc.get_char(i) == '\n' {
            let mut end = i;
            if end > start && doc.get_char(end - 1) == '\r' {
                end = end - 1;
                assert(s.subrange(start as int, i as int).drop_last() =~= s.subrange(
                    start as int,
                    end as int,
                ));
            }
            let ghost line = strip_cr(s.subrange(start as int, i as int));
            assert(line =~= s.subrange(start as int, end as int));
            assert((acc + seq![line]) + split_from(s, i + 1, i + 1) =~= acc + (seq![line]
                + split_from(s, i + 1, i + 1)));
            let ghost old_ranges = ranges@;
            ranges.push((start, end));
            proof {
                acc = acc + seq![line];
                assert forall|j: int| 0 <= j < ranges@.len() implies {
                    &&& #[trigger] ranges@[j].0 <= ranges@[j].1 <= n
                    &&& acc[j] == s.subrange(ranges@[j].0 as int, ranges@[j].1 as int)
                } by {
                    if j < old_ranges.len() {
                        assert(ranges@[j] == old_ranges[j]);
                    }
                }
            }
            start = i + 1;
        }
        i = i + 1;
    }
    if start < n {
        ranges.push((start, n));
        proof {
            acc = acc + seq![s.subrange(start as int, n as int)];
        }
    } else {
        assert(acc + split_from(s, start as int, i as int) =~= acc);
    }
    assert(acc =~= lines_of(s));
    ranges
}

/// Collapses a text of several lines to one logical line: the lines are joined
/// by single spaces and a newline ends the result; the cursor moves to line
/// zero, at the bytes of the preceding lines joined, plus its column, plus one.
/// A text of at most one line, and the cursor, stay as they are.
pub fn normalize_document_and_cursor_position(doc: &str, cursor_line: usize, cursor_char: usize) -> (r: (
    String,
    usize,
    usize,
))
    ensures
        r.0@ == normalized_text(doc@),
        r.1 == normalized_line(doc@, cursor_line),
        r.2 == normalized_column(doc@, cursor_line, cursor_char),
{
    let ranges = line_ranges(doc);
    let ghost lines = lines_of(doc@);
    if ranges.len() <= 1 {
        return (doc.to_owned(), cursor_line, cursor_char);
    }
    let mut out = String::new();
    let mut before_len: usize = 0;
    let mut j: usize = 0;
    while j < ranges.len()
        invariant
            ranges@.len() == lines.len(),
            lines == lines_of(doc@),
            lines.len() > 1,
            j <= ranges@.len(),
            forall|t: int|
                0 <= t < ranges@.len() ==> {
                    &&& #[trigger] ranges@[t].0 <= ranges@[t].1 <= doc@.len()
                    &&& lines[t] == doc@.subrange(
                        ranges@[t].0 as int,
                        ranges@[t].1 as int,
                    )
                },
            out@ == join_lines(lines.take(j as int)),
            cursor_line < j ==> before_len == byte_len(
                join_lines(lines.take(cursor_line as int)),
            ),
        decreases ranges@.len() - j,
    {
        if j == cursor_line {
            before_len = out.as_str().len();
        }
        let piece = doc.substring_char(ranges[j].0, ranges[j].1);
        if j > 0 {
            proof {
                reveal_strlit(" ");
            }
            out.append(" ");
        }
        out.append(piece);
        proof {
            let next = lines.take(j + 1);
            assert(next.drop_last() =~= lines.take(j as int));
            if j == 0 {
                assert(join_lines(next) == next[0]);
            }
            assert(out@ =~= join_lines(next));
        }
        j = j + 1;
    }
    if cursor_line >= ranges.len() {
        before_len = out.as_str().len();
        assert(lines.take(lines.len() as int) =~= lines);
    }
    proof {
        reveal_strlit("\n");
    }
    out.append("\n");
    assert(lines.take(lines.len() as int) =~= lines);
    let column = before_len.saturating_add(cursor_char).saturating_add(1);
    (out, 0, column)
}

/// The encoding of a concatenation is the concatenation of the encodings.
pub proof fn lemma_encode_concat(a: Seq<char>, b: Seq<char>)
    ensures
        encode_utf8(a + b) == encode_utf8(a) + encode_utf8(b),
    decreases a.len(),
{
    if a.len() == 0 {
        assert(a + b =~= b);
        assert(encode_utf8(a) =~= Seq::<u8>::empty());
        assert(encode_utf8(a) + encode_utf8(b) =~= encode_utf8(b));
    } else {
        assert((a + b).drop_first() =~= a.drop_first() + b);
        assert((a + b)[0] == a[0]);
        lemma_encode_concat(a.drop_first(), b);
        assert(encode_utf8(a + b) =~= encode_utf8(a) + encode_utf8(b));
    }
}

/// Joining the first `m` lines gives a prefix of joining them all.
proof fn lemma_join_prefix(ls: Seq<Seq<char>>, m: int)
    requires
        1 <= m <= ls.len(),
    ensures
        join_lines(ls.take(m)).len() <= join_lines(ls).len(),
        join_lines(ls).subrange(0, join_lines(ls.take(m)).len() as int) == join_lines(ls.take(m)),
    decreases ls.len(),
{
    if m == ls.len() {
        assert(ls.take(m) =~= ls);
        assert(join_lines(ls).subrange(0, join_lines(ls).len() as int) =~= join_lines(ls));
    } else {
        let d = ls.drop_last();
        assert(d.take(m) =~= ls.take(m));
        lemma_join_prefix(d, m);
        let j = join_lines(ls.take(m));
        assert(join_lines(ls) == join_lines(d) + seq![' '] + ls.last());
        assert(join_lines(ls).subrange(0, j.len() as int) =~= join_lines(d).subrange(0, j.len() as int));
    }
}

/// For a text of several lines and a cursor on one of them after the first,
/// the normalized column is the true flattened offset: the normalized text
/// starts with the lines before the cursor, joined, and one space; the
/// cursor's line follows; and the column is the length in bytes of that
/// beginning plus the column the cursor had.
pub proof fn lemma_normalized_column_is_flat_offset(s: Seq<char>, line: usize, ch: usize)
    requires
        is_multi_line(s),
        1 <= line < lines_of(s).len(),
        encode_utf8(join_lines(lines_of(s).take(line as int))).len() + ch + 1 <= usize::MAX,
    ensures
        ({
            let before = join_lines(lines_of(s).take(line as int)) + seq![' '];
            let here = lines_of(s)[line as int];
            &&& normalized_text(s).len() >= before.len() + here.len()
            &&& normalized_text(s).subrange(0, before.len() as int) == before
            &&& normalized_text(s).subrange(before.len() as int, (before.len() + here.len()) as int) == here
            &&& normalized_column(s, line, ch) == encode_utf8(before).len() + ch
        }),
{
    let ls = lines_of(s);
    let k = line as int;
    let j = join_lines(ls.take(k));
    let before = j + seq![' '];
    let here = ls[k];
    let next = ls.take(k + 1);
    assert(next.drop_last() =~= ls.take(k));
    assert(next.last() == here);
    assert(join_lines(next) == before + here);
    lemma_join_prefix(ls, k + 1);
    let n = normalized_text(s);
    assert(n == join_lines(ls) + seq!['\n']);
    assert(n.subrange(0, before.len() as int) =~= join_lines(ls).subrange(0, join_lines(next).len() as int).subrange(0, before.len() as int));
    assert(join_lines(next).subrange(0, before.len() as int) =~= before);
    assert(n.subrange(before.len() as int, (before.len() + here.len()) as int) =~= join_lines(ls).subrange(0, join_lines(next).len() as int).subrange(before.len() as int, (before.len() + here.len()) as int));
    assert(join_lines(next).subrange(before.len() as int, (before.len() + here.len()) as int) =~= here);
    lemma_encode_concat(j, seq![' ']);
    let sp = seq![' '];
    assert(encode_utf8(sp).len() == 1) by {
        assert(sp.drop_first() =~= Seq::<char>::empty());
        assert(sp[0] as u32 == 32);
        assert(vstd::utf8::has_width_1_encoding(32));
        assert(encode_utf8(sp) == vstd::utf8::encode_scalar(32) + encode_utf8(sp.drop_first()));
    }
}

} // verus!
