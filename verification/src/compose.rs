//! Text composition: trimming, pattern replacement, line clean-up and short
//! one-line previews.
use vstd::prelude::*;

use crate::text::{collapse_whitespace, collapse_whitespace_spec, is_whitespace, is_whitespace_spec, push_char, trim_end_spec};

verus! {

/// `s` without its leading whitespace.
pub open spec fn trim_start_spec(s: Seq<char>) -> Seq<char>
    decreases s.len(),
{
    if s.len() > 0 && is_whitespace_spec(s[0]) {
        trim_start_spec(s.drop_first())
    } else {
        s
    }
}

/// `s` without leading and trailing whitespace, as `str::trim` gives it.
pub open spec fn trim_spec(s: Seq<char>) -> Seq<char> {
    trim_start_spec(trim_end_spec(s))
}

proof fn lemma_trim_end_is_prefix(s: Seq<char>)
    ensures
        trim_end_spec(s) == s.take(trim_end_spec(s).len() as int),
        trim_end_spec(s).len() <= s.len(),
    decreases s.len(),
{
    if s.len() > 0 && is_whitespace_spec(s.last()) {
        lemma_trim_end_is_prefix(s.drop_last());
        assert(s.drop_last().take(trim_end_spec(s).len() as int) =~= s.take(trim_end_spec(s).len() as int));
    } else {
        assert(s.take(s.len() as int) =~= s);
    }
}

/// The characters of `s` from `start` (in characters) to `end`.
pub(crate) fn substring(s: &str, start: usize, end: usize) -> (r: String)
    requires
        start <= end <= s@.len(),
    ensures
        r@ == s@.subrange(start as int, end as int),
{
    s.substring_char(start, end).to_owned()
}

/// `s` without leading and trailing whitespace.
pub fn trim(s: &str) -> (r: String)
    ensures
        r@ == trim_spec(s@),
{
    let n = s.unicode_len();
    let mut end: usize = n;
    proof {
        assert(s@.take(n as int) =~= s@);
    }
    while end > 0 && is_whitespace(s.get_char(end - 1))
        invariant
            n == s@.len(),
            end <= n,
            trim_end_spec(s@) == trim_end_spec(s@.take(end as int)),
        decreases end,
    {
        proof {
            assert(s@.take(end as int).drop_last() =~= s@.take(end - 1));
        }
        end = end - 1;
    }
    proof {
        assert(trim_end_spec(s@.take(end as int)) == s@.take(end as int));
    }
    let mut start: usize = 0;
    proof {
        assert(s@.subrange(0, end as int) =~= s@.take(end as int));
    }
    while start < end && is_whitespace(s.get_char(start))
        invariant
            n == s@.len(),
            start <= end <= n,
            trim_spec(s@) == trim_start_spec(s@.subrange(start as int, end as int)),
        decreases end - start,
    {
        proof {
            assert(s@.subrange(start as int, end as int).drop_first() =~= s@.subrange(start + 1, end as int));
        }
        start = start + 1;
    }
    substring(s, start, end)
}

// ── Replacement ─────────────────────────────────────────────────────────────

/// `s` with each occurrence of the non-empty `pattern`, scanning left to
/// right without overlap, replaced by `with` (what `str::replace` does).
pub open spec fn replace_all_spec(s: Seq<char>, pattern: Seq<char>, with: Seq<char>) -> Seq<char>
    decreases s.len(),
{
    if pattern.len() == 0 || s.len() < pattern.len() {
        s
    } else if s.take(pattern.len() as int) == pattern {
        with + replace_all_spec(s.skip(pattern.len() as int), pattern, with)
    } else {
        seq![s[0]] + replace_all_spec(s.drop_first(), pattern, with)
    }
}

fn starts_at(s: &str, pattern: &str, i: usize, n: usize, m: usize) -> (r: bool)
    requires
        n == s@.len(),
        m == pattern@.len(),
        i + m <= n,
    ensures
        r == (s@.subrange(i as int, i + m) == pattern@),
{
    let mut j: usize = 0;
    while j < m
        invariant
            n == s@.len(),
            m == pattern@.len(),
            i + m <= n,
            j <= m,
            forall|k: int| 0 <= k < j ==> s@[i + k] == pattern@[k],
        decreases m - j,
    {
        if s.get_char(i + j) != pattern.get_char(j) {
            proof {
                assert(s@.subrange(i as int, i + m)[j as int] != pattern@[j as int]);
            }
            return false;
        }
        j = j + 1;
    }
    proof {
        assert(s@.subrange(i as int, i + m) =~= pattern@);
    }
    true
}

/// `s` with every occurrence of `pattern` replaced by `with`.
pub fn replace_all(s: &str, pattern: &str, with: &str) -> (r: String)
    requires
        pattern@.len() > 0,
    ensures
        r@ == replace_all_spec(s@, pattern@, with@),
{
    let n = s.unicode_len();
    let m = pattern.unicode_len();
    let mut out = String::new();
    let mut i: usize = 0;
    proof {
        assert(s@.skip(0) =~= s@);
    }
    while i < n
        invariant
            n == s@.len(),
            m == pattern@.len(),
            m > 0,
            i <= n,
            out@ + replace_all_spec(s@.skip(i as int), pattern@, with@) == replace_all_spec(s@, pattern@, with@),
        decreases n - i,
    {
        let ghost rest = s@.skip(i as int);
        if m <= n - i && starts_at(s, pattern, i, n, m) {
            proof {
                assert(rest.take(m as int) =~= s@.subrange(i as int, i + m));
                assert(rest.skip(m as int) =~= s@.skip(i + m));
                assert(out@ + with@ + replace_all_spec(s@.skip(i + m), pattern@, with@) =~= out@ + (with@
                    + replace_all_spec(rest.skip(m as int), pattern@, with@)));
            }
            out.append(with);
            i = i + m;
        } else {
            let c = s.get_char(i);
            proof {
                assert(rest.drop_first() =~= s@.skip(i + 1));
                if rest.len() >= m {
                    assert(rest.take(m as int) =~= s@.subrange(i as int, i + m));
                }
                assert(out@.push(c) + replace_all_spec(s@.skip(i + 1), pattern@, with@) =~= out@ + (seq![rest[0]]
                    + replace_all_spec(rest.drop_first(), pattern@, with@)));
            }
            push_char(&mut out, c);
            i = i + 1;
        }
    }
    proof {
        assert(s@.skip(i as int).len() == 0);
        assert(out@ + Seq::<char>::empty() =~= out@);
    }
    out
}

// ── Lines ───────────────────────────────────────────────────────────────────

/// The pieces of `s` between newlines, in order (one more than there are
/// newlines).
pub open spec fn newline_pieces(s: Seq<char>) -> Seq<Seq<char>>
    decreases s.len(),
{
    if s.len() == 0 {
        seq![Seq::empty()]
    } else {
        let before = newline_pieces(s.drop_last());
        if s.last() == '\n' {
            before.push(Seq::empty())
        } else {
            before.update(before.len() - 1, before.last().push(s.last()))
        }
    }
}

proof fn lemma_newline_pieces_nonempty(s: Seq<char>)
    ensures
        newline_pieces(s).len() >= 1,
    decreases s.len(),
{
    if s.len() > 0 {
        lemma_newline_pieces_nonempty(s.drop_last());
    }
}

/// The lines of `s` as `str::lines` gives them, up to a trailing carriage
/// return: the pieces between newlines, without the empty piece after a final
/// newline (so the empty text has no line).
pub open spec fn lines_spec(s: Seq<char>) -> Seq<Seq<char>> {
    let pieces = newline_pieces(s);
    if pieces.last().len() == 0 {
        pieces.drop_last()
    } else {
        pieces
    }
}

/// The lines after clean-up: each line trimmed, and each run of blank lines
/// reduced to one empty line; with whether the last line kept was blank.
pub open spec fn cleaned_lines(lines: Seq<Seq<char>>) -> (Seq<Seq<char>>, bool)
    decreases lines.len(),
{
    if lines.len() == 0 {
        (Seq::empty(), false)
    } else {
        let (acc, previous_blank) = cleaned_lines(lines.drop_last());
        let t = trim_spec(lines.last());
        if t.len() == 0 {
            if previous_blank {
                (acc, true)
            } else {
                (acc.push(Seq::empty()), true)
            }
        } else {
            (acc.push(t), false)
        }
    }
}

/// The lines joined by newlines.
pub open spec fn join_lines(lines: Seq<Seq<char>>) -> Seq<char>
    decreases lines.len(),
{
    if lines.len() == 0 {
        Seq::empty()
    } else if lines.len() == 1 {
        lines[0]
    } else {
        join_lines(lines.drop_last()) + seq!['\n'] + lines.last()
    }
}

/// `s` with its lines trimmed, runs of blank lines reduced to one, and the
/// whole trimmed.
pub open spec fn tidy_lines_spec(s: Seq<char>) -> Seq<char> {
    trim_spec(join_lines(cleaned_lines(lines_spec(s)).0))
}

fn split_pieces(s: &str) -> (r: Vec<String>)
    ensures
        r@.map_values(|p: String| p@) == newline_pieces(s@),
{
    let n = s.unicode_len();
    let mut pieces: Vec<String> = Vec::new();
    let mut current = String::new();
    let mut i: usize = 0;
    while i < n
        invariant
            n == s@.len(),
            i <= n,
            pieces@.map_values(|p: String| p@).push(current@) == newline_pieces(s@.take(i as int)),
        decreases n - i,
    {
        let c = s.get_char(i);
        proof {
            assert(s@.take(i + 1).drop_last() =~= s@.take(i as int));
            lemma_newline_pieces_nonempty(s@.take(i as int));
        }
        if c == '\n' {
            let ghost before = pieces@.map_values(|p: String| p@);
            let finished = current;
            pieces.push(finished);
            current = String::new();
            proof {
                assert(pieces@.map_values(|p: String| p@) =~= before.push(finished@));
            }
        } else {
            let ghost before = pieces@.map_values(|p: String| p@);
            push_char(&mut current, c);
            proof {
                assert(before.push(current@) =~= before.push(old_current(before, s@.take(i as int))).update(
                    before.len() as int,
                    old_current(before, s@.take(i as int)).push(c),
                ));
            }
        }
        i = i + 1;
    }
    proof {
        assert(s@.take(n as int) =~= s@);
    }
    pieces.push(current);
    proof {
        assert(pieces@.map_values(|p: String| p@) =~= old_pieces_view(pieces@));
    }
    pieces
}

spec fn old_current(before: Seq<Seq<char>>, prefix: Seq<char>) -> Seq<char> {
    newline_pieces(prefix).last()
}

spec fn old_pieces_view(p: Seq<String>) -> Seq<Seq<char>> {
    p.map_values(|x: String| x@)
}

/// The lines of `s`.
fn lines_of(s: &str) -> (r: Vec<String>)
    ensures
        r@.map_values(|p: String| p@) == lines_spec(s@),
{
    let mut pieces = split_pieces(s);
    proof {
        lemma_newline_pieces_nonempty(s@);
    }
    let last = pieces.len() - 1;
    if pieces[last].as_str().unicode_len() == 0 {
        let ghost before = pieces@;
        pieces.pop();
        proof {
            assert(pieces@.map_values(|p: String| p@) =~= before.map_values(|p: String| p@).drop_last());
        }
    }
    pieces
}

/// `s` with its lines trimmed, runs of blank lines reduced to one, and the
/// whole trimmed.
pub fn tidy_lines(s: &str) -> (r: String)
    ensures
        r@ == tidy_lines_spec(s@),
{
    let lines = lines_of(s);
    let ghost lv = lines@.map_values(|p: String| p@);
    let mut joined = String::new();
    let mut has_lines = false;
    let mut previous_blank = false;
    let mut i: usize = 0;
    while i < lines.len()
        invariant
            i <= lines@.len(),
            lv == lines@.map_values(|p: String| p@),
            cleaned_lines(lv.take(i as int)).1 == previous_blank,
            (cleaned_lines(lv.take(i as int)).0.len() > 0) == has_lines,
            joined@ == join_lines(cleaned_lines(lv.take(i as int)).0),
        decreases lines@.len() - i,
    {
        proof {
            assert(lv.take(i + 1).drop_last() =~= lv.take(i as int));
            assert(lv.take(i + 1).last() == lines@[i as int]@);
        }
        let t = trim(lines[i].as_str());
        let ghost acc = cleaned_lines(lv.take(i as int)).0;
        if t.as_str().unicode_len() == 0 {
            if !previous_blank {
                if has_lines {
                    push_char(&mut joined, '\n');
                }
                proof {
                    let next = acc.push(Seq::<char>::empty());
                    assert(next.drop_last() =~= acc);
                    if acc.len() == 0 {
                        assert(joined@ =~= join_lines(next));
                    } else {
                        assert(joined@ =~= join_lines(acc) + seq!['\n'] + Seq::<char>::empty());
                    }
                }
                has_lines = true;
            }
            previous_blank = true;
        } else {
            if has_lines {
                push_char(&mut joined, '\n');
            }
            let ghost before = joined@;
            joined.append(t.as_str());
            proof {
                let next = acc.push(t@);
                assert(next.drop_last() =~= acc);
                if acc.len() == 0 {
                    assert(joined@ =~= join_lines(next));
                } else {
                    assert(joined@ =~= join_lines(acc) + seq!['\n'] + t@);
                }
            }
            has_lines = true;
            previous_blank = false;
        }
        i = i + 1;
    }
    proof {
        assert(lv.take(i as int) =~= lv);
    }
    trim(joined.as_str())
}

// ── Previews ────────────────────────────────────────────────────────────────

/// Longest preview, in characters, before it is cut.
pub const SNIPPET_LIMIT: usize = 160;

/// A one-line preview of `text`: `(empty)` for blank text, else its words
/// joined by single spaces, cut after 160 characters with an ellipsis.
pub open spec fn summary_spec(text: Seq<char>) -> Seq<char> {
    let t = trim_spec(text);
    if t.len() == 0 {
        "(empty)"@
    } else {
        let single = collapse_whitespace_spec(t);
        if single.len() <= SNIPPET_LIMIT {
            single
        } else {
            single.take(SNIPPET_LIMIT as int).push('\u{2026}')
        }
    }
}

/// A one-line preview of `text` of at most 160 characters and an ellipsis.
pub fn summarise(text: &str) -> (r: String)
    ensures
        r@ == summary_spec(text@),
{
    let trimmed = trim(text);
    if trimmed.as_str().unicode_len() == 0 {
        return "(empty)".to_owned();
    }
    let single = collapse_whitespace(trimmed.as_str());
    let n = single.as_str().unicode_len();
    if n <= SNIPPET_LIMIT {
        return single;
    }
    let mut r = substring(single.as_str(), 0, SNIPPET_LIMIT);
    proof {
        assert(single@.subrange(0, SNIPPET_LIMIT as int) =~= single@.take(SNIPPET_LIMIT as int));
    }
    push_char(&mut r, '\u{2026}');
    r
}

} // verus!
