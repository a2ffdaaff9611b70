//! Text wrapping: raw text is split into logical lines at `'\n'`, and each
//! logical line into display lines of at most `cols` characters.
use vstd::prelude::*;

use crate::text::{chars_of, string_of_range};

verus! {

/// The character content of each string.
pub open spec fn views(v: Seq<String>) -> Seq<Seq<char>> {
    v.map_values(|x: String| x@)
}

/// The logical lines of `s`: the pieces between `'\n'` characters. An empty
/// text, and a text ending in `'\n'`, end in an empty logical line.
pub open spec fn logical_lines(s: Seq<char>) -> Seq<Seq<char>>
    decreases s.len(),
{
    if s.len() == 0 {
        seq![Seq::<char>::empty()]
    } else {
        let prev = logical_lines(s.drop_last());
        if s.last() == '\n' {
            prev.push(Seq::<char>::empty())
        } else {
            prev.update(prev.len() - 1, prev.last().push(s.last()))
        }
    }
}

/// The display lines of one logical line: slices of exactly `cols`
/// characters, and a last slice with the rest (at least one slice).
pub open spec fn wrap_line(l: Seq<char>, cols: nat) -> Seq<Seq<char>>
    decreases l.len(),
{
    if cols == 0 || l.len() <= cols {
        seq![l]
    } else {
        seq![l.take(cols as int)] + wrap_line(l.skip(cols as int), cols)
    }
}

/// The display lines of a sequence of logical lines, in order.
pub open spec fn wrap_all(ls: Seq<Seq<char>>, cols: nat) -> Seq<Seq<char>>
    decreases ls.len(),
{
    if ls.len() == 0 {
        Seq::empty()
    } else {
        wrap_all(ls.drop_last(), cols) + wrap_line(ls.last(), cols)
    }
}

/// The display lines of a whole text.
pub open spec fn wrap_text(s: Seq<char>, cols: nat) -> Seq<Seq<char>> {
    wrap_all(logical_lines(s), cols)
}

/// The number of display lines of a logical line of `n` characters:
/// `ceil(max(1, n) / cols)`.
pub open spec fn piece_count(n: nat, cols: nat) -> nat {
    if n == 0 {
        1
    } else {
        ((n + cols - 1) / cols as int) as nat
    }
}

/// The number of display lines of a sequence of logical lines.
pub open spec fn total_pieces(ls: Seq<Seq<char>>, cols: nat) -> nat
    decreases ls.len(),
{
    if ls.len() == 0 {
        0
    } else {
        total_pieces(ls.drop_last(), cols) + piece_count(ls.last().len(), cols)
    }
}

/// The concatenation of a sequence of strings.
pub open spec fn concat(ls: Seq<Seq<char>>) -> Seq<char>
    decreases ls.len(),
{
    if ls.len() == 0 {
        Seq::empty()
    } else {
        concat(ls.drop_last()) + ls.last()
    }
}

/// The lines joined with `'\n'` between them.
pub open spec fn join_lines(ls: Seq<Seq<char>>) -> Seq<char>
    decreases ls.len(),
{
    if ls.len() == 0 {
        Seq::empty()
    } else if ls.len() == 1 {
        ls[0]
    } else {
        join_lines(ls.drop_last()) + seq!['\n'] + ls.last()
    }
}

/// An empty text has one empty display line.
pub proof fn lemma_wrap_empty(cols: nat)
    ensures
        wrap_text(Seq::<char>::empty(), cols) == seq![Seq::<char>::empty()],
{
    let e = Seq::<char>::empty();
    assert(logical_lines(e) == seq![e]);
    assert(seq![e].drop_last() =~= Seq::<Seq<char>>::empty());
    assert(wrap_all(Seq::<Seq<char>>::empty(), cols) == Seq::<Seq<char>>::empty());
    assert(wrap_line(e, cols) == seq![e]);
    assert(wrap_all(seq![e], cols) =~= seq![e]);
}

pub proof fn lemma_logical_lines_nonempty(s: Seq<char>)
    ensures
        logical_lines(s).len() >= 1,
    decreases s.len(),
{
    if s.len() > 0 {
        lemma_logical_lines_nonempty(s.drop_last());
    }
}

/// Splitting at `'\n'` loses nothing: the logical lines hold no `'\n'`, and
/// joined with `'\n'` they give the text back.
pub proof fn lemma_logical_lines_join(s: Seq<char>)
    ensures
        join_lines(logical_lines(s)) == s,
        forall|i: int, j: int|
            0 <= i < logical_lines(s).len() && 0 <= j < logical_lines(s)[i].len()
                ==> logical_lines(s)[i][j] != '\n',
    decreases s.len(),
{
    if s.len() > 0 {
        let p = s.drop_last();
        lemma_logical_lines_join(p);
        lemma_logical_lines_nonempty(p);
        let prev = logical_lines(p);
        let cur = logical_lines(s);
        if s.last() == '\n' {
            assert(cur.drop_last() =~= prev);
            assert(join_lines(cur) =~= s);
        } else {
            assert(cur.drop_last() =~= prev.drop_last());
            assert(s =~= p.push(s.last()));
            if prev.len() == 1 {
                assert(join_lines(cur) =~= s);
            } else {
                assert(join_lines(prev) == join_lines(prev.drop_last()) + seq!['\n']
                    + prev.last());
                assert(join_lines(cur) =~= s);
            }
            assert forall|i: int, j: int|
                0 <= i < cur.len() && 0 <= j < cur[i].len() implies cur[i][j] != '\n' by {
                if i == cur.len() - 1 && j == cur[i].len() - 1 {
                } else if i == cur.len() - 1 {
                    assert(cur[i][j] == prev[i][j]);
                }
            }
        }
    }
}

/// A logical line splits into `piece_count` display lines that concatenate
/// back to it; all but the last have exactly `cols` characters.
pub proof fn lemma_wrap_line(l: Seq<char>, cols: nat)
    requires
        cols > 0,
    ensures
        wrap_line(l, cols).len() == piece_count(l.len(), cols),
        concat(wrap_line(l, cols)) == l,
        forall|k: int| 0 <= k < wrap_line(l, cols).len() - 1 ==> #[trigger] wrap_line(l, cols)[k].len() == cols,
        wrap_line(l, cols).last().len() <= cols,
    decreases l.len(),
{
    if l.len() > cols {
        let rest = l.skip(cols as int);
        lemma_wrap_line(rest, cols);
        let w = wrap_line(l, cols);
        let wr = wrap_line(rest, cols);
        assert(w == seq![l.take(cols as int)] + wr);
        lemma_concat_prepend(l.take(cols as int), wr);
        assert(l.take(cols as int) + rest =~= l);
        assert((rest.len() + cols - 1) / cols as int + 1 == (l.len() + cols - 1) / cols as int) by (nonlinear_arith)
            requires rest.len() == l.len() - cols, cols > 0, l.len() > cols;
        assert forall|k: int| 0 <= k < w.len() - 1 implies #[trigger] w[k].len() == cols by {
            if k > 0 {
                assert(w[k] == wr[k - 1]);
            }
        }
    } else if l.len() > 0 {
        assert((l.len() + cols - 1) / cols as int == 1) by (nonlinear_arith)
            requires l.len() <= cols, l.len() > 0, cols > 0;
        lemma_concat_single(l);
    } else {
        lemma_concat_single(l);
    }
}

pub proof fn lemma_concat_single(a: Seq<char>)
    ensures
        concat(seq![a]) == a,
{
    assert(seq![a].drop_last() =~= Seq::<Seq<char>>::empty());
    assert(concat(Seq::<Seq<char>>::empty()) == Seq::<char>::empty());
    assert(seq![a].last() == a);
    assert(Seq::<char>::empty() + a =~= a);
}

pub proof fn lemma_concat_prepend(a: Seq<char>, ls: Seq<Seq<char>>)
    ensures
        concat(seq![a] + ls) == a + concat(ls),
    decreases ls.len(),
{
    if ls.len() == 0 {
        assert(seq![a] + ls =~= seq![a]);
        lemma_concat_single(a);
        assert(a + concat(ls) =~= a);
    } else {
        lemma_concat_prepend(a, ls.drop_last());
        assert((seq![a] + ls).drop_last() =~= seq![a] + ls.drop_last());
        assert(a + concat(ls) =~= a + concat(ls.drop_last()) + ls.last());
    }
}

pub proof fn lemma_wrap_all_len(ls: Seq<Seq<char>>, cols: nat)
    requires
        cols > 0,
    ensures
        wrap_all(ls, cols).len() == total_pieces(ls, cols),
    decreases ls.len(),
{
    if ls.len() > 0 {
        lemma_wrap_all_len(ls.drop_last(), cols);
        lemma_wrap_line(ls.last(), cols);
    }
}

/// Wrapping a text of logical lines `l_0, ..., l_n` at `cols > 0` gives
/// `sum(ceil(max(1, len(l_i)) / cols))` display lines: those of each logical
/// line, in order, which concatenate back to that line.
pub proof fn law_wrap_count_and_content(s: Seq<char>, cols: nat)
    requires
        cols > 0,
    ensures
        wrap_text(s, cols).len() == total_pieces(logical_lines(s), cols),
        wrap_text(s, cols) == wrap_all(logical_lines(s), cols),
        forall|i: int| 0 <= i < logical_lines(s).len()
            ==> concat(#[trigger] wrap_line(logical_lines(s)[i], cols)) == logical_lines(s)[i],
        join_lines(logical_lines(s)) == s,
{
    lemma_wrap_all_len(logical_lines(s), cols);
    lemma_logical_lines_join(s);
    assert forall|i: int| 0 <= i < logical_lines(s).len()
        implies concat(#[trigger] wrap_line(logical_lines(s)[i], cols)) == logical_lines(s)[i] by {
        lemma_wrap_line(logical_lines(s)[i], cols);
    }
}

/// Lines no longer than `cols` are not split: each is one display line.
pub proof fn lemma_wrap_all_short(ls: Seq<Seq<char>>, cols: nat)
    requires
        cols > 0,
        forall|i: int| 0 <= i < ls.len() ==> #[trigger] ls[i].len() <= cols,
    ensures
        wrap_all(ls, cols) == ls,
    decreases ls.len(),
{
    if ls.len() > 0 {
        lemma_wrap_all_short(ls.drop_last(), cols);
        assert(ls.last().len() <= cols);
        assert(ls.drop_last().push(ls.last()) =~= ls);
        assert(ls.drop_last() + seq![ls.last()] =~= ls);
    }
}

/// A text whose logical lines are all at most `cols` long has exactly one
/// display line per logical line: its display lines are its logical lines.
pub proof fn law_short_lines_one_to_one(s: Seq<char>, cols: nat)
    requires
        cols > 0,
        forall|i: int| 0 <= i < logical_lines(s).len() ==> #[trigger] logical_lines(s)[i].len() <= cols,
    ensures
        wrap_text(s, cols) == logical_lines(s),
        wrap_text(s, cols).len() == logical_lines(s).len(),
{
    lemma_wrap_all_short(logical_lines(s), cols);
}

/// Appends the display lines of `line` to `out`.
fn push_wrapped(line: &Vec<char>, cols: usize, out: &mut Vec<String>)
    requires
        cols > 0,
    ensures
        views(final(out)@) == views(old(out)@) + wrap_line(line@, cols as nat),
{
    let n = line.len();
    let mut start: usize = 0;
    assert(line@.skip(0) =~= line@);
    loop
        invariant
            cols > 0,
            n == line@.len(),
            start <= n,
            views(old(out)@) + wrap_line(line@, cols as nat)
                == views(out@) + wrap_line(line@.skip(start as int), cols as nat),
        decreases n - start,
    {
        let ghost rest = line@.skip(start as int);
        if n - start <= cols {
            let piece = string_of_range(line, start, n);
            assert(rest =~= line@.subrange(start as int, n as int));
            out.push(piece);
            assert(views(out@) =~= views(old(out)@) + wrap_line(line@, cols as nat));
            return;
        }
        let piece = string_of_range(line, start, start + cols);
        assert(rest.take(cols as int) =~= line@.subrange(start as int, start + cols));
        assert(rest.skip(cols as int) =~= line@.skip(start + cols));
        let ghost before = views(out@);
        out.push(piece);
        assert(views(out@) =~= before.push(rest.take(cols as int)));
        assert(seq![rest.take(cols as int)] + wrap_line(rest.skip(cols as int), cols as nat)
            == wrap_line(rest, cols as nat));
        assert(before + wrap_line(rest, cols as nat) =~= before.push(rest.take(cols as int))
            + wrap_line(rest.skip(cols as int), cols as nat));
        start = start + cols;
    }
}

/// Splits one line into display lines of `cols` characters, the last one
/// holding the rest.
pub fn split_line_at_width(line: &str, cols: usize) -> (r: Vec<String>)
    requires
        cols > 0,
    ensures
        views(r@) == wrap_line(line@, cols as nat),
{
    let chars = chars_of(line);
    let mut out: Vec<String> = Vec::new();
    push_wrapped(&chars, cols, &mut out);
    assert(views(out@) =~= wrap_line(line@, cols as nat));
    out
}

/// Splits a text into logical lines at `'\n'` and each of them into display
/// lines of `cols` characters.
pub fn split_at_width(text: &str, cols: usize) -> (r: Vec<String>)
    requires
        cols > 0,
    ensures
        views(r@) == wrap_text(text@, cols as nat),
{
    let chars = chars_of(text);
    let n = chars.len();
    let mut out: Vec<String> = Vec::new();
    let mut cur: Vec<char> = Vec::new();
    let mut i: usize = 0;
    proof {
        assert(chars@.take(0) =~= Seq::<char>::empty());
        assert(views(out@) =~= Seq::<Seq<char>>::empty());
        assert(seq![Seq::<char>::empty()].drop_last() =~= Seq::<Seq<char>>::empty());
    }
    while i < n
        invariant
            cols > 0,
            n == chars@.len(),
            chars@ == text@,
            i <= n,
            views(out@) == wrap_all(logical_lines(chars@.take(i as int)).drop_last(), cols as nat),
            cur@ == logical_lines(chars@.take(i as int)).last(),
        decreases n - i,
    {
        let c = chars[i];
        let ghost pre = chars@.take(i as int);
        let ghost post = chars@.take(i + 1);
        assert(post.drop_last() =~= pre);
        proof { lemma_logical_lines_nonempty(pre); }
        let ghost prev = logical_lines(pre);
        if c == '\n' {
            push_wrapped(&cur, cols, &mut out);
            assert(logical_lines(post).drop_last() =~= prev);
            cur = Vec::new();
            assert(cur@ =~= logical_lines(post).last());
        } else {
            cur.push(c);
            assert(logical_lines(post).drop_last() =~= prev.drop_last());
        }
        i += 1;
    }
    assert(chars@.take(n as int) =~= chars@);
    proof { lemma_logical_lines_nonempty(chars@); }
    push_wrapped(&cur, cols, &mut out);
    out
}

} // verus!
