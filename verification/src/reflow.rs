//! Reflowing captured tool output into lines of bounded width.

use vstd::prelude::*;
use vstd::string::*;

verus! {

/// The widest fragment, in characters, that reflowing lets through.
pub const WIDTH: usize = 80;

/// Where the fragment that starts at `from` ends in a line of `len` characters.
pub open spec fn fragment_end(from: int, len: int) -> int {
    if from + WIDTH <= len {
        from + WIDTH
    } else {
        len
    }
}

/// How many fragments a line of `len` characters gives: as few as hold it
/// at `WIDTH` characters each, and one for an empty line.
pub open spec fn fragment_count(len: nat) -> nat {
    if len == 0 {
        1
    } else {
        ((len + WIDTH - 1) / (WIDTH as int)) as nat
    }
}

/// The fragments of one line: consecutive pieces of `WIDTH` characters and a
/// last piece that holds the rest. A line of up to `WIDTH` characters is its
/// own single fragment; no fragment of a longer line is empty.
pub open spec fn wrap_spec(line: Seq<char>) -> Seq<Seq<char>> {
    Seq::new(
        fragment_count(line.len()),
        |i: int| line.subrange(i * WIDTH, fragment_end(i * WIDTH, line.len() as int)),
    )
}

/// Cuts `line` into fragments of at most `WIDTH` characters, without regard
/// to words. A line that is not wider than `WIDTH` is left whole.
pub fn wrap(line: &str) -> (fragments: Vec<&str>)
    ensures
        fragments.deep_view() == wrap_spec(line@),
{
    let n: usize = line.unicode_len();
    let mut fragments: Vec<&str> = Vec::new();
    let mut start: usize = 0;
    while n - start > WIDTH
        invariant
            start <= n,
            start == 0 || start < n,
            n == line@.len(),
            start == fragments.len() * WIDTH,
            forall|i: int|
                0 <= i < fragments.len() ==> (#[trigger] fragments[i])@ == line@.subrange(
                    i * WIDTH,
                    i * WIDTH + WIDTH,
                ),
        decreases n - start,
    {
        fragments.push(line.substring_char(start, start + WIDTH));
        start = start + WIDTH;
    }
    fragments.push(line.substring_char(start, n));
    assert(fragments.len() == fragment_count(line@.len()));
    assert(fragments.deep_view() =~= wrap_spec(line@));
    fragments
}

/// The lines of `text`: the pieces between its line feeds, in order. A text
/// with `k` line feeds has `k + 1` lines; one that ends in a line feed has an
/// empty last line.
pub open spec fn lines_spec(text: Seq<char>) -> Seq<Seq<char>>
    decreases text.len(),
{
    if text.len() == 0 {
        seq![Seq::<char>::empty()]
    } else {
        let before = lines_spec(text.drop_last());
        if text.last() == '\n' {
            before.push(Seq::<char>::empty())
        } else {
            before.drop_last().push(before.last().push(text.last()))
        }
    }
}

/// Splits `text` at its line feeds.
pub fn split_lines(text: &str) -> (lines: Vec<&str>)
    ensures
        lines.deep_view() == lines_spec(text@),
{
    let n: usize = text.unicode_len();
    let mut lines: Vec<&str> = Vec::new();
    let mut start: usize = 0;
    let mut pos: usize = 0;
    proof {
        assert(text@.take(0) =~= Seq::<char>::empty());
    }
    for c in it: text.chars()
        invariant
            n == text@.len(),
            it.seq() == text@,
            pos == it.index(),
            start <= pos <= n,
            lines.deep_view().push(text@.subrange(start as int, pos as int)) == lines_spec(
                text@.take(pos as int),
            ),
    {
        let ghost current = text@.subrange(start as int, pos as int);
        proof {
            assert(text@.take(pos + 1).drop_last() =~= text@.take(pos as int));
        }
        if c == '\n' {
            lines.push(text.substring_char(start, pos));
            start = pos + 1;
            proof {
                assert(text@.subrange(start as int, pos + 1) =~= Seq::<char>::empty());
            }
        } else {
            proof {
                assert(text@.subrange(start as int, pos + 1) =~= current.push(c));
            }
        }
        pos = pos + 1;
    }
    lines.push(text.substring_char(start, pos));
    proof {
        assert(text@.take(pos as int) =~= text@);
    }
    lines
}

/// The fragments of a whole text: each line's fragments, line after line.
pub open spec fn reflow_spec(text: Seq<char>) -> Seq<Seq<char>> {
    lines_spec(text).map_values(|line: Seq<char>| wrap_spec(line)).flatten()
}

/// Reflows `text` line by line, keeping the lines in order.
pub fn reflow(text: &str) -> (fragments: Vec<&str>)
    ensures
        fragments.deep_view() == reflow_spec(text@),
{
    let lines = split_lines(text);
    let mut fragments: Vec<&str> = Vec::new();
    let ghost wrapped = lines.deep_view().map_values(|line: Seq<char>| wrap_spec(line));
    for i in 0..lines.len()
        invariant
            wrapped == lines.deep_view().map_values(|line: Seq<char>| wrap_spec(line)),
            fragments.deep_view() == wrapped.take(i as int).flatten(),
    {
        let mut piece = wrap(lines[i]);
        fragments.append(&mut piece);
        proof {
            assert(wrapped.take(i + 1) =~= wrapped.take(i as int).push(wrapped[i as int]));
            wrapped.take(i as int).lemma_flatten_push(wrapped[i as int]);
        }
    }
    proof {
        assert(wrapped.take(lines.len() as int) =~= wrapped);
    }
    fragments
}

/// The parts written one after another with `sep` between neighbours.
pub open spec fn join_spec(parts: Seq<Seq<char>>, sep: Seq<char>) -> Seq<char>
    decreases parts.len(),
{
    if parts.len() == 0 {
        Seq::<char>::empty()
    } else if parts.len() == 1 {
        parts[0]
    } else {
        join_spec(parts.drop_last(), sep) + sep + parts.last()
    }
}

/// Joins `parts` with `sep` between neighbours.
pub fn join_fragments(parts: &Vec<&str>, sep: &str) -> (joined: String)
    ensures
        joined@ == join_spec(parts.deep_view(), sep@),
{
    let mut joined = String::new();
    let ghost all = parts.deep_view();
    for i in 0..parts.len()
        invariant
            all == parts.deep_view(),
            joined@ == join_spec(all.take(i as int), sep@),
    {
        proof {
            assert(all.take(i + 1).drop_last() =~= all.take(i as int));
        }
        if i > 0 {
            joined.append(sep);
        }
        joined.append(parts[i]);
    }
    proof {
        assert(all.take(parts.len() as int) =~= all);
    }
    joined
}

/// A line of up to `WIDTH` characters is left whole: one fragment, the line
/// itself.
pub proof fn lemma_wrap_short(line: Seq<char>)
    requires
        line.len() <= WIDTH,
    ensures
        wrap_spec(line) == seq![line],
{
    assert(wrap_spec(line)[0] =~= line);
}

/// A line of more than `WIDTH` and at most twice `WIDTH` characters is cut
/// once: the first fragment holds `WIDTH` characters, the second the rest, and
/// the two put together are the line.
pub proof fn lemma_wrap_one_cut(line: Seq<char>)
    requires
        WIDTH < line.len() <= 2 * WIDTH,
    ensures
        wrap_spec(line) == seq![line.take(WIDTH as int), line.skip(WIDTH as int)],
        wrap_spec(line)[0].len() == WIDTH,
        wrap_spec(line)[1].len() == line.len() - WIDTH,
        wrap_spec(line)[0] + wrap_spec(line)[1] == line,
{
    assert(wrap_spec(line) =~= seq![line.take(WIDTH as int), line.skip(WIDTH as int)]);
    assert(line.take(WIDTH as int) + line.skip(WIDTH as int) =~= line);
}

/// No fragment is wider than `WIDTH`, and none of a line that is not empty
/// is empty: all but the last hold exactly `WIDTH` characters, the last what
/// is left, between one and `WIDTH`.
pub proof fn lemma_wrap_widths(line: Seq<char>)
    ensures
        wrap_spec(line).len() == fragment_count(line.len()),
        forall|i: int|
            0 <= i < wrap_spec(line).len() - 1 ==> (#[trigger] wrap_spec(line)[i]).len() == WIDTH,
        wrap_spec(line).last().len() == line.len() - WIDTH * (wrap_spec(line).len() - 1),
        forall|i: int|
            0 <= i < wrap_spec(line).len() ==> (#[trigger] wrap_spec(line)[i]).len() <= WIDTH,
        line.len() > 0 ==> forall|i: int|
            0 <= i < wrap_spec(line).len() ==> (#[trigger] wrap_spec(line)[i]).len() >= 1,
{
}

/// A line of more than `WIDTH` characters gives its first `WIDTH` characters
/// as the first fragment, and then the fragments of the rest.
pub proof fn lemma_wrap_long(line: Seq<char>)
    requires
        line.len() > WIDTH,
    ensures
        wrap_spec(line) == seq![line.take(WIDTH as int)] + wrap_spec(line.skip(WIDTH as int)),
{
    let rest = line.skip(WIDTH as int);
    let unfolded = seq![line.take(WIDTH as int)] + wrap_spec(rest);
    assert(fragment_count(line.len()) == 1 + fragment_count(rest.len()));
    assert forall|i: int| 0 <= i < wrap_spec(line).len() implies wrap_spec(line)[i]
        == unfolded[i] by {
        if i > 0 {
            assert(wrap_spec(rest)[i - 1] =~= wrap_spec(line)[i]);
        } else {
            assert(wrap_spec(line)[0] =~= line.take(WIDTH as int));
        }
    }
    assert(wrap_spec(line) =~= unfolded);
}

/// Wrapping loses nothing: the fragments put together are the line.
pub proof fn lemma_wrap_round_trip(line: Seq<char>)
    ensures
        wrap_spec(line).flatten() == line,
    decreases line.len(),
{
    if line.len() <= WIDTH {
        lemma_wrap_short(line);
        seq![line].lemma_flatten_singleton();
    } else {
        let first = seq![line.take(WIDTH as int)];
        let rest = line.skip(WIDTH as int);
        lemma_wrap_long(line);
        lemma_wrap_round_trip(rest);
        vstd::seq_lib::lemma_flatten_concat(first, wrap_spec(rest));
        first.lemma_flatten_singleton();
        assert(line.take(WIDTH as int) + rest =~= line);
    }
}

/// No line holds a line feed, and the lines joined by line feeds are the text.
pub proof fn lemma_lines_round_trip(text: Seq<char>)
    ensures
        lines_spec(text).len() >= 1,
        forall|i: int, j: int|
            0 <= i < lines_spec(text).len() && 0 <= j < lines_spec(text)[i].len()
                ==> lines_spec(text)[i][j] != '\n',
        join_spec(lines_spec(text), seq!['\n']) == text,
    decreases text.len(),
{
    if text.len() > 0 {
        let head = text.drop_last();
        let before = lines_spec(head);
        lemma_lines_round_trip(head);
        if text.last() == '\n' {
            assert(before.push(Seq::<char>::empty()).drop_last() =~= before);
        } else {
            let grown = before.last().push(text.last());
            assert(before.drop_last().push(grown).drop_last() =~= before.drop_last());
            assert(head.push(text.last()) =~= text);
        }
    }
}

/// A text without line feeds is its own single line.
pub proof fn lemma_lines_single(text: Seq<char>)
    requires
        !text.contains('\n'),
    ensures
        lines_spec(text) == seq![text],
    decreases text.len(),
{
    if text.len() == 0 {
        assert(text =~= Seq::<char>::empty());
    } else {
        let head = text.drop_last();
        assert(text.last() != '\n');
        assert(!head.contains('\n')) by {
            if head.contains('\n') {
                let k = choose|k: int| 0 <= k < head.len() && head[k] == '\n';
                assert(text[k] == '\n');
            }
        }
        lemma_lines_single(head);
        assert(head.push(text.last()) =~= text);
    }
}

/// A text without line feeds is reflowed as the one line it is.
pub proof fn lemma_reflow_single_line(text: Seq<char>)
    requires
        !text.contains('\n'),
    ensures
        reflow_spec(text) == wrap_spec(text),
{
    lemma_lines_single(text);
    let wrapped = lines_spec(text).map_values(|line: Seq<char>| wrap_spec(line));
    wrapped.lemma_flatten_singleton();
}

/// The lines of two texts with a line feed between them are the lines of the
/// first, then the lines of the second.
pub proof fn lemma_lines_concat(head: Seq<char>, tail: Seq<char>)
    ensures
        lines_spec(head + seq!['\n'] + tail) == lines_spec(head) + lines_spec(tail),
    decreases tail.len(),
{
    let text = head + seq!['\n'] + tail;
    if tail.len() == 0 {
        assert(text.drop_last() =~= head);
    } else {
        let shorter = tail.drop_last();
        lemma_lines_concat(head, shorter);
        lemma_lines_round_trip(shorter);
        assert(text.drop_last() =~= head + seq!['\n'] + shorter);
    }
}

/// Reflowing goes line by line and keeps the lines in order: the fragments
/// of two texts with a line feed between them are the fragments of the first,
/// then the fragments of the second.
pub proof fn lemma_reflow_line_by_line(head: Seq<char>, tail: Seq<char>)
    ensures
        reflow_spec(head + seq!['\n'] + tail) == reflow_spec(head) + reflow_spec(tail),
{
    lemma_lines_concat(head, tail);
    let f = |line: Seq<char>| wrap_spec(line);
    let first = lines_spec(head).map_values(f);
    let second = lines_spec(tail).map_values(f);
    assert((lines_spec(head) + lines_spec(tail)).map_values(f) =~= first + second);
    vstd::seq_lib::lemma_flatten_concat(first, second);
}

} // verus!
