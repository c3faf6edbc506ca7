//! Reading the keyboard layout from the output of `localectl status` and
//! `setxkbmap -query`. The application runs the commands; these functions
//! read the layout out of what they printed.

use vstd::prelude::*;
use vstd::string::StrSliceExecFns;

use crate::text::{starts_with, starts_with_spec, trim, trim_spec};

verus! {

/// Position of the first `c` in `s`, or the length of `s` when there is none.
pub open spec fn index_of(s: Seq<char>, c: char) -> nat
    decreases s.len(),
{
    if s.len() == 0 {
        0
    } else if s[0] == c {
        0
    } else {
        1 + index_of(s.drop_first(), c)
    }
}

proof fn lemma_index_of_bound(s: Seq<char>, c: char)
    ensures
        index_of(s, c) <= s.len(),
        index_of(s, c) < s.len() ==> s[index_of(s, c) as int] == c,
    decreases s.len(),
{
    if s.len() > 0 && s[0] != c {
        lemma_index_of_bound(s.drop_first(), c);
    }
}

/// A line without the carriage return of a `\r\n` ending.
pub open spec fn strip_cr(t: Seq<char>) -> Seq<char> {
    if t.len() > 0 && t.last() == '\r' {
        t.drop_last()
    } else {
        t
    }
}

/// The lines of a text as `str::lines` yields them: split at `\n`, a `\r`
/// before the `\n` removed, no empty line after a final `\n`.
pub open spec fn lines_spec(s: Seq<char>) -> Seq<Seq<char>>
    decreases s.len(),
{
    if s.len() == 0 {
        Seq::<Seq<char>>::empty()
    } else {
        let i = index_of(s, '\n');
        if i < s.len() {
            seq![strip_cr(s.take(i as int))] + lines_spec(s.skip(i + 1int))
        } else {
            seq![s]
        }
    }
}

/// The second `:`-separated field of a line (`split(':').nth(1)`), when the
/// line has a `:`.
pub open spec fn second_field(l: Seq<char>) -> Option<Seq<char>> {
    let i = index_of(l, ':');
    if i < l.len() {
        let rest = l.skip(i + 1int);
        Some(rest.take(index_of(rest, ':') as int))
    } else {
        None
    }
}

/// The layout a line names: its second field without surrounding white
/// space, when that is not empty.
pub open spec fn layout_of_line(l: Seq<char>) -> Option<Seq<char>> {
    match second_field(l) {
        Some(f) => if trim_spec(f).len() > 0 {
            Some(trim_spec(f))
        } else {
            None
        },
        None => None,
    }
}

/// The first line that starts with `prefix` (after removing white space
/// around it when `trimmed`).
pub open spec fn first_line_with(
    lines: Seq<Seq<char>>,
    prefix: Seq<char>,
    trimmed: bool,
) -> Option<Seq<char>>
    decreases lines.len(),
{
    if lines.len() == 0 {
        None
    } else if starts_with_spec(
        if trimmed {
            trim_spec(lines[0])
        } else {
            lines[0]
        },
        prefix,
    ) {
        Some(lines[0])
    } else {
        first_line_with(lines.drop_first(), prefix, trimmed)
    }
}

/// The layout in the output of a command: from the first line that starts
/// with `prefix`.
pub open spec fn layout_in_output(out: Seq<char>, prefix: Seq<char>, trimmed: bool) -> Option<
    Seq<char>,
> {
    match first_line_with(lines_spec(out), prefix, trimmed) {
        Some(l) => layout_of_line(l),
        None => None,
    }
}

fn find_char_from(s: &str, from: usize, c: char) -> (e: usize)
    requires
        from <= s@.len(),
    ensures
        from <= e <= s@.len(),
        e - from == index_of(s@.skip(from as int), c),
{
    let n = s.unicode_len();
    let mut k = from;
    assert(s@.skip(from as int) =~= s@.skip(k as int));
    while k < n && s.get_char(k) != c
        invariant
            n == s@.len(),
            from <= k <= n,
            index_of(s@.skip(from as int), c) == (k - from) + index_of(s@.skip(k as int), c),
        decreases n - k,
    {
        assert(s@.skip(k as int).drop_first() =~= s@.skip(k + 1));
        assert(s@.skip(k as int)[0] == s@[k as int]);
        k = k + 1;
    }
    if k == n {
        assert(s@.skip(k as int).len() == 0);
    } else {
        assert(s@.skip(k as int)[0] == s@[k as int]);
    }
    k
}

/// The layout a line names (see [`layout_of_line`]).
fn line_layout(line: &str) -> (r: Option<String>)
    ensures
        crate::config::opt_view(r) == layout_of_line(line@),
{
    let n = line.unicode_len();
    let i = find_char_from(line, 0, ':');
    assert(line@.skip(0) =~= line@);
    if i == n {
        return None;
    }
    let rest = line.substring_char(i + 1, n);
    assert(rest@ =~= line@.skip(i + 1));
    let m = rest.unicode_len();
    let j = find_char_from(rest, 0, ':');
    assert(rest@.skip(0) =~= rest@);
    let field = rest.substring_char(0, j);
    assert(field@ =~= rest@.take(j as int));
    let t = trim(field);
    if t.as_str().unicode_len() > 0 {
        Some(t)
    } else {
        None
    }
}

proof fn lemma_lines_step(t: Seq<char>)
    requires
        t.len() > 0,
    ensures
        index_of(t, '\n') < t.len() ==> lines_spec(t) == seq![strip_cr(t.take(index_of(t, '\n') as int))]
            + lines_spec(t.skip(index_of(t, '\n') + 1int)),
        index_of(t, '\n') >= t.len() ==> lines_spec(t) == seq![t],
{
}

/// The layout in a command's output (see [`layout_in_output`]).
pub fn layout_from_output(out: &str, prefix: &str, trimmed: bool) -> (r: Option<String>)
    ensures
        crate::config::opt_view(r) == layout_in_output(out@, prefix@, trimmed),
{
    let n = out.unicode_len();
    let mut pos: usize = 0;
    assert(out@.skip(0) =~= out@);
    while pos < n
        invariant
            n == out@.len(),
            pos <= n,
            first_line_with(lines_spec(out@), prefix@, trimmed) == first_line_with(
                lines_spec(out@.skip(pos as int)),
                prefix@,
                trimmed,
            ),
        decreases n - pos,
    {
        let ghost t = out@.skip(pos as int);
        let e = find_char_from(out, pos, '\n');
        proof {
            lemma_index_of_bound(t, '\n');
            lemma_lines_step(t);
        }
        let mut end = e;
        if e < n && e > pos && out.get_char(e - 1) == '\r' {
            end = e - 1;
        }
        let line = out.substring_char(pos, end);
        let ghost l = if e < n {
            strip_cr(t.take(e - pos))
        } else {
            t
        };
        assert(line@ =~= l);
        let candidate = if trimmed {
            trim(line)
        } else {
            line.to_owned()
        };
        let ghost lines = lines_spec(t);
        assert(lines[0] == l);
        if starts_with(candidate.as_str(), prefix) {
            return line_layout(line);
        }
        if e < n {
            assert(t.skip(e - pos + 1) =~= out@.skip(e + 1));
            assert(lines == seq![l] + lines_spec(out@.skip(e + 1)));
            assert(lines.drop_first() =~= lines_spec(out@.skip(e + 1)));
            pos = e + 1;
        } else {
            assert(lines == seq![t]);
            assert(lines.drop_first() =~= Seq::<Seq<char>>::empty());
            assert(first_line_with(Seq::<Seq<char>>::empty(), prefix@, trimmed) is None);
            assert(first_line_with(lines, prefix@, trimmed) is None);
            return None;
        }
    }
    assert(out@.skip(pos as int).len() == 0);
    None
}

/// The X11 layout `localectl status` shows: the line `X11 Layout: ..`.
pub fn layout_from_localectl(stdout: &str) -> (r: Option<String>)
    ensures
        crate::config::opt_view(r) == layout_in_output(stdout@, "X11 Layout:"@, true),
{
    layout_from_output(stdout, "X11 Layout:", true)
}

/// The layout `setxkbmap -query` shows: the line `layout: ..`.
pub fn layout_from_setxkbmap(stdout: &str) -> (r: Option<String>)
    ensures
        crate::config::opt_view(r) == layout_in_output(stdout@, "layout:"@, false),
{
    layout_from_output(stdout, "layout:", false)
}

} // verus!
