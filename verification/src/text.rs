//! Text utilities: characters, lines, whitespace-delimited tokens and greedy
//! word wrapping.
//!
//! Text is modelled as `Seq<char>`. A wrapped line is modelled as the group of
//! tokens it carries; its text is the tokens joined by single spaces.

use vstd::prelude::*;

verus! {

/// A group of tokens that share one output line.
pub type Group = Seq<Seq<char>>;

/// Characters with the Unicode `White_Space` property.
pub open spec fn is_whitespace(c: char) -> bool {
    let n = c as u32;
    (0x09 <= n && n <= 0x0d) || n == 0x20 || n == 0x85 || n == 0xa0 || n == 0x1680 || (0x2000 <= n
        && n <= 0x200a) || n == 0x2028 || n == 0x2029 || n == 0x202f || n == 0x205f || n == 0x3000
}

/// Number of characters before the first line feed at or after `pos`.
pub open spec fn line_len(s: Seq<char>, pos: int) -> nat
    decreases s.len() - pos,
{
    if 0 <= pos < s.len() && s[pos] != '\n' {
        1 + line_len(s, pos + 1)
    } else {
        0
    }
}

/// A line that starts inside the text ends inside it.
pub proof fn lemma_line_len_bound(s: Seq<char>, pos: int)
    requires
        0 <= pos <= s.len(),
    ensures
        pos + line_len(s, pos) <= s.len(),
        forall|i: int| pos <= i < pos + line_len(s, pos) ==> s[i] != '\n',
        pos + line_len(s, pos) < s.len() ==> s[pos + line_len(s, pos)] == '\n',
    decreases s.len() - pos,
{
    if pos < s.len() && s[pos] != '\n' {
        lemma_line_len_bound(s, pos + 1);
    }
}

/// Removes one trailing carriage return from a line that a line feed ended.
pub open spec fn strip_cr(line: Seq<char>, terminated: bool) -> Seq<char> {
    if terminated && line.len() > 0 && line.last() == '\r' {
        line.drop_last()
    } else {
        line
    }
}

/// The lines of `s` from position `pos` on. A line ends at a line feed, or at
/// a carriage return directly followed by one; the line ending is not part of
/// the line, and a final line ending opens no further line.
pub open spec fn lines_from(s: Seq<char>, pos: int) -> Seq<Seq<char>>
    decreases s.len() - pos,
{
    if 0 <= pos < s.len() {
        let end = pos + line_len(s, pos);
        if end < s.len() {
            seq![strip_cr(s.subrange(pos, end), true)] + lines_from(s, end + 1)
        } else {
            seq![s.subrange(pos, end)]
        }
    } else {
        Seq::empty()
    }
}

/// The lines of `s`.
pub open spec fn lines_of(s: Seq<char>) -> Seq<Seq<char>> {
    lines_from(s, 0)
}

/// Number of non-whitespace characters in a row, starting at `pos`.
pub open spec fn word_len(s: Seq<char>, pos: int) -> nat
    decreases s.len() - pos,
{
    if 0 <= pos < s.len() && !is_whitespace(s[pos]) {
        1 + word_len(s, pos + 1)
    } else {
        0
    }
}

/// A word that starts inside the text ends inside it, holds no whitespace
/// and is followed by whitespace or by the end of the text.
pub proof fn lemma_word_len_bound(s: Seq<char>, pos: int)
    requires
        0 <= pos <= s.len(),
    ensures
        pos + word_len(s, pos) <= s.len(),
        forall|i: int| pos <= i < pos + word_len(s, pos) ==> !is_whitespace(s[i]),
        pos + word_len(s, pos) < s.len() ==> is_whitespace(s[pos + word_len(s, pos)]),
    decreases s.len() - pos,
{
    if pos < s.len() && !is_whitespace(s[pos]) {
        lemma_word_len_bound(s, pos + 1);
    }
}

/// The whitespace-delimited tokens of `s` from position `pos` on.
pub open spec fn tokens_from(s: Seq<char>, pos: int) -> Group
    decreases s.len() - pos,
{
    if 0 <= pos < s.len() {
        if is_whitespace(s[pos]) {
            tokens_from(s, pos + 1)
        } else {
            let end = pos + 1 + word_len(s, pos + 1);
            proof {
                lemma_word_len_bound(s, pos + 1);
            }
            seq![s.subrange(pos, end)] + tokens_from(s, end)
        }
    } else {
        Seq::empty()
    }
}

/// The whitespace-delimited tokens of `s`.
pub open spec fn tokens_of(s: Seq<char>) -> Group {
    tokens_from(s, 0)
}

/// The tokens of a group joined by single spaces.
pub open spec fn join(g: Group) -> Seq<char>
    decreases g.len(),
{
    if g.len() == 0 {
        Seq::empty()
    } else if g.len() == 1 {
        g[0]
    } else {
        join(g.drop_last()) + seq![' '] + g.last()
    }
}

/// What a group counts against the width budget: every token and one
/// separator after each.
pub open spec fn cost(g: Group) -> nat {
    if g.len() == 0 {
        0
    } else {
        join(g).len() + 1
    }
}

/// Greedy grouping of `tokens`, continuing the line that holds `current`.
/// A token joins the current line while the line's cost, the token and its
/// separator fit in `width`; else the current line is closed, even when it is
/// empty, and the token opens the next one.
pub open spec fn wrap_groups(tokens: Group, current: Group, width: nat) -> Seq<Group>
    decreases tokens.len(),
{
    if tokens.len() == 0 {
        if current.len() == 0 {
            Seq::empty()
        } else {
            seq![current]
        }
    } else if cost(current) + tokens[0].len() + 1 > width {
        seq![current] + wrap_groups(tokens.drop_first(), seq![tokens[0]], width)
    } else {
        wrap_groups(tokens.drop_first(), current.push(tokens[0]), width)
    }
}

/// The width budget in use: at least one column.
pub open spec fn effective_width(max_width: nat) -> nat {
    if max_width == 0 {
        1
    } else {
        max_width
    }
}

/// The groups into which one line is wrapped.
pub open spec fn line_groups(line: Seq<char>, max_width: nat) -> Seq<Group> {
    wrap_groups(tokens_of(line), Seq::empty(), effective_width(max_width))
}

/// The groups into which a list of lines is wrapped, each line on its own.
pub open spec fn lines_groups(lines: Seq<Seq<char>>, max_width: nat) -> Seq<Group>
    decreases lines.len(),
{
    if lines.len() == 0 {
        Seq::empty()
    } else {
        lines_groups(lines.drop_last(), max_width) + line_groups(lines.last(), max_width)
    }
}

/// The groups into which the text `s` is wrapped.
pub open spec fn wrapped_groups(s: Seq<char>, max_width: nat) -> Seq<Group> {
    lines_groups(lines_of(s), max_width)
}

/// The text of each group.
pub open spec fn texts(groups: Seq<Group>) -> Seq<Seq<char>> {
    groups.map_values(|g: Group| join(g))
}

/// The wrapped lines of the text `s`.
pub open spec fn wrapped(s: Seq<char>, max_width: nat) -> Seq<Seq<char>> {
    texts(wrapped_groups(s, max_width))
}

/// All tokens of a list of groups, in order.
pub open spec fn flatten(groups: Seq<Group>) -> Group
    decreases groups.len(),
{
    if groups.len() == 0 {
        Seq::empty()
    } else {
        flatten(groups.drop_last()) + groups.last()
    }
}

/// The tokens of a list of lines, line after line.
pub open spec fn lines_tokens(lines: Seq<Seq<char>>) -> Group
    decreases lines.len(),
{
    if lines.len() == 0 {
        Seq::empty()
    } else {
        lines_tokens(lines.drop_last()) + tokens_of(lines.last())
    }
}

/// The greatest length among `lines`; zero when there is none.
pub open spec fn longest(lines: Seq<Seq<char>>) -> nat
    decreases lines.len(),
{
    if lines.len() == 0 {
        0
    } else if lines.last().len() > longest(lines.drop_last()) {
        lines.last().len()
    } else {
        longest(lines.drop_last())
    }
}

/// The greatest length among `lines`, and at least one: one where there is
/// no line, or none but empty ones.
pub open spec fn max_line_len(lines: Seq<Seq<char>>) -> nat {
    if longest(lines) == 0 {
        1
    } else {
        longest(lines)
    }
}

/// The views of a list of strings.
pub open spec fn views(v: Seq<String>) -> Seq<Seq<char>> {
    v.map_values(|s: String| s@)
}

/// The views of a list of string slices.
pub open spec fn slice_views(v: Seq<&str>) -> Seq<Seq<char>> {
    v.map_values(|s: &str| s@)
}

/// Tells whether `c` is whitespace.
pub fn char_is_whitespace(c: char) -> (r: bool)
    ensures
        r == is_whitespace(c),
{
    let n: u32 = c as u32;
    (0x09 <= n && n <= 0x0d) || n == 0x20 || n == 0x85 || n == 0xa0 || n == 0x1680 || (0x2000 <= n
        && n <= 0x200a) || n == 0x2028 || n == 0x2029 || n == 0x202f || n == 0x205f || n == 0x3000
}

/// Collects the characters of `text` into a vector.
pub fn to_chars(text: &str) -> (out: Vec<char>)
    ensures
        out@ == text@,
{
    let mut out: Vec<char> = Vec::new();
    for c in it: text.chars()
        invariant
            it.seq() == text@,
            out@ == text@.take(it.index() as int),
    {
        out.push(c);
    }
    out
}

/// `String::push` of std. Believed of it: afterwards the string holds what
/// it held before, followed by the one character `c`.
#[verifier::external_body]
fn push_char(s: &mut String, c: char)
    ensures
        final(s)@ == old(s)@.push(c),
{
    s.push(c);
}

/// Builds the string that holds the characters `chars[from..to]`.
pub fn to_text(chars: &Vec<char>, from: usize, to: usize) -> (out: String)
    requires
        from <= to <= chars@.len(),
    ensures
        out@ == chars@.subrange(from as int, to as int),
{
    let mut out: String = String::new();
    let mut i: usize = from;
    while i < to
        invariant
            from <= i <= to <= chars@.len(),
            out@ == chars@.subrange(from as int, i as int),
        decreases to - i,
    {
        push_char(&mut out, chars[i]);
        i += 1;
    }
    out
}

/// Appends the characters `src[from..to]` to `dst`.
fn append_range(dst: &mut Vec<char>, src: &Vec<char>, from: usize, to: usize)
    requires
        from <= to <= src@.len(),
    ensures
        final(dst)@ == old(dst)@ + src@.subrange(from as int, to as int),
{
    let mut i: usize = from;
    while i < to
        invariant
            from <= i <= to <= src@.len(),
            dst@ == old(dst)@ + src@.subrange(from as int, i as int),
        decreases to - i,
    {
        dst.push(src[i]);
        i += 1;
    }
}

/// Splits `text` into its lines.
pub fn split_lines<'a>(text: &'a str) -> (out: Vec<&'a str>)
    ensures
        slice_views(out@) == lines_of(text@),
{
    let chars: Vec<char> = to_chars(text);
    let n: usize = chars.len();
    let mut out: Vec<&'a str> = Vec::new();
    let mut pos: usize = 0;
    while pos < n
        invariant
            pos <= n,
            n == chars@.len(),
            chars@ == text@,
            slice_views(out@) + lines_from(text@, pos as int) == lines_of(text@),
        decreases n - pos,
    {
        let mut end: usize = pos;
        while end < n && chars[end] != '\n'
            invariant
                pos <= end <= n,
                n == chars@.len(),
                chars@ == text@,
                line_len(text@, pos as int) == (end - pos) + line_len(text@, end as int),
            decreases n - end,
        {
            end += 1;
        }
        if end < n {
            let stop: usize = if end > pos && chars[end - 1] == '\r' {
                end - 1
            } else {
                end
            };
            let line: &'a str = text.substring_char(pos, stop);
            out.push(line);
            proof {
                if end > pos {
                    assert(text@.subrange(pos as int, end as int).drop_last() =~= text@.subrange(
                        pos as int,
                        end - 1,
                    ));
                }
            }
            pos = end + 1;
        } else {
            let line: &'a str = text.substring_char(pos, end);
            out.push(line);
            pos = n;
        }
    }
    out
}

/// Wraps the one line `line` and appends its wrapped lines to `out`.
pub fn wrap_line(line: &str, max_width: usize, out: &mut Vec<String>)
    ensures
        views(final(out)@) == views(old(out)@) + texts(line_groups(line@, max_width as nat)),
{
    let width: usize = if max_width == 0 {
        1
    } else {
        max_width
    };
    let chars: Vec<char> = to_chars(line);
    let n: usize = chars.len();
    let mut current: Vec<char> = Vec::new();
    let mut pos: usize = 0;
    let ghost s = line@;
    let ghost mut group: Group = Seq::empty();
    let ghost mut closed: Seq<Group> = Seq::empty();
    while pos < n
        invariant
            pos <= n,
            n == chars@.len(),
            chars@ == s,
            width as nat == effective_width(max_width as nat),
            current@ == join(group),
            group.len() > 0 ==> current@.len() > 0,
            views(out@) == views(old(out)@) + texts(closed),
            closed + wrap_groups(tokens_from(s, pos as int), group, width as nat) == line_groups(
                s,
                max_width as nat,
            ),
        decreases n - pos,
    {
        if char_is_whitespace(chars[pos]) {
            pos += 1;
        } else {
            let mut end: usize = pos + 1;
            while end < n && !char_is_whitespace(chars[end])
                invariant
                    pos < end <= n,
                    n == chars@.len(),
                    chars@ == s,
                    word_len(s, pos + 1) == (end - pos - 1) + word_len(s, end as int),
                decreases n - end,
            {
                end += 1;
            }
            let token_len: usize = end - pos;
            let ghost token = s.subrange(pos as int, end as int);
            let ghost rest = tokens_from(s, end as int);
            proof {
                assert((seq![token] + rest).drop_first() =~= rest);
            }
            // Whether the line's cost, the token and its separator exceed the
            // width, written so that no sum can overflow.
            let overflow: bool = token_len >= width || (current.len() > 0 && current.len() >= width
                - token_len - 1);
            if overflow {
                let ghost before = views(out@);
                let text: String = to_text(&current, 0, current.len());
                out.push(text);
                current = Vec::new();
                append_range(&mut current, &chars, pos, end);
                proof {
                    assert(text@ =~= join(group));
                    assert(views(out@) =~= before.push(join(group)));
                    closed = closed.push(group);
                    group = seq![token];
                }
            } else {
                if current.len() > 0 {
                    current.push(' ');
                }
                append_range(&mut current, &chars, pos, end);
                proof {
                    assert(group.push(token).drop_last() =~= group);
                    group = group.push(token);
                }
            }
            pos = end;
        }
    }
    if current.len() > 0 {
        let ghost before = views(out@);
        let text: String = to_text(&current, 0, current.len());
        out.push(text);
        proof {
            assert(text@ =~= join(group));
            assert(views(out@) =~= before.push(join(group)));
        }
    }
}

/// Greedy word wrap. The text is split into its lines; each line is wrapped on
/// its own into lines of whitespace-delimited tokens joined by single spaces.
/// A width of zero counts as one. A token wider than the width stands alone on
/// a line and is never split.
pub fn wrap_text(input: &str, max_width: usize) -> (lines: Vec<String>)
    ensures
        views(lines@) == wrapped(input@, max_width as nat),
{
    let raw: Vec<&str> = split_lines(input);
    let mut lines: Vec<String> = Vec::new();
    let mut i: usize = 0;
    while i < raw.len()
        invariant
            i <= raw@.len(),
            slice_views(raw@) == lines_of(input@),
            views(lines@) == texts(
                lines_groups(slice_views(raw@).take(i as int), max_width as nat),
            ),
        decreases raw@.len() - i,
    {
        let ghost done = slice_views(raw@).take(i as int);
        wrap_line(raw[i], max_width, &mut lines);
        proof {
            let next = slice_views(raw@).take(i + 1);
            assert(next.drop_last() =~= done);
        }
        i += 1;
    }
    assert(slice_views(raw@).take(raw@.len() as int) =~= slice_views(raw@));
    lines
}

/// The greatest character count among `lines`, and at least one.
pub fn calculate_max_line_len(lines: &[&str]) -> (len: usize)
    ensures
        len as nat == max_line_len(slice_views(lines@)),
        len >= 1,
{
    let mut best: usize = 0;
    let mut i: usize = 0;
    while i < lines.len()
        invariant
            i <= lines@.len(),
            best as nat == longest(slice_views(lines@).take(i as int)),
        decreases lines@.len() - i,
    {
        let n: usize = lines[i].unicode_len();
        proof {
            let next = slice_views(lines@).take(i + 1);
            assert(next.drop_last() =~= slice_views(lines@).take(i as int));
        }
        if n > best {
            best = n;
        }
        i += 1;
    }
    assert(slice_views(lines@).take(lines@.len() as int) =~= slice_views(lines@));
    if best == 0 {
        1
    } else {
        best
    }
}

} // verus!
