//! Laws of the word wrap: every wrapped line respects the width unless it is
//! one oversized token, and wrapping neither loses, adds nor reorders tokens.

use crate::text::{
    cost, effective_width, flatten, is_whitespace, join, lemma_line_len_bound,
    lemma_word_len_bound, line_groups, line_len, lines_from, lines_groups, lines_of, lines_tokens,
    strip_cr, texts, tokens_from, tokens_of, word_len, wrap_groups, wrapped, wrapped_groups, Group,
};
use vstd::prelude::*;

verus! {

/// A group respects `width`: its text is no wider than `width`, or it is one
/// single token that is itself wider than `width`.
pub open spec fn fits(g: Group, width: nat) -> bool {
    join(g).len() <= width || (g.len() == 1 && g[0].len() > width)
}

/// Joining a group extended by one token.
pub proof fn lemma_join_push(g: Group, token: Seq<char>)
    ensures
        join(g.push(token)) == if g.len() == 0 {
            token
        } else {
            join(g) + seq![' '] + token
        },
{
    assert(g.push(token).drop_last() =~= g);
}

/// Flattening distributes over concatenation.
pub proof fn lemma_flatten_concat(a: Seq<Group>, b: Seq<Group>)
    ensures
        flatten(a + b) == flatten(a) + flatten(b),
    decreases b.len(),
{
    if b.len() > 0 {
        lemma_flatten_concat(a, b.drop_last());
        assert((a + b).drop_last() =~= a + b.drop_last());
    }
}

/// Flattening a single group gives the group.
pub proof fn lemma_flatten_one(g: Group)
    ensures
        flatten(seq![g]) == g,
{
    assert(seq![g].drop_last() =~= Seq::<Group>::empty());
    assert(flatten(Seq::<Group>::empty()) + g =~= g);
}

/// Greedy grouping keeps every token: the groups, flattened, are the current
/// line's tokens followed by the remaining ones.
pub proof fn lemma_wrap_groups_tokens(tokens: Group, current: Group, width: nat)
    ensures
        flatten(wrap_groups(tokens, current, width)) == current + tokens,
    decreases tokens.len(),
{
    if tokens.len() == 0 {
        if current.len() > 0 {
            lemma_flatten_one(current);
        }
    } else if cost(current) + tokens[0].len() + 1 > width {
        let rest = wrap_groups(tokens.drop_first(), seq![tokens[0]], width);
        lemma_wrap_groups_tokens(tokens.drop_first(), seq![tokens[0]], width);
        lemma_flatten_concat(seq![current], rest);
        lemma_flatten_one(current);
    } else {
        lemma_wrap_groups_tokens(tokens.drop_first(), current.push(tokens[0]), width);
    }
}

/// Greedy grouping respects the width: when the current line does, so does
/// every group that comes out.
pub proof fn lemma_wrap_groups_fit(tokens: Group, current: Group, width: nat)
    requires
        fits(current, width),
    ensures
        forall|i: int|
            0 <= i < wrap_groups(tokens, current, width).len() ==> fits(
                #[trigger] wrap_groups(tokens, current, width)[i],
                width,
            ),
    decreases tokens.len(),
{
    let all = wrap_groups(tokens, current, width);
    if tokens.len() == 0 {
        assert forall|i: int| 0 <= i < all.len() implies fits(#[trigger] all[i], width) by {}
    } else if cost(current) + tokens[0].len() + 1 > width {
        let rest = wrap_groups(tokens.drop_first(), seq![tokens[0]], width);
        lemma_wrap_groups_fit(tokens.drop_first(), seq![tokens[0]], width);
        assert forall|i: int| 0 <= i < all.len() implies fits(#[trigger] all[i], width) by {
            if i > 0 {
                assert(all[i] == rest[i - 1]);
            }
        }
    } else {
        let next = current.push(tokens[0]);
        lemma_join_push(current, tokens[0]);
        lemma_wrap_groups_fit(tokens.drop_first(), next, width);
        assert(all == wrap_groups(tokens.drop_first(), next, width));
    }
}

/// Tokens survive the wrapping of a list of lines.
pub proof fn lemma_lines_groups_tokens(lines: Seq<Seq<char>>, max_width: nat)
    ensures
        flatten(lines_groups(lines, max_width)) == lines_tokens(lines),
    decreases lines.len(),
{
    if lines.len() > 0 {
        lemma_lines_groups_tokens(lines.drop_last(), max_width);
        lemma_flatten_concat(
            lines_groups(lines.drop_last(), max_width),
            line_groups(lines.last(), max_width),
        );
        lemma_wrap_groups_tokens(
            tokens_of(lines.last()),
            Seq::empty(),
            effective_width(max_width),
        );
    }
}

/// Every group of a wrapped list of lines respects the width.
pub proof fn lemma_lines_groups_fit(lines: Seq<Seq<char>>, max_width: nat)
    ensures
        forall|i: int|
            0 <= i < lines_groups(lines, max_width).len() ==> fits(
                #[trigger] lines_groups(lines, max_width)[i],
                effective_width(max_width),
            ),
    decreases lines.len(),
{
    if lines.len() > 0 {
        let all = lines_groups(lines, max_width);
        let head = lines_groups(lines.drop_last(), max_width);
        let tail = line_groups(lines.last(), max_width);
        lemma_lines_groups_fit(lines.drop_last(), max_width);
        lemma_wrap_groups_fit(tokens_of(lines.last()), Seq::empty(), effective_width(max_width));
        assert forall|i: int| 0 <= i < all.len() implies fits(
            #[trigger] all[i],
            effective_width(max_width),
        ) by {
            if i < head.len() {
                assert(all[i] == head[i]);
            } else {
                assert(all[i] == tail[i - head.len()]);
            }
        }
    }
}

/// A token: at least one character, none of them whitespace.
pub open spec fn is_token(t: Seq<char>) -> bool {
    t.len() > 0 && forall|i: int| 0 <= i < t.len() ==> !is_whitespace(#[trigger] t[i])
}

/// A group of tokens.
pub open spec fn all_tokens(g: Group) -> bool {
    forall|i: int| 0 <= i < g.len() ==> is_token(#[trigger] g[i])
}

/// A word is the same in the text and in the text cut at whitespace or at
/// its end.
pub proof fn lemma_word_len_take(s: Seq<char>, pos: int, end: int)
    requires
        0 <= pos <= end <= s.len(),
        end == s.len() || is_whitespace(s[end]),
    ensures
        word_len(s.take(end), pos) == word_len(s, pos),
    decreases end - pos,
{
    if pos < end && !is_whitespace(s[pos]) {
        lemma_word_len_take(s, pos + 1, end);
    }
}

/// The tokens of a text divide at whitespace: those before it are the
/// tokens of the text cut there.
pub proof fn lemma_tokens_take(s: Seq<char>, pos: int, end: int)
    requires
        0 <= pos <= end <= s.len(),
        end == s.len() || is_whitespace(s[end]),
    ensures
        tokens_from(s, pos) == tokens_from(s.take(end), pos) + tokens_from(s, end),
    decreases end - pos,
{
    let cut = s.take(end);
    if pos == end {
    } else if is_whitespace(s[pos]) {
        lemma_tokens_take(s, pos + 1, end);
    } else {
        lemma_word_len_take(s, pos + 1, end);
        lemma_word_len_bound(cut, pos + 1);
        let stop = pos + 1 + word_len(s, pos + 1);
        lemma_tokens_take(s, stop, end);
        assert(cut.subrange(pos, stop) =~= s.subrange(pos, stop));
    }
}

/// A word is the same in the text and in what is left of the text behind a
/// position.
pub proof fn lemma_word_len_skip(s: Seq<char>, from: int, pos: int)
    requires
        0 <= from <= s.len(),
        0 <= pos,
    ensures
        word_len(s.skip(from), pos) == word_len(s, from + pos),
    decreases s.len() - from - pos,
{
    if from + pos < s.len() && !is_whitespace(s[from + pos]) {
        lemma_word_len_skip(s, from, pos + 1);
    }
}

/// The tokens behind a position are the tokens of what is left of the text
/// behind it.
pub proof fn lemma_tokens_skip(s: Seq<char>, from: int, pos: int)
    requires
        0 <= from <= s.len(),
        0 <= pos,
    ensures
        tokens_from(s.skip(from), pos) == tokens_from(s, from + pos),
    decreases s.len() - from - pos,
{
    let rest = s.skip(from);
    if from + pos < s.len() {
        if is_whitespace(s[from + pos]) {
            lemma_tokens_skip(s, from, pos + 1);
        } else {
            lemma_word_len_skip(s, from, pos + 1);
            lemma_word_len_bound(s, from + pos + 1);
            let n = 1 + word_len(s, from + pos + 1);
            lemma_tokens_skip(s, from, pos + n);
            assert(rest.subrange(pos, pos + n) =~= s.subrange(from + pos, from + pos + n));
        }
    }
}

/// A carriage return at the end of a line is no token.
pub proof fn lemma_strip_cr_tokens(line: Seq<char>, terminated: bool)
    ensures
        tokens_of(strip_cr(line, terminated)) == tokens_of(line),
{
    if terminated && line.len() > 0 && line.last() == '\r' {
        let end = line.len() - 1;
        lemma_tokens_take(line, 0, end);
        assert(tokens_from(line, end) == tokens_from(line, end + 1));
    }
}

/// The tokens of a list of lines that starts with one line.
pub proof fn lemma_lines_tokens_first(first: Seq<char>, rest: Seq<Seq<char>>)
    ensures
        lines_tokens(seq![first] + rest) == tokens_of(first) + lines_tokens(rest),
    decreases rest.len(),
{
    let all = seq![first] + rest;
    if rest.len() == 0 {
        assert(all.drop_last() =~= Seq::<Seq<char>>::empty());
        assert(lines_tokens(Seq::<Seq<char>>::empty()) + tokens_of(first) =~= tokens_of(first)
            + lines_tokens(rest));
    } else {
        lemma_lines_tokens_first(first, rest.drop_last());
        assert(all.drop_last() =~= seq![first] + rest.drop_last());
    }
}

/// Line breaks are whitespace: the tokens of the lines of a text, line after
/// line, are the tokens of the text.
pub proof fn lemma_lines_keep_tokens(s: Seq<char>, pos: int)
    requires
        0 <= pos <= s.len(),
    ensures
        lines_tokens(lines_from(s, pos)) == tokens_from(s, pos),
    decreases s.len() - pos,
{
    if pos < s.len() {
        lemma_line_len_bound(s, pos);
        let end = pos + line_len(s, pos);
        let raw = s.subrange(pos, end);
        if end < s.len() {
            lemma_lines_keep_tokens(s, end + 1);
            lemma_lines_tokens_first(strip_cr(raw, true), lines_from(s, end + 1));
            lemma_strip_cr_tokens(raw, true);
            lemma_tokens_take(s, pos, end);
            lemma_tokens_skip(s.take(end), pos, 0);
            assert(s.take(end).skip(pos) =~= raw);
        } else {
            lemma_lines_tokens_first(raw, Seq::empty());
            lemma_tokens_skip(s, pos, 0);
        }
    }
}

/// A run of characters without whitespace is one word to its end.
pub proof fn lemma_word_len_full(t: Seq<char>, pos: int)
    requires
        0 <= pos <= t.len(),
        forall|i: int| pos <= i < t.len() ==> !is_whitespace(#[trigger] t[i]),
    ensures
        word_len(t, pos) == t.len() - pos,
    decreases t.len() - pos,
{
    if pos < t.len() {
        lemma_word_len_full(t, pos + 1);
    }
}

/// A token is its own single token.
pub proof fn lemma_token_alone(t: Seq<char>)
    requires
        is_token(t),
    ensures
        tokens_of(t) == seq![t],
{
    lemma_word_len_full(t, 1);
    assert(t.subrange(0, t.len() as int) =~= t);
    assert(seq![t] + tokens_from(t, t.len() as int) =~= seq![t]);
}

/// The tokens found in a text are tokens.
pub proof fn lemma_tokens_are_tokens(s: Seq<char>, pos: int)
    requires
        0 <= pos <= s.len(),
    ensures
        all_tokens(tokens_from(s, pos)),
    decreases s.len() - pos,
{
    if pos < s.len() {
        if is_whitespace(s[pos]) {
            lemma_tokens_are_tokens(s, pos + 1);
        } else {
            lemma_word_len_bound(s, pos + 1);
            let end = pos + 1 + word_len(s, pos + 1);
            lemma_tokens_are_tokens(s, end);
            let token = s.subrange(pos, end);
            let all = tokens_from(s, pos);
            assert forall|i: int| 0 <= i < token.len() implies !is_whitespace(
                #[trigger] token[i],
            ) by {}
            assert forall|i: int| 0 <= i < all.len() implies is_token(#[trigger] all[i]) by {}
        }
    }
}

/// Splitting the text of a group of tokens at whitespace gives the group
/// back.
pub proof fn lemma_join_tokens(g: Group)
    requires
        all_tokens(g),
    ensures
        tokens_of(join(g)) == g,
    decreases g.len(),
{
    if g.len() == 1 {
        lemma_token_alone(g[0]);
    } else if g.len() > 1 {
        let head = g.drop_last();
        let last = g.last();
        let text = join(g);
        let end = join(head).len() as int;
        assert forall|i: int| 0 <= i < head.len() implies is_token(#[trigger] head[i]) by {}
        lemma_join_tokens(head);
        lemma_tokens_take(text, 0, end);
        assert(text.take(end) =~= join(head));
        lemma_tokens_skip(text, end + 1, 0);
        assert(text.skip(end + 1) =~= last);
        lemma_token_alone(last);
    }
}

/// Greedy grouping of tokens gives groups of tokens.
pub proof fn lemma_wrap_groups_are_tokens(tokens: Group, current: Group, width: nat)
    requires
        all_tokens(tokens),
        all_tokens(current),
    ensures
        forall|i: int|
            0 <= i < wrap_groups(tokens, current, width).len() ==> all_tokens(
                #[trigger] wrap_groups(tokens, current, width)[i],
            ),
    decreases tokens.len(),
{
    let all = wrap_groups(tokens, current, width);
    if tokens.len() == 0 {
        assert forall|i: int| 0 <= i < all.len() implies all_tokens(#[trigger] all[i]) by {}
    } else {
        let rest = tokens.drop_first();
        assert forall|i: int| 0 <= i < rest.len() implies is_token(#[trigger] rest[i]) by {}
        if cost(current) + tokens[0].len() + 1 > width {
            let tail = wrap_groups(rest, seq![tokens[0]], width);
            lemma_wrap_groups_are_tokens(rest, seq![tokens[0]], width);
            assert forall|i: int| 0 <= i < all.len() implies all_tokens(#[trigger] all[i]) by {
                if i > 0 {
                    assert(all[i] == tail[i - 1]);
                }
            }
        } else {
            let next = current.push(tokens[0]);
            assert forall|i: int| 0 <= i < next.len() implies is_token(#[trigger] next[i]) by {}
            lemma_wrap_groups_are_tokens(rest, next, width);
            assert(all == wrap_groups(rest, next, width));
        }
    }
}

/// The groups of a wrapped list of lines are groups of tokens.
pub proof fn lemma_lines_groups_are_tokens(lines: Seq<Seq<char>>, max_width: nat)
    ensures
        forall|i: int|
            0 <= i < lines_groups(lines, max_width).len() ==> all_tokens(
                #[trigger] lines_groups(lines, max_width)[i],
            ),
    decreases lines.len(),
{
    if lines.len() > 0 {
        let all = lines_groups(lines, max_width);
        let head = lines_groups(lines.drop_last(), max_width);
        let tail = line_groups(lines.last(), max_width);
        lemma_lines_groups_are_tokens(lines.drop_last(), max_width);
        lemma_tokens_are_tokens(lines.last(), 0);
        lemma_wrap_groups_are_tokens(
            tokens_of(lines.last()),
            Seq::empty(),
            effective_width(max_width),
        );
        assert forall|i: int| 0 <= i < all.len() implies all_tokens(#[trigger] all[i]) by {
            if i < head.len() {
                assert(all[i] == head[i]);
            } else {
                assert(all[i] == tail[i - head.len()]);
            }
        }
    }
}

/// The tokens of the texts of groups of tokens are the groups' tokens.
pub proof fn lemma_texts_tokens(groups: Seq<Group>)
    requires
        forall|i: int| 0 <= i < groups.len() ==> all_tokens(#[trigger] groups[i]),
    ensures
        lines_tokens(texts(groups)) == flatten(groups),
    decreases groups.len(),
{
    if groups.len() > 0 {
        let head = groups.drop_last();
        assert forall|i: int| 0 <= i < head.len() implies all_tokens(#[trigger] head[i]) by {}
        lemma_texts_tokens(head);
        lemma_join_tokens(groups.last());
        assert(texts(groups).drop_last() =~= texts(head));
    }
}

/// No wrapped line is wider than the width in use, unless the line is one
/// single token that is itself wider. The width in use is `max_width`, or one
/// where `max_width` is zero.
pub proof fn wrapped_lines_fit(s: Seq<char>, max_width: nat)
    ensures
        forall|i: int|
            0 <= i < wrapped(s, max_width).len() ==> {
                let line = #[trigger] wrapped(s, max_width)[i];
                line.len() <= effective_width(max_width) || tokens_of(line) == seq![line]
            },
{
    lemma_lines_groups_fit(lines_of(s), max_width);
    lemma_lines_groups_are_tokens(lines_of(s), max_width);
    assert forall|i: int| 0 <= i < wrapped(s, max_width).len() implies {
        let line = #[trigger] wrapped(s, max_width)[i];
        line.len() <= effective_width(max_width) || tokens_of(line) == seq![line]
    } by {
        let group = wrapped_groups(s, max_width)[i];
        if join(group).len() > effective_width(max_width) {
            lemma_join_tokens(group);
        }
    }
}

/// Wrapping only moves line breaks: the tokens of the wrapped lines, line
/// after line, are the tokens of the text, in their order.
pub proof fn wrapped_keeps_tokens(s: Seq<char>, max_width: nat)
    ensures
        lines_tokens(wrapped(s, max_width)) == tokens_of(s),
{
    lemma_lines_groups_tokens(lines_of(s), max_width);
    lemma_lines_groups_are_tokens(lines_of(s), max_width);
    lemma_texts_tokens(wrapped_groups(s, max_width));
    lemma_lines_keep_tokens(s, 0);
}

} // verus!
