//! What holds of every edit that the matching policy makes.

use crate::infrastructure::webservers::rules::{
    address_token, after_address, bears, before_comment, canonical_marker, edited, ends_token,
    first_target,
    holds_address, inside_at, is_tagged, is_target, is_token, keyword_of, legacy_marker,
    lemma_first_target, marked_at, mutated, rewritten, rule_address, rule_tail, terminator,
    token_end, Dialect,
};
use crate::text::{
    contains, drop_spaces, ends_with, find_char, is_space, join, lemma_drop_spaces,
    lemma_find_char, lemma_join_lines, lemma_lines_join, lemma_lines_shape, lemma_skip_spaces,
    lines, occurs_at, skip_spaces, starts_with, trim, trim_end, trim_start,
};
use vstd::prelude::*;

verus! {

/// The trimmed part of a text lies within the text.
pub proof fn lemma_trim_bounds(s: Seq<char>)
    ensures
        0 <= trim_start(s) <= trim_end(s) <= s.len(),
        forall|k: int| 0 <= k < trim_start(s) ==> is_space(#[trigger] s[k]),
        forall|k: int| trim_end(s) <= k < s.len() ==> is_space(#[trigger] s[k]),
        trim_start(s) < trim_end(s) ==> !is_space(s[trim_start(s)]) && !is_space(
            s[trim_end(s) - 1],
        ),
{
    lemma_skip_spaces(s, 0);
    lemma_drop_spaces(s, trim_start(s), s.len() as int);
}

/// White space up to `a` and none at `a`: the trimmed part begins at `a`.
pub proof fn lemma_skip_spaces_is(s: Seq<char>, from: int, a: int)
    requires
        0 <= from <= a <= s.len(),
        forall|k: int| from <= k < a ==> is_space(#[trigger] s[k]),
        a < s.len() ==> !is_space(s[a]),
    ensures
        skip_spaces(s, from) == a,
    decreases a - from,
{
    if from < a {
        lemma_skip_spaces_is(s, from + 1, a);
    }
}

/// White space from `b` on and none just before `b`: the trimmed part ends
/// at `b`.
pub proof fn lemma_drop_spaces_is(s: Seq<char>, floor: int, end: int, b: int)
    requires
        0 <= floor <= b <= end <= s.len(),
        forall|k: int| b <= k < end ==> is_space(#[trigger] s[k]),
        b > floor ==> !is_space(s[b - 1]),
    ensures
        drop_spaces(s, floor, end) == b,
    decreases end - b,
{
    if b < end {
        lemma_drop_spaces_is(s, floor, end - 1, b);
    }
}

/// A part of a text holds no character that the text does not hold.
pub proof fn lemma_part_free(s: Seq<char>, a: int, b: int, c: char)
    requires
        0 <= a <= b <= s.len(),
        !s.contains(c),
    ensures
        !s.subrange(a, b).contains(c),
{
    let part = s.subrange(a, b);
    if part.contains(c) {
        let i = choose|i: int| 0 <= i < part.len() && part[i] == c;
        assert(s[a + i] == c);
    }
}

/// Two texts put together hold no character that neither holds.
pub proof fn lemma_concat_free(x: Seq<char>, y: Seq<char>, c: char)
    requires
        !x.contains(c),
        !y.contains(c),
    ensures
        !(x + y).contains(c),
{
    let all = x + y;
    if all.contains(c) {
        let i = choose|i: int| 0 <= i < all.len() && all[i] == c;
        if i < x.len() {
            assert(x[i] == c);
        } else {
            assert(y[i - x.len()] == c);
        }
    }
}

/// What stands somewhere in a text holds no character that the text does not
/// hold.
pub proof fn lemma_infix_free(s: Seq<char>, p: Seq<char>, c: char)
    requires
        contains(s, p),
        !s.contains(c),
    ensures
        !p.contains(c),
{
    let i = choose|i: int| occurs_at(s, p, i);
    lemma_part_free(s, i, i + p.len(), c);
}

/// The trimmed part of a text holds no character that the text does not hold.
pub proof fn lemma_trim_free(s: Seq<char>, c: char)
    requires
        !s.contains(c),
    ensures
        !trim(s).contains(c),
{
    lemma_trim_bounds(s);
    lemma_part_free(s, trim_start(s), trim_end(s), c);
}

/// The directive of a rule line stands at the start of its trimmed text.
pub proof fn lemma_keyword_prefix(d: Dialect, t: Seq<char>)
    requires
        keyword_of(d, t) is Some,
    ensures
        starts_with(t, keyword_of(d, t)->0),
        keyword_of(d, t)->0.len() > 0,
        !is_space(keyword_of(d, t)->0[0]),
{
    reveal_strlit("allow ");
    reveal_strlit("Require ip ");
    reveal_strlit("Allow from ");
}

/// What `token_end` returns: a position in range, no end of token before
/// it, one at it.
pub proof fn lemma_token_end(s: Seq<char>, from: int)
    requires
        0 <= from <= s.len(),
    ensures
        from <= token_end(s, from) <= s.len(),
        forall|k: int| from <= k < token_end(s, from) ==> !ends_token(#[trigger] s[k]),
        token_end(s, from) < s.len() ==> ends_token(s[token_end(s, from)]),
    decreases s.len() - from,
{
    if from < s.len() && !ends_token(s[from]) {
        lemma_token_end(s, from + 1);
    }
}

/// What follows the address is the end of what follows the directive: it
/// begins at or after the end of the address token. Where the dialect has no
/// terminator it begins with what ended the token.
pub proof fn lemma_after_address_bounds(d: Dialect, rest: Seq<char>)
    ensures
        after_address(d, rest).len() <= rest.len(),
        after_address(d, rest) == rest.skip(rest.len() - after_address(d, rest).len()),
        d == Dialect::Apache && after_address(d, rest).len() > 0 ==> ends_token(
            after_address(d, rest)[0],
        ),
{
    let a = skip_spaces(rest, 0);
    lemma_skip_spaces(rest, 0);
    lemma_token_end(rest, a);
    let e = token_end(rest, a);
    lemma_skip_spaces(rest, e);
}

/// A rewritten line is still one line: it holds no line feed, where neither
/// the line nor the new address held one.
pub proof fn lemma_rewritten_one_line(
    d: Dialect,
    line: Seq<char>,
    host: Seq<char>,
    prior: Option<Seq<char>>,
    new: Seq<char>,
)
    requires
        is_target(d, line, host, prior),
        !line.contains('\n'),
        !new.contains('\n'),
    ensures
        !rewritten(d, line, host, prior, new).contains('\n'),
{
    let t = trim(line);
    let kw = keyword_of(d, t)->0;
    let lf = '\n';
    lemma_trim_bounds(line);
    lemma_trim_free(line, lf);
    lemma_keyword_prefix(d, t);
    lemma_part_free(t, 0, kw.len() as int, lf);
    lemma_part_free(line, 0, trim_start(line), lf);
    lemma_part_free(line, trim_end(line), line.len() as int, lf);
    reveal_strlit(";");
    let term = terminator(d);
    assert(!term.contains(lf));
    let tail = rule_tail(d, t, host, prior);
    let rest = t.skip(kw.len() as int);
    let after = after_address(d, rest);
    assert(!after.contains(lf)) by {
        lemma_part_free(t, kw.len() as int, t.len() as int, lf);
        lemma_after_address_bounds(d, rest);
        let from = rest.len() - after.len();
        lemma_part_free(rest, from, rest.len() as int, lf);
        assert(rest.subrange(from, rest.len() as int) =~= after);
    }
    assert(!tail.contains(lf)) by {
        if prior is None {
            reveal_strlit(" ");
            reveal_strlit("# DDNS: ");
            reveal_strlit("# DDNS for ");
            let m = if bears(t, canonical_marker(host)) {
                canonical_marker(host)
            } else {
                legacy_marker(host)
            };
            let i = choose|i: int| marked_at(t, m, i);
            assert(occurs_at(t, m, i));
            lemma_infix_free(t, m, lf);
            let lead = m.len() - host.len();
            lemma_part_free(m, lead, m.len() as int, lf);
            assert(m.subrange(lead, m.len() as int) =~= host);
            lemma_concat_free("# DDNS: "@, host, lf);
            lemma_find_char(after, '#', 0);
            lemma_drop_spaces(after, 0, find_char(after, '#', 0));
            let kept = before_comment(after);
            lemma_part_free(after, 0, kept.len() as int, lf);
            assert(after.subrange(0, kept.len() as int) =~= kept);
            lemma_concat_free(kept, " "@, lf);
            lemma_concat_free(kept + " "@, canonical_marker(host), lf);
        }
    }
    let head = line.take(trim_start(line));
    lemma_concat_free(head, kw, lf);
    lemma_concat_free(head + kw, new, lf);
    lemma_concat_free(head + kw + new, term, lf);
    lemma_concat_free(head + kw + new + term, tail, lf);
    lemma_concat_free(head + kw + new + term + tail, line.skip(trim_end(line)), lf);
}

/// The lines of the document that an edit returns are the edited lines: one
/// line rewritten in place, or none; no line added, none removed.
pub proof fn lemma_mutated_lines(
    d: Dialect,
    doc: Seq<char>,
    inside: Seq<bool>,
    host: Seq<char>,
    prior: Option<Seq<char>>,
    new: Seq<char>,
)
    requires
        !new.contains('\n'),
    ensures
        lines(mutated(d, doc, inside, host, prior, new).0) == edited(
            d,
            lines(doc),
            inside,
            host,
            prior,
            new,
        ).0,
        lines(mutated(d, doc, inside, host, prior, new).0).len() == lines(doc).len(),
{
    let ls = lines(doc);
    let k = first_target(d, ls, inside, host, prior, 0);
    lemma_first_target(d, ls, inside, host, prior, 0);
    lemma_lines_shape(doc);
    if 0 <= k < ls.len() {
        let after = ls.update(k, rewritten(d, ls[k], host, prior, new));
        lemma_rewritten_one_line(d, ls[k], host, prior, new);
        assert forall|j: int| 0 <= j < after.len() implies !(#[trigger] after[j]).contains(
            '\n',
        ) by {
            if j != k {
                assert(after[j] == ls[j]);
            }
        }
        lemma_lines_join(after);
    }
}

/// The document that an edit returns is always the edited lines joined:
/// every character outside the rewritten line stays where it was, line
/// endings and trailing line feed included.
pub proof fn law_mutated_joins_edited_lines(
    d: Dialect,
    doc: Seq<char>,
    inside: Seq<bool>,
    host: Seq<char>,
    prior: Option<Seq<char>>,
    new: Seq<char>,
)
    ensures
        mutated(d, doc, inside, host, prior, new).0 == join(
            edited(d, lines(doc), inside, host, prior, new).0,
        ),
{
    lemma_join_lines(doc);
}

/// Where some rule line that counts grants access to the old address, the
/// edit rewrites a line: what `holds_address` finds, the edit changes.
pub proof fn law_held_address_is_rewritten(
    d: Dialect,
    doc: Seq<char>,
    inside: Seq<bool>,
    host: Seq<char>,
    address: Seq<char>,
    new: Seq<char>,
)
    ensures
        holds_address(d, lines(doc), inside, address) == mutated(
            d,
            doc,
            inside,
            host,
            Some(address),
            new,
        ).1,
{
    lemma_first_target_any_host(d, lines(doc), inside, Seq::empty(), host, address, 0);
    lemma_first_target(d, lines(doc), inside, host, Some(address), 0);
}

/// With an old address the hostname plays no part in the search for the
/// target.
pub proof fn lemma_first_target_any_host(
    d: Dialect,
    ls: Seq<Seq<char>>,
    inside: Seq<bool>,
    a: Seq<char>,
    b: Seq<char>,
    address: Seq<char>,
    from: int,
)
    requires
        0 <= from,
    ensures
        first_target(d, ls, inside, a, Some(address), from) == first_target(
            d,
            ls,
            inside,
            b,
            Some(address),
            from,
        ),
    decreases ls.len() - from,
{
    if from < ls.len() && !(inside_at(inside, from) && is_target(d, ls[from], a, Some(address))) {
        lemma_first_target_any_host(d, ls, inside, a, b, address, from + 1);
    }
}

/// An edit never adds a rule: the document that comes back has as many
/// lines as the one that went in.
pub proof fn law_no_line_added(
    d: Dialect,
    doc: Seq<char>,
    inside: Seq<bool>,
    host: Seq<char>,
    prior: Option<Seq<char>>,
    new: Seq<char>,
)
    requires
        !new.contains('\n'),
    ensures
        lines(mutated(d, doc, inside, host, prior, new).0).len() == lines(doc).len(),
{
    lemma_mutated_lines(d, doc, inside, host, prior, new);
}

/// Where exactly one line that counts is a rule line for the old address,
/// the edit rewrites that line and no other, keeps its indentation, what
/// follows the address, its comment with it, and its trailing white space,
/// and reports a change.
pub proof fn law_single_rule_line_rewritten(
    d: Dialect,
    doc: Seq<char>,
    inside: Seq<bool>,
    host: Seq<char>,
    address: Seq<char>,
    new: Seq<char>,
    k: int,
)
    requires
        0 <= k < lines(doc).len(),
        inside_at(inside, k),
        rule_address(d, lines(doc)[k]) == Some(address),
        forall|j: int|
            0 <= j < lines(doc).len() && j != k ==> !(inside_at(inside, j) && rule_address(
                d,
                #[trigger] lines(doc)[j],
            ) == Some(address)),
    ensures
        mutated(d, doc, inside, host, Some(address), new).1,
        mutated(d, doc, inside, host, Some(address), new).0 == join(
            lines(doc).update(k, rewritten(d, lines(doc)[k], host, Some(address), new)),
        ),
        ({
            let line = lines(doc)[k];
            rewritten(d, line, host, Some(address), new) == line.take(trim_start(line)) + keyword_of(
                d,
                trim(line),
            )->0 + new + terminator(d) + after_address(
                d,
                trim(line).skip(keyword_of(d, trim(line))->0.len() as int),
            ) + line.skip(trim_end(line))
        }),
        !new.contains('\n') ==> lines(mutated(d, doc, inside, host, Some(address), new).0) == lines(
            doc,
        ).update(k, rewritten(d, lines(doc)[k], host, Some(address), new)),
{
    let ls = lines(doc);
    lemma_first_target(d, ls, inside, host, Some(address), 0);
    let f = first_target(d, ls, inside, host, Some(address), 0);
    assert(f == k) by {
        if f > k {
            assert(!(inside_at(inside, k) && is_target(d, ls[k], host, Some(address))));
        }
    }
    if !new.contains('\n') {
        lemma_mutated_lines(d, doc, inside, host, Some(address), new);
    }
}

/// A rewritten rule line begins as the line did, with the new address in
/// place: its indentation, its directive, the new address and the terminator
/// of the family. That holds whichever way the line was found. Where it was
/// found by its marker, what stood between the address and the comment
/// follows, then a blank and the canonical marker, then the white space that
/// the line ended in.
pub proof fn law_rewritten_line_begins_with_the_rule(
    d: Dialect,
    line: Seq<char>,
    host: Seq<char>,
    prior: Option<Seq<char>>,
    new: Seq<char>,
)
    requires
        keyword_of(d, trim(line)) is Some,
    ensures
        starts_with(
            rewritten(d, line, host, prior, new),
            line.take(trim_start(line)) + keyword_of(d, trim(line))->0 + new + terminator(d),
        ),
        prior is None ==> rewritten(d, line, host, prior, new) == line.take(trim_start(line))
            + keyword_of(d, trim(line))->0 + new + terminator(d) + kept_before_comment(
            d,
            trim(line),
        ) + " "@ + canonical_marker(host) + line.skip(trim_end(line)),
{
    let begin = line.take(trim_start(line)) + keyword_of(d, trim(line))->0 + new + terminator(d);
    let out = rewritten(d, line, host, prior, new);
    assert(out.subrange(0, begin.len() as int) =~= begin);
    if prior is None {
        assert(out =~= begin + kept_before_comment(d, trim(line)) + " "@ + canonical_marker(host)
            + line.skip(trim_end(line)));
    }
}

/// Where the address of a rule line is replaced, its comment stays as it
/// stands: the rewritten line ends with the comment of the line, from its `#`
/// on, and with the white space that the line ended in.
pub proof fn law_comment_is_kept(
    d: Dialect,
    line: Seq<char>,
    host: Seq<char>,
    address: Seq<char>,
    new: Seq<char>,
)
    requires
        keyword_of(d, trim(line)) is Some,
    ensures
        ends_with(
            rewritten(d, line, host, Some(address), new),
            trim(line).skip(find_char(trim(line), '#', 0)) + line.skip(trim_end(line)),
        ),
{
    reveal_strlit("allow ");
    reveal_strlit("Require ip ");
    reveal_strlit("Allow from ");
    let t = trim(line);
    let kw = keyword_of(d, t)->0;
    let rest = t.skip(kw.len() as int);
    let h = find_char(t, '#', 0);
    lemma_keyword_prefix(d, t);
    lemma_find_char(t, '#', 0);
    assert(t.subrange(0, kw.len() as int) == kw);
    assert(h >= kw.len()) by {
        if h < kw.len() {
            assert(kw[h] == t.subrange(0, kw.len() as int)[h]);
        }
    }
    let hk = h - kw.len();
    let a = skip_spaces(rest, 0);
    lemma_skip_spaces(rest, 0);
    lemma_token_end(rest, a);
    let e = token_end(rest, a);
    lemma_skip_spaces(rest, e);
    let n = skip_spaces(rest, e);
    if hk < rest.len() {
        assert(rest[hk] == '#');
    }
    assert(a <= hk);
    assert(e <= hk);
    assert(n <= hk);
    let tail = after_address(d, rest);
    let x = rest.len() - tail.len();
    lemma_after_address_bounds(d, rest);
    assert(x <= hk);
    let kept = t.skip(h) + line.skip(trim_end(line));
    let out = rewritten(d, line, host, Some(address), new);
    assert(rest.skip(hk) =~= t.skip(h));
    assert(tail =~= rest.subrange(x, hk) + rest.skip(hk));
    let front = line.take(trim_start(line)) + kw + new + terminator(d) + rest.subrange(x, hk);
    assert(out =~= front + kept);
    assert(out.subrange(out.len() - kept.len(), out.len() as int) =~= kept);
}

/// Where no line that counts is a target, the document comes back
/// unchanged and no change is reported.
pub proof fn law_no_target_no_change(
    d: Dialect,
    doc: Seq<char>,
    inside: Seq<bool>,
    host: Seq<char>,
    prior: Option<Seq<char>>,
    new: Seq<char>,
)
    requires
        forall|k: int|
            0 <= k < lines(doc).len() ==> !(inside_at(inside, k) && is_target(
                d,
                #[trigger] lines(doc)[k],
                host,
                prior,
            )),
    ensures
        mutated(d, doc, inside, host, prior, new) == (doc, false),
{
    let ls = lines(doc);
    lemma_first_target(d, ls, inside, host, prior, 0);
}

/// The trimmed part of a text that is white space, then a body that neither
/// begins nor ends in white space, then white space, is the body.
pub proof fn lemma_trim_padded(pre: Seq<char>, body: Seq<char>, post: Seq<char>)
    requires
        forall|k: int| 0 <= k < pre.len() ==> is_space(#[trigger] pre[k]),
        forall|k: int| 0 <= k < post.len() ==> is_space(#[trigger] post[k]),
        body.len() > 0,
        !is_space(body[0]),
        !is_space(body.last()),
    ensures
        trim_start(pre + body + post) == pre.len(),
        trim_end(pre + body + post) == pre.len() + body.len(),
        trim(pre + body + post) == body,
{
    let s = pre + body + post;
    let a = pre.len() as int;
    let b = a + body.len();
    assert forall|k: int| 0 <= k < a implies is_space(#[trigger] s[k]) by {
        assert(s[k] == pre[k]);
    }
    assert(s[a] == body[0]);
    lemma_skip_spaces_is(s, 0, a);
    assert forall|k: int| b <= k < s.len() implies is_space(#[trigger] s[k]) by {
        assert(s[k] == post[k - b]);
    }
    assert(s[b - 1] == body.last());
    lemma_drop_spaces_is(s, a, s.len() as int, b);
    assert(s.subrange(a, b) =~= body);
}

/// A text that begins with the directive of a rule line is a rule line with
/// that directive.
pub proof fn lemma_keyword_kept(d: Dialect, t: Seq<char>, rest: Seq<char>)
    requires
        keyword_of(d, t) is Some,
    ensures
        keyword_of(d, keyword_of(d, t)->0 + rest) == keyword_of(d, t),
{
    let kw = keyword_of(d, t)->0;
    let body = kw + rest;
    assert(body.subrange(0, kw.len() as int) =~= kw);
    if d == Dialect::Apache && kw == "Allow from "@ {
        reveal_strlit("Require ip ");
        reveal_strlit("Allow from ");
        if starts_with(body, "Require ip "@) {
            assert(body.subrange(0, "Require ip "@.len() as int)[0] == body[0]);
            assert(body[0] == kw[0]);
        }
    }
}

/// What stood between the address and the comment of the trimmed rule line
/// `t`.
pub open spec fn kept_before_comment(d: Dialect, t: Seq<char>) -> Seq<char> {
    before_comment(after_address(d, t.skip(keyword_of(d, t)->0.len() as int)))
}

/// What stands before a comment holds no `#`, does not end in white space,
/// and begins as the text does that it is taken from.
pub proof fn lemma_before_comment(tail: Seq<char>)
    ensures
        before_comment(tail).len() <= tail.len(),
        before_comment(tail) == tail.take(before_comment(tail).len() as int),
        !before_comment(tail).contains('#'),
        before_comment(tail).len() > 0 ==> !is_space(before_comment(tail).last()),
{
    let h = find_char(tail, '#', 0);
    lemma_find_char(tail, '#', 0);
    lemma_drop_spaces(tail, 0, h);
    let kept = before_comment(tail);
    if kept.contains('#') {
        let k = choose|k: int| 0 <= k < kept.len() && kept[k] == '#';
        assert(tail[k] == '#');
    }
}

/// A line rewritten for a hostname is its indentation, then the rule, then
/// its trailing white space.
pub proof fn lemma_rewritten_parts(d: Dialect, line: Seq<char>, host: Seq<char>, new: Seq<char>)
    requires
        keyword_of(d, trim(line)) is Some,
    ensures
        rewritten(d, line, host, None, new) == line.take(trim_start(line)) + (keyword_of(
            d,
            trim(line),
        )->0 + (new + terminator(d) + (kept_before_comment(d, trim(line)) + " "@
            + canonical_marker(host)))) + line.skip(trim_end(line)),
{
    let kw = keyword_of(d, trim(line))->0;
    let tail = kept_before_comment(d, trim(line)) + " "@ + canonical_marker(host);
    let rest = new + terminator(d) + tail;
    assert(kw + new + terminator(d) + tail =~= kw + rest);
    assert(line.take(trim_start(line)) + kw + new + terminator(d) + tail =~= line.take(
        trim_start(line),
    ) + (kw + rest));
}

/// The rule written for a hostname ends with the hostname and bears its
/// canonical marker.
pub proof fn lemma_rule_holds_marker(
    kw: Seq<char>,
    new: Seq<char>,
    term: Seq<char>,
    kept: Seq<char>,
    host: Seq<char>,
)
    requires
        kw.len() > 0,
        host.len() > 0,
    ensures
        (kw + (new + term + (kept + " "@ + canonical_marker(host))))[0] == kw[0],
        (kw + (new + term + (kept + " "@ + canonical_marker(host)))).last() == host.last(),
        bears(kw + (new + term + (kept + " "@ + canonical_marker(host))), canonical_marker(host)),
{
    let m = canonical_marker(host);
    let body = kw + (new + term + (kept + " "@ + m));
    let at = (kw.len() + new.len() + term.len() + kept.len() + " "@.len()) as int;
    assert(m.last() == host.last());
    assert(body.subrange(at, at + m.len()) =~= m);
    assert(marked_at(body, m, at));
}

/// In a rule written for a hostname, what follows the address is what was
/// kept of the line, a blank and the canonical marker.
pub proof fn lemma_after_written_address(
    d: Dialect,
    new: Seq<char>,
    kept: Seq<char>,
    host: Seq<char>,
)
    requires
        is_token(new),
        d == Dialect::Apache && kept.len() > 0 ==> ends_token(kept[0]),
    ensures
        after_address(d, new + terminator(d) + (kept + " "@ + canonical_marker(host))) == kept
            + " "@ + canonical_marker(host),
{
    reveal_strlit(";");
    reveal_strlit(" ");
    let tail = kept + " "@ + canonical_marker(host);
    let rest = new + terminator(d) + tail;
    let e = new.len() as int;
    assert forall|k: int| 0 <= k < e implies !ends_token(#[trigger] rest[k]) by {
        assert(rest[k] == new[k]);
    }
    assert(!is_space(rest[0]));
    lemma_skip_spaces_is(rest, 0, 0);
    assert(tail.len() > 0);
    assert(ends_token(rest[e])) by {
        if d == Dialect::Nginx {
            assert(rest[e] == ';');
        } else {
            assert(rest[e] == tail[0]);
            if kept.len() > 0 {
                assert(tail[0] == kept[0]);
            } else {
                assert(tail[0] == ' ');
            }
        }
    }
    lemma_token_end_is(rest, 0, e);
    if d == Dialect::Nginx {
        assert(rest[e] == ';');
        lemma_skip_spaces_is(rest, e, e);
        assert(rest.skip(e + 1) =~= tail);
    } else {
        assert(rest.skip(e) =~= tail);
    }
}

/// What stands before the comment in what was kept of a line, a blank and a
/// marker, is what was kept.
pub proof fn lemma_before_written_comment(kept: Seq<char>, host: Seq<char>)
    requires
        !kept.contains('#'),
        kept.len() > 0 ==> !is_space(kept.last()),
    ensures
        before_comment(kept + " "@ + canonical_marker(host)) == kept,
{
    reveal_strlit(" ");
    reveal_strlit("# DDNS: ");
    let tail = kept + " "@ + canonical_marker(host);
    let h = (kept.len() + 1) as int;
    lemma_find_char(tail, '#', 0);
    let f = find_char(tail, '#', 0);
    assert(tail[h] == canonical_marker(host)[0]);
    assert(tail[h] == '#');
    assert(f == h) by {
        if f < h {
            if f < kept.len() {
                assert(tail[f] == kept[f]);
                assert(kept.contains('#'));
            } else {
                assert(tail[f] == ' ');
            }
        }
    }
    assert(is_space(tail[h - 1])) by {
        assert(tail[h - 1] == ' ');
    }
    if kept.len() > 0 {
        assert(tail[kept.len() - 1] == kept.last());
    }
    lemma_drop_spaces_is(tail, 0, h, kept.len() as int);
    assert(tail.take(kept.len() as int) =~= kept);
}

/// A line rewritten for a hostname bears the canonical marker of that
/// hostname, and a second rewrite with the same address leaves it as it is.
#[verifier::spinoff_prover]
pub proof fn lemma_rewritten_is_fixed(d: Dialect, line: Seq<char>, host: Seq<char>, new: Seq<char>)
    requires
        is_tagged(d, line, host),
        is_token(new),
        host.len() > 0,
        !is_space(host.last()),
    ensures
        is_tagged(d, rewritten(d, line, host, None, new), host),
        rewritten(d, rewritten(d, line, host, None, new), host, None, new) == rewritten(
            d,
            line,
            host,
            None,
            new,
        ),
{
    let t = trim(line);
    let kw = keyword_of(d, t)->0;
    let pre = line.take(trim_start(line));
    let post = line.skip(trim_end(line));
    let after = after_address(d, t.skip(kw.len() as int));
    let kept = kept_before_comment(d, t);
    let rest = new + terminator(d) + (kept + " "@ + canonical_marker(host));
    let body = kw + rest;
    let out = rewritten(d, line, host, None, new);
    lemma_rewritten_parts(d, line, host, new);
    assert(out == pre + body + post);
    lemma_trim_bounds(line);
    lemma_keyword_prefix(d, t);
    lemma_keyword_kept(d, t, rest);
    lemma_rule_holds_marker(kw, new, terminator(d), kept, host);
    lemma_trim_padded(pre, body, post);
    assert(trim(out) == body);
    assert(keyword_of(d, trim(out)) == Some(kw));
    assert(is_tagged(d, out, host));
    assert(out.take(trim_start(out)) == pre) by {
        assert(out.take(pre.len() as int) =~= pre);
    }
    assert(out.skip(trim_end(out)) == post) by {
        assert(out.skip((pre.len() + body.len()) as int) =~= post);
    }
    lemma_before_comment(after);
    lemma_after_address_bounds(d, t.skip(kw.len() as int));
    if kept.len() > 0 {
        assert(kept[0] == after[0]);
    }
    lemma_after_written_address(d, new, kept, host);
    lemma_before_written_comment(kept, host);
    assert(body.skip(kw.len() as int) =~= rest);
    assert(kept_before_comment(d, body) == kept);
    lemma_rewritten_parts(d, out, host, new);
}

/// Applying the edit for a hostname a second time, with the address that the
/// first edit wrote, returns the document that the first edit returned.
///
/// The second call may be told anew which lines count, as long
/// as it is told the same of the lines up to the one that was rewritten.
pub proof fn law_marker_edit_idempotent(
    d: Dialect,
    doc: Seq<char>,
    inside: Seq<bool>,
    again: Seq<bool>,
    host: Seq<char>,
    new: Seq<char>,
)
    requires
        is_token(new),
        host.len() > 0,
        !is_space(host.last()),
        forall|j: int|
            0 <= j < lines(doc).len() && j <= first_target(d, lines(doc), inside, host, None, 0)
                ==> inside_at(again, j) == inside_at(inside, j),
    ensures
        mutated(d, mutated(d, doc, inside, host, None, new).0, again, host, None, new).0 == mutated(
            d,
            doc,
            inside,
            host,
            None,
            new,
        ).0,
{
    assert(!new.contains('\n')) by {
        if new.contains('\n') {
            let i = choose|i: int| 0 <= i < new.len() && new[i] == '\n';
            assert(ends_token(new[i]));
        }
    }
    let ls = lines(doc);
    let k = first_target(d, ls, inside, host, None, 0);
    let once = mutated(d, doc, inside, host, None, new).0;
    lemma_first_target(d, ls, inside, host, None, 0);
    lemma_mutated_lines(d, doc, inside, host, None, new);
    let after = lines(once);
    lemma_first_target(d, after, again, host, None, 0);
    let f = first_target(d, after, again, host, None, 0);
    if 0 <= k < ls.len() {
        let line = rewritten(d, ls[k], host, None, new);
        lemma_rewritten_is_fixed(d, ls[k], host, new);
        assert(after == ls.update(k, line));
        assert(after[k] == line);
        assert(f == k) by {
            if f > k {
                assert(!(inside_at(again, k) && is_target(d, after[k], host, None)));
            }
            if f < k {
                assert(after[f] == ls[f]);
                assert(!(inside_at(inside, f) && is_target(d, ls[f], host, None)));
            }
        }
        assert(after.update(k, rewritten(d, after[k], host, None, new)) =~= after);
    } else {
        assert(after == ls);
        assert(f == ls.len()) by {
            if f < ls.len() {
                assert(!(inside_at(inside, f) && is_target(d, ls[f], host, None)));
            }
        }
    }
}

/// No end of token up to `e` and one at `e`: the token ends at `e`.
pub proof fn lemma_token_end_is(s: Seq<char>, from: int, e: int)
    requires
        0 <= from <= e <= s.len(),
        forall|k: int| from <= k < e ==> !ends_token(#[trigger] s[k]),
        e < s.len() ==> ends_token(s[e]),
    ensures
        token_end(s, from) == e,
    decreases e - from,
{
    if from < e {
        lemma_token_end_is(s, from + 1, e);
    }
}

/// What follows the address in a rewritten rule begins with a character that
/// ends the token, where anything follows.
pub proof fn lemma_rule_tail_ends_token(
    d: Dialect,
    t: Seq<char>,
    host: Seq<char>,
    prior: Option<Seq<char>>,
)
    ensures
        (terminator(d) + rule_tail(d, t, host, prior)).len() > 0 ==> ends_token(
            (terminator(d) + rule_tail(d, t, host, prior))[0],
        ),
{
    reveal_strlit(";");
    reveal_strlit(" ");
    let tail = rule_tail(d, t, host, prior);
    let rest = terminator(d) + tail;
    if rest.len() > 0 {
        if terminator(d).len() > 0 {
            assert(rest[0] == ';');
        } else {
            assert(rest[0] == tail[0]);
            let after = match keyword_of(d, t) {
                Some(kw) => after_address(d, t.skip(kw.len() as int)),
                None => Seq::empty(),
            };
            if keyword_of(d, t) is Some {
                lemma_after_address_bounds(d, t.skip(keyword_of(d, t)->0.len() as int));
            }
            if prior is None {
                lemma_before_comment(after);
                let kept = before_comment(after);
                if kept.len() > 0 {
                    assert(tail[0] == kept[0]);
                    assert(kept[0] == after[0]);
                } else {
                    assert(tail[0] == ' ');
                }
            }
        }
    }
}

/// A rewritten line is a rule line for the new address, where the new
/// address can stand as a token.
pub proof fn lemma_rewritten_grants_new(
    d: Dialect,
    line: Seq<char>,
    host: Seq<char>,
    prior: Option<Seq<char>>,
    new: Seq<char>,
)
    requires
        is_target(d, line, host, prior),
        is_token(new),
    ensures
        rule_address(d, rewritten(d, line, host, prior, new)) == Some(new),
{
    let t = trim(line);
    let kw = keyword_of(d, t)->0;
    let pre = line.take(trim_start(line));
    let post = line.skip(trim_end(line));
    let rest = terminator(d) + rule_tail(d, t, host, prior);
    let out = rewritten(d, line, host, prior, new);
    let a = pre.len() as int;
    let x = a + kw.len() + new.len();
    lemma_trim_bounds(line);
    lemma_keyword_prefix(d, t);
    lemma_rule_tail_ends_token(d, t, host, prior);
    assert(out =~= pre + kw + new + (rest + post));
    assert forall|k: int| 0 <= k < a implies is_space(#[trigger] out[k]) by {
        assert(out[k] == pre[k]);
    }
    assert(out[a] == kw[0]);
    lemma_skip_spaces_is(out, 0, a);
    assert(out[x - 1] == new.last());
    assert(!ends_token(new.last()));
    lemma_drop_spaces(out, a, out.len() as int);
    let e = trim_end(out);
    assert(e >= x) by {
        if e < x {
            assert(is_space(out[x - 1]));
        }
    }
    let body = trim(out);
    let tail = body.skip(kw.len() as int);
    assert(body =~= kw + tail);
    lemma_keyword_kept(d, t, tail);
    assert forall|k: int| 0 <= k < new.len() implies !ends_token(#[trigger] tail[k]) by {
        assert(tail[k] == new[k]);
    }
    assert(tail[0] == new[0]);
    lemma_skip_spaces_is(tail, 0, 0);
    if new.len() < tail.len() {
        assert(tail[new.len() as int] == out[x]);
        assert(out[x] == (rest + post)[0]);
        if rest.len() > 0 {
            assert((rest + post)[0] == rest[0]);
        } else {
            assert((rest + post)[0] == post[0]);
            assert(post[0] == line[trim_end(line)]);
        }
    }
    lemma_token_end_is(tail, 0, new.len() as int);
    assert(address_token(tail) =~= new);
}

/// After an edit the target grants access to the new address: the line that
/// was rewritten is a rule line for it. The marks that say which lines
/// count may be told anew for the edited document, as long as the rewritten
/// line still counts.
pub proof fn law_edit_grants_new_address(
    d: Dialect,
    doc: Seq<char>,
    inside: Seq<bool>,
    after: Seq<bool>,
    host: Seq<char>,
    prior: Option<Seq<char>>,
    new: Seq<char>,
)
    requires
        is_token(new),
        mutated(d, doc, inside, host, prior, new).1,
        inside_at(after, first_target(d, lines(doc), inside, host, prior, 0)),
    ensures
        holds_address(d, lines(mutated(d, doc, inside, host, prior, new).0), after, new),
{
    let ls = lines(doc);
    let k = first_target(d, ls, inside, host, prior, 0);
    lemma_first_target(d, ls, inside, host, prior, 0);
    assert(!new.contains('\n')) by {
        if new.contains('\n') {
            let i = choose|i: int| 0 <= i < new.len() && new[i] == '\n';
            assert(ends_token(new[i]));
        }
    }
    lemma_mutated_lines(d, doc, inside, host, prior, new);
    let out = lines(mutated(d, doc, inside, host, prior, new).0);
    lemma_rewritten_grants_new(d, ls[k], host, prior, new);
    assert(out[k] == rewritten(d, ls[k], host, prior, new));
    lemma_first_target(d, out, after, Seq::empty(), Some(new), 0);
    let f = first_target(d, out, after, Seq::empty(), Some(new), 0);
    if f > k {
        assert(!(inside_at(after, k) && is_target(d, out[k], Seq::empty(), Some(new))));
    }
}

} // verus!
