//! The matching policy that every family shares.
//!
//! A document is a sequence of lines. A rule line is a line whose trimmed text
//! begins with an access directive of the family; the address token follows
//! the directive. At most one line is rewritten in a call, the first that
//! counts in its family and matches, and no line is ever added or removed.

use crate::text::{
    drop_spaces, drop_spaces_exec, find_char, find_char_exec, from_chars, has_prefix, is_space,
    is_whitespace, join, join_lines, lines, occurs_at, occurs_at_exec, push_all, push_str,
    skip_spaces, skip_spaces_exec, split_lines, starts_with, texts, to_chars, trim, trim_end,
    trim_start,
};
use vstd::prelude::*;

verus! {

/// The syntax in which a family writes its access rules.
#[derive(Clone, Copy, Debug, PartialEq, Eq, Structural)]
pub enum Dialect {
    /// `allow <address>;`, wherever the line stands.
    Nginx,
    /// `Require ip <address>` or `Allow from <address>` inside blocks
    /// delimited by tags.
    Apache,
}

/// A line that says something: its trimmed text is not empty and is no
/// comment.
pub open spec fn significant(line: Seq<char>) -> bool {
    trim(line).len() > 0 && trim(line)[0] != '#'
}

/// The access directive that the trimmed line `t` begins with.
pub open spec fn keyword_of(d: Dialect, t: Seq<char>) -> Option<Seq<char>> {
    match d {
        Dialect::Nginx => if starts_with(t, "allow "@) {
            Some("allow "@)
        } else {
            None
        },
        Dialect::Apache => if starts_with(t, "Require ip "@) {
            Some("Require ip "@)
        } else if starts_with(t, "Allow from "@) {
            Some("Allow from "@)
        } else {
            None
        },
    }
}

/// What closes a rule in the dialect, after the address.
pub open spec fn terminator(d: Dialect) -> Seq<char> {
    match d {
        Dialect::Nginx => ";"@,
        Dialect::Apache => Seq::empty(),
    }
}

/// A character that cannot stand in an address token.
pub open spec fn ends_token(c: char) -> bool {
    is_space(c) || c == ';' || c == '#'
}

/// A text that can stand as an address token: not empty, and free of white
/// space, `;` and `#`.
pub open spec fn is_token(a: Seq<char>) -> bool {
    a.len() > 0 && forall|i: int| 0 <= i < a.len() ==> !ends_token(#[trigger] a[i])
}

/// The position at or after `from` where the token of `s` ends.
pub open spec fn token_end(s: Seq<char>, from: int) -> int
    decreases s.len() - from,
{
    if from >= s.len() {
        s.len() as int
    } else if ends_token(s[from]) {
        from
    } else {
        token_end(s, from + 1)
    }
}

/// The address token in what follows a directive: white space is skipped,
/// then the token runs up to white space, `;`, `#` or the end.
pub open spec fn address_token(rest: Seq<char>) -> Seq<char> {
    let a = skip_spaces(rest, 0);
    rest.subrange(a, token_end(rest, a))
}

/// The address that `line` grants access to, where it is a rule line.
pub open spec fn rule_address(d: Dialect, line: Seq<char>) -> Option<Seq<char>> {
    let t = trim(line);
    match keyword_of(d, t) {
        Some(kw) => Some(address_token(t.skip(kw.len() as int))),
        None => None,
    }
}

/// The marker that ties a rule line to `host`, as this library writes it.
pub open spec fn canonical_marker(host: Seq<char>) -> Seq<char> {
    "# DDNS: "@ + host
}

/// The marker that ties a rule line to `host`, in its older spelling.
pub open spec fn legacy_marker(host: Seq<char>) -> Seq<char> {
    "# DDNS for "@ + host
}

/// `marker` stands in `t` at position `i` and ends where a word ends: at
/// the end of `t` or before white space. So the marker of one hostname is not
/// found in the marker of a longer one.
pub open spec fn marked_at(t: Seq<char>, marker: Seq<char>, i: int) -> bool {
    occurs_at(t, marker, i) && (i + marker.len() == t.len() || is_space(t[i + marker.len()]))
}

/// The trimmed line `t` bears `marker`.
pub open spec fn bears(t: Seq<char>, marker: Seq<char>) -> bool {
    exists|i: int| marked_at(t, marker, i)
}

/// `line` is a rule line that bears a marker for `host`, in either spelling.
pub open spec fn is_tagged(d: Dialect, line: Seq<char>, host: Seq<char>) -> bool {
    let t = trim(line);
    keyword_of(d, t) is Some && (bears(t, canonical_marker(host)) || bears(
        t,
        legacy_marker(host),
    ))
}

/// `line` is the kind of line that a call looks for: with an old address, a
/// rule line for that address; without one, a rule line tagged for `host`.
pub open spec fn is_target(
    d: Dialect,
    line: Seq<char>,
    host: Seq<char>,
    prior: Option<Seq<char>>,
) -> bool {
    match prior {
        Some(o) => rule_address(d, line) == Some(o),
        None => is_tagged(d, line, host),
    }
}

/// What follows the address in `rest`, the part of a rule line after its
/// directive: what stands after the address token, and, in the dialect that
/// closes a rule with `;`, after the `;` that closes it where one does. Other
/// directives on the line, further addresses and the comment are all in it,
/// as they stand.
pub open spec fn after_address(d: Dialect, rest: Seq<char>) -> Seq<char> {
    let e = token_end(rest, skip_spaces(rest, 0));
    let n = skip_spaces(rest, e);
    if d == Dialect::Nginx && 0 <= n < rest.len() && rest[n] == ';' {
        rest.skip(n + 1)
    } else {
        rest.skip(e)
    }
}

/// What stands before the comment in `tail`: the text before the first `#`,
/// without the white space that it ends in.
pub open spec fn before_comment(tail: Seq<char>) -> Seq<char> {
    tail.take(drop_spaces(tail, 0, find_char(tail, '#', 0)))
}

/// What follows the terminator in a rewritten rule. Where an old address was
/// replaced: what followed it, as it stood. Where the line was found by its
/// marker: what stood between the address and the comment, then a blank and
/// the canonical marker in place of the comment.
pub open spec fn rule_tail(
    d: Dialect,
    t: Seq<char>,
    host: Seq<char>,
    prior: Option<Seq<char>>,
) -> Seq<char> {
    let tail = match keyword_of(d, t) {
        Some(kw) => after_address(d, t.skip(kw.len() as int)),
        None => Seq::empty(),
    };
    match prior {
        Some(_) => tail,
        None => before_comment(tail) + " "@ + canonical_marker(host),
    }
}

/// The rule line `line` with `new` as its address: the indentation, the
/// directive, the new address and the terminator; then what followed the old
/// address, or, where the line was found by its marker, what stood between
/// the address and the comment and the canonical marker; then the trailing
/// white space of the line.
pub open spec fn rewritten(
    d: Dialect,
    line: Seq<char>,
    host: Seq<char>,
    prior: Option<Seq<char>>,
    new: Seq<char>,
) -> Seq<char> {
    let t = trim(line);
    let kw = match keyword_of(d, t) {
        Some(kw) => kw,
        None => Seq::empty(),
    };
    line.take(trim_start(line)) + kw + new + terminator(d) + rule_tail(d, t, host, prior)
        + line.skip(trim_end(line))
}

/// Line `k` counts: a rule on it is one, as far as `inside` says. Which
/// lines count is for the family to say: all of them, or those that stand
/// inside a block.
pub open spec fn inside_at(inside: Seq<bool>, k: int) -> bool {
    0 <= k < inside.len() && inside[k]
}

/// The first line at or after `from` that counts and is a target, or
/// `ls.len()` where there is none.
pub open spec fn first_target(
    d: Dialect,
    ls: Seq<Seq<char>>,
    inside: Seq<bool>,
    host: Seq<char>,
    prior: Option<Seq<char>>,
    from: int,
) -> int
    decreases ls.len() - from,
{
    if from >= ls.len() {
        ls.len() as int
    } else if inside_at(inside, from) && is_target(d, ls[from], host, prior) {
        from
    } else {
        first_target(d, ls, inside, host, prior, from + 1)
    }
}

/// The lines after the edit, and whether a line was rewritten.
pub open spec fn edited(
    d: Dialect,
    ls: Seq<Seq<char>>,
    inside: Seq<bool>,
    host: Seq<char>,
    prior: Option<Seq<char>>,
    new: Seq<char>,
) -> (Seq<Seq<char>>, bool) {
    let k = first_target(d, ls, inside, host, prior, 0);
    if 0 <= k < ls.len() {
        (ls.update(k, rewritten(d, ls[k], host, prior, new)), true)
    } else {
        (ls, false)
    }
}

/// The document after the edit, and whether a line was rewritten. Without a
/// target the document comes back as it is.
pub open spec fn mutated(
    d: Dialect,
    doc: Seq<char>,
    inside: Seq<bool>,
    host: Seq<char>,
    prior: Option<Seq<char>>,
    new: Seq<char>,
) -> (Seq<char>, bool) {
    let e = edited(d, lines(doc), inside, host, prior, new);
    if e.1 {
        (join(e.0), true)
    } else {
        (doc, false)
    }
}

/// Some line that counts is a rule line for `address`.
pub open spec fn holds_address(
    d: Dialect,
    ls: Seq<Seq<char>>,
    inside: Seq<bool>,
    address: Seq<char>,
) -> bool {
    first_target(d, ls, inside, Seq::empty(), Some(address), 0) < ls.len()
}

/// What `first_target` returns: a position in range, no target before it, a
/// target at it.
pub proof fn lemma_first_target(
    d: Dialect,
    ls: Seq<Seq<char>>,
    inside: Seq<bool>,
    host: Seq<char>,
    prior: Option<Seq<char>>,
    from: int,
)
    requires
        0 <= from <= ls.len(),
    ensures
        from <= first_target(d, ls, inside, host, prior, from) <= ls.len(),
        forall|k: int|
            from <= k < first_target(d, ls, inside, host, prior, from) ==> !(inside_at(inside, k)
                && is_target(d, #[trigger] ls[k], host, prior)),
        first_target(d, ls, inside, host, prior, from) < ls.len() ==> inside_at(
            inside,
            first_target(d, ls, inside, host, prior, from),
        ) && is_target(d, ls[first_target(d, ls, inside, host, prior, from)], host, prior),
    decreases ls.len() - from,
{
    if from < ls.len() && !(inside_at(inside, from) && is_target(d, ls[from], host, prior)) {
        lemma_first_target(d, ls, inside, host, prior, from + 1);
    }
}

/// The text that an optional slice holds.
pub open spec fn slice_view(o: Option<&[char]>) -> Option<Seq<char>> {
    match o {
        Some(v) => Some(v@),
        None => None,
    }
}

/// The text that an optional string holds.
pub open spec fn str_view(o: Option<&str>) -> Option<Seq<char>> {
    match o {
        Some(v) => Some(v@),
        None => None,
    }
}

/// The access directive that the trimmed line `t` begins with.
pub fn keyword(d: Dialect, t: &[char]) -> (kw: Option<Vec<char>>)
    ensures
        match kw {
            Some(v) => keyword_of(d, t@) == Some(v@),
            None => keyword_of(d, t@) is None,
        },
{
    match d {
        Dialect::Nginx => {
            let allow = to_chars("allow ");
            if has_prefix(t, allow.as_slice()) {
                Some(allow)
            } else {
                None
            }
        },
        Dialect::Apache => {
            let require = to_chars("Require ip ");
            if has_prefix(t, require.as_slice()) {
                return Some(require);
            }
            let allow = to_chars("Allow from ");
            if has_prefix(t, allow.as_slice()) {
                Some(allow)
            } else {
                None
            }
        },
    }
}

/// Whether `address` can stand as an address token in a rule: it is not
/// empty and holds no white space, no `;` and no `#`.
pub fn is_address_token(address: &str) -> (b: bool)
    ensures
        b == is_token(address@),
{
    let chars = to_chars(address);
    if chars.len() == 0 {
        return false;
    }
    let mut i: usize = 0;
    while i < chars.len()
        invariant
            i <= chars.len(),
            chars@ == address@,
            chars@.len() > 0,
            forall|j: int| 0 <= j < i ==> !ends_token(#[trigger] chars@[j]),
        decreases chars.len() - i,
    {
        let c = chars[i];
        if is_whitespace(c) || c == ';' || c == '#' {
            proof {
                assert(ends_token(address@[i as int]));
            }
            return false;
        }
        i += 1;
    }
    true
}

/// The position at or after `from` where the token of `s` ends.
pub fn token_end_exec(s: &[char], from: usize) -> (i: usize)
    ensures
        i == token_end(s@, from as int),
        i <= s.len(),
        from <= s.len() ==> from <= i,
{
    if from >= s.len() {
        return s.len();
    }
    let mut i: usize = from;
    while i < s.len() && !(is_whitespace(s[i]) || s[i] == ';' || s[i] == '#')
        invariant
            from <= i <= s.len(),
            token_end(s@, i as int) == token_end(s@, from as int),
        decreases s.len() - i,
    {
        i += 1;
    }
    i
}

/// The trimmed part of `line`.
pub fn trimmed(line: &[char]) -> (t: &[char])
    ensures
        t@ == trim(line@),
{
    let a = skip_spaces_exec(line, 0);
    let b = drop_spaces_exec(line, a, line.len());
    &line[a..b]
}

/// Whether `line` is a rule line that grants access to `address`.
pub fn is_rule_for(d: Dialect, line: &[char], address: &[char]) -> (b: bool)
    ensures
        b == (rule_address(d, line@) == Some(address@)),
{
    let t = trimmed(line);
    match keyword(d, t) {
        None => false,
        Some(kw) => {
            let rest = &t[kw.len()..t.len()];
            let a = skip_spaces_exec(rest, 0);
            let e = token_end_exec(rest, a);
            proof {
                assert(rest@ == t@.skip(kw@.len() as int));
                if e - a == address.len() {
                    assert(rest@.subrange(a as int, a + address@.len()) == address_token(rest@));
                } else {
                    assert(address_token(rest@).len() == e - a);
                }
            }
            e - a == address.len() && occurs_at_exec(rest, address, a)
        },
    }
}

/// Whether `line` is a rule line that bears a marker for `host`.
pub fn is_tagged_for(d: Dialect, line: &[char], host: &[char]) -> (b: bool)
    ensures
        b == is_tagged(d, line@, host@),
{
    let t = trimmed(line);
    if keyword(d, t).is_none() {
        return false;
    }
    let mut canonical = to_chars("# DDNS: ");
    push_all(&mut canonical, host);
    if bears_marker(t, canonical.as_slice()) {
        return true;
    }
    let mut legacy = to_chars("# DDNS for ");
    push_all(&mut legacy, host);
    bears_marker(t, legacy.as_slice())
}

/// Whether the trimmed line `t` bears `marker`: whether the marker stands
/// in it and ends at the end of the line or before white space.
pub fn bears_marker(t: &[char], marker: &[char]) -> (b: bool)
    ensures
        b == bears(t@, marker@),
{
    if marker.len() > t.len() {
        return false;
    }
    let last: usize = t.len() - marker.len();
    let mut i: usize = 0;
    while i < last
        invariant
            last == t.len() - marker.len(),
            i <= last,
            forall|j: int| 0 <= j < i ==> !marked_at(t@, marker@, j),
        decreases last - i,
    {
        if occurs_at_exec(t, marker, i) && is_whitespace(t[i + marker.len()]) {
            proof {
                assert(marked_at(t@, marker@, i as int));
            }
            return true;
        }
        i += 1;
    }
    let found = occurs_at_exec(t, marker, last);
    proof {
        if found {
            assert(marked_at(t@, marker@, last as int));
        } else {
            assert forall|j: int| !marked_at(t@, marker@, j) by {
                if occurs_at(t@, marker@, j) {
                    assert(0 <= j <= last);
                }
            }
        }
    }
    found
}

/// What follows the address in `rest`, the part of a rule line after its
/// directive.
pub fn after_address_exec<'a>(d: Dialect, rest: &'a [char]) -> (tail: &'a [char])
    ensures
        tail@ == after_address(d, rest@),
{
    let a = skip_spaces_exec(rest, 0);
    let e = token_end_exec(rest, a);
    let n = skip_spaces_exec(rest, e);
    let closed = match d {
        Dialect::Nginx => n < rest.len() && rest[n] == ';',
        Dialect::Apache => false,
    };
    if closed {
        proof {
            assert(rest@.subrange(n + 1, rest@.len() as int) == rest@.skip(n + 1));
        }
        &rest[n + 1..rest.len()]
    } else {
        proof {
            assert(rest@.subrange(e as int, rest@.len() as int) == rest@.skip(e as int));
        }
        &rest[e..rest.len()]
    }
}

/// Whether `line` is the kind of line that a call looks for.
pub fn is_target_line(d: Dialect, line: &[char], host: &[char], prior: Option<&[char]>) -> (b: bool)
    ensures
        b == is_target(d, line@, host@, slice_view(prior)),
{
    match prior {
        Some(o) => is_rule_for(d, line, o),
        None => is_tagged_for(d, line, host),
    }
}

/// The rule line `line` with `new` as its address.
pub fn rewrite_line(
    d: Dialect,
    line: &[char],
    host: &[char],
    prior: Option<&[char]>,
    new: &[char],
) -> (out: Vec<char>)
    ensures
        out@ == rewritten(d, line@, host@, slice_view(prior), new@),
{
    let a = skip_spaces_exec(line, 0);
    let b = drop_spaces_exec(line, a, line.len());
    let t = &line[a..b];
    let mut out: Vec<char> = Vec::new();
    push_all(&mut out, &line[0..a]);
    let directive = keyword(d, t);
    match &directive {
        Some(kw) => push_all(&mut out, kw.as_slice()),
        None => {},
    }
    push_all(&mut out, new);
    match d {
        Dialect::Nginx => push_str(&mut out, ";"),
        Dialect::Apache => {},
    }
    let empty: Vec<char> = Vec::new();
    let tail: &[char] = match &directive {
        Some(kw) => {
            proof {
                assert(t@.subrange(kw@.len() as int, t@.len() as int) == t@.skip(
                    kw@.len() as int,
                ));
            }
            after_address_exec(d, &t[kw.len()..t.len()])
        },
        None => empty.as_slice(),
    };
    match prior {
        Some(_) => push_all(&mut out, tail),
        None => {
            let h = find_char_exec(tail, '#', 0);
            let kept = drop_spaces_exec(tail, 0, h);
            proof {
                assert(tail@.subrange(0, kept as int) == tail@.take(kept as int));
            }
            push_all(&mut out, &tail[0..kept]);
            push_str(&mut out, " ");
            push_str(&mut out, "# DDNS: ");
            push_all(&mut out, host);
        },
    }
    push_all(&mut out, &line[b..line.len()]);
    proof {
        assert(t@ == trim(line@));
        assert(line@.subrange(0, a as int) == line@.take(a as int));
        assert(line@.subrange(b as int, line@.len() as int) == line@.skip(b as int));
        assert(out@ =~= rewritten(d, line@, host@, slice_view(prior), new@));
    }
    out
}

/// The first line at or after `from` that counts and is a target.
pub fn find_target(
    d: Dialect,
    ls: &Vec<Vec<char>>,
    inside: &[bool],
    host: &[char],
    prior: Option<&[char]>,
) -> (k: usize)
    ensures
        k == first_target(d, texts(ls@), inside@, host@, slice_view(prior), 0),
        k <= ls.len(),
{
    let mut k: usize = 0;
    while k < ls.len()
        invariant
            k <= ls.len(),
            first_target(d, texts(ls@), inside@, host@, slice_view(prior), k as int) == first_target(
                d,
                texts(ls@),
                inside@,
                host@,
                slice_view(prior),
                0,
            ),
        decreases ls.len() - k,
    {
        if k < inside.len() && inside[k] && is_target_line(d, ls[k].as_slice(), host, prior) {
            return k;
        }
        k += 1;
    }
    k
}

/// Rewrites the first line that counts and is a target, and says whether
/// there was one.
pub fn edit_lines(
    d: Dialect,
    ls: &mut Vec<Vec<char>>,
    inside: &[bool],
    host: &[char],
    prior: Option<&[char]>,
    new: &[char],
) -> (changed: bool)
    ensures
        (texts(final(ls)@), changed) == edited(
            d,
            texts(old(ls)@),
            inside@,
            host@,
            slice_view(prior),
            new@,
        ),
{
    let k = find_target(d, ls, inside, host, prior);
    if k < ls.len() {
        let line = rewrite_line(d, ls[k].as_slice(), host, prior, new);
        let ghost before = texts(ls@);
        ls[k] = line;
        proof {
            assert(texts(ls@) =~= before.update(k as int, line@));
        }
        true
    } else {
        false
    }
}

/// Rewrites at most one rule line of `document`, given for each line
/// whether it counts.
///
/// With an old address, the first rule line that counts and whose address
/// token is that address gets the new address and keeps what follows the
/// address. Without one, the first rule line that counts and bears a marker
/// for `hostname` gets the new address, keeps what stands between the
/// address and the comment, and gets the canonical marker for its comment.
/// Without such a line the document comes back unchanged.
///
/// The new address must be able to stand as a token: a text with white
/// space, `;` or `#` in it would be written as more than an address.
pub fn mutate_marked(
    d: Dialect,
    document: &str,
    inside: &[bool],
    hostname: &str,
    old_address: Option<&str>,
    new_address: &str,
) -> (r: (String, bool))
    requires
        is_token(new_address@),
    ensures
        (r.0@, r.1) == mutated(
            d,
            document@,
            inside@,
            hostname@,
            str_view(old_address),
            new_address@,
        ),
{
    let doc = to_chars(document);
    let host = to_chars(hostname);
    let new = to_chars(new_address);
    let mut ls = split_lines(doc.as_slice());
    let changed = match old_address {
        Some(o) => {
            let prior = to_chars(o);
            edit_lines(d, &mut ls, inside, host.as_slice(), Some(prior.as_slice()), new.as_slice())
        },
        None => edit_lines(d, &mut ls, inside, host.as_slice(), None, new.as_slice()),
    };
    if changed {
        let out = join_lines(&ls);
        (from_chars(out.as_slice()), true)
    } else {
        (from_chars(doc.as_slice()), false)
    }
}

/// Whether some line of `document` that counts is a rule line for
/// `address`, given for each line whether it counts.
pub fn holds_address_marked(d: Dialect, document: &str, inside: &[bool], address: &str) -> (b:
    bool)
    ensures
        b == holds_address(d, lines(document@), inside@, address@),
{
    let doc = to_chars(document);
    let wanted = to_chars(address);
    let ls = split_lines(doc.as_slice());
    let none: Vec<char> = Vec::new();
    let k = find_target(d, &ls, inside, none.as_slice(), Some(wanted.as_slice()));
    k < ls.len()
}

} // verus!
