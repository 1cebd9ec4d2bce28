//! Text as sequences of characters: white space, prefixes, searches, lines.
//!
//! Every function here is stated over `Seq<char>`, the view of `str`, `String`,
//! `[char]` and `Vec<char>` alike.

use vstd::prelude::*;

verus! {

/// White space: the characters that carry the Unicode property `White_Space`.
pub open spec fn is_space(c: char) -> bool {
    let n = c as u32;
    ||| 0x09 <= n <= 0x0d
    ||| n == 0x20
    ||| n == 0x85
    ||| n == 0xa0
    ||| n == 0x1680
    ||| 0x2000 <= n <= 0x200a
    ||| n == 0x2028
    ||| n == 0x2029
    ||| n == 0x202f
    ||| n == 0x205f
    ||| n == 0x3000
}

/// Whether `c` is white space.
pub fn is_whitespace(c: char) -> (b: bool)
    ensures
        b == is_space(c),
{
    let n: u32 = c as u32;
    (0x09 <= n && n <= 0x0d) || n == 0x20 || n == 0x85 || n == 0xa0 || n == 0x1680 || (0x2000 <= n
        && n <= 0x200a) || n == 0x2028 || n == 0x2029 || n == 0x202f || n == 0x205f || n == 0x3000
}

/// `p` stands in `s` at position `i`.
pub open spec fn occurs_at(s: Seq<char>, p: Seq<char>, i: int) -> bool {
    &&& 0 <= i
    &&& i + p.len() <= s.len()
    &&& s.subrange(i, i + p.len()) == p
}

/// `s` begins with `p`.
pub open spec fn starts_with(s: Seq<char>, p: Seq<char>) -> bool {
    occurs_at(s, p, 0)
}

/// `s` ends with `p`.
pub open spec fn ends_with(s: Seq<char>, p: Seq<char>) -> bool {
    occurs_at(s, p, s.len() - p.len())
}

/// `p` stands somewhere in `s`.
pub open spec fn contains(s: Seq<char>, p: Seq<char>) -> bool {
    exists|i: int| occurs_at(s, p, i)
}

/// The position of the first character of `s` at or after `from` that is not
/// white space, or `s.len()` where there is none.
pub open spec fn skip_spaces(s: Seq<char>, from: int) -> int
    decreases s.len() - from,
{
    if from >= s.len() {
        s.len() as int
    } else if !is_space(s[from]) {
        from
    } else {
        skip_spaces(s, from + 1)
    }
}

/// The end of `s` once trailing white space is dropped, never before `floor`.
pub open spec fn drop_spaces(s: Seq<char>, floor: int, end: int) -> int
    decreases end - floor,
{
    if end <= floor {
        floor
    } else if !is_space(s[end - 1]) {
        end
    } else {
        drop_spaces(s, floor, end - 1)
    }
}

/// Where the trimmed part of `s` begins.
pub open spec fn trim_start(s: Seq<char>) -> int {
    skip_spaces(s, 0)
}

/// Where the trimmed part of `s` ends.
pub open spec fn trim_end(s: Seq<char>) -> int {
    drop_spaces(s, trim_start(s), s.len() as int)
}

/// `s` without leading and trailing white space.
pub open spec fn trim(s: Seq<char>) -> Seq<char> {
    s.subrange(trim_start(s), trim_end(s))
}

/// The position of the first `c` in `s` at or after `from`, or `s.len()`
/// where there is none.
pub open spec fn find_char(s: Seq<char>, c: char, from: int) -> int
    decreases s.len() - from,
{
    if from >= s.len() {
        s.len() as int
    } else if s[from] == c {
        from
    } else {
        find_char(s, c, from + 1)
    }
}

/// What `skip_spaces` returns: a position in range, white space before it,
/// none at it.
pub proof fn lemma_skip_spaces(s: Seq<char>, from: int)
    requires
        0 <= from <= s.len(),
    ensures
        from <= skip_spaces(s, from) <= s.len(),
        forall|k: int| from <= k < skip_spaces(s, from) ==> is_space(#[trigger] s[k]),
        skip_spaces(s, from) < s.len() ==> !is_space(s[skip_spaces(s, from)]),
    decreases s.len() - from,
{
    if from < s.len() && is_space(s[from]) {
        lemma_skip_spaces(s, from + 1);
    }
}

/// What `drop_spaces` returns: a position in range, white space after it,
/// none just before it.
pub proof fn lemma_drop_spaces(s: Seq<char>, floor: int, end: int)
    requires
        0 <= floor <= end <= s.len(),
    ensures
        floor <= drop_spaces(s, floor, end) <= end,
        forall|k: int| drop_spaces(s, floor, end) <= k < end ==> is_space(#[trigger] s[k]),
        drop_spaces(s, floor, end) > floor ==> !is_space(s[drop_spaces(s, floor, end) - 1]),
    decreases end - floor,
{
    if end > floor && is_space(s[end - 1]) {
        lemma_drop_spaces(s, floor, end - 1);
    }
}

/// What `find_char` returns: a position in range, no `c` before it, `c` at it.
pub proof fn lemma_find_char(s: Seq<char>, c: char, from: int)
    requires
        0 <= from <= s.len(),
    ensures
        from <= find_char(s, c, from) <= s.len(),
        forall|k: int| from <= k < find_char(s, c, from) ==> #[trigger] s[k] != c,
        find_char(s, c, from) < s.len() ==> s[find_char(s, c, from)] == c,
    decreases s.len() - from,
{
    if from < s.len() && s[from] != c {
        lemma_find_char(s, c, from + 1);
    }
}

/// The characters of `s`, in order.
pub fn to_chars(s: &str) -> (v: Vec<char>)
    ensures
        v@ == s@,
{
    let mut v: Vec<char> = Vec::new();
    for c in it: s.chars()
        invariant
            v@ == it.seq().take(it.index() as int),
            it.seq() == s@,
    {
        v.push(c);
    }
    v
}

/// `String::push` appends the character to the string and changes nothing
/// else of it.
pub assume_specification[ String::push ](s: &mut String, c: char)
    ensures
        final(s)@ == old(s)@.push(c),
;

/// The string whose characters are those of `v`.
pub fn from_chars(v: &[char]) -> (s: String)
    ensures
        s@ == v@,
{
    let mut s = String::new();
    let mut i: usize = 0;
    while i < v.len()
        invariant
            i <= v.len(),
            s@ == v@.take(i as int),
        decreases v.len() - i,
    {
        s.push(v[i]);
        i += 1;
    }
    s
}

/// Appends the characters of `tail` to `out`.
pub fn push_all(out: &mut Vec<char>, tail: &[char])
    ensures
        final(out)@ == old(out)@ + tail@,
{
    let mut i: usize = 0;
    while i < tail.len()
        invariant
            i <= tail.len(),
            out@ == old(out)@ + tail@.take(i as int),
        decreases tail.len() - i,
    {
        out.push(tail[i]);
        i += 1;
    }
}

/// Appends the characters of `tail` to `out`.
pub fn push_str(out: &mut Vec<char>, tail: &str)
    ensures
        final(out)@ == old(out)@ + tail@,
{
    let chars = to_chars(tail);
    push_all(out, chars.as_slice());
}

/// Whether `p` stands in `s` at position `i`.
pub fn occurs_at_exec(s: &[char], p: &[char], i: usize) -> (b: bool)
    ensures
        b == occurs_at(s@, p@, i as int),
{
    if p.len() > s.len() || i > s.len() - p.len() {
        return false;
    }
    let mut k: usize = 0;
    while k < p.len()
        invariant
            k <= p.len(),
            i + p.len() <= s.len(),
            forall|j: int| 0 <= j < k ==> s@[i + j] == p@[j],
        decreases p.len() - k,
    {
        if s[i + k] != p[k] {
            proof {
                assert(s@.subrange(i as int, i + p.len())[k as int] == s@[i + k]);
            }
            return false;
        }
        k += 1;
    }
    proof {
        assert(s@.subrange(i as int, i + p.len()) =~= p@);
    }
    true
}

/// Whether `s` begins with `p`.
pub fn has_prefix(s: &[char], p: &[char]) -> (b: bool)
    ensures
        b == starts_with(s@, p@),
{
    occurs_at_exec(s, p, 0)
}

/// Whether `s` ends with `p`.
pub fn has_suffix(s: &[char], p: &[char]) -> (b: bool)
    ensures
        b == ends_with(s@, p@),
{
    if p.len() > s.len() {
        return false;
    }
    occurs_at_exec(s, p, s.len() - p.len())
}

/// Whether `p` stands somewhere in `s`.
pub fn has_infix(s: &[char], p: &[char]) -> (b: bool)
    ensures
        b == contains(s@, p@),
{
    let mut i: usize = 0;
    while i < s.len()
        invariant
            i <= s.len(),
            forall|j: int| 0 <= j < i ==> !occurs_at(s@, p@, j),
        decreases s.len() - i,
    {
        if occurs_at_exec(s, p, i) {
            return true;
        }
        i += 1;
    }
    occurs_at_exec(s, p, i)
}

/// The position of the first character of `s` at or after `from` that is not
/// white space.
pub fn skip_spaces_exec(s: &[char], from: usize) -> (i: usize)
    ensures
        i == skip_spaces(s@, from as int),
        i <= s.len(),
        from <= s.len() ==> from <= i,
{
    if from >= s.len() {
        return s.len();
    }
    let mut i: usize = from;
    while i < s.len() && is_whitespace(s[i])
        invariant
            from <= i <= s.len(),
            skip_spaces(s@, i as int) == skip_spaces(s@, from as int),
        decreases s.len() - i,
    {
        i += 1;
    }
    i
}

/// The end of `s[..end]` once trailing white space is dropped, never before
/// `floor`.
pub(crate) fn drop_spaces_exec(s: &[char], floor: usize, end: usize) -> (j: usize)
    requires
        floor <= end <= s.len(),
    ensures
        j == drop_spaces(s@, floor as int, end as int),
        floor <= j <= end,
{
    let mut j: usize = end;
    while j > floor && is_whitespace(s[j - 1])
        invariant
            floor <= j <= end <= s.len(),
            drop_spaces(s@, floor as int, j as int) == drop_spaces(s@, floor as int, end as int),
        decreases j - floor,
    {
        j -= 1;
    }
    j
}

/// The position of the first `c` in `s` at or after `from`.
pub fn find_char_exec(s: &[char], c: char, from: usize) -> (i: usize)
    ensures
        i == find_char(s@, c, from as int),
        i <= s.len(),
        from <= s.len() ==> from <= i,
{
    if from >= s.len() {
        return s.len();
    }
    let mut i: usize = from;
    while i < s.len() && s[i] != c
        invariant
            from <= i <= s.len(),
            find_char(s@, c, i as int) == find_char(s@, c, from as int),
        decreases s.len() - i,
    {
        i += 1;
    }
    i
}

/// The lines of `s`: what stands between its line feeds. A text without a
/// line feed is one line; a text that ends in a line feed ends in an empty
/// line.
pub open spec fn lines(s: Seq<char>) -> Seq<Seq<char>>
    decreases s.len(),
{
    let e = find_char(s, '\n', 0);
    if 0 <= e < s.len() {
        seq![s.take(e)] + lines(s.skip(e + 1))
    } else {
        seq![s]
    }
}

/// The lines `ls` with a line feed between each two neighbours.
pub open spec fn join(ls: Seq<Seq<char>>) -> Seq<char>
    decreases ls.len(),
{
    if ls.len() == 0 {
        Seq::empty()
    } else if ls.len() == 1 {
        ls[0]
    } else {
        ls[0] + seq!['\n'] + join(ls.skip(1))
    }
}

/// Searching a suffix is searching the whole from where the suffix begins.
pub proof fn lemma_find_char_skip(s: Seq<char>, c: char, a: int, from: int)
    requires
        0 <= a <= s.len(),
        0 <= from <= s.len() - a,
    ensures
        find_char(s.skip(a), c, from) + a == find_char(s, c, a + from),
    decreases s.len() - a - from,
{
    if from < s.len() - a {
        assert(s.skip(a)[from] == s[a + from]);
        if s[a + from] != c {
            lemma_find_char_skip(s, c, a, from + 1);
        }
    }
}

/// A text has at least one line, and no line holds a line feed.
pub proof fn lemma_lines_shape(s: Seq<char>)
    ensures
        lines(s).len() >= 1,
        forall|k: int| 0 <= k < lines(s).len() ==> !(#[trigger] lines(s)[k]).contains('\n'),
    decreases s.len(),
{
    let e = find_char(s, '\n', 0);
    lemma_find_char(s, '\n', 0);
    if 0 <= e < s.len() {
        let head = s.take(e);
        let rest = lines(s.skip(e + 1));
        lemma_lines_shape(s.skip(e + 1));
        assert(!head.contains('\n')) by {
            if head.contains('\n') {
                let i = choose|i: int| 0 <= i < head.len() && head[i] == '\n';
                assert(s[i] == '\n');
            }
        }
        assert forall|k: int| 0 <= k < lines(s).len() implies !(#[trigger] lines(s)[k]).contains(
            '\n',
        ) by {
            if k > 0 {
                assert(lines(s)[k] == rest[k - 1]);
            }
        }
    } else {
        assert(!s.contains('\n')) by {
            if s.contains('\n') {
                let i = choose|i: int| 0 <= i < s.len() && s[i] == '\n';
            }
        }
    }
}

/// Joining the lines of a text gives the text back.
pub proof fn lemma_join_lines(s: Seq<char>)
    ensures
        join(lines(s)) == s,
    decreases s.len(),
{
    let e = find_char(s, '\n', 0);
    lemma_find_char(s, '\n', 0);
    if 0 <= e < s.len() {
        let rest = lines(s.skip(e + 1));
        lemma_join_lines(s.skip(e + 1));
        lemma_lines_shape(s.skip(e + 1));
        assert(lines(s).skip(1) =~= rest);
        assert(s.take(e) + seq!['\n'] + s.skip(e + 1) =~= s);
    }
}

/// Splitting what was joined gives the lines back, where no line holds a line
/// feed.
pub proof fn lemma_lines_join(ls: Seq<Seq<char>>)
    requires
        ls.len() >= 1,
        forall|k: int| 0 <= k < ls.len() ==> !(#[trigger] ls[k]).contains('\n'),
    ensures
        lines(join(ls)) == ls,
    decreases ls.len(),
{
    let first = ls[0];
    lemma_find_char(first, '\n', 0);
    if ls.len() == 1 {
        assert(find_char(first, '\n', 0) == first.len()) by {
            if find_char(first, '\n', 0) < first.len() {
                assert(first.contains('\n'));
            }
        }
        assert(lines(first) =~= ls);
    } else {
        let tail = ls.skip(1);
        let s = join(ls);
        assert forall|k: int| 0 <= k < tail.len() implies !(#[trigger] tail[k]).contains('\n') by {
            assert(tail[k] == ls[k + 1]);
        }
        lemma_lines_join(tail);
        assert(s == first + seq!['\n'] + join(tail));
        lemma_find_char(s, '\n', 0);
        let e = find_char(s, '\n', 0);
        assert(s[first.len() as int] == '\n');
        assert(e == first.len()) by {
            if e < first.len() {
                assert(s[e] == first[e]);
                assert(first.contains('\n'));
            }
        }
        assert(s.take(e) =~= first);
        assert(s.skip(e + 1) =~= join(tail));
        assert(lines(s) =~= ls);
    }
}

/// The texts that the vectors of `ls` hold.
pub open spec fn texts(ls: Seq<Vec<char>>) -> Seq<Seq<char>> {
    Seq::new(ls.len(), |k: int| ls[k]@)
}

/// The lines of `s`.
pub fn split_lines(s: &[char]) -> (ls: Vec<Vec<char>>)
    ensures
        texts(ls@) == lines(s@),
{
    let mut ls: Vec<Vec<char>> = Vec::new();
    let mut start: usize = 0;
    proof {
        assert(s@.skip(0) =~= s@);
        assert(texts(ls@) + lines(s@) =~= lines(s@));
    }
    loop
        invariant_except_break
            start <= s.len(),
            lines(s@) == texts(ls@) + lines(s@.skip(start as int)),
        ensures
            texts(ls@) == lines(s@),
        decreases s.len() - start,
    {
        let e = find_char_exec(s, '\n', start);
        let mut line: Vec<char> = Vec::new();
        push_all(&mut line, &s[start..e]);
        proof {
            let rest = s@.skip(start as int);
            lemma_find_char_skip(s@, '\n', start as int, 0);
            assert(line@ =~= s@.subrange(start as int, e as int));
            if e < s.len() {
                assert(rest.take(e - start) =~= line@);
                assert(rest.skip(e - start + 1) =~= s@.skip(e + 1));
            } else {
                assert(rest =~= line@);
            }
        }
        let ghost before = texts(ls@);
        ls.push(line);
        proof {
            assert(texts(ls@) =~= before + seq![line@]);
        }
        if e >= s.len() {
            break;
        }
        start = e + 1;
    }
    ls
}

/// Joining one more line: a line feed, then the line.
pub proof fn lemma_join_push(ls: Seq<Seq<char>>, l: Seq<char>)
    ensures
        join(ls.push(l)) == if ls.len() == 0 {
            l
        } else {
            join(ls) + seq!['\n'] + l
        },
    decreases ls.len(),
{
    let all = ls.push(l);
    if ls.len() == 1 {
        assert(all.skip(1) =~= seq![l]);
        assert(join(all.skip(1)) == l);
    } else if ls.len() > 1 {
        assert(all.skip(1) =~= ls.skip(1).push(l));
        lemma_join_push(ls.skip(1), l);
        assert(join(all) =~= join(ls) + seq!['\n'] + l);
    }
}

/// The lines `ls` with a line feed between each two neighbours.
pub fn join_lines(ls: &Vec<Vec<char>>) -> (s: Vec<char>)
    ensures
        s@ == join(texts(ls@)),
{
    let mut s: Vec<char> = Vec::new();
    let mut k: usize = 0;
    proof {
        assert(texts(ls@).take(0) =~= Seq::<Seq<char>>::empty());
    }
    while k < ls.len()
        invariant
            k <= ls.len(),
            s@ == join(texts(ls@).take(k as int)),
        decreases ls.len() - k,
    {
        proof {
            lemma_join_push(texts(ls@).take(k as int), ls[k as int]@);
            assert(texts(ls@).take(k + 1) =~= texts(ls@).take(k as int).push(ls[k as int]@));
        }
        if k > 0 {
            s.push('\n');
        }
        push_all(&mut s, ls[k].as_slice());
        k += 1;
    }
    proof {
        assert(texts(ls@).take(ls.len() as int) =~= texts(ls@));
    }
    s
}

/// Whether `a` and `b` hold the same text.
pub fn same_text(a: &[char], b: &[char]) -> (r: bool)
    ensures
        r == (a@ == b@),
{
    if a.len() != b.len() {
        return false;
    }
    let r = occurs_at_exec(a, b, 0);
    proof {
        assert(a@.subrange(0, a@.len() as int) =~= a@);
    }
    r
}

/// Whether `a` and `b` hold the same text.
pub fn str_eq(a: &str, b: &str) -> (r: bool)
    ensures
        r == (a@ == b@),
{
    let x = to_chars(a);
    let y = to_chars(b);
    same_text(x.as_slice(), y.as_slice())
}

/// Whether `s` begins with `p`.
pub fn str_starts_with(s: &str, p: &str) -> (r: bool)
    ensures
        r == starts_with(s@, p@),
{
    let x = to_chars(s);
    let y = to_chars(p);
    has_prefix(x.as_slice(), y.as_slice())
}

/// Whether `p` stands somewhere in `s`.
pub fn str_contains(s: &str, p: &str) -> (r: bool)
    ensures
        r == contains(s@, p@),
{
    let x = to_chars(s);
    let y = to_chars(p);
    has_infix(x.as_slice(), y.as_slice())
}

/// The texts `a` and `b`, one after the other.
pub fn concat(a: &str, b: &str) -> (s: String)
    ensures
        s@ == a@ + b@,
{
    let mut out = to_chars(a);
    push_str(&mut out, b);
    from_chars(out.as_slice())
}

/// The texts `a`, `b` and `c`, one after the other.
pub fn concat3(a: &str, b: &str, c: &str) -> (s: String)
    ensures
        s@ == a@ + b@ + c@,
{
    let mut out = to_chars(a);
    push_str(&mut out, b);
    push_str(&mut out, c);
    from_chars(out.as_slice())
}

/// The character that writes the digit `d`.
pub open spec fn digit(d: nat) -> char {
    if d == 0 {
        '0'
    } else if d == 1 {
        '1'
    } else if d == 2 {
        '2'
    } else if d == 3 {
        '3'
    } else if d == 4 {
        '4'
    } else if d == 5 {
        '5'
    } else if d == 6 {
        '6'
    } else if d == 7 {
        '7'
    } else if d == 8 {
        '8'
    } else {
        '9'
    }
}

/// The number `n` written in decimal digits, without leading zeros.
pub open spec fn decimal(n: nat) -> Seq<char>
    decreases n,
{
    if n < 10 {
        seq![digit(n)]
    } else {
        decimal(n / 10).push(digit(n % 10))
    }
}

/// The number `n` written in decimal digits.
pub fn to_decimal(n: usize) -> (v: Vec<char>)
    ensures
        v@ == decimal(n as nat),
    decreases n,
{
    let d = n % 10;
    let c = if d == 0 {
        '0'
    } else if d == 1 {
        '1'
    } else if d == 2 {
        '2'
    } else if d == 3 {
        '3'
    } else if d == 4 {
        '4'
    } else if d == 5 {
        '5'
    } else if d == 6 {
        '6'
    } else if d == 7 {
        '7'
    } else if d == 8 {
        '8'
    } else {
        '9'
    };
    if n < 10 {
        let mut v: Vec<char> = Vec::new();
        v.push(c);
        v
    } else {
        let mut v = to_decimal(n / 10);
        v.push(c);
        v
    }
}

/// The text that `str::to_lowercase` makes of a text: each character
/// replaced by its lower-case form as the Unicode tables of the standard
/// library give it.
pub uninterp spec fn lowercase(s: Seq<char>) -> Seq<char>;

/// The lower-case form of `s`, by `str::to_lowercase`. The result is known
/// by name only.
#[verifier::external_body]
pub(crate) fn to_lowercase(s: &str) -> (r: String)
    ensures
        r@ == lowercase(s@),
{
    s.to_lowercase()
}

/// How often `c` stands in `s`.
pub open spec fn count_char(s: Seq<char>, c: char) -> nat
    decreases s.len(),
{
    if s.len() == 0 {
        0
    } else {
        count_char(s.drop_last(), c) + if s.last() == c {
            1nat
        } else {
            0nat
        }
    }
}

/// How often `c` stands in `s`.
pub fn count_char_exec(s: &[char], c: char) -> (n: usize)
    ensures
        n == count_char(s@, c),
{
    let mut n: usize = 0;
    let mut i: usize = 0;
    proof {
        assert(s@.take(0) =~= Seq::<char>::empty());
    }
    while i < s.len()
        invariant
            i <= s.len(),
            n <= i,
            n == count_char(s@.take(i as int), c),
        decreases s.len() - i,
    {
        proof {
            assert(s@.take(i + 1).drop_last() =~= s@.take(i as int));
        }
        if s[i] == c {
            n += 1;
        }
        i += 1;
    }
    proof {
        assert(s@.take(s.len() as int) =~= s@);
    }
    n
}

/// The position after the last `c` in `s[..end]`, or 0 where there is none.
pub open spec fn after_last(s: Seq<char>, c: char, end: int) -> int
    decreases end,
{
    if end <= 0 {
        0
    } else if s[end - 1] == c {
        end
    } else {
        after_last(s, c, end - 1)
    }
}

/// The position after the last `c` in `s`, or 0 where there is none.
pub fn after_last_exec(s: &[char], c: char) -> (i: usize)
    ensures
        i == after_last(s@, c, s@.len() as int),
        i <= s.len(),
{
    let mut i: usize = s.len();
    while i > 0 && s[i - 1] != c
        invariant
            i <= s.len(),
            after_last(s@, c, i as int) == after_last(s@, c, s@.len() as int),
        decreases i,
    {
        i -= 1;
    }
    i
}

/// Whether `c` stands in `s`.
pub fn has_char(s: &[char], c: char) -> (b: bool)
    ensures
        b == s@.contains(c),
{
    let i = find_char_exec(s, c, 0);
    proof {
        lemma_find_char(s@, c, 0);
    }
    i < s.len()
}

/// Whether `s` begins with the text `p`.
pub fn starts_with_str(s: &[char], p: &str) -> (b: bool)
    ensures
        b == starts_with(s@, p@),
{
    let chars = to_chars(p);
    has_prefix(s, chars.as_slice())
}

/// Whether `s` ends with the text `p`.
pub fn ends_with_str(s: &[char], p: &str) -> (b: bool)
    ensures
        b == ends_with(s@, p@),
{
    let chars = to_chars(p);
    has_suffix(s, chars.as_slice())
}

/// Whether the text `p` stands somewhere in `s`.
pub fn contains_str(s: &[char], p: &str) -> (b: bool)
    ensures
        b == contains(s@, p@),
{
    let chars = to_chars(p);
    has_infix(s, chars.as_slice())
}

} // verus!
