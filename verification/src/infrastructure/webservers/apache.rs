//! The family whose rules stand in blocks delimited by tags.

use crate::clock::is_backup_stamp;
use crate::domain::entities::{ErrorKind, UpdateError, WebServerType};
use crate::infrastructure::webservers::backup::{backup_path_now, backup_path_spec};
use crate::infrastructure::webservers::rules::{
    holds_address, holds_address_marked, is_token, mutate_marked, mutated, significant,
    str_view, trimmed, Dialect,
};
use crate::text::{
    contains, contains_str, from_chars, lines, split_lines, starts_with, starts_with_str, texts,
    to_chars, trim,
};
use vstd::prelude::*;

verus! {

/// What a line does to the nesting of tag blocks.
#[derive(Clone, Copy, Debug, PartialEq, Eq, Structural)]
pub enum TagMark {
    /// The line opens a block.
    Opens,
    /// The line closes a block.
    Closes,
    /// The line leaves the nesting as it is.
    Neither,
}

/// The nesting depth after a line with mark `m`: a closing line closes a
/// block where one is open.
pub open spec fn tag_step(depth: nat, m: TagMark) -> nat {
    match m {
        TagMark::Opens => depth + 1,
        TagMark::Closes => if depth > 0 {
            (depth - 1) as nat
        } else {
            0
        },
        TagMark::Neither => depth,
    }
}

/// The nesting depth at the start of line `k`.
pub open spec fn tag_depth_before(marks: Seq<TagMark>, k: int) -> nat
    decreases k,
{
    if k <= 0 {
        0
    } else {
        tag_step(tag_depth_before(marks, k - 1), marks[k - 1])
    }
}

/// For each line, whether it begins inside a block.
pub open spec fn tag_inside(marks: Seq<TagMark>) -> Seq<bool> {
    Seq::new(marks.len(), |k: int| tag_depth_before(marks, k) > 0)
}

/// For each line, whether it begins inside a block delimited by tags, given
/// what each line does to the nesting.
pub fn tag_blocks(marks: &[TagMark]) -> (inside: Vec<bool>)
    ensures
        inside@ == tag_inside(marks@),
{
    let mut inside: Vec<bool> = Vec::new();
    let mut depth: usize = 0;
    let mut k: usize = 0;
    while k < marks.len()
        invariant
            k <= marks.len(),
            depth == tag_depth_before(marks@, k as int),
            depth <= k,
            inside@ == tag_inside(marks@).take(k as int),
        decreases marks.len() - k,
    {
        inside.push(depth > 0);
        match marks[k] {
            TagMark::Opens => {
                depth += 1;
            },
            TagMark::Closes => {
                if depth > 0 {
                    depth -= 1;
                }
            },
            TagMark::Neither => {},
        }
        proof {
            assert(inside@ =~= tag_inside(marks@).take(k + 1));
        }
        k += 1;
    }
    proof {
        assert(inside@ =~= tag_inside(marks@));
    }
    inside
}

/// `regex::Error`, the error of a pattern that does not compile. The
/// library only carries it from the compiler of the pattern to the text of
/// its own error.
#[verifier::external_type_specification]
#[verifier::external_body]
pub struct ExRegexError(regex::Error);

/// Whether the regular expression `pattern`, compiled by `regex::Regex::new`
/// with its default settings, matches somewhere in `text`, as
/// `Regex::is_match` tells. The value is that of the `regex` crate and is
/// known by name only; it means nothing where the pattern does not compile.
pub uninterp spec fn regex_is_match(pattern: Seq<char>, text: Seq<char>) -> bool;

/// Whether `regex::Regex::new`, with its default settings, accepts the
/// regular expression `pattern`. The value is that of the `regex` crate and
/// is known by name only: it depends on the pattern alone.
pub uninterp spec fn regex_compiles(pattern: Seq<char>) -> bool;

/// Compiles `pattern` with `regex::Regex::new` and asks `Regex::is_match`
/// whether it matches in `text`. The error is the one the compiler of the
/// pattern gave: it comes where the pattern does not compile, and nowhere
/// else, since a match cannot fail.
#[verifier::external_body]
fn regex_match(pattern: &str, text: &str) -> (r: Result<bool, regex::Error>)
    ensures
        r is Ok <==> regex_compiles(pattern@),
        r matches Ok(b) ==> b == regex_is_match(pattern@, text@),
{
    match regex::Regex::new(pattern) {
        Ok(re) => Ok(re.is_match(text)),
        Err(e) => Err(e),
    }
}

/// What `regex::Error` says of itself, by its `Display`.
#[verifier::external_body]
fn regex_error_text(e: &regex::Error) -> String {
    e.to_string()
}

/// The pattern of a line that opens a `<Directory>` block.
pub open spec fn directory_pattern() -> Seq<char> {
    "^\\s*<Directory\\s+.*>\\s*$"@
}

/// The pattern of a line that opens a `<Location>` block.
pub open spec fn location_pattern() -> Seq<char> {
    "^\\s*<Location\\s+.*>\\s*$"@
}

/// The pattern of a line that opens a `<VirtualHost>` block.
pub open spec fn virtual_host_pattern() -> Seq<char> {
    "^\\s*<VirtualHost\\s+.*>\\s*$"@
}

/// The three patterns that find the lines that open a block all compile.
pub open spec fn patterns_compile() -> bool {
    regex_compiles(directory_pattern()) && regex_compiles(location_pattern()) && regex_compiles(
        virtual_host_pattern(),
    )
}

/// `line` opens a block: its trimmed text begins with one of the three tags
/// and the pattern of that tag matches the line.
pub open spec fn opens_block(line: Seq<char>) -> bool {
    let t = trim(line);
    ||| starts_with(t, "<Directory"@) && regex_is_match(directory_pattern(), line)
    ||| starts_with(t, "<Location"@) && regex_is_match(location_pattern(), line)
    ||| starts_with(t, "<VirtualHost"@) && regex_is_match(virtual_host_pattern(), line)
}

/// `line` closes a block: it holds the end tag of one of the three blocks.
pub open spec fn closes_block(line: Seq<char>) -> bool {
    contains(line, "</Directory>"@) || contains(line, "</Location>"@) || contains(
        line,
        "</VirtualHost>"@,
    )
}

/// What `line` does to the nesting of blocks.
pub open spec fn tag_mark(line: Seq<char>) -> TagMark {
    if opens_block(line) {
        TagMark::Opens
    } else if closes_block(line) {
        TagMark::Closes
    } else {
        TagMark::Neither
    }
}

/// What each line does to the nesting of blocks.
pub open spec fn tag_marks(ls: Seq<Seq<char>>) -> Seq<TagMark> {
    Seq::new(ls.len(), |k: int| tag_mark(ls[k]))
}

/// For each line of a document, whether it begins inside a block delimited
/// by tags.
pub open spec fn apache_inside(doc: Seq<char>) -> Seq<bool> {
    tag_inside(tag_marks(lines(doc)))
}

/// The failure that a refused pattern makes.
fn pattern_rejected(e: &regex::Error) -> (err: UpdateError)
    ensures
        err.kind == ErrorKind::PatternRejected,
{
    UpdateError::reported(ErrorKind::PatternRejected, regex_error_text(e))
}

/// Whether `line` opens a block. The patterns are tried only on a line whose
/// trimmed text begins with the tag.
pub fn opens_block_exec(line: &[char]) -> (r: Result<bool, UpdateError>)
    ensures
        r matches Ok(b) ==> b == opens_block(line@),
        r matches Err(e) ==> e.kind == ErrorKind::PatternRejected,
        patterns_compile() ==> r is Ok,
{
    let t = trimmed(line);
    let text = from_chars(line);
    if starts_with_str(t, "<Directory") {
        match regex_match("^\\s*<Directory\\s+.*>\\s*$", text.as_str()) {
            Ok(true) => {
                return Ok(true);
            },
            Ok(false) => {},
            Err(e) => {
                return Err(pattern_rejected(&e));
            },
        }
    }
    if starts_with_str(t, "<Location") {
        match regex_match("^\\s*<Location\\s+.*>\\s*$", text.as_str()) {
            Ok(true) => {
                return Ok(true);
            },
            Ok(false) => {},
            Err(e) => {
                return Err(pattern_rejected(&e));
            },
        }
    }
    if starts_with_str(t, "<VirtualHost") {
        match regex_match("^\\s*<VirtualHost\\s+.*>\\s*$", text.as_str()) {
            Ok(true) => {
                return Ok(true);
            },
            Ok(false) => {},
            Err(e) => {
                return Err(pattern_rejected(&e));
            },
        }
    }
    Ok(false)
}

/// Whether `line` closes a block.
pub fn closes_block_exec(line: &[char]) -> (b: bool)
    ensures
        b == closes_block(line@),
{
    contains_str(line, "</Directory>") || contains_str(line, "</Location>") || contains_str(
        line,
        "</VirtualHost>",
    )
}

/// What each line does to the nesting of blocks.
pub fn mark_lines(ls: &Vec<Vec<char>>) -> (r: Result<Vec<TagMark>, UpdateError>)
    ensures
        r matches Ok(marks) ==> marks@ == tag_marks(texts(ls@)),
        r matches Err(e) ==> e.kind == ErrorKind::PatternRejected,
        patterns_compile() ==> r is Ok,
{
    let mut marks: Vec<TagMark> = Vec::new();
    let mut k: usize = 0;
    while k < ls.len()
        invariant
            k <= ls.len(),
            marks@ == tag_marks(texts(ls@)).take(k as int),
        decreases ls.len() - k,
    {
        let line = ls[k].as_slice();
        let mark = match opens_block_exec(line) {
            Err(e) => {
                return Err(e);
            },
            Ok(true) => TagMark::Opens,
            Ok(false) => if closes_block_exec(line) {
                TagMark::Closes
            } else {
                TagMark::Neither
            },
        };
        marks.push(mark);
        proof {
            assert(texts(ls@)[k as int] == line@);
            assert(marks@ =~= tag_marks(texts(ls@)).take(k + 1));
        }
        k += 1;
    }
    proof {
        assert(marks@ =~= tag_marks(texts(ls@)));
    }
    Ok(marks)
}

/// For each line of `content`, whether it begins inside a block.
pub fn apache_blocks(content: &str) -> (r: Result<Vec<bool>, UpdateError>)
    ensures
        r matches Ok(inside) ==> inside@ == apache_inside(content@),
        r matches Err(e) ==> e.kind == ErrorKind::PatternRejected,
        patterns_compile() ==> r is Ok,
{
    let doc = to_chars(content);
    let ls = split_lines(doc.as_slice());
    match mark_lines(&ls) {
        Ok(marks) => Ok(tag_blocks(marks.as_slice())),
        Err(e) => Err(e),
    }
}

/// A line that is a tag and no end tag.
pub open spec fn is_start_tag(line: Seq<char>) -> bool {
    significant(line) && starts_with(trim(line), "<"@) && !starts_with(trim(line), "</"@)
}

/// A line that is an end tag.
pub open spec fn is_end_tag(line: Seq<char>) -> bool {
    significant(line) && starts_with(trim(line), "<"@) && starts_with(trim(line), "</"@)
}

/// A line that holds a directive: it says something and is no tag.
pub open spec fn is_plain_directive(line: Seq<char>) -> bool {
    significant(line) && !starts_with(trim(line), "<"@)
}

/// How many of the lines are start tags.
pub open spec fn start_tags(ls: Seq<Seq<char>>) -> nat
    decreases ls.len(),
{
    if ls.len() == 0 {
        0
    } else {
        start_tags(ls.drop_last()) + if is_start_tag(ls.last()) {
            1nat
        } else {
            0nat
        }
    }
}

/// How many of the lines are end tags.
pub open spec fn end_tags(ls: Seq<Seq<char>>) -> nat
    decreases ls.len(),
{
    if ls.len() == 0 {
        0
    } else {
        end_tags(ls.drop_last()) + if is_end_tag(ls.last()) {
            1nat
        } else {
            0nat
        }
    }
}

/// The structure that stands in for a syntax check where no checker can be
/// run: as many start tags as end tags and at least one, a line that opens
/// one of the three blocks, and a directive, which in this syntax the end of
/// its line closes.
pub open spec fn tag_structure_is_valid(doc: Seq<char>) -> bool {
    &&& start_tags(lines(doc)) == end_tags(lines(doc))
    &&& start_tags(lines(doc)) > 0
    &&& exists|k: int| 0 <= k < lines(doc).len() && opens_block(#[trigger] lines(doc)[k])
    &&& exists|k: int| 0 <= k < lines(doc).len() && is_plain_directive(#[trigger] lines(doc)[k])
}

/// What a line is to the structure of a document.
#[derive(Clone, Copy, Debug, PartialEq, Eq, Structural)]
pub enum LineKind {
    /// A tag that is no end tag.
    StartTag,
    /// An end tag.
    EndTag,
    /// A directive.
    Directive,
    /// An empty line or a comment.
    Silent,
}

/// What `line` is to the structure of a document.
pub open spec fn line_kind(line: Seq<char>) -> LineKind {
    if is_start_tag(line) {
        LineKind::StartTag
    } else if is_end_tag(line) {
        LineKind::EndTag
    } else if is_plain_directive(line) {
        LineKind::Directive
    } else {
        LineKind::Silent
    }
}

/// What `line` is to the structure of a document.
pub fn classify_line(line: &[char]) -> (kind: LineKind)
    ensures
        kind == line_kind(line@),
{
    let t = trimmed(line);
    if t.len() == 0 || t[0] == '#' {
        LineKind::Silent
    } else if !starts_with_str(t, "<") {
        LineKind::Directive
    } else if starts_with_str(t, "</") {
        LineKind::EndTag
    } else {
        LineKind::StartTag
    }
}

/// Whether a document has the structure of a configuration: balanced tags,
/// a line that opens one of the three blocks, and a directive.
pub fn validate_apache_structure(content: &str) -> (r: Result<bool, UpdateError>)
    ensures
        r matches Ok(valid) ==> valid == tag_structure_is_valid(content@),
        r matches Err(e) ==> e.kind == ErrorKind::PatternRejected,
        patterns_compile() ==> r is Ok,
{
    let doc = to_chars(content);
    let ls = split_lines(doc.as_slice());
    let ghost all = lines(content@);
    let mut starts: usize = 0;
    let mut ends: usize = 0;
    let mut block = false;
    let mut directive = false;
    let mut k: usize = 0;
    proof {
        assert(all.take(0) =~= Seq::<Seq<char>>::empty());
    }
    while k < ls.len()
        invariant
            k <= ls.len(),
            texts(ls@) == all,
            starts <= k,
            ends <= k,
            starts == start_tags(all.take(k as int)),
            ends == end_tags(all.take(k as int)),
            block == exists|j: int| 0 <= j < k && opens_block(#[trigger] all[j]),
            directive == exists|j: int| 0 <= j < k && is_plain_directive(#[trigger] all[j]),
        decreases ls.len() - k,
    {
        let line = ls[k].as_slice();
        proof {
            assert(all[k as int] == line@);
            assert(all.take(k + 1).drop_last() =~= all.take(k as int));
            assert(all.take(k + 1).last() == line@);
        }
        let kind = classify_line(line);
        let opens = match opens_block_exec(line) {
            Ok(b) => b,
            Err(e) => {
                return Err(e);
            },
        };
        match kind {
            LineKind::StartTag => {
                starts += 1;
            },
            LineKind::EndTag => {
                ends += 1;
            },
            LineKind::Directive => {
                directive = true;
            },
            LineKind::Silent => {},
        }
        if opens {
            block = true;
        }
        k += 1;
    }
    proof {
        assert(all.take(ls.len() as int) =~= all);
    }
    Ok(starts == ends && starts > 0 && block && directive)
}

/// The strategy for Apache.
#[derive(Debug, Clone, Copy)]
pub struct ApacheHandler;

impl ApacheHandler {
    /// The handler.
    pub fn new() -> ApacheHandler {
        ApacheHandler
    }

    /// The family of the handler.
    pub fn server_type(&self) -> (t: WebServerType)
        ensures
            t == WebServerType::Apache,
    {
        WebServerType::Apache
    }

    /// Rewrites at most one `Require ip` or `Allow from` line of `content`.
    ///
    /// With an old address, the first such line inside a block whose address
    /// token is that address gets the new address and keeps what follows it.
    /// Without one, the first such line inside a block that bears a marker
    /// for `hostname` gets the new address, keeps what stands between the
    /// address and the comment, and gets the canonical marker for its
    /// comment. Without such a line the document comes back unchanged. No
    /// line is ever added.
    /// The new address must be able to stand as a token.
    /// The call succeeds wherever the three patterns that find the blocks
    /// compile.
    pub fn update_apache_config(
        &self,
        content: &str,
        hostname: &str,
        old_ip: Option<&str>,
        new_ip: &str,
    ) -> (r: Result<(String, bool), UpdateError>)
        requires
            is_token(new_ip@),
        ensures
            r matches Ok(out) ==> (out.0@, out.1) == mutated(
                Dialect::Apache,
                content@,
                apache_inside(content@),
                hostname@,
                str_view(old_ip),
                new_ip@,
            ),
            r matches Err(e) ==> e.kind == ErrorKind::PatternRejected,
            patterns_compile() ==> r is Ok,
    {
        match apache_blocks(content) {
            Ok(inside) => Ok(
                mutate_marked(
                    Dialect::Apache,
                    content,
                    inside.as_slice(),
                    hostname,
                    old_ip,
                    new_ip,
                ),
            ),
            Err(e) => Err(e),
        }
    }

    /// The path of a backup of `config_path` made now, beside the document.
    /// There is no path where the clock cannot be read.
    pub fn backup_file(&self, config_path: &str) -> (r: Option<String>)
        ensures
            r matches Some(p) ==> exists|stamp: Seq<char>|
                is_backup_stamp(stamp) && p@ == backup_path_spec(config_path@, None, stamp),
    {
        backup_path_now(config_path, None)
    }

    /// Whether some `Require ip` or `Allow from` line of `content` inside a
    /// block grants access to `ip`.
    pub fn check_ip_in_config(&self, content: &str, ip: &str) -> (r: Result<bool, UpdateError>)
        ensures
            r matches Ok(b) ==> b == holds_address(
                Dialect::Apache,
                lines(content@),
                apache_inside(content@),
                ip@,
            ),
            r matches Err(e) ==> e.kind == ErrorKind::PatternRejected,
            patterns_compile() ==> r is Ok,
    {
        match apache_blocks(content) {
            Ok(inside) => Ok(holds_address_marked(Dialect::Apache, content, inside.as_slice(), ip)),
            Err(e) => Err(e),
        }
    }
}

impl Default for ApacheHandler {
    fn default() -> ApacheHandler {
        ApacheHandler::new()
    }
}

} // verus!
