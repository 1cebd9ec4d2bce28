//! The family whose blocks are delimited by braces. A rule of this family
//! counts wherever it stands.

use crate::clock::is_backup_stamp;
use crate::domain::entities::{opt_text, WebServerType};
use crate::infrastructure::webservers::backup::{backup_path_now, backup_path_spec};
use crate::infrastructure::webservers::rules::{
    holds_address, holds_address_marked, is_token, mutate_marked, mutated, significant,
    str_view, trimmed, Dialect,
};
use crate::text::{
    count_char, count_char_exec, ends_with, ends_with_str, has_char, lines, split_lines,
    starts_with, starts_with_str, texts, to_chars, trim,
};
use vstd::prelude::*;

verus! {

/// A line that opens one of the blocks a configuration is made of: `server`,
/// `events`, `http` or `upstream`, with its brace.
pub open spec fn is_block_line(line: Seq<char>) -> bool {
    let t = trim(line);
    &&& significant(line)
    &&& t.contains('{')
    &&& (starts_with(t, "server"@) || starts_with(t, "events"@) || starts_with(t, "http"@)
        || starts_with(t, "upstream"@))
}

/// A line that holds a directive closed by `;`.
pub open spec fn is_directive_line(line: Seq<char>) -> bool {
    significant(line) && ends_with(trim(line), ";"@)
}

/// As many `{` as `}`, and at least one.
pub open spec fn balanced_braces(doc: Seq<char>) -> bool {
    count_char(doc, '{') == count_char(doc, '}') && count_char(doc, '{') > 0
}

/// The structure that stands in for a syntax check where no checker can be
/// run: balanced braces, a line that opens a known block, and a directive
/// closed by `;`.
pub open spec fn structure_is_valid(doc: Seq<char>) -> bool {
    &&& balanced_braces(doc)
    &&& exists|k: int| 0 <= k < lines(doc).len() && is_block_line(#[trigger] lines(doc)[k])
    &&& exists|k: int| 0 <= k < lines(doc).len() && is_directive_line(#[trigger] lines(doc)[k])
}

/// Whether a document has the structure of a configuration: balanced braces,
/// a line that opens a known block, and a directive closed by `;`.
pub fn validate_nginx_structure(content: &str) -> (valid: bool)
    ensures
        valid == structure_is_valid(content@),
{
    let doc = to_chars(content);
    let opened = count_char_exec(doc.as_slice(), '{');
    let closed = count_char_exec(doc.as_slice(), '}');
    if opened != closed || opened == 0 {
        return false;
    }
    let ls = split_lines(doc.as_slice());
    let mut block = false;
    let mut directive = false;
    let mut k: usize = 0;
    while k < ls.len()
        invariant
            k <= ls.len(),
            texts(ls@) == lines(content@),
            block == exists|j: int| 0 <= j < k && is_block_line(#[trigger] lines(content@)[j]),
            directive == exists|j: int|
                0 <= j < k && is_directive_line(#[trigger] lines(content@)[j]),
        decreases ls.len() - k,
    {
        let t = trimmed(ls[k].as_slice());
        proof {
            assert(texts(ls@)[k as int] == ls[k as int]@);
        }
        if t.len() > 0 && t[0] != '#' {
            if has_char(t, '{') && (starts_with_str(t, "server") || starts_with_str(t, "events")
                || starts_with_str(t, "http") || starts_with_str(t, "upstream")) {
                block = true;
            }
            if ends_with_str(t, ";") {
                directive = true;
            }
        }
        k += 1;
    }
    block && directive
}

/// For each line of a document, whether a rule on it counts: in this family
/// a rule counts wherever it stands, inside a block or at the top of a file
/// that another one includes.
pub open spec fn nginx_inside(doc: Seq<char>) -> Seq<bool> {
    Seq::new(lines(doc).len(), |k: int| true)
}

/// For each line of `content`, that a rule on it counts.
pub fn nginx_lines(content: &str) -> (inside: Vec<bool>)
    ensures
        inside@ == nginx_inside(content@),
{
    let doc = to_chars(content);
    let ls = split_lines(doc.as_slice());
    let mut inside: Vec<bool> = Vec::new();
    let mut k: usize = 0;
    while k < ls.len()
        invariant
            k <= ls.len(),
            texts(ls@) == lines(content@),
            inside@ == nginx_inside(content@).take(k as int),
        decreases ls.len() - k,
    {
        inside.push(true);
        proof {
            assert(inside@ =~= nginx_inside(content@).take(k + 1));
        }
        k += 1;
    }
    proof {
        assert(texts(ls@).len() == ls.len());
        assert(inside@ =~= nginx_inside(content@));
    }
    inside
}

/// The strategy for nginx.
#[derive(Debug, Clone)]
pub struct NginxHandler {
    backup_dir: Option<String>,
}

impl NginxHandler {
    /// A handler whose backups go beside the documents.
    pub fn new() -> (h: NginxHandler)
        ensures
            h.backup_dir() is None,
    {
        NginxHandler { backup_dir: None }
    }

    /// A handler whose backups go to `backup_dir`, where one is given.
    pub fn with_backup_dir(backup_dir: Option<String>) -> (h: NginxHandler)
        ensures
            h.backup_dir() == backup_dir,
    {
        NginxHandler { backup_dir }
    }

    /// The directory that backups go to.
    pub closed spec fn backup_dir(&self) -> Option<String> {
        self.backup_dir
    }

    /// The family of the handler.
    pub fn server_type(&self) -> (t: WebServerType)
        ensures
            t == WebServerType::Nginx,
    {
        WebServerType::Nginx
    }

    /// Rewrites at most one `allow` line of `content`.
    ///
    /// With an old address, the first `allow` line whose address token is
    /// that address gets the new address and keeps what follows it. Without
    /// one, the first `allow` line that bears a marker for `hostname` gets
    /// the new address, keeps what stands between the address and the
    /// comment, and gets the canonical marker for its comment. The line
    /// counts wherever it stands. Without such a line the document comes back unchanged. No
    /// line is ever added. The new address must be able to stand as a token.
    pub fn update_nginx_config(
        &self,
        content: &str,
        hostname: &str,
        old_ip: Option<&str>,
        new_ip: &str,
    ) -> (r: (String, bool))
        requires
            is_token(new_ip@),
        ensures
            (r.0@, r.1) == mutated(
                Dialect::Nginx,
                content@,
                nginx_inside(content@),
                hostname@,
                str_view(old_ip),
                new_ip@,
            ),
    {
        let inside = nginx_lines(content);
        mutate_marked(Dialect::Nginx, content, inside.as_slice(), hostname, old_ip, new_ip)
    }

    /// The path of a backup of `config_path` made now: in the backup
    /// directory of the handler where it has one, else beside the document.
    /// There is no path where the clock cannot be read.
    pub fn backup_file(&self, config_path: &str) -> (r: Option<String>)
        ensures
            r matches Some(p) ==> exists|stamp: Seq<char>|
                is_backup_stamp(stamp) && p@ == backup_path_spec(
                    config_path@,
                    opt_text(self.backup_dir()),
                    stamp,
                ),
    {
        match &self.backup_dir {
            Some(dir) => backup_path_now(config_path, Some(dir.as_str())),
            None => backup_path_now(config_path, None),
        }
    }

    /// Whether some `allow` line of `content` grants access to `ip`:
    /// whether `ip` is its address token.
    pub fn check_ip_in_config(&self, content: &str, ip: &str) -> (b: bool)
        ensures
            b == holds_address(Dialect::Nginx, lines(content@), nginx_inside(content@), ip@),
    {
        let inside = nginx_lines(content);
        holds_address_marked(Dialect::Nginx, content, inside.as_slice(), ip)
    }
}

impl Default for NginxHandler {
    fn default() -> (h: NginxHandler)
        ensures
            h.backup_dir() is None,
    {
        NginxHandler::new()
    }
}

} // verus!
