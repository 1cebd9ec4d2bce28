//! Whether a text looks like an nginx configuration.

use crate::infrastructure::webservers::backup::{backup_path, backup_path_spec};
use crate::infrastructure::webservers::rules::{significant, str_view, trimmed};
use crate::text::{
    after_last, after_last_exec, concat3, decimal, from_chars, has_char, lines, push_str,
    split_lines, starts_with, texts, to_chars, to_decimal, trim,
};
use vstd::prelude::*;

verus! {

/// The trimmed line `t` begins with the directive `name` as a word of its
/// own: nothing follows the name, or a blank, a tab or a brace.
pub open spec fn begins_directive(t: Seq<char>, name: Seq<char>) -> bool {
    &&& starts_with(t, name)
    &&& (t.len() == name.len() || t[name.len() as int] == ' ' || t[name.len() as int] == '\t'
        || t[name.len() as int] == '{')
}

/// The trimmed line `t` begins with a directive that nginx knows.
pub open spec fn is_directive(t: Seq<char>) -> bool {
    ||| begins_directive(t, "server"@)
    ||| begins_directive(t, "location"@)
    ||| begins_directive(t, "listen"@)
    ||| begins_directive(t, "server_name"@)
    ||| begins_directive(t, "root"@)
    ||| begins_directive(t, "index"@)
    ||| begins_directive(t, "proxy_pass"@)
    ||| begins_directive(t, "upstream"@)
    ||| begins_directive(t, "events"@)
    ||| begins_directive(t, "http"@)
    ||| begins_directive(t, "worker_processes"@)
    ||| begins_directive(t, "error_log"@)
    ||| begins_directive(t, "access_log"@)
    ||| begins_directive(t, "include"@)
    ||| begins_directive(t, "gzip"@)
    ||| begins_directive(t, "ssl_certificate"@)
    ||| begins_directive(t, "return"@)
    ||| begins_directive(t, "rewrite"@)
    ||| begins_directive(t, "try_files"@)
    ||| begins_directive(t, "add_header"@)
    ||| begins_directive(t, "set"@)
    ||| begins_directive(t, "if"@)
    ||| begins_directive(t, "allow"@)
    ||| begins_directive(t, "deny"@)
    ||| begins_directive(t, "auth_basic"@)
    ||| begins_directive(t, "fastcgi_pass"@)
    ||| begins_directive(t, "client_max_body_size"@)
}

/// A line that says something and begins with a directive.
pub open spec fn is_directive_line(line: Seq<char>) -> bool {
    significant(line) && is_directive(trim(line))
}

/// A line that says something and holds a brace.
pub open spec fn has_brace(line: Seq<char>) -> bool {
    significant(line) && (trim(line).contains('{') || trim(line).contains('}'))
}

/// How many of the lines say something.
pub open spec fn significant_lines(ls: Seq<Seq<char>>) -> nat
    decreases ls.len(),
{
    if ls.len() == 0 {
        0
    } else {
        significant_lines(ls.drop_last()) + if significant(ls.last()) {
            1nat
        } else {
            0nat
        }
    }
}

/// How many of the lines begin with a directive.
pub open spec fn directive_lines(ls: Seq<Seq<char>>) -> nat
    decreases ls.len(),
{
    if ls.len() == 0 {
        0
    } else {
        directive_lines(ls.drop_last()) + if is_directive_line(ls.last()) {
            1nat
        } else {
            0nat
        }
    }
}

/// A text looks like an nginx configuration: it says something, a line of it
/// holds a brace, and at least one in five of the lines that say something
/// begins with a directive.
pub open spec fn looks_like_nginx(doc: Seq<char>) -> bool {
    &&& significant_lines(lines(doc)) > 0
    &&& exists|k: int| 0 <= k < lines(doc).len() && has_brace(#[trigger] lines(doc)[k])
    &&& 5 * directive_lines(lines(doc)) >= significant_lines(lines(doc))
}

/// Whether the trimmed line `t` begins with the directive `name` as a word
/// of its own.
pub fn begins_directive_exec(t: &[char], name: &str) -> (b: bool)
    ensures
        b == begins_directive(t@, name@),
{
    let word = to_chars(name);
    if !crate::text::has_prefix(t, word.as_slice()) {
        return false;
    }
    if t.len() == word.len() {
        return true;
    }
    let c = t[word.len()];
    c == ' ' || c == '\t' || c == '{'
}

/// Whether the trimmed line `t` begins with a directive that nginx knows.
pub fn is_directive_exec(t: &[char]) -> (b: bool)
    ensures
        b == is_directive(t@),
{
    begins_directive_exec(t, "server") || begins_directive_exec(t, "location")
        || begins_directive_exec(t, "listen") || begins_directive_exec(t, "server_name")
        || begins_directive_exec(t, "root") || begins_directive_exec(t, "index")
        || begins_directive_exec(t, "proxy_pass") || begins_directive_exec(t, "upstream")
        || begins_directive_exec(t, "events") || begins_directive_exec(t, "http")
        || begins_directive_exec(t, "worker_processes")
        || begins_directive_exec(t, "error_log") || begins_directive_exec(t, "access_log")
        || begins_directive_exec(t, "include") || begins_directive_exec(t, "gzip")
        || begins_directive_exec(t, "ssl_certificate") || begins_directive_exec(t, "return")
        || begins_directive_exec(t, "rewrite") || begins_directive_exec(t, "try_files")
        || begins_directive_exec(t, "add_header") || begins_directive_exec(t, "set")
        || begins_directive_exec(t, "if") || begins_directive_exec(t, "allow")
        || begins_directive_exec(t, "deny") || begins_directive_exec(t, "auth_basic")
        || begins_directive_exec(t, "fastcgi_pass")
        || begins_directive_exec(t, "client_max_body_size")
}

/// Whether `content` looks like an nginx configuration: it says something,
/// a line of it holds a brace, and at least one in five of the lines that
/// say something begins with a directive that nginx knows. Empty lines and
/// comments do not count.
pub fn is_nginx_config_content(content: &str) -> (b: bool)
    ensures
        b == looks_like_nginx(content@),
{
    let doc = to_chars(content);
    let ls = split_lines(doc.as_slice());
    let ghost all = lines(content@);
    let mut directive_count: usize = 0;
    let mut total_lines: usize = 0;
    let mut has_braces = false;
    let mut k: usize = 0;
    proof {
        assert(all.take(0) =~= Seq::<Seq<char>>::empty());
    }
    while k < ls.len()
        invariant
            k <= ls.len(),
            texts(ls@) == all,
            directive_count <= k,
            total_lines <= k,
            directive_count == directive_lines(all.take(k as int)),
            total_lines == significant_lines(all.take(k as int)),
            has_braces == exists|j: int| 0 <= j < k && has_brace(#[trigger] all[j]),
        decreases ls.len() - k,
    {
        let t = trimmed(ls[k].as_slice());
        proof {
            assert(all[k as int] == ls[k as int]@);
            assert(all.take(k + 1).drop_last() =~= all.take(k as int));
            assert(all.take(k + 1).last() == all[k as int]);
        }
        if t.len() > 0 && t[0] != '#' {
            total_lines += 1;
            if has_char(t, '{') || has_char(t, '}') {
                has_braces = true;
            }
            if is_directive_exec(t) {
                directive_count += 1;
            }
        }
        k += 1;
    }
    proof {
        assert(all.take(ls.len() as int) =~= all);
    }
    total_lines > 0 && has_braces && (directive_count as u128) * 5 >= total_lines as u128
}

/// The hostname that a comment of the form `DDNS for <hostname>` names; any
/// other comment is taken as the hostname itself.
pub fn hostname_of_comment(comment: &str) -> (hostname: String)
    ensures
        hostname@ == (if starts_with(comment@, "DDNS for "@) {
            comment@.skip("DDNS for "@.len() as int)
        } else {
            comment@
        }),
{
    let chars = to_chars(comment);
    let prefix = to_chars("DDNS for ");
    if crate::text::has_prefix(chars.as_slice(), prefix.as_slice()) {
        proof {
            assert(chars@.subrange(prefix@.len() as int, chars@.len() as int) == chars@.skip(
                prefix@.len() as int,
            ));
        }
        from_chars(&chars.as_slice()[prefix.len()..chars.len()])
    } else {
        from_chars(chars.as_slice())
    }
}

/// Whether a file that was read holds an nginx configuration. A file that
/// could not be read gives the error of the read.
pub fn is_nginx_config_file(read: Result<String, String>) -> (r: Result<bool, String>)
    ensures
        match read {
            Ok(content) => r == Ok::<bool, String>(looks_like_nginx(content@)),
            Err(e) => r == Err::<bool, String>(e),
        },
{
    match read {
        Ok(content) => Ok(is_nginx_config_content(content.as_str())),
        Err(e) => Err(e),
    }
}

/// The message for a file that holds no nginx configuration.
pub open spec fn not_nginx_message(path: Seq<char>) -> Seq<char> {
    "File '"@ + path
        + "' does not appear to be an nginx configuration file. Expected to find nginx directives like 'server', 'location', 'listen', etc."@
}

/// Whether the file at `path` can be used as an nginx configuration, given
/// whether it exists and what reading it gave. The error says what is wrong:
/// the file is missing, it could not be read, or it holds no nginx
/// configuration.
pub fn validate_nginx_config_file(path: &str, exists: bool, read: Result<String, String>) -> (r:
    Result<(), String>)
    ensures
        !exists ==> (r matches Err(e) && e@ == "Config file not found: "@ + path@),
        exists ==> match read {
            Ok(content) => if looks_like_nginx(content@) {
                r is Ok
            } else {
                r matches Err(e) && e@ == not_nginx_message(path@)
            },
            Err(cause) => r matches Err(e) && e@ == "Failed to read config file '"@ + path@ + "': "@
                + cause@,
        },
{
    if !exists {
        return Err(crate::text::concat("Config file not found: ", path));
    }
    match read {
        Ok(content) => if is_nginx_config_content(content.as_str()) {
            Ok(())
        } else {
            Err(
                concat3(
                    "File '",
                    path,
                    "' does not appear to be an nginx configuration file. Expected to find nginx directives like 'server', 'location', 'listen', etc.",
                ),
            )
        },
        Err(cause) => {
            let mut out = to_chars("Failed to read config file '");
            push_str(&mut out, path);
            push_str(&mut out, "': ");
            push_str(&mut out, cause.as_str());
            Err(from_chars(out.as_slice()))
        },
    }
}

/// The path of the backup of `config_path` made at `secs` seconds after the
/// epoch: the name of the file, `.bak.` and the seconds in decimal digits, in
/// `backup_dir` or beside the file. A path that names no file is refused.
pub fn backup_nginx_config_to_dir(config_path: &str, backup_dir: Option<&str>, secs: usize) -> (r:
    Result<String, String>)
    ensures
        match r {
            Ok(path) => after_last(config_path@, '/', config_path@.len() as int)
                < config_path@.len() && path@ == backup_path_spec(
                config_path@,
                str_view(backup_dir),
                decimal(secs as nat),
            ),
            Err(e) => after_last(config_path@, '/', config_path@.len() as int)
                >= config_path@.len() && e@ == "Invalid config path"@,
        },
{
    let chars = to_chars(config_path);
    if after_last_exec(chars.as_slice(), '/') >= chars.len() {
        return Err("Invalid config path".to_owned());
    }
    let digits = to_decimal(secs);
    let stamp = from_chars(digits.as_slice());
    Ok(backup_path(config_path, backup_dir, stamp.as_str()))
}

/// The path of the backup of `config_path` made at `secs` seconds after the
/// epoch, beside the file.
pub fn backup_nginx_config(config_path: &str, secs: usize) -> (r: Result<String, String>)
    ensures
        match r {
            Ok(path) => after_last(config_path@, '/', config_path@.len() as int)
                < config_path@.len() && path@ == backup_path_spec(
                config_path@,
                None,
                decimal(secs as nat),
            ),
            Err(e) => after_last(config_path@, '/', config_path@.len() as int)
                >= config_path@.len() && e@ == "Invalid config path"@,
        },
{
    backup_nginx_config_to_dir(config_path, None, secs)
}

} // verus!
