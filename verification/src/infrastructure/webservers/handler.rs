//! The one interface to the families: each operation takes the syntax of the
//! family as a tag and hands the work to the strategy of that family.

use crate::clock::is_backup_stamp;
use crate::domain::entities::{opt_text, ErrorKind, UpdateError, WebServerType};
use crate::infrastructure::webservers::apache::{
    apache_inside, patterns_compile, tag_depth_before, tag_marks, tag_structure_is_valid,
    validate_apache_structure, ApacheHandler,
};
use crate::infrastructure::webservers::backup::backup_path_spec;
use crate::infrastructure::webservers::nginx::{
    nginx_inside, structure_is_valid, validate_nginx_structure, NginxHandler,
};
use crate::infrastructure::webservers::rules::{
    ends_token, first_target, holds_address, inside_at, is_token, lemma_first_target, mutated,
    str_view, Dialect,
};
use crate::infrastructure::webservers::rules_proofs::{
    law_edit_grants_new_address, law_marker_edit_idempotent, lemma_mutated_lines,
};
use crate::text::{is_space, lines};
use vstd::prelude::*;

verus! {

/// For each line of a document, whether a rule on it counts: for nginx
/// every line, for Apache the lines inside a block.
pub open spec fn inside_of(d: Dialect, doc: Seq<char>) -> Seq<bool> {
    match d {
        Dialect::Nginx => nginx_inside(doc),
        Dialect::Apache => apache_inside(doc),
    }
}

/// The document after the edit, and whether a line was rewritten.
pub open spec fn mutation(
    d: Dialect,
    doc: Seq<char>,
    host: Seq<char>,
    prior: Option<Seq<char>>,
    new: Seq<char>,
) -> (Seq<char>, bool) {
    mutated(d, doc, inside_of(d, doc), host, prior, new)
}

/// Some rule line of the document that counts in its family grants access
/// to `address`.
pub open spec fn has_address(d: Dialect, doc: Seq<char>, address: Seq<char>) -> bool {
    holds_address(d, lines(doc), inside_of(d, doc), address)
}

/// The document has the structure of a configuration of the family.
pub open spec fn structure_ok(d: Dialect, doc: Seq<char>) -> bool {
    match d {
        Dialect::Nginx => structure_is_valid(doc),
        Dialect::Apache => tag_structure_is_valid(doc),
    }
}

/// Rewrites at most one rule line of `document` and says whether it did.
///
/// With an old address, the first rule line whose address token is that
/// address gets the new address and keeps its indentation and what follows
/// the address, its comment with it. Without one, the first rule line that
/// bears a marker for `hostname`, in either spelling, gets the new address,
/// keeps its indentation and what stands between the address and the
/// comment, and gets the canonical marker for its comment. For nginx a rule
/// line counts wherever it stands, for Apache where it stands inside a block.
/// Without such a line the document comes back unchanged. No line is ever
/// added or removed. For nginx the call always succeeds; for
/// Apache it succeeds wherever the three patterns that find the blocks
/// compile. The new address must be able to stand as a token: a text with
/// white space, `;` or `#` in it would be written as more than an address.
pub fn mutate(
    d: Dialect,
    document: &str,
    hostname: &str,
    old_address: Option<&str>,
    new_address: &str,
) -> (r: Result<(String, bool), UpdateError>)
    requires
        is_token(new_address@),
    ensures
        d == Dialect::Nginx ==> r is Ok,
        r matches Ok(out) ==> (out.0@, out.1) == mutation(
            d,
            document@,
            hostname@,
            str_view(old_address),
            new_address@,
        ),
        r matches Err(e) ==> e.kind == ErrorKind::PatternRejected,
        patterns_compile() ==> r is Ok,
{
    match d {
        Dialect::Nginx => Ok(
            NginxHandler::new().update_nginx_config(document, hostname, old_address, new_address),
        ),
        Dialect::Apache => ApacheHandler::new().update_apache_config(
            document,
            hostname,
            old_address,
            new_address,
        ),
    }
}

/// Whether some rule line of `document` that counts in its family grants
/// access to `address`. The document is only read.
pub fn contains_address(d: Dialect, document: &str, address: &str) -> (r: Result<
    bool,
    UpdateError,
>)
    ensures
        d == Dialect::Nginx ==> r is Ok,
        r matches Ok(b) ==> b == has_address(d, document@, address@),
        r matches Err(e) ==> e.kind == ErrorKind::PatternRejected,
        patterns_compile() ==> r is Ok,
{
    match d {
        Dialect::Nginx => Ok(NginxHandler::new().check_ip_in_config(document, address)),
        Dialect::Apache => ApacheHandler::new().check_ip_in_config(document, address),
    }
}

/// Whether `document` has the structure of a configuration of the family:
/// what stands in for a syntax check where no checker can be run.
pub fn validate_structure(d: Dialect, document: &str) -> (r: Result<bool, UpdateError>)
    ensures
        d == Dialect::Nginx ==> r is Ok,
        r matches Ok(b) ==> b == structure_ok(d, document@),
        r matches Err(e) ==> e.kind == ErrorKind::PatternRejected,
        patterns_compile() ==> r is Ok,
{
    match d {
        Dialect::Nginx => Ok(validate_nginx_structure(document)),
        Dialect::Apache => validate_apache_structure(document),
    }
}

/// What came of the attempt to run a syntax checker.
#[derive(Clone, Copy, Debug, PartialEq, Eq, Structural)]
pub enum CheckerOutcome {
    /// The checker ran and accepted the document.
    Passed,
    /// The checker ran and refused the document.
    Failed,
    /// No checker could be run.
    Unavailable,
}

/// Whether a document is valid, given what came of the syntax checker: the
/// checker decides where it ran; where none could be run the structure of
/// the document decides. That no checker could be run is never itself a
/// failure.
pub open spec fn valid_config(d: Dialect, checker: CheckerOutcome, doc: Seq<char>) -> bool {
    match checker {
        CheckerOutcome::Passed => true,
        CheckerOutcome::Failed => false,
        CheckerOutcome::Unavailable => structure_ok(d, doc),
    }
}

/// Whether `document` is valid, given what came of the syntax checker.
pub fn validate_config(d: Dialect, checker: CheckerOutcome, document: &str) -> (r: Result<
    bool,
    UpdateError,
>)
    ensures
        d == Dialect::Nginx || checker != CheckerOutcome::Unavailable ==> r is Ok,
        r matches Ok(b) ==> b == valid_config(d, checker, document@),
        r matches Err(e) ==> e.kind == ErrorKind::PatternRejected,
        patterns_compile() ==> r is Ok,
{
    match checker {
        CheckerOutcome::Passed => Ok(true),
        CheckerOutcome::Failed => Ok(false),
        CheckerOutcome::Unavailable => validate_structure(d, document),
    }
}

/// The strategy of one family.
#[derive(Debug, Clone)]
pub enum Handler {
    Nginx(NginxHandler),
    Apache(ApacheHandler),
}

impl Handler {
    /// The strategy for a family. The families without a strategy of their
    /// own are handled as nginx. The backup directory goes to the nginx
    /// strategy; Apache keeps its backups beside the documents.
    pub fn for_type(server_type: WebServerType, backup_dir: Option<String>) -> (h: Handler)
        ensures
            h.dialect_spec() == server_type.dialect_spec(),
            h matches Handler::Nginx(n) ==> n.backup_dir() == backup_dir,
    {
        match server_type {
            WebServerType::Apache => Handler::Apache(ApacheHandler::new()),
            _ => Handler::Nginx(NginxHandler::with_backup_dir(backup_dir)),
        }
    }

    /// The syntax of the family.
    pub open spec fn dialect_spec(self) -> Dialect {
        match self {
            Handler::Nginx(_) => Dialect::Nginx,
            Handler::Apache(_) => Dialect::Apache,
        }
    }

    /// The family of the strategy.
    pub fn server_type(&self) -> (t: WebServerType)
        ensures
            t.dialect_spec() == self.dialect_spec(),
            t == WebServerType::Nginx || t == WebServerType::Apache,
    {
        match self {
            Handler::Nginx(h) => h.server_type(),
            Handler::Apache(h) => h.server_type(),
        }
    }

    /// Rewrites at most one rule line of `content`, as `mutate` does.
    pub fn update_allow_list(
        &self,
        content: &str,
        hostname: &str,
        old_ip: Option<&str>,
        new_ip: &str,
    ) -> (r: Result<(String, bool), UpdateError>)
        requires
            is_token(new_ip@),
        ensures
            self.dialect_spec() == Dialect::Nginx ==> r is Ok,
            r matches Ok(out) ==> (out.0@, out.1) == mutation(
                self.dialect_spec(),
                content@,
                hostname@,
                str_view(old_ip),
                new_ip@,
            ),
            r matches Err(e) ==> e.kind == ErrorKind::PatternRejected,
            patterns_compile() ==> r is Ok,
    {
        match self {
            Handler::Nginx(h) => Ok(h.update_nginx_config(content, hostname, old_ip, new_ip)),
            Handler::Apache(h) => h.update_apache_config(content, hostname, old_ip, new_ip),
        }
    }

    /// The path of a backup of `config_path` made now. There is no path
    /// where the clock cannot be read.
    pub fn backup_file(&self, config_path: &str) -> (r: Option<String>)
        ensures
            r matches Some(p) ==> exists|stamp: Seq<char>|
                is_backup_stamp(stamp) && p@ == backup_path_spec(
                    config_path@,
                    self.backup_dir_spec(),
                    stamp,
                ),
    {
        match self {
            Handler::Nginx(h) => h.backup_file(config_path),
            Handler::Apache(h) => h.backup_file(config_path),
        }
    }

    /// The directory that backups go to, where they do not go beside the
    /// documents.
    pub open spec fn backup_dir_spec(self) -> Option<Seq<char>> {
        match self {
            Handler::Nginx(h) => opt_text(h.backup_dir()),
            Handler::Apache(_) => None,
        }
    }

    /// Whether some rule line of `content` that counts in its family grants
    /// access to `ip`.
    pub fn check_ip_in_config(&self, content: &str, ip: &str) -> (r: Result<bool, UpdateError>)
        ensures
            self.dialect_spec() == Dialect::Nginx ==> r is Ok,
            r matches Ok(b) ==> b == has_address(self.dialect_spec(), content@, ip@),
            r matches Err(e) ==> e.kind == ErrorKind::PatternRejected,
            patterns_compile() ==> r is Ok,
    {
        match self {
            Handler::Nginx(h) => Ok(h.check_ip_in_config(content, ip)),
            Handler::Apache(h) => h.check_ip_in_config(content, ip),
        }
    }
}

/// The nesting depth at the start of a line depends on the lines before it
/// alone.
pub proof fn lemma_tag_depth_local(a: Seq<Seq<char>>, b: Seq<Seq<char>>, k: int)
    requires
        0 <= k <= a.len(),
        k <= b.len(),
        forall|j: int| 0 <= j < k ==> a[j] == b[j],
    ensures
        tag_depth_before(tag_marks(a), k) == tag_depth_before(tag_marks(b), k),
    decreases k,
{
    if k > 0 {
        lemma_tag_depth_local(a, b, k - 1);
    }
}

/// Applying the edit for a hostname a second time, with the address that the
/// first edit wrote, returns the document that the first edit returned.
///
/// The law is stated for an address that can stand as a token, as the edit
/// asks for, and a hostname that is not empty and does not end in white
/// space.
pub proof fn law_mutate_idempotent(d: Dialect, doc: Seq<char>, host: Seq<char>, new: Seq<char>)
    requires
        is_token(new),
        host.len() > 0,
        !is_space(host.last()),
    ensures
        mutation(d, mutation(d, doc, host, None, new).0, host, None, new).0 == mutation(
            d,
            doc,
            host,
            None,
            new,
        ).0,
{
    assert(!new.contains('\n')) by {
        if new.contains('\n') {
            let i = choose|i: int| 0 <= i < new.len() && new[i] == '\n';
            assert(ends_token(new[i]));
        }
    }
    let once = mutation(d, doc, host, None, new).0;
    lemma_inside_kept(d, doc, host, None, new);
    law_marker_edit_idempotent(d, doc, inside_of(d, doc), inside_of(d, once), host, new);
}

/// For each line up to the one that an edit rewrites, the line counts in the
/// edited document where it did in the document.
pub proof fn lemma_inside_kept(
    d: Dialect,
    doc: Seq<char>,
    host: Seq<char>,
    prior: Option<Seq<char>>,
    new: Seq<char>,
)
    requires
        !new.contains('\n'),
    ensures
        forall|j: int|
            0 <= j < lines(doc).len() && j <= first_target(
                d,
                lines(doc),
                inside_of(d, doc),
                host,
                prior,
                0,
            ) ==> inside_at(inside_of(d, mutation(d, doc, host, prior, new).0), j) == inside_at(
                inside_of(d, doc),
                j,
            ),
{
    let ls = lines(doc);
    let inside = inside_of(d, doc);
    let once = mutation(d, doc, host, prior, new).0;
    let after = lines(once);
    let k = first_target(d, ls, inside, host, prior, 0);
    lemma_first_target(d, ls, inside, host, prior, 0);
    lemma_mutated_lines(d, doc, inside, host, prior, new);
    assert forall|j: int| 0 <= j < ls.len() && j <= k implies inside_at(inside_of(d, once), j)
        == inside_at(inside, j) by {
        assert forall|i: int| 0 <= i < j implies ls[i] == after[i] by {}
        match d {
            Dialect::Nginx => {},
            Dialect::Apache => {
                lemma_tag_depth_local(ls, after, j);
            },
        }
    }
}

/// After an edit the document grants access to the new address, where the
/// new address can stand as a token: what `mutate` wrote, `contains_address`
/// finds.
pub proof fn law_edit_installs_new_address(
    d: Dialect,
    doc: Seq<char>,
    host: Seq<char>,
    prior: Option<Seq<char>>,
    new: Seq<char>,
)
    requires
        is_token(new),
        mutation(d, doc, host, prior, new).1,
    ensures
        has_address(d, mutation(d, doc, host, prior, new).0, new),
{
    let inside = inside_of(d, doc);
    let once = mutation(d, doc, host, prior, new).0;
    assert(!new.contains('\n')) by {
        if new.contains('\n') {
            let i = choose|i: int| 0 <= i < new.len() && new[i] == '\n';
            assert(ends_token(new[i]));
        }
    }
    lemma_first_target(d, lines(doc), inside, host, prior, 0);
    lemma_inside_kept(d, doc, host, prior, new);
    law_edit_grants_new_address(d, doc, inside, inside_of(d, once), host, prior, new);
}

} // verus!
