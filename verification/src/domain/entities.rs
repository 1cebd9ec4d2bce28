//! Address records, configuration targets, and the families of web server.

use crate::clock::{is_record_time, record_time};
use crate::infrastructure::webservers::rules::Dialect;
use crate::text::{concat, lowercase, str_eq, to_lowercase};
use vstd::prelude::*;

verus! {

/// The text that an optional string holds.
pub open spec fn opt_text(o: Option<String>) -> Option<Seq<char>> {
    match o {
        Some(s) => Some(s@),
        None => None,
    }
}

/// A copy of an optional string.
pub fn copy_opt(o: &Option<String>) -> (c: Option<String>)
    ensures
        c == *o,
{
    match o {
        Some(s) => Some(s.clone()),
        None => None,
    }
}

/// The families of web server that a configuration can belong to.
#[derive(Clone, Copy, Debug, PartialEq, Eq, Structural)]
pub enum WebServerType {
    Nginx,
    Apache,
    Caddy,
    Traefik,
}

impl WebServerType {
    /// The name of the family, in lower case.
    pub open spec fn name_spec(self) -> Seq<char> {
        match self {
            WebServerType::Nginx => "nginx"@,
            WebServerType::Apache => "apache"@,
            WebServerType::Caddy => "caddy"@,
            WebServerType::Traefik => "traefik"@,
        }
    }

    /// The name of the family, in lower case.
    pub fn name(&self) -> (s: String)
        ensures
            s@ == self.name_spec(),
    {
        match self {
            WebServerType::Nginx => "nginx".to_owned(),
            WebServerType::Apache => "apache".to_owned(),
            WebServerType::Caddy => "caddy".to_owned(),
            WebServerType::Traefik => "traefik".to_owned(),
        }
    }

    /// The family that a name in lower case stands for.
    pub open spec fn named(lower: Seq<char>) -> Option<WebServerType> {
        if lower == "nginx"@ {
            Some(WebServerType::Nginx)
        } else if lower == "apache"@ || lower == "apache2"@ || lower == "httpd"@ {
            Some(WebServerType::Apache)
        } else if lower == "caddy"@ {
            Some(WebServerType::Caddy)
        } else if lower == "traefik"@ {
            Some(WebServerType::Traefik)
        } else {
            None
        }
    }

    /// The family that a name in lower case stands for: `nginx`; `apache`,
    /// `apache2` or `httpd`; `caddy`; `traefik`.
    pub fn from_lowercase(lower: &str) -> (r: Option<WebServerType>)
        ensures
            r == Self::named(lower@),
    {
        if str_eq(lower, "nginx") {
            Some(WebServerType::Nginx)
        } else if str_eq(lower, "apache") || str_eq(lower, "apache2") || str_eq(lower, "httpd") {
            Some(WebServerType::Apache)
        } else if str_eq(lower, "caddy") {
            Some(WebServerType::Caddy)
        } else if str_eq(lower, "traefik") {
            Some(WebServerType::Traefik)
        } else {
            None
        }
    }

    /// The family that a name stands for, whatever its case. An unknown name
    /// is handed back in the error.
    pub fn parse(s: &str) -> (r: Result<WebServerType, DomainError>)
        ensures
            match Self::named(lowercase(s@)) {
                Some(t) => r == Ok::<WebServerType, DomainError>(t),
                None => r matches Err(DomainError::InvalidWebServerType(name)) && name@ == s@,
            },
    {
        let lower = to_lowercase(s);
        match Self::from_lowercase(lower.as_str()) {
            Some(t) => Ok(t),
            None => Err(DomainError::InvalidWebServerType(s.to_owned())),
        }
    }

    /// The syntax in which the family writes its access rules. The families
    /// without a syntax of their own are read as nginx.
    pub open spec fn dialect_spec(self) -> Dialect {
        match self {
            WebServerType::Apache => Dialect::Apache,
            _ => Dialect::Nginx,
        }
    }

    /// The syntax in which the family writes its access rules.
    pub fn dialect(&self) -> (d: Dialect)
        ensures
            d == self.dialect_spec(),
    {
        match self {
            WebServerType::Apache => Dialect::Apache,
            _ => Dialect::Nginx,
        }
    }
}

impl std::str::FromStr for WebServerType {
    type Err = DomainError;

    /// The family that a name stands for, whatever its case, as `parse`
    /// gives it.
    fn from_str(s: &str) -> (r: Result<Self, Self::Err>)
        ensures
            match WebServerType::named(lowercase(s@)) {
                Some(t) => r == Ok::<WebServerType, DomainError>(t),
                None => r matches Err(DomainError::InvalidWebServerType(name)) && name@ == s@,
            },
    {
        WebServerType::parse(s)
    }
}

/// What can be wrong with a value of the domain.
#[derive(Debug, Clone)]
pub enum DomainError {
    InvalidIpAddress(String),
    InvalidHostname(String),
    InvalidWebServerType(String),
    ConfigurationNotFound(String),
    IpEntryNotFound(String),
}

impl DomainError {
    /// The message of the error.
    pub open spec fn message_spec(self) -> Seq<char> {
        match self {
            DomainError::InvalidIpAddress(ip) => "Invalid IP address: "@ + ip@,
            DomainError::InvalidHostname(hostname) => "Invalid hostname: "@ + hostname@,
            DomainError::InvalidWebServerType(server_type) => "Unsupported web server type: "@
                + server_type@,
            DomainError::ConfigurationNotFound(path) => "Configuration not found: "@ + path@,
            DomainError::IpEntryNotFound(hostname) => "IP entry not found for hostname: "@
                + hostname@,
        }
    }

    /// The message of the error.
    pub fn message(&self) -> (s: String)
        ensures
            s@ == self.message_spec(),
    {
        match self {
            DomainError::InvalidIpAddress(ip) => concat("Invalid IP address: ", ip.as_str()),
            DomainError::InvalidHostname(hostname) => concat(
                "Invalid hostname: ",
                hostname.as_str(),
            ),
            DomainError::InvalidWebServerType(server_type) => concat(
                "Unsupported web server type: ",
                server_type.as_str(),
            ),
            DomainError::ConfigurationNotFound(path) => concat(
                "Configuration not found: ",
                path.as_str(),
            ),
            DomainError::IpEntryNotFound(hostname) => concat(
                "IP entry not found for hostname: ",
                hostname.as_str(),
            ),
        }
    }
}

/// The address last seen for a hostname.
#[derive(Debug, Clone)]
pub struct IpEntry {
    /// The address.
    pub ip: String,
    /// The hostname.
    pub hostname: String,
    /// A remark on the record.
    pub comment: Option<String>,
    /// When the record was made.
    pub created_at: String,
    /// When the record was last changed.
    pub updated_at: String,
}

impl IpEntry {
    /// The record of `hostname` made at the time `now`.
    pub fn new_at(ip: String, hostname: String, comment: Option<String>, now: String) -> (entry:
        IpEntry)
        ensures
            entry.ip == ip,
            entry.hostname == hostname,
            entry.comment == comment,
            entry.created_at == now,
            entry.updated_at == now,
    {
        let updated_at = now.clone();
        IpEntry { ip, hostname, comment, created_at: now, updated_at }
    }

    /// The record of `hostname` made now, by the system clock. There is none
    /// where the clock cannot be read.
    pub fn new(ip: String, hostname: String, comment: Option<String>) -> (r: Option<IpEntry>)
        ensures
            r matches Some(entry) ==> entry.ip == ip && entry.hostname == hostname
                && entry.comment == comment && entry.created_at == entry.updated_at
                && is_record_time(entry.created_at@),
    {
        match record_time() {
            Some(now) => Some(Self::new_at(ip, hostname, comment, now)),
            None => None,
        }
    }

    /// The address changes, at the time `now`; the rest of the record
    /// stays.
    pub fn update_ip_at(&mut self, new_ip: String, now: String)
        ensures
            *final(self) == (IpEntry { ip: new_ip, updated_at: now, ..*old(self) }),
    {
        self.ip = new_ip;
        self.updated_at = now;
    }

    /// The address changes now, by the system clock; nothing else does but
    /// the time of the last change. Where the clock cannot be read the
    /// record stays as it is, and the answer is `false`.
    pub fn update_ip(&mut self, new_ip: String) -> (done: bool)
        ensures
            done ==> *final(self) == (IpEntry {
                ip: new_ip,
                updated_at: final(self).updated_at,
                ..*old(self)
            }) && is_record_time(final(self).updated_at@),
            !done ==> *final(self) == *old(self),
    {
        match record_time() {
            Some(now) => {
                self.update_ip_at(new_ip, now);
                true
            },
            None => false,
        }
    }

    /// The remark changes, at the time `now`; the rest of the record stays.
    pub fn update_comment_at(&mut self, comment: Option<String>, now: String)
        ensures
            *final(self) == (IpEntry { comment, updated_at: now, ..*old(self) }),
    {
        self.comment = comment;
        self.updated_at = now;
    }

    /// The remark changes now, by the system clock; nothing else does but
    /// the time of the last change. Where the clock cannot be read the
    /// record stays as it is, and the answer is `false`.
    pub fn update_comment(&mut self, comment: Option<String>) -> (done: bool)
        ensures
            done ==> *final(self) == (IpEntry {
                comment,
                updated_at: final(self).updated_at,
                ..*old(self)
            }) && is_record_time(final(self).updated_at@),
            !done ==> *final(self) == *old(self),
    {
        match record_time() {
            Some(now) => {
                self.update_comment_at(comment, now);
                true
            },
            None => false,
        }
    }
}

/// One configuration document and the family it belongs to.
#[derive(Debug, Clone)]
pub struct WebServerConfig {
    /// Where the document is.
    pub path: String,
    /// The family of the document.
    pub server_type: WebServerType,
    /// The directory for its backups, where they do not go beside it.
    pub backup_path: Option<String>,
}

/// A configuration target as a mathematical value.
pub struct WebServerConfigView {
    pub path: Seq<char>,
    pub server_type: WebServerType,
    pub backup_path: Option<Seq<char>>,
}

impl View for WebServerConfig {
    type V = WebServerConfigView;

    open spec fn view(&self) -> WebServerConfigView {
        WebServerConfigView {
            path: self.path@,
            server_type: self.server_type,
            backup_path: opt_text(self.backup_path),
        }
    }
}

impl WebServerConfig {
    /// The target at `path`, whose backups go beside it.
    pub fn new(path: String, server_type: WebServerType) -> (c: WebServerConfig)
        ensures
            c == (WebServerConfig { path, server_type, backup_path: None }),
    {
        WebServerConfig { path, server_type, backup_path: None }
    }

    /// The same target, with its backups sent to `backup_path`.
    pub fn with_backup(self, backup_path: String) -> (c: WebServerConfig)
        ensures
            c == (WebServerConfig { backup_path: Some(backup_path), ..self }),
    {
        let mut c = self;
        c.backup_path = Some(backup_path);
        c
    }

    /// A copy of the target.
    pub fn duplicate(&self) -> (c: WebServerConfig)
        ensures
            c == *self,
    {
        WebServerConfig {
            path: self.path.clone(),
            server_type: self.server_type,
            backup_path: copy_opt(&self.backup_path),
        }
    }
}

/// The views of a sequence of targets.
pub open spec fn target_views(targets: Seq<WebServerConfig>) -> Seq<WebServerConfigView> {
    Seq::new(targets.len(), |i: int| targets[i]@)
}

/// What a run did to one target.
#[derive(Debug, Clone)]
pub enum UpdateResult {
    /// A rule was rewritten.
    Updated { hostname: String, old_ip: Option<String>, new_ip: String, backup_path: String },
    /// The target was left as it is.
    NoChange { ip: String },
}

/// An outcome as a mathematical value.
pub enum UpdateResultView {
    Updated {
        hostname: Seq<char>,
        old_ip: Option<Seq<char>>,
        new_ip: Seq<char>,
        backup_path: Seq<char>,
    },
    NoChange { ip: Seq<char> },
}

impl View for UpdateResult {
    type V = UpdateResultView;

    open spec fn view(&self) -> UpdateResultView {
        match *self {
            UpdateResult::Updated { hostname, old_ip, new_ip, backup_path } => {
                UpdateResultView::Updated {
                    hostname: hostname@,
                    old_ip: opt_text(old_ip),
                    new_ip: new_ip@,
                    backup_path: backup_path@,
                }
            },
            UpdateResult::NoChange { ip } => UpdateResultView::NoChange { ip: ip@ },
        }
    }
}

/// The views of a sequence of outcomes.
pub open spec fn result_views(results: Seq<UpdateResult>) -> Seq<UpdateResultView> {
    Seq::new(results.len(), |i: int| results[i]@)
}

/// The kinds of failure of a run.
#[derive(Clone, Copy, Debug, PartialEq, Eq, Structural)]
pub enum ErrorKind {
    /// The hostname gave no address.
    ResolutionFailed,
    /// No source told the public address.
    AddressSourceExhausted,
    /// The document did not pass validation, before or after the edit.
    InvalidConfig,
    /// The document could not be read, written or backed up.
    MutationIoError,
    /// The server did not reload, and the policy makes that fatal.
    ReloadFailed,
    /// The address record could not be read or written.
    StateIoError,
    /// The change of address could not be announced.
    NotificationFailed,
    /// A pattern that tells the lines of a document apart was refused.
    PatternRejected,
    /// An answer came that does not belong to the step that was asked for.
    UnexpectedEvent,
}

/// Why a run on one target failed.
#[derive(Debug, Clone)]
pub struct UpdateError {
    pub kind: ErrorKind,
    pub message: String,
}

/// A failure as a mathematical value.
pub struct UpdateErrorView {
    pub kind: ErrorKind,
    pub message: Seq<char>,
}

impl View for UpdateError {
    type V = UpdateErrorView;

    open spec fn view(&self) -> UpdateErrorView {
        UpdateErrorView { kind: self.kind, message: self.message@ }
    }
}

impl UpdateErrorView {
    /// The document did not pass validation before any edit.
    pub open spec fn invalid_config() -> UpdateErrorView {
        UpdateErrorView {
            kind: ErrorKind::InvalidConfig,
            message: "Invalid web server configuration"@,
        }
    }

    /// The document did not pass validation after the edit.
    pub open spec fn config_test_failed() -> UpdateErrorView {
        UpdateErrorView {
            kind: ErrorKind::InvalidConfig,
            message: "Configuration test failed after update"@,
        }
    }

    /// The hostname gave no address.
    pub open spec fn resolution_failed(hostname: Seq<char>) -> UpdateErrorView {
        UpdateErrorView {
            kind: ErrorKind::ResolutionFailed,
            message: "Could not resolve hostname: "@ + hostname,
        }
    }

    /// The address that the hostname gave cannot stand in a rule.
    pub open spec fn invalid_address(address: Seq<char>) -> UpdateErrorView {
        UpdateErrorView {
            kind: ErrorKind::ResolutionFailed,
            message: "Invalid IP address: "@ + address,
        }
    }

    /// The document of the target is not there.
    pub open spec fn not_found(path: Seq<char>) -> UpdateErrorView {
        UpdateErrorView {
            kind: ErrorKind::MutationIoError,
            message: "Configuration not found: "@ + path,
        }
    }

    /// The address record could not be read.
    pub open spec fn load_failed(detail: Seq<char>) -> UpdateErrorView {
        UpdateErrorView {
            kind: ErrorKind::StateIoError,
            message: "Failed to load stored IP: "@ + detail,
        }
    }

    /// An answer came that does not belong to the step that was asked for.
    pub open spec fn unexpected() -> UpdateErrorView {
        UpdateErrorView {
            kind: ErrorKind::UnexpectedEvent,
            message: "Unexpected answer to the step that was asked for"@,
        }
    }

    /// A failure of the given kind that the outside reported in `detail`.
    pub open spec fn reported(kind: ErrorKind, detail: Seq<char>) -> UpdateErrorView {
        UpdateErrorView { kind, message: detail }
    }
}

impl UpdateError {
    /// The document did not pass validation before any edit.
    pub fn invalid_config() -> (e: UpdateError)
        ensures
            e@ == UpdateErrorView::invalid_config(),
    {
        UpdateError {
            kind: ErrorKind::InvalidConfig,
            message: "Invalid web server configuration".to_owned(),
        }
    }

    /// The document did not pass validation after the edit.
    pub fn config_test_failed() -> (e: UpdateError)
        ensures
            e@ == UpdateErrorView::config_test_failed(),
    {
        UpdateError {
            kind: ErrorKind::InvalidConfig,
            message: "Configuration test failed after update".to_owned(),
        }
    }

    /// The hostname gave no address.
    pub fn resolution_failed(hostname: &str) -> (e: UpdateError)
        ensures
            e@ == UpdateErrorView::resolution_failed(hostname@),
    {
        UpdateError {
            kind: ErrorKind::ResolutionFailed,
            message: concat("Could not resolve hostname: ", hostname),
        }
    }

    /// The address that the hostname gave cannot stand in a rule.
    pub fn invalid_address(address: &str) -> (e: UpdateError)
        ensures
            e@ == UpdateErrorView::invalid_address(address@),
    {
        UpdateError {
            kind: ErrorKind::ResolutionFailed,
            message: concat("Invalid IP address: ", address),
        }
    }

    /// The document of the target is not there.
    pub fn not_found(path: &str) -> (e: UpdateError)
        ensures
            e@ == UpdateErrorView::not_found(path@),
    {
        UpdateError {
            kind: ErrorKind::MutationIoError,
            message: concat("Configuration not found: ", path),
        }
    }

    /// The address record could not be read.
    pub fn load_failed(detail: &str) -> (e: UpdateError)
        ensures
            e@ == UpdateErrorView::load_failed(detail@),
    {
        UpdateError {
            kind: ErrorKind::StateIoError,
            message: concat("Failed to load stored IP: ", detail),
        }
    }

    /// An answer came that does not belong to the step that was asked for.
    pub fn unexpected() -> (e: UpdateError)
        ensures
            e@ == UpdateErrorView::unexpected(),
    {
        UpdateError {
            kind: ErrorKind::UnexpectedEvent,
            message: "Unexpected answer to the step that was asked for".to_owned(),
        }
    }

    /// A failure of the given kind that the outside reported in `detail`.
    pub fn reported(kind: ErrorKind, detail: String) -> (e: UpdateError)
        ensures
            e@ == UpdateErrorView::reported(kind, detail@),
    {
        UpdateError { kind, message: detail }
    }
}

/// Whether one configuration passed validation.
#[derive(Debug, Clone)]
pub struct ValidationResult {
    pub config_path: String,
    pub valid: bool,
    pub error: Option<String>,
}

impl ValidationResult {
    /// The entry for a configuration whose validation ended with `outcome`:
    /// a verdict, or the message of what went wrong.
    pub fn from_outcome(config_path: String, outcome: Result<bool, String>) -> (r:
        ValidationResult)
        ensures
            r.config_path == config_path,
            match outcome {
                Ok(valid) => r.valid == valid && r.error is None,
                Err(message) => !r.valid && r.error == Some(message),
            },
    {
        match outcome {
            Ok(valid) => ValidationResult { config_path, valid, error: None },
            Err(message) => ValidationResult { config_path, valid: false, error: Some(message) },
        }
    }
}

} // verus!
