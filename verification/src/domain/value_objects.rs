//! Values that are checked once, where they are made.

use crate::text::{concat, decimal, from_chars, push_all, push_str, to_chars, to_decimal};
use vstd::prelude::*;

verus! {

/// Whether `char::is_alphanumeric` holds of a character: whether it carries
/// the Unicode property `Alphabetic` or is a number of the categories `Nd`,
/// `Nl` or `No`.
pub uninterp spec fn alphanumeric(c: char) -> bool;

/// Whether `c` is alphanumeric, by `char::is_alphanumeric`. The result is
/// known by name only.
#[verifier::external_body]
pub(crate) fn is_alphanumeric(c: char) -> (b: bool)
    ensures
        b == alphanumeric(c),
{
    c.is_alphanumeric()
}

/// A character that may stand in a hostname.
pub open spec fn hostname_char(c: char) -> bool {
    alphanumeric(c) || c == '.' || c == '-' || c == '_'
}

/// Whether `c` may stand in a hostname, given whether it is alphanumeric:
/// the alphanumeric characters may, and `.`, `-` and `_`.
pub fn accepts_char(c: char, is_alphanumeric: bool) -> (b: bool)
    ensures
        b == (is_alphanumeric || c == '.' || c == '-' || c == '_'),
{
    is_alphanumeric || c == '.' || c == '-' || c == '_'
}

/// The length of a text in bytes of UTF-8, as `str::len` gives it.
pub open spec fn byte_len(s: Seq<char>) -> usize {
    vstd::utf8::encode_utf8(s).len() as usize
}

/// A text that is accepted as a hostname: not empty, at most 253 bytes in
/// UTF-8, made of alphanumeric characters, `.`, `-` and `_`.
pub open spec fn valid_hostname(s: Seq<char>) -> bool {
    &&& s.len() > 0
    &&& byte_len(s) <= 253
    &&& forall|i: int| 0 <= i < s.len() ==> hostname_char(#[trigger] s[i])
}

/// Why a text is not accepted as a hostname.
#[derive(Debug, Clone)]
pub enum HostnameError {
    /// The text is empty.
    Empty,
    /// The text is longer than 253 bytes; the length is given.
    TooLong(usize),
    /// The text holds a character that no hostname holds; the text is given.
    InvalidCharacters(String),
}

impl HostnameError {
    /// The message of the error.
    pub open spec fn message_spec(self) -> Seq<char> {
        match self {
            HostnameError::Empty => "Hostname cannot be empty"@,
            HostnameError::TooLong(len) => "Hostname too long: "@ + decimal(len as nat)
                + " characters (max 253)"@,
            HostnameError::InvalidCharacters(hostname) => "Invalid characters in hostname: "@
                + hostname@,
        }
    }

    /// The message of the error.
    pub fn message(&self) -> (s: String)
        ensures
            s@ == self.message_spec(),
    {
        let mut out: Vec<char> = Vec::new();
        match self {
            HostnameError::Empty => {
                push_str(&mut out, "Hostname cannot be empty");
            },
            HostnameError::TooLong(len) => {
                push_str(&mut out, "Hostname too long: ");
                let digits = to_decimal(*len);
                push_all(&mut out, digits.as_slice());
                push_str(&mut out, " characters (max 253)");
            },
            HostnameError::InvalidCharacters(hostname) => {
                push_str(&mut out, "Invalid characters in hostname: ");
                push_str(&mut out, hostname.as_str());
            },
        }
        from_chars(out.as_slice())
    }
}

/// A hostname that has passed the check of `Hostname::new`.
#[derive(Debug, Clone)]
pub struct Hostname {
    value: String,
}

impl View for Hostname {
    type V = Seq<char>;

    closed spec fn view(&self) -> Seq<char> {
        self.value@
    }
}

impl Hostname {
    /// The hostname `value`, where it is accepted.
    ///
    /// An empty text is refused first, then one that is too long, then one
    /// with a character that no hostname holds.
    pub fn new(value: String) -> (r: Result<Hostname, HostnameError>)
        ensures
            r is Ok <==> valid_hostname(value@),
            r matches Ok(h) ==> h@ == value@,
            value@.len() == 0 ==> r matches Err(HostnameError::Empty),
            value@.len() > 0 && byte_len(value@) > 253 ==> r == Err::<Hostname, HostnameError>(
                HostnameError::TooLong(byte_len(value@)),
            ),
            value@.len() > 0 && byte_len(value@) <= 253 && !valid_hostname(value@) ==> r == Err::<
                Hostname,
                HostnameError,
            >(HostnameError::InvalidCharacters(value)),
    {
        if value.as_str().is_empty() {
            return Err(HostnameError::Empty);
        }
        let bytes = value.as_str().len();
        if bytes > 253 {
            return Err(HostnameError::TooLong(bytes));
        }
        let chars = to_chars(value.as_str());
        let mut i: usize = 0;
        while i < chars.len()
            invariant
                i <= chars.len(),
                chars@ == value@,
                value@.len() > 0,
                byte_len(value@) <= 253,
                forall|j: int| 0 <= j < i ==> hostname_char(#[trigger] chars@[j]),
            decreases chars.len() - i,
        {
            let c = chars[i];
            if !accepts_char(c, is_alphanumeric(c)) {
                return Err(HostnameError::InvalidCharacters(value));
            }
            i += 1;
        }
        Ok(Hostname { value })
    }

    /// The text of the hostname.
    pub fn as_str(&self) -> (s: &str)
        ensures
            s@ == self@,
    {
        self.value.as_str()
    }

    /// The text of the hostname, owned.
    pub fn into_string(self) -> (s: String)
        ensures
            s@ == self@,
    {
        self.value
    }
}

/// How many backups are kept, and for how long.
#[derive(Debug, Clone, Copy, PartialEq, Eq, Structural)]
pub struct BackupRetention {
    pub max_backups: u16,
    pub max_age_days: u16,
}

/// Why a retention policy is not accepted.
#[derive(Debug, Clone, Copy, PartialEq, Eq, Structural)]
pub enum BackupRetentionError {
    /// No backup would be kept.
    InvalidBackupCount,
    /// No backup would be kept for a day.
    InvalidAgeDays,
}

impl BackupRetentionError {
    /// The message of the error.
    pub open spec fn message_spec(self) -> Seq<char> {
        match self {
            BackupRetentionError::InvalidBackupCount => "Backup count must be greater than 0"@,
            BackupRetentionError::InvalidAgeDays => "Age in days must be greater than 0"@,
        }
    }

    /// The message of the error.
    pub fn message(&self) -> (s: String)
        ensures
            s@ == self.message_spec(),
    {
        match self {
            BackupRetentionError::InvalidBackupCount => "Backup count must be greater than 0".to_owned(),
            BackupRetentionError::InvalidAgeDays => "Age in days must be greater than 0".to_owned(),
        }
    }
}

impl BackupRetention {
    /// The policy that keeps `max_backups` backups for `max_age_days` days.
    /// A count of zero is refused first, then an age of zero.
    pub fn new(max_backups: u16, max_age_days: u16) -> (r: Result<
        BackupRetention,
        BackupRetentionError,
    >)
        ensures
            r == if max_backups == 0 {
                Err::<BackupRetention, BackupRetentionError>(
                    BackupRetentionError::InvalidBackupCount,
                )
            } else if max_age_days == 0 {
                Err(BackupRetentionError::InvalidAgeDays)
            } else {
                Ok(BackupRetention { max_backups, max_age_days })
            },
    {
        if max_backups == 0 {
            return Err(BackupRetentionError::InvalidBackupCount);
        }
        if max_age_days == 0 {
            return Err(BackupRetentionError::InvalidAgeDays);
        }
        Ok(BackupRetention { max_backups, max_age_days })
    }
}

impl Default for BackupRetention {
    /// Ten backups, kept for thirty days.
    fn default() -> (r: BackupRetention)
        ensures
            r == (BackupRetention { max_backups: 10, max_age_days: 30 }),
    {
        BackupRetention { max_backups: 10, max_age_days: 30 }
    }
}

/// What is found at a path.
#[derive(Clone, Copy, Debug, PartialEq, Eq, Structural)]
pub enum PathKind {
    /// Nothing.
    Missing,
    /// A regular file.
    File,
    /// A directory.
    Directory,
    /// Something that is neither a file nor a directory.
    Other,
}

/// Why a path is not accepted as the path of a configuration.
#[derive(Debug, Clone)]
pub enum ConfigPathError {
    /// Nothing is at the path.
    NotFound(String),
    /// What is at the path is no regular file.
    NotAFile(String),
    /// The path may not be read.
    PermissionDenied(String),
}

impl ConfigPathError {
    /// The message of the error.
    pub open spec fn message_spec(self) -> Seq<char> {
        match self {
            ConfigPathError::NotFound(path) => "Configuration file not found: "@ + path@,
            ConfigPathError::NotAFile(path) => "Path is not a regular file: "@ + path@,
            ConfigPathError::PermissionDenied(path) => "Permission denied accessing: "@ + path@,
        }
    }

    /// The message of the error.
    pub fn message(&self) -> (s: String)
        ensures
            s@ == self.message_spec(),
    {
        match self {
            ConfigPathError::NotFound(path) => concat(
                "Configuration file not found: ",
                path.as_str(),
            ),
            ConfigPathError::NotAFile(path) => concat("Path is not a regular file: ", path.as_str()),
            ConfigPathError::PermissionDenied(path) => concat(
                "Permission denied accessing: ",
                path.as_str(),
            ),
        }
    }
}

/// The path of a configuration: a path at which a regular file was found.
#[derive(Debug, Clone)]
pub struct ConfigPath {
    path: String,
}

impl View for ConfigPath {
    type V = Seq<char>;

    closed spec fn view(&self) -> Seq<char> {
        self.path@
    }
}

impl ConfigPath {
    /// The path `path`, given what was found at it: accepted where a
    /// regular file was found, refused as not found where nothing was, and as
    /// no file otherwise.
    pub fn new(path: String, found: PathKind) -> (r: Result<ConfigPath, ConfigPathError>)
        ensures
            match found {
                PathKind::File => r matches Ok(p) && p@ == path@,
                PathKind::Missing => r == Err::<ConfigPath, ConfigPathError>(
                    ConfigPathError::NotFound(path),
                ),
                _ => r == Err::<ConfigPath, ConfigPathError>(ConfigPathError::NotAFile(path)),
            },
    {
        match found {
            PathKind::File => Ok(ConfigPath { path }),
            PathKind::Missing => Err(ConfigPathError::NotFound(path)),
            _ => Err(ConfigPathError::NotAFile(path)),
        }
    }

    /// The path.
    pub fn as_path(&self) -> (s: &str)
        ensures
            s@ == self@,
    {
        self.path.as_str()
    }

    /// The path, owned.
    pub fn into_path_buf(self) -> (s: String)
        ensures
            s@ == self@,
    {
        self.path
    }
}

} // verus!
