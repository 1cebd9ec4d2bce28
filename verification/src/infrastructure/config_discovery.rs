//! Which documents are configurations, and of which family.

use crate::domain::entities::WebServerType;
use crate::text::{
    contains, ends_with, from_chars, lowercase, str_contains, to_chars, to_lowercase,
};
use vstd::prelude::*;

verus! {

/// The family that a path in lower case tells of, where it tells of one.
pub open spec fn family_of_path(path: Seq<char>) -> Option<WebServerType> {
    if contains(path, "nginx"@) || contains(path, "/etc/nginx/"@) {
        Some(WebServerType::Nginx)
    } else if contains(path, "apache"@) || contains(path, "httpd"@) || contains(
        path,
        "/etc/apache2/"@,
    ) || contains(path, "/etc/httpd/"@) {
        Some(WebServerType::Apache)
    } else {
        None
    }
}

/// The family that a content in lower case tells of; nginx where it tells of
/// none.
pub open spec fn family_of_content(content: Seq<char>) -> WebServerType {
    if contains(content, "server_name"@) && (contains(content, "location"@) || contains(
        content,
        "listen"@,
    )) {
        WebServerType::Nginx
    } else if contains(content, "<virtualhost"@) || contains(content, "<directory"@) || contains(
        content,
        "documentroot"@,
    ) {
        WebServerType::Apache
    } else if contains(content, "caddyfile"@) || (contains(content, "{"@) && contains(
        content,
        "reverse_proxy"@,
    )) {
        WebServerType::Caddy
    } else {
        WebServerType::Nginx
    }
}

/// The family of a document, from its path and its content, both in lower
/// case: the path decides where it tells of a family, else the content.
pub open spec fn family_of(path: Seq<char>, content: Seq<char>) -> WebServerType {
    match family_of_path(path) {
        Some(t) => t,
        None => family_of_content(content),
    }
}

/// How a pattern names the documents to look for.
#[derive(Clone, Copy, Debug, PartialEq, Eq, Structural)]
pub enum GlobKind {
    /// Every file of a directory: the pattern ends in `/*`.
    AllFiles,
    /// Every file of a directory whose name ends in `.conf`: the pattern
    /// ends in `/*.conf`.
    ConfFiles,
    /// One file: the pattern is its path.
    SingleFile,
}

/// How `pattern` names the documents to look for.
pub open spec fn glob_kind(pattern: Seq<char>) -> GlobKind {
    if ends_with(pattern, "/*"@) {
        GlobKind::AllFiles
    } else if ends_with(pattern, "/*.conf"@) {
        GlobKind::ConfFiles
    } else {
        GlobKind::SingleFile
    }
}

/// The directory that `pattern` names, or the file: the pattern without its
/// `/*` or `/*.conf`.
pub open spec fn glob_base(pattern: Seq<char>) -> Seq<char> {
    match glob_kind(pattern) {
        GlobKind::AllFiles => pattern.take(pattern.len() - "/*"@.len()),
        GlobKind::ConfFiles => pattern.take(pattern.len() - "/*.conf"@.len()),
        GlobKind::SingleFile => pattern,
    }
}

/// The discovery of configuration documents in the file system.
#[derive(Debug, Clone, Copy)]
pub struct FileSystemConfigDiscovery;

/// What tells the family of a document.
pub trait ConfigDiscoveryService {
    /// The family that this service gives a document with this path and
    /// this content.
    spec fn family(&self, path: Seq<char>, content: Seq<char>) -> WebServerType;

    /// The family of the document at `path` that holds `content`.
    fn detect_server_type(&self, path: &str, content: &str) -> (t: WebServerType)
        ensures
            t == self.family(path@, content@),
    ;
}

impl FileSystemConfigDiscovery {
    /// The discovery.
    pub fn new() -> FileSystemConfigDiscovery {
        FileSystemConfigDiscovery
    }

    /// The family of a document, from its path and its content, both
    /// already in lower case.
    pub fn classify(&self, path_lower: &str, content_lower: &str) -> (t: WebServerType)
        ensures
            t == family_of(path_lower@, content_lower@),
    {
        if str_contains(path_lower, "nginx") || str_contains(path_lower, "/etc/nginx/") {
            return WebServerType::Nginx;
        }
        if str_contains(path_lower, "apache") || str_contains(path_lower, "httpd") || str_contains(
            path_lower,
            "/etc/apache2/",
        ) || str_contains(path_lower, "/etc/httpd/") {
            return WebServerType::Apache;
        }
        if str_contains(content_lower, "server_name") && (str_contains(content_lower, "location")
            || str_contains(content_lower, "listen")) {
            return WebServerType::Nginx;
        }
        if str_contains(content_lower, "<virtualhost") || str_contains(content_lower, "<directory")
            || str_contains(content_lower, "documentroot") {
            return WebServerType::Apache;
        }
        if str_contains(content_lower, "caddyfile") || (str_contains(content_lower, "{")
            && str_contains(content_lower, "reverse_proxy")) {
            return WebServerType::Caddy;
        }
        WebServerType::Nginx
    }

    /// The family of the document at `path` that holds `content`. Case does
    /// not count: both are put in lower case first.
    pub fn detect_server_type_from_content(&self, path: &str, content: &str) -> (t: WebServerType)
        ensures
            t == family_of(lowercase(path@), lowercase(content@)),
    {
        let path_lower = to_lowercase(path);
        let content_lower = to_lowercase(content);
        self.classify(path_lower.as_str(), content_lower.as_str())
    }

    /// The patterns under which configurations are commonly found.
    pub fn get_common_config_patterns(&self) -> (patterns: Vec<&'static str>)
        ensures
            patterns@.len() == 10,
            patterns@[0]@ == "/etc/nginx/sites-available/*"@,
            patterns@[1]@ == "/etc/nginx/sites-enabled/*"@,
            patterns@[2]@ == "/etc/nginx/conf.d/*.conf"@,
            patterns@[3]@ == "/etc/apache2/sites-available/*"@,
            patterns@[4]@ == "/etc/apache2/sites-enabled/*"@,
            patterns@[5]@ == "/etc/apache2/conf.d/*.conf"@,
            patterns@[6]@ == "/etc/httpd/conf.d/*.conf"@,
            patterns@[7]@ == "/etc/httpd/sites-available/*"@,
            patterns@[8]@ == "/usr/local/etc/nginx/*"@,
            patterns@[9]@ == "/usr/local/etc/apache2*/*"@,
    {
        let mut patterns: Vec<&'static str> = Vec::new();
        patterns.push("/etc/nginx/sites-available/*");
        patterns.push("/etc/nginx/sites-enabled/*");
        patterns.push("/etc/nginx/conf.d/*.conf");
        patterns.push("/etc/apache2/sites-available/*");
        patterns.push("/etc/apache2/sites-enabled/*");
        patterns.push("/etc/apache2/conf.d/*.conf");
        patterns.push("/etc/httpd/conf.d/*.conf");
        patterns.push("/etc/httpd/sites-available/*");
        patterns.push("/usr/local/etc/nginx/*");
        patterns.push("/usr/local/etc/apache2*/*");
        patterns
    }

    /// How `pattern` names the documents to look for, and the directory or
    /// file that it names.
    pub fn expand_glob_pattern(&self, pattern: &str) -> (r: (GlobKind, String))
        ensures
            r.0 == glob_kind(pattern@),
            r.1@ == glob_base(pattern@),
    {
        let chars = to_chars(pattern);
        let all = to_chars("/*");
        let conf = to_chars("/*.conf");
        if crate::text::has_suffix(chars.as_slice(), all.as_slice()) {
            let base = from_chars(&chars.as_slice()[0..chars.len() - all.len()]);
            proof {
                assert(chars@.subrange(0, chars@.len() - all@.len()) == chars@.take(
                    chars@.len() - all@.len(),
                ));
            }
            (GlobKind::AllFiles, base)
        } else if crate::text::has_suffix(chars.as_slice(), conf.as_slice()) {
            let base = from_chars(&chars.as_slice()[0..chars.len() - conf.len()]);
            proof {
                assert(chars@.subrange(0, chars@.len() - conf@.len()) == chars@.take(
                    chars@.len() - conf@.len(),
                ));
            }
            (GlobKind::ConfFiles, base)
        } else {
            (GlobKind::SingleFile, pattern.to_owned())
        }
    }
}

impl ConfigDiscoveryService for FileSystemConfigDiscovery {
    open spec fn family(&self, path: Seq<char>, content: Seq<char>) -> WebServerType {
        family_of(lowercase(path), lowercase(content))
    }

    fn detect_server_type(&self, path: &str, content: &str) -> (t: WebServerType) {
        self.detect_server_type_from_content(path, content)
    }
}

impl Default for FileSystemConfigDiscovery {
    fn default() -> FileSystemConfigDiscovery {
        FileSystemConfigDiscovery::new()
    }
}

} // verus!
