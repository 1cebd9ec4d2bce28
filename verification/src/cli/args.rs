//! The arguments of the command line, and what they select.

use crate::config::nginx::{is_nginx_config_content, looks_like_nginx};
use crate::domain::value_objects::PathKind;
use crate::text::{
    concat, ends_with, find_char, find_char_exec, from_chars, has_prefix, has_suffix, push_str,
    same_text, starts_with, to_chars,
};
use vstd::prelude::*;

verus! {

/// The arguments of the command line.
#[derive(Debug, Clone)]
pub struct Args {
    /// The host whose address is followed.
    pub host: String,
    /// The path of one configuration.
    pub nginx_config: Option<String>,
    /// A directory of configurations.
    pub config_dir: Option<String>,
    /// The pattern that the names of the configurations in the directory
    /// match.
    pub pattern: String,
    /// The directory for backups.
    pub backup_dir: Option<String>,
    /// The server is not reloaded after an edit.
    pub no_reload: bool,
    /// More is told of what is done.
    pub verbose: bool,
}

/// The name matches the pattern. The pattern `*` matches every name; a
/// pattern with one `*` matches the names that begin with what stands before
/// the `*` and end with what stands after it; any other pattern matches the
/// name that is equal to it.
pub open spec fn pattern_matches(filename: Seq<char>, pattern: Seq<char>) -> bool {
    let star = find_char(pattern, '*', 0);
    if pattern == seq!['*'] {
        true
    } else if 0 <= star < pattern.len() && find_char(pattern, '*', star + 1) >= pattern.len() {
        starts_with(filename, pattern.take(star)) && ends_with(filename, pattern.skip(star + 1))
    } else {
        filename == pattern
    }
}

/// The path that is used where the command line names none.
pub open spec fn default_config_path() -> Seq<char> {
    "test_nginx_no_comment.conf"@
}

/// The directory for backups where the command line names none.
pub open spec fn default_backup_dir() -> Seq<char> {
    "backups"@
}

impl Args {
    /// Whether `filename` matches `pattern`.
    pub fn matches_pattern(&self, filename: &str, pattern: &str) -> (b: bool)
        ensures
            b == pattern_matches(filename@, pattern@),
    {
        let name = to_chars(filename);
        let pat = to_chars(pattern);
        if pat.len() == 1 && pat[0] == '*' {
            proof {
                assert(pat@ =~= seq!['*']);
            }
            return true;
        }
        let star = find_char_exec(pat.as_slice(), '*', 0);
        if star < pat.len() && find_char_exec(pat.as_slice(), '*', star + 1) >= pat.len() {
            let prefix = &pat.as_slice()[0..star];
            let suffix = &pat.as_slice()[star + 1..pat.len()];
            proof {
                assert(pat@.subrange(0, star as int) == pat@.take(star as int));
                assert(pat@.subrange(star + 1, pat@.len() as int) == pat@.skip(star + 1));
            }
            has_prefix(name.as_slice(), prefix) && has_suffix(name.as_slice(), suffix)
        } else {
            same_text(name.as_slice(), pat.as_slice())
        }
    }

    /// Whether a file of a configuration directory is taken: its name
    /// matches the pattern of the command line and its content looks like an
    /// nginx configuration.
    pub fn accepts_file(&self, filename: &str, content: &str) -> (b: bool)
        ensures
            b == (pattern_matches(filename@, self.pattern@) && looks_like_nginx(content@)),
    {
        self.matches_pattern(filename, self.pattern.as_str()) && is_nginx_config_content(content)
    }

    /// The configurations that the command line selects, given what was
    /// found at the path it names and, for a directory, the files of it that
    /// were taken.
    ///
    /// A single configuration must exist. A directory must exist, be a
    /// directory and hold at least one file that was taken. Where the
    /// command line names neither, the default path is selected.
    pub fn get_nginx_config_paths(&self, found: PathKind, taken: Vec<String>) -> (r: Result<
        Vec<String>,
        String,
    >)
        ensures
            match (self.nginx_config, self.config_dir) {
                (Some(config), _) => if found == PathKind::Missing {
                    r matches Err(e) && e@ == "Nginx config file not found: "@ + config@
                } else {
                    r matches Ok(paths) && paths@.len() == 1 && paths@[0]@ == config@
                },
                (None, Some(dir)) => if found == PathKind::Missing {
                    r matches Err(e) && e@ == "Config directory not found: "@ + dir@
                } else if found != PathKind::Directory {
                    r matches Err(e) && e@ == "Path is not a directory: "@ + dir@
                } else if taken@.len() == 0 {
                    r matches Err(e) && e@ == "No config files matching '"@ + self.pattern@
                        + "' found in "@ + dir@
                } else {
                    r == Ok::<Vec<String>, String>(taken)
                },
                (None, None) => r matches Ok(paths) && paths@.len() == 1 && paths@[0]@
                    == default_config_path(),
            },
    {
        match &self.nginx_config {
            Some(config) => {
                if found == PathKind::Missing {
                    return Err(concat("Nginx config file not found: ", config.as_str()));
                }
                let mut paths: Vec<String> = Vec::new();
                paths.push(config.clone());
                return Ok(paths);
            },
            None => {},
        }
        match &self.config_dir {
            Some(dir) => {
                if found == PathKind::Missing {
                    return Err(concat("Config directory not found: ", dir.as_str()));
                }
                if found != PathKind::Directory {
                    return Err(concat("Path is not a directory: ", dir.as_str()));
                }
                if taken.len() == 0 {
                    let mut out = to_chars("No config files matching '");
                    push_str(&mut out, self.pattern.as_str());
                    push_str(&mut out, "' found in ");
                    push_str(&mut out, dir.as_str());
                    return Err(from_chars(out.as_slice()));
                }
                Ok(taken)
            },
            None => {
                let mut paths: Vec<String> = Vec::new();
                paths.push("test_nginx_no_comment.conf".to_owned());
                Ok(paths)
            },
        }
    }

    /// The one configuration that the command line selects: the first of
    /// those that `get_nginx_config_paths` selects.
    pub fn get_nginx_config_path(&self, found: PathKind, taken: Vec<String>) -> (r: Result<
        String,
        String,
    >)
        ensures
            match (self.nginx_config, self.config_dir) {
                (Some(config), _) => if found == PathKind::Missing {
                    r matches Err(e) && e@ == "Nginx config file not found: "@ + config@
                } else {
                    r matches Ok(path) && path@ == config@
                },
                (None, Some(dir)) => if found == PathKind::Missing {
                    r matches Err(e) && e@ == "Config directory not found: "@ + dir@
                } else if found != PathKind::Directory {
                    r matches Err(e) && e@ == "Path is not a directory: "@ + dir@
                } else if taken@.len() == 0 {
                    r matches Err(e) && e@ == "No config files matching '"@ + self.pattern@
                        + "' found in "@ + dir@
                } else {
                    r matches Ok(path) && path@ == taken@[0]@
                },
                (None, None) => r matches Ok(path) && path@ == default_config_path(),
            },
    {
        match self.get_nginx_config_paths(found, taken) {
            Ok(paths) => Ok(paths[0].clone()),
            Err(e) => Err(e),
        }
    }

    /// The directory for backups, given what was found at it: the one that
    /// the command line names, or `backups`. The directory is to be made
    /// where nothing was found, which the flag of the result tells; a path
    /// at which something else than a directory was found is refused.
    pub fn get_backup_dir(&self, found: PathKind) -> (r: Result<(String, bool), String>)
        ensures
            ({
                let dir = match self.backup_dir {
                    Some(d) => d@,
                    None => default_backup_dir(),
                };
                match found {
                    PathKind::Missing => r matches Ok(out) && out.0@ == dir && out.1,
                    PathKind::Directory => r matches Ok(out) && out.0@ == dir && !out.1,
                    _ => r matches Err(e) && e@
                        == "Backup path exists but is not a directory: "@ + dir,
                }
            }),
    {
        let dir = match &self.backup_dir {
            Some(d) => d.clone(),
            None => "backups".to_owned(),
        };
        match found {
            PathKind::Missing => Ok((dir, true)),
            PathKind::Directory => Ok((dir, false)),
            _ => Err(concat("Backup path exists but is not a directory: ", dir.as_str())),
        }
    }
}

} // verus!
