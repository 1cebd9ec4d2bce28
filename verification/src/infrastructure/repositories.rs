//! Where the address records are kept.

use crate::text::{from_chars, push_str, str_eq, to_chars};
use vstd::prelude::*;

verus! {

/// The address records as files, one for each hostname, in one directory.
#[derive(Debug, Clone)]
pub struct FileIpRepository {
    storage_dir: String,
}

impl View for FileIpRepository {
    type V = Seq<char>;

    closed spec fn view(&self) -> Seq<char> {
        self.storage_dir@
    }
}

/// The path of the record of `hostname` under `storage_dir`.
pub open spec fn record_path(storage_dir: Seq<char>, hostname: Seq<char>) -> Seq<char> {
    storage_dir + "/"@ + hostname + ".json"@
}

/// The address that stands for "not yet known" in a first record.
pub open spec fn placeholder_ip() -> Seq<char> {
    "0.0.0.0"@
}

/// The comment of a record that is made before the first run.
pub open spec fn initial_comment(ip: Seq<char>) -> Seq<char> {
    if ip == placeholder_ip() {
        "Initial DNS host file created at first startup (will be updated with real IP)"@
    } else {
        "Initial DNS host file created at first startup with resolved IP"@
    }
}

impl FileIpRepository {
    /// The records kept under `storage_dir`.
    pub fn new(storage_dir: String) -> (repository: FileIpRepository)
        ensures
            repository@ == storage_dir@,
    {
        FileIpRepository { storage_dir }
    }

    /// The directory of the records.
    pub fn storage_dir(&self) -> (dir: &str)
        ensures
            dir@ == self@,
    {
        self.storage_dir.as_str()
    }

    /// The path of the record of `hostname`: the name of the host and
    /// `.json`, in the directory of the records.
    pub fn get_file_path(&self, hostname: &str) -> (path: String)
        ensures
            path@ == record_path(self@, hostname@),
    {
        let mut out = to_chars(self.storage_dir.as_str());
        push_str(&mut out, "/");
        push_str(&mut out, hostname);
        push_str(&mut out, ".json");
        from_chars(out.as_slice())
    }

    /// The comment of the record that is made before the first run: it says
    /// whether the address is the one that was resolved or the placeholder.
    pub fn initial_host_comment(resolved_ip: &str) -> (comment: String)
        ensures
            comment@ == initial_comment(resolved_ip@),
    {
        if str_eq(resolved_ip, "0.0.0.0") {
            "Initial DNS host file created at first startup (will be updated with real IP)".to_owned()
        } else {
            "Initial DNS host file created at first startup with resolved IP".to_owned()
        }
    }

    /// The address for the record that is made before the first run: the
    /// first address that was resolved, or the placeholder where the
    /// hostname gave none.
    pub fn initial_host_ip(resolved: &Vec<String>) -> (ip: String)
        ensures
            ip@ == (if resolved@.len() > 0 {
                resolved@[0]@
            } else {
                placeholder_ip()
            }),
    {
        if resolved.len() > 0 {
            resolved[0].clone()
        } else {
            "0.0.0.0".to_owned()
        }
    }
}

} // verus!
