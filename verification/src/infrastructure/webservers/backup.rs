//! Where the backup of a document goes.

use crate::clock::{backup_stamp, is_backup_stamp};
use crate::infrastructure::webservers::rules::str_view;
use crate::text::{after_last, after_last_exec, from_chars, push_all, push_str, to_chars};
use vstd::prelude::*;

verus! {

/// The name of the file at `path`: what follows the last `/`, or `config`
/// where nothing follows it.
pub open spec fn file_name_of(path: Seq<char>) -> Seq<char> {
    let i = after_last(path, '/', path.len() as int);
    if i < path.len() {
        path.skip(i)
    } else {
        "config"@
    }
}

/// The directory of the file at `path`: what stands before the last `/`,
/// where there is one.
pub open spec fn directory_of(path: Seq<char>) -> Option<Seq<char>> {
    let i = after_last(path, '/', path.len() as int);
    if i > 0 {
        Some(path.take(i - 1))
    } else {
        None
    }
}

/// The path of the backup of `path` made at `stamp`: the name of the file,
/// `.bak.` and the stamp, in the backup directory where one is given, else in
/// the directory of the file.
pub open spec fn backup_path_spec(
    path: Seq<char>,
    backup_dir: Option<Seq<char>>,
    stamp: Seq<char>,
) -> Seq<char> {
    let name = file_name_of(path) + ".bak."@ + stamp;
    match backup_dir {
        Some(dir) => dir + "/"@ + name,
        None => match directory_of(path) {
            Some(dir) => dir + "/"@ + name,
            None => name,
        },
    }
}

/// The path of the backup of `path` made at `stamp`.
pub fn backup_path(path: &str, backup_dir: Option<&str>, stamp: &str) -> (p: String)
    ensures
        p@ == backup_path_spec(path@, str_view(backup_dir), stamp@),
{
    let chars = to_chars(path);
    let i = after_last_exec(chars.as_slice(), '/');
    let mut out: Vec<char> = Vec::new();
    match backup_dir {
        Some(dir) => {
            push_str(&mut out, dir);
            push_str(&mut out, "/");
        },
        None => {
            if i > 0 {
                push_all(&mut out, &chars.as_slice()[0..i - 1]);
                push_str(&mut out, "/");
            }
        },
    }
    if i < chars.len() {
        push_all(&mut out, &chars.as_slice()[i..chars.len()]);
    } else {
        push_str(&mut out, "config");
    }
    push_str(&mut out, ".bak.");
    push_str(&mut out, stamp);
    proof {
        assert(chars@.subrange(0, i - 1) == chars@.take(i - 1));
        assert(chars@.subrange(i as int, chars@.len() as int) == chars@.skip(i as int));
        assert(out@ =~= backup_path_spec(path@, str_view(backup_dir), stamp@));
    }
    from_chars(out.as_slice())
}

/// The path of a backup of `path` made now. The stamp is the date and the
/// time of day on the system clock, to the second: two backups of one file
/// made within a second get the same path. There is no path where the clock
/// cannot be read.
pub fn backup_path_now(path: &str, backup_dir: Option<&str>) -> (r: Option<String>)
    ensures
        r matches Some(p) ==> exists|stamp: Seq<char>|
            is_backup_stamp(stamp) && p@ == backup_path_spec(path@, str_view(backup_dir), stamp),
{
    match backup_stamp() {
        Some(stamp) => Some(backup_path(path, backup_dir, stamp.as_str())),
        None => None,
    }
}

} // verus!
