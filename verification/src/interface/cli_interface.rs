//! What a run over many targets comes to, for whoever started it.

use crate::application::use_cases::{MultiConfigResult, MultiConfigResultView};
use crate::domain::entities::{result_views, UpdateResult, UpdateResultView};
use crate::text::str_starts_with;
use crate::text::starts_with;
use vstd::prelude::*;

verus! {

/// The counts of a result.
#[derive(Clone, Copy, Debug, PartialEq, Eq, Structural)]
pub struct Summary {
    /// How many targets were edited.
    pub updated: usize,
    /// How many targets were left as they are.
    pub no_change: usize,
    /// How many targets failed.
    pub errors: usize,
}

/// What is said at the end of a run.
#[derive(Clone, Copy, Debug, PartialEq, Eq, Structural)]
pub enum Closing {
    /// No target was given.
    NothingProcessed,
    /// Every target failed.
    NothingUpdated,
    /// Some target ended well: the counts are told.
    Counts,
}

/// How many of the outcomes are edits.
pub open spec fn count_updated(outcomes: Seq<UpdateResultView>) -> nat
    decreases outcomes.len(),
{
    if outcomes.len() == 0 {
        0
    } else {
        count_updated(outcomes.drop_last()) + if outcomes.last() is Updated {
            1nat
        } else {
            0nat
        }
    }
}

/// What is said at the end of a run with this result.
pub open spec fn closing_of(result: MultiConfigResultView) -> Closing {
    if result.successes.len() == 0 && result.errors.len() == 0 {
        Closing::NothingProcessed
    } else if result.successes.len() == 0 {
        Closing::NothingUpdated
    } else {
        Closing::Counts
    }
}

/// The directory of the address records where the run is a test.
pub open spec fn test_storage_dir() -> Seq<char> {
    "./test_storage"@
}

/// The directory of the address records in service.
pub open spec fn service_storage_dir() -> Seq<char> {
    "/var/lib/ddns-updater"@
}

/// The directory for backups where the records are kept in a directory of
/// the working directory.
pub open spec fn test_backup_dir() -> Seq<char> {
    "./test_backups"@
}

/// The command line.
#[derive(Debug, Clone, Copy)]
pub struct CliInterface;

impl CliInterface {
    /// The counts of `result`: edits, targets left as they are, failures.
    pub fn summarize(result: &MultiConfigResult) -> (s: Summary)
        ensures
            s.updated == count_updated(result@.successes),
            s.updated + s.no_change == result@.successes.len(),
            s.errors == result@.errors.len(),
    {
        let mut updated: usize = 0;
        let mut i: usize = 0;
        let ghost all = result_views(result.successes@);
        proof {
            assert(all.take(0) =~= Seq::<UpdateResultView>::empty());
        }
        while i < result.successes.len()
            invariant
                i <= result.successes.len(),
                all == result_views(result.successes@),
                updated <= i,
                updated == count_updated(all.take(i as int)),
            decreases result.successes.len() - i,
        {
            proof {
                assert(all.take(i + 1).drop_last() =~= all.take(i as int));
                assert(all.take(i + 1).last() == result.successes@[i as int]@);
            }
            match &result.successes[i] {
                UpdateResult::Updated { .. } => {
                    updated += 1;
                },
                UpdateResult::NoChange { .. } => {},
            }
            i += 1;
        }
        proof {
            assert(all.take(result.successes@.len() as int) =~= all);
        }
        Summary {
            updated,
            no_change: result.successes.len() - updated,
            errors: result.errors.len(),
        }
    }

    /// What is said at the end of a run with this result.
    pub fn closing(result: &MultiConfigResult) -> (c: Closing)
        ensures
            c == closing_of(result@),
    {
        if result.successes.len() == 0 && result.errors.len() == 0 {
            Closing::NothingProcessed
        } else if result.successes.len() == 0 {
            Closing::NothingUpdated
        } else {
            Closing::Counts
        }
    }

    /// The exit status of a run with this result: a run has succeeded
    /// unless a target failed.
    pub fn exit_code(result: &MultiConfigResult) -> (code: i32)
        ensures
            code == (if result@.errors.len() > 0 {
                1i32
            } else {
                0i32
            }),
    {
        if result.has_errors() {
            1
        } else {
            0
        }
    }

    /// Where the address records are kept: for a test, the directory that
    /// the test names or `./test_storage`; in service, the service directory
    /// where it can be written. Without a directory the run cannot begin.
    pub fn storage_dir(test_mode: bool, named: Option<String>, service_dir_writable: bool) -> (dir:
        Option<String>)
        ensures
            test_mode ==> (dir matches Some(d) && d@ == (match named {
                Some(n) => n@,
                None => test_storage_dir(),
            })),
            !test_mode && service_dir_writable ==> (dir matches Some(d) && d@
                == service_storage_dir()),
            !test_mode && !service_dir_writable ==> dir is None,
    {
        if test_mode {
            match named {
                Some(n) => Some(n),
                None => Some("./test_storage".to_owned()),
            }
        } else if service_dir_writable {
            Some("/var/lib/ddns-updater".to_owned())
        } else {
            None
        }
    }

    /// Where backups go: the directory that the command line names; else,
    /// where the records are kept in a directory of the working directory,
    /// `./test_backups`; else beside the documents.
    pub fn backup_dir(named: Option<String>, storage_dir: &str) -> (dir: Option<String>)
        ensures
            match named {
                Some(n) => dir == Some(n),
                None => if starts_with(storage_dir@, "./"@) {
                    dir matches Some(d) && d@ == test_backup_dir()
                } else {
                    dir is None
                },
            },
    {
        match named {
            Some(n) => Some(n),
            None => if str_starts_with(storage_dir, "./") {
                Some("./test_backups".to_owned())
            } else {
                None
            },
        }
    }
}

} // verus!
