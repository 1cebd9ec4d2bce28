//! The messages that tell of a change of address or of an error.

use crate::infrastructure::webservers::rules::str_view;
use crate::text::{from_chars, push_str};
use vstd::prelude::*;

verus! {

/// The message for the console when the address of `hostname` changed.
pub open spec fn console_change_message(
    hostname: Seq<char>,
    old_ip: Option<Seq<char>>,
    new_ip: Seq<char>,
) -> Seq<char> {
    match old_ip {
        Some(old) => "\u{2705} IP updated for "@ + hostname + ": "@ + old + " \u{2192} "@ + new_ip,
        None => "\u{2705} New IP registered for "@ + hostname + ": "@ + new_ip,
    }
}

/// The message for the console when something failed.
pub open spec fn console_error_message(error: Seq<char>, context: Option<Seq<char>>) -> Seq<char> {
    match context {
        Some(ctx) => "\u{274c} Error in "@ + ctx + ": "@ + error,
        None => "\u{274c} Error: "@ + error,
    }
}

/// The message for the log when the address of `hostname` changed.
pub open spec fn log_change_message(
    hostname: Seq<char>,
    old_ip: Option<Seq<char>>,
    new_ip: Seq<char>,
) -> Seq<char> {
    match old_ip {
        Some(old) => "DDNS IP updated for "@ + hostname + ": "@ + old + " -> "@ + new_ip,
        None => "DDNS new IP registered for "@ + hostname + ": "@ + new_ip,
    }
}

/// The message for the log when something failed.
pub open spec fn log_error_message(error: Seq<char>, context: Option<Seq<char>>) -> Seq<char> {
    match context {
        Some(ctx) => "DDNS error in "@ + ctx + ": "@ + error,
        None => "DDNS error: "@ + error,
    }
}

/// Messages for the console.
#[derive(Debug, Clone, Copy)]
pub struct ConsoleNotificationService {
    verbose: bool,
}

impl ConsoleNotificationService {
    /// Messages for the console, with the time of a change where `verbose`
    /// is set.
    pub fn new(verbose: bool) -> (service: ConsoleNotificationService)
        ensures
            service.verbose_spec() == verbose,
    {
        ConsoleNotificationService { verbose }
    }

    /// Whether the time of a change is told.
    pub closed spec fn verbose_spec(&self) -> bool {
        self.verbose
    }

    /// Whether the time of a change is told.
    pub fn verbose(&self) -> (b: bool)
        ensures
            b == self.verbose_spec(),
    {
        self.verbose
    }

    /// The message that tells of a change of address.
    pub fn notify_ip_change(&self, hostname: &str, old_ip: Option<&str>, new_ip: &str) -> (message:
        String)
        ensures
            message@ == console_change_message(hostname@, str_view(old_ip), new_ip@),
    {
        let mut out: Vec<char> = Vec::new();
        match old_ip {
            Some(old) => {
                push_str(&mut out, "\u{2705} IP updated for ");
                push_str(&mut out, hostname);
                push_str(&mut out, ": ");
                push_str(&mut out, old);
                push_str(&mut out, " \u{2192} ");
                push_str(&mut out, new_ip);
            },
            None => {
                push_str(&mut out, "\u{2705} New IP registered for ");
                push_str(&mut out, hostname);
                push_str(&mut out, ": ");
                push_str(&mut out, new_ip);
            },
        }
        from_chars(out.as_slice())
    }

    /// The message that tells of an error.
    pub fn notify_error(&self, error: &str, context: Option<&str>) -> (message: String)
        ensures
            message@ == console_error_message(error@, str_view(context)),
    {
        let mut out: Vec<char> = Vec::new();
        match context {
            Some(ctx) => {
                push_str(&mut out, "\u{274c} Error in ");
                push_str(&mut out, ctx);
                push_str(&mut out, ": ");
                push_str(&mut out, error);
            },
            None => {
                push_str(&mut out, "\u{274c} Error: ");
                push_str(&mut out, error);
            },
        }
        from_chars(out.as_slice())
    }
}

/// Messages for the log.
#[derive(Debug, Clone, Copy)]
pub struct LogNotificationService;

impl LogNotificationService {
    /// Messages for the log.
    pub fn new() -> LogNotificationService {
        LogNotificationService
    }

    /// The message that tells of a change of address.
    pub fn notify_ip_change(&self, hostname: &str, old_ip: Option<&str>, new_ip: &str) -> (message:
        String)
        ensures
            message@ == log_change_message(hostname@, str_view(old_ip), new_ip@),
    {
        let mut out: Vec<char> = Vec::new();
        match old_ip {
            Some(old) => {
                push_str(&mut out, "DDNS IP updated for ");
                push_str(&mut out, hostname);
                push_str(&mut out, ": ");
                push_str(&mut out, old);
                push_str(&mut out, " -> ");
                push_str(&mut out, new_ip);
            },
            None => {
                push_str(&mut out, "DDNS new IP registered for ");
                push_str(&mut out, hostname);
                push_str(&mut out, ": ");
                push_str(&mut out, new_ip);
            },
        }
        from_chars(out.as_slice())
    }

    /// The message that tells of an error.
    pub fn notify_error(&self, error: &str, context: Option<&str>) -> (message: String)
        ensures
            message@ == log_error_message(error@, str_view(context)),
    {
        let mut out: Vec<char> = Vec::new();
        match context {
            Some(ctx) => {
                push_str(&mut out, "DDNS error in ");
                push_str(&mut out, ctx);
                push_str(&mut out, ": ");
                push_str(&mut out, error);
            },
            None => {
                push_str(&mut out, "DDNS error: ");
                push_str(&mut out, error);
            },
        }
        from_chars(out.as_slice())
    }
}

impl Default for LogNotificationService {
    fn default() -> LogNotificationService {
        LogNotificationService::new()
    }
}

} // verus!
