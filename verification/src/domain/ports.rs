//! What a run asks of the outside, and what the outside answers.
//!
//! A run never touches a file, a name server, a process or the address
//! record. It says which step it needs next; the embedding program performs
//! the step and hands the answer back.

use crate::domain::entities::{
    opt_text, UpdateError, UpdateErrorView, UpdateResult, UpdateResultView,
};
use crate::infrastructure::webservers::commands::{string_views, Command, CommandView};
use vstd::prelude::*;

verus! {

/// A step that the outside is asked to perform.
#[derive(Debug, Clone)]
pub enum Request {
    /// Resolve the hostname to its addresses, in the order the resolver gives.
    ResolveHostname { hostname: String },
    /// Read the address record of the hostname.
    LoadIp { hostname: String },
    /// Write the address record of the hostname.
    StoreIp { hostname: String, ip: String },
    /// Tell whoever listens that the address changed.
    NotifyIpChange { hostname: String, old_ip: Option<String>, new_ip: String },
    /// Read the document at the path.
    ReadConfig { path: String },
    /// Copy the document at the path to a backup, into the directory given or
    /// beside the document.
    CreateBackup { path: String, backup_dir: Option<String> },
    /// Replace the document at the path by the content.
    WriteConfig { path: String, content: String },
    /// Run the command and wait for it.
    Run { command: Command },
}

/// A request as a mathematical value.
pub enum RequestView {
    ResolveHostname { hostname: Seq<char> },
    LoadIp { hostname: Seq<char> },
    StoreIp { hostname: Seq<char>, ip: Seq<char> },
    NotifyIpChange { hostname: Seq<char>, old_ip: Option<Seq<char>>, new_ip: Seq<char> },
    ReadConfig { path: Seq<char> },
    CreateBackup { path: Seq<char>, backup_dir: Option<Seq<char>> },
    WriteConfig { path: Seq<char>, content: Seq<char> },
    Run { command: CommandView },
}

impl View for Request {
    type V = RequestView;

    open spec fn view(&self) -> RequestView {
        match *self {
            Request::ResolveHostname { hostname } => RequestView::ResolveHostname {
                hostname: hostname@,
            },
            Request::LoadIp { hostname } => RequestView::LoadIp { hostname: hostname@ },
            Request::StoreIp { hostname, ip } => RequestView::StoreIp {
                hostname: hostname@,
                ip: ip@,
            },
            Request::NotifyIpChange { hostname, old_ip, new_ip } => RequestView::NotifyIpChange {
                hostname: hostname@,
                old_ip: opt_text(old_ip),
                new_ip: new_ip@,
            },
            Request::ReadConfig { path } => RequestView::ReadConfig { path: path@ },
            Request::CreateBackup { path, backup_dir } => RequestView::CreateBackup {
                path: path@,
                backup_dir: opt_text(backup_dir),
            },
            Request::WriteConfig { path, content } => RequestView::WriteConfig {
                path: path@,
                content: content@,
            },
            Request::Run { command } => RequestView::Run { command: command@ },
        }
    }
}

impl RequestView {
    /// The request reads or writes a file, or runs a command.
    pub open spec fn touches_target(self) -> bool {
        self is ReadConfig || self is CreateBackup || self is WriteConfig || self is Run
    }

    /// The request changes a file.
    pub open spec fn writes_file(self) -> bool {
        self is CreateBackup || self is WriteConfig
    }
}

/// What the outside answers to a request.
#[derive(Debug, Clone)]
pub enum Answer {
    /// The addresses of the hostname, the canonical one first.
    Resolved(Vec<String>),
    /// The address in the record, where there is a record.
    Loaded(Option<String>),
    /// The text of the document.
    Content(String),
    /// There is no document at the path.
    Missing,
    /// The path of the backup that was made.
    BackedUp(String),
    /// The step was performed and has nothing to tell.
    Done,
    /// The command ran, and its exit status told success or failure.
    Exited(bool),
    /// The command could not be run at all.
    Unavailable,
    /// The step failed, with what the outside says of the failure.
    Failed(String),
}

/// An answer as a mathematical value.
pub enum AnswerView {
    Resolved(Seq<Seq<char>>),
    Loaded(Option<Seq<char>>),
    Content(Seq<char>),
    Missing,
    BackedUp(Seq<char>),
    Done,
    Exited(bool),
    Unavailable,
    Failed(Seq<char>),
}

impl View for Answer {
    type V = AnswerView;

    open spec fn view(&self) -> AnswerView {
        match *self {
            Answer::Resolved(addresses) => AnswerView::Resolved(string_views(addresses@)),
            Answer::Loaded(ip) => AnswerView::Loaded(opt_text(ip)),
            Answer::Content(text) => AnswerView::Content(text@),
            Answer::Missing => AnswerView::Missing,
            Answer::BackedUp(path) => AnswerView::BackedUp(path@),
            Answer::Done => AnswerView::Done,
            Answer::Exited(success) => AnswerView::Exited(success),
            Answer::Unavailable => AnswerView::Unavailable,
            Answer::Failed(message) => AnswerView::Failed(message@),
        }
    }
}

/// The outcome of a run on one target, as a mathematical value.
pub open spec fn outcome_view(o: Result<UpdateResult, UpdateError>) -> Result<
    UpdateResultView,
    UpdateErrorView,
> {
    match o {
        Ok(r) => Ok(r@),
        Err(e) => Err(e@),
    }
}

/// What a run on one target does next: it asks for a step, or it ends.
#[derive(Debug)]
pub enum UpdateStep {
    Ask(Request),
    Finish(Result<UpdateResult, UpdateError>),
}

/// The next move of a run on one target, as a mathematical value.
pub enum UpdateStepView {
    Ask(RequestView),
    Finish(Result<UpdateResultView, UpdateErrorView>),
}

impl View for UpdateStep {
    type V = UpdateStepView;

    open spec fn view(&self) -> UpdateStepView {
        match *self {
            UpdateStep::Ask(request) => UpdateStepView::Ask(request@),
            UpdateStep::Finish(outcome) => UpdateStepView::Finish(outcome_view(outcome)),
        }
    }
}

} // verus!
