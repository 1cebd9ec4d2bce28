//! The run on one target: from the check of its document to the write of the
//! address record.
//!
//! The run is a state and a transition. The transition takes the answer to
//! the step that was asked for and gives the next step, or the outcome. What
//! the transition does is written once as a function on mathematical values,
//! `run_step`, and the executable `step` is proved to compute it.
//!
//! A first run, for a hostname that has no address record yet, writes the
//! record and then reads the document; it never edits. A reload that fails
//! ends the run with an error and leaves the address record as it was, unless
//! the run was told that the reload may fail. An address that cannot stand as
//! a token in a rule is never written into a document.
//!
//! Nothing here locks a document or the address record: two runs for one
//! hostname must not be under way at the same time.

use crate::domain::entities::{
    copy_opt, opt_text, ErrorKind, UpdateError, UpdateErrorView, UpdateResult, UpdateResultView,
    WebServerConfig, WebServerConfigView, WebServerType,
};
use crate::domain::ports::{
    outcome_view, Answer, AnswerView, Request, RequestView, UpdateStep, UpdateStepView,
};
use crate::infrastructure::webservers::commands::{
    nth_reload_command, nth_syntax_check, reload_command, syntax_check,
};
use crate::infrastructure::webservers::apache::patterns_compile;
use crate::infrastructure::webservers::handler::{
    mutate, mutation, structure_ok, validate_structure,
};
use crate::infrastructure::webservers::rules::{is_address_token, is_token, str_view, Dialect};
use crate::text::str_eq;
use vstd::prelude::*;

verus! {

/// Where a run stands: the step whose answer it waits for.
#[derive(Clone, Copy, Debug, PartialEq, Eq, Structural)]
pub enum Phase {
    /// The syntax check before anything else, with the number of the command
    /// that is being tried.
    PreChecking(usize),
    /// The document, read for the structure check that stands in for a
    /// syntax check that could not be run.
    PreCheckReading,
    /// The addresses of the hostname.
    Resolving,
    /// The address record.
    Loading,
    /// The write of the first address record of the hostname.
    Baseline,
    /// The document, read to see whether it holds the address already.
    BaselineCheck,
    /// The document, read to decide on the edit.
    Reading,
    /// The backup.
    BackingUp,
    /// The write of the edited document.
    Writing,
    /// The syntax check after the edit, with the number of the command that
    /// is being tried.
    Checking(usize),
    /// The edited document, read back for the structure check.
    CheckReading,
    /// The reload, with the number of the command that is being tried.
    Reloading(usize),
    /// The write of the address record.
    Persisting,
    /// The announcement of the change.
    Notifying,
    /// The run has ended.
    Finished,
}

/// A run on one target.
#[derive(Debug)]
pub struct DdnsUpdateService {
    config: WebServerConfig,
    hostname: String,
    no_reload: bool,
    reload_mandatory: bool,
    standalone: bool,
    phase: Phase,
    stored_ip: Option<String>,
    current_ip: String,
    content: String,
    backup_path: String,
}

/// A run on one target as a mathematical value.
pub struct UpdateRun {
    /// The target.
    pub config: WebServerConfigView,
    /// The hostname whose address is followed.
    pub hostname: Seq<char>,
    /// The server is not reloaded after an edit.
    pub no_reload: bool,
    /// A reload that fails ends the run with an error.
    pub reload_mandatory: bool,
    /// The run resolves the hostname and keeps the address record itself;
    /// otherwise both are the business of the batch it belongs to.
    pub standalone: bool,
    /// The step whose answer is waited for.
    pub phase: Phase,
    /// The address in the record, once it is known.
    pub stored_ip: Option<Seq<char>>,
    /// The address of the hostname, once it is known.
    pub current_ip: Seq<char>,
    /// The edited document, once it is made.
    pub content: Seq<char>,
    /// The path of the backup, once it is made.
    pub backup_path: Seq<char>,
}

impl UpdateRun {
    /// The syntax of the target's family.
    pub open spec fn dialect(self) -> Dialect {
        self.config.server_type.dialect_spec()
    }

    /// The run belongs to a batch and waits for its first look at the
    /// document of its target.
    pub open spec fn awaits_document(self) -> bool {
        !self.standalone && (self.phase == Phase::Reading || self.phase == Phase::BaselineCheck)
    }

    /// The run with `family` as the family of its target, where it waits for
    /// its first look at the document; the run as it is otherwise.
    pub open spec fn settle(self, family: WebServerType) -> UpdateRun {
        if self.awaits_document() {
            UpdateRun {
                config: WebServerConfigView { server_type: family, ..self.config },
                ..self
            }
        } else {
            self
        }
    }

    /// The run ends with `outcome`.
    pub open spec fn finish(self, outcome: Result<UpdateResultView, UpdateErrorView>) -> (
        UpdateRun,
        UpdateStepView,
    ) {
        (UpdateRun { phase: Phase::Finished, ..self }, UpdateStepView::Finish(outcome))
    }

    /// The run ends because the outside reported a failure.
    pub open spec fn fail(self, kind: ErrorKind, detail: Seq<char>) -> (UpdateRun, UpdateStepView) {
        self.finish(Err(UpdateErrorView::reported(kind, detail)))
    }

    /// The run ends without an edit.
    pub open spec fn no_change(self) -> (UpdateRun, UpdateStepView) {
        self.finish(Ok(UpdateResultView::NoChange { ip: self.current_ip }))
    }

    /// The outcome of a run that rewrote a rule.
    pub open spec fn updated(self) -> UpdateResultView {
        UpdateResultView::Updated {
            hostname: self.hostname,
            old_ip: self.stored_ip,
            new_ip: self.current_ip,
            backup_path: self.backup_path,
        }
    }

    /// The run asks for `request` and waits in `phase`.
    pub open spec fn ask(self, phase: Phase, request: RequestView) -> (UpdateRun, UpdateStepView) {
        (UpdateRun { phase, ..self }, UpdateStepView::Ask(request))
    }

    /// The request for the document of the target.
    pub open spec fn read_config(self) -> RequestView {
        RequestView::ReadConfig { path: self.config.path }
    }

    /// The request that writes the current address to the record.
    pub open spec fn store_ip(self) -> RequestView {
        RequestView::StoreIp { hostname: self.hostname, ip: self.current_ip }
    }

    /// The syntax check before anything else: command `i`, or the structure
    /// check where no command is left to try.
    pub open spec fn precheck(self, i: int) -> (UpdateRun, UpdateStepView) {
        match syntax_check(self.dialect(), self.config.path, i) {
            Some(command) => self.ask(
                Phase::PreChecking(i as usize),
                RequestView::Run { command },
            ),
            None => self.ask(Phase::PreCheckReading, self.read_config()),
        }
    }

    /// The syntax check after the edit: command `i`, or the structure check
    /// where no command is left to try.
    pub open spec fn check(self, i: int) -> (UpdateRun, UpdateStepView) {
        match syntax_check(self.dialect(), self.config.path, i) {
            Some(command) => self.ask(Phase::Checking(i as usize), RequestView::Run { command }),
            None => self.ask(Phase::CheckReading, self.read_config()),
        }
    }

    /// The reload: command `i`. Where no command is left to try, the reload
    /// has failed: the run ends with an error, unless the reload may fail.
    pub open spec fn reload(self, i: int) -> (UpdateRun, UpdateStepView) {
        match reload_command(self.dialect(), i) {
            Some(command) => self.ask(Phase::Reloading(i as usize), RequestView::Run { command }),
            None => if self.reload_mandatory {
                self.finish(Err(UpdateErrorView::reload_failed()))
            } else {
                self.succeed()
            },
        }
    }

    /// The edited document passed its check: the server is reloaded, unless
    /// the run is told not to.
    pub open spec fn checked(self) -> (UpdateRun, UpdateStepView) {
        if self.no_reload {
            self.succeed()
        } else {
            self.reload(0)
        }
    }

    /// The edit is in place: a run of its own writes the address record, a
    /// run in a batch ends.
    pub open spec fn succeed(self) -> (UpdateRun, UpdateStepView) {
        if self.standalone {
            self.ask(Phase::Persisting, self.store_ip())
        } else {
            self.finish(Ok(self.updated()))
        }
    }

    /// The document passed the check before the edit: the hostname is
    /// resolved.
    pub open spec fn prechecked(self) -> (UpdateRun, UpdateStepView) {
        self.ask(Phase::Resolving, RequestView::ResolveHostname { hostname: self.hostname })
    }

    /// The request that announces the change of address.
    pub open spec fn notify(self) -> RequestView {
        RequestView::NotifyIpChange {
            hostname: self.hostname,
            old_ip: self.stored_ip,
            new_ip: self.current_ip,
        }
    }

    /// The document of the target is not there, where it was to be read for
    /// the edit.
    pub open spec fn gone(self) -> (UpdateRun, UpdateStepView) {
        self.finish(Err(UpdateErrorView::not_found(self.config.path)))
    }

    /// The decision on the document. A run without a stored address never
    /// edits. An address that cannot stand as a token ends the run with an
    /// error. Else the rule for the stored address is looked for: where the
    /// edit changes a line, a backup is asked for; where the target holds no
    /// rule for the stored address, the run ends without a change and
    /// without having written anything.
    pub open spec fn decide(self, doc: Seq<char>) -> (UpdateRun, UpdateStepView) {
        match self.stored_ip {
            None => self.no_change(),
            Some(stored) => if !is_token(self.current_ip) {
                self.finish(Err(UpdateErrorView::invalid_address(self.current_ip)))
            } else {
                let m = mutation(self.dialect(), doc, self.hostname, Some(stored), self.current_ip);
                if m.1 {
                    UpdateRun { content: m.0, ..self }.ask(
                        Phase::BackingUp,
                        RequestView::CreateBackup {
                            path: self.config.path,
                            backup_dir: self.config.backup_path,
                        },
                    )
                } else {
                    self.no_change()
                }
            },
        }
    }
}

impl UpdateErrorView {
    /// No command reloaded the server.
    pub open spec fn reload_failed() -> UpdateErrorView {
        UpdateErrorView {
            kind: ErrorKind::ReloadFailed,
            message: "Failed to reload the web server"@,
        }
    }
}

/// The transition of a run: the state it is in, the answer to the step it
/// asked for, the state it goes to and what it does next.
///
/// An answer that does not belong to the step ends the run with an error, and
/// so does any answer to a run that has ended.
pub open spec fn run_step(s: UpdateRun, a: AnswerView) -> (UpdateRun, UpdateStepView) {
    match s.phase {
        Phase::PreChecking(i) => match a {
            AnswerView::Exited(true) => s.prechecked(),
            AnswerView::Exited(false) => s.finish(Err(UpdateErrorView::invalid_config())),
            AnswerView::Unavailable => s.precheck(i + 1),
            _ => s.finish(Err(UpdateErrorView::unexpected())),
        },
        Phase::PreCheckReading => match a {
            AnswerView::Content(doc) => if structure_ok(s.dialect(), doc) {
                s.prechecked()
            } else {
                s.finish(Err(UpdateErrorView::invalid_config()))
            },
            AnswerView::Missing => s.finish(Err(UpdateErrorView::invalid_config())),
            AnswerView::Failed(detail) => s.fail(ErrorKind::MutationIoError, detail),
            _ => s.finish(Err(UpdateErrorView::unexpected())),
        },
        Phase::Resolving => match a {
            AnswerView::Resolved(addresses) => if addresses.len() == 0 {
                s.finish(Err(UpdateErrorView::resolution_failed(s.hostname)))
            } else {
                UpdateRun { current_ip: addresses[0], ..s }.ask(
                    Phase::Loading,
                    RequestView::LoadIp { hostname: s.hostname },
                )
            },
            AnswerView::Failed(detail) => s.fail(ErrorKind::ResolutionFailed, detail),
            _ => s.finish(Err(UpdateErrorView::unexpected())),
        },
        Phase::Loading => match a {
            AnswerView::Loaded(None) => s.ask(Phase::Baseline, s.store_ip()),
            AnswerView::Loaded(Some(stored)) => if stored == s.current_ip {
                s.no_change()
            } else {
                UpdateRun { stored_ip: Some(stored), ..s }.ask(Phase::Reading, s.read_config())
            },
            AnswerView::Failed(detail) => s.fail(ErrorKind::StateIoError, detail),
            _ => s.finish(Err(UpdateErrorView::unexpected())),
        },
        Phase::Baseline => match a {
            AnswerView::Done => s.ask(Phase::BaselineCheck, s.read_config()),
            AnswerView::Failed(detail) => s.fail(ErrorKind::StateIoError, detail),
            _ => s.finish(Err(UpdateErrorView::unexpected())),
        },
        Phase::BaselineCheck => match a {
            AnswerView::Content(_) => s.no_change(),
            AnswerView::Missing => s.gone(),
            AnswerView::Failed(detail) => s.fail(ErrorKind::MutationIoError, detail),
            _ => s.finish(Err(UpdateErrorView::unexpected())),
        },
        Phase::Reading => match a {
            AnswerView::Content(doc) => s.decide(doc),
            AnswerView::Missing => s.gone(),
            AnswerView::Failed(detail) => s.fail(ErrorKind::MutationIoError, detail),
            _ => s.finish(Err(UpdateErrorView::unexpected())),
        },
        Phase::BackingUp => match a {
            AnswerView::BackedUp(path) => UpdateRun { backup_path: path, ..s }.ask(
                Phase::Writing,
                RequestView::WriteConfig { path: s.config.path, content: s.content },
            ),
            AnswerView::Failed(detail) => s.fail(ErrorKind::MutationIoError, detail),
            _ => s.finish(Err(UpdateErrorView::unexpected())),
        },
        Phase::Writing => match a {
            AnswerView::Done => s.check(0),
            AnswerView::Failed(detail) => s.fail(ErrorKind::MutationIoError, detail),
            _ => s.finish(Err(UpdateErrorView::unexpected())),
        },
        Phase::Checking(i) => match a {
            AnswerView::Exited(true) => s.checked(),
            AnswerView::Exited(false) => s.finish(Err(UpdateErrorView::config_test_failed())),
            AnswerView::Unavailable => s.check(i + 1),
            _ => s.finish(Err(UpdateErrorView::unexpected())),
        },
        Phase::CheckReading => match a {
            AnswerView::Content(doc) => if structure_ok(s.dialect(), doc) {
                s.checked()
            } else {
                s.finish(Err(UpdateErrorView::config_test_failed()))
            },
            AnswerView::Missing => s.finish(Err(UpdateErrorView::config_test_failed())),
            AnswerView::Failed(detail) => s.fail(ErrorKind::MutationIoError, detail),
            _ => s.finish(Err(UpdateErrorView::unexpected())),
        },
        Phase::Reloading(i) => match a {
            AnswerView::Exited(true) => s.succeed(),
            AnswerView::Exited(false) => s.reload(i + 1),
            AnswerView::Unavailable => s.reload(i + 1),
            AnswerView::Failed(_) => s.reload(i + 1),
            _ => s.finish(Err(UpdateErrorView::unexpected())),
        },
        Phase::Persisting => match a {
            AnswerView::Done => s.ask(Phase::Notifying, s.notify()),
            AnswerView::Failed(detail) => s.fail(ErrorKind::StateIoError, detail),
            _ => s.finish(Err(UpdateErrorView::unexpected())),
        },
        Phase::Notifying => match a {
            AnswerView::Done => s.finish(Ok(s.updated())),
            AnswerView::Failed(detail) => s.fail(ErrorKind::NotificationFailed, detail),
            _ => s.finish(Err(UpdateErrorView::unexpected())),
        },
        Phase::Finished => s.finish(Err(UpdateErrorView::unexpected())),
    }
}

/// The state in which a run of its own begins, and its first request: the
/// syntax check of the target.
pub open spec fn standalone_start(
    hostname: Seq<char>,
    config: WebServerConfigView,
    no_reload: bool,
    reload_mandatory: bool,
) -> (UpdateRun, UpdateStepView) {
    UpdateRun {
        config,
        hostname,
        no_reload,
        reload_mandatory,
        standalone: true,
        phase: Phase::Finished,
        stored_ip: None,
        current_ip: Seq::empty(),
        content: Seq::empty(),
        backup_path: Seq::empty(),
    }.precheck(0)
}

/// The state in which a run in a batch begins, and its first request: the
/// document of the target. The batch has resolved the hostname and read the
/// address record. Without a stored address the run only looks at the
/// document; with one it decides on the edit.
pub open spec fn batch_start(
    hostname: Seq<char>,
    config: WebServerConfigView,
    stored_ip: Option<Seq<char>>,
    current_ip: Seq<char>,
    no_reload: bool,
    reload_mandatory: bool,
) -> (UpdateRun, UpdateStepView) {
    let run = UpdateRun {
        config,
        hostname,
        no_reload,
        reload_mandatory,
        standalone: false,
        phase: Phase::Finished,
        stored_ip,
        current_ip,
        content: Seq::empty(),
        backup_path: Seq::empty(),
    };
    run.ask(
        if stored_ip is Some {
            Phase::Reading
        } else {
            Phase::BaselineCheck
        },
        run.read_config(),
    )
}

/// The text of an optional string, borrowed.
fn as_text(o: &Option<String>) -> (r: Option<&str>)
    ensures
        str_view(r) == opt_text(*o),
{
    match o {
        Some(s) => Some(s.as_str()),
        None => None,
    }
}

impl View for DdnsUpdateService {
    type V = UpdateRun;

    closed spec fn view(&self) -> UpdateRun {
        UpdateRun {
            config: self.config@,
            hostname: self.hostname@,
            no_reload: self.no_reload,
            reload_mandatory: self.reload_mandatory,
            standalone: self.standalone,
            phase: self.phase,
            stored_ip: opt_text(self.stored_ip),
            current_ip: self.current_ip@,
            content: self.content@,
            backup_path: self.backup_path@,
        }
    }
}

/// The run has ended because a pattern that finds the blocks of a document
/// was refused.
pub open spec fn pattern_rejected(run: UpdateRun, step: UpdateStepView) -> bool {
    run.phase == Phase::Finished && match step {
        UpdateStepView::Finish(Err(e)) => e.kind == ErrorKind::PatternRejected,
        _ => false,
    }
}

/// The one case in which a step may differ from `run_step`: the target is of
/// the Apache family, one of the patterns that find its blocks does not
/// compile, the answer brings a document that the step has to read, and the
/// run ends with the error of that pattern.
pub open spec fn rejected_step(
    s: UpdateRun,
    a: AnswerView,
    after: UpdateRun,
    step: UpdateStepView,
) -> bool {
    &&& s.dialect() == Dialect::Apache
    &&& !patterns_compile()
    &&& a is Content
    &&& s.phase == Phase::PreCheckReading || s.phase == Phase::Reading || s.phase
        == Phase::CheckReading
    &&& pattern_rejected(after, step)
}

/// A run waits for the answer to a command only where there is such a
/// command.
pub open spec fn phase_fits(run: UpdateRun, phase: Phase) -> bool {
    match phase {
        Phase::PreChecking(i) => syntax_check(run.dialect(), run.config.path, i as int) is Some,
        Phase::Checking(i) => syntax_check(run.dialect(), run.config.path, i as int) is Some,
        Phase::Reloading(i) => reload_command(run.dialect(), i as int) is Some,
        _ => true,
    }
}

impl DdnsUpdateService {
    #[verifier::type_invariant]
    spec fn well_formed(self) -> bool {
        phase_fits(self@, self.phase)
    }

    /// A run of its own on the target `config`, for `hostname`: the run
    /// checks the document, resolves the hostname, reads the address record,
    /// edits the document where it must, has the server reloaded, writes the
    /// address record and announces the change. A reload that fails ends the
    /// run with an error.
    pub fn update_ddns(hostname: &str, config: &WebServerConfig) -> (r: (
        DdnsUpdateService,
        Request,
    ))
        ensures
            (r.0@, UpdateStepView::Ask(r.1@)) == standalone_start(hostname@, config@, false, true),
    {
        Self::update_ddns_with_policy(hostname, config, false, true)
    }

    /// A run of its own that leaves the server alone where `no_reload` is
    /// set. A reload that fails ends the run with an error.
    pub fn update_ddns_with_options(hostname: &str, config: &WebServerConfig, no_reload: bool) -> (r:
        (DdnsUpdateService, Request))
        ensures
            (r.0@, UpdateStepView::Ask(r.1@)) == standalone_start(
                hostname@,
                config@,
                no_reload,
                true,
            ),
    {
        Self::update_ddns_with_policy(hostname, config, no_reload, true)
    }

    /// A run of its own with both options: whether the server is reloaded,
    /// and whether a reload that fails ends the run with an error.
    pub fn update_ddns_with_policy(
        hostname: &str,
        config: &WebServerConfig,
        no_reload: bool,
        reload_mandatory: bool,
    ) -> (r: (DdnsUpdateService, Request))
        ensures
            (r.0@, UpdateStepView::Ask(r.1@)) == standalone_start(
                hostname@,
                config@,
                no_reload,
                reload_mandatory,
            ),
    {
        let run = DdnsUpdateService {
            config: config.duplicate(),
            hostname: hostname.to_owned(),
            no_reload,
            reload_mandatory,
            standalone: true,
            phase: Phase::Finished,
            stored_ip: None,
            current_ip: String::new(),
            content: String::new(),
            backup_path: String::new(),
        };
        match nth_syntax_check(config.server_type.dialect(), config.path.as_str(), 0) {
            Some(command) => (
                DdnsUpdateService { phase: Phase::PreChecking(0), ..run },
                Request::Run { command },
            ),
            None => {
                let request = run.read_config();
                (DdnsUpdateService { phase: Phase::PreCheckReading, ..run }, request)
            },
        }
    }

    /// A run in a batch on the target `config`: the batch has resolved the
    /// hostname to `current_ip` and found `stored_ip` in the address record,
    /// and it keeps the record itself.
    pub fn update_file_only(
        config: &WebServerConfig,
        hostname: &str,
        stored_ip: Option<&str>,
        current_ip: &str,
        no_reload: bool,
        reload_mandatory: bool,
    ) -> (r: (DdnsUpdateService, Request))
        ensures
            (r.0@, UpdateStepView::Ask(r.1@)) == batch_start(
                hostname@,
                config@,
                str_view(stored_ip),
                current_ip@,
                no_reload,
                reload_mandatory,
            ),
    {
        let stored = match stored_ip {
            Some(s) => Some(s.to_owned()),
            None => None,
        };
        let run = DdnsUpdateService {
            config: config.duplicate(),
            hostname: hostname.to_owned(),
            no_reload,
            reload_mandatory,
            standalone: false,
            phase: Phase::Finished,
            stored_ip: stored,
            current_ip: current_ip.to_owned(),
            content: String::new(),
            backup_path: String::new(),
        };
        let request = run.read_config();
        if run.stored_ip.is_some() {
            (DdnsUpdateService { phase: Phase::Reading, ..run }, request)
        } else {
            (DdnsUpdateService { phase: Phase::BaselineCheck, ..run }, request)
        }
    }

    /// Whether the run has ended.
    pub fn is_finished(&self) -> (b: bool)
        ensures
            b == (self@.phase == Phase::Finished),
    {
        self.phase == Phase::Finished
    }

    /// The path of the target.
    pub fn target_path(&self) -> (path: &str)
        ensures
            path@ == self@.config.path,
    {
        self.config.path.as_str()
    }

    /// Whether the run belongs to a batch and waits for its first look at
    /// the document of its target.
    pub fn awaits_document(&self) -> (b: bool)
        ensures
            b == self@.awaits_document(),
    {
        !self.standalone && (self.phase == Phase::Reading || self.phase == Phase::BaselineCheck)
    }

    /// Settles the family of the target: where the run waits for its first
    /// look at the document, the target is of `family` from now on; else
    /// nothing changes.
    pub fn settle(self, family: WebServerType) -> (r: DdnsUpdateService)
        ensures
            r@ == self@.settle(family),
    {
        proof {
            use_type_invariant(&self);
        }
        if self.awaits_document() {
            let DdnsUpdateService {
                config,
                hostname,
                no_reload,
                reload_mandatory,
                standalone,
                phase,
                stored_ip,
                current_ip,
                content,
                backup_path,
            } = self;
            let WebServerConfig { path, server_type: _, backup_path: backup_dir } = config;
            DdnsUpdateService {
                config: WebServerConfig { path, server_type: family, backup_path: backup_dir },
                hostname,
                no_reload,
                reload_mandatory,
                standalone,
                phase,
                stored_ip,
                current_ip,
                content,
                backup_path,
            }
        } else {
            self
        }
    }

    fn finish(self, outcome: Result<UpdateResult, UpdateError>) -> (r: (
        DdnsUpdateService,
        UpdateStep,
    ))
        ensures
            (r.0@, r.1@) == self@.finish(outcome_view(outcome)),
    {
        (DdnsUpdateService { phase: Phase::Finished, ..self }, UpdateStep::Finish(outcome))
    }

    fn fail(self, kind: ErrorKind, detail: String) -> (r: (DdnsUpdateService, UpdateStep))
        ensures
            (r.0@, r.1@) == self@.fail(kind, detail@),
    {
        self.finish(Err(UpdateError::reported(kind, detail)))
    }

    fn unexpected(self) -> (r: (DdnsUpdateService, UpdateStep))
        ensures
            (r.0@, r.1@) == self@.finish(Err(UpdateErrorView::unexpected())),
    {
        self.finish(Err(UpdateError::unexpected()))
    }

    fn rejected(self, e: UpdateError) -> (r: (DdnsUpdateService, UpdateStep))
        requires
            e.kind == ErrorKind::PatternRejected,
        ensures
            pattern_rejected(r.0@, r.1@),
    {
        self.finish(Err(e))
    }

    fn no_change(self) -> (r: (DdnsUpdateService, UpdateStep))
        ensures
            (r.0@, r.1@) == self@.no_change(),
    {
        let ip = self.current_ip.clone();
        self.finish(Ok(UpdateResult::NoChange { ip }))
    }

    fn updated(&self) -> (u: UpdateResult)
        ensures
            u@ == self@.updated(),
    {
        UpdateResult::Updated {
            hostname: self.hostname.clone(),
            old_ip: copy_opt(&self.stored_ip),
            new_ip: self.current_ip.clone(),
            backup_path: self.backup_path.clone(),
        }
    }

    fn ask(self, phase: Phase, request: Request) -> (r: (DdnsUpdateService, UpdateStep))
        requires
            phase_fits(self@, phase),
        ensures
            (r.0@, r.1@) == self@.ask(phase, request@),
    {
        (DdnsUpdateService { phase, ..self }, UpdateStep::Ask(request))
    }

    fn read_config(&self) -> (request: Request)
        ensures
            request@ == self@.read_config(),
    {
        Request::ReadConfig { path: self.config.path.clone() }
    }

    fn store_ip(&self) -> (request: Request)
        ensures
            request@ == self@.store_ip(),
    {
        Request::StoreIp { hostname: self.hostname.clone(), ip: self.current_ip.clone() }
    }

    fn precheck(self, i: usize) -> (r: (DdnsUpdateService, UpdateStep))
        ensures
            (r.0@, r.1@) == self@.precheck(i as int),
    {
        match nth_syntax_check(self.config.server_type.dialect(), self.config.path.as_str(), i) {
            Some(command) => self.ask(Phase::PreChecking(i), Request::Run { command }),
            None => {
                let request = self.read_config();
                self.ask(Phase::PreCheckReading, request)
            },
        }
    }

    fn check(self, i: usize) -> (r: (DdnsUpdateService, UpdateStep))
        ensures
            (r.0@, r.1@) == self@.check(i as int),
    {
        match nth_syntax_check(self.config.server_type.dialect(), self.config.path.as_str(), i) {
            Some(command) => self.ask(Phase::Checking(i), Request::Run { command }),
            None => {
                let request = self.read_config();
                self.ask(Phase::CheckReading, request)
            },
        }
    }

    fn succeed(self) -> (r: (DdnsUpdateService, UpdateStep))
        ensures
            (r.0@, r.1@) == self@.succeed(),
    {
        if self.standalone {
            let request = self.store_ip();
            self.ask(Phase::Persisting, request)
        } else {
            let outcome = self.updated();
            self.finish(Ok(outcome))
        }
    }

    fn reload(self, i: usize) -> (r: (DdnsUpdateService, UpdateStep))
        ensures
            (r.0@, r.1@) == self@.reload(i as int),
    {
        match nth_reload_command(self.config.server_type.dialect(), i) {
            Some(command) => self.ask(Phase::Reloading(i), Request::Run { command }),
            None => if self.reload_mandatory {
                self.finish(Err(UpdateError::reload_failed()))
            } else {
                self.succeed()
            },
        }
    }

    fn checked(self) -> (r: (DdnsUpdateService, UpdateStep))
        ensures
            (r.0@, r.1@) == self@.checked(),
    {
        if self.no_reload {
            self.succeed()
        } else {
            self.reload(0)
        }
    }

    fn prechecked(self) -> (r: (DdnsUpdateService, UpdateStep))
        ensures
            (r.0@, r.1@) == self@.prechecked(),
    {
        let request = Request::ResolveHostname { hostname: self.hostname.clone() };
        self.ask(Phase::Resolving, request)
    }

    fn gone(self) -> (r: (DdnsUpdateService, UpdateStep))
        ensures
            (r.0@, r.1@) == self@.gone(),
    {
        let e = UpdateError::not_found(self.config.path.as_str());
        self.finish(Err(e))
    }

    fn decide(self, doc: &str) -> (r: (DdnsUpdateService, UpdateStep))
        ensures
            (r.0@, r.1@) == self@.decide(doc@) || (self@.dialect() == Dialect::Apache
                && !patterns_compile() && pattern_rejected(r.0@, r.1@)),
    {
        proof {
            use_type_invariant(&self);
        }
        if self.stored_ip.is_none() {
            return self.no_change();
        }
        if !is_address_token(self.current_ip.as_str()) {
            let e = UpdateError::invalid_address(self.current_ip.as_str());
            return self.finish(Err(e));
        }
        let edit = mutate(
            self.config.server_type.dialect(),
            doc,
            self.hostname.as_str(),
            as_text(&self.stored_ip),
            self.current_ip.as_str(),
        );
        match edit {
            Ok((content, true)) => {
                let request = Request::CreateBackup {
                    path: self.config.path.clone(),
                    backup_dir: copy_opt(&self.config.backup_path),
                };
                DdnsUpdateService { content, ..self }.ask(Phase::BackingUp, request)
            },
            Ok((_, false)) => self.no_change(),
            Err(e) => self.rejected(e),
        }
    }

    fn judge(self, doc: &str, before_edit: bool) -> (r: (DdnsUpdateService, UpdateStep))
        ensures
            (r.0@, r.1@) == (if structure_ok(self@.dialect(), doc@) {
                if before_edit {
                    self@.prechecked()
                } else {
                    self@.checked()
                }
            } else {
                self@.finish(
                    Err(
                        if before_edit {
                            UpdateErrorView::invalid_config()
                        } else {
                            UpdateErrorView::config_test_failed()
                        },
                    ),
                )
            }) || (self@.dialect() == Dialect::Apache && !patterns_compile() && pattern_rejected(
                r.0@,
                r.1@,
            )),
    {
        match validate_structure(self.config.server_type.dialect(), doc) {
            Ok(true) => if before_edit {
                self.prechecked()
            } else {
                self.checked()
            },
            Ok(false) => if before_edit {
                self.finish(Err(UpdateError::invalid_config()))
            } else {
                self.finish(Err(UpdateError::config_test_failed()))
            },
            Err(e) => self.rejected(e),
        }
    }

    /// Takes the answer to the step that was asked for and gives the next
    /// step, or the outcome.
    ///
    /// What comes back is what `run_step` says: always for a target of the
    /// nginx family, and for a target of the Apache family wherever the three
    /// patterns that find its blocks compile. Where one of them does not, a
    /// step that has to read a document of the Apache family may end the run
    /// with an error of the kind `PatternRejected` instead, and no other step
    /// may.
    pub fn step(self, answer: Answer) -> (r: (DdnsUpdateService, UpdateStep))
        ensures
            (r.0@, r.1@) == run_step(self@, answer@) || rejected_step(
                self@,
                answer@,
                r.0@,
                r.1@,
            ),
            self@.dialect() == Dialect::Nginx || patterns_compile() ==> (r.0@, r.1@) == run_step(
                self@,
                answer@,
            ),
    {
        proof {
            use_type_invariant(&self);
        }
        match self.phase {
            Phase::PreChecking(i) => match answer {
                Answer::Exited(true) => self.prechecked(),
                Answer::Exited(false) => self.finish(Err(UpdateError::invalid_config())),
                Answer::Unavailable => self.precheck(i + 1),
                _ => self.unexpected(),
            },
            Phase::PreCheckReading => match answer {
                Answer::Content(doc) => self.judge(doc.as_str(), true),
                Answer::Missing => self.finish(Err(UpdateError::invalid_config())),
                Answer::Failed(detail) => self.fail(ErrorKind::MutationIoError, detail),
                _ => self.unexpected(),
            },
            Phase::Resolving => match answer {
                Answer::Resolved(addresses) => if addresses.len() == 0 {
                    let e = UpdateError::resolution_failed(self.hostname.as_str());
                    self.finish(Err(e))
                } else {
                    let request = Request::LoadIp { hostname: self.hostname.clone() };
                    let current_ip = addresses[0].clone();
                    DdnsUpdateService { current_ip, ..self }.ask(Phase::Loading, request)
                },
                Answer::Failed(detail) => self.fail(ErrorKind::ResolutionFailed, detail),
                _ => self.unexpected(),
            },
            Phase::Loading => match answer {
                Answer::Loaded(None) => {
                    let request = self.store_ip();
                    self.ask(Phase::Baseline, request)
                },
                Answer::Loaded(Some(stored)) => if str_eq(
                    stored.as_str(),
                    self.current_ip.as_str(),
                ) {
                    self.no_change()
                } else {
                    let request = self.read_config();
                    DdnsUpdateService { stored_ip: Some(stored), ..self }.ask(
                        Phase::Reading,
                        request,
                    )
                },
                Answer::Failed(detail) => self.fail(ErrorKind::StateIoError, detail),
                _ => self.unexpected(),
            },
            Phase::Baseline => match answer {
                Answer::Done => {
                    let request = self.read_config();
                    self.ask(Phase::BaselineCheck, request)
                },
                Answer::Failed(detail) => self.fail(ErrorKind::StateIoError, detail),
                _ => self.unexpected(),
            },
            Phase::BaselineCheck => match answer {
                Answer::Content(_) => self.no_change(),
                Answer::Missing => self.gone(),
                Answer::Failed(detail) => self.fail(ErrorKind::MutationIoError, detail),
                _ => self.unexpected(),
            },
            Phase::Reading => match answer {
                Answer::Content(doc) => self.decide(doc.as_str()),
                Answer::Missing => self.gone(),
                Answer::Failed(detail) => self.fail(ErrorKind::MutationIoError, detail),
                _ => self.unexpected(),
            },
            Phase::BackingUp => match answer {
                Answer::BackedUp(backup_path) => {
                    let request = Request::WriteConfig {
                        path: self.config.path.clone(),
                        content: self.content.clone(),
                    };
                    DdnsUpdateService { backup_path, ..self }.ask(Phase::Writing, request)
                },
                Answer::Failed(detail) => self.fail(ErrorKind::MutationIoError, detail),
                _ => self.unexpected(),
            },
            Phase::Writing => match answer {
                Answer::Done => self.check(0),
                Answer::Failed(detail) => self.fail(ErrorKind::MutationIoError, detail),
                _ => self.unexpected(),
            },
            Phase::Checking(i) => match answer {
                Answer::Exited(true) => self.checked(),
                Answer::Exited(false) => self.finish(Err(UpdateError::config_test_failed())),
                Answer::Unavailable => self.check(i + 1),
                _ => self.unexpected(),
            },
            Phase::CheckReading => match answer {
                Answer::Content(doc) => self.judge(doc.as_str(), false),
                Answer::Missing => self.finish(Err(UpdateError::config_test_failed())),
                Answer::Failed(detail) => self.fail(ErrorKind::MutationIoError, detail),
                _ => self.unexpected(),
            },
            Phase::Reloading(i) => match answer {
                Answer::Exited(true) => self.succeed(),
                Answer::Exited(false) => self.reload(i + 1),
                Answer::Unavailable => self.reload(i + 1),
                Answer::Failed(_) => self.reload(i + 1),
                _ => self.unexpected(),
            },
            Phase::Persisting => match answer {
                Answer::Done => {
                    let request = Request::NotifyIpChange {
                        hostname: self.hostname.clone(),
                        old_ip: copy_opt(&self.stored_ip),
                        new_ip: self.current_ip.clone(),
                    };
                    self.ask(Phase::Notifying, request)
                },
                Answer::Failed(detail) => self.fail(ErrorKind::StateIoError, detail),
                _ => self.unexpected(),
            },
            Phase::Notifying => match answer {
                Answer::Done => {
                    let outcome = self.updated();
                    self.finish(Ok(outcome))
                },
                Answer::Failed(detail) => self.fail(ErrorKind::NotificationFailed, detail),
                _ => self.unexpected(),
            },
            Phase::Finished => self.unexpected(),
        }
    }
}

impl UpdateError {
    /// No command reloaded the server.
    pub fn reload_failed() -> (e: UpdateError)
        ensures
            e@ == UpdateErrorView::reload_failed(),
    {
        UpdateError {
            kind: ErrorKind::ReloadFailed,
            message: "Failed to reload the web server".to_owned(),
        }
    }
}

} // verus!
