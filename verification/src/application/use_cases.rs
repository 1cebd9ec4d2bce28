//! The run over many targets that share one change of address.
//!
//! The hostname is resolved once and the address record is read once. Where
//! the address has not changed, every target is reported unchanged and no
//! file is touched. Where the hostname has no record yet, the record is
//! written and every target is only looked at. Otherwise each target is run
//! on its own; a target that fails is recorded with its message and the next
//! one is taken up. The address record is written, and the change announced,
//! once at the end, where a target was in fact edited.
//!
//! The targets come with their families, or they are given by their paths
//! alone. The family of such a target is told by its path and its content
//! when its document is first read, which is when the target is taken up: no
//! document is read before its turn.

use crate::domain::entities::{
    copy_opt, opt_text, result_views, target_views, ErrorKind, UpdateError, UpdateErrorView,
    UpdateResult, UpdateResultView, ValidationResult, WebServerConfig, WebServerConfigView,
    WebServerType,
};
use crate::domain::ports::{
    outcome_view, Answer, AnswerView, Request, RequestView, UpdateStep, UpdateStepView,
};
use crate::domain::services::{batch_start, run_step, DdnsUpdateService, Phase, UpdateRun};
use crate::infrastructure::config_discovery::{family_of, FileSystemConfigDiscovery};
use crate::infrastructure::webservers::apache::patterns_compile;
use crate::infrastructure::webservers::commands::string_views;
use crate::infrastructure::webservers::rules::{str_view, Dialect};
use crate::text::{lowercase, str_eq};
use vstd::prelude::*;

verus! {

/// What a run over many targets did: the outcomes of the targets that ended
/// well, and for each target that failed its path and the message.
#[derive(Debug)]
pub struct MultiConfigResult {
    pub successes: Vec<UpdateResult>,
    pub errors: Vec<(String, String)>,
}

/// The result of a run over many targets as a mathematical value.
pub struct MultiConfigResultView {
    pub successes: Seq<UpdateResultView>,
    pub errors: Seq<(Seq<char>, Seq<char>)>,
}

/// The texts of a sequence of pairs of strings.
pub open spec fn error_views(errors: Seq<(String, String)>) -> Seq<(Seq<char>, Seq<char>)> {
    Seq::new(errors.len(), |i: int| (errors[i].0@, errors[i].1@))
}

impl View for MultiConfigResult {
    type V = MultiConfigResultView;

    open spec fn view(&self) -> MultiConfigResultView {
        MultiConfigResultView {
            successes: result_views(self.successes@),
            errors: error_views(self.errors@),
        }
    }
}

impl MultiConfigResult {
    /// Whether a target failed.
    pub fn has_errors(&self) -> (b: bool)
        ensures
            b == (self@.errors.len() > 0),
    {
        self.errors.len() > 0
    }

    /// How many targets were attempted, where the count fits.
    pub fn total_processed(&self) -> (n: usize)
        ensures
            self@.successes.len() + self@.errors.len() <= usize::MAX ==> n == self@.successes.len()
                + self@.errors.len(),
            self@.successes.len() + self@.errors.len() > usize::MAX ==> n == usize::MAX,
    {
        self.successes.len().saturating_add(self.errors.len())
    }
}

/// The discovery and validation of configurations.
#[derive(Debug, Clone, Copy)]
pub struct ConfigValidationUseCase {
    config_discovery: FileSystemConfigDiscovery,
}

impl ConfigValidationUseCase {
    /// The use case on the given discovery.
    pub fn new(config_discovery: FileSystemConfigDiscovery) -> ConfigValidationUseCase {
        ConfigValidationUseCase { config_discovery }
    }

    /// The target for a document that was found: its family is told by its
    /// path and its content.
    pub fn discover_config(&self, path: &str, content: &str) -> (config: WebServerConfig)
        ensures
            config.path@ == path@,
            config.server_type == family_of(lowercase(path@), lowercase(content@)),
            config.backup_path is None,
    {
        let server_type = self.config_discovery.detect_server_type_from_content(path, content);
        WebServerConfig::new(path.to_owned(), server_type)
    }

    /// The entries for a list of configurations, given how the validation of
    /// each ended: one entry for each configuration, in order. What is left
    /// over of the longer list is dropped.
    pub fn validate_configs(
        &self,
        configs: &Vec<WebServerConfig>,
        outcomes: Vec<Result<bool, String>>,
    ) -> (results: Vec<ValidationResult>)
        ensures
            results@.len() == (if configs@.len() <= outcomes@.len() {
                configs@.len()
            } else {
                outcomes@.len()
            }),
            forall|i: int|
                0 <= i < results@.len() ==> (#[trigger] results@[i]).config_path@
                    == configs@[i].path@ && match outcomes@[i] {
                    Ok(valid) => results@[i].valid == valid && results@[i].error is None,
                    Err(message) => !results@[i].valid && results@[i].error == Some(message),
                },
    {
        let mut results: Vec<ValidationResult> = Vec::new();
        let mut outcomes = outcomes;
        let ghost all = outcomes@;
        let mut i: usize = 0;
        let n = if configs.len() <= outcomes.len() {
            configs.len()
        } else {
            outcomes.len()
        };
        while i < n
            invariant
                i <= n,
                n <= configs@.len(),
                n <= all.len(),
                outcomes@.len() == all.len(),
                results@.len() == i,
                forall|j: int| i <= j < all.len() ==> outcomes@[j] == all[j],
                forall|j: int|
                    0 <= j < i ==> (#[trigger] results@[j]).config_path@ == configs@[j].path@
                        && match all[j] {
                        Ok(valid) => results@[j].valid == valid && results@[j].error is None,
                        Err(message) => !results@[j].valid && results@[j].error == Some(message),
                    },
            decreases n - i,
        {
            let mut outcome: Result<bool, String> = Ok(false);
            std::mem::swap(&mut outcome, &mut outcomes[i]);
            results.push(ValidationResult::from_outcome(configs[i].path.clone(), outcome));
            i += 1;
        }
        results
    }
}

/// What a run over many targets does next: it asks for a step, or it ends.
#[derive(Debug)]
pub enum BatchStep {
    Ask(Request),
    Finish(MultiConfigResult),
}

/// The next move of a run over many targets, as a mathematical value.
pub enum BatchStepView {
    Ask(RequestView),
    Finish(MultiConfigResultView),
}

impl View for BatchStep {
    type V = BatchStepView;

    open spec fn view(&self) -> BatchStepView {
        match *self {
            BatchStep::Ask(request) => BatchStepView::Ask(request@),
            BatchStep::Finish(result) => BatchStepView::Finish(result@),
        }
    }
}

/// Where a run over many targets stands.
#[derive(Clone, Copy, Debug, PartialEq, Eq, Structural)]
pub enum BatchPhase {
    /// The addresses of the hostname.
    Resolving,
    /// The address record.
    Loading,
    /// The write of the first address record of the hostname.
    Baseline,
    /// The run on one of the targets.
    Processing,
    /// The write of the address record.
    Persisting,
    /// The announcement of the change.
    Notifying,
    /// The run has ended and has handed its result over.
    Finished,
}

/// A run over many targets.
#[derive(Debug)]
pub struct DdnsApplication {
    hostname: String,
    configs: Vec<WebServerConfig>,
    detect: bool,
    no_reload: bool,
    reload_mandatory: bool,
    phase: BatchPhase,
    stored_ip: Option<String>,
    current_ip: String,
    index: usize,
    successes: Vec<UpdateResult>,
    errors: Vec<(String, String)>,
    any_updated: bool,
    run: Option<DdnsUpdateService>,
}

/// A run over many targets as a mathematical value.
pub struct BatchRun {
    /// The hostname whose address is followed.
    pub hostname: Seq<char>,
    /// The targets, in the order in which they are taken up.
    pub configs: Seq<WebServerConfigView>,
    /// The targets were given by their paths alone: the family of each is
    /// told by its document when it is first read.
    pub detect: bool,
    /// The server is not reloaded after an edit.
    pub no_reload: bool,
    /// A reload that fails makes its target fail.
    pub reload_mandatory: bool,
    /// The step whose answer is waited for.
    pub phase: BatchPhase,
    /// The address in the record, once it is known.
    pub stored_ip: Option<Seq<char>>,
    /// The address of the hostname, once it is known.
    pub current_ip: Seq<char>,
    /// How many targets have been attempted.
    pub index: int,
    /// The outcomes of the targets that ended well.
    pub successes: Seq<UpdateResultView>,
    /// The path and the message of each target that failed.
    pub errors: Seq<(Seq<char>, Seq<char>)>,
    /// Some target was edited.
    pub any_updated: bool,
    /// The run on the target that is being attempted.
    pub run: Option<UpdateRun>,
}

impl BatchRun {
    /// What the run has to report.
    pub open spec fn result(self) -> MultiConfigResultView {
        MultiConfigResultView { successes: self.successes, errors: self.errors }
    }

    /// The run ends and hands its result over.
    pub open spec fn finish(self) -> (BatchRun, BatchStepView) {
        (
            BatchRun {
                phase: BatchPhase::Finished,
                successes: Seq::empty(),
                errors: Seq::empty(),
                run: None,
                ..self
            },
            BatchStepView::Finish(self.result()),
        )
    }

    /// The run ends before any target was taken up: every target is
    /// recorded as failed, with the same message.
    pub open spec fn fail_all(self, message: Seq<char>) -> (BatchRun, BatchStepView) {
        BatchRun {
            index: self.configs.len() as int,
            successes: Seq::empty(),
            errors: Seq::new(self.configs.len(), |i: int| (self.configs[i].path, message)),
            ..self
        }.finish()
    }

    /// The address has not changed: every target is reported unchanged, and
    /// none is touched.
    pub open spec fn all_unchanged(self) -> (BatchRun, BatchStepView) {
        BatchRun {
            index: self.configs.len() as int,
            successes: Seq::new(
                self.configs.len(),
                |i: int| UpdateResultView::NoChange { ip: self.current_ip },
            ),
            errors: Seq::empty(),
            ..self
        }.finish()
    }

    /// The outcome of the target that was attempted is recorded: a success
    /// with the successes, a failure with the path of the target and its
    /// message.
    pub open spec fn record(self, outcome: Result<UpdateResultView, UpdateErrorView>) -> BatchRun {
        match outcome {
            Ok(r) => BatchRun {
                index: self.index + 1,
                successes: self.successes.push(r),
                any_updated: self.any_updated || r is Updated,
                run: None,
                ..self
            },
            Err(e) => BatchRun {
                index: self.index + 1,
                errors: self.errors.push((self.configs[self.index].path, e.message)),
                run: None,
                ..self
            },
        }
    }

    /// The next target is taken up; after the last one the run is wound up.
    pub open spec fn begin(self) -> (BatchRun, BatchStepView) {
        if 0 <= self.index < self.configs.len() {
            let start = batch_start(
                self.hostname,
                self.configs[self.index],
                self.stored_ip,
                self.current_ip,
                self.no_reload,
                self.reload_mandatory,
            );
            (
                BatchRun { phase: BatchPhase::Processing, run: Some(start.0), ..self },
                BatchStepView::Ask(start.0.read_config()),
            )
        } else {
            self.wind_up()
        }
    }

    /// After the last target: where some target was edited the address
    /// record is written, else the run ends.
    pub open spec fn wind_up(self) -> (BatchRun, BatchStepView) {
        if self.any_updated {
            (
                BatchRun { phase: BatchPhase::Persisting, run: None, ..self },
                BatchStepView::Ask(
                    RequestView::StoreIp { hostname: self.hostname, ip: self.current_ip },
                ),
            )
        } else {
            self.finish()
        }
    }
}

/// The targets at `paths`, whose backups go to `backup_dir` where one is
/// given, before the family of any is known: it stands as nginx until the
/// document of the target is read.
pub open spec fn targets_at(paths: Seq<Seq<char>>, backup_dir: Option<Seq<char>>) -> Seq<
    WebServerConfigView,
> {
    Seq::new(
        paths.len(),
        |i: int|
            WebServerConfigView {
                path: paths[i],
                server_type: WebServerType::Nginx,
                backup_path: backup_dir,
            },
    )
}

/// The run on a target as it takes the answer `a`. Where the targets came
/// with their families (`detect` is false), it is the run as it stands. Where
/// they were given by their paths alone, and the run waits for its first look
/// at the document, and the document is there, the path and the content tell
/// the family of the target.
pub open spec fn settled(detect: bool, run: UpdateRun, a: AnswerView) -> UpdateRun {
    match a {
        AnswerView::Content(doc) => if detect {
            run.settle(family_of(lowercase(run.config.path), lowercase(doc)))
        } else {
            run
        },
        _ => run,
    }
}

/// The transition of the run on one target of a batch: the family of the
/// target is settled, where the first document that is read has to tell it,
/// and the run takes its step.
pub open spec fn target_step(detect: bool, run: UpdateRun, a: AnswerView) -> (
    UpdateRun,
    UpdateStepView,
) {
    run_step(settled(detect, run, a), a)
}

/// The state in which a run over many targets begins, and its first request:
/// the addresses of the hostname.
pub open spec fn multiple_start(
    hostname: Seq<char>,
    configs: Seq<WebServerConfigView>,
    detect: bool,
    no_reload: bool,
    reload_mandatory: bool,
) -> (BatchRun, BatchStepView) {
    (
        BatchRun {
            hostname,
            configs,
            detect,
            no_reload,
            reload_mandatory,
            phase: BatchPhase::Resolving,
            stored_ip: None,
            current_ip: Seq::empty(),
            index: 0,
            successes: Seq::empty(),
            errors: Seq::empty(),
            any_updated: false,
            run: None,
        },
        BatchStepView::Ask(RequestView::ResolveHostname { hostname }),
    )
}

/// The transition of a run over many targets.
///
/// Where the hostname has no record yet, the record is written first, and
/// the run on each target then only looks at its document: no target is
/// edited. Where that first write fails, every target is recorded as failed.
///
/// Where the targets were given by their paths alone, the first document
/// that is read of a target tells its family, before the run on the target
/// looks at it. A document that cannot be read tells nothing, and the run on
/// the target ends with the failure.
///
/// A failure to write the address record or to announce the change, at the
/// end, changes nothing in the result: the outside may log it.
pub open spec fn batch_step(s: BatchRun, a: AnswerView) -> (BatchRun, BatchStepView) {
    match s.phase {
        BatchPhase::Resolving => match a {
            AnswerView::Resolved(addresses) => if addresses.len() == 0 {
                s.fail_all(UpdateErrorView::resolution_failed(s.hostname).message)
            } else {
                (
                    BatchRun { phase: BatchPhase::Loading, current_ip: addresses[0], ..s },
                    BatchStepView::Ask(RequestView::LoadIp { hostname: s.hostname }),
                )
            },
            AnswerView::Failed(detail) => s.fail_all(detail),
            _ => s.fail_all(UpdateErrorView::unexpected().message),
        },
        BatchPhase::Loading => match a {
            AnswerView::Loaded(None) => (
                BatchRun { phase: BatchPhase::Baseline, stored_ip: None, ..s },
                BatchStepView::Ask(
                    RequestView::StoreIp { hostname: s.hostname, ip: s.current_ip },
                ),
            ),
            AnswerView::Loaded(Some(stored)) => if stored == s.current_ip {
                s.all_unchanged()
            } else {
                BatchRun { stored_ip: Some(stored), ..s }.begin()
            },
            AnswerView::Failed(detail) => s.fail_all(UpdateErrorView::load_failed(detail).message),
            _ => s.fail_all(UpdateErrorView::unexpected().message),
        },
        BatchPhase::Baseline => match a {
            AnswerView::Done => s.begin(),
            AnswerView::Failed(detail) => s.fail_all(detail),
            _ => s.fail_all(UpdateErrorView::unexpected().message),
        },
        BatchPhase::Processing => match s.run {
            Some(run) => {
                let next = target_step(s.detect, run, a);
                match next.1 {
                    UpdateStepView::Ask(request) => (
                        BatchRun { run: Some(next.0), ..s },
                        BatchStepView::Ask(request),
                    ),
                    UpdateStepView::Finish(outcome) => s.record(outcome).begin(),
                }
            },
            None => s.finish(),
        },
        BatchPhase::Persisting => (
            BatchRun { phase: BatchPhase::Notifying, ..s },
            BatchStepView::Ask(
                RequestView::NotifyIpChange {
                    hostname: s.hostname,
                    old_ip: s.stored_ip,
                    new_ip: s.current_ip,
                },
            ),
        ),
        BatchPhase::Notifying => s.finish(),
        BatchPhase::Finished => s.finish(),
    }
}

/// The text of an optional string, borrowed.
fn as_text(o: &Option<String>) -> (r: Option<&str>)
    ensures
        str_view(r) == opt_text(*o),
{
    match o {
        Some(s) => Some(s.as_str()),
        None => None,
    }
}

/// The view of the run on the target that is being attempted.
pub open spec fn run_view(run: Option<DdnsUpdateService>) -> Option<UpdateRun> {
    match run {
        Some(r) => Some(r@),
        None => None,
    }
}

impl View for DdnsApplication {
    type V = BatchRun;

    closed spec fn view(&self) -> BatchRun {
        BatchRun {
            hostname: self.hostname@,
            configs: target_views(self.configs@),
            detect: self.detect,
            no_reload: self.no_reload,
            reload_mandatory: self.reload_mandatory,
            phase: self.phase,
            stored_ip: opt_text(self.stored_ip),
            current_ip: self.current_ip@,
            index: self.index as int,
            successes: result_views(self.successes@),
            errors: error_views(self.errors@),
            any_updated: self.any_updated,
            run: run_view(self.run),
        }
    }
}

/// The target in hand is of the Apache family and the step has to read a
/// document of it.
pub open spec fn reads_apache(s: BatchRun, a: AnswerView) -> bool {
    &&& s.phase == BatchPhase::Processing
    &&& a is Content
    &&& s.run matches Some(run)
    &&& settled(s.detect, run, a).dialect() == Dialect::Apache
    &&& run.phase == Phase::PreCheckReading || run.phase == Phase::Reading || run.phase
        == Phase::CheckReading
}

/// The one case in which a step may differ from `batch_step`: the target in
/// hand is of the Apache family, one of the patterns that find its blocks
/// does not compile, the step has to read a document of it, and the run on
/// the target ends with the error of that pattern, which is recorded as any
/// other failure.
pub open spec fn recorded_rejection(
    s: BatchRun,
    a: AnswerView,
    after: (BatchRun, BatchStepView),
) -> bool {
    &&& reads_apache(s, a)
    &&& !patterns_compile()
    &&& exists|e: UpdateErrorView|
        e.kind == ErrorKind::PatternRejected && after == #[trigger] s.record(Err(e)).begin()
}

impl DdnsApplication {
    #[verifier::type_invariant]
    spec fn well_formed(self) -> bool {
        &&& self.index <= self.configs.len()
        &&& self.phase == BatchPhase::Processing ==> self.index < self.configs.len()
            && self.run is Some
    }

    /// A run over the targets `targets`, for `hostname`: each comes with its
    /// family and with the directory for its backups. The first request is
    /// for the addresses of the hostname.
    pub fn update_ddns_targets(
        hostname: &str,
        targets: Vec<WebServerConfig>,
        no_reload: bool,
        reload_mandatory: bool,
    ) -> (r: (DdnsApplication, Request))
        ensures
            (r.0@, BatchStepView::Ask(r.1@)) == multiple_start(
                hostname@,
                target_views(targets@),
                false,
                no_reload,
                reload_mandatory,
            ),
    {
        DdnsApplication::begin_with(hostname, targets, false, no_reload, reload_mandatory)
    }

    /// A run over the documents at `config_paths`, for `hostname`, with
    /// backups in `backup_dir` where one is given. The first request is for
    /// the addresses of the hostname. No document is read before its turn
    /// has come: its family is told when it is first read.
    pub fn update_ddns_multiple(
        hostname: &str,
        config_paths: Vec<String>,
        backup_dir: Option<String>,
        no_reload: bool,
        reload_mandatory: bool,
    ) -> (r: (DdnsApplication, Request))
        ensures
            (r.0@, BatchStepView::Ask(r.1@)) == multiple_start(
                hostname@,
                targets_at(string_views(config_paths@), opt_text(backup_dir)),
                true,
                no_reload,
                reload_mandatory,
            ),
    {
        let mut configs: Vec<WebServerConfig> = Vec::new();
        let mut i: usize = 0;
        while i < config_paths.len()
            invariant
                i <= config_paths.len(),
                configs.len() == i,
                forall|j: int|
                    0 <= j < i ==> (#[trigger] configs@[j])@ == targets_at(
                        string_views(config_paths@),
                        opt_text(backup_dir),
                    )[j],
            decreases config_paths.len() - i,
        {
            configs.push(
                WebServerConfig {
                    path: config_paths[i].clone(),
                    server_type: WebServerType::Nginx,
                    backup_path: copy_opt(&backup_dir),
                },
            );
            i += 1;
        }
        proof {
            assert(target_views(configs@) =~= targets_at(
                string_views(config_paths@),
                opt_text(backup_dir),
            ));
        }
        DdnsApplication::begin_with(hostname, configs, true, no_reload, reload_mandatory)
    }

    fn begin_with(
        hostname: &str,
        configs: Vec<WebServerConfig>,
        detect: bool,
        no_reload: bool,
        reload_mandatory: bool,
    ) -> (r: (DdnsApplication, Request))
        ensures
            (r.0@, BatchStepView::Ask(r.1@)) == multiple_start(
                hostname@,
                target_views(configs@),
                detect,
                no_reload,
                reload_mandatory,
            ),
    {
        let run = DdnsApplication {
            hostname: hostname.to_owned(),
            configs,
            detect,
            no_reload,
            reload_mandatory,
            phase: BatchPhase::Resolving,
            stored_ip: None,
            current_ip: String::new(),
            index: 0,
            successes: Vec::new(),
            errors: Vec::new(),
            any_updated: false,
            run: None,
        };
        proof {
            assert(result_views(run.successes@) =~= Seq::empty());
            assert(error_views(run.errors@) =~= Seq::empty());
        }
        (run, Request::ResolveHostname { hostname: hostname.to_owned() })
    }

    /// Whether the run has ended.
    pub fn is_finished(&self) -> (b: bool)
        ensures
            b == (self@.phase == BatchPhase::Finished),
    {
        self.phase == BatchPhase::Finished
    }

    fn finish(self) -> (r: (DdnsApplication, BatchStep))
        ensures
            (r.0@, r.1@) == self@.finish(),
    {
        proof {
            use_type_invariant(&self);
        }
        let DdnsApplication {
            hostname,
            configs,
            detect,
            no_reload,
            reload_mandatory,
            phase: _,
            stored_ip,
            current_ip,
            index,
            successes,
            errors,
            any_updated,
            run: _,
        } = self;
        let result = MultiConfigResult { successes, errors };
        let after = DdnsApplication {
            hostname,
            configs,
            detect,
            no_reload,
            reload_mandatory,
            phase: BatchPhase::Finished,
            stored_ip,
            current_ip,
            index,
            successes: Vec::new(),
            errors: Vec::new(),
            any_updated,
            run: None,
        };
        proof {
            assert(result_views(after.successes@) =~= Seq::empty());
            assert(error_views(after.errors@) =~= Seq::empty());
        }
        (after, BatchStep::Finish(result))
    }

    fn fail_all(self, message: &str) -> (r: (DdnsApplication, BatchStep))
        ensures
            (r.0@, r.1@) == self@.fail_all(message@),
    {
        proof {
            use_type_invariant(&self);
        }
        let mut errors: Vec<(String, String)> = Vec::new();
        let mut i: usize = 0;
        while i < self.configs.len()
            invariant
                i <= self.configs.len(),
                errors.len() == i,
                forall|j: int|
                    0 <= j < i ==> (#[trigger] errors@[j]).0@ == self.configs@[j].path@
                        && errors@[j].1@ == message@,
            decreases self.configs.len() - i,
        {
            errors.push((self.configs[i].path.clone(), message.to_owned()));
            i += 1;
        }
        let n = self.configs.len();
        let ghost before = self@;
        let after = DdnsApplication {
            index: n,
            successes: Vec::new(),
            errors,
            phase: BatchPhase::Finished,
            run: None,
            ..self
        };
        proof {
            assert(result_views(after.successes@) =~= Seq::empty());
            assert(error_views(after.errors@) =~= Seq::new(
                before.configs.len(),
                |i: int| (before.configs[i].path, message@),
            ));
        }
        after.finish()
    }

    fn all_unchanged(self) -> (r: (DdnsApplication, BatchStep))
        ensures
            (r.0@, r.1@) == self@.all_unchanged(),
    {
        proof {
            use_type_invariant(&self);
        }
        let mut successes: Vec<UpdateResult> = Vec::new();
        let mut i: usize = 0;
        while i < self.configs.len()
            invariant
                i <= self.configs.len(),
                successes.len() == i,
                forall|j: int|
                    0 <= j < i ==> (#[trigger] successes@[j])@ == (UpdateResultView::NoChange {
                        ip: self.current_ip@,
                    }),
            decreases self.configs.len() - i,
        {
            successes.push(UpdateResult::NoChange { ip: self.current_ip.clone() });
            i += 1;
        }
        let n = self.configs.len();
        let ghost before = self@;
        let after = DdnsApplication {
            index: n,
            successes,
            errors: Vec::new(),
            phase: BatchPhase::Finished,
            run: None,
            ..self
        };
        proof {
            assert(error_views(after.errors@) =~= Seq::empty());
            assert(result_views(after.successes@) =~= Seq::new(
                before.configs.len(),
                |i: int| UpdateResultView::NoChange { ip: before.current_ip },
            ));
        }
        after.finish()
    }

    fn begin(self) -> (r: (DdnsApplication, BatchStep))
        requires
            self.phase != BatchPhase::Processing,
        ensures
            (r.0@, r.1@) == self@.begin(),
    {
        proof {
            use_type_invariant(&self);
        }
        if self.index < self.configs.len() {
            let (run, request) = DdnsUpdateService::update_file_only(
                &self.configs[self.index],
                self.hostname.as_str(),
                as_text(&self.stored_ip),
                self.current_ip.as_str(),
                self.no_reload,
                self.reload_mandatory,
            );
            (
                DdnsApplication { phase: BatchPhase::Processing, run: Some(run), ..self },
                BatchStep::Ask(request),
            )
        } else if self.any_updated {
            let request = Request::StoreIp {
                hostname: self.hostname.clone(),
                ip: self.current_ip.clone(),
            };
            (
                DdnsApplication { phase: BatchPhase::Persisting, run: None, ..self },
                BatchStep::Ask(request),
            )
        } else {
            self.finish()
        }
    }

    fn advance(self, outcome: Result<UpdateResult, UpdateError>) -> (r: (
        DdnsApplication,
        BatchStep,
    ))
        requires
            self.phase == BatchPhase::Processing,
        ensures
            (r.0@, r.1@) == self@.record(outcome_view(outcome)).begin(),
    {
        proof {
            use_type_invariant(&self);
        }
        let ghost before = self@;
        let DdnsApplication {
            hostname,
            configs,
            detect,
            no_reload,
            reload_mandatory,
            phase: _,
            stored_ip,
            current_ip,
            index,
            mut successes,
            mut errors,
            mut any_updated,
            run: _,
        } = self;
        match outcome {
            Ok(result) => {
                match &result {
                    UpdateResult::Updated { .. } => {
                        any_updated = true;
                    },
                    UpdateResult::NoChange { .. } => {},
                }
                successes.push(result);
                proof {
                    assert(result_views(successes@) =~= before.successes.push(result@));
                }
            },
            Err(e) => {
                let entry = (configs[index].path.clone(), e.message);
                errors.push(entry);
                proof {
                    assert(error_views(errors@) =~= before.errors.push((entry.0@, entry.1@)));
                }
            },
        }
        let after = DdnsApplication {
            hostname,
            configs,
            detect,
            no_reload,
            reload_mandatory,
            phase: BatchPhase::Loading,
            stored_ip,
            current_ip,
            index: index + 1,
            successes,
            errors,
            any_updated,
            run: None,
        };
        proof {
            let recorded = before.record(outcome_view(outcome));
            assert(after@ == BatchRun { phase: BatchPhase::Loading, ..recorded });
            assert(after@.begin() == recorded.begin());
        }
        after.begin()
    }

    /// Takes the answer to the step that was asked for and gives the next
    /// step, or the result.
    ///
    /// What comes back is what `batch_step` says: always where the three
    /// patterns that find the blocks of an Apache document compile, and
    /// always where the step does not read a document of the Apache family.
    /// Where one of the patterns does not compile, a step that has to read
    /// such a document may instead end the run on that target with an error
    /// of the kind `PatternRejected`; the target is then recorded as failed
    /// and the next one is taken up.
    pub fn step(self, answer: Answer) -> (r: (DdnsApplication, BatchStep))
        ensures
            (r.0@, r.1@) == batch_step(self@, answer@) || recorded_rejection(
                self@,
                answer@,
                (r.0@, r.1@),
            ),
            patterns_compile() || !reads_apache(self@, answer@) ==> (r.0@, r.1@) == batch_step(
                self@,
                answer@,
            ),
    {
        proof {
            use_type_invariant(&self);
        }
        match self.phase {
            BatchPhase::Resolving => match answer {
                Answer::Resolved(addresses) => if addresses.len() == 0 {
                    let e = UpdateError::resolution_failed(self.hostname.as_str());
                    self.fail_all(e.message.as_str())
                } else {
                    let request = Request::LoadIp { hostname: self.hostname.clone() };
                    let current_ip = addresses[0].clone();
                    (
                        DdnsApplication { phase: BatchPhase::Loading, current_ip, ..self },
                        BatchStep::Ask(request),
                    )
                },
                Answer::Failed(detail) => self.fail_all(detail.as_str()),
                _ => {
                    let e = UpdateError::unexpected();
                    self.fail_all(e.message.as_str())
                },
            },
            BatchPhase::Loading => match answer {
                Answer::Loaded(None) => {
                    let request = Request::StoreIp {
                        hostname: self.hostname.clone(),
                        ip: self.current_ip.clone(),
                    };
                    (
                        DdnsApplication { phase: BatchPhase::Baseline, stored_ip: None, ..self },
                        BatchStep::Ask(request),
                    )
                },
                Answer::Loaded(Some(stored)) => if str_eq(
                    stored.as_str(),
                    self.current_ip.as_str(),
                ) {
                    self.all_unchanged()
                } else {
                    DdnsApplication { stored_ip: Some(stored), ..self }.begin()
                },
                Answer::Failed(detail) => {
                    let e = UpdateError::load_failed(detail.as_str());
                    self.fail_all(e.message.as_str())
                },
                _ => {
                    let e = UpdateError::unexpected();
                    self.fail_all(e.message.as_str())
                },
            },
            BatchPhase::Baseline => match answer {
                Answer::Done => self.begin(),
                Answer::Failed(detail) => self.fail_all(detail.as_str()),
                _ => {
                    let e = UpdateError::unexpected();
                    self.fail_all(e.message.as_str())
                },
            },
            BatchPhase::Processing => {
                let ghost before = self@;
                let DdnsApplication {
                    hostname,
                    configs,
                    detect,
                    no_reload,
                    reload_mandatory,
                    phase,
                    stored_ip,
                    current_ip,
                    index,
                    successes,
                    errors,
                    any_updated,
                    run,
                } = self;
                match run {
                    Some(inner) => {
                        let inner = match &answer {
                            Answer::Content(doc) => if detect && inner.awaits_document() {
                                let family =
                                    FileSystemConfigDiscovery::new().detect_server_type_from_content(
                                    inner.target_path(),
                                    doc.as_str(),
                                );
                                inner.settle(family)
                            } else {
                                inner
                            },
                            _ => inner,
                        };
                        let ghost inner_before = inner@;
                        proof {
                            assert(inner_before == settled(before.detect, before.run->0, answer@));
                        }
                        let (next, move_) = inner.step(answer);
                        match move_ {
                            UpdateStep::Ask(request) => (
                                DdnsApplication {
                                    hostname,
                                    configs,
                                    detect,
                                    no_reload,
                                    reload_mandatory,
                                    phase,
                                    stored_ip,
                                    current_ip,
                                    index,
                                    successes,
                                    errors,
                                    any_updated,
                                    run: Some(next),
                                },
                                BatchStep::Ask(request),
                            ),
                            UpdateStep::Finish(outcome) => {
                                let again = DdnsApplication {
                                    hostname,
                                    configs,
                                    detect,
                                    no_reload,
                                    reload_mandatory,
                                    phase,
                                    stored_ip,
                                    current_ip,
                                    index,
                                    successes,
                                    errors,
                                    any_updated,
                                    run: Some(next),
                                };
                                proof {
                                    let o = outcome_view(outcome);
                                    assert(again@.record(o) == before.record(o));
                                    if (next@, move_@) != run_step(inner_before, answer@) {
                                        let e = o->Err_0;
                                        assert(e.kind == ErrorKind::PatternRejected);
                                        assert(reads_apache(before, answer@));
                                    }
                                }
                                again.advance(outcome)
                            },
                        }
                    },
                    None => {
                        let gone = DdnsApplication {
                            hostname,
                            configs,
                            detect,
                            no_reload,
                            reload_mandatory,
                            phase: BatchPhase::Finished,
                            stored_ip,
                            current_ip,
                            index,
                            successes,
                            errors,
                            any_updated,
                            run: None,
                        };
                        gone.finish()
                    },
                }
            },
            BatchPhase::Persisting => {
                let request = Request::NotifyIpChange {
                    hostname: self.hostname.clone(),
                    old_ip: copy_opt(&self.stored_ip),
                    new_ip: self.current_ip.clone(),
                };
                (DdnsApplication { phase: BatchPhase::Notifying, ..self }, BatchStep::Ask(request))
            },
            BatchPhase::Notifying => self.finish(),
            BatchPhase::Finished => self.finish(),
        }
    }
}

} // verus!
