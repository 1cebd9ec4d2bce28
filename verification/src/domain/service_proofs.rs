//! What holds of every run on one target.

use crate::domain::entities::{ErrorKind, UpdateErrorView, UpdateResultView};
use crate::domain::ports::{AnswerView, RequestView, UpdateStepView};
use crate::domain::services::{run_step, Phase, UpdateRun};
use crate::infrastructure::webservers::commands::reload_command;
use crate::infrastructure::webservers::handler::{has_address, inside_of, mutation};
use crate::infrastructure::webservers::rules::{ends_token, is_token};
use crate::infrastructure::webservers::rules_proofs::{
    law_held_address_is_rewritten, lemma_mutated_lines,
};
use crate::text::lines;
use vstd::prelude::*;

verus! {

/// What a run does, step by step, on the answers that it is given.
pub open spec fn run_steps(s: UpdateRun, answers: Seq<AnswerView>) -> Seq<UpdateStepView>
    decreases answers.len(),
{
    if answers.len() == 0 {
        Seq::empty()
    } else {
        let next = run_step(s, answers[0]);
        seq![next.1] + run_steps(next.0, answers.skip(1))
    }
}

/// The step asks for nothing that changes a file or runs a command, and
/// where it ends the run it reports no change or an error.
pub open spec fn only_observes(step: UpdateStepView) -> bool {
    match step {
        UpdateStepView::Ask(request) => !request.writes_file() && !(request is Run),
        UpdateStepView::Finish(outcome) => !(outcome matches Ok(UpdateResultView::Updated { .. })),
    }
}

/// The run is on its way through a first observation, or has ended.
pub open spec fn observing(s: UpdateRun) -> bool {
    s.phase == Phase::Baseline || s.phase == Phase::BaselineCheck || s.phase == Phase::Finished
}

/// A run that is observing goes on observing, whatever it is answered.
pub proof fn lemma_observing_step(s: UpdateRun, a: AnswerView)
    requires
        observing(s),
    ensures
        observing(run_step(s, a).0),
        only_observes(run_step(s, a).1),
{
}

/// A run that is observing never asks for a write, whatever it is answered.
pub proof fn lemma_observing_steps(s: UpdateRun, answers: Seq<AnswerView>)
    requires
        observing(s),
    ensures
        run_steps(s, answers).len() == answers.len(),
        forall|i: int| 0 <= i < answers.len() ==> only_observes(#[trigger] run_steps(s, answers)[i]),
    decreases answers.len(),
{
    if answers.len() > 0 {
        let next = run_step(s, answers[0]);
        lemma_observing_step(s, answers[0]);
        lemma_observing_steps(next.0, answers.skip(1));
        assert forall|i: int| 0 <= i < answers.len() implies only_observes(
            #[trigger] run_steps(s, answers)[i],
        ) by {
            if i > 0 {
                assert(run_steps(s, answers)[i] == run_steps(next.0, answers.skip(1))[i - 1]);
            }
        }
    }
}

/// A first run only observes: where the hostname has no address record, the
/// run writes the record and from then on, whatever it is answered, asks
/// for no backup, no write and no command, and never reports an edit.
pub proof fn law_first_run_only_observes(s: UpdateRun, answers: Seq<AnswerView>)
    requires
        s.phase == Phase::Loading,
    ensures
        run_step(s, AnswerView::Loaded(None)).1 == UpdateStepView::Ask(
            RequestView::StoreIp { hostname: s.hostname, ip: s.current_ip },
        ),
        forall|i: int|
            0 <= i < answers.len() ==> only_observes(
                #[trigger] run_steps(run_step(s, AnswerView::Loaded(None)).0, answers)[i],
            ),
{
    lemma_observing_steps(run_step(s, AnswerView::Loaded(None)).0, answers);
}

/// A first run that meets no failure writes the record, reads the document
/// and ends with the address it resolved, unchanged.
pub proof fn law_first_run_reports_no_change(s: UpdateRun, doc: Seq<char>)
    requires
        s.phase == Phase::Loading,
    ensures
        run_steps(s, seq![AnswerView::Loaded(None), AnswerView::Done, AnswerView::Content(doc)])
            == seq![
            UpdateStepView::Ask(RequestView::StoreIp { hostname: s.hostname, ip: s.current_ip }),
            UpdateStepView::Ask(RequestView::ReadConfig { path: s.config.path }),
            UpdateStepView::Finish(Ok(UpdateResultView::NoChange { ip: s.current_ip })),
        ],
{
    let answers = seq![AnswerView::Loaded(None), AnswerView::Done, AnswerView::Content(doc)];
    let a = run_step(s, answers[0]);
    let b = run_step(a.0, answers[1]);
    let c = run_step(b.0, answers[2]);
    let rest1 = answers.skip(1);
    let rest2 = rest1.skip(1);
    let rest3 = rest2.skip(1);
    assert(rest1[0] == answers[1]);
    assert(rest2[0] == answers[2]);
    assert(rest3.len() == 0);
    assert(run_steps(c.0, rest3) =~= Seq::empty());
    assert(run_steps(b.0, rest2) =~= seq![c.1]);
    assert(run_steps(a.0, rest1) =~= seq![b.1, c.1]);
    assert(run_steps(s, answers) =~= seq![a.1, b.1, c.1]);
}

/// A run never writes a document with more or fewer lines than the one it
/// read: the content that it asks to be written, after the backup, has the
/// lines of the document with at most one of them rewritten.
pub proof fn law_written_document_keeps_lines(s: UpdateRun, doc: Seq<char>, backup: Seq<char>)
    requires
        s.phase == Phase::Reading,
        run_step(s, AnswerView::Content(doc)).1 is Ask,
    ensures
        ({
            let read = run_step(s, AnswerView::Content(doc));
            let backed = run_step(read.0, AnswerView::BackedUp(backup));
            &&& read.1 == UpdateStepView::Ask(
                RequestView::CreateBackup { path: s.config.path, backup_dir: s.config.backup_path },
            )
            &&& backed.1 == UpdateStepView::Ask(
                RequestView::WriteConfig { path: s.config.path, content: read.0.content },
            )
            &&& read.0.content == mutation(
                s.dialect(),
                doc,
                s.hostname,
                s.stored_ip,
                s.current_ip,
            ).0
            &&& lines(read.0.content).len() == lines(doc).len()
        }),
{
    assert(is_token(s.current_ip));
    assert(!s.current_ip.contains('\n')) by {
        if s.current_ip.contains('\n') {
            let i = choose|i: int| 0 <= i < s.current_ip.len() && s.current_ip[i] == '\n';
            assert(ends_token(s.current_ip[i]));
        }
    }
    lemma_mutated_lines(
        s.dialect(),
        doc,
        inside_of(s.dialect(), doc),
        s.hostname,
        s.stored_ip,
        s.current_ip,
    );
}

/// A target that holds no rule for the stored address is left alone: the run
/// ends without a change and asks for no backup and no write.
pub proof fn law_target_without_rule_is_untouched(s: UpdateRun, doc: Seq<char>)
    requires
        s.phase == Phase::Reading,
        s.stored_ip is Some,
        is_token(s.current_ip),
        !has_address(s.dialect(), doc, s.stored_ip->0),
    ensures
        run_step(s, AnswerView::Content(doc)) == s.no_change(),
{
    law_held_address_is_rewritten(
        s.dialect(),
        doc,
        inside_of(s.dialect(), doc),
        s.hostname,
        s.stored_ip->0,
        s.current_ip,
    );
}

/// A target that holds a rule for the stored address is edited: the run asks
/// for a backup, then for the write of the document that `mutate` makes.
pub proof fn law_target_with_rule_is_edited(s: UpdateRun, doc: Seq<char>)
    requires
        s.phase == Phase::Reading,
        s.stored_ip is Some,
        is_token(s.current_ip),
        has_address(s.dialect(), doc, s.stored_ip->0),
    ensures
        run_step(s, AnswerView::Content(doc)).1 == UpdateStepView::Ask(
            RequestView::CreateBackup { path: s.config.path, backup_dir: s.config.backup_path },
        ),
        run_step(s, AnswerView::Content(doc)).0.content == mutation(
            s.dialect(),
            doc,
            s.hostname,
            s.stored_ip,
            s.current_ip,
        ).0,
{
    law_held_address_is_rewritten(
        s.dialect(),
        doc,
        inside_of(s.dialect(), doc),
        s.hostname,
        s.stored_ip->0,
        s.current_ip,
    );
}

/// An address that cannot stand as a token in a rule is never written into a
/// document: the run ends with an error instead.
pub proof fn law_invalid_address_is_not_written(s: UpdateRun, doc: Seq<char>)
    requires
        s.phase == Phase::Reading,
        s.stored_ip is Some,
        !is_token(s.current_ip),
    ensures
        run_step(s, AnswerView::Content(doc)).1 == UpdateStepView::Finish(
            Err(UpdateErrorView::invalid_address(s.current_ip)),
        ),
{
}

/// A reload that fails is fatal where the reload is mandatory: after the
/// last command the run ends with the error `ReloadFailed`, and the address
/// record is not written.
pub proof fn law_failed_reload_is_fatal(s: UpdateRun, i: usize, a: AnswerView)
    requires
        s.phase == Phase::Reloading(i),
        s.reload_mandatory,
        reload_command(s.dialect(), i + 1) is None,
        a == AnswerView::Exited(false) || a == AnswerView::Unavailable || a is Failed,
    ensures
        run_step(s, a).1 == UpdateStepView::Finish(Err(UpdateErrorView::reload_failed())),
        UpdateErrorView::reload_failed().kind == ErrorKind::ReloadFailed,
{
}

/// A run of its own announces the change after it has written the address
/// record, and reports the edit after that.
pub proof fn law_change_is_announced(s: UpdateRun)
    requires
        s.phase == Phase::Persisting,
    ensures
        ({
            let stored = run_step(s, AnswerView::Done);
            &&& stored.1 == UpdateStepView::Ask(
                RequestView::NotifyIpChange {
                    hostname: s.hostname,
                    old_ip: s.stored_ip,
                    new_ip: s.current_ip,
                },
            )
            &&& run_step(stored.0, AnswerView::Done).1 == UpdateStepView::Finish(Ok(s.updated()))
        }),
{
}

/// A document that is not there is an invalid configuration where it was to
/// be checked.
pub proof fn law_missing_document_is_invalid(s: UpdateRun)
    ensures
        s.phase == Phase::PreCheckReading ==> run_step(s, AnswerView::Missing).1
            == UpdateStepView::Finish(Err(UpdateErrorView::invalid_config())),
        s.phase == Phase::CheckReading ==> run_step(s, AnswerView::Missing).1
            == UpdateStepView::Finish(Err(UpdateErrorView::config_test_failed())),
{
}

/// A document that fails its check makes the run fail with an error of the
/// kind `InvalidConfig`: before the edit where the check comes first, after
/// it where the edited document is checked. No reload is asked for.
pub proof fn law_failed_check_is_invalid_config(s: UpdateRun)
    ensures
        s.phase is PreChecking ==> run_step(s, AnswerView::Exited(false)).1
            == UpdateStepView::Finish(Err(UpdateErrorView::invalid_config())),
        s.phase is Checking ==> run_step(s, AnswerView::Exited(false)).1 == UpdateStepView::Finish(
            Err(UpdateErrorView::config_test_failed()),
        ),
        UpdateErrorView::invalid_config().kind == ErrorKind::InvalidConfig,
        UpdateErrorView::config_test_failed().kind == ErrorKind::InvalidConfig,
{
}

/// A checker that cannot be run is no failure: the run tries the next
/// checker or reads the document for the structure check, and does not end.
pub proof fn law_missing_checker_is_no_failure(s: UpdateRun)
    requires
        s.phase is PreChecking || s.phase is Checking,
    ensures
        run_step(s, AnswerView::Unavailable).1 matches UpdateStepView::Ask(request) && (
        request is Run || request is ReadConfig),
{
}

/// A run of its own writes the address record at two points only: as the
/// first record of a hostname that had none, and after an edit that passed
/// its check. It never writes the record while the edit is under way.
pub proof fn law_record_written_after_the_edit(s: UpdateRun, a: AnswerView)
    requires
        run_step(s, a).1 matches UpdateStepView::Ask(RequestView::StoreIp { .. }),
    ensures
        s.standalone || s.phase == Phase::Loading,
        run_step(s, a).1 == UpdateStepView::Ask(
            RequestView::StoreIp { hostname: s.hostname, ip: s.current_ip },
        ),
        (s.phase == Phase::Loading && a == AnswerView::Loaded(None)) || s.phase is Checking
            || s.phase == Phase::CheckReading || s.phase is Reloading,
{
}

/// The run belongs to a batch: it is at a step of the edit, or, where the
/// hostname has no stored address, it looks at the document and no more.
pub open spec fn in_batch(s: UpdateRun) -> bool {
    &&& !s.standalone
    &&& match s.phase {
        Phase::BaselineCheck => true,
        Phase::Reading => true,
        Phase::BackingUp => true,
        Phase::Writing => true,
        Phase::Checking(_) => true,
        Phase::CheckReading => true,
        Phase::Reloading(_) => true,
        Phase::Finished => true,
        _ => false,
    }
    &&& s.stored_ip is None ==> s.phase == Phase::BaselineCheck || s.phase == Phase::Finished
}

/// A run in a batch stays one, and asks only for steps on its target: it
/// resolves nothing, and it neither reads nor writes the address record.
/// Without a stored address it asks for nothing but the document and ends
/// with no edit.
pub proof fn lemma_in_batch_step(s: UpdateRun, a: AnswerView)
    requires
        in_batch(s),
    ensures
        in_batch(run_step(s, a).0),
        run_step(s, a).0.stored_ip == s.stored_ip,
        run_step(s, a).0.current_ip == s.current_ip,
        run_step(s, a).1 matches UpdateStepView::Ask(request) ==> request.touches_target(),
        run_step(s, a).1 is Ask ==> run_step(s, a).0.phase != Phase::Finished,
        s.stored_ip is None ==> run_step(s, a).1 is Finish,
        s.stored_ip is None ==> (run_step(s, a).1 matches UpdateStepView::Finish(Ok(outcome))
            ==> outcome == UpdateResultView::NoChange { ip: s.current_ip }),
{
}

} // verus!
