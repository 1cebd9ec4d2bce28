//! What holds of every run over many targets.

use crate::application::use_cases::{
    batch_step, multiple_start, settled, target_step, BatchPhase, BatchRun, BatchStepView,
    MultiConfigResultView,
};
use crate::domain::entities::{UpdateErrorView, UpdateResultView, WebServerConfigView};
use crate::domain::ports::{AnswerView, RequestView, UpdateStepView};
use crate::domain::service_proofs::{in_batch, lemma_in_batch_step};
use crate::domain::services::{batch_start, Phase, UpdateRun};
use crate::infrastructure::config_discovery::family_of;
use crate::text::lowercase;
use vstd::prelude::*;

verus! {

/// Where the address has not changed, the run ends at once: it has asked for
/// the addresses of the hostname and for the address record and for nothing
/// else, no file was read or written and no command was run, and every
/// target is reported unchanged, with the address that was resolved.
pub proof fn law_unchanged_address_short_circuits(
    hostname: Seq<char>,
    configs: Seq<WebServerConfigView>,
    detect: bool,
    no_reload: bool,
    reload_mandatory: bool,
    addresses: Seq<Seq<char>>,
)
    requires
        addresses.len() > 0,
    ensures
        ({
            let start = multiple_start(hostname, configs, detect, no_reload, reload_mandatory);
            let resolved = batch_step(start.0, AnswerView::Resolved(addresses));
            let loaded = batch_step(resolved.0, AnswerView::Loaded(Some(addresses[0])));
            &&& start.1 == BatchStepView::Ask(RequestView::ResolveHostname { hostname })
            &&& resolved.1 == BatchStepView::Ask(RequestView::LoadIp { hostname })
            &&& loaded.1 == BatchStepView::Finish(
                MultiConfigResultView {
                    successes: Seq::new(
                        configs.len(),
                        |i: int| UpdateResultView::NoChange { ip: addresses[0] },
                    ),
                    errors: Seq::empty(),
                },
            )
        }),
{
}

/// Where the targets were given by their paths alone, the family of a
/// target is told once, by the first document of it that is read: the path
/// tells it, or else the content. Once the run on the target has taken a
/// step, nothing that is read settles the family again. Where the targets
/// came with their families, nothing that is read changes the family.
pub proof fn law_family_is_told_once(run: UpdateRun, a: AnswerView, b: AnswerView)
    requires
        in_batch(run),
    ensures
        run.awaits_document() ==> (a matches AnswerView::Content(doc) ==> settled(
            true,
            run,
            a,
        ).config.server_type == family_of(lowercase(run.config.path), lowercase(doc))),
        !target_step(true, run, a).0.awaits_document(),
        settled(true, target_step(true, run, a).0, b) == target_step(true, run, a).0,
        settled(false, run, a) == run,
{
    lemma_in_batch_step(settled(true, run, a), a);
}

/// The order of the phases of a run.
pub open spec fn rank(phase: BatchPhase) -> int {
    match phase {
        BatchPhase::Resolving => 0,
        BatchPhase::Loading => 1,
        BatchPhase::Baseline => 2,
        BatchPhase::Processing => 3,
        BatchPhase::Persisting => 4,
        BatchPhase::Notifying => 5,
        BatchPhase::Finished => 6,
    }
}

/// What holds of every state that a run reaches: one entry has been recorded
/// for each target attempted, the targets are attempted in order, the run on
/// a target asks only for steps on that target and works with the addresses
/// of the batch, and without a stored address no target is edited.
pub open spec fn counted(s: BatchRun) -> bool {
    &&& 0 <= s.index <= s.configs.len()
    &&& s.phase != BatchPhase::Finished ==> s.successes.len() + s.errors.len() == s.index
    &&& rank(s.phase) < 3 ==> s.index == 0 && s.stored_ip is None
    &&& s.phase == BatchPhase::Processing ==> s.index < s.configs.len() && s.run is Some
        && in_batch(s.run->0) && s.run->0.stored_ip == s.stored_ip && s.run->0.current_ip
        == s.current_ip && s.run->0.phase != Phase::Finished
    &&& s.phase == BatchPhase::Persisting || s.phase == BatchPhase::Notifying ==> s.index
        == s.configs.len()
    &&& s.stored_ip is None ==> !s.any_updated
}

/// A run begins in a state where nothing is recorded and nothing attempted.
pub proof fn lemma_counted_start(
    hostname: Seq<char>,
    configs: Seq<WebServerConfigView>,
    detect: bool,
    no_reload: bool,
    reload_mandatory: bool,
)
    ensures
        counted(multiple_start(hostname, configs, detect, no_reload, reload_mandatory).0),
{
}

/// Each step keeps the count: the number of entries recorded is the number
/// of targets attempted.
pub proof fn lemma_counted_step(s: BatchRun, a: AnswerView)
    requires
        counted(s),
    ensures
        counted(batch_step(s, a).0),
{
    if s.phase == BatchPhase::Processing {
        lemma_in_batch_step(settled(s.detect, s.run->0, a), a);
    }
}

/// When a run ends, its result holds one entry for each target: as many
/// outcomes and errors together as there are targets.
pub proof fn law_one_entry_for_each_target(s: BatchRun, a: AnswerView)
    requires
        counted(s),
        s.phase != BatchPhase::Finished,
    ensures
        batch_step(s, a).1 matches BatchStepView::Finish(result) ==> result.successes.len()
            + result.errors.len() == s.configs.len(),
{
    if s.phase == BatchPhase::Processing {
        lemma_in_batch_step(settled(s.detect, s.run->0, a), a);
    }
}

/// The state that a run over many targets is in after the answers.
pub open spec fn batch_after(s: BatchRun, answers: Seq<AnswerView>) -> BatchRun
    decreases answers.len(),
{
    if answers.len() == 0 {
        s
    } else {
        batch_after(batch_step(s, answers[0]).0, answers.skip(1))
    }
}

/// Whatever the answers, a run stays in states in which the count holds.
pub proof fn lemma_counted_after(s: BatchRun, answers: Seq<AnswerView>)
    requires
        counted(s),
    ensures
        counted(batch_after(s, answers)),
    decreases answers.len(),
{
    if answers.len() > 0 {
        lemma_counted_step(s, answers[0]);
        lemma_counted_after(batch_step(s, answers[0]).0, answers.skip(1));
    }
}

/// In a whole run, whatever the answers, the result that the run ends with
/// holds one entry for each target.
pub proof fn law_result_covers_every_target(
    hostname: Seq<char>,
    configs: Seq<WebServerConfigView>,
    detect: bool,
    no_reload: bool,
    reload_mandatory: bool,
    answers: Seq<AnswerView>,
    last: AnswerView,
)
    requires
        batch_after(
            multiple_start(hostname, configs, detect, no_reload, reload_mandatory).0,
            answers,
        ).phase != BatchPhase::Finished,
    ensures
        batch_step(
            batch_after(multiple_start(hostname, configs, detect, no_reload, reload_mandatory).0, answers),
            last,
        ).1 matches BatchStepView::Finish(result) ==> result.successes.len() + result.errors.len()
            == configs.len(),
{
    let start = multiple_start(hostname, configs, detect, no_reload, reload_mandatory).0;
    lemma_counted_start(hostname, configs, detect, no_reload, reload_mandatory);
    lemma_counted_after(start, answers);
    let s = batch_after(start, answers);
    lemma_batch_keeps_targets(start, answers);
    law_one_entry_for_each_target(s, last);
}

/// A run never changes its targets.
pub proof fn lemma_batch_keeps_targets(s: BatchRun, answers: Seq<AnswerView>)
    ensures
        batch_after(s, answers).configs == s.configs,
    decreases answers.len(),
{
    if answers.len() > 0 {
        lemma_batch_keeps_targets(batch_step(s, answers[0]).0, answers.skip(1));
    }
}

/// The step asks for the address record to be written.
pub open spec fn asks_store(step: BatchStepView) -> bool {
    step matches BatchStepView::Ask(RequestView::StoreIp { .. })
}

/// The step asks for the change to be announced.
pub open spec fn asks_notify(step: BatchStepView) -> bool {
    step matches BatchStepView::Ask(RequestView::NotifyIpChange { .. })
}

/// A run never goes back to an earlier phase, and once the address record is
/// read the stored address stays what it is. The run asks for the address
/// record to be written at two points only: as the first record of a hostname
/// that has none, and as it leaves the targets behind, where one was edited.
/// It asks for the change to be announced only after that second write.
pub proof fn lemma_phases_advance(s: BatchRun, a: AnswerView)
    requires
        counted(s),
    ensures
        rank(batch_step(s, a).0.phase) >= rank(s.phase),
        rank(s.phase) >= 2 ==> batch_step(s, a).0.stored_ip == s.stored_ip,
        asks_store(batch_step(s, a).1) ==> (s.phase == BatchPhase::Loading && batch_step(
            s,
            a,
        ).0.phase == BatchPhase::Baseline && batch_step(s, a).0.stored_ip is None) || (rank(
            s.phase,
        ) < 4 && batch_step(s, a).0.phase == BatchPhase::Persisting && batch_step(
            s,
            a,
        ).0.stored_ip is Some),
        asks_notify(batch_step(s, a).1) ==> s.phase == BatchPhase::Persisting && batch_step(
            s,
            a,
        ).0.phase == BatchPhase::Notifying,
{
    lemma_counted_step(s, a);
    if s.phase == BatchPhase::Processing {
        lemma_in_batch_step(settled(s.detect, s.run->0, a), a);
    }
}

/// What a run over many targets does, step by step, on the answers that it
/// is given.
pub open spec fn batch_steps(s: BatchRun, answers: Seq<AnswerView>) -> Seq<BatchStepView>
    decreases answers.len(),
{
    if answers.len() == 0 {
        Seq::empty()
    } else {
        let next = batch_step(s, answers[0]);
        seq![next.1] + batch_steps(next.0, answers.skip(1))
    }
}

/// How many of the steps ask for the address record to be written.
pub open spec fn stores(steps: Seq<BatchStepView>) -> nat
    decreases steps.len(),
{
    if steps.len() == 0 {
        0
    } else {
        stores(steps.skip(1)) + if asks_store(steps[0]) {
            1nat
        } else {
            0nat
        }
    }
}

/// How many of the steps ask for the change to be announced.
pub open spec fn notifications(steps: Seq<BatchStepView>) -> nat
    decreases steps.len(),
{
    if steps.len() == 0 {
        0
    } else {
        notifications(steps.skip(1)) + if asks_notify(steps[0]) {
            1nat
        } else {
            0nat
        }
    }
}

/// How often a run in this state may still ask for the address record to be
/// written: once while the record is not read; never once the first record
/// is being written, nor once the targets are left behind; once in between.
pub open spec fn stores_left(s: BatchRun) -> nat {
    if rank(s.phase) < 2 {
        1
    } else if s.stored_ip is None {
        0
    } else if rank(s.phase) < 4 {
        1
    } else {
        0
    }
}

/// From a state that a run reaches, the address record is written at most
/// once and the change announced at most once, whatever the answers; and
/// neither happens again once the run is past it.
pub proof fn lemma_at_most_once(s: BatchRun, answers: Seq<AnswerView>)
    requires
        counted(s),
    ensures
        stores(batch_steps(s, answers)) <= stores_left(s),
        notifications(batch_steps(s, answers)) <= (if rank(s.phase) < 5 {
            1nat
        } else {
            0nat
        }),
    decreases answers.len(),
{
    if answers.len() > 0 {
        let next = batch_step(s, answers[0]);
        let rest = batch_steps(next.0, answers.skip(1));
        lemma_counted_step(s, answers[0]);
        lemma_phases_advance(s, answers[0]);
        lemma_at_most_once(next.0, answers.skip(1));
        assert(batch_steps(s, answers).skip(1) =~= rest);
        assert(batch_steps(s, answers)[0] == next.1);
    }
}

/// In a whole run, whatever the number of targets and whatever the answers,
/// the address record is written at most once and the change is announced at
/// most once.
pub proof fn law_persisted_and_announced_at_most_once(
    hostname: Seq<char>,
    configs: Seq<WebServerConfigView>,
    detect: bool,
    no_reload: bool,
    reload_mandatory: bool,
    answers: Seq<AnswerView>,
)
    ensures
        stores(
            batch_steps(multiple_start(hostname, configs, detect, no_reload, reload_mandatory).0, answers),
        ) <= 1,
        notifications(
            batch_steps(multiple_start(hostname, configs, detect, no_reload, reload_mandatory).0, answers),
        ) <= 1,
{
    lemma_counted_start(hostname, configs, detect, no_reload, reload_mandatory);
    lemma_at_most_once(
        multiple_start(hostname, configs, detect, no_reload, reload_mandatory).0,
        answers,
    );
}

/// When the run on a target ends, its outcome is recorded and the next
/// target is taken up, whether the outcome is a success or a failure.
pub proof fn law_failure_does_not_stop_the_run(s: BatchRun, a: AnswerView)
    requires
        counted(s),
        s.phase == BatchPhase::Processing,
        target_step(s.detect, s.run->0, a).1 is Finish,
    ensures
        batch_step(s, a) == s.record(target_step(s.detect, s.run->0, a).1->Finish_0).begin(),
        batch_step(s, a).0.index == s.index + 1,
        s.index + 1 < s.configs.len() ==> batch_step(s, a).0.phase == BatchPhase::Processing,
{
}

/// The state after the outcomes of the first targets have been recorded, one
/// after the other.
pub open spec fn recorded(
    s: BatchRun,
    outcomes: Seq<Result<UpdateResultView, UpdateErrorView>>,
) -> BatchRun
    decreases outcomes.len(),
{
    if outcomes.len() == 0 {
        s
    } else {
        recorded(s, outcomes.drop_last()).record(outcomes.last())
    }
}

/// Recording the outcomes of the targets up to a point, where only target
/// `k` failed: the error of `k` is the only error once `k` is past, and every
/// other target has its outcome among the successes.
pub proof fn lemma_recorded_one_failure(
    s: BatchRun,
    outcomes: Seq<Result<UpdateResultView, UpdateErrorView>>,
    k: int,
)
    requires
        s.index == 0,
        s.successes.len() == 0,
        s.errors.len() == 0,
        outcomes.len() <= s.configs.len(),
        0 <= k,
        forall|j: int| 0 <= j < outcomes.len() ==> ((#[trigger] outcomes[j]) is Err <==> j == k),
    ensures
        recorded(s, outcomes).index == outcomes.len(),
        recorded(s, outcomes).configs == s.configs,
        k < outcomes.len() ==> recorded(s, outcomes).errors == seq![
            (s.configs[k].path, outcomes[k]->Err_0.message),
        ] && recorded(s, outcomes).successes.len() == outcomes.len() - 1,
        k >= outcomes.len() ==> recorded(s, outcomes).errors.len() == 0 && recorded(
            s,
            outcomes,
        ).successes.len() == outcomes.len(),
    decreases outcomes.len(),
{
    if outcomes.len() > 0 {
        let before = outcomes.drop_last();
        assert forall|j: int| 0 <= j < before.len() implies ((#[trigger] before[j]) is Err <==> j
            == k) by {
            assert(before[j] == outcomes[j]);
        }
        lemma_recorded_one_failure(s, before, k);
        if k < before.len() {
            assert(before[k] == outcomes[k]);
        }
        if k == outcomes.len() - 1 {
            assert(recorded(s, outcomes).errors =~= seq![
                (s.configs[k].path, outcomes[k]->Err_0.message),
            ]);
        }
    }
}

/// The run on one target, given these answers, ends with the last of them
/// and not before, with this outcome.
pub open spec fn run_ends(
    detect: bool,
    run: UpdateRun,
    answers: Seq<AnswerView>,
    outcome: Result<UpdateResultView, UpdateErrorView>,
) -> bool
    decreases answers.len(),
{
    if answers.len() == 0 {
        false
    } else if answers.len() == 1 {
        target_step(detect, run, answers[0]).1 == UpdateStepView::Finish(outcome)
    } else {
        target_step(detect, run, answers[0]).1 is Ask && run_ends(
            detect,
            target_step(detect, run, answers[0]).0,
            answers.skip(1),
            outcome,
        )
    }
}

/// The run with which target `j` of a batch is taken up.
pub open spec fn run_on(s: BatchRun, j: int) -> UpdateRun {
    batch_start(
        s.hostname,
        s.configs[j],
        s.stored_ip,
        s.current_ip,
        s.no_reload,
        s.reload_mandatory,
    ).0
}

/// The answers for each target, one target after the other.
pub open spec fn in_turn(per_target: Seq<Seq<AnswerView>>) -> Seq<AnswerView>
    decreases per_target.len(),
{
    if per_target.len() == 0 {
        Seq::empty()
    } else {
        in_turn(per_target.drop_last()) + per_target.last()
    }
}

/// Answers given in two parts take the run where the second part takes it
/// from where the first part left it.
pub proof fn lemma_answers_in_parts(s: BatchRun, a: Seq<AnswerView>, b: Seq<AnswerView>)
    ensures
        batch_after(s, a + b) == batch_after(batch_after(s, a), b),
        batch_steps(s, a + b) == batch_steps(s, a) + batch_steps(batch_after(s, a), b),
    decreases a.len(),
{
    if a.len() == 0 {
        assert(a + b =~= b);
        assert(batch_steps(s, a) + batch_steps(s, b) =~= batch_steps(s, b));
    } else {
        let next = batch_step(s, a[0]);
        assert((a + b)[0] == a[0]);
        assert((a + b).skip(1) =~= a.skip(1) + b);
        lemma_answers_in_parts(next.0, a.skip(1), b);
        assert(batch_steps(s, a + b) =~= batch_steps(s, a) + batch_steps(batch_after(s, a), b));
    }
}

/// There is a step for each answer.
pub proof fn lemma_steps_len(s: BatchRun, answers: Seq<AnswerView>)
    ensures
        batch_steps(s, answers).len() == answers.len(),
    decreases answers.len(),
{
    if answers.len() > 0 {
        lemma_steps_len(batch_step(s, answers[0]).0, answers.skip(1));
    }
}

/// A batch that is at a target, given the answers on which the run on that
/// target ends, passes each request of that run on, then records the outcome
/// and takes up the next target.
pub proof fn lemma_target_is_recorded(
    s: BatchRun,
    answers: Seq<AnswerView>,
    outcome: Result<UpdateResultView, UpdateErrorView>,
)
    requires
        s.phase == BatchPhase::Processing,
        s.run is Some,
        run_ends(s.detect, s.run->0, answers, outcome),
    ensures
        batch_after(s, answers) == s.record(outcome).begin().0,
        batch_steps(s, answers).len() == answers.len(),
        batch_steps(s, answers).last() == s.record(outcome).begin().1,
    decreases answers.len(),
{
    lemma_steps_len(s, answers);
    let next = batch_step(s, answers[0]);
    let rest = answers.skip(1);
    if answers.len() == 1 {
        assert(batch_after(next.0, rest) == next.0);
        assert(batch_steps(s, answers) =~= seq![next.1]);
    } else {
        lemma_target_is_recorded(next.0, rest, outcome);
        lemma_steps_len(next.0, rest);
        assert(next.0.record(outcome) == s.record(outcome));
        assert(batch_steps(s, answers).last() == batch_steps(next.0, rest).last());
    }
}

/// Recording outcomes leaves the targets and the settings of a batch as they
/// are and counts the targets.
pub proof fn lemma_recorded_keeps(
    s: BatchRun,
    outcomes: Seq<Result<UpdateResultView, UpdateErrorView>>,
)
    ensures
        recorded(s, outcomes) == (BatchRun {
            index: s.index + outcomes.len(),
            successes: recorded(s, outcomes).successes,
            errors: recorded(s, outcomes).errors,
            any_updated: recorded(s, outcomes).any_updated,
            run: recorded(s, outcomes).run,
            ..s
        }),
        outcomes.len() > 0 ==> recorded(s, outcomes).run is None,
    decreases outcomes.len(),
{
    if outcomes.len() > 0 {
        lemma_recorded_keeps(s, outcomes.drop_last());
    }
}

/// A batch that has just taken up its first target, given for each target in
/// turn the answers on which the run on that target ends, has after the
/// first `m` targets recorded their outcomes and gone on to the next target,
/// or, after the last, to the end of the run.
pub proof fn lemma_targets_are_recorded(
    s: BatchRun,
    per_target: Seq<Seq<AnswerView>>,
    outcomes: Seq<Result<UpdateResultView, UpdateErrorView>>,
    m: int,
)
    requires
        s.phase == BatchPhase::Processing,
        s.index == 0,
        s.configs.len() > 0,
        s.run == Some(run_on(s, 0)),
        per_target.len() == s.configs.len(),
        outcomes.len() == s.configs.len(),
        forall|j: int|
            0 <= j < s.configs.len() ==> run_ends(
                s.detect,
                run_on(s, j),
                #[trigger] per_target[j],
                outcomes[j],
            ),
        1 <= m <= s.configs.len(),
    ensures
        batch_after(s, in_turn(per_target.take(m))) == recorded(s, outcomes.take(m)).begin().0,
        batch_steps(s, in_turn(per_target.take(m))).len() > 0,
        batch_steps(s, in_turn(per_target.take(m))).last() == recorded(
            s,
            outcomes.take(m),
        ).begin().1,
    decreases m,
{
    let answers = per_target[m - 1];
    let outcome = outcomes[m - 1];
    let before = per_target.take(m - 1);
    assert(per_target.take(m).drop_last() =~= before);
    assert(per_target.take(m).last() == answers);
    assert(outcomes.take(m).drop_last() =~= outcomes.take(m - 1));
    assert(outcomes.take(m).last() == outcome);
    assert(run_ends(s.detect, run_on(s, m - 1), answers, outcome));
    if m == 1 {
        assert(in_turn(before) =~= Seq::empty());
        assert(in_turn(per_target.take(m)) =~= answers);
        assert(recorded(s, outcomes.take(m)) == s.record(outcome));
        lemma_target_is_recorded(s, answers, outcome);
    } else {
        lemma_targets_are_recorded(s, per_target, outcomes, m - 1);
        let done = recorded(s, outcomes.take(m - 1));
        lemma_recorded_keeps(s, outcomes.take(m - 1));
        let at = done.begin().0;
        assert(at.run == Some(run_on(s, m - 1)));
        assert(at.record(outcome) == done.record(outcome));
        lemma_target_is_recorded(at, answers, outcome);
        lemma_answers_in_parts(s, in_turn(before), answers);
        lemma_steps_len(s, in_turn(before));
        lemma_steps_len(at, answers);
        assert(batch_steps(s, in_turn(before) + answers).last() == batch_steps(at, answers).last());
    }
}

/// One target that fails leaves the others as they are, in a whole run.
///
/// The batch has resolved the hostname, found that the address changed and
/// taken up its first target. Each target is then answered until the run on
/// it ends. Where the run on target `k` ends because its document failed the
/// check, and the run on every other target ends well, the batch goes through
/// all targets, and what it has to report at the end is an outcome for each
/// of the other targets and one error, for `k`, with the path of `k` and the
/// message of the error `InvalidConfig`.
pub proof fn law_failure_is_isolated_in_a_run(
    s: BatchRun,
    per_target: Seq<Seq<AnswerView>>,
    outcomes: Seq<Result<UpdateResultView, UpdateErrorView>>,
    k: int,
)
    requires
        s.phase == BatchPhase::Processing,
        s.index == 0,
        s.successes.len() == 0,
        s.errors.len() == 0,
        s.run == Some(run_on(s, 0)),
        per_target.len() == s.configs.len(),
        outcomes.len() == s.configs.len(),
        forall|j: int|
            0 <= j < s.configs.len() ==> run_ends(
                s.detect,
                run_on(s, j),
                #[trigger] per_target[j],
                outcomes[j],
            ),
        0 <= k < s.configs.len(),
        outcomes[k] == Err::<UpdateResultView, UpdateErrorView>(
            UpdateErrorView::config_test_failed(),
        ),
        forall|j: int| 0 <= j < outcomes.len() && j != k ==> (#[trigger] outcomes[j]) is Ok,
    ensures
        ({
            let answers = in_turn(per_target);
            let end = recorded(s, outcomes);
            &&& batch_after(s, answers) == end.wind_up().0
            &&& batch_steps(s, answers).last() == end.wind_up().1
            &&& end.successes.len() == s.configs.len() - 1
            &&& end.errors == seq![
                (s.configs[k].path, UpdateErrorView::config_test_failed().message),
            ]
            &&& end.any_updated ==> forall|stored: AnswerView, told: AnswerView|
                #[trigger] batch_step(batch_step(end.wind_up().0, stored).0, told).1
                    == BatchStepView::Finish(end.result())
            &&& !end.any_updated ==> end.wind_up().1 == BatchStepView::Finish(end.result())
        }),
{
    let n = s.configs.len() as int;
    lemma_targets_are_recorded(s, per_target, outcomes, n);
    assert(per_target.take(n) =~= per_target);
    assert(outcomes.take(n) =~= outcomes);
    lemma_recorded_keeps(s, outcomes);
    lemma_recorded_one_failure(s, outcomes, k);
}

/// The step only looks: it asks for a document and nothing else, or it ends
/// the run with no target edited.
pub open spec fn looks_only(step: BatchStepView) -> bool {
    match step {
        BatchStepView::Ask(request) => request is ReadConfig,
        BatchStepView::Finish(result) => forall|i: int|
            0 <= i < result.successes.len() ==> (#[trigger] result.successes[i]) is NoChange,
    }
}

/// The run found no address record for the hostname and has asked for the
/// first one to be written.
pub open spec fn first_run(s: BatchRun) -> bool {
    &&& counted(s)
    &&& s.stored_ip is None
    &&& s.phase == BatchPhase::Baseline || s.phase == BatchPhase::Processing || s.phase
        == BatchPhase::Finished
    &&& forall|i: int|
        0 <= i < s.successes.len() ==> #[trigger] s.successes[i] == (UpdateResultView::NoChange {
            ip: s.current_ip,
        })
}

/// A first run stays one, and each of its steps only looks.
pub proof fn lemma_first_run_step(s: BatchRun, a: AnswerView)
    requires
        first_run(s),
    ensures
        first_run(batch_step(s, a).0),
        looks_only(batch_step(s, a).1),
        batch_step(s, a).1 matches BatchStepView::Finish(result) ==> forall|i: int|
            0 <= i < result.successes.len() ==> #[trigger] result.successes[i] == (
            UpdateResultView::NoChange { ip: s.current_ip }),
{
    lemma_counted_step(s, a);
    lemma_phases_advance(s, a);
    if s.phase == BatchPhase::Processing {
        lemma_in_batch_step(settled(s.detect, s.run->0, a), a);
    }
}

/// Whatever it is answered, a first run only looks.
pub proof fn lemma_first_run_steps(s: BatchRun, answers: Seq<AnswerView>)
    requires
        first_run(s),
    ensures
        batch_steps(s, answers).len() == answers.len(),
        forall|i: int| 0 <= i < answers.len() ==> looks_only(#[trigger] batch_steps(s, answers)[i]),
    decreases answers.len(),
{
    if answers.len() > 0 {
        let next = batch_step(s, answers[0]);
        lemma_first_run_step(s, answers[0]);
        lemma_first_run_steps(next.0, answers.skip(1));
        assert forall|i: int| 0 <= i < answers.len() implies looks_only(
            #[trigger] batch_steps(s, answers)[i],
        ) by {
            if i > 0 {
                assert(batch_steps(s, answers)[i] == batch_steps(next.0, answers.skip(1))[i - 1]);
            }
        }
    }
}

/// A first run over many targets only observes. Where the hostname has no
/// address record, the run asks for the record to be written with the address
/// that was resolved, and from then on, whatever it is answered, asks for
/// documents to be read and for nothing else: no backup, no write, no
/// command, no second write of the record. It ends with no target edited.
pub proof fn law_first_run_edits_nothing(
    hostname: Seq<char>,
    configs: Seq<WebServerConfigView>,
    detect: bool,
    no_reload: bool,
    reload_mandatory: bool,
    addresses: Seq<Seq<char>>,
    answers: Seq<AnswerView>,
)
    requires
        addresses.len() > 0,
    ensures
        ({
            let start = multiple_start(hostname, configs, detect, no_reload, reload_mandatory);
            let resolved = batch_step(start.0, AnswerView::Resolved(addresses));
            let loaded = batch_step(resolved.0, AnswerView::Loaded(None));
            &&& loaded.1 == BatchStepView::Ask(RequestView::StoreIp { hostname, ip: addresses[0] })
            &&& forall|i: int|
                0 <= i < answers.len() ==> looks_only(#[trigger] batch_steps(loaded.0, answers)[i])
        }),
{
    let start = multiple_start(hostname, configs, detect, no_reload, reload_mandatory);
    let resolved = batch_step(start.0, AnswerView::Resolved(addresses));
    let loaded = batch_step(resolved.0, AnswerView::Loaded(None));
    lemma_counted_start(hostname, configs, detect, no_reload, reload_mandatory);
    lemma_counted_step(start.0, AnswerView::Resolved(addresses));
    lemma_counted_step(resolved.0, AnswerView::Loaded(None));
    lemma_first_run_steps(loaded.0, answers);
}

/// A first run that meets no failure reports every target unchanged, with
/// the address that was resolved: the record is written, each document is
/// read in turn, and the result holds one outcome for each target.
pub proof fn law_first_run_target_is_unchanged(s: BatchRun, a: AnswerView)
    requires
        first_run(s),
        s.phase == BatchPhase::Processing,
        a is Content,
    ensures
        batch_step(s, a) == s.record(
            Ok(UpdateResultView::NoChange { ip: s.current_ip }),
        ).begin(),
{
    lemma_in_batch_step(settled(s.detect, s.run->0, a), a);
}

} // verus!
