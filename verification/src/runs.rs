//! Whole runs of a job: what holds of the actions that a job asks for,
//! whatever events come back.

use crate::job::{
    forward, is_canonical, normalize_plan, notify_plan, started, step_spec, JobView,
};
use crate::pages::{
    distinct_indices, law_any_order, law_slots_are_fixed, none_failed, placed_all, reported,
    stage_passed, CompletionView, TaskKind,
};
use crate::paths::{canonical_file, download_file};
use crate::protocol::{ActionView, EventView, JobError, Outcome, Stage};
use crate::request::RequestView;
use vstd::prelude::*;

verus! {

/// Where a job that stands at `job` arrives after `events`, and the actions
/// it asks for on the way, in order.
pub open spec fn run(job: JobView, events: Seq<EventView>) -> (JobView, Seq<ActionView>)
    decreases events.len(),
{
    if events.len() == 0 {
        (job, Seq::empty())
    } else {
        let (before, actions) = run(job, events.drop_last());
        let (after, action) = step_spec(before, events.last());
        (after, actions.push(action))
    }
}

/// The whole life of a job so far: where it stands after `events`, and every
/// action it has asked for since it started, the first download included.
pub open spec fn history(request: RequestView, id: Seq<char>, events: Seq<EventView>) -> (
    JobView,
    Seq<ActionView>,
) {
    let (job, first) = started(request, id);
    let (after, actions) = run(job, events);
    (after, seq![first] + actions)
}

/// How many of `actions` are `wanted`.
pub open spec fn occurrences(actions: Seq<ActionView>, wanted: spec_fn(ActionView) -> bool) -> nat
    decreases actions.len(),
{
    if actions.len() == 0 {
        0
    } else {
        occurrences(actions.drop_last(), wanted) + if wanted(actions.last()) {
            1nat
        } else {
            0nat
        }
    }
}

/// How many notifications `actions` ask for.
pub open spec fn notifies(actions: Seq<ActionView>) -> nat {
    occurrences(actions, |a: ActionView| a is Notify)
}

/// How many removals of the working directory `actions` ask for.
pub open spec fn cleanups(actions: Seq<ActionView>) -> nat {
    occurrences(actions, |a: ActionView| a is Cleanup)
}

/// How many upload stages `actions` ask for.
pub open spec fn uploads(actions: Seq<ActionView>) -> nat {
    occurrences(actions, |a: ActionView| a is Upload)
}

/// How far a job has come: every decision but the last moves it on.
pub open spec fn rank(stage: Stage) -> nat {
    match stage {
        Stage::Downloading => 0,
        Stage::Normalizing => 1,
        Stage::Counting => 2,
        Stage::Splitting => 3,
        Stage::Processing => 4,
        Stage::Uploading => 5,
        Stage::Notifying => 6,
        Stage::CleaningUp => 7,
        Stage::Done => 8,
    }
}

/// Whether the job has asked for the upload stage: it is in it, or has left it either way.
pub open spec fn has_uploaded(job: JobView) -> bool {
    job.stage is Uploading || job.outcome is Succeeded || job.outcome == Outcome::Failed(
        JobError::Upload,
    )
}

/// What the actions asked for so far have to do with where the job stands.
pub open spec fn accounted(job: JobView, actions: Seq<ActionView>) -> bool {
    &&& job.wf()
    &&& actions.len() >= 1
    &&& actions[0] is Download
    &&& notifies(actions) == if forward(job.stage) {
        0nat
    } else {
        1nat
    }
    &&& cleanups(actions) == if job.stage is CleaningUp || job.stage is Done {
        1nat
    } else {
        0nat
    }
    &&& uploads(actions) == if has_uploaded(job) {
        1nat
    } else {
        0nat
    }
    &&& (job.stage is Notifying ==> actions.last() is Notify)
    &&& forall|j: int|
        0 <= j < actions.len() && (#[trigger] actions[j]) is Cleanup ==> j > 0 && actions[j
            - 1] is Notify
}

proof fn lemma_occurrences_push(
    actions: Seq<ActionView>,
    action: ActionView,
    wanted: spec_fn(ActionView) -> bool,
)
    ensures
        occurrences(actions.push(action), wanted) == occurrences(actions, wanted) + if wanted(
            action,
        ) {
            1nat
        } else {
            0nat
        },
{
    assert(actions.push(action).drop_last() =~= actions);
}

proof fn lemma_accounted_step(job: JobView, actions: Seq<ActionView>, event: EventView)
    requires
        accounted(job, actions),
    ensures
        accounted(step_spec(job, event).0, actions.push(step_spec(job, event).1)),
{
    let (after, action) = step_spec(job, event);
    let longer = actions.push(action);
    lemma_occurrences_push(actions, action, |a: ActionView| a is Notify);
    lemma_occurrences_push(actions, action, |a: ActionView| a is Cleanup);
    lemma_occurrences_push(actions, action, |a: ActionView| a is Upload);
    law_step_keeps_job(job, event);
    assert forall|j: int| 0 <= j < longer.len() && (#[trigger] longer[j]) is Cleanup implies j > 0
        && longer[j - 1] is Notify by {
        if j < actions.len() {
            assert(longer[j] == actions[j]);
        }
    }
}

/// A decision leaves a job a job: it keeps one slot per page and each slot
/// at its page's place. It never changes what the request said, nor the
/// identifier. The number of pages is set when the pages are counted and
/// never changes again, and the slots are written only when the fan-out
/// stages join. Once the outcome is decided it stands: what goes wrong with
/// the notification or the removal is noted beside it.
pub proof fn law_step_keeps_job(job: JobView, event: EventView)
    requires
        job.wf(),
    ensures
        step_spec(job, event).0.wf(),
        step_spec(job, event).0.id == job.id,
        step_spec(job, event).0.source == job.source,
        step_spec(job, event).0.format == job.format,
        step_spec(job, event).0.destination == job.destination,
        step_spec(job, event).0.callback == job.callback,
        step_spec(job, event).0.preserve_transparency == job.preserve_transparency,
        !(job.stage is Counting) ==> step_spec(job, event).0.page_count == job.page_count,
        !(job.stage is Counting) ==> step_spec(job, event).0.pages.len() == job.pages.len(),
        !(job.stage is Counting) && !(job.stage is Processing) ==> step_spec(job, event).0.pages
            == job.pages,
        !forward(job.stage) ==> step_spec(job, event).0.outcome == job.outcome,
{
    if job.stage is Processing {
        if let EventView::Processed { renders, texts } = event {
            let half = placed_all(job.pages, job.id, TaskKind::Render, renders);
            law_slots_are_fixed(job.pages, job.id, TaskKind::Render, renders);
            law_slots_are_fixed(half, job.id, TaskKind::Extract, texts);
        }
    }
}

/// Every decision but those of a finished job moves the job one stage on, or
/// straight to the notification.
pub proof fn law_step_moves_on(job: JobView, event: EventView)
    ensures
        !(job.stage is Done) ==> rank(step_spec(job, event).0.stage) > rank(job.stage),
        job.stage is Done ==> step_spec(job, event).0 == job,
{
}

/// The books are kept: at every moment of every run, the job has asked for
/// the notification once if its outcome is decided and never if it is not,
/// for the removal of the working directory once if the notification is
/// behind it and never before, and for the upload stage once if it came that
/// far and never otherwise. The first action is the download, and every
/// removal directly follows a notification.
pub proof fn law_run_is_accounted(request: RequestView, id: Seq<char>, events: Seq<EventView>)
    ensures
        accounted(history(request, id, events).0, history(request, id, events).1),
    decreases events.len(),
{
    let (job, first) = started(request, id);
    if events.len() == 0 {
        let actions = seq![first];
        assert(history(request, id, events).1 =~= actions);
        assert(actions =~= Seq::<ActionView>::empty().push(first));
        lemma_occurrences_push(Seq::empty(), first, |a: ActionView| a is Notify);
        lemma_occurrences_push(Seq::empty(), first, |a: ActionView| a is Cleanup);
        lemma_occurrences_push(Seq::empty(), first, |a: ActionView| a is Upload);
    } else {
        law_run_is_accounted(request, id, events.drop_last());
        let (before, actions) = run(job, events.drop_last());
        let (after, action) = step_spec(before, events.last());
        lemma_accounted_step(before, seq![first] + actions, events.last());
        assert(seq![first] + actions.push(action) =~= (seq![first] + actions).push(action));
    }
}

/// A job that has come to its end has asked for exactly one notification
/// and exactly one removal of its working directory, whatever went wrong on
/// the way; and no job ever asks for more than one of either.
pub proof fn law_cleanup_exactly_once(request: RequestView, id: Seq<char>, events: Seq<EventView>)
    ensures
        cleanups(history(request, id, events).1) <= 1,
        notifies(history(request, id, events).1) <= 1,
        history(request, id, events).0.stage is Done ==> cleanups(history(request, id, events).1)
            == 1 && notifies(history(request, id, events).1) == 1,
{
    law_run_is_accounted(request, id, events);
}

/// A job that failed before the upload stage never asks for an upload.
pub proof fn law_failure_skips_upload(
    request: RequestView,
    id: Seq<char>,
    events: Seq<EventView>,
    error: JobError,
)
    requires
        history(request, id, events).0.outcome == Outcome::Failed(error),
        error != JobError::Upload,
    ensures
        uploads(history(request, id, events).1) == 0,
{
    law_run_is_accounted(request, id, events);
}

/// A job does not start over: after `n` events it has come `n` stages far,
/// or is done.
pub proof fn law_run_moves_on(job: JobView, events: Seq<EventView>)
    ensures
        rank(run(job, events).0.stage) >= rank(job.stage),
        rank(run(job, events).0.stage) >= events.len() || run(job, events).0.stage is Done,
    decreases events.len(),
{
    if events.len() > 0 {
        law_run_moves_on(job, events.drop_last());
        law_step_moves_on(run(job, events.drop_last()).0, events.last());
    }
}

/// Every job ends: eight events, whatever they say, bring a new job to its
/// end, with its one notification and its one removal asked for.
pub proof fn law_job_ends(request: RequestView, id: Seq<char>, events: Seq<EventView>)
    requires
        events.len() >= 8,
    ensures
        history(request, id, events).0.stage is Done,
        cleanups(history(request, id, events).1) == 1,
        notifies(history(request, id, events).1) == 1,
{
    law_run_moves_on(started(request, id).0, events);
    law_cleanup_exactly_once(request, id, events);
}

/// One failed render or extraction fails the job: when the fan-out stages
/// join with a failure among the reports, the job's outcome is an error, it
/// asks for the notification that says so, and the upload stage is skipped.
pub proof fn law_failed_page_fails_job(
    job: JobView,
    renders: Seq<CompletionView>,
    texts: Seq<CompletionView>,
)
    requires
        job.stage is Processing,
        !none_failed(renders) || !none_failed(texts),
    ensures
        ({
            let (after, action) = step_spec(job, EventView::Processed { renders, texts });
            &&& after.stage is Notifying
            &&& after.outcome == Outcome::Failed(JobError::Render) || after.outcome
                == Outcome::Failed(JobError::Extract)
            &&& action == notify_plan(job, false)
        }),
{
}

/// Two lists hold the same reports, whatever their order.
pub open spec fn same_reports(a: Seq<CompletionView>, b: Seq<CompletionView>) -> bool {
    forall|c: CompletionView| a.contains(c) <==> b.contains(c)
}

/// The verdict at the join looks at what was reported, not at when.
pub proof fn law_verdict_ignores_order(n: nat, a: Seq<CompletionView>, b: Seq<CompletionView>)
    requires
        same_reports(a, b),
    ensures
        stage_passed(n, a) == stage_passed(n, b),
{
    if stage_passed(n, a) {
        lemma_verdict_carries_over(n, a, b);
    }
    if stage_passed(n, b) {
        lemma_verdict_carries_over(n, b, a);
    }
}

proof fn lemma_verdict_carries_over(n: nat, a: Seq<CompletionView>, b: Seq<CompletionView>)
    requires
        same_reports(a, b),
        stage_passed(n, a),
    ensures
        stage_passed(n, b),
{
    assert forall|k: int| 0 <= k < b.len() implies (#[trigger] b[k]).ok by {
        assert(b.contains(b[k]));
        assert(a.contains(b[k]));
    }
    assert forall|index: nat| 1 <= index <= n implies reported(b, index) by {
        assert(reported(a, index));
        let k = choose|k: int| 0 <= k < a.len() && (#[trigger] a[k]).index == index;
        assert(a.contains(a[k]));
        assert(b.contains(a[k]));
        let j = choose|j: int| 0 <= j < b.len() && b[j] == a[k];
        assert(b[j].index == index);
    }
}

/// The order in which the tasks of the fan-out stages end changes nothing:
/// the same reports, in whatever order, lead the job to the same place and
/// to the same next action.
pub proof fn law_join_ignores_order(
    job: JobView,
    renders: Seq<CompletionView>,
    texts: Seq<CompletionView>,
    renders_shuffled: Seq<CompletionView>,
    texts_shuffled: Seq<CompletionView>,
)
    requires
        distinct_indices(renders),
        distinct_indices(texts),
        distinct_indices(renders_shuffled),
        distinct_indices(texts_shuffled),
        same_reports(renders, renders_shuffled),
        same_reports(texts, texts_shuffled),
    ensures
        step_spec(job, EventView::Processed { renders, texts }) == step_spec(
            job,
            EventView::Processed { renders: renders_shuffled, texts: texts_shuffled },
        ),
{
    law_any_order(job.pages, job.id, TaskKind::Render, renders, renders_shuffled);
    let half = placed_all(job.pages, job.id, TaskKind::Render, renders);
    law_any_order(half, job.id, TaskKind::Extract, texts, texts_shuffled);
    law_verdict_ignores_order(job.page_count, renders, renders_shuffled);
    law_verdict_ignores_order(job.page_count, texts, texts_shuffled);
}

/// A document that is in canonical form already is only given its
/// canonical name: the converter is not run.
pub proof fn law_canonical_needs_no_tool(job: JobView)
    requires
        is_canonical(job.format),
    ensures
        normalize_plan(job) == Ok::<ActionView, JobError>(
            ActionView::Rename { from: download_file(job.id), to: canonical_file(job.id) },
        ),
{
    reveal_strlit("pdf");
    reveal_strlit("ppt");
    reveal_strlit("pptx");
    reveal_strlit("odp");
    assert("pdf"@[1] == 'd');
    assert("ppt"@[1] == 'p');
    assert("pptx"@[1] == 'p');
    assert("odp"@[0] == 'o');
    assert("pdf"@[0] == 'p');
}

} // verus!
