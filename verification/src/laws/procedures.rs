//! What holds of every procedure, from its first action to its last.
use vstd::prelude::*;

use crate::plan::{is_done, next_step, Job, OnFailureView, Results};
use crate::procedure::{
    progress, resumed, standing, OutcomeView, Procedure, Progress, ProgressView,
};

verus! {

/// How a job stands after a row of outcomes, from given results on. It takes no more outcomes than
/// it needs.
pub open spec fn run(job: Job, r: Results, outcomes: Seq<OutcomeView>) -> ProgressView
    decreases outcomes.len(),
{
    if outcomes.len() == 0 || is_done(job, r) {
        standing(job, r)
    } else {
        match progress(job, r, outcomes[0]) {
            ProgressView::Pending(more) => run(job, more, outcomes.drop_first()),
            end => end,
        }
    }
}

/// The procedure is where its job stands after these outcomes.
pub open spec fn has_run(procedure: Procedure, outcomes: Seq<OutcomeView>) -> bool {
    match run(procedure.job(), Results::empty(), outcomes) {
        ProgressView::Pending(r) => !procedure.failed() && procedure.results() == r,
        ProgressView::Done(r) => !procedure.failed() && procedure.results() == r,
        ProgressView::Failed(_) => procedure.failed(),
        ProgressView::Fatal(_) => false,
    }
}

proof fn lemma_run_step(job: Job, r: Results, outcomes: Seq<OutcomeView>, outcome: OutcomeView)
    ensures
        run(job, r, outcomes.push(outcome)) == match run(job, r, outcomes) {
            ProgressView::Pending(more) => progress(job, more, outcome),
            end => end,
        },
    decreases outcomes.len(),
{
    let all = outcomes.push(outcome);
    if outcomes.len() == 0 {
        assert(all.drop_first() =~= outcomes);
        if let ProgressView::Pending(more) = progress(job, r, outcome) {
            assert(!is_done(job, more));
            assert(run(job, more, outcomes) == ProgressView::Pending(more));
        }
    } else if !is_done(job, r) {
        assert(all[0] == outcomes[0]);
        assert(all.drop_first() =~= outcomes.drop_first().push(outcome));
        if let ProgressView::Pending(more) = progress(job, r, outcomes[0]) {
            lemma_run_step(job, more, outcomes.drop_first(), outcome);
        }
    }
}

/// A job that stands as done is done.
proof fn lemma_standing(job: Job, r: Results, outcomes: Seq<OutcomeView>)
    ensures
        run(job, r, outcomes) matches ProgressView::Done(end) ==> is_done(job, end),
    decreases outcomes.len(),
{
    if outcomes.len() > 0 && !is_done(job, r) {
        if let ProgressView::Pending(more) = progress(job, r, outcomes[0]) {
            lemma_standing(job, more, outcomes.drop_first());
        }
    }
}

/// A procedure that has just been started has taken no outcome.
pub proof fn law_started(procedure: Procedure)
    requires
        procedure.results() == Results::empty(),
        !procedure.failed(),
    ensures
        has_run(procedure, seq![]),
{
}

/// A procedure goes with its job, outcome by outcome, and says how the job stands. So what holds
/// of a job's course holds of every procedure that is driven from its start.
pub proof fn law_resumed(
    before: Procedure,
    outcomes: Seq<OutcomeView>,
    outcome: OutcomeView,
    standing: Progress,
    after: Procedure,
)
    requires
        !before.done(),
        !before.failed(),
        has_run(before, outcomes),
        resumed(before, outcome, standing, after),
    ensures
        has_run(after, outcomes.push(outcome)),
        match run(after.job(), Results::empty(), outcomes.push(outcome)) {
            ProgressView::Pending(_) => standing is Pending,
            ProgressView::Done(_) => standing is Done && after.done(),
            ProgressView::Failed(text) => standing matches Progress::Failed(t) && t@ == text,
            ProgressView::Fatal(_) => false,
        },
{
    lemma_run_step(before.job(), Results::empty(), outcomes, outcome);
    lemma_standing(before.job(), Results::empty(), outcomes);
}

/// A job that is done or has failed stays so, whatever would have come after it.
pub proof fn law_ended_jobs_stay_ended(
    job: Job,
    outcomes: Seq<OutcomeView>,
    more: Seq<OutcomeView>,
)
    requires
        run(job, Results::empty(), outcomes) !is Pending,
    ensures
        run(job, Results::empty(), outcomes + more) == run(job, Results::empty(), outcomes),
    decreases more.len(),
{
    if more.len() == 0 {
        assert(outcomes + more =~= outcomes);
    } else {
        law_ended_jobs_stay_ended(job, outcomes, more.drop_last());
        lemma_run_step(job, Results::empty(), outcomes + more.drop_last(), more.last());
        assert((outcomes + more.drop_last()).push(more.last()) =~= outcomes + more);
    }
}

/// The results that outcomes leave where no failure among them ends the job.
pub open spec fn results_of(outcomes: Seq<OutcomeView>) -> Results {
    outcomes.map_values(
        |outcome: OutcomeView|
            match outcome {
                Ok(handle) => Some(handle),
                Err(_) => None,
            },
    )
}

/// The job is under way after the first `i` outcomes and survives the next.
pub open spec fn survives(job: Job, outcomes: Seq<OutcomeView>, i: int) -> bool {
    let step = next_step(job, results_of(outcomes.take(i)));
    &&& step is Some
    &&& outcomes[i] is Err ==> step->0.on_failure is Ignore
}

/// A job that survives its first outcomes stands at their results.
proof fn lemma_survived(job: Job, outcomes: Seq<OutcomeView>, rest: Seq<OutcomeView>)
    requires
        forall|i: int| 0 <= i < outcomes.len() ==> #[trigger] survives(job, outcomes, i),
    ensures
        run(job, Results::empty(), outcomes + rest) == run(job, results_of(outcomes), rest),
    decreases outcomes.len(),
{
    if outcomes.len() == 0 {
        assert(outcomes + rest =~= rest);
        assert(results_of(outcomes) =~= Results::empty());
    } else {
        let before = outcomes.drop_last();
        let last = outcomes.last();
        assert forall|i: int| 0 <= i < before.len() implies #[trigger] survives(job, before, i) by {
            assert(survives(job, outcomes, i));
            assert(before.take(i) =~= outcomes.take(i));
        }
        let tail = seq![last] + rest;
        lemma_survived(job, before, tail);
        assert(before + tail =~= outcomes + rest);
        assert(survives(job, outcomes, outcomes.len() - 1));
        assert(outcomes.take(outcomes.len() - 1) =~= before);
        let r = results_of(before);
        let result = match last {
            Ok(handle) => Some(handle),
            Err(_) => None,
        };
        assert(results_of(outcomes) =~= r.push(result));
        assert(tail.drop_first() =~= rest);
        assert(progress(job, r, tail[0]) == standing(job, r.push(result)));
        if is_done(job, r.push(result)) {
            assert(run(job, r.push(result), rest) == standing(job, r.push(result)));
        }
    }
}

/// A job whose every action succeeds, or fails where that is ignored, comes to the end of its plan
/// with what its actions brought.
pub proof fn law_success(job: Job, outcomes: Seq<OutcomeView>)
    requires
        forall|i: int| 0 <= i < outcomes.len() ==> #[trigger] survives(job, outcomes, i),
        is_done(job, results_of(outcomes)),
    ensures
        run(job, Results::empty(), outcomes) == ProgressView::Done(results_of(outcomes)),
{
    lemma_survived(job, outcomes, seq![]);
    assert(outcomes + Seq::<OutcomeView>::empty() =~= outcomes);
}

/// The first failure that is not ignored ends a job, whatever would have come after it: the job
/// fails with the text of that step, and with the cause where the step reports it.
pub proof fn law_first_failure(job: Job, outcomes: Seq<OutcomeView>, k: int)
    requires
        0 <= k < outcomes.len(),
        forall|i: int| 0 <= i < k ==> #[trigger] survives(job, outcomes, i),
        !is_done(job, results_of(outcomes.take(k))),
        outcomes[k] is Err,
    ensures
        match next_step(job, results_of(outcomes.take(k)))->0.on_failure {
            OnFailureView::Report(text) => run(job, Results::empty(), outcomes)
                == ProgressView::Failed(text),
            OnFailureView::ReportCause(text) => run(job, Results::empty(), outcomes)
                == ProgressView::Failed(text + outcomes[k]->Err_0),
            OnFailureView::Fatal(text) => run(job, Results::empty(), outcomes)
                == ProgressView::Fatal(text),
            OnFailureView::Ignore => true,
        },
{
    let before = outcomes.take(k);
    let rest = outcomes.skip(k);
    assert forall|i: int| 0 <= i < before.len() implies #[trigger] survives(job, before, i) by {
        assert(survives(job, outcomes, i));
        assert(before.take(i) =~= outcomes.take(i));
    }
    lemma_survived(job, before, rest);
    assert(before + rest =~= outcomes);
    assert(rest[0] == outcomes[k]);
}

proof fn lemma_done_means_success(job: Job, outcomes: Seq<OutcomeView>, n: int)
    requires
        0 <= n <= outcomes.len(),
        forall|i: int| 0 <= i < n ==> #[trigger] survives(job, outcomes, i),
        run(job, results_of(outcomes.take(n)), outcomes.skip(n)) is Done,
    ensures
        ({
            let r = run(job, results_of(outcomes.take(n)), outcomes.skip(n))->Done_0;
            &&& r.len() <= outcomes.len()
            &&& r == results_of(outcomes.take(r.len() as int))
            &&& is_done(job, r)
            &&& forall|i: int| 0 <= i < r.len() ==> #[trigger] survives(job, outcomes, i)
        }),
    decreases outcomes.len() - n,
{
    let r = results_of(outcomes.take(n));
    let rest = outcomes.skip(n);
    assert(r.len() == n);
    if rest.len() > 0 && !is_done(job, r) {
        assert(rest[0] == outcomes[n]);
        assert(survives(job, outcomes, n));
        let result = match outcomes[n] {
            Ok(handle) => Some(handle),
            Err(_) => None,
        };
        let more = results_of(outcomes.take(n + 1));
        assert(more =~= r.push(result));
        assert(rest.drop_first() =~= outcomes.skip(n + 1));
        if is_done(job, more) {
            assert(run(job, more, outcomes.skip(n + 1)) == standing(job, more));
        }
        lemma_done_means_success(job, outcomes, n + 1);
    }
}

/// A job is done only where it came to the end of its plan and every action on the way succeeded,
/// or failed where that is ignored; what it leaves is what those actions brought.
pub proof fn law_done_means_success(job: Job, outcomes: Seq<OutcomeView>)
    requires
        run(job, Results::empty(), outcomes) is Done,
    ensures
        ({
            let r = run(job, Results::empty(), outcomes)->Done_0;
            &&& r.len() <= outcomes.len()
            &&& r == results_of(outcomes.take(r.len() as int))
            &&& is_done(job, r)
            &&& forall|i: int| 0 <= i < r.len() ==> #[trigger] survives(job, outcomes, i)
        }),
{
    assert(results_of(outcomes.take(0)) =~= Results::empty());
    assert(outcomes.skip(0) =~= outcomes);
    lemma_done_means_success(job, outcomes, 0);
}

/// How many actions a job takes at most.
pub open spec fn most_steps(job: Job) -> nat {
    match job {
        Job::VideoSink => 10,
        Job::AudioFilterSink => 14,
        Job::Player => 29,
        Job::AddBranch { .. } => 9,
        Job::DetachBranch { .. } => 6,
    }
}

proof fn lemma_pending_counts(job: Job, r: Results, outcomes: Seq<OutcomeView>)
    requires
        run(job, r, outcomes) is Pending,
    ensures
        run(job, r, outcomes)->Pending_0.len() == r.len() + outcomes.len(),
        !is_done(job, run(job, r, outcomes)->Pending_0),
    decreases outcomes.len(),
{
    if outcomes.len() > 0 {
        lemma_pending_counts(job, progress(job, r, outcomes[0])->Pending_0, outcomes.drop_first());
    }
}

/// Every job ends: with as many outcomes as its plan has actions, it is done or it has failed.
pub proof fn law_jobs_end(job: Job, outcomes: Seq<OutcomeView>)
    requires
        outcomes.len() >= most_steps(job),
    ensures
        run(job, Results::empty(), outcomes) !is Pending,
{
    if run(job, Results::empty(), outcomes) is Pending {
        lemma_pending_counts(job, Results::empty(), outcomes);
    }
}

/// A step whose failure does not keep the job from being done.
pub open spec fn may_fail(job: Job, i: int) -> bool {
    job is AddBranch && (i == 4 || i == 5)
}

/// Building is done if and only if all its actions succeed; only the two state changes of a new
/// branch may fail.
pub proof fn law_built_means_all_succeeded(job: Job, outcomes: Seq<OutcomeView>)
    requires
        job !is DetachBranch,
        outcomes.len() == most_steps(job),
    ensures
        run(job, Results::empty(), outcomes) is Done <==> forall|i: int|
            0 <= i < outcomes.len() ==> #[trigger] outcomes[i] is Ok || may_fail(job, i),
{
    if forall|i: int| 0 <= i < outcomes.len() ==> #[trigger] outcomes[i] is Ok || may_fail(job, i) {
        assert forall|i: int| 0 <= i < outcomes.len() implies #[trigger] survives(
            job,
            outcomes,
            i,
        ) by {
            assert(results_of(outcomes.take(i)).len() == i);
            assert(outcomes[i] is Ok || may_fail(job, i));
        }
        law_success(job, outcomes);
    }
    if run(job, Results::empty(), outcomes) is Done {
        law_done_means_success(job, outcomes);
        assert forall|i: int| 0 <= i < outcomes.len() implies #[trigger] outcomes[i] is Ok
            || may_fail(job, i) by {
            assert(survives(job, outcomes, i));
            assert(results_of(outcomes.take(i)).len() == i);
        }
    }
}

} // verus!
