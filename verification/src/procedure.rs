//! Operations that go back and forth with the media engine.
//!
//! A [`Procedure`] knows its [`Job`] and what came of the actions so far. It says which action is
//! next, takes what came of it, and says whether the job goes on, is done, or has failed. A job
//! that is done or has failed has no more actions and takes no more outcomes.
use vstd::prelude::*;
use vstd::string::*;

use crate::action::Action;
use crate::message::Handle;
use crate::plan::{
    is_done, next_step, plan, reachable, Job, OnFailure, OnFailureView, Results, Step,
};

verus! {

/// What came of one action: a handle (that of the object it made or found; one without meaning
/// where it makes or finds none), or the text of its failure. Not to find an object is to fail.
pub type Outcome = Result<Handle, String>;

pub type OutcomeView = Result<Handle, Seq<char>>;

/// The view of an outcome.
pub open spec fn outcome_view(outcome: Outcome) -> OutcomeView {
    match outcome {
        Ok(handle) => Ok(handle),
        Err(text) => Err(text@),
    }
}

/// How a job stands after one more action.
#[verifier::ext_equal]
pub enum ProgressView {
    /// There are more actions to perform.
    Pending(Results),
    /// The job is done.
    Done(Results),
    /// The job has failed, with this text.
    Failed(Seq<char>),
    /// The program cannot go on.
    Fatal(Seq<char>),
}

/// How a job stands with these results.
pub open spec fn standing(job: Job, r: Results) -> ProgressView {
    if is_done(job, r) {
        ProgressView::Done(r)
    } else {
        ProgressView::Pending(r)
    }
}

/// How a job that is not done stands after the outcome of its next action.
pub open spec fn progress(job: Job, r: Results, outcome: OutcomeView) -> ProgressView {
    match outcome {
        Ok(handle) => standing(job, r.push(Some(handle))),
        Err(cause) => match next_step(job, r)->0.on_failure {
            OnFailureView::Report(text) => ProgressView::Failed(text),
            OnFailureView::ReportCause(text) => ProgressView::Failed(text + cause),
            OnFailureView::Ignore => standing(job, r.push(None)),
            OnFailureView::Fatal(text) => ProgressView::Fatal(text),
        },
    }
}

/// How a procedure stands after an outcome.
#[derive(Debug, PartialEq, Eq)]
pub enum Progress {
    /// There are more actions to perform.
    Pending,
    /// The job is done.
    Done,
    /// The job has failed, with this text.
    Failed(String),
}

/// A job under way.
pub struct Procedure {
    job: Job,
    results: Vec<Option<Handle>>,
    failed: bool,
}

/// What a procedure says of an outcome, and how it changes. A job that fails keeps the results it
/// had.
pub open spec fn resumed(
    before: Procedure,
    outcome: OutcomeView,
    standing: Progress,
    after: Procedure,
) -> bool {
    let progress = progress(before.job(), before.results(), outcome);
    &&& after.job() == before.job()
    &&& after.failed() <==> standing is Failed
    &&& match standing {
        Progress::Pending => progress == ProgressView::Pending(after.results()),
        Progress::Done => progress == ProgressView::Done(after.results()),
        Progress::Failed(text) => {
            &&& progress == ProgressView::Failed(text@)
            &&& after.results() == before.results()
        },
    }
}

impl Procedure {
    pub closed spec fn job(&self) -> Job {
        self.job
    }

    /// What came of the actions so far.
    pub closed spec fn results(&self) -> Results {
        self.results@
    }

    /// Whether an action failed, and the job with it.
    pub closed spec fn failed(&self) -> bool {
        self.failed
    }

    /// The results are such as the job can come to, and a job that is done has not failed.
    pub open spec fn wf(&self) -> bool {
        &&& reachable(self.job(), self.results())
        &&& self.done() ==> !self.failed()
    }

    /// Whether all actions of the job have been performed.
    pub open spec fn done(&self) -> bool {
        is_done(self.job(), self.results())
    }

    /// A job of which nothing has been done yet.
    pub(crate) fn start(job: Job) -> (procedure: Procedure)
        ensures
            procedure.wf(),
            procedure.job() == job,
            procedure.results() == Results::empty(),
            !procedure.failed(),
    {
        let results: Vec<Option<Handle>> = Vec::new();
        assert(results@ =~= Results::empty());
        Procedure { job, results, failed: false }
    }

    /// The action to perform next; `None` where the job is done or has failed.
    pub fn action(&self) -> (action: Option<Action>)
        requires
            self.wf(),
        ensures
            match action {
                Some(a) => {
                    &&& !self.done() && !self.failed()
                    &&& a@ == next_step(self.job(), self.results())->0.action
                },
                None => self.done() || self.failed(),
            },
    {
        if self.failed {
            return None;
        }
        match plan(self.job, &self.results) {
            Some(step) => Some(step.action),
            None => None,
        }
    }

    /// What to say before the program ends, if the next action fails and the program cannot go on
    /// then; `None` where it can, or where there is no next action.
    pub fn fatal(&self) -> (text: Option<&'static str>)
        requires
            self.wf(),
        ensures
            match text {
                Some(t) => {
                    &&& !self.done() && !self.failed()
                    &&& next_step(self.job(), self.results())->0.on_failure
                        == OnFailureView::Fatal(t@)
                },
                None => self.done() || self.failed() || next_step(
                    self.job(),
                    self.results(),
                )->0.on_failure !is Fatal,
            },
    {
        if self.failed {
            return None;
        }
        match plan(self.job, &self.results) {
            Some(step) => match step.on_failure {
                OnFailure::Fatal(text) => Some(text),
                _ => None,
            },
            None => None,
        }
    }

    /// Takes the outcome of the next action.
    pub fn resume(&mut self, outcome: Outcome) -> (standing: Progress)
        requires
            old(self).wf(),
            !old(self).done(),
            !old(self).failed(),
            progress(old(self).job(), old(self).results(), outcome_view(outcome)) !is Fatal,
        ensures
            final(self).wf(),
            resumed(*old(self), outcome_view(outcome), standing, *final(self)),
    {
        let step = plan(self.job, &self.results);
        let result = match outcome {
            Ok(handle) => Some(handle),
            Err(cause) => match step {
                Some(Step { action: _, on_failure: OnFailure::Report(text) }) => {
                    self.failed = true;
                    return Progress::Failed(text.to_owned());
                },
                Some(Step { action: _, on_failure: OnFailure::ReportCause(text) }) => {
                    let mut message = text.to_owned();
                    message.append(cause.as_str());
                    self.failed = true;
                    return Progress::Failed(message);
                },
                _ => None,
            },
        };
        proof {
            lemma_reachable_step(self.job, self.results@, result);
        }
        self.results.push(result);
        match plan(self.job, &self.results) {
            Some(_) => Progress::Pending,
            None => Progress::Done,
        }
    }

    /// The handle that a step brought.
    pub(crate) fn result(&self, step: usize) -> (handle: Handle)
        requires
            step < self.results().len(),
            self.results()[step as int] is Some,
        ensures
            self.results()[step as int] == Some(handle),
    {
        self.results[step].unwrap()
    }
}

/// One more result, a handle but where a failure is ignored, and the results can be come to still.
proof fn lemma_reachable_step(job: Job, r: Results, result: Option<Handle>)
    requires
        reachable(job, r),
        !is_done(job, r),
        result is None ==> next_step(job, r)->0.on_failure is Ignore,
    ensures
        reachable(job, r.push(result)),
{
    let more = r.push(result);
    assert forall|i: int| #![trigger more[i]] 0 <= i < more.len() implies {
        &&& next_step(job, more.take(i)) is Some
        &&& more[i] is None ==> next_step(job, more.take(i))->0.on_failure is Ignore
    } by {
        if i < r.len() {
            assert(more.take(i) =~= r.take(i));
            assert(r[i] == more[i]);
        } else {
            assert(more.take(i) =~= r);
        }
    }
}

} // verus!
