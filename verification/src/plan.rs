//! The plans of the operations that go back and forth with the media engine: which action comes
//! next, given what came of those before, and what it means that it fails.
use vstd::prelude::*;

use crate::action::{property_views, Action, ActionView, Property, PropertyView, Value};
use crate::message::{Float32, Handle};

verus! {

/// A video branch: the pad of the tee that feeds it, its queue and its sink.
#[derive(Clone, Copy, Debug, PartialEq, Eq, Structural)]
pub struct Branch {
    pub teepad: Handle,
    pub queue: Handle,
    pub sink: Handle,
}

/// What a procedure is to do.
#[derive(Clone, Copy, Debug, PartialEq, Eq, Structural)]
pub enum Job {
    /// Build the bin that shows video, with the tee that branches hang on.
    VideoSink,
    /// Build the audio sink and the bin that filters audio.
    AudioFilterSink,
    /// Build both, then the engine's player, and wire them to its pipeline.
    Player,
    /// Build a video branch that shows on `item`, and hang it on the tee.
    AddBranch { bin: Handle, tee: Handle, item: Handle },
    /// Take a branch down, once its pad is idle.
    DetachBranch { bin: Handle, tee: Handle, branch: Branch },
}

/// What it means that an action of a procedure failed.
#[derive(Clone, Copy, Debug, PartialEq, Eq)]
pub enum OnFailure {
    /// The procedure fails with this text.
    Report(&'static str),
    /// The procedure fails with this text and, after it, the text of the failure.
    ReportCause(&'static str),
    /// The procedure goes on.
    Ignore,
    /// The program cannot go on; the text says why.
    Fatal(&'static str),
}

#[verifier::ext_equal]
pub enum OnFailureView {
    Report(Seq<char>),
    ReportCause(Seq<char>),
    Ignore,
    Fatal(Seq<char>),
}

impl View for OnFailure {
    type V = OnFailureView;

    open spec fn view(&self) -> OnFailureView {
        match *self {
            OnFailure::Report(text) => OnFailureView::Report(text@),
            OnFailure::ReportCause(text) => OnFailureView::ReportCause(text@),
            OnFailure::Ignore => OnFailureView::Ignore,
            OnFailure::Fatal(text) => OnFailureView::Fatal(text@),
        }
    }
}

/// An action of a procedure, with what its failure means.
pub struct Step {
    pub action: Action,
    pub on_failure: OnFailure,
}

#[verifier::ext_equal]
pub struct StepView {
    pub action: ActionView,
    pub on_failure: OnFailureView,
}

impl View for Step {
    type V = StepView;

    open spec fn view(&self) -> StepView {
        StepView { action: self.action@, on_failure: self.on_failure@ }
    }
}

/// What came of the actions so far: the handle that each brought, or `None` where it failed and
/// the failure was ignored.
pub type Results = Seq<Option<Handle>>;

/// The step that fails with a text of its own.
pub open spec fn reported(action: ActionView, text: Seq<char>) -> Option<StepView> {
    Some(StepView { action, on_failure: OnFailureView::Report(text) })
}

/// The step that must not fail.
pub open spec fn fatal(action: ActionView, text: Seq<char>) -> Option<StepView> {
    Some(StepView { action, on_failure: OnFailureView::Fatal(text) })
}

/// The step that may fail.
pub open spec fn ignored(action: ActionView) -> Option<StepView> {
    Some(StepView { action, on_failure: OnFailureView::Ignore })
}

/// An element made without a name or properties of its own.
pub open spec fn plain_element(factory: Seq<char>) -> ActionView {
    ActionView::Make { factory, own_name: None, properties: Seq::empty() }
}

/// An element made with one property.
pub open spec fn element_with(factory: Seq<char>, name: Seq<char>, value: Value) -> ActionView {
    ActionView::Make { factory, own_name: None, properties: seq![PropertyView { name, value }] }
}

/// The number of steps of [`Job::VideoSink`].
pub const VIDEO_STEPS: usize = 10;

/// The number of steps of [`Job::AudioFilterSink`].
pub const AUDIO_STEPS: usize = 14;

/// The plan of [`Job::VideoSink`]: a bin that uploads and converts video and ends in a tee. The
/// tee's sink pad is the bin's.
pub open spec fn video_step(r: Results) -> Option<StepView> {
    let bin = r[0]->0;
    let elements = seq![r[1]->0, r[2]->0, r[3]->0];
    if r.len() == 0 {
        fatal(ActionView::NewBin { name: "qmlsinkbin"@ }, "make qmlsinkbin failed"@)
    } else if r.len() == 1 {
        reported(plain_element("glupload"@), "make glupload failed"@)
    } else if r.len() == 2 {
        reported(plain_element("glcolorconvert"@), "make glcolorconvert failed"@)
    } else if r.len() == 3 {
        reported(
            ActionView::Make {
                factory: "tee"@,
                own_name: Some("tee"@),
                properties: Seq::empty(),
            },
            "make tee failed"@,
        )
    } else if r.len() == 4 {
        reported(ActionView::AddMany { bin, elements }, "add elements to bin failed"@)
    } else if r.len() == 5 {
        reported(ActionView::LinkMany { elements }, "Failed to link tee to glcolorconvert"@)
    } else if r.len() == 6 {
        reported(
            ActionView::StaticPad { element: r[3]->0, name: "sink"@ },
            "Failed to get tee sink pad"@,
        )
    } else if r.len() == 7 {
        reported(ActionView::GhostPad { target: r[6]->0 }, "Failed to create ghost pad"@)
    } else if r.len() == 8 {
        reported(
            ActionView::SetActive { pad: r[7]->0, active: true },
            "Failed to activate ghost pad"@,
        )
    } else if r.len() == 9 {
        reported(
            ActionView::AddPad { bin, pad: r[7]->0 },
            "Failed to add ghost pad to bin"@,
        )
    } else {
        None
    }
}

/// The plan of [`Job::AudioFilterSink`]: a sink, and a bin in which a karaoke filter feeds a pitch
/// filter. The bin's pads are the sink pad of the first and the source pad of the second.
pub open spec fn audio_step(r: Results) -> Option<StepView> {
    let karaoke = r[1]->0;
    let pitch = r[2]->0;
    let bin = r[3]->0;
    if r.len() == 0 {
        reported(plain_element("autoaudiosink"@), "make autoaudiosink failed"@)
    } else if r.len() == 1 {
        reported(
            element_with("audiokaraoke"@, "level"@, Value::Float(Float32 { bits: 0 })),
            "make audiokaraoke failed"@,
        )
    } else if r.len() == 2 {
        reported(
            element_with("pitch"@, "pitch"@, Value::Float(Float32 { bits: 0x3f80_0000 })),
            "make pitch failed"@,
        )
    } else if r.len() == 3 {
        fatal(ActionView::NewBin { name: "audiofilter"@ }, "make audiofilter failed"@)
    } else if r.len() == 4 {
        reported(
            ActionView::AddMany { bin, elements: seq![karaoke, pitch] },
            "Failed to add elements to audiofilter bin"@,
        )
    } else if r.len() == 5 {
        reported(ActionView::LinkMany { elements: seq![karaoke, pitch] }, "failed to link pitch"@)
    } else if r.len() == 6 {
        reported(
            ActionView::StaticPad { element: karaoke, name: "sink"@ },
            "Failed to get karaoke sink pad"@,
        )
    } else if r.len() == 7 {
        fatal(ActionView::GhostPad { target: r[6]->0 }, "karaoke sink pad cannot be a target"@)
    } else if r.len() == 8 {
        reported(
            ActionView::SetActive { pad: r[7]->0, active: true },
            "Failed to activate ghost pad"@,
        )
    } else if r.len() == 9 {
        reported(
            ActionView::AddPad { bin, pad: r[7]->0 },
            "Failed to add ghost pad to bin"@,
        )
    } else if r.len() == 10 {
        fatal(ActionView::StaticPad { element: pitch, name: "src"@ }, "pitch has no src pad"@)
    } else if r.len() == 11 {
        fatal(ActionView::GhostPad { target: r[10]->0 }, "pitch src pad cannot be a target"@)
    } else if r.len() == 12 {
        reported(
            ActionView::SetActive { pad: r[11]->0, active: true },
            "Failed to activate ghost pad"@,
        )
    } else if r.len() == 13 {
        reported(
            ActionView::AddPad { bin, pad: r[11]->0 },
            "Failed to add ghost pad to bin"@,
        )
    } else {
        None
    }
}

/// The same step where nobody is there to take a report.
pub open spec fn hardened(step: Option<StepView>) -> Option<StepView> {
    match step {
        Some(StepView { action, on_failure: OnFailureView::Report(text) }) => fatal(action, text),
        _ => step,
    }
}

/// The plan of [`Job::Player`]: the video sink, the audio sink and filter, the engine's player,
/// its pipeline, and the three properties by which the pipeline finds the first two.
pub open spec fn player_step(r: Results) -> Option<StepView> {
    let pipeline = r[25]->0;
    if r.len() < VIDEO_STEPS {
        hardened(video_step(r))
    } else if r.len() < VIDEO_STEPS + AUDIO_STEPS {
        hardened(audio_step(r.skip(VIDEO_STEPS as int)))
    } else if r.len() == 24 {
        fatal(ActionView::NewPlay, "make play failed"@)
    } else if r.len() == 25 {
        fatal(ActionView::Pipeline { play: r[24]->0 }, "play has no pipeline"@)
    } else if r.len() == 26 {
        fatal(
            ActionView::SetProperty {
                object: pipeline,
                name: "video-sink"@,
                value: Value::Object(r[0]->0),
            },
            "set video-sink failed"@,
        )
    } else if r.len() == 27 {
        fatal(
            ActionView::SetProperty {
                object: pipeline,
                name: "audio-sink"@,
                value: Value::Object(r[10]->0),
            },
            "set audio-sink failed"@,
        )
    } else if r.len() == 28 {
        fatal(
            ActionView::SetProperty {
                object: pipeline,
                name: "audio-filter"@,
                value: Value::Object(r[13]->0),
            },
            "set audio-filter failed"@,
        )
    } else {
        None
    }
}

/// The plan of [`Job::AddBranch`]: a queue that feeds a sink, both in the video bin and in its
/// state, and a new pad of the tee that feeds the queue.
pub open spec fn add_branch_step(
    bin: Handle,
    tee: Handle,
    item: Handle,
    r: Results,
) -> Option<StepView> {
    let queue = r[0]->0;
    let sink = r[1]->0;
    if r.len() == 0 {
        reported(
            element_with("queue"@, "flush-on-eos"@, Value::Bool(true)),
            "make queue failed"@,
        )
    } else if r.len() == 1 {
        reported(
            ActionView::Make {
                factory: "qml6glsink"@,
                own_name: None,
                properties: seq![
                    PropertyView { name: "widget"@, value: Value::Object(item) },
                    PropertyView { name: "async"@, value: Value::Bool(false) },
                ],
            },
            "make qml6glsink failed"@,
        )
    } else if r.len() == 2 {
        reported(
            ActionView::AddMany { bin, elements: seq![queue, sink] },
            "Failed to add bin to pipeline"@,
        )
    } else if r.len() == 3 {
        reported(
            ActionView::LinkMany { elements: seq![queue, sink] },
            "Failed to link queue to sink"@,
        )
    } else if r.len() == 4 {
        ignored(ActionView::SyncStateWithParent { element: queue })
    } else if r.len() == 5 {
        ignored(ActionView::SyncStateWithParent { element: sink })
    } else if r.len() == 6 {
        reported(
            ActionView::RequestPad { element: tee, template: "src_%u"@ },
            "Failed to request tee src pad"@,
        )
    } else if r.len() == 7 {
        reported(
            ActionView::StaticPad { element: queue, name: "sink"@ },
            "Failed to get queue sink pad"@,
        )
    } else if r.len() == 8 {
        Some(
            StepView {
                action: ActionView::LinkPads { source: r[6]->0, sink: r[7]->0 },
                on_failure: OnFailureView::ReportCause(
                    "Failed to link tee src pad to queue sink pad: "@,
                ),
            },
        )
    } else {
        None
    }
}

/// The plan of [`Job::DetachBranch`]: cut the branch off from the tee where it still is linked,
/// take its elements out of the bin and to the null state, and give the pad back.
pub open spec fn detach_branch_step(
    bin: Handle,
    tee: Handle,
    branch: Branch,
    r: Results,
) -> Option<StepView> {
    // Without a peer there is nothing to unlink.
    let n = if r.len() > 0 && r[0] is None {
        r.len() + 1
    } else {
        r.len()
    };
    if n == 0 {
        ignored(ActionView::Peer { pad: branch.teepad })
    } else if n == 1 {
        ignored(ActionView::UnlinkPads { source: branch.teepad, sink: r[0]->0 })
    } else if n == 2 {
        fatal(
            ActionView::RemoveMany { bin, elements: seq![branch.queue, branch.sink] },
            "remove branch from bin failed"@,
        )
    } else if n == 3 {
        fatal(ActionView::SetStateNull { element: branch.queue }, "stop queue failed"@)
    } else if n == 4 {
        fatal(ActionView::SetStateNull { element: branch.sink }, "stop sink failed"@)
    } else if n == 5 {
        fatal(
            ActionView::ReleaseRequestPad { element: tee, pad: branch.teepad },
            "release tee src pad failed"@,
        )
    } else {
        None
    }
}

/// What a job does after the results so far; `None` where it is done.
pub open spec fn next_step(job: Job, r: Results) -> Option<StepView> {
    match job {
        Job::VideoSink => video_step(r),
        Job::AudioFilterSink => audio_step(r),
        Job::Player => player_step(r),
        Job::AddBranch { bin, tee, item } => add_branch_step(bin, tee, item, r),
        Job::DetachBranch { bin, tee, branch } => detach_branch_step(bin, tee, branch, r),
    }
}

/// The results that a job can come to: one for each step it took, each of them a handle but where
/// a failure is ignored.
pub open spec fn reachable(job: Job, r: Results) -> bool {
    forall|i: int| #![trigger r[i]] 0 <= i < r.len() ==> {
        &&& next_step(job, r.take(i)) is Some
        &&& r[i] is None ==> next_step(job, r.take(i))->0.on_failure is Ignore
    }
}

/// Whether the job is done.
pub open spec fn is_done(job: Job, r: Results) -> bool {
    next_step(job, r) is None
}

/// Jobs of which no step may fail unnoticed come to nothing but handles.
pub(crate) proof fn lemma_all_handles(job: Job, r: Results)
    requires
        job is VideoSink || job is AudioFilterSink || job is Player,
        reachable(job, r),
    ensures
        forall|i: int| #![trigger r[i]] 0 <= i < r.len() ==> r[i] is Some,
{
}

/// Of the results of [`Job::AddBranch`] only those of the two state changes may be missing.
pub(crate) proof fn lemma_branch_handles(job: Job, r: Results)
    requires
        job is AddBranch,
        reachable(job, r),
    ensures
        forall|i: int| #![trigger r[i]] 0 <= i < r.len() && i != 4 && i != 5 ==> r[i] is Some,
{
}

/// A job came to a result only by a step of its plan.
pub(crate) proof fn lemma_step_was_due(job: Job, r: Results, i: int)
    requires
        reachable(job, r),
        0 <= i < r.len(),
    ensures
        next_step(job, r.take(i)) is Some,
{
    assert(r[i] is Some || r[i] is None);
}

/// The handle at a place among the results.
fn handle_at(r: &Vec<Option<Handle>>, i: usize) -> (handle: Handle)
    requires
        i < r@.len(),
        r@[i as int] is Some,
    ensures
        r@[i as int] == Some(handle),
{
    r[i].unwrap()
}

fn reported_step(action: Action, text: &'static str) -> (step: Step)
    ensures
        Some(step@) == reported(action@, text@),
{
    Step { action, on_failure: OnFailure::Report(text) }
}

fn fatal_step(action: Action, text: &'static str) -> (step: Step)
    ensures
        Some(step@) == fatal(action@, text@),
{
    Step { action, on_failure: OnFailure::Fatal(text) }
}

fn ignored_step(action: Action) -> (step: Step)
    ensures
        Some(step@) == ignored(action@),
{
    Step { action, on_failure: OnFailure::Ignore }
}

fn make_element(factory: &'static str) -> (action: Action)
    ensures
        action@ == plain_element(factory@),
{
    let properties: Vec<Property> = Vec::new();
    assert(property_views(properties@) =~= Seq::<PropertyView>::empty());
    Action::Make { factory, own_name: None, properties }
}

fn make_element_with(factory: &'static str, name: &'static str, value: Value) -> (action: Action)
    ensures
        action@ == element_with(factory@, name@, value),
{
    let properties: Vec<Property> = vec![Property { name, value }];
    assert(property_views(properties@) =~= seq![PropertyView { name: name@, value }]);
    Action::Make { factory, own_name: None, properties }
}

fn plan_video(r: &Vec<Option<Handle>>) -> (step: Step)
    requires
        r@.len() < VIDEO_STEPS,
        forall|i: int| #![trigger r@[i]] 0 <= i < r@.len() ==> r@[i] is Some,
    ensures
        Some(step@) == video_step(r@),
{
    let n: usize = r.len();
    if n == 0 {
        return fatal_step(Action::NewBin { name: "qmlsinkbin" }, "make qmlsinkbin failed");
    }
    let bin = handle_at(r, 0);
    if n == 1 {
        reported_step(make_element("glupload"), "make glupload failed")
    } else if n == 2 {
        reported_step(make_element("glcolorconvert"), "make glcolorconvert failed")
    } else if n == 3 {
        let properties: Vec<Property> = Vec::new();
        assert(property_views(properties@) =~= Seq::<PropertyView>::empty());
        let action = Action::Make { factory: "tee", own_name: Some("tee"), properties };
        reported_step(action, "make tee failed")
    } else if n == 4 {
        let elements: Vec<Handle> = vec![handle_at(r, 1), handle_at(r, 2), handle_at(r, 3)];
        assert(elements@ =~= seq![r@[1]->0, r@[2]->0, r@[3]->0]);
        reported_step(Action::AddMany { bin, elements }, "add elements to bin failed")
    } else if n == 5 {
        let elements: Vec<Handle> = vec![handle_at(r, 1), handle_at(r, 2), handle_at(r, 3)];
        assert(elements@ =~= seq![r@[1]->0, r@[2]->0, r@[3]->0]);
        reported_step(Action::LinkMany { elements }, "Failed to link tee to glcolorconvert")
    } else if n == 6 {
        let element = handle_at(r, 3);
        reported_step(Action::StaticPad { element, name: "sink" }, "Failed to get tee sink pad")
    } else if n == 7 {
        reported_step(Action::GhostPad { target: handle_at(r, 6) }, "Failed to create ghost pad")
    } else if n == 8 {
        let pad = handle_at(r, 7);
        reported_step(Action::SetActive { pad, active: true }, "Failed to activate ghost pad")
    } else {
        let pad = handle_at(r, 7);
        reported_step(Action::AddPad { bin, pad }, "Failed to add ghost pad to bin")
    }
}

/// The audio plan on the results from `base` on.
fn plan_audio(r: &Vec<Option<Handle>>, base: usize) -> (step: Step)
    requires
        base <= r@.len() < base + AUDIO_STEPS,
        forall|i: int| #![trigger r@[i]] 0 <= i < r@.len() ==> r@[i] is Some,
    ensures
        Some(step@) == audio_step(r@.skip(base as int)),
{
    let n: usize = r.len() - base;
    let ghost own = r@.skip(base as int);
    if n == 0 {
        return reported_step(make_element("autoaudiosink"), "make autoaudiosink failed");
    }
    if n == 1 {
        let level = Value::Float(Float32 { bits: 0 });
        return reported_step(
            make_element_with("audiokaraoke", "level", level),
            "make audiokaraoke failed",
        );
    }
    let karaoke = handle_at(r, base + 1);
    if n == 2 {
        let normal = Value::Float(Float32 { bits: 0x3f80_0000 });
        return reported_step(make_element_with("pitch", "pitch", normal), "make pitch failed");
    }
    let pitch = handle_at(r, base + 2);
    if n == 3 {
        return fatal_step(Action::NewBin { name: "audiofilter" }, "make audiofilter failed");
    }
    let bin = handle_at(r, base + 3);
    if n == 4 {
        let elements: Vec<Handle> = vec![karaoke, pitch];
        assert(elements@ =~= seq![karaoke, pitch]);
        reported_step(
            Action::AddMany { bin, elements },
            "Failed to add elements to audiofilter bin",
        )
    } else if n == 5 {
        let elements: Vec<Handle> = vec![karaoke, pitch];
        assert(elements@ =~= seq![karaoke, pitch]);
        reported_step(Action::LinkMany { elements }, "failed to link pitch")
    } else if n == 6 {
        reported_step(
            Action::StaticPad { element: karaoke, name: "sink" },
            "Failed to get karaoke sink pad",
        )
    } else if n == 7 {
        let target = handle_at(r, base + 6);
        fatal_step(Action::GhostPad { target }, "karaoke sink pad cannot be a target")
    } else if n == 8 {
        let pad = handle_at(r, base + 7);
        reported_step(Action::SetActive { pad, active: true }, "Failed to activate ghost pad")
    } else if n == 9 {
        let pad = handle_at(r, base + 7);
        reported_step(Action::AddPad { bin, pad }, "Failed to add ghost pad to bin")
    } else if n == 10 {
        fatal_step(Action::StaticPad { element: pitch, name: "src" }, "pitch has no src pad")
    } else if n == 11 {
        let target = handle_at(r, base + 10);
        fatal_step(Action::GhostPad { target }, "pitch src pad cannot be a target")
    } else if n == 12 {
        let pad = handle_at(r, base + 11);
        reported_step(Action::SetActive { pad, active: true }, "Failed to activate ghost pad")
    } else {
        let pad = handle_at(r, base + 11);
        reported_step(Action::AddPad { bin, pad }, "Failed to add ghost pad to bin")
    }
}

fn harden(step: Step) -> (hard: Step)
    ensures
        Some(hard@) == hardened(Some(step@)),
{
    match step.on_failure {
        OnFailure::Report(text) => fatal_step(step.action, text),
        _ => step,
    }
}

fn plan_player(r: &Vec<Option<Handle>>) -> (step: Option<Step>)
    requires
        forall|i: int| #![trigger r@[i]] 0 <= i < r@.len() ==> r@[i] is Some,
    ensures
        step_view(step) == player_step(r@),
{
    let n: usize = r.len();
    if n < VIDEO_STEPS {
        return Some(harden(plan_video(r)));
    }
    if n < VIDEO_STEPS + AUDIO_STEPS {
        return Some(harden(plan_audio(r, VIDEO_STEPS)));
    }
    if n == 24 {
        Some(fatal_step(Action::NewPlay, "make play failed"))
    } else if n == 25 {
        let play = handle_at(r, 24);
        Some(fatal_step(Action::Pipeline { play }, "play has no pipeline"))
    } else if n == 26 {
        let object = handle_at(r, 25);
        let value = Value::Object(handle_at(r, 0));
        Some(
            fatal_step(
                Action::SetProperty { object, name: "video-sink", value },
                "set video-sink failed",
            ),
        )
    } else if n == 27 {
        let object = handle_at(r, 25);
        let value = Value::Object(handle_at(r, 10));
        Some(
            fatal_step(
                Action::SetProperty { object, name: "audio-sink", value },
                "set audio-sink failed",
            ),
        )
    } else if n == 28 {
        let object = handle_at(r, 25);
        let value = Value::Object(handle_at(r, 13));
        Some(
            fatal_step(
                Action::SetProperty { object, name: "audio-filter", value },
                "set audio-filter failed",
            ),
        )
    } else {
        None
    }
}

fn plan_add_branch(
    bin: Handle,
    tee: Handle,
    item: Handle,
    r: &Vec<Option<Handle>>,
) -> (step: Option<Step>)
    requires
        forall|i: int|
            #![trigger r@[i]]
            0 <= i < r@.len() && i != 4 && i != 5 ==> r@[i] is Some,
    ensures
        step_view(step) == add_branch_step(bin, tee, item, r@),
{
    let n: usize = r.len();
    if n == 0 {
        return Some(
            reported_step(
                make_element_with("queue", "flush-on-eos", Value::Bool(true)),
                "make queue failed",
            ),
        );
    }
    let queue = handle_at(r, 0);
    if n == 1 {
        let properties: Vec<Property> = vec![
            Property { name: "widget", value: Value::Object(item) },
            Property { name: "async", value: Value::Bool(false) },
        ];
        assert(property_views(properties@) =~= seq![
            PropertyView { name: "widget"@, value: Value::Object(item) },
            PropertyView { name: "async"@, value: Value::Bool(false) },
        ]);
        let action = Action::Make { factory: "qml6glsink", own_name: None, properties };
        return Some(reported_step(action, "make qml6glsink failed"));
    }
    let sink = handle_at(r, 1);
    if n == 2 {
        let elements: Vec<Handle> = vec![queue, sink];
        assert(elements@ =~= seq![queue, sink]);
        Some(reported_step(Action::AddMany { bin, elements }, "Failed to add bin to pipeline"))
    } else if n == 3 {
        let elements: Vec<Handle> = vec![queue, sink];
        assert(elements@ =~= seq![queue, sink]);
        Some(reported_step(Action::LinkMany { elements }, "Failed to link queue to sink"))
    } else if n == 4 {
        Some(ignored_step(Action::SyncStateWithParent { element: queue }))
    } else if n == 5 {
        Some(ignored_step(Action::SyncStateWithParent { element: sink }))
    } else if n == 6 {
        Some(
            reported_step(
                Action::RequestPad { element: tee, template: "src_%u" },
                "Failed to request tee src pad",
            ),
        )
    } else if n == 7 {
        Some(
            reported_step(
                Action::StaticPad { element: queue, name: "sink" },
                "Failed to get queue sink pad",
            ),
        )
    } else if n == 8 {
        let action = Action::LinkPads { source: handle_at(r, 6), sink: handle_at(r, 7) };
        let on_failure = OnFailure::ReportCause("Failed to link tee src pad to queue sink pad: ");
        Some(Step { action, on_failure })
    } else {
        None
    }
}

fn plan_detach_branch(
    bin: Handle,
    tee: Handle,
    branch: Branch,
    r: &Vec<Option<Handle>>,
) -> (step: Option<Step>)
    ensures
        step_view(step) == detach_branch_step(bin, tee, branch, r@),
{
    let n: usize = r.len();
    if n == 0 {
        return Some(ignored_step(Action::Peer { pad: branch.teepad }));
    }
    if n > 5 {
        return None;
    }
    let stage: usize = match r[0] {
        Some(peer) => {
            if n == 1 {
                return Some(
                    ignored_step(Action::UnlinkPads { source: branch.teepad, sink: peer }),
                );
            }
            n
        },
        None => n + 1,
    };
    if stage == 2 {
        let elements: Vec<Handle> = vec![branch.queue, branch.sink];
        assert(elements@ =~= seq![branch.queue, branch.sink]);
        Some(fatal_step(Action::RemoveMany { bin, elements }, "remove branch from bin failed"))
    } else if stage == 3 {
        Some(fatal_step(Action::SetStateNull { element: branch.queue }, "stop queue failed"))
    } else if stage == 4 {
        Some(fatal_step(Action::SetStateNull { element: branch.sink }, "stop sink failed"))
    } else if stage == 5 {
        Some(
            fatal_step(
                Action::ReleaseRequestPad { element: tee, pad: branch.teepad },
                "release tee src pad failed",
            ),
        )
    } else {
        None
    }
}

/// The view of an optional step.
pub open spec fn step_view(step: Option<Step>) -> Option<StepView> {
    match step {
        Some(s) => Some(s@),
        None => None,
    }
}

/// What a job does after the results so far.
pub(crate) fn plan(job: Job, r: &Vec<Option<Handle>>) -> (step: Option<Step>)
    requires
        reachable(job, r@),
    ensures
        step_view(step) == next_step(job, r@),
{
    match job {
        Job::VideoSink => {
            proof {
                lemma_all_handles(job, r@);
            }
            if r.len() < VIDEO_STEPS {
                Some(plan_video(r))
            } else {
                None
            }
        },
        Job::AudioFilterSink => {
            proof {
                lemma_all_handles(job, r@);
                assert(r@.skip(0) =~= r@);
            }
            if r.len() < AUDIO_STEPS {
                Some(plan_audio(r, 0))
            } else {
                None
            }
        },
        Job::Player => {
            proof {
                lemma_all_handles(job, r@);
            }
            plan_player(r)
        },
        Job::AddBranch { bin, tee, item } => {
            proof {
                lemma_branch_handles(job, r@);
            }
            plan_add_branch(bin, tee, item, r)
        },
        Job::DetachBranch { bin, tee, branch } => plan_detach_branch(bin, tee, branch, r),
    }
}

} // verus!
