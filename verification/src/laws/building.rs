//! What procedures ask for, one action after the other, and what comes of it: of every procedure
//! and of whatever its actions bring.
use vstd::prelude::*;

use crate::action::{Action, ActionView, PropertyView, Value};
use crate::inner::{AudioHandler, PlayerInner, VideoHandler};
use crate::laws::wiring::{
    audio_is_wired, brought_by, law_built_audio, law_built_audio_filter_sink, law_built_play,
    law_built_video, law_built_video_sink, plain, video_is_wired, was_done, with_property,
};
use crate::message::{Float32, Handle, PlayState};
use crate::plan::{
    add_branch_step, audio_step, detach_branch_step, lemma_all_handles, lemma_step_was_due,
    next_step, player_step, reachable, video_step, Branch, Job, OnFailureView, Results, StepView,
};
use crate::procedure::{Outcome, Procedure, Progress};

verus! {

/// The actions that build the video part, in their order, with what the earlier ones brought.
pub open spec fn video_row(r: Results) -> Seq<ActionView> {
    let bin = r[0]->0;
    let elements = seq![r[1]->0, r[2]->0, r[3]->0];
    let entry = r[6]->0;
    let pad = r[7]->0;
    seq![
        ActionView::NewBin { name: "qmlsinkbin"@ },
        plain("glupload"@),
        plain("glcolorconvert"@),
        ActionView::Make { factory: "tee"@, own_name: Some("tee"@), properties: Seq::empty() },
        ActionView::AddMany { bin, elements },
        ActionView::LinkMany { elements },
        ActionView::StaticPad { element: elements[2], name: "sink"@ },
        ActionView::GhostPad { target: entry },
        ActionView::SetActive { pad, active: true },
        ActionView::AddPad { bin, pad },
    ]
}

/// The actions that build the audio part, from the result `base` on.
pub open spec fn audio_row(r: Results, base: int) -> Seq<ActionView> {
    let karaoke = r[base + 1]->0;
    let pitch = r[base + 2]->0;
    let bin = r[base + 3]->0;
    let entry = r[base + 7]->0;
    let exit = r[base + 11]->0;
    seq![
        plain("autoaudiosink"@),
        with_property("audiokaraoke"@, "level"@, Value::Float(Float32 { bits: 0 })),
        with_property("pitch"@, "pitch"@, Value::Float(Float32 { bits: 0x3f80_0000 })),
        ActionView::NewBin { name: "audiofilter"@ },
        ActionView::AddMany { bin, elements: seq![karaoke, pitch] },
        ActionView::LinkMany { elements: seq![karaoke, pitch] },
        ActionView::StaticPad { element: karaoke, name: "sink"@ },
        ActionView::GhostPad { target: r[base + 6]->0 },
        ActionView::SetActive { pad: entry, active: true },
        ActionView::AddPad { bin, pad: entry },
        ActionView::StaticPad { element: pitch, name: "src"@ },
        ActionView::GhostPad { target: r[base + 10]->0 },
        ActionView::SetActive { pad: exit, active: true },
        ActionView::AddPad { bin, pad: exit },
    ]
}

/// The actions that build a player: both parts, the engine's player, its pipeline, and the three
/// properties that give the parts to the pipeline.
pub open spec fn player_row(r: Results) -> Seq<ActionView> {
    let set = |name: Seq<char>, part: Handle|
        ActionView::SetProperty { object: r[25]->0, name, value: Value::Object(part) };
    video_row(r) + audio_row(r, 10) + seq![
        ActionView::NewPlay,
        ActionView::Pipeline { play: r[24]->0 },
        set("video-sink"@, r[0]->0),
        set("audio-sink"@, r[10]->0),
        set("audio-filter"@, r[13]->0),
    ]
}

/// The actions that add a branch.
pub open spec fn branch_row(bin: Handle, tee: Handle, item: Handle, r: Results) -> Seq<ActionView> {
    let queue = r[0]->0;
    let sink = r[1]->0;
    seq![
        with_property("queue"@, "flush-on-eos"@, Value::Bool(true)),
        ActionView::Make {
            factory: "qml6glsink"@,
            own_name: None,
            properties: seq![
                PropertyView { name: "widget"@, value: Value::Object(item) },
                PropertyView { name: "async"@, value: Value::Bool(false) },
            ],
        },
        ActionView::AddMany { bin, elements: seq![queue, sink] },
        ActionView::LinkMany { elements: seq![queue, sink] },
        ActionView::SyncStateWithParent { element: queue },
        ActionView::SyncStateWithParent { element: sink },
        ActionView::RequestPad { element: tee, template: "src_%u"@ },
        ActionView::StaticPad { element: queue, name: "sink"@ },
        ActionView::LinkPads { source: r[6]->0, sink: r[7]->0 },
    ]
}

/// The actions that take a branch down, with what its pad is linked to, if it is.
pub open spec fn detach_row(
    bin: Handle,
    tee: Handle,
    branch: Branch,
    peer: Option<Handle>,
) -> Seq<ActionView> {
    let unlink = match peer {
        Some(sink) => seq![ActionView::UnlinkPads { source: branch.teepad, sink }],
        None => seq![],
    };
    seq![ActionView::Peer { pad: branch.teepad }] + unlink + seq![
        ActionView::RemoveMany { bin, elements: seq![branch.queue, branch.sink] },
        ActionView::SetStateNull { element: branch.queue },
        ActionView::SetStateNull { element: branch.sink },
        ActionView::ReleaseRequestPad { element: tee, pad: branch.teepad },
    ]
}

/// The whole row of a job's actions, as far as its results say what they are on.
pub open spec fn row(job: Job, r: Results) -> Seq<ActionView> {
    match job {
        Job::VideoSink => video_row(r),
        Job::AudioFilterSink => audio_row(r, 0),
        Job::Player => player_row(r),
        Job::AddBranch { bin, tee, item } => branch_row(bin, tee, item, r),
        Job::DetachBranch { bin, tee, branch } => detach_row(
            bin,
            tee,
            branch,
            if r.len() > 0 {
                r[0]
            } else {
                None
            },
        ),
    }
}

/// The step is the one at this place of the row; behind its end there is none.
spec fn is_next(step: Option<StepView>, row: Seq<ActionView>, at: nat) -> bool {
    match step {
        Some(s) => at < row.len() && s.action == row[at as int],
        None => at >= row.len(),
    }
}

proof fn lemma_video_row(r: Results)
    ensures
        is_next(video_step(r), video_row(r), r.len()),
{
}

proof fn lemma_audio_row(r: Results, base: int)
    requires
        0 <= base <= r.len(),
    ensures
        is_next(audio_step(r.skip(base)), audio_row(r, base), (r.len() - base) as nat),
{
    let own = r.skip(base);
    assert(own.len() == r.len() - base);
    assert forall|i: int| 0 <= i < own.len() implies #[trigger] own[i] == r[base + i] by {}
}

proof fn lemma_player_row(r: Results)
    ensures
        is_next(player_step(r), player_row(r), r.len()),
{
    lemma_video_row(r);
    if 10 <= r.len() < 24 {
        lemma_audio_row(r, 10);
        assert(player_row(r)[r.len() as int] == audio_row(r, 10)[r.len() - 10]);
    }
    if r.len() < 10 {
        assert(player_row(r)[r.len() as int] == video_row(r)[r.len() as int]);
    }
}

proof fn lemma_branch_row(bin: Handle, tee: Handle, item: Handle, r: Results)
    ensures
        is_next(add_branch_step(bin, tee, item, r), branch_row(bin, tee, item, r), r.len()),
{
}

proof fn lemma_detach_row(bin: Handle, tee: Handle, branch: Branch, r: Results)
    ensures
        is_next(
            detach_branch_step(bin, tee, branch, r),
            row(Job::DetachBranch { bin, tee, branch }, r),
            r.len(),
        ),
{
}

proof fn lemma_row(job: Job, r: Results)
    ensures
        is_next(next_step(job, r), row(job, r), r.len()),
{
    match job {
        Job::VideoSink => lemma_video_row(r),
        Job::AudioFilterSink => {
            lemma_audio_row(r, 0);
            assert(r.skip(0) =~= r);
        },
        Job::Player => lemma_player_row(r),
        Job::AddBranch { bin, tee, item } => lemma_branch_row(bin, tee, item, r),
        Job::DetachBranch { bin, tee, branch } => lemma_detach_row(bin, tee, branch, r),
    }
}

/// A job has no more results than its row has actions.
proof fn lemma_results_fit(job: Job, r: Results)
    requires
        reachable(job, r),
    ensures
        r.len() <= row(job, r).len(),
{
    let n = row(job, r).len();
    if r.len() > n {
        lemma_step_was_due(job, r, n as int);
        lemma_row(job, r.take(n as int));
        assert(row(job, r.take(n as int)).len() == n);
    }
}

/// A procedure asks for the actions of its row, one after the other: after as many results as
/// there are, for the next; and for none where the row is at its end or the job has failed.
pub proof fn law_next_action(procedure: Procedure, action: Option<Action>)
    requires
        procedure.wf(),
        call_ensures(Procedure::action, (&procedure,), action),
    ensures
        ({
            let r = procedure.results();
            let row = row(procedure.job(), r);
            match action {
                Some(a) => !procedure.failed() && r.len() < row.len() && a@ == row[r.len() as int],
                None => procedure.failed() || r.len() == row.len(),
            }
        }),
{
    lemma_row(procedure.job(), procedure.results());
    lemma_results_fit(procedure.job(), procedure.results());
}

/// An action that succeeds is kept with what it brought, and the job goes on; it is done when the
/// row is at its end.
pub proof fn law_success_goes_on(p: &mut Procedure, handle: Handle, standing: Progress)
    requires
        old(p).wf(),
        !old(p).done(),
        !old(p).failed(),
        call_ensures(Procedure::resume, (p, Ok(handle)), standing),
    ensures
        final(p).wf(),
        final(p).job() == old(p).job(),
        final(p).results() == old(p).results().push(Some(handle)),
        !final(p).failed(),
        standing is Done <==> final(p).results().len() == row(
            final(p).job(),
            final(p).results(),
        ).len(),
        standing is Done || standing is Pending,
{
    lemma_row(final(p).job(), final(p).results());
    lemma_results_fit(final(p).job(), final(p).results());
}

/// What is said where an action fails, by the job and the action; `None` where nobody is there to
/// be told, or nobody needs to be.
pub open spec fn failure_text(job: Job, action: ActionView, cause: Seq<char>) -> Option<Seq<char>> {
    match (job, action) {
        (Job::Player, _) | (Job::DetachBranch { .. }, _) => None,
        (_, ActionView::Make { factory, .. }) => Some("make "@ + factory + " failed"@),
        (Job::VideoSink, ActionView::AddMany { .. }) => Some("add elements to bin failed"@),
        (Job::VideoSink, ActionView::LinkMany { .. }) => {
            Some("Failed to link tee to glcolorconvert"@)
        },
        (Job::VideoSink, ActionView::StaticPad { .. }) => Some("Failed to get tee sink pad"@),
        (Job::VideoSink, ActionView::GhostPad { .. }) => Some("Failed to create ghost pad"@),
        (Job::AudioFilterSink, ActionView::AddMany { .. }) => {
            Some("Failed to add elements to audiofilter bin"@)
        },
        (Job::AudioFilterSink, ActionView::LinkMany { .. }) => Some("failed to link pitch"@),
        (Job::AudioFilterSink, ActionView::StaticPad { name, .. }) => if name == "sink"@ {
            Some("Failed to get karaoke sink pad"@)
        } else {
            None
        },
        (Job::AddBranch { .. }, ActionView::AddMany { .. }) => {
            Some("Failed to add bin to pipeline"@)
        },
        (Job::AddBranch { .. }, ActionView::LinkMany { .. }) => {
            Some("Failed to link queue to sink"@)
        },
        (Job::AddBranch { .. }, ActionView::RequestPad { .. }) => {
            Some("Failed to request tee src pad"@)
        },
        (Job::AddBranch { .. }, ActionView::StaticPad { .. }) => {
            Some("Failed to get queue sink pad"@)
        },
        (Job::AddBranch { .. }, ActionView::LinkPads { .. }) => {
            Some("Failed to link tee src pad to queue sink pad: "@ + cause)
        },
        (_, ActionView::SetActive { .. }) => Some("Failed to activate ghost pad"@),
        (_, ActionView::AddPad { .. }) => Some("Failed to add ghost pad to bin"@),
        _ => None,
    }
}

/// Failures that a job passes over.
pub open spec fn passed_over(action: ActionView) -> bool {
    action is SyncStateWithParent || action is Peer || action is UnlinkPads
}

/// The texts about elements that cannot be made name their factories.
proof fn lemma_make_texts()
    ensures
        "make "@ + "glupload"@ + " failed"@ == "make glupload failed"@,
        "make "@ + "glcolorconvert"@ + " failed"@ == "make glcolorconvert failed"@,
        "make "@ + "tee"@ + " failed"@ == "make tee failed"@,
        "make "@ + "autoaudiosink"@ + " failed"@ == "make autoaudiosink failed"@,
        "make "@ + "audiokaraoke"@ + " failed"@ == "make audiokaraoke failed"@,
        "make "@ + "pitch"@ + " failed"@ == "make pitch failed"@,
        "make "@ + "queue"@ + " failed"@ == "make queue failed"@,
        "make "@ + "qml6glsink"@ + " failed"@ == "make qml6glsink failed"@,
        "sink"@ != "src"@,
{
    reveal_strlit("make ");
    reveal_strlit(" failed");
    reveal_strlit("glupload");
    reveal_strlit("make glupload failed");
    reveal_strlit("glcolorconvert");
    reveal_strlit("make glcolorconvert failed");
    reveal_strlit("tee");
    reveal_strlit("make tee failed");
    reveal_strlit("autoaudiosink");
    reveal_strlit("make autoaudiosink failed");
    reveal_strlit("audiokaraoke");
    reveal_strlit("make audiokaraoke failed");
    reveal_strlit("pitch");
    reveal_strlit("make pitch failed");
    reveal_strlit("queue");
    reveal_strlit("make queue failed");
    reveal_strlit("qml6glsink");
    reveal_strlit("make qml6glsink failed");
    reveal_strlit("sink");
    reveal_strlit("src");
    assert("sink"@.len() != "src"@.len());
}

/// What the failure of a step means is what its action says it means.
spec fn fails_as_said(job: Job, step: Option<StepView>, cause: Seq<char>) -> bool {
    step matches Some(s) ==> {
        let text = failure_text(job, s.action, cause);
        match s.on_failure {
            OnFailureView::Report(t) => !passed_over(s.action) && text == Some(t),
            OnFailureView::ReportCause(t) => !passed_over(s.action) && text == Some(t + cause),
            OnFailureView::Ignore => passed_over(s.action),
            OnFailureView::Fatal(_) => !passed_over(s.action) && text is None,
        }
    }
}

proof fn lemma_video_failures(r: Results, cause: Seq<char>)
    ensures
        fails_as_said(Job::VideoSink, video_step(r), cause),
{
    lemma_make_texts();
}

proof fn lemma_audio_failures(r: Results, cause: Seq<char>)
    ensures
        fails_as_said(Job::AudioFilterSink, audio_step(r), cause),
{
    lemma_make_texts();
}

proof fn lemma_branch_failures(
    bin: Handle,
    tee: Handle,
    item: Handle,
    r: Results,
    cause: Seq<char>,
)
    ensures
        fails_as_said(
            Job::AddBranch { bin, tee, item },
            add_branch_step(bin, tee, item, r),
            cause,
        ),
{
    lemma_make_texts();
}

proof fn lemma_player_failures(r: Results, cause: Seq<char>)
    ensures
        fails_as_said(Job::Player, player_step(r), cause),
        player_step(r) matches Some(s) ==> s.on_failure is Fatal,
{
    if r.len() < 10 {
        lemma_video_failures(r, cause);
        lemma_player_row(r);
    } else if r.len() < 24 {
        lemma_audio_failures(r.skip(10), cause);
        lemma_player_row(r);
    }
}

proof fn lemma_failures(job: Job, r: Results, cause: Seq<char>)
    ensures
        fails_as_said(job, next_step(job, r), cause),
{
    match job {
        Job::VideoSink => lemma_video_failures(r, cause),
        Job::AudioFilterSink => lemma_audio_failures(r, cause),
        Job::Player => lemma_player_failures(r, cause),
        Job::AddBranch { bin, tee, item } => lemma_branch_failures(bin, tee, item, r, cause),
        Job::DetachBranch { .. } => {},
    }
}

/// No job ends with a step whose failure is passed over.
proof fn lemma_passed_over_goes_on(job: Job, r: Results)
    requires
        next_step(job, r) matches Some(s) && passed_over(s.action),
    ensures
        next_step(job, r.push(None)) is Some,
{
    lemma_row(job, r);
    lemma_failures(job, r, seq![]);
    lemma_row(job, r.push(None));
    if job is Player {
        lemma_player_failures(r, seq![]);
    }
}

/// An action that fails ends the job with the text that goes with the action, or is passed over;
/// nothing that was brought before is lost.
pub proof fn law_failure(p: &mut Procedure, action: Action, cause: String, standing: Progress)
    requires
        old(p).wf(),
        call_ensures(Procedure::action, (&*old(p),), Some(action)),
        passed_over(action@) || failure_text(old(p).job(), action@, cause@) is Some,
        call_ensures(Procedure::resume, (p, Err(cause)), standing),
    ensures
        final(p).job() == old(p).job(),
        passed_over(action@) ==> {
            &&& standing is Pending
            &&& !final(p).failed()
            &&& final(p).results() == old(p).results().push(None)
        },
        !passed_over(action@) ==> {
            &&& standing matches Progress::Failed(text) && Some(text@) == failure_text(
                old(p).job(),
                action@,
                cause@,
            )
            &&& final(p).failed()
            &&& final(p).results() == old(p).results()
        },
{
    let job = old(p).job();
    let r = old(p).results();
    lemma_failures(job, r, cause@);
    if passed_over(action@) {
        lemma_passed_over_goes_on(job, r);
    }
}

/// Where an action must not fail, the procedure says so before: with building a player, always;
/// else with new bins, with the ghost pads of the audio bin and the pitch filter's source pad, and
/// with taking a branch's elements out of the bin and to rest. Elsewhere it never does.
pub proof fn law_fatal(procedure: Procedure, action: Option<Action>, text: Option<&'static str>)
    requires
        procedure.wf(),
        call_ensures(Procedure::action, (&procedure,), action),
        call_ensures(Procedure::fatal, (&procedure,), text),
    ensures
        action is None ==> text is None,
        action matches Some(a) ==> (text is Some <==> {
            ||| procedure.job() is Player
            ||| a@ is NewBin
            ||| procedure.job() is AudioFilterSink && a@ is GhostPad
            ||| procedure.job() is AudioFilterSink && (a@ matches ActionView::StaticPad {
                name,
                ..
            } && name == "src"@)
            ||| a@ is RemoveMany
            ||| a@ is SetStateNull
            ||| a@ is ReleaseRequestPad
        }),
        action matches Some(a) ==> (text is Some <==> !passed_over(a@) && failure_text(
            procedure.job(),
            a@,
            seq![],
        ) is None),
        match (procedure.job(), action, text) {
            (Job::AudioFilterSink, Some(Action::StaticPad { .. }), Some(t)) => {
                t@ == "pitch has no src pad"@
            },
            _ => true,
        },
{
    lemma_make_texts();
    law_next_action(procedure, action);
    if let Some(a) = action {
        assert(a@ == row(procedure.job(), procedure.results())[procedure.results().len() as int]);
    }
}

/// Whoever has asked for the next action, and whether it must not fail, can hand in any outcome of
/// it, but a failure that must not be.
pub proof fn law_outcomes_are_taken(
    p: &mut Procedure,
    action: Action,
    text: Option<&'static str>,
    outcome: Outcome,
)
    requires
        old(p).wf(),
        call_ensures(Procedure::action, (&*old(p),), Some(action)),
        call_ensures(Procedure::fatal, (&*old(p),), text),
        outcome is Ok || text is None,
    ensures
        call_requires(Procedure::resume, (p, outcome)),
{
}

/// What was built to the end can be taken.
pub proof fn law_built_is_taken(procedure: Procedure, action: Option<Action>)
    requires
        procedure.wf(),
        !procedure.failed(),
        call_ensures(Procedure::action, (&procedure,), action),
        action is None,
    ensures
        procedure.job() is Player ==> call_requires(PlayerInner::new, (&procedure,)),
        procedure.job() is VideoSink ==> call_requires(PlayerInner::video_handler, (&procedure,)),
        procedure.job() is AudioFilterSink ==> call_requires(
            PlayerInner::audio_handler,
            (&procedure,),
        ),
{
}

/// A player that cannot be built ends with what the part would have reported that cannot be built.
pub proof fn law_player_ends_with_the_reports(
    player: Procedure,
    text: Option<&'static str>,
    part: &mut Procedure,
    cause: String,
    standing: Progress,
)
    requires
        player.wf(),
        player.job() is Player,
        !player.failed(),
        old(part).wf(),
        !old(part).done(),
        old(part).job() is VideoSink && old(part).results() == player.results() || old(
            part,
        ).job() is AudioFilterSink && player.results().len() >= 10 && old(part).results()
            == player.results().skip(10),
        call_ensures(Procedure::fatal, (&player,), text),
        call_ensures(Procedure::resume, (part, Err(cause)), standing),
    ensures
        text is Some,
        standing matches Progress::Failed(said) ==> text->0@ == said@,
{
    lemma_all_handles(player.job(), player.results());
}

/// To build a player, or one of its parts, starts afresh.
pub proof fn law_build_starts(player: Procedure, video: Procedure, audio: Procedure)
    requires
        call_ensures(PlayerInner::build, (), player),
        call_ensures(PlayerInner::build_video_sink, (), video),
        call_ensures(PlayerInner::build_audio_filter_sink, (), audio),
    ensures
        player.wf() && player.job() == Job::Player,
        video.wf() && video.job() == Job::VideoSink,
        audio.wf() && audio.job() == Job::AudioFilterSink,
        player.results().len() == 0 && video.results().len() == 0 && audio.results().len() == 0,
        !player.failed() && !video.failed() && !audio.failed(),
{
}

/// The player that is made of what was built: both its parts are wired and given to the pipeline
/// of its engine's player; it is stopped, does not loop, and has no branch; the first will be
/// number one.
pub proof fn law_new_player(procedure: Procedure, inner: PlayerInner)
    requires
        procedure.wf(),
        procedure.job() is Player,
        procedure.done(),
        call_ensures(PlayerInner::new, (&procedure,), inner),
    ensures
        ({
            let r = procedure.results();
            let p = inner@;
            let given = |name: Seq<char>, part: Handle|
                was_done(
                    Job::Player,
                    r,
                    ActionView::SetProperty {
                        object: p.pipeline,
                        name,
                        value: Value::Object(part),
                    },
                );
            &&& video_is_wired(Job::Player, r, p.video_handler)
            &&& audio_is_wired(Job::Player, r, p.audio_handler)
            &&& brought_by(Job::Player, r, p.play, ActionView::NewPlay)
            &&& brought_by(Job::Player, r, p.pipeline, ActionView::Pipeline { play: p.play })
            &&& given("video-sink"@, p.video_handler.bin)
            &&& given("audio-sink"@, p.audio_handler.sink)
            &&& given("audio-filter"@, p.audio_handler.filterbin)
            &&& p.props.state == PlayState::Stopped
            &&& !p.props.loop_
            &&& p.video_handler.branchs == Map::<u32, Branch>::empty()
            &&& p.video_handler.next_id == 1
        }),
{
    law_built_video(procedure.results());
    law_built_audio(procedure.results());
    law_built_play(procedure.results());
}

/// The video part that is made of what was built, and what it says of itself.
pub proof fn law_new_video(procedure: Procedure, video: VideoHandler, bin: Handle, tee: Handle)
    requires
        procedure.wf(),
        procedure.job() is VideoSink,
        procedure.done(),
        call_ensures(PlayerInner::video_handler, (&procedure,), video),
        call_ensures(VideoHandler::bin, (&video,), bin),
        call_ensures(VideoHandler::tee, (&video,), tee),
    ensures
        video_is_wired(Job::VideoSink, procedure.results(), video@),
        video@.branchs == Map::<u32, Branch>::empty(),
        video@.next_id == 1,
        bin == video@.bin,
        tee == video@.tee,
{
    law_built_video_sink(procedure.results());
}

/// The audio part that is made of what was built.
pub proof fn law_new_audio(procedure: Procedure, audio: AudioHandler)
    requires
        procedure.wf(),
        procedure.job() is AudioFilterSink,
        procedure.done(),
        call_ensures(PlayerInner::audio_handler, (&procedure,), audio),
    ensures
        audio_is_wired(Job::AudioFilterSink, procedure.results(), audio),
{
    law_built_audio_filter_sink(procedure.results());
}

} // verus!
