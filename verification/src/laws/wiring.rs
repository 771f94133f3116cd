//! What the handles that the player keeps stand for: which action brought each, and how the
//! objects hang together once they are built.
use vstd::prelude::*;

use crate::action::{ActionView, PropertyView, Value};
use crate::inner::{
    built_audio, built_branch, built_player, built_video, AudioHandler, VideoHandlerView,
};
use crate::message::{Float32, Handle};
use crate::plan::{
    audio_step, is_done, lemma_all_handles, next_step, reachable, Branch, Job, Results,
};

verus! {

/// To make an element that has neither a name nor a property of its own.
pub open spec fn plain(factory: Seq<char>) -> ActionView {
    ActionView::Make { factory, own_name: None, properties: seq![] }
}

/// To make an element with one property and no name of its own.
pub open spec fn with_property(factory: Seq<char>, name: Seq<char>, value: Value) -> ActionView {
    ActionView::Make { factory, own_name: None, properties: seq![PropertyView { name, value }] }
}

/// The action that a job performed as its step `i`.
pub open spec fn action_at(job: Job, r: Results, i: int) -> ActionView {
    next_step(job, r.take(i))->0.action
}

/// The object was brought by this action of the job.
pub open spec fn brought_by(job: Job, r: Results, object: Handle, action: ActionView) -> bool {
    exists|i: int|
        0 <= i < r.len() && #[trigger] r[i] == Some(object) && action_at(job, r, i) == action
}

/// The job performed this action, and it succeeded.
pub open spec fn was_done(job: Job, r: Results, action: ActionView) -> bool {
    exists|i: int| 0 <= i < r.len() && #[trigger] r[i] is Some && action_at(job, r, i) == action
}

/// Media passes between the bin and this pad of the element: the pad is the target of an active
/// pad that was added to the bin.
pub open spec fn opens_to(
    job: Job,
    r: Results,
    bin: Handle,
    element: Handle,
    name: Seq<char>,
) -> bool {
    exists|target: Handle, pad: Handle|
        {
            &&& brought_by(job, r, target, ActionView::StaticPad { element, name })
            &&& #[trigger] brought_by(job, r, pad, ActionView::GhostPad { target })
            &&& was_done(job, r, ActionView::SetActive { pad, active: true })
            &&& was_done(job, r, ActionView::AddPad { bin, pad })
        }
}

/// The video part: branches are hung on the tee at the end of a linked row of elements, all in the
/// bin, which opens to the tee's sink pad.
pub open spec fn video_is_wired(job: Job, r: Results, video: VideoHandlerView) -> bool {
    let bin = video.bin;
    let tee = video.tee;
    &&& brought_by(job, r, bin, ActionView::NewBin { name: "qmlsinkbin"@ })
    &&& brought_by(
        job,
        r,
        tee,
        ActionView::Make { factory: "tee"@, own_name: Some("tee"@), properties: Seq::empty() },
    )
    &&& exists|upload: Handle, convert: Handle|
        {
            let row = seq![upload, convert, tee];
            &&& #[trigger] brought_by(job, r, upload, plain("glupload"@))
            &&& #[trigger] brought_by(job, r, convert, plain("glcolorconvert"@))
            &&& was_done(job, r, ActionView::AddMany { bin, elements: row })
            &&& was_done(job, r, ActionView::LinkMany { elements: row })
        }
    &&& opens_to(job, r, bin, tee, "sink"@)
}

/// The audio part: the two filters are linked in the bin, which opens to the sink pad of the first
/// and the source pad of the second.
pub open spec fn audio_is_wired(job: Job, r: Results, audio: AudioHandler) -> bool {
    let bin = audio.filterbin;
    let row = seq![audio.karaoke, audio.pitch];
    let none = Value::Float(Float32 { bits: 0 });
    let normal = Value::Float(Float32 { bits: 0x3f80_0000 });
    &&& brought_by(job, r, audio.sink, plain("autoaudiosink"@))
    &&& brought_by(job, r, audio.karaoke, with_property("audiokaraoke"@, "level"@, none))
    &&& brought_by(job, r, audio.pitch, with_property("pitch"@, "pitch"@, normal))
    &&& brought_by(job, r, bin, ActionView::NewBin { name: "audiofilter"@ })
    &&& was_done(job, r, ActionView::AddMany { bin, elements: row })
    &&& was_done(job, r, ActionView::LinkMany { elements: row })
    &&& opens_to(job, r, bin, audio.karaoke, "sink"@)
    &&& opens_to(job, r, bin, audio.pitch, "src"@)
}

proof fn lemma_video_is_wired(job: Job, r: Results)
    requires
        job is VideoSink || job is Player,
        reachable(job, r),
        is_done(job, r),
    ensures
        video_is_wired(job, r, built_video(r)),
{
    lemma_all_handles(job, r);
    let bin = r[0]->0;
    let tee = r[3]->0;
    let row = seq![r[1]->0, r[2]->0, tee];
    assert(r[0] == Some(bin) && r[1] == Some(r[1]->0) && r[2] == Some(r[2]->0));
    assert(r[3] == Some(tee));
    assert(brought_by(job, r, r[1]->0, plain("glupload"@)));
    assert(brought_by(job, r, r[2]->0, plain("glcolorconvert"@)));
    assert(r[4] is Some && action_at(job, r, 4) == ActionView::AddMany { bin, elements: row });
    assert(r[5] is Some && action_at(job, r, 5) == ActionView::LinkMany { elements: row });
    let target = r[6]->0;
    let pad = r[7]->0;
    assert(r[6] == Some(target) && r[7] == Some(pad));
    assert(brought_by(job, r, target, ActionView::StaticPad { element: tee, name: "sink"@ }));
    assert(brought_by(job, r, pad, ActionView::GhostPad { target }));
    assert(r[8] is Some && r[9] is Some);
    assert(was_done(job, r, ActionView::SetActive { pad, active: true }));
    assert(was_done(job, r, ActionView::AddPad { bin, pad }));
}

/// The audio plan on the results from `base` on.
proof fn lemma_audio_is_wired(job: Job, r: Results, base: int)
    requires
        job is AudioFilterSink && base == 0 || job is Player && base == 10,
        reachable(job, r),
        is_done(job, r),
    ensures
        audio_is_wired(job, r, built_audio(r.skip(base))),
{
    lemma_all_handles(job, r);
    let own = r.skip(base);
    let audio = built_audio(own);
    let bin = audio.filterbin;
    assert forall|i: int| 0 <= i < 14 implies #[trigger] own[i] == Some(own[i]->0) && r[base + i]
        == own[i] && action_at(job, r, base + i) == audio_step(own.take(i))->0.action by {
        assert(r[base + i] is Some);
        assert(r.take(base + i).skip(base) =~= own.take(i));
    }
    let row = seq![audio.karaoke, audio.pitch];
    assert(r[base] == own[0] && r[base + 1] == own[1] && r[base + 2] == own[2] && r[base + 3]
        == own[3]);
    assert(own[4] is Some && was_done(job, r, ActionView::AddMany { bin, elements: row }));
    assert(own[5] is Some && was_done(job, r, ActionView::LinkMany { elements: row }));
    let target = own[6]->0;
    let pad = own[7]->0;
    assert(own[6] == Some(target) && own[7] == Some(pad) && own[8] is Some && own[9] is Some);
    assert(brought_by(
        job,
        r,
        target,
        ActionView::StaticPad { element: audio.karaoke, name: "sink"@ },
    ));
    assert(brought_by(job, r, pad, ActionView::GhostPad { target }));
    assert(was_done(job, r, ActionView::SetActive { pad, active: true }));
    assert(was_done(job, r, ActionView::AddPad { bin, pad }));
    let target = own[10]->0;
    let pad = own[11]->0;
    assert(own[10] == Some(target) && own[11] == Some(pad) && own[12] is Some && own[13] is Some);
    assert(brought_by(
        job,
        r,
        target,
        ActionView::StaticPad { element: audio.pitch, name: "src"@ },
    ));
    assert(brought_by(job, r, pad, ActionView::GhostPad { target }));
    assert(was_done(job, r, ActionView::SetActive { pad, active: true }));
    assert(was_done(job, r, ActionView::AddPad { bin, pad }));
}

proof fn lemma_pipeline_is_wired(r: Results)
    requires
        reachable(Job::Player, r),
        is_done(Job::Player, r),
    ensures
        was_done(
            Job::Player,
            r,
            ActionView::SetProperty {
                object: r[25]->0,
                name: "video-sink"@,
                value: Value::Object(r[0]->0),
            },
        ),
        was_done(
            Job::Player,
            r,
            ActionView::SetProperty {
                object: r[25]->0,
                name: "audio-sink"@,
                value: Value::Object(r[10]->0),
            },
        ),
        was_done(
            Job::Player,
            r,
            ActionView::SetProperty {
                object: r[25]->0,
                name: "audio-filter"@,
                value: Value::Object(r[13]->0),
            },
        ),
{
    assert(r[26] is Some && r[27] is Some && r[28] is Some);
}

/// The video part that was built by itself: branches are hung on the tee at the end of a linked
/// row of elements, all in the bin, which opens to the tee.
pub proof fn law_built_video_sink(r: Results)
    requires
        reachable(Job::VideoSink, r),
        is_done(Job::VideoSink, r),
    ensures
        video_is_wired(Job::VideoSink, r, built_video(r)),
{
    lemma_video_is_wired(Job::VideoSink, r);
}

/// The audio part that was built by itself: pitch and voice level are set on the two filters that
/// are linked in the bin, which opens to both.
pub proof fn law_built_audio_filter_sink(r: Results)
    requires
        reachable(Job::AudioFilterSink, r),
        is_done(Job::AudioFilterSink, r),
    ensures
        audio_is_wired(Job::AudioFilterSink, r, built_audio(r)),
{
    lemma_audio_is_wired(Job::AudioFilterSink, r, 0);
    assert(r.skip(0) =~= r);
}

/// The video part of a player that was built is wired as the one built by itself, and its bin is
/// what the pipeline shows video with.
pub proof fn law_built_video(r: Results)
    requires
        reachable(Job::Player, r),
        is_done(Job::Player, r),
    ensures
        ({
            let p = built_player(r);
            &&& video_is_wired(Job::Player, r, p.video_handler)
            &&& was_done(
                Job::Player,
                r,
                ActionView::SetProperty {
                    object: p.pipeline,
                    name: "video-sink"@,
                    value: Value::Object(p.video_handler.bin),
                },
            )
        }),
{
    lemma_video_is_wired(Job::Player, r);
    lemma_pipeline_is_wired(r);
}

/// The audio part of a player that was built is wired as the one built by itself; the pipeline
/// sends audio through its bin to its sink.
pub proof fn law_built_audio(r: Results)
    requires
        reachable(Job::Player, r),
        is_done(Job::Player, r),
    ensures
        ({
            let p = built_player(r);
            &&& audio_is_wired(Job::Player, r, p.audio_handler)
            &&& was_done(
                Job::Player,
                r,
                ActionView::SetProperty {
                    object: p.pipeline,
                    name: "audio-sink"@,
                    value: Value::Object(p.audio_handler.sink),
                },
            )
            &&& was_done(
                Job::Player,
                r,
                ActionView::SetProperty {
                    object: p.pipeline,
                    name: "audio-filter"@,
                    value: Value::Object(p.audio_handler.filterbin),
                },
            )
        }),
{
    lemma_audio_is_wired(Job::Player, r, 10);
    lemma_pipeline_is_wired(r);
}

/// The engine's player of a player that was built, and its pipeline.
pub proof fn law_built_play(r: Results)
    requires
        reachable(Job::Player, r),
        is_done(Job::Player, r),
    ensures
        brought_by(Job::Player, r, built_player(r).play, ActionView::NewPlay),
        brought_by(
            Job::Player,
            r,
            built_player(r).pipeline,
            ActionView::Pipeline { play: built_player(r).play },
        ),
{
    assert(r[24] is Some && r[25] is Some);
    assert(r[24] == Some(built_player(r).play));
    assert(r[25] == Some(built_player(r).pipeline));
}

/// A branch: a queue that feeds a sink on the item, both in the bin, and a pad of the tee that
/// feeds the queue.
pub open spec fn branch_is_wired(
    bin: Handle,
    tee: Handle,
    item: Handle,
    r: Results,
    branch: Branch,
) -> bool {
    let job = Job::AddBranch { bin, tee, item };
    let row = seq![branch.queue, branch.sink];
    &&& brought_by(
        job,
        r,
        branch.queue,
        with_property("queue"@, "flush-on-eos"@, Value::Bool(true)),
    )
    &&& brought_by(
        job,
        r,
        branch.sink,
        ActionView::Make {
            factory: "qml6glsink"@,
            own_name: None,
            properties: seq![
                PropertyView { name: "widget"@, value: Value::Object(item) },
                PropertyView { name: "async"@, value: Value::Bool(false) },
            ],
        },
    )
    &&& was_done(job, r, ActionView::AddMany { bin, elements: row })
    &&& was_done(job, r, ActionView::LinkMany { elements: row })
    &&& brought_by(
        job,
        r,
        branch.teepad,
        ActionView::RequestPad { element: tee, template: "src_%u"@ },
    )
    &&& exists|entry: Handle|
        {
            &&& #[trigger] brought_by(
                job,
                r,
                entry,
                ActionView::StaticPad { element: branch.queue, name: "sink"@ },
            )
            &&& was_done(job, r, ActionView::LinkPads { source: branch.teepad, sink: entry })
        }
}

/// A branch that was built is wired to the bin, the tee and the item that it was made for.
pub proof fn law_built_branch(bin: Handle, tee: Handle, item: Handle, r: Results)
    requires
        reachable(Job::AddBranch { bin, tee, item }, r),
        is_done(Job::AddBranch { bin, tee, item }, r),
    ensures
        branch_is_wired(bin, tee, item, r, built_branch(r)),
        brought_by(
            Job::AddBranch { bin, tee, item },
            r,
            r[7]->0,
            ActionView::StaticPad { element: built_branch(r).queue, name: "sink"@ },
        ),
        was_done(
            Job::AddBranch { bin, tee, item },
            r,
            ActionView::LinkPads { source: built_branch(r).teepad, sink: r[7]->0 },
        ),
{
    let job = Job::AddBranch { bin, tee, item };
    let branch = built_branch(r);
    let entry = r[7]->0;
    assert(r[0] is Some && r[1] is Some && r[2] is Some && r[3] is Some && r[6] is Some
        && r[7] is Some && r[8] is Some);
    assert(r[0] == Some(branch.queue));
    assert(r[1] == Some(branch.sink));
    assert(r[6] == Some(branch.teepad));
    assert(r[7] == Some(entry));
    assert(brought_by(
        job,
        r,
        entry,
        ActionView::StaticPad { element: branch.queue, name: "sink"@ },
    ));
    assert(was_done(job, r, ActionView::LinkPads { source: branch.teepad, sink: entry }));
}

} // verus!
