//! The player's state and its operations.
use std::collections::HashMap;

use vstd::prelude::*;
use vstd::string::*;

use crate::action::{action_views, Action, ActionView, Value};
use crate::message::{
    optional_text, Command, CommandView, Handle, MediaInfo, MediaInfoView, Message,
    MessageView, MsgError, MsgErrorView, PlayEvent, PlayEventView, PlayState,
};
use crate::plan::{
    lemma_all_handles, lemma_branch_handles, Branch, Job, Results,
};
use crate::procedure::{
    outcome_view, progress, standing, Outcome, Procedure, Progress, ProgressView,
};
use crate::text::{decimal, push_decimal};

verus! {

/// The video part: the bin, the tee in it, and the branches that hang on the tee.
pub struct VideoHandler {
    bin: Handle,
    tee: Handle,
    branchs: HashMap<u32, Branch>,
    next_id: u32,
}

#[verifier::ext_equal]
pub struct VideoHandlerView {
    pub bin: Handle,
    pub tee: Handle,
    /// The branches, by their ids.
    pub branchs: Map<u32, Branch>,
    /// The id of the next branch.
    pub next_id: u32,
}

impl View for VideoHandler {
    type V = VideoHandlerView;

    closed spec fn view(&self) -> VideoHandlerView {
        VideoHandlerView {
            bin: self.bin,
            tee: self.tee,
            branchs: self.branchs@,
            next_id: self.next_id,
        }
    }
}

impl VideoHandler {
    /// The bin that shows video.
    pub fn bin(&self) -> (bin: Handle)
        ensures
            bin == self@.bin,
    {
        self.bin
    }

    /// The tee that branches hang on.
    pub fn tee(&self) -> (tee: Handle)
        ensures
            tee == self@.tee,
    {
        self.tee
    }
}

/// The audio part: the sink, and the bin with its two filters.
#[derive(Clone, Copy, Debug, PartialEq, Eq, Structural)]
pub struct AudioHandler {
    pub sink: Handle,
    pub filterbin: Handle,
    pub karaoke: Handle,
    pub pitch: Handle,
}

/// What is known of playback.
#[derive(Clone, Copy, Debug, PartialEq, Eq, Structural)]
pub struct PlayProperty {
    /// The state that was reported last.
    pub state: PlayState,
    /// Whether playback starts again at the end of the stream.
    pub loop_: bool,
}

/// The player behind [`crate::player::Player`].
pub struct PlayerInner {
    play: Handle,
    pipeline: Handle,
    video_handler: VideoHandler,
    audio_handler: AudioHandler,
    props: PlayProperty,
}

#[verifier::ext_equal]
pub struct PlayerInnerView {
    pub play: Handle,
    pub pipeline: Handle,
    pub video_handler: VideoHandlerView,
    pub audio_handler: AudioHandler,
    pub props: PlayProperty,
}

impl View for PlayerInner {
    type V = PlayerInnerView;

    closed spec fn view(&self) -> PlayerInnerView {
        PlayerInnerView {
            play: self.play,
            pipeline: self.pipeline,
            video_handler: self.video_handler@,
            audio_handler: self.audio_handler,
            props: self.props,
        }
    }
}

/// The video part that the results of [`Job::VideoSink`] make.
pub open spec fn built_video(r: Results) -> VideoHandlerView {
    VideoHandlerView { bin: r[0]->0, tee: r[3]->0, branchs: Map::empty(), next_id: 1 }
}

/// The audio part that the results of [`Job::AudioFilterSink`] make.
pub open spec fn built_audio(r: Results) -> AudioHandler {
    AudioHandler { sink: r[0]->0, filterbin: r[3]->0, karaoke: r[1]->0, pitch: r[2]->0 }
}

/// The player that the results of [`Job::Player`] make: stopped, and not looping.
pub open spec fn built_player(r: Results) -> PlayerInnerView {
    PlayerInnerView {
        play: r[24]->0,
        pipeline: r[25]->0,
        video_handler: built_video(r),
        audio_handler: built_audio(r.skip(10)),
        props: PlayProperty { state: PlayState::Stopped, loop_: false },
    }
}

/// The branch that the results of [`Job::AddBranch`] make.
pub open spec fn built_branch(r: Results) -> Branch {
    Branch { teepad: r[6]->0, queue: r[0]->0, sink: r[1]->0 }
}

/// The id after an id. After the last one the count starts again at zero.
pub open spec fn id_after(id: u32) -> u32 {
    if id == u32::MAX {
        0
    } else {
        (id + 1) as u32
    }
}

/// The player with one more branch.
pub open spec fn with_branch(p: PlayerInnerView, branch: Branch) -> PlayerInnerView {
    PlayerInnerView {
        video_handler: VideoHandlerView {
            branchs: p.video_handler.branchs.insert(p.video_handler.next_id, branch),
            next_id: id_after(p.video_handler.next_id),
            ..p.video_handler
        },
        ..p
    }
}

/// The player without the branch.
pub open spec fn without_branch(p: PlayerInnerView, id: u32) -> PlayerInnerView {
    PlayerInnerView {
        video_handler: VideoHandlerView {
            branchs: p.video_handler.branchs.remove(id),
            ..p.video_handler
        },
        ..p
    }
}

/// What is said of an id that no branch has.
pub open spec fn no_such_branch(id: u32) -> Seq<char> {
    "Branch with id "@ + decimal(id as nat) + " not found"@
}

/// Sets the medium, always on a stopped player. The empty text is no medium.
pub open spec fn set_uri_actions(play: Handle, uri: Seq<char>) -> Seq<ActionView> {
    seq![
        ActionView::Stop { play },
        ActionView::SetUri { play, uri: if uri.len() == 0 { None } else { Some(uri) } },
    ]
}

/// What the player does about an event.
pub open spec fn message_actions(p: PlayerInnerView, event: PlayEventView) -> Seq<ActionView> {
    let play = p.play;
    match event {
        PlayEventView::UriLoaded(uri) => seq![ActionView::Send(MessageView::Uri(uri))],
        PlayEventView::PositionUpdated(position) => seq![
            ActionView::Send(MessageView::Position(position.unwrap_or(0))),
        ],
        PlayEventView::DurationChanged(duration) => seq![
            ActionView::Send(MessageView::Duration(duration.unwrap_or(0))),
        ],
        PlayEventView::StateChanged(state) => seq![ActionView::Send(MessageView::State(state))],
        PlayEventView::VolumeChanged(volume) => seq![
            ActionView::Send(MessageView::Volume(volume)),
        ],
        PlayEventView::MediaInfoUpdated(info) => {
            let report = ActionView::Send(MessageView::MediaInfo(info));
            if info.video_streams.len() == 0 {
                seq![report]
            } else {
                seq![ActionView::SetVideoTrackId { play, id: info.video_streams[0] }, report]
            }
        },
        PlayEventView::Buffering(percent) => seq![
            ActionView::Send(MessageView::Buffering(percent)),
        ],
        PlayEventView::EndOfStream => {
            let report = ActionView::Send(MessageView::Eos);
            if p.props.loop_ {
                seq![ActionView::Seek { play, nseconds: 0 }, ActionView::Play { play }, report]
            } else {
                seq![report]
            }
        },
        PlayEventView::Error { code, details } => {
            let message = match details {
                Some(text) => text,
                None => "Unknown error"@,
            };
            seq![ActionView::Send(MessageView::Error(MsgErrorView { code, message }))]
        },
        PlayEventView::Other => seq![],
    }
}

/// The player after an event.
pub open spec fn after_message(p: PlayerInnerView, event: PlayEventView) -> PlayerInnerView {
    match event {
        PlayEventView::StateChanged(state) => PlayerInnerView {
            props: PlayProperty { state, ..p.props },
            ..p
        },
        _ => p,
    }
}

/// What the player does about a command.
pub open spec fn command_actions(p: PlayerInnerView, command: CommandView) -> Seq<ActionView> {
    let play = p.play;
    match command {
        CommandView::PlayUri { uri, tx } => {
            seq![
                ActionView::Stop { play },
                ActionView::Sleep { mseconds: 100 },
                ActionView::AwaitState { pipeline: p.pipeline, timeout_mseconds: 500 },
            ] + set_uri_actions(play, uri) + seq![
                ActionView::Play { play },
                ActionView::Sleep { mseconds: 20 },
                ActionView::Acknowledge { tx },
            ]
        },
        CommandView::Play => seq![ActionView::Play { play }],
        CommandView::Pause => seq![ActionView::Pause { play }],
        CommandView::Stop => seq![ActionView::Stop { play }],
        CommandView::Seek(nseconds) => seq![ActionView::Seek { play, nseconds }],
        CommandView::SetVolume(volume) => seq![ActionView::SetVolume { play, volume }],
        CommandView::SetPitch(pitch) => seq![
            ActionView::SetProperty {
                object: p.audio_handler.pitch,
                name: "pitch"@,
                value: Value::Float(pitch),
            },
            ActionView::Send(MessageView::Pitch(pitch)),
        ],
        CommandView::SetAudioTrack(track) => seq![ActionView::ReadMediaInfo { play, track }],
        CommandView::SetLooping(looping) => seq![ActionView::Send(MessageView::Loop(looping))],
        CommandView::SetVoiceLevel(level) => seq![
            ActionView::SetProperty {
                object: p.audio_handler.karaoke,
                name: "level"@,
                value: Value::Float(level),
            },
            ActionView::Send(MessageView::VoiceLevel(level)),
        ],
    }
}

/// The player after a command.
pub open spec fn after_command(p: PlayerInnerView, command: CommandView) -> PlayerInnerView {
    match command {
        CommandView::SetLooping(looping) => PlayerInnerView {
            props: PlayProperty { loop_: looping, ..p.props },
            ..p
        },
        _ => p,
    }
}

/// Positions that can be sought: all but the largest number, which stands for no time at all.
pub open spec fn is_position(nseconds: u64) -> bool {
    nseconds != u64::MAX
}

/// Commands that can be carried out.
pub open spec fn is_valid_command(command: CommandView) -> bool {
    command matches CommandView::Seek(nseconds) ==> is_position(nseconds)
}

/// The view of an optional media info.
pub open spec fn optional_info(info: Option<MediaInfo>) -> Option<MediaInfoView> {
    match info {
        Some(i) => Some(i@),
        None => None,
    }
}

/// Asks for the audio stream at a place, where the media info is known and has that place.
pub open spec fn choose_track_actions(
    play: Handle,
    track: i32,
    info: Option<MediaInfoView>,
) -> Seq<ActionView> {
    match info {
        Some(i) => if 0 <= track < i.audio_streams.len() {
            seq![ActionView::SetAudioTrackId { play, id: i.audio_streams[track as int], track }]
        } else {
            seq![]
        },
        None => seq![],
    }
}

/// Enables and reports the audio stream that was asked for, if it was chosen.
pub open spec fn track_chosen_actions(play: Handle, track: i32, chosen: bool) -> Seq<ActionView> {
    if chosen {
        seq![
            ActionView::SetAudioTrackEnabled { play, enabled: true },
            ActionView::Send(MessageView::AudioTrack(track)),
        ]
    } else {
        seq![]
    }
}

/// What is left to do about a branch that the player has forgotten: the actions, and the procedure
/// to run when the last of them says so.
pub struct Removal {
    pub actions: Vec<Action>,
    pub detach: Procedure,
}

/// The job adds a branch to this player.
pub open spec fn adds_to(job: Job, p: PlayerInnerView) -> bool {
    job matches Job::AddBranch { bin, tee, .. } && bin == p.video_handler.bin && tee
        == p.video_handler.tee
}

/// What is said, and how the player changes, when a branch that is being added has come to a
/// standing: only a branch that is done counts, and it gets the next id.
pub open spec fn branch_resumed(
    before: PlayerInnerView,
    standing: ProgressView,
    res: Option<Result<u32, String>>,
    after: PlayerInnerView,
) -> bool {
    match res {
        None => standing is Pending && after == before,
        Some(Err(text)) => standing == ProgressView::Failed(text@) && after == before,
        Some(Ok(id)) => {
            &&& standing is Done
            &&& id == before.video_handler.next_id
            &&& after == with_branch(before, built_branch(standing->Done_0))
        },
    }
}

/// What is said, and how the player changes, when a branch is removed.
pub open spec fn branch_removed(
    before: PlayerInnerView,
    id: u32,
    res: Result<Removal, String>,
    after: PlayerInnerView,
) -> bool {
    let handler = before.video_handler;
    match res {
        Ok(removal) => {
            let branch = handler.branchs[id];
            &&& handler.branchs.contains_key(id)
            &&& after == without_branch(before, id)
            &&& action_views(removal.actions@) == seq![
                ActionView::SetProperty {
                    object: branch.sink,
                    name: "widget"@,
                    value: Value::NoObject,
                },
                ActionView::IdleProbe { pad: branch.teepad },
            ]
            &&& removal.detach.wf()
            &&& removal.detach.job() == (Job::DetachBranch {
                bin: handler.bin,
                tee: handler.tee,
                branch,
            })
            &&& removal.detach.results() == Results::empty()
            &&& !removal.detach.failed()
        },
        Err(text) => {
            &&& !handler.branchs.contains_key(id)
            &&& after == before
            &&& text@ == no_such_branch(id)
        },
    }
}

impl PlayerInner {
    /// Starts to build a player; [`PlayerInner::new`] takes what comes of it.
    pub fn build() -> (procedure: Procedure)
        ensures
            procedure.wf(),
            procedure.job() == Job::Player,
            procedure.results() == Results::empty(),
            !procedure.failed(),
    {
        Procedure::start(Job::Player)
    }

    /// The player that was built.
    pub fn new(procedure: &Procedure) -> (inner: PlayerInner)
        requires
            procedure.wf(),
            procedure.job() == Job::Player,
            procedure.done(),
        ensures
            inner@ == built_player(procedure.results()),
    {
        proof {
            lemma_all_handles(procedure.job(), procedure.results());
        }
        PlayerInner {
            play: procedure.result(24),
            pipeline: procedure.result(25),
            video_handler: VideoHandler {
                bin: procedure.result(0),
                tee: procedure.result(3),
                branchs: HashMap::new(),
                next_id: 1,
            },
            audio_handler: AudioHandler {
                sink: procedure.result(10),
                filterbin: procedure.result(13),
                karaoke: procedure.result(11),
                pitch: procedure.result(12),
            },
            props: PlayProperty { state: PlayState::Stopped, loop_: false },
        }
    }

    /// Starts to build the audio part; [`PlayerInner::audio_handler`] takes what comes of it.
    pub fn build_audio_filter_sink() -> (procedure: Procedure)
        ensures
            procedure.wf(),
            procedure.job() == Job::AudioFilterSink,
            procedure.results() == Results::empty(),
            !procedure.failed(),
    {
        Procedure::start(Job::AudioFilterSink)
    }

    /// The audio part that was built.
    pub fn audio_handler(procedure: &Procedure) -> (handler: AudioHandler)
        requires
            procedure.wf(),
            procedure.job() == Job::AudioFilterSink,
            procedure.done(),
        ensures
            handler == built_audio(procedure.results()),
    {
        proof {
            lemma_all_handles(procedure.job(), procedure.results());
        }
        AudioHandler {
            sink: procedure.result(0),
            filterbin: procedure.result(3),
            karaoke: procedure.result(1),
            pitch: procedure.result(2),
        }
    }

    /// Starts to build the video part; [`PlayerInner::video_handler`] takes what comes of it.
    pub fn build_video_sink() -> (procedure: Procedure)
        ensures
            procedure.wf(),
            procedure.job() == Job::VideoSink,
            procedure.results() == Results::empty(),
            !procedure.failed(),
    {
        Procedure::start(Job::VideoSink)
    }

    /// The video part that was built.
    pub fn video_handler(procedure: &Procedure) -> (handler: VideoHandler)
        requires
            procedure.wf(),
            procedure.job() == Job::VideoSink,
            procedure.done(),
        ensures
            handler@ == built_video(procedure.results()),
    {
        proof {
            lemma_all_handles(procedure.job(), procedure.results());
        }
        VideoHandler {
            bin: procedure.result(0),
            tee: procedure.result(3),
            branchs: HashMap::new(),
            next_id: 1,
        }
    }

    pub fn play(&self) -> (actions: Vec<Action>)
        ensures
            action_views(actions@) == seq![ActionView::Play { play: self@.play }],
    {
        vec![Action::Play { play: self.play }]
    }

    pub fn pause(&self) -> (actions: Vec<Action>)
        ensures
            action_views(actions@) == seq![ActionView::Pause { play: self@.play }],
    {
        vec![Action::Pause { play: self.play }]
    }

    pub fn stop(&self) -> (actions: Vec<Action>)
        ensures
            action_views(actions@) == seq![ActionView::Stop { play: self@.play }],
    {
        vec![Action::Stop { play: self.play }]
    }

    pub fn seek(&self, nseconds: u64) -> (actions: Vec<Action>)
        requires
            is_position(nseconds),
        ensures
            action_views(actions@) == seq![ActionView::Seek { play: self@.play, nseconds }],
    {
        vec![Action::Seek { play: self.play, nseconds }]
    }

    /// Stops, and sets the medium; the empty text takes it away.
    pub fn set_uri(&self, uri: &str) -> (actions: Vec<Action>)
        ensures
            action_views(actions@) == set_uri_actions(self@.play, uri@),
    {
        let mut actions = self.stop();
        let medium = if uri.is_empty() {
            None
        } else {
            Some(uri.to_owned())
        };
        assert(action_views(actions@).len() == 1);
        assert(action_views(actions@)[0] == ActionView::Stop { play: self@.play });
        assert(optional_text(medium) == (if uri@.len() == 0 { None } else { Some(uri@) }));
        actions.push(Action::SetUri { play: self.play, uri: medium });
        actions
    }

    /// Starts to add a video branch that shows on `item`; [`PlayerInner::resume_branch`] takes
    /// what comes of its actions.
    pub fn add_branch(&self, item: Handle) -> (procedure: Procedure)
        ensures
            procedure.wf(),
            procedure.job() == (Job::AddBranch {
                bin: self@.video_handler.bin,
                tee: self@.video_handler.tee,
                item,
            }),
            procedure.results() == Results::empty(),
            !procedure.failed(),
    {
        Procedure::start(
            Job::AddBranch { bin: self.video_handler.bin, tee: self.video_handler.tee, item },
        )
    }

    /// Takes the outcome of the next action of a branch that is being added: `None` where there is
    /// more to do, else the new branch's id or why there is none.
    pub fn resume_branch(&mut self, procedure: &mut Procedure, outcome: Outcome) -> (res: Option<
        Result<u32, String>,
    >)
        requires
            old(procedure).wf(),
            adds_to(old(procedure).job(), old(self)@),
            !old(procedure).done(),
            !old(procedure).failed(),
        ensures
            final(procedure).wf(),
            final(procedure).job() == old(procedure).job(),
            final(procedure).failed() <==> res matches Some(Err(_)),
            branch_resumed(
                old(self)@,
                progress(old(procedure).job(), old(procedure).results(), outcome_view(outcome)),
                res,
                final(self)@,
            ),
            match res {
                Some(Err(_)) => final(procedure).results() == old(procedure).results(),
                _ => progress(
                    old(procedure).job(),
                    old(procedure).results(),
                    outcome_view(outcome),
                ) == standing(final(procedure).job(), final(procedure).results()),
            },
    {
        match procedure.resume(outcome) {
            Progress::Pending => None,
            Progress::Failed(text) => Some(Err(text)),
            Progress::Done => {
                proof {
                    lemma_branch_handles(procedure.job(), procedure.results());
                }
                let branch = Branch {
                    teepad: procedure.result(6),
                    queue: procedure.result(0),
                    sink: procedure.result(1),
                };
                let id: u32 = self.video_handler.next_id;
                self.video_handler.next_id = id.wrapping_add(1);
                self.video_handler.branchs.insert(id, branch);
                assert(self@ =~= with_branch(old(self)@, branch));
                Some(Ok(id))
            },
        }
    }

    /// Forgets a branch. Its sink loses its widget at once; the rest of it is taken down when its
    /// pad is idle.
    pub fn remove_branch(&mut self, id: u32) -> (res: Result<Removal, String>)
        ensures
            branch_removed(old(self)@, id, res, final(self)@),
    {
        match self.video_handler.branchs.remove(&id) {
            Some(branch) => {
                assert(self@ =~= without_branch(old(self)@, id));
                let actions: Vec<Action> = vec![
                    Action::SetProperty {
                        object: branch.sink,
                        name: "widget",
                        value: Value::NoObject,
                    },
                    Action::IdleProbe { pad: branch.teepad },
                ];
                assert(action_views(actions@) =~= seq![
                    ActionView::SetProperty {
                        object: branch.sink,
                        name: "widget"@,
                        value: Value::NoObject,
                    },
                    ActionView::IdleProbe { pad: branch.teepad },
                ]);
                let detach = Procedure::start(
                    Job::DetachBranch {
                        bin: self.video_handler.bin,
                        tee: self.video_handler.tee,
                        branch,
                    },
                );
                Ok(Removal { actions, detach })
            },
            None => {
                assert(self@ =~= old(self)@);
                let mut text = "Branch with id ".to_owned();
                push_decimal(&mut text, id);
                text.append(" not found");
                Err(text)
            },
        }
    }

    /// Takes an event of the media engine.
    pub fn handle_message(&mut self, event: PlayEvent) -> (actions: Vec<Action>)
        ensures
            action_views(actions@) == message_actions(old(self)@, event@),
            final(self)@ == after_message(old(self)@, event@),
    {
        let play = self.play;
        match event {
            PlayEvent::UriLoaded(uri) => vec![Action::Send(Message::Uri(uri))],
            PlayEvent::PositionUpdated(position) => {
                vec![Action::Send(Message::Position(position.unwrap_or(0)))]
            },
            PlayEvent::DurationChanged(duration) => {
                vec![Action::Send(Message::Duration(duration.unwrap_or(0)))]
            },
            PlayEvent::StateChanged(state) => {
                self.props.state = state;
                vec![Action::Send(Message::State(state))]
            },
            PlayEvent::VolumeChanged(volume) => vec![Action::Send(Message::Volume(volume))],
            PlayEvent::MediaInfoUpdated(info) => {
                let mut actions: Vec<Action> = Vec::new();
                if info.video_streams.len() > 0 {
                    let id = info.video_streams[0].clone();
                    actions.push(Action::SetVideoTrackId { play, id });
                }
                actions.push(Action::Send(Message::MediaInfo(info)));
                actions
            },
            PlayEvent::Buffering(percent) => vec![Action::Send(Message::Buffering(percent))],
            PlayEvent::EndOfStream => {
                let mut actions: Vec<Action> = Vec::new();
                if self.props.loop_ {
                    actions.push(Action::Seek { play, nseconds: 0 });
                    actions.push(Action::Play { play });
                }
                actions.push(Action::Send(Message::Eos));
                actions
            },
            PlayEvent::Error { code, details } => {
                let message = match details {
                    Some(text) => text,
                    None => "Unknown error".to_owned(),
                };
                vec![Action::Send(Message::Error(MsgError { code, message }))]
            },
            PlayEvent::Other => Vec::new(),
        }
    }

    /// Takes a command of the hub.
    pub fn handle_command(&mut self, command: Command) -> (actions: Vec<Action>)
        requires
            is_valid_command(command@),
        ensures
            action_views(actions@) == command_actions(old(self)@, command@),
            final(self)@ == after_command(old(self)@, command@),
    {
        let play = self.play;
        match command {
            Command::PlayUri { uri, tx } => {
                let mut actions: Vec<Action> = vec![
                    Action::Stop { play },
                    Action::Sleep { mseconds: 100 },
                    Action::AwaitState { pipeline: self.pipeline, timeout_mseconds: 500 },
                ];
                let mut medium = self.set_uri(uri.as_str());
                actions.append(&mut medium);
                actions.push(Action::Play { play });
                actions.push(Action::Sleep { mseconds: 20 });
                actions.push(Action::Acknowledge { tx });
                actions
            },
            Command::Play => self.play(),
            Command::Pause => self.pause(),
            Command::Stop => self.stop(),
            Command::Seek(nseconds) => self.seek(nseconds),
            Command::SetVolume(volume) => vec![Action::SetVolume { play, volume }],
            Command::SetPitch(pitch) => vec![
                Action::SetProperty {
                    object: self.audio_handler.pitch,
                    name: "pitch",
                    value: Value::Float(pitch),
                },
                Action::Send(Message::Pitch(pitch)),
            ],
            Command::SetAudioTrack(track) => vec![Action::ReadMediaInfo { play, track }],
            Command::SetLooping(looping) => {
                self.props.loop_ = looping;
                vec![Action::Send(Message::Loop(looping))]
            },
            Command::SetVoiceLevel(level) => vec![
                Action::SetProperty {
                    object: self.audio_handler.karaoke,
                    name: "level",
                    value: Value::Float(level),
                },
                Action::Send(Message::VoiceLevel(level)),
            ],
        }
    }

    /// Takes the media info, if there is one, for an audio stream that is to be chosen.
    pub fn choose_audio_track(&self, track: i32, info: Option<MediaInfo>) -> (actions: Vec<Action>)
        ensures
            action_views(actions@) == choose_track_actions(
                self@.play,
                track,
                optional_info(info),
            ),
    {
        match info {
            Some(info) => {
                if 0 <= track && (track as usize) < info.audio_streams.len() {
                    let id = info.audio_streams[track as usize].clone();
                    vec![Action::SetAudioTrackId { play: self.play, id, track }]
                } else {
                    Vec::new()
                }
            },
            None => Vec::new(),
        }
    }

    /// Takes whether the audio stream that was asked for has been chosen.
    pub fn audio_track_chosen(&self, track: i32, chosen: bool) -> (actions: Vec<Action>)
        ensures
            action_views(actions@) == track_chosen_actions(self@.play, track, chosen),
    {
        if chosen {
            vec![
                Action::SetAudioTrackEnabled { play: self.play, enabled: true },
                Action::Send(Message::AudioTrack(track)),
            ]
        } else {
            Vec::new()
        }
    }

    /// The engine's player, on whose bus the events come in.
    pub fn play_handle(&self) -> (play: Handle)
        ensures
            play == self@.play,
    {
        self.play
    }

    /// What is known of playback.
    pub fn props(&self) -> (props: PlayProperty)
        ensures
            props == self@.props,
    {
        self.props
    }
}

} // verus!
