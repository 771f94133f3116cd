//! The player as the program sees it: the operations behind a handle that owns the event loop.
use vstd::prelude::*;

use crate::action::{action_views, Action, ActionView};
use crate::inner::{
    adds_to, after_command, after_message, branch_removed, branch_resumed, choose_track_actions,
    command_actions, is_position, is_valid_command, message_actions, optional_info,
    set_uri_actions, track_chosen_actions, PlayProperty, PlayerInner, PlayerInnerView, Removal,
};
use crate::message::{Command, CommandView, Handle, MediaInfo, PlayEvent, PlayEventView};
use crate::plan::{Job, Results};
use crate::procedure::{outcome_view, progress, standing, Outcome, Procedure};

verus! {

/// What wakes the event loop.
#[derive(Debug, PartialEq, Eq)]
pub enum LoopEvent {
    /// The loop has been cancelled.
    Cancelled,
    /// An event of the media engine; `None` where there will be no more.
    Message(Option<PlayEvent>),
    /// A command of the hub; `None` where none could be received.
    Command(Option<Command>),
}

#[verifier::ext_equal]
pub enum LoopEventView {
    Cancelled,
    Message(Option<PlayEventView>),
    Command(Option<CommandView>),
}

impl View for LoopEvent {
    type V = LoopEventView;

    open spec fn view(&self) -> LoopEventView {
        match *self {
            LoopEvent::Cancelled => LoopEventView::Cancelled,
            LoopEvent::Message(Some(event)) => LoopEventView::Message(Some(event@)),
            LoopEvent::Message(None) => LoopEventView::Message(None),
            LoopEvent::Command(Some(command)) => LoopEventView::Command(Some(command@)),
            LoopEvent::Command(None) => LoopEventView::Command(None),
        }
    }
}

/// What one turn of a running event loop does about an event; `None` where the loop ends.
pub open spec fn turn_actions(p: PlayerInnerView, event: LoopEventView) -> Option<Seq<ActionView>> {
    match event {
        LoopEventView::Cancelled => None,
        LoopEventView::Message(Some(event)) => Some(message_actions(p, event)),
        LoopEventView::Command(Some(command)) => Some(command_actions(p, command)),
        LoopEventView::Message(None) | LoopEventView::Command(None) => Some(seq![]),
    }
}

/// The player after a turn of a running event loop.
pub open spec fn after_turn(p: PlayerInnerView, event: LoopEventView) -> PlayerInnerView {
    match event {
        LoopEventView::Message(Some(event)) => after_message(p, event),
        LoopEventView::Command(Some(command)) => after_command(p, command),
        _ => p,
    }
}

/// Events that a turn of the loop can take.
pub open spec fn is_valid_event(event: LoopEventView) -> bool {
    event matches LoopEventView::Command(Some(command)) ==> is_valid_command(command)
}

/// A player and its event loop.
pub struct Player {
    inner: PlayerInner,
    running: bool,
    joinable: bool,
}

#[verifier::ext_equal]
pub struct PlayerView {
    pub inner: PlayerInnerView,
    /// Whether the event loop has not ended yet.
    pub running: bool,
    /// Whether there is an event loop that nobody has waited for yet.
    pub joinable: bool,
}

impl View for Player {
    type V = PlayerView;

    closed spec fn view(&self) -> PlayerView {
        PlayerView { inner: self.inner@, running: self.running, joinable: self.joinable }
    }
}

/// What a turn does about an event; `None` where the loop ends, or has ended before.
pub open spec fn loop_actions(p: PlayerView, event: LoopEventView) -> Option<Seq<ActionView>> {
    if p.running {
        turn_actions(p.inner, event)
    } else {
        None
    }
}

/// A player and its loop after a turn. A loop that has ended takes no more events.
pub open spec fn after_loop(p: PlayerView, event: LoopEventView) -> PlayerView {
    if p.running {
        PlayerView { inner: after_turn(p.inner, event), running: event !is Cancelled, ..p }
    } else {
        p
    }
}

/// What ends a player: it is stopped, its event loop is cancelled, and its bus is flushed; then,
/// if there still is a loop to wait for, its end is waited for.
pub open spec fn shut_down_actions(p: PlayerView) -> Seq<ActionView> {
    let play = p.inner.play;
    let end = seq![
        ActionView::Stop { play },
        ActionView::CancelLoop,
        ActionView::FlushBus { play },
    ];
    if p.joinable {
        end.push(ActionView::JoinLoop)
    } else {
        end
    }
}

impl Player {
    /// A player whose event loop runs.
    pub fn new(inner: PlayerInner) -> (player: Player)
        ensures
            player@ == (PlayerView { inner: inner@, running: true, joinable: true }),
    {
        Player { inner, running: true, joinable: true }
    }

    /// One turn of the event loop: the actions to perform, or `None` where the loop ends or has
    /// ended.
    pub fn turn(&mut self, event: LoopEvent) -> (actions: Option<Vec<Action>>)
        requires
            is_valid_event(event@),
        ensures
            match actions {
                Some(a) => loop_actions(old(self)@, event@) == Some(action_views(a@)),
                None => loop_actions(old(self)@, event@) is None,
            },
            final(self)@ == after_loop(old(self)@, event@),
    {
        if !self.running {
            return None;
        }
        match event {
            LoopEvent::Cancelled => {
                self.running = false;
                None
            },
            LoopEvent::Message(Some(event)) => Some(self.inner.handle_message(event)),
            LoopEvent::Command(Some(command)) => Some(self.inner.handle_command(command)),
            LoopEvent::Message(None) | LoopEvent::Command(None) => {
                let idle: Vec<Action> = Vec::new();
                assert(action_views(idle@) =~= seq![]);
                Some(idle)
            },
        }
    }

    pub fn play(&self) -> (actions: Vec<Action>)
        ensures
            action_views(actions@) == seq![ActionView::Play { play: self@.inner.play }],
    {
        self.inner.play()
    }

    pub fn pause(&self) -> (actions: Vec<Action>)
        ensures
            action_views(actions@) == seq![ActionView::Pause { play: self@.inner.play }],
    {
        self.inner.pause()
    }

    pub fn stop(&self) -> (actions: Vec<Action>)
        ensures
            action_views(actions@) == seq![ActionView::Stop { play: self@.inner.play }],
    {
        self.inner.stop()
    }

    /// Starts to add a video branch that shows on `item`; [`Player::resume_branch`] takes what
    /// comes of its actions.
    pub fn add_branch(&self, item: Handle) -> (procedure: Procedure)
        ensures
            procedure.wf(),
            procedure.job() == (Job::AddBranch {
                bin: self@.inner.video_handler.bin,
                tee: self@.inner.video_handler.tee,
                item,
            }),
            procedure.results() == Results::empty(),
            !procedure.failed(),
    {
        self.inner.add_branch(item)
    }

    /// Takes the outcome of the next action of a branch that is being added: `None` where there is
    /// more to do, else the new branch's id or why there is none.
    pub fn resume_branch(&mut self, procedure: &mut Procedure, outcome: Outcome) -> (res: Option<
        Result<u32, String>,
    >)
        requires
            old(procedure).wf(),
            adds_to(old(procedure).job(), old(self)@.inner),
            !old(procedure).done(),
            !old(procedure).failed(),
        ensures
            final(procedure).wf(),
            final(procedure).job() == old(procedure).job(),
            final(procedure).failed() <==> res matches Some(Err(_)),
            branch_resumed(
                old(self)@.inner,
                progress(old(procedure).job(), old(procedure).results(), outcome_view(outcome)),
                res,
                final(self)@.inner,
            ),
            match res {
                Some(Err(_)) => final(procedure).results() == old(procedure).results(),
                _ => progress(
                    old(procedure).job(),
                    old(procedure).results(),
                    outcome_view(outcome),
                ) == standing(final(procedure).job(), final(procedure).results()),
            },
            final(self)@ == (PlayerView { inner: final(self)@.inner, ..old(self)@ }),
    {
        self.inner.resume_branch(procedure, outcome)
    }

    /// Forgets a branch. Its sink loses its widget at once; the rest of it is taken down when its
    /// pad is idle.
    pub fn remove_branch(&mut self, id: u32) -> (res: Result<Removal, String>)
        ensures
            branch_removed(old(self)@.inner, id, res, final(self)@.inner),
            final(self)@ == (PlayerView { inner: final(self)@.inner, ..old(self)@ }),
    {
        self.inner.remove_branch(id)
    }

    pub fn seek(&self, nseconds: u64) -> (actions: Vec<Action>)
        requires
            is_position(nseconds),
        ensures
            action_views(actions@) == seq![ActionView::Seek { play: self@.inner.play, nseconds }],
    {
        self.inner.seek(nseconds)
    }

    /// Stops, and sets the medium; the empty text takes it away.
    pub fn set_uri(&self, uri: &str) -> (actions: Vec<Action>)
        ensures
            action_views(actions@) == seq![ActionView::Stop { play: self@.inner.play }]
                + set_uri_actions(self@.inner.play, uri@),
    {
        let mut actions = self.stop();
        let mut medium = self.inner.set_uri(uri);
        let ghost before = action_views(actions@);
        let ghost after = action_views(medium@);
        actions.append(&mut medium);
        assert(action_views(actions@) =~= before + after);
        actions
    }

    /// Takes the media info, if there is one, for an audio stream that is to be chosen.
    pub fn choose_audio_track(&self, track: i32, info: Option<MediaInfo>) -> (actions: Vec<Action>)
        ensures
            action_views(actions@) == choose_track_actions(
                self@.inner.play,
                track,
                optional_info(info),
            ),
    {
        self.inner.choose_audio_track(track, info)
    }

    /// Takes whether the audio stream that was asked for has been chosen.
    pub fn audio_track_chosen(&self, track: i32, chosen: bool) -> (actions: Vec<Action>)
        ensures
            action_views(actions@) == track_chosen_actions(self@.inner.play, track, chosen),
    {
        self.inner.audio_track_chosen(track, chosen)
    }

    /// The engine's player, on whose bus the events come in.
    pub fn play_handle(&self) -> (play: Handle)
        ensures
            play == self@.inner.play,
    {
        self.inner.play_handle()
    }

    /// What is known of playback.
    pub fn props(&self) -> (props: PlayProperty)
        ensures
            props == self@.inner.props,
    {
        self.inner.props()
    }

    /// Ends the player. Its event loop is waited for once only.
    pub fn shut_down(&mut self) -> (actions: Vec<Action>)
        ensures
            action_views(actions@) == shut_down_actions(old(self)@),
            final(self)@ == (PlayerView { joinable: false, ..old(self)@ }),
    {
        let mut actions = self.stop();
        let play = self.inner.play_handle();
        assert(action_views(actions@).len() == 1);
        assert(action_views(actions@)[0] == ActionView::Stop { play });
        actions.push(Action::CancelLoop);
        actions.push(Action::FlushBus { play });
        if self.joinable {
            self.joinable = false;
            actions.push(Action::JoinLoop);
        }
        actions
    }
}

} // verus!
