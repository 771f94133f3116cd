//! What holds of playback over commands and events.
use vstd::prelude::*;

use crate::action::{ActionView, Value};
use crate::inner::{
    choose_track_actions, command_actions, is_position, message_actions, set_uri_actions,
    track_chosen_actions, PlayerInnerView,
};
use crate::message::{CommandView, Handle, MediaInfoView, MessageView, PlayEventView, PlayState};
use crate::player::{
    after_loop, after_turn, is_valid_event, loop_actions, shut_down_actions, turn_actions,
    LoopEventView, PlayerView,
};

verus! {

/// The player after a row of turns of its event loop.
pub open spec fn after_turns(p: PlayerInnerView, events: Seq<LoopEventView>) -> PlayerInnerView
    decreases events.len(),
{
    if events.len() == 0 {
        p
    } else {
        after_turn(after_turns(p, events.drop_last()), events.last())
    }
}

/// What the last command about looping among the events says, if there is one.
pub open spec fn last_looping(events: Seq<LoopEventView>) -> Option<bool>
    decreases events.len(),
{
    if events.len() == 0 {
        None
    } else {
        match events.last() {
            LoopEventView::Command(Some(CommandView::SetLooping(looping))) => Some(looping),
            _ => last_looping(events.drop_last()),
        }
    }
}

/// What the last event about the state among the events says, if there is one.
pub open spec fn last_state(events: Seq<LoopEventView>) -> Option<PlayState>
    decreases events.len(),
{
    if events.len() == 0 {
        None
    } else {
        match events.last() {
            LoopEventView::Message(Some(PlayEventView::StateChanged(state))) => Some(state),
            _ => last_state(events.drop_last()),
        }
    }
}

/// However many commands and events have come: the player loops as it was last told, it knows the
/// state that was last reported, and nothing else of it has changed.
pub proof fn law_turns(p: PlayerInnerView, events: Seq<LoopEventView>)
    ensures
        ({
            let q = after_turns(p, events);
            &&& q.props.loop_ == last_looping(events).unwrap_or(p.props.loop_)
            &&& q.props.state == last_state(events).unwrap_or(p.props.state)
            &&& q == PlayerInnerView { props: q.props, ..p }
        }),
    decreases events.len(),
{
    if events.len() > 0 {
        law_turns(p, events.drop_last());
    }
}

/// At the end of the stream a player that was last told to loop goes back to the start, plays, and
/// then reports the end; one that was last told not to loop, or that is new and was never told,
/// only reports it.
pub proof fn law_loops_at_the_end(p: PlayerInnerView, events: Seq<LoopEventView>)
    requires
        !p.props.loop_,
    ensures
        message_actions(after_turns(p, events), PlayEventView::EndOfStream) == if last_looping(
            events,
        ) == Some(true) {
            seq![
                ActionView::Seek { play: p.play, nseconds: 0 },
                ActionView::Play { play: p.play },
                ActionView::Send(MessageView::Eos),
            ]
        } else {
            seq![ActionView::Send(MessageView::Eos)]
        },
{
    law_turns(p, events);
}

/// Every event but those that the player has no use for is reported to the hub, once, and after
/// whatever else is done about it.
pub proof fn law_events_are_reported(p: PlayerInnerView, event: PlayEventView)
    ensures
        event is Other ==> message_actions(p, event).len() == 0,
        event !is Other ==> {
            let actions = message_actions(p, event);
            &&& actions.len() > 0
            &&& actions.last() is Send
            &&& forall|i: int| 0 <= i < actions.len() - 1 ==> actions[i] !is Send
        },
{
}

/// A medium is only ever set right after a stop, and the empty text is never set as one.
pub open spec fn sets_uri_stopped(play: Handle, actions: Seq<ActionView>) -> bool {
    forall|i: int| #![trigger actions[i]] 0 <= i < actions.len() && actions[i] is SetUri ==> {
        &&& i > 0
        &&& actions[i - 1] == ActionView::Stop { play }
        &&& actions[i] matches ActionView::SetUri { play: other, uri } && other == play && (
        uri matches Some(text) ==> text.len() > 0)
    }
}

/// Whatever the player is asked to do, it sets a medium only when it has just stopped.
pub proof fn law_uri_is_set_stopped(p: PlayerInnerView, event: LoopEventView, uri: Seq<char>)
    ensures
        sets_uri_stopped(p.play, set_uri_actions(p.play, uri)),
        turn_actions(p, event) matches Some(actions) ==> sets_uri_stopped(p.play, actions),
{
}

/// Every seek that the event loop asks for is to a position.
pub proof fn law_seeks_are_positions(p: PlayerInnerView, event: LoopEventView)
    requires
        is_valid_event(event),
    ensures
        turn_actions(p, event) matches Some(actions) ==> forall|i: int|
            0 <= i < actions.len() ==> (#[trigger] actions[i] matches ActionView::Seek {
                play,
                nseconds,
            } ==> play == p.play && is_position(nseconds)),
{
}

/// A setting is reported with the value that it was given, after it was given.
pub proof fn law_settings_are_reported(p: PlayerInnerView, command: CommandView)
    ensures
        command matches CommandView::SetPitch(pitch) ==> command_actions(p, command) == seq![
            ActionView::SetProperty {
                object: p.audio_handler.pitch,
                name: "pitch"@,
                value: Value::Float(pitch),
            },
            ActionView::Send(MessageView::Pitch(pitch)),
        ],
        command matches CommandView::SetVoiceLevel(level) ==> command_actions(p, command) == seq![
            ActionView::SetProperty {
                object: p.audio_handler.karaoke,
                name: "level"@,
                value: Value::Float(level),
            },
            ActionView::Send(MessageView::VoiceLevel(level)),
        ],
        command matches CommandView::SetLooping(looping) ==> {
            &&& after_turn(p, LoopEventView::Command(Some(command))).props.loop_ == looping
            &&& command_actions(p, command) == seq![ActionView::Send(MessageView::Loop(looping))]
        },
{
}

/// A command for an audio stream, from the command to the report: if the media info is known and
/// has that place, the stream there is asked for, and if the engine chooses it, it is enabled and
/// then reported. Nothing else is done.
pub proof fn law_audio_track(
    p: PlayerInnerView,
    track: i32,
    info: Option<MediaInfoView>,
    chosen: bool,
)
    ensures
        command_actions(p, CommandView::SetAudioTrack(track)) == seq![
            ActionView::ReadMediaInfo { play: p.play, track },
        ],
        ({
            let asked = choose_track_actions(p.play, track, info);
            let told = if asked.len() == 1 {
                track_chosen_actions(p.play, track, chosen)
            } else {
                seq![]
            };
            if info is Some && 0 <= track < info->0.audio_streams.len() {
                &&& asked == seq![
                    ActionView::SetAudioTrackId {
                        play: p.play,
                        id: info->0.audio_streams[track as int],
                        track,
                    },
                ]
                &&& told == if chosen {
                    seq![
                        ActionView::SetAudioTrackEnabled { play: p.play, enabled: true },
                        ActionView::Send(MessageView::AudioTrack(track)),
                    ]
                } else {
                    seq![]
                }
            } else {
                asked == Seq::<ActionView>::empty() && told == Seq::<ActionView>::empty()
            }
        }),
{
}

/// Only a cancelled loop ends.
pub proof fn law_only_cancelling_ends_the_loop(p: PlayerView, event: LoopEventView)
    requires
        p.running,
    ensures
        loop_actions(p, event) is None <==> event is Cancelled,
        after_loop(p, event).running <==> event !is Cancelled,
{
}

/// A player and its loop after a row of turns.
pub open spec fn after_loops(p: PlayerView, events: Seq<LoopEventView>) -> PlayerView
    decreases events.len(),
{
    if events.len() == 0 {
        p
    } else {
        after_loop(after_loops(p, events.drop_last()), events.last())
    }
}

/// A loop that is not cancelled runs on, and takes every event.
pub proof fn law_loop_takes_every_event(p: PlayerView, events: Seq<LoopEventView>)
    requires
        p.running,
        forall|i: int| 0 <= i < events.len() ==> #[trigger] events[i] !is Cancelled,
    ensures
        after_loops(p, events) == (PlayerView { inner: after_turns(p.inner, events), ..p }),
    decreases events.len(),
{
    if events.len() > 0 {
        let before = events.drop_last();
        assert forall|i: int| 0 <= i < before.len() implies #[trigger] before[i] !is Cancelled by {
            assert(events[i] !is Cancelled);
        }
        law_loop_takes_every_event(p, before);
        assert(events[events.len() - 1] !is Cancelled);
    }
}

/// Whatever comes after a loop was cancelled changes nothing and leads to no action.
pub proof fn law_cancelled_loop_is_over(
    p: PlayerView,
    events: Seq<LoopEventView>,
    more: Seq<LoopEventView>,
    event: LoopEventView,
)
    requires
        events.len() > 0,
        events.last() is Cancelled,
    ensures
        !after_loops(p, events).running,
        after_loops(p, events + more) == after_loops(p, events),
        loop_actions(after_loops(p, events + more), event) is None,
    decreases more.len(),
{
    if more.len() == 0 {
        assert(events + more =~= events);
    } else {
        law_cancelled_loop_is_over(p, events, more.drop_last(), event);
        assert((events + more).drop_last() =~= events + more.drop_last());
    }
}

/// The event loop is waited for once, last of all; to end an ended player again stops and flushes
/// it, and waits for nothing.
pub proof fn law_loop_is_joined_once(p: PlayerView)
    requires
        p.joinable,
    ensures
        ({
            let ended = PlayerView { joinable: false, ..p };
            &&& shut_down_actions(p).last() == ActionView::JoinLoop
            &&& shut_down_actions(p).drop_last() == shut_down_actions(ended)
            &&& !shut_down_actions(ended).contains(ActionView::JoinLoop)
        }),
{
    let ended = PlayerView { joinable: false, ..p };
    assert(shut_down_actions(p).drop_last() =~= shut_down_actions(ended));
}

} // verus!
