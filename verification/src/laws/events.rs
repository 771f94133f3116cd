//! What the player makes of the engine's events, and what a turn of its event loop comes to.
use vstd::prelude::*;

use crate::action::{action_views, Action};
use crate::inner::PlayerInner;
use crate::laws::operations::lemma_action_views;
use crate::laws::playback::{after_loops, last_looping, law_loop_takes_every_event, law_turns};
use crate::message::{Command, MediaInfo, Message, PlayEvent, PlayState};
use crate::player::{LoopEvent, LoopEventView, Player, PlayerView};

verus! {

/// A medium that was loaded, a position, a duration, a volume and a filling of the buffer are
/// reported as they are, and that is all; a position or a duration that is not known is zero. The
/// player is left as it was.
pub proof fn law_plain_reports(p: &mut PlayerInner, event: PlayEvent, actions: Vec<Action>)
    requires
        call_ensures(PlayerInner::handle_message, (p, event), actions),
        event is UriLoaded || event is PositionUpdated || event is DurationChanged
            || event is VolumeChanged || event is Buffering,
    ensures
        final(p)@ == old(p)@,
        actions@.len() == 1,
        match (event, actions@[0]) {
            (PlayEvent::UriLoaded(uri), Action::Send(Message::Uri(told))) => told@ == uri@,
            (PlayEvent::PositionUpdated(Some(at)), Action::Send(Message::Position(told))) => told
                == at,
            (PlayEvent::PositionUpdated(None), Action::Send(Message::Position(told))) => told == 0,
            (PlayEvent::DurationChanged(Some(of)), Action::Send(Message::Duration(told))) => told
                == of,
            (PlayEvent::DurationChanged(None), Action::Send(Message::Duration(told))) => told == 0,
            (PlayEvent::VolumeChanged(volume), Action::Send(Message::Volume(told))) => told
                == volume,
            (PlayEvent::Buffering(percent), Action::Send(Message::Buffering(told))) => told
                == percent,
            _ => false,
        },
{
    lemma_action_views(actions@);
    assert(actions@[0]@ == action_views(actions@)[0]);
}

/// A state is kept and reported, whatever was kept before, and changes nothing else.
pub proof fn law_state_report(p: &mut PlayerInner, state: PlayState, actions: Vec<Action>)
    requires
        call_ensures(PlayerInner::handle_message, (p, PlayEvent::StateChanged(state)), actions),
    ensures
        actions@ == seq![Action::Send(Message::State(state))],
        final(p)@.props.state == state,
        final(p)@.props.loop_ == old(p)@.props.loop_,
        final(p)@.play == old(p)@.play,
        final(p)@.pipeline == old(p)@.pipeline,
        final(p)@.video_handler == old(p)@.video_handler,
        final(p)@.audio_handler == old(p)@.audio_handler,
{
    lemma_action_views(actions@);
    assert(actions@[0]@ == action_views(actions@)[0]);
}

/// The report is of this media info: its object and all its streams.
pub open spec fn reports_info(action: Action, info: MediaInfo) -> bool {
    action matches Action::Send(Message::MediaInfo(told)) && {
        &&& told.object == info.object
        &&& told.video_streams@.len() == info.video_streams@.len()
        &&& forall|i: int|
            #![trigger told.video_streams@[i]]
            0 <= i < info.video_streams@.len() ==> told.video_streams@[i]@
                == info.video_streams@[i]@
        &&& told.audio_streams@.len() == info.audio_streams@.len()
        &&& forall|i: int|
            #![trigger told.audio_streams@[i]]
            0 <= i < info.audio_streams@.len() ==> told.audio_streams@[i]@
                == info.audio_streams@[i]@
    }
}

/// Of media that have video, be it one stream or many, the first video stream is chosen and then
/// the media info is reported; without video it is only reported. The player is left as it was.
pub proof fn law_first_video_stream(p: &mut PlayerInner, info: MediaInfo, actions: Vec<Action>)
    requires
        call_ensures(PlayerInner::handle_message, (p, PlayEvent::MediaInfoUpdated(info)), actions),
    ensures
        final(p)@ == old(p)@,
        actions@.len() >= 1,
        reports_info(actions@.last(), info),
        info.video_streams@.len() == 0 ==> actions@.len() == 1,
        info.video_streams@.len() > 0 ==> {
            &&& actions@.len() == 2
            &&& actions@[0] matches Action::SetVideoTrackId { play, id } && play == old(p)@.play
                && id@ == info.video_streams@[0]@
        },
{
    lemma_action_views(actions@);
    let last = actions@.len() - 1;
    assert(actions@[0]@ == action_views(actions@)[0]);
    assert(actions@[last]@ == action_views(actions@)[last]);
    if let Action::Send(Message::MediaInfo(told)) = actions@[last] {
        assert(told@ == info@);
        assert(told@.video_streams.len() == info@.video_streams.len());
        assert(told@.audio_streams.len() == info@.audio_streams.len());
        assert forall|i: int|
            #![trigger told.video_streams@[i]]
            0 <= i < info.video_streams@.len() implies told.video_streams@[i]@
            == info.video_streams@[i]@ by {
            assert(told@.video_streams[i] == info@.video_streams[i]);
        }
        assert forall|i: int|
            #![trigger told.audio_streams@[i]]
            0 <= i < info.audio_streams@.len() implies told.audio_streams@[i]@
            == info.audio_streams@[i]@ by {
            assert(told@.audio_streams[i] == info@.audio_streams[i]);
        }
    }
}

/// At the end of the stream a looping player goes back to the start, plays, and then reports the
/// end, in every state of playback; one that does not loop only reports it. The player is left as
/// it was.
pub proof fn law_end_of_stream(p: &mut PlayerInner, actions: Vec<Action>)
    requires
        call_ensures(PlayerInner::handle_message, (p, PlayEvent::EndOfStream), actions),
    ensures
        final(p)@ == old(p)@,
        old(p)@.props.loop_ ==> actions@ == seq![
            Action::Seek { play: old(p)@.play, nseconds: 0 },
            Action::Play { play: old(p)@.play },
            Action::Send(Message::Eos),
        ],
        !old(p)@.props.loop_ ==> actions@ == seq![Action::Send(Message::Eos)],
{
    lemma_action_views(actions@);
    assert(actions@[0]@ == action_views(actions@)[0]);
    if old(p)@.props.loop_ {
        assert(actions@[1]@ == action_views(actions@)[1]);
        assert(actions@[2]@ == action_views(actions@)[2]);
    }
}

/// An error is reported with its code and its details, or, where it has none, as unknown. The
/// player is left as it was.
pub proof fn law_error_report(
    p: &mut PlayerInner,
    code: i32,
    details: Option<String>,
    actions: Vec<Action>,
)
    requires
        call_ensures(
            PlayerInner::handle_message,
            (p, PlayEvent::Error { code, details }),
            actions,
        ),
    ensures
        final(p)@ == old(p)@,
        actions@.len() == 1,
        actions@[0] matches Action::Send(Message::Error(error)) && {
            &&& error.code == code
            &&& error.message@ == match details {
                Some(text) => text@,
                None => "Unknown error"@,
            }
        },
{
    lemma_action_views(actions@);
    assert(actions@[0]@ == action_views(actions@)[0]);
}

/// A report that the player has no use for leads to nothing.
pub proof fn law_other_reports(p: &mut PlayerInner, actions: Vec<Action>)
    requires
        call_ensures(PlayerInner::handle_message, (p, PlayEvent::Other), actions),
    ensures
        final(p)@ == old(p)@,
        actions@.len() == 0,
{
    lemma_action_views(actions@);
}

/// What an event leads to does not hang on the state of playback or on the branches: players of
/// the same engine's player that both loop, or both do not, do the same.
pub proof fn law_events_in_every_state(
    p: &mut PlayerInner,
    q: &mut PlayerInner,
    event: PlayEvent,
    a: Vec<Action>,
    b: Vec<Action>,
)
    requires
        old(p)@.play == old(q)@.play,
        old(p)@.props.loop_ == old(q)@.props.loop_,
        call_ensures(PlayerInner::handle_message, (p, event), a),
        call_ensures(PlayerInner::handle_message, (q, event), b),
    ensures
        action_views(a@) == action_views(b@),
{
}

/// A turn of a running loop on an event comes to exactly what the event's handler decides.
pub proof fn law_turn_on_event(
    p: &mut Player,
    q: &mut PlayerInner,
    event: PlayEvent,
    turned: Option<Vec<Action>>,
    handled: Vec<Action>,
)
    requires
        old(p)@.running,
        old(p)@.inner == old(q)@,
        call_ensures(Player::turn, (p, LoopEvent::Message(Some(event))), turned),
        call_ensures(PlayerInner::handle_message, (q, event), handled),
    ensures
        turned matches Some(actions) && action_views(actions@) == action_views(handled@),
        final(p)@ == (PlayerView { inner: final(q)@, ..old(p)@ }),
{
}

/// A turn of a running loop on a command comes to exactly what the command's handler decides.
pub proof fn law_turn_on_command(
    p: &mut Player,
    q: &mut PlayerInner,
    command: Command,
    turned: Option<Vec<Action>>,
    handled: Vec<Action>,
)
    requires
        old(p)@.running,
        old(p)@.inner == old(q)@,
        call_ensures(Player::turn, (p, LoopEvent::Command(Some(command))), turned),
        call_ensures(PlayerInner::handle_command, (q, command), handled),
    ensures
        turned matches Some(actions) && action_views(actions@) == action_views(handled@),
        final(p)@ == (PlayerView { inner: final(q)@, ..old(p)@ }),
{
}

/// A turn on nothing does nothing, and the loop runs on; a turn on being cancelled ends the loop,
/// and changes nothing else; and a loop that has ended takes nothing.
pub proof fn law_turn_on_nothing(p: &mut Player, event: LoopEvent, turned: Option<Vec<Action>>)
    requires
        call_ensures(Player::turn, (p, event), turned),
        match event {
            LoopEvent::Message(Some(_)) | LoopEvent::Command(Some(_)) => !old(p)@.running,
            _ => true,
        },
    ensures
        final(p)@.inner == old(p)@.inner,
        final(p)@.joinable == old(p)@.joinable,
        final(p)@.running == (old(p)@.running && event !is Cancelled),
        turned is Some <==> old(p)@.running && event !is Cancelled,
        turned matches Some(actions) ==> actions@.len() == 0,
{
    if let Some(actions) = turned {
        lemma_action_views(actions@);
    }
}

/// A turn can be taken on everything but a command to seek to the largest number, in every state.
pub proof fn law_turns_are_taken(p: &mut Player, event: LoopEvent)
    requires
        event matches LoopEvent::Command(Some(Command::Seek(to))) ==> to < u64::MAX,
    ensures
        call_requires(Player::turn, (p, event)),
{
}

/// However many events and commands a running loop has taken: a turn on the end of the stream goes
/// back to the start, plays and reports the end, if the player was last told to loop, and only
/// reports it if it was last told not to, or is new and was never told.
pub proof fn law_turn_at_the_end(
    start: PlayerView,
    events: Seq<LoopEventView>,
    p: &mut Player,
    turned: Option<Vec<Action>>,
)
    requires
        start.running,
        !start.inner.props.loop_,
        forall|i: int| 0 <= i < events.len() ==> #[trigger] events[i] !is Cancelled,
        old(p)@ == after_loops(start, events),
        call_ensures(Player::turn, (p, LoopEvent::Message(Some(PlayEvent::EndOfStream))), turned),
    ensures
        turned matches Some(actions) && actions@ == if last_looping(events) == Some(true) {
            seq![
                Action::Seek { play: start.inner.play, nseconds: 0 },
                Action::Play { play: start.inner.play },
                Action::Send(Message::Eos),
            ]
        } else {
            seq![Action::Send(Message::Eos)]
        },
        final(p)@ == old(p)@,
{
    law_loop_takes_every_event(start, events);
    law_turns(start.inner, events);
    if let Some(actions) = turned {
        lemma_action_views(actions@);
        assert(actions@[0]@ == action_views(actions@)[0]);
        if last_looping(events) == Some(true) {
            assert(actions@[1]@ == action_views(actions@)[1]);
            assert(actions@[2]@ == action_views(actions@)[2]);
            assert(actions@ =~= seq![
                Action::Seek { play: start.inner.play, nseconds: 0 },
                Action::Play { play: start.inner.play },
                Action::Send(Message::Eos),
            ]);
        } else {
            assert(actions@ =~= seq![Action::Send(Message::Eos)]);
        }
    }
}

/// A new player's loop runs and is there to be waited for.
pub proof fn law_new_loop(inner: PlayerInner, player: Player)
    requires
        call_ensures(Player::new, (inner,), player),
    ensures
        player@.inner == inner@,
        player@.running,
        player@.joinable,
{
}

/// To end a player stops the engine's player, then cancels the loop, then flushes the bus, and
/// last, if the loop was not waited for before, waits for it. Nothing else of the player changes.
pub proof fn law_shut_down(p: &mut Player, actions: Vec<Action>)
    requires
        call_ensures(Player::shut_down, (p,), actions),
    ensures
        actions@.len() == if old(p)@.joinable {
            4int
        } else {
            3int
        },
        actions@[0] == (Action::Stop { play: old(p)@.inner.play }),
        actions@[1] == Action::CancelLoop,
        actions@[2] == (Action::FlushBus { play: old(p)@.inner.play }),
        old(p)@.joinable ==> actions@[3] == Action::JoinLoop,
        !final(p)@.joinable,
        final(p)@.inner == old(p)@.inner,
        final(p)@.running == old(p)@.running,
{
    lemma_action_views(actions@);
    assert(actions@[0]@ == action_views(actions@)[0]);
    assert(actions@[1]@ == action_views(actions@)[1]);
    assert(actions@[2]@ == action_views(actions@)[2]);
    if old(p)@.joinable {
        assert(actions@[3]@ == action_views(actions@)[3]);
    }
}

} // verus!
