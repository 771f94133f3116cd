//! What the player's operations and commands ask for, of every player and on every argument.
//!
//! Each law speaks of whatever a call may return: `call_ensures(f, arguments, result)` holds of
//! every result that a call of `f` can have.
use vstd::prelude::*;

use crate::action::{action_views, property_views, Action, ActionView, Value};
use crate::inner::{PlayProperty, PlayerInner};
use crate::laws::playback::sets_uri_stopped;
use crate::message::{Command, Handle, MediaInfo, Message};
use crate::player::Player;

verus! {

/// The view of each action stands where the action stands.
pub(crate) proof fn lemma_action_views(actions: Seq<Action>)
    ensures
        action_views(actions).len() == actions.len(),
        forall|i: int|
            #![trigger actions[i]]
            0 <= i < actions.len() ==> action_views(actions)[i] == actions[i]@,
{
}

/// The action sets exactly this medium; the empty text is none.
pub open spec fn sets_medium(action: Action, play: Handle, text: Seq<char>) -> bool {
    match action {
        Action::SetUri { play: on, uri: Some(uri) } => on == play && uri@ == text && text.len() > 0,
        Action::SetUri { play: on, uri: None } => on == play && text.len() == 0,
        _ => false,
    }
}

/// To play asks the engine's player to play, and for nothing else.
pub proof fn law_play(p: Player, a: Vec<Action>, q: PlayerInner, b: Vec<Action>)
    requires
        call_ensures(Player::play, (&p,), a),
        call_ensures(PlayerInner::play, (&q,), b),
    ensures
        a@ == seq![Action::Play { play: p@.inner.play }],
        b@ == seq![Action::Play { play: q@.play }],
{
    lemma_action_views(a@);
    lemma_action_views(b@);
    assert(a@[0]@ == ActionView::Play { play: p@.inner.play });
    assert(b@[0]@ == ActionView::Play { play: q@.play });
}

/// To pause asks the engine's player to pause, and for nothing else.
pub proof fn law_pause(p: Player, a: Vec<Action>, q: PlayerInner, b: Vec<Action>)
    requires
        call_ensures(Player::pause, (&p,), a),
        call_ensures(PlayerInner::pause, (&q,), b),
    ensures
        a@ == seq![Action::Pause { play: p@.inner.play }],
        b@ == seq![Action::Pause { play: q@.play }],
{
    lemma_action_views(a@);
    lemma_action_views(b@);
    assert(a@[0]@ == ActionView::Pause { play: p@.inner.play });
    assert(b@[0]@ == ActionView::Pause { play: q@.play });
}

/// To stop asks the engine's player to stop, and for nothing else.
pub proof fn law_stop(p: Player, a: Vec<Action>, q: PlayerInner, b: Vec<Action>)
    requires
        call_ensures(Player::stop, (&p,), a),
        call_ensures(PlayerInner::stop, (&q,), b),
    ensures
        a@ == seq![Action::Stop { play: p@.inner.play }],
        b@ == seq![Action::Stop { play: q@.play }],
{
    lemma_action_views(a@);
    lemma_action_views(b@);
    assert(a@[0]@ == ActionView::Stop { play: p@.inner.play });
    assert(b@[0]@ == ActionView::Stop { play: q@.play });
}

/// To seek asks the engine's player to go to that position, and for nothing else.
pub proof fn law_seek(p: Player, a: Vec<Action>, q: PlayerInner, b: Vec<Action>, nseconds: u64)
    requires
        call_ensures(Player::seek, (&p, nseconds), a),
        call_ensures(PlayerInner::seek, (&q, nseconds), b),
    ensures
        a@ == seq![Action::Seek { play: p@.inner.play, nseconds }],
        b@ == seq![Action::Seek { play: q@.play, nseconds }],
{
    lemma_action_views(a@);
    lemma_action_views(b@);
    assert(a@[0]@ == ActionView::Seek { play: p@.inner.play, nseconds });
    assert(b@[0]@ == ActionView::Seek { play: q@.play, nseconds });
}

/// To set a medium stops the engine's player, and last of all sets exactly that medium, once.
pub proof fn law_set_uri(p: Player, a: Vec<Action>, q: PlayerInner, b: Vec<Action>, uri: &str)
    requires
        call_ensures(Player::set_uri, (&p, uri), a),
        call_ensures(PlayerInner::set_uri, (&q, uri), b),
    ensures
        a@.len() == 3,
        a@[0] == (Action::Stop { play: p@.inner.play }),
        a@[1] == (Action::Stop { play: p@.inner.play }),
        sets_medium(a@[2], p@.inner.play, uri@),
        b@.len() == 2,
        b@[0] == (Action::Stop { play: q@.play }),
        sets_medium(b@[1], q@.play, uri@),
{
    lemma_action_views(a@);
    lemma_action_views(b@);
    assert(a@[0]@ == ActionView::Stop { play: p@.inner.play });
    assert(a@[1]@ == ActionView::Stop { play: p@.inner.play });
    assert(a@[2]@ is SetUri);
    assert(b@[0]@ == ActionView::Stop { play: q@.play });
    assert(b@[1]@ is SetUri);
}

/// The commands to play, pause, stop, seek and set the volume ask the engine's player for just
/// that, in every state, and leave the player as it was.
pub proof fn law_control_commands(p: &mut PlayerInner, command: Command, actions: Vec<Action>)
    requires
        call_ensures(PlayerInner::handle_command, (p, command), actions),
        command is Play || command is Pause || command is Stop || command is Seek
            || command is SetVolume,
    ensures
        final(p)@ == old(p)@,
        actions@.len() == 1,
        match (command, actions@[0]) {
            (Command::Play, Action::Play { play }) => play == old(p)@.play,
            (Command::Pause, Action::Pause { play }) => play == old(p)@.play,
            (Command::Stop, Action::Stop { play }) => play == old(p)@.play,
            (Command::Seek(to), Action::Seek { play, nseconds }) => {
                play == old(p)@.play && nseconds == to
            },
            (Command::SetVolume(to), Action::SetVolume { play, volume }) => {
                play == old(p)@.play && volume == to
            },
            _ => false,
        },
{
    lemma_action_views(actions@);
    assert(actions@[0]@ == action_views(actions@)[0]);
}

/// The commands to play, pause, stop and seek ask for what the operations of the same name do.
pub proof fn law_commands_are_the_operations(
    p: &mut PlayerInner,
    q: PlayerInner,
    command: Command,
    actions: Vec<Action>,
    direct: Vec<Action>,
)
    requires
        call_ensures(PlayerInner::handle_command, (p, command), actions),
        q@.play == old(p)@.play,
        match command {
            Command::Play => call_ensures(PlayerInner::play, (&q,), direct),
            Command::Pause => call_ensures(PlayerInner::pause, (&q,), direct),
            Command::Stop => call_ensures(PlayerInner::stop, (&q,), direct),
            Command::Seek(nseconds) => call_ensures(PlayerInner::seek, (&q, nseconds), direct),
            _ => false,
        },
    ensures
        action_views(actions@) == action_views(direct@),
{
}

/// The command to play a medium: it waits on a stopped player, sets exactly that medium on a
/// stopped player, starts it, waits again, and acknowledges. The player is left as it was.
pub proof fn law_play_uri(
    p: &mut PlayerInner,
    uri: String,
    tx: Handle,
    actions: Vec<Action>,
)
    requires
        call_ensures(PlayerInner::handle_command, (p, Command::PlayUri { uri, tx }), actions),
    ensures
        final(p)@ == old(p)@,
        ({
            let play = old(p)@.play;
            let a = actions@;
            &&& a.len() == 8
            &&& a[0] == Action::Stop { play }
            &&& a[1] == Action::Sleep { mseconds: 100 }
            &&& a[2] == Action::AwaitState { pipeline: old(p)@.pipeline, timeout_mseconds: 500 }
            &&& a[3] == Action::Stop { play }
            &&& sets_medium(a[4], play, uri@)
            &&& a[5] == Action::Play { play }
            &&& a[6] == Action::Sleep { mseconds: 20 }
            &&& a[7] == Action::Acknowledge { tx }
        }),
{
    lemma_action_views(actions@);
    let a = actions@;
    assert(a[0]@ == action_views(a)[0] && a[1]@ == action_views(a)[1] && a[2]@ == action_views(
        a,
    )[2] && a[3]@ == action_views(a)[3]);
    assert(a[4]@ == action_views(a)[4] && a[5]@ == action_views(a)[5] && a[6]@ == action_views(
        a,
    )[6] && a[7]@ == action_views(a)[7]);
}

/// Playback of a medium that was asked for by command is started after the medium was set and is
/// not stopped or paused after that; the request is acknowledged once, last of all.
pub proof fn law_play_uri_plays(
    p: &mut PlayerInner,
    uri: String,
    tx: Handle,
    actions: Vec<Action>,
    set: int,
)
    requires
        call_ensures(PlayerInner::handle_command, (p, Command::PlayUri { uri, tx }), actions),
        0 <= set < actions@.len(),
        actions@[set] is SetUri,
    ensures
        sets_medium(actions@[set], old(p)@.play, uri@),
        forall|other: int|
            #![trigger actions@[other]]
            0 <= other < actions@.len() && other != set ==> actions@[other] !is SetUri,
        exists|start: int|
            {
                &&& set < start < actions@.len() - 1
                &&& #[trigger] actions@[start] == Action::Play { play: old(p)@.play }
                &&& forall|i: int|
                    #![trigger actions@[i]]
                    start < i < actions@.len() ==> actions@[i] !is Stop && actions@[i] !is Pause
            },
        actions@.last() == (Action::Acknowledge { tx }),
        forall|i: int|
            #![trigger actions@[i]]
            0 <= i < actions@.len() - 1 ==> actions@[i] !is Acknowledge,
        sets_uri_stopped(old(p)@.play, action_views(actions@)),
{
    law_play_uri(p, uri, tx, actions);
    lemma_action_views(actions@);
    assert(actions@[5] == Action::Play { play: old(p)@.play });
}

/// The command to set the pitch sets it on the pitch filter and then reports it; the command to
/// set the voice level sets it on the karaoke filter and then reports it. Both leave the player as
/// it was.
pub proof fn law_filter_commands(p: &mut PlayerInner, command: Command, actions: Vec<Action>)
    requires
        call_ensures(PlayerInner::handle_command, (p, command), actions),
        command is SetPitch || command is SetVoiceLevel,
    ensures
        final(p)@ == old(p)@,
        actions@.len() == 2,
        match (command, actions@[0], actions@[1]) {
            (
                Command::SetPitch(pitch),
                Action::SetProperty { object, name, value },
                Action::Send(Message::Pitch(told)),
            ) => {
                &&& object == old(p)@.audio_handler.pitch
                &&& name@ == "pitch"@
                &&& value == Value::Float(pitch)
                &&& told == pitch
            },
            (
                Command::SetVoiceLevel(level),
                Action::SetProperty { object, name, value },
                Action::Send(Message::VoiceLevel(told)),
            ) => {
                &&& object == old(p)@.audio_handler.karaoke
                &&& name@ == "level"@
                &&& value == Value::Float(level)
                &&& told == level
            },
            _ => false,
        },
{
    lemma_action_views(actions@);
    assert(actions@[0]@ == action_views(actions@)[0]);
    assert(actions@[1]@ == action_views(actions@)[1]);
}

/// The command to loop, or not to, is kept and reported, and changes nothing else.
pub proof fn law_looping_command(p: &mut PlayerInner, looping: bool, actions: Vec<Action>)
    requires
        call_ensures(PlayerInner::handle_command, (p, Command::SetLooping(looping)), actions),
    ensures
        actions@ == seq![Action::Send(Message::Loop(looping))],
        final(p)@.props.loop_ == looping,
        final(p)@.props.state == old(p)@.props.state,
        final(p)@.play == old(p)@.play,
        final(p)@.pipeline == old(p)@.pipeline,
        final(p)@.video_handler == old(p)@.video_handler,
        final(p)@.audio_handler == old(p)@.audio_handler,
{
    lemma_action_views(actions@);
    assert(actions@[0]@ == action_views(actions@)[0]);
}

/// The command for an audio stream reads the media info, and that alone; the stream at that place,
/// if there is one, is what the engine is asked for; and if it chooses it, it is enabled and then
/// reported. A stream that is not there, or not chosen, leads to nothing.
pub proof fn law_audio_track_course(
    p: &mut PlayerInner,
    q: PlayerInner,
    track: i32,
    actions: Vec<Action>,
    info: Option<MediaInfo>,
    asked: Vec<Action>,
    chosen: bool,
    told: Vec<Action>,
)
    requires
        call_ensures(PlayerInner::handle_command, (p, Command::SetAudioTrack(track)), actions),
        call_ensures(PlayerInner::choose_audio_track, (&q, track, info), asked),
        call_ensures(PlayerInner::audio_track_chosen, (&q, track, chosen), told),
    ensures
        final(p)@ == old(p)@,
        actions@ == seq![Action::ReadMediaInfo { play: old(p)@.play, track }],
        match info {
            Some(i) => if 0 <= track < i.audio_streams@.len() {
                &&& asked@.len() == 1
                &&& asked@[0] matches Action::SetAudioTrackId { play, id, track: place } && {
                    &&& play == q@.play
                    &&& id@ == i.audio_streams@[track as int]@
                    &&& place == track
                }
            } else {
                asked@.len() == 0
            },
            None => asked@.len() == 0,
        },
        chosen ==> told@ == seq![
            Action::SetAudioTrackEnabled { play: q@.play, enabled: true },
            Action::Send(Message::AudioTrack(track)),
        ],
        !chosen ==> told@.len() == 0,
{
    lemma_action_views(actions@);
    lemma_action_views(asked@);
    lemma_action_views(told@);
    assert(actions@[0]@ == action_views(actions@)[0]);
    if asked@.len() > 0 {
        assert(asked@[0]@ == action_views(asked@)[0]);
    }
    if chosen {
        assert(told@[0]@ == action_views(told@)[0]);
        assert(told@[1]@ == action_views(told@)[1]);
    }
}

/// The player and the part behind it decide alike about audio streams.
pub proof fn law_audio_track_alike(
    p: Player,
    q: PlayerInner,
    track: i32,
    info: Option<MediaInfo>,
    chosen: bool,
    asked: Vec<Action>,
    asked_behind: Vec<Action>,
    told: Vec<Action>,
    told_behind: Vec<Action>,
)
    requires
        p@.inner.play == q@.play,
        call_ensures(Player::choose_audio_track, (&p, track, info), asked),
        call_ensures(PlayerInner::choose_audio_track, (&q, track, info), asked_behind),
        call_ensures(Player::audio_track_chosen, (&p, track, chosen), told),
        call_ensures(PlayerInner::audio_track_chosen, (&q, track, chosen), told_behind),
    ensures
        action_views(asked@) == action_views(asked_behind@),
        action_views(told@) == action_views(told_behind@),
{
}

/// What a command asks for does not hang on the state of playback, on looping, or on the branches:
/// players on the same objects of the engine ask for the same.
pub proof fn law_commands_in_every_state(
    p: &mut PlayerInner,
    q: &mut PlayerInner,
    command: Command,
    a: Vec<Action>,
    b: Vec<Action>,
)
    requires
        old(p)@.play == old(q)@.play,
        old(p)@.pipeline == old(q)@.pipeline,
        old(p)@.audio_handler == old(q)@.audio_handler,
        call_ensures(PlayerInner::handle_command, (p, command), a),
        call_ensures(PlayerInner::handle_command, (q, command), b),
    ensures
        action_views(a@) == action_views(b@),
{
}

/// Every position but the largest number can be sought, by the operation and by the command, in
/// every state; and every other command can be given in every state.
pub proof fn law_commands_are_taken(
    p: Player,
    q: PlayerInner,
    nseconds: u64,
    on: &mut PlayerInner,
    command: Command,
)
    requires
        nseconds < u64::MAX,
        command matches Command::Seek(to) ==> to < u64::MAX,
    ensures
        call_requires(Player::seek, (&p, nseconds)),
        call_requires(PlayerInner::seek, (&q, nseconds)),
        call_requires(PlayerInner::handle_command, (on, command)),
{
}

/// Actions that look alike are alike: what is asked for is told in full.
pub proof fn law_views_tell_actions_apart(a: Action, b: Action)
    requires
        a@ == b@,
    ensures
        match (a, b) {
            (
                Action::Make { factory: f, own_name: n, properties: s },
                Action::Make { factory: g, own_name: m, properties: t },
            ) => {
                &&& f@ == g@
                &&& n is Some <==> m is Some
                &&& n is Some ==> n->0@ == m->0@
                &&& s@.len() == t@.len()
                &&& forall|i: int|
                    #![trigger s@[i]]
                    0 <= i < s@.len() ==> s@[i].name@ == t@[i].name@ && s@[i].value == t@[i].value
            },
            (Action::NewBin { name: n }, Action::NewBin { name: m }) => n@ == m@,
            (
                Action::AddMany { bin: c, elements: e },
                Action::AddMany { bin: d, elements: f },
            ) => c == d && e@ == f@,
            (
                Action::RemoveMany { bin: c, elements: e },
                Action::RemoveMany { bin: d, elements: f },
            ) => c == d && e@ == f@,
            (Action::LinkMany { elements: e }, Action::LinkMany { elements: f }) => e@ == f@,
            (
                Action::StaticPad { element: e, name: n },
                Action::StaticPad { element: f, name: m },
            ) => e == f && n@ == m@,
            (
                Action::RequestPad { element: e, template: n },
                Action::RequestPad { element: f, template: m },
            ) => e == f && n@ == m@,
            (
                Action::SetProperty { object: e, name: n, value: v },
                Action::SetProperty { object: f, name: m, value: w },
            ) => e == f && n@ == m@ && v == w,
            (
                Action::SetUri { play: e, uri: u },
                Action::SetUri { play: f, uri: v },
            ) => e == f && (u is Some <==> v is Some) && (u is Some ==> u->0@ == v->0@),
            (
                Action::SetVideoTrackId { play: e, id: u },
                Action::SetVideoTrackId { play: f, id: v },
            ) => e == f && u@ == v@,
            (
                Action::SetAudioTrackId { play: e, id: u, track: s },
                Action::SetAudioTrackId { play: f, id: v, track: t },
            ) => e == f && u@ == v@ && s == t,
            (Action::Send(m), Action::Send(n)) => m@ == n@,
            _ => a == b,
        },
{
    match (a, b) {
        (Action::Make { properties: s, .. }, Action::Make { properties: t, .. }) => {
            assert(property_views(s@).len() == s@.len());
            assert(property_views(t@).len() == t@.len());
            assert forall|i: int| #![trigger s@[i]] 0 <= i < s@.len() implies s@[i].name@
                == t@[i].name@ && s@[i].value == t@[i].value by {
                assert(property_views(s@)[i] == s@[i]@);
                assert(property_views(t@)[i] == t@[i]@);
            }
        },
        _ => {},
    }
}

/// What a player says of itself: the engine's player, and what is known of playback.
pub proof fn law_getters(
    p: Player,
    q: PlayerInner,
    play: Handle,
    behind: Handle,
    props: PlayProperty,
    props_behind: PlayProperty,
)
    requires
        p@.inner == q@,
        call_ensures(Player::play_handle, (&p,), play),
        call_ensures(PlayerInner::play_handle, (&q,), behind),
        call_ensures(Player::props, (&p,), props),
        call_ensures(PlayerInner::props, (&q,), props_behind),
    ensures
        play == q@.play,
        behind == q@.play,
        props == q@.props,
        props_behind == q@.props,
{
}

} // verus!
