use player::action::{Action, Value};
use player::inner::PlayerInner;
use player::message::{
    Command, Float32, Float64, Handle, MediaInfo, Message, MsgError, PlayEvent, PlayState,
};
use player::player::{LoopEvent, Player};

const PLAY: Handle = Handle { id: 24 };
const PIPELINE: Handle = Handle { id: 25 };

fn new_player() -> Player {
    let mut procedure = PlayerInner::build();
    for id in 0..29 {
        procedure.resume(Ok(Handle { id }));
    }
    Player::new(PlayerInner::new(&procedure))
}

fn event(player: &mut Player, event: PlayEvent) -> Vec<Action> {
    player.turn(LoopEvent::Message(Some(event))).unwrap()
}

fn command(player: &mut Player, command: Command) -> Vec<Action> {
    player.turn(LoopEvent::Command(Some(command))).unwrap()
}

fn sent(message: Message) -> Vec<Action> {
    vec![Action::Send(message)]
}

fn info(video: &[&str], audio: &[&str]) -> MediaInfo {
    MediaInfo {
        object: Handle { id: 70 + video.len() as u64 },
        video_streams: video.iter().map(|s| s.to_string()).collect(),
        audio_streams: audio.iter().map(|s| s.to_string()).collect(),
    }
}

#[test]
fn operations_reach_the_engine() {
    let player = new_player();
    assert_eq!(player.play(), [Action::Play { play: PLAY }]);
    assert_eq!(player.pause(), [Action::Pause { play: PLAY }]);
    assert_eq!(player.stop(), [Action::Stop { play: PLAY }]);
    assert_eq!(player.seek(1500), [Action::Seek { play: PLAY, nseconds: 1500 }]);
}

#[test]
fn medium_is_set_on_a_stopped_player() {
    let player = new_player();
    assert_eq!(
        player.set_uri("file:///a.mp4"),
        [
            Action::Stop { play: PLAY },
            Action::Stop { play: PLAY },
            Action::SetUri { play: PLAY, uri: Some("file:///a.mp4".to_string()) },
        ]
    );
    assert_eq!(player.set_uri("")[2], Action::SetUri { play: PLAY, uri: None });
}

#[test]
fn events_are_reported() {
    let mut player = new_player();
    let p = &mut player;
    assert_eq!(
        event(p, PlayEvent::UriLoaded("u".to_string())),
        sent(Message::Uri("u".to_string()))
    );
    assert_eq!(event(p, PlayEvent::PositionUpdated(Some(7))), sent(Message::Position(7)));
    assert_eq!(event(p, PlayEvent::PositionUpdated(None)), sent(Message::Position(0)));
    assert_eq!(event(p, PlayEvent::DurationChanged(Some(9))), sent(Message::Duration(9)));
    assert_eq!(event(p, PlayEvent::DurationChanged(None)), sent(Message::Duration(0)));
    let volume = Float64 { bits: 0.5f64.to_bits() };
    assert_eq!(event(p, PlayEvent::VolumeChanged(volume)), sent(Message::Volume(volume)));
    assert_eq!(event(p, PlayEvent::Buffering(40)), sent(Message::Buffering(40)));
    assert_eq!(event(p, PlayEvent::Other), []);
}

#[test]
fn state_is_kept_and_reported() {
    let mut player = new_player();
    assert_eq!(
        event(&mut player, PlayEvent::StateChanged(PlayState::Playing)),
        sent(Message::State(PlayState::Playing))
    );
    assert_eq!(player.props().state, PlayState::Playing);
    command(&mut player, Command::Pause);
    assert_eq!(player.props().state, PlayState::Playing);
    event(&mut player, PlayEvent::StateChanged(PlayState::Paused));
    assert_eq!(player.props().state, PlayState::Paused);
}

#[test]
fn first_video_stream_is_chosen() {
    let mut player = new_player();
    assert_eq!(
        event(&mut player, PlayEvent::MediaInfoUpdated(info(&["v0", "v1"], &["a0"]))),
        [
            Action::SetVideoTrackId { play: PLAY, id: "v0".to_string() },
            Action::Send(Message::MediaInfo(info(&["v0", "v1"], &["a0"]))),
        ]
    );
    assert_eq!(
        event(&mut player, PlayEvent::MediaInfoUpdated(info(&[], &["a0"]))),
        sent(Message::MediaInfo(info(&[], &["a0"])))
    );
}

#[test]
fn errors_are_reported_with_their_details() {
    let mut player = new_player();
    let details = Some("no decoder".to_string());
    assert_eq!(
        event(&mut player, PlayEvent::Error { code: 3, details }),
        sent(Message::Error(MsgError { code: 3, message: "no decoder".to_string() }))
    );
    assert_eq!(
        event(&mut player, PlayEvent::Error { code: -1, details: None }),
        sent(Message::Error(MsgError { code: -1, message: "Unknown error".to_string() }))
    );
}

#[test]
fn looping_player_starts_again() {
    let mut player = new_player();
    let p = &mut player;
    assert_eq!(event(p, PlayEvent::EndOfStream), sent(Message::Eos));
    assert_eq!(command(p, Command::SetLooping(true)), sent(Message::Loop(true)));
    assert_eq!(p.props().loop_, true);
    command(p, Command::Play);
    assert_eq!(
        event(p, PlayEvent::EndOfStream),
        [
            Action::Seek { play: PLAY, nseconds: 0 },
            Action::Play { play: PLAY },
            Action::Send(Message::Eos),
        ]
    );
    assert_eq!(command(p, Command::SetLooping(false)), sent(Message::Loop(false)));
    assert_eq!(event(p, PlayEvent::EndOfStream), sent(Message::Eos));
}

#[test]
fn play_uri_waits_and_acknowledges() {
    let mut player = new_player();
    let tx = Handle { id: 77 };
    assert_eq!(
        command(&mut player, Command::PlayUri { uri: "u".to_string(), tx }),
        [
            Action::Stop { play: PLAY },
            Action::Sleep { mseconds: 100 },
            Action::AwaitState { pipeline: PIPELINE, timeout_mseconds: 500 },
            Action::Stop { play: PLAY },
            Action::SetUri { play: PLAY, uri: Some("u".to_string()) },
            Action::Play { play: PLAY },
            Action::Sleep { mseconds: 20 },
            Action::Acknowledge { tx },
        ]
    );
    let silence = command(&mut player, Command::PlayUri { uri: String::new(), tx });
    assert_eq!(silence[4], Action::SetUri { play: PLAY, uri: None });
}

#[test]
fn commands_reach_the_engine() {
    let mut player = new_player();
    let p = &mut player;
    assert_eq!(command(p, Command::Play), [Action::Play { play: PLAY }]);
    assert_eq!(command(p, Command::Pause), [Action::Pause { play: PLAY }]);
    assert_eq!(command(p, Command::Stop), [Action::Stop { play: PLAY }]);
    let far = u64::MAX - 1;
    assert_eq!(command(p, Command::Seek(far)), [Action::Seek { play: PLAY, nseconds: far }]);
    let volume = Float64 { bits: 0.25f64.to_bits() };
    assert_eq!(
        command(p, Command::SetVolume(volume)),
        [Action::SetVolume { play: PLAY, volume }]
    );
}

#[test]
fn pitch_and_voice_level_are_set_and_reported() {
    let mut player = new_player();
    let value = Float32 { bits: 1.25f32.to_bits() };
    assert_eq!(
        command(&mut player, Command::SetPitch(value)),
        [
            Action::SetProperty {
                object: Handle { id: 12 },
                name: "pitch",
                value: Value::Float(value),
            },
            Action::Send(Message::Pitch(value)),
        ]
    );
    assert_eq!(
        command(&mut player, Command::SetVoiceLevel(value)),
        [
            Action::SetProperty {
                object: Handle { id: 11 },
                name: "level",
                value: Value::Float(value),
            },
            Action::Send(Message::VoiceLevel(value)),
        ]
    );
}

#[test]
fn audio_track_is_reported_when_it_is_chosen() {
    let mut player = new_player();
    assert_eq!(
        command(&mut player, Command::SetAudioTrack(1)),
        [Action::ReadMediaInfo { play: PLAY, track: 1 }]
    );
    assert_eq!(
        player.choose_audio_track(1, Some(info(&[], &["a0", "a1"]))),
        [Action::SetAudioTrackId { play: PLAY, id: "a1".to_string(), track: 1 }]
    );
    assert_eq!(
        player.audio_track_chosen(1, true),
        [
            Action::SetAudioTrackEnabled { play: PLAY, enabled: true },
            Action::Send(Message::AudioTrack(1)),
        ]
    );
    assert_eq!(player.audio_track_chosen(1, false), []);
}

#[test]
fn audio_track_that_is_not_there_is_passed_over() {
    let player = new_player();
    assert_eq!(player.choose_audio_track(2, Some(info(&[], &["a0", "a1"]))), []);
    assert_eq!(player.choose_audio_track(-1, Some(info(&[], &["a0", "a1"]))), []);
    assert_eq!(player.choose_audio_track(0, Some(info(&["v0"], &[]))), []);
    assert_eq!(player.choose_audio_track(0, None), []);
}

#[test]
fn loop_ends_when_it_is_cancelled() {
    let mut player = new_player();
    assert_eq!(player.turn(LoopEvent::Message(None)), Some(vec![]));
    assert_eq!(player.turn(LoopEvent::Command(None)), Some(vec![]));
    assert_eq!(player.turn(LoopEvent::Cancelled), None);
    assert_eq!(player.turn(LoopEvent::Command(Some(Command::SetLooping(true)))), None);
    assert_eq!(player.props().loop_, false);
    assert_eq!(player.play(), [Action::Play { play: PLAY }]);
}

#[test]
fn loop_is_waited_for_once() {
    let mut player = new_player();
    let end = [
        Action::Stop { play: PLAY },
        Action::CancelLoop,
        Action::FlushBus { play: PLAY },
        Action::JoinLoop,
    ];
    assert_eq!(player.shut_down(), end);
    assert_eq!(player.shut_down(), end[..3]);
}
