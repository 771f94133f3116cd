//! What the player is told and what it tells: commands from the hub, events from the media
//! engine, and the messages that are sent back to the hub.
use vstd::prelude::*;

verus! {

/// An `f32` by its bit pattern (`f32::to_bits`).
#[derive(Clone, Copy, Debug, PartialEq, Eq, Structural)]
pub struct Float32 {
    pub bits: u32,
}

/// An `f64` by its bit pattern (`f64::to_bits`).
#[derive(Clone, Copy, Debug, PartialEq, Eq, Structural)]
pub struct Float64 {
    pub bits: u64,
}

/// Stands for an object of the media engine (an element, a bin, a pad, the engine's player, a
/// media info), for a value that is only passed on to it, or for the sender of an acknowledgement.
/// Whoever talks to the engine gives the numbers out, one to an object, and finds the object by its
/// number again.
#[derive(Clone, Copy, Debug, PartialEq, Eq, Hash, Structural)]
pub struct Handle {
    pub id: u64,
}

/// The state that the media engine reports.
#[derive(Clone, Copy, Debug, PartialEq, Eq, Structural)]
pub enum PlayState {
    Stopped,
    Buffering,
    Paused,
    Playing,
    /// A state without a name, by its number.
    Unknown(i32),
}

/// The views of a sequence of strings.
pub open spec fn texts(strings: Seq<String>) -> Seq<Seq<char>> {
    strings.map_values(|s: String| s@)
}

/// What the engine knows of the loaded media: its own object, which holds all of it, and the
/// streams by their stream ids, in the engine's order.
#[derive(Debug, PartialEq, Eq)]
pub struct MediaInfo {
    pub object: Handle,
    pub video_streams: Vec<String>,
    pub audio_streams: Vec<String>,
}

#[verifier::ext_equal]
pub struct MediaInfoView {
    pub object: Handle,
    pub video_streams: Seq<Seq<char>>,
    pub audio_streams: Seq<Seq<char>>,
}

impl View for MediaInfo {
    type V = MediaInfoView;

    open spec fn view(&self) -> MediaInfoView {
        MediaInfoView {
            object: self.object,
            video_streams: texts(self.video_streams@),
            audio_streams: texts(self.audio_streams@),
        }
    }
}

/// An error of the media engine, as it is sent to the hub.
#[derive(Debug, PartialEq, Eq)]
pub struct MsgError {
    pub code: i32,
    pub message: String,
}

#[verifier::ext_equal]
pub struct MsgErrorView {
    pub code: i32,
    pub message: Seq<char>,
}

impl View for MsgError {
    type V = MsgErrorView;

    open spec fn view(&self) -> MsgErrorView {
        MsgErrorView { code: self.code, message: self.message@ }
    }
}

/// What the player sends to the hub.
#[derive(Debug, PartialEq, Eq)]
pub enum Message {
    Uri(String),
    /// The position, in nanoseconds.
    Position(u64),
    /// The duration, in nanoseconds.
    Duration(u64),
    State(PlayState),
    Volume(Float64),
    MediaInfo(MediaInfo),
    /// How full the buffer is, in percent.
    Buffering(u32),
    Eos,
    Error(MsgError),
    Pitch(Float32),
    AudioTrack(i32),
    Loop(bool),
    VoiceLevel(Float32),
}

#[verifier::ext_equal]
pub enum MessageView {
    Uri(Seq<char>),
    Position(u64),
    Duration(u64),
    State(PlayState),
    Volume(Float64),
    MediaInfo(MediaInfoView),
    Buffering(u32),
    Eos,
    Error(MsgErrorView),
    Pitch(Float32),
    AudioTrack(i32),
    Loop(bool),
    VoiceLevel(Float32),
}

impl View for Message {
    type V = MessageView;

    open spec fn view(&self) -> MessageView {
        match *self {
            Message::Uri(uri) => MessageView::Uri(uri@),
            Message::Position(nseconds) => MessageView::Position(nseconds),
            Message::Duration(nseconds) => MessageView::Duration(nseconds),
            Message::State(state) => MessageView::State(state),
            Message::Volume(volume) => MessageView::Volume(volume),
            Message::MediaInfo(info) => MessageView::MediaInfo(info@),
            Message::Buffering(percent) => MessageView::Buffering(percent),
            Message::Eos => MessageView::Eos,
            Message::Error(error) => MessageView::Error(error@),
            Message::Pitch(pitch) => MessageView::Pitch(pitch),
            Message::AudioTrack(track) => MessageView::AudioTrack(track),
            Message::Loop(looping) => MessageView::Loop(looping),
            Message::VoiceLevel(level) => MessageView::VoiceLevel(level),
        }
    }
}

/// What the hub asks of the player.
#[derive(Debug, PartialEq, Eq)]
pub enum Command {
    /// Play another medium; `tx` is acknowledged once playback has been asked for.
    PlayUri { uri: String, tx: Handle },
    Play,
    Pause,
    Stop,
    /// Go to a position, in nanoseconds.
    Seek(u64),
    SetVolume(Float64),
    SetPitch(Float32),
    /// Choose an audio stream by its place among the audio streams.
    SetAudioTrack(i32),
    SetLooping(bool),
    SetVoiceLevel(Float32),
}

#[verifier::ext_equal]
pub enum CommandView {
    PlayUri { uri: Seq<char>, tx: Handle },
    Play,
    Pause,
    Stop,
    Seek(u64),
    SetVolume(Float64),
    SetPitch(Float32),
    SetAudioTrack(i32),
    SetLooping(bool),
    SetVoiceLevel(Float32),
}

impl View for Command {
    type V = CommandView;

    open spec fn view(&self) -> CommandView {
        match *self {
            Command::PlayUri { uri, tx } => CommandView::PlayUri { uri: uri@, tx },
            Command::Play => CommandView::Play,
            Command::Pause => CommandView::Pause,
            Command::Stop => CommandView::Stop,
            Command::Seek(nseconds) => CommandView::Seek(nseconds),
            Command::SetVolume(volume) => CommandView::SetVolume(volume),
            Command::SetPitch(pitch) => CommandView::SetPitch(pitch),
            Command::SetAudioTrack(track) => CommandView::SetAudioTrack(track),
            Command::SetLooping(looping) => CommandView::SetLooping(looping),
            Command::SetVoiceLevel(level) => CommandView::SetVoiceLevel(level),
        }
    }
}

/// What the media engine reports about playback.
#[derive(Debug, PartialEq, Eq)]
pub enum PlayEvent {
    UriLoaded(String),
    /// The position in nanoseconds, where it is known.
    PositionUpdated(Option<u64>),
    /// The duration in nanoseconds, where it is known.
    DurationChanged(Option<u64>),
    StateChanged(PlayState),
    VolumeChanged(Float64),
    MediaInfoUpdated(MediaInfo),
    Buffering(u32),
    EndOfStream,
    Error { code: i32, details: Option<String> },
    /// A report that the player has no use for.
    Other,
}

#[verifier::ext_equal]
pub enum PlayEventView {
    UriLoaded(Seq<char>),
    PositionUpdated(Option<u64>),
    DurationChanged(Option<u64>),
    StateChanged(PlayState),
    VolumeChanged(Float64),
    MediaInfoUpdated(MediaInfoView),
    Buffering(u32),
    EndOfStream,
    Error { code: i32, details: Option<Seq<char>> },
    Other,
}

/// The view of an optional string.
pub open spec fn optional_text(text: Option<String>) -> Option<Seq<char>> {
    match text {
        Some(s) => Some(s@),
        None => None,
    }
}

impl View for PlayEvent {
    type V = PlayEventView;

    open spec fn view(&self) -> PlayEventView {
        match *self {
            PlayEvent::UriLoaded(uri) => PlayEventView::UriLoaded(uri@),
            PlayEvent::PositionUpdated(position) => PlayEventView::PositionUpdated(position),
            PlayEvent::DurationChanged(duration) => PlayEventView::DurationChanged(duration),
            PlayEvent::StateChanged(state) => PlayEventView::StateChanged(state),
            PlayEvent::VolumeChanged(volume) => PlayEventView::VolumeChanged(volume),
            PlayEvent::MediaInfoUpdated(info) => PlayEventView::MediaInfoUpdated(info@),
            PlayEvent::Buffering(percent) => PlayEventView::Buffering(percent),
            PlayEvent::EndOfStream => PlayEventView::EndOfStream,
            PlayEvent::Error { code, details } => PlayEventView::Error {
                code,
                details: optional_text(details),
            },
            PlayEvent::Other => PlayEventView::Other,
        }
    }
}

} // verus!
