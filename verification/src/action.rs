//! What the player asks of the media engine and of the rest of the program.
//!
//! Nothing in this crate talks to the engine. Each operation of the player yields actions, in the
//! order in which they are to be performed; where a decision hangs on what came of one, the
//! operation is a [`crate::procedure::Procedure`].
use vstd::prelude::*;

use crate::message::{optional_text, Float32, Float64, Handle, Message, MessageView};

verus! {

/// The value of a property.
#[derive(Clone, Copy, Debug, PartialEq, Eq, Structural)]
pub enum Value {
    Bool(bool),
    Float(Float32),
    /// An object of the engine, or a value that is passed on to it as it is.
    Object(Handle),
    NoObject,
}

/// A property that an element is made with.
#[derive(Clone, Copy, Debug, PartialEq, Eq)]
pub struct Property {
    pub name: &'static str,
    pub value: Value,
}

#[verifier::ext_equal]
pub struct PropertyView {
    pub name: Seq<char>,
    pub value: Value,
}

impl View for Property {
    type V = PropertyView;

    open spec fn view(&self) -> PropertyView {
        PropertyView { name: self.name@, value: self.value }
    }
}

/// The views of the properties in a sequence.
pub open spec fn property_views(properties: Seq<Property>) -> Seq<PropertyView> {
    properties.map_values(|p: Property| p@)
}

/// One thing to do. Where it makes or finds an object, what comes of it is that object's handle.
#[derive(Debug, PartialEq, Eq)]
pub enum Action {
    /// Make an element by its factory, with a name of its own where one is given.
    Make { factory: &'static str, own_name: Option<&'static str>, properties: Vec<Property> },
    /// Make an empty bin.
    NewBin { name: &'static str },
    /// Put the elements into the bin.
    AddMany { bin: Handle, elements: Vec<Handle> },
    /// Take the elements out of the bin.
    RemoveMany { bin: Handle, elements: Vec<Handle> },
    /// Link each element to the one after it.
    LinkMany { elements: Vec<Handle> },
    /// Find an always-present pad of the element.
    StaticPad { element: Handle, name: &'static str },
    /// Make a ghost pad for the pad.
    GhostPad { target: Handle },
    SetActive { pad: Handle, active: bool },
    /// Give the pad to the bin.
    AddPad { bin: Handle, pad: Handle },
    /// Bring the element to the state of the bin it is in.
    SyncStateWithParent { element: Handle },
    /// Ask the element for a new pad of the template.
    RequestPad { element: Handle, template: &'static str },
    /// Give a requested pad back to the element.
    ReleaseRequestPad { element: Handle, pad: Handle },
    LinkPads { source: Handle, sink: Handle },
    UnlinkPads { source: Handle, sink: Handle },
    /// Find the pad that the pad is linked to.
    Peer { pad: Handle },
    /// Once the pad is idle, run the procedure that came with this action.
    IdleProbe { pad: Handle },
    /// Bring the element to the null state.
    SetStateNull { element: Handle },
    SetProperty { object: Handle, name: &'static str, value: Value },
    /// Make the engine's player, without a video renderer.
    NewPlay,
    /// Find the pipeline of the engine's player.
    Pipeline { play: Handle },
    Play { play: Handle },
    Pause { play: Handle },
    Stop { play: Handle },
    Seek { play: Handle, nseconds: u64 },
    SetUri { play: Handle, uri: Option<String> },
    SetVolume { play: Handle, volume: Float64 },
    SetVideoTrackId { play: Handle, id: String },
    /// Read the media info; the answer goes to `PlayerInner::choose_audio_track`.
    ReadMediaInfo { play: Handle, track: i32 },
    /// Choose an audio stream; the answer goes to `PlayerInner::audio_track_chosen`.
    SetAudioTrackId { play: Handle, id: String, track: i32 },
    SetAudioTrackEnabled { play: Handle, enabled: bool },
    Sleep { mseconds: u64 },
    /// Wait for a pending state change of the pipeline, no longer than the timeout.
    AwaitState { pipeline: Handle, timeout_mseconds: u64 },
    /// Send the acknowledgement, if it has not been sent yet.
    Acknowledge { tx: Handle },
    /// Send a message to the hub.
    Send(Message),
    /// Cancel the event loop.
    CancelLoop,
    /// Set the message bus of the engine's player to drop what it holds and what comes in.
    FlushBus { play: Handle },
    /// Wait for the event loop to end.
    JoinLoop,
}

#[verifier::ext_equal]
pub enum ActionView {
    Make { factory: Seq<char>, own_name: Option<Seq<char>>, properties: Seq<PropertyView> },
    NewBin { name: Seq<char> },
    AddMany { bin: Handle, elements: Seq<Handle> },
    RemoveMany { bin: Handle, elements: Seq<Handle> },
    LinkMany { elements: Seq<Handle> },
    StaticPad { element: Handle, name: Seq<char> },
    GhostPad { target: Handle },
    SetActive { pad: Handle, active: bool },
    AddPad { bin: Handle, pad: Handle },
    SyncStateWithParent { element: Handle },
    RequestPad { element: Handle, template: Seq<char> },
    ReleaseRequestPad { element: Handle, pad: Handle },
    LinkPads { source: Handle, sink: Handle },
    UnlinkPads { source: Handle, sink: Handle },
    Peer { pad: Handle },
    IdleProbe { pad: Handle },
    SetStateNull { element: Handle },
    SetProperty { object: Handle, name: Seq<char>, value: Value },
    NewPlay,
    Pipeline { play: Handle },
    Play { play: Handle },
    Pause { play: Handle },
    Stop { play: Handle },
    Seek { play: Handle, nseconds: u64 },
    SetUri { play: Handle, uri: Option<Seq<char>> },
    SetVolume { play: Handle, volume: Float64 },
    SetVideoTrackId { play: Handle, id: Seq<char> },
    ReadMediaInfo { play: Handle, track: i32 },
    SetAudioTrackId { play: Handle, id: Seq<char>, track: i32 },
    SetAudioTrackEnabled { play: Handle, enabled: bool },
    Sleep { mseconds: u64 },
    AwaitState { pipeline: Handle, timeout_mseconds: u64 },
    Acknowledge { tx: Handle },
    Send(MessageView),
    CancelLoop,
    FlushBus { play: Handle },
    JoinLoop,
}

impl View for Action {
    type V = ActionView;

    open spec fn view(&self) -> ActionView {
        match *self {
            Action::Make { factory, own_name, properties } => ActionView::Make {
                factory: factory@,
                own_name: match own_name {
                    Some(n) => Some(n@),
                    None => None,
                },
                properties: property_views(properties@),
            },
            Action::NewBin { name } => ActionView::NewBin { name: name@ },
            Action::AddMany { bin, elements } => ActionView::AddMany { bin, elements: elements@ },
            Action::RemoveMany { bin, elements } => ActionView::RemoveMany {
                bin,
                elements: elements@,
            },
            Action::LinkMany { elements } => ActionView::LinkMany { elements: elements@ },
            Action::StaticPad { element, name } => ActionView::StaticPad { element, name: name@ },
            Action::GhostPad { target } => ActionView::GhostPad { target },
            Action::SetActive { pad, active } => ActionView::SetActive { pad, active },
            Action::AddPad { bin, pad } => ActionView::AddPad { bin, pad },
            Action::SyncStateWithParent { element } => ActionView::SyncStateWithParent { element },
            Action::RequestPad { element, template } => ActionView::RequestPad {
                element,
                template: template@,
            },
            Action::ReleaseRequestPad { element, pad } => ActionView::ReleaseRequestPad {
                element,
                pad,
            },
            Action::LinkPads { source, sink } => ActionView::LinkPads { source, sink },
            Action::UnlinkPads { source, sink } => ActionView::UnlinkPads { source, sink },
            Action::Peer { pad } => ActionView::Peer { pad },
            Action::IdleProbe { pad } => ActionView::IdleProbe { pad },
            Action::SetStateNull { element } => ActionView::SetStateNull { element },
            Action::SetProperty { object, name, value } => ActionView::SetProperty {
                object,
                name: name@,
                value,
            },
            Action::NewPlay => ActionView::NewPlay,
            Action::Pipeline { play } => ActionView::Pipeline { play },
            Action::Play { play } => ActionView::Play { play },
            Action::Pause { play } => ActionView::Pause { play },
            Action::Stop { play } => ActionView::Stop { play },
            Action::Seek { play, nseconds } => ActionView::Seek { play, nseconds },
            Action::SetUri { play, uri } => ActionView::SetUri { play, uri: optional_text(uri) },
            Action::SetVolume { play, volume } => ActionView::SetVolume { play, volume },
            Action::SetVideoTrackId { play, id } => ActionView::SetVideoTrackId { play, id: id@ },
            Action::ReadMediaInfo { play, track } => ActionView::ReadMediaInfo { play, track },
            Action::SetAudioTrackId { play, id, track } => ActionView::SetAudioTrackId {
                play,
                id: id@,
                track,
            },
            Action::SetAudioTrackEnabled { play, enabled } => ActionView::SetAudioTrackEnabled {
                play,
                enabled,
            },
            Action::Sleep { mseconds } => ActionView::Sleep { mseconds },
            Action::AwaitState { pipeline, timeout_mseconds } => ActionView::AwaitState {
                pipeline,
                timeout_mseconds,
            },
            Action::Acknowledge { tx } => ActionView::Acknowledge { tx },
            Action::Send(message) => ActionView::Send(message@),
            Action::CancelLoop => ActionView::CancelLoop,
            Action::FlushBus { play } => ActionView::FlushBus { play },
            Action::JoinLoop => ActionView::JoinLoop,
        }
    }
}

/// The views of the actions in a sequence.
pub open spec fn action_views(actions: Seq<Action>) -> Seq<ActionView> {
    actions.map_values(|a: Action| a@)
}

} // verus!
