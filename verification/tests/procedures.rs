use player::action::{Action, Property, Value};
use player::inner::{AudioHandler, PlayerInner};
use player::message::{Float32, Handle, PlayState};
use player::player::Player;
use player::procedure::{Procedure, Progress};

fn h(id: u64) -> Handle {
    Handle { id }
}

fn make(factory: &'static str, properties: Vec<Property>) -> Action {
    Action::Make { factory, own_name: None, properties }
}

fn float(name: &'static str, value: f32) -> Property {
    Property { name, value: Value::Float(Float32 { bits: value.to_bits() }) }
}

/// Lets every action succeed; action number `i` brings handle `base + i`.
fn run_all(procedure: &mut Procedure, base: u64) -> Vec<Action> {
    let mut performed = Vec::new();
    while let Some(action) = procedure.action() {
        let handle = h(base + performed.len() as u64);
        performed.push(action);
        let more = procedure.resume(Ok(handle));
        assert_ne!(matches!(more, Progress::Failed(_)), true);
        assert_eq!(more == Progress::Done, procedure.action().is_none());
    }
    performed
}

/// Lets the first `k` actions succeed and the next fail, which leaves no action.
fn fail_at(mut procedure: Procedure, k: u64, cause: &str) -> Progress {
    for i in 0..k {
        assert_eq!(procedure.resume(Ok(h(i))), Progress::Pending);
    }
    assert_eq!(procedure.fatal(), None);
    let end = procedure.resume(Err(cause.to_string()));
    assert_eq!(procedure.action(), None);
    assert_eq!(procedure.fatal(), None);
    end
}

fn failed(text: &str) -> Progress {
    Progress::Failed(text.to_string())
}

fn video_actions() -> Vec<Action> {
    vec![
        Action::NewBin { name: "qmlsinkbin" },
        make("glupload", vec![]),
        make("glcolorconvert", vec![]),
        Action::Make { factory: "tee", own_name: Some("tee"), properties: vec![] },
        Action::AddMany { bin: h(0), elements: vec![h(1), h(2), h(3)] },
        Action::LinkMany { elements: vec![h(1), h(2), h(3)] },
        Action::StaticPad { element: h(3), name: "sink" },
        Action::GhostPad { target: h(6) },
        Action::SetActive { pad: h(7), active: true },
        Action::AddPad { bin: h(0), pad: h(7) },
    ]
}

fn audio_actions(b: u64) -> Vec<Action> {
    vec![
        make("autoaudiosink", vec![]),
        make("audiokaraoke", vec![float("level", 0.0)]),
        make("pitch", vec![float("pitch", 1.0)]),
        Action::NewBin { name: "audiofilter" },
        Action::AddMany { bin: h(b + 3), elements: vec![h(b + 1), h(b + 2)] },
        Action::LinkMany { elements: vec![h(b + 1), h(b + 2)] },
        Action::StaticPad { element: h(b + 1), name: "sink" },
        Action::GhostPad { target: h(b + 6) },
        Action::SetActive { pad: h(b + 7), active: true },
        Action::AddPad { bin: h(b + 3), pad: h(b + 7) },
        Action::StaticPad { element: h(b + 2), name: "src" },
        Action::GhostPad { target: h(b + 10) },
        Action::SetActive { pad: h(b + 11), active: true },
        Action::AddPad { bin: h(b + 3), pad: h(b + 11) },
    ]
}

#[test]
fn video_sink_is_built_in_order() {
    let mut procedure = PlayerInner::build_video_sink();
    assert_eq!(run_all(&mut procedure, 0), video_actions());
    let handler = PlayerInner::video_handler(&procedure);
    assert_eq!((handler.bin(), handler.tee()), (h(0), h(3)));
}

#[test]
fn video_sink_reports_the_first_failure() {
    let texts = [
        "make glupload failed",
        "make glcolorconvert failed",
        "make tee failed",
        "add elements to bin failed",
        "Failed to link tee to glcolorconvert",
        "Failed to get tee sink pad",
        "Failed to create ghost pad",
        "Failed to activate ghost pad",
        "Failed to add ghost pad to bin",
    ];
    for (i, text) in texts.iter().enumerate() {
        let end = fail_at(PlayerInner::build_video_sink(), i as u64 + 1, "cause");
        assert_eq!(end, failed(text));
    }
}

#[test]
fn audio_filter_sink_is_built_in_order() {
    let mut procedure = PlayerInner::build_audio_filter_sink();
    assert_eq!(run_all(&mut procedure, 0), audio_actions(0));
    assert_eq!(
        PlayerInner::audio_handler(&procedure),
        AudioHandler { sink: h(0), filterbin: h(3), karaoke: h(1), pitch: h(2) }
    );
}

#[test]
fn audio_filter_sink_reports_the_first_failure() {
    let texts = [
        (0, "make autoaudiosink failed"),
        (1, "make audiokaraoke failed"),
        (2, "make pitch failed"),
        (4, "Failed to add elements to audiofilter bin"),
        (5, "failed to link pitch"),
        (6, "Failed to get karaoke sink pad"),
        (8, "Failed to activate ghost pad"),
        (9, "Failed to add ghost pad to bin"),
        (12, "Failed to activate ghost pad"),
        (13, "Failed to add ghost pad to bin"),
    ];
    for (k, text) in texts {
        let end = fail_at(PlayerInner::build_audio_filter_sink(), k, "cause");
        assert_eq!(end, failed(text));
    }
}

#[test]
fn audio_filter_sink_cannot_go_on_without_pads() {
    let mut procedure = PlayerInner::build_audio_filter_sink();
    let mut fatal = Vec::new();
    for i in 0..14 {
        if let Some(text) = procedure.fatal() {
            fatal.push((i, text));
        }
        procedure.resume(Ok(h(i)));
    }
    let steps: Vec<u64> = fatal.iter().map(|f| f.0).collect();
    assert_eq!(steps, [3, 7, 10, 11]);
    assert_eq!(fatal[2].1, "pitch has no src pad");
}

#[test]
fn player_is_built_from_both_sinks() {
    let mut procedure = PlayerInner::build();
    let mut expected = video_actions();
    expected.extend(audio_actions(10));
    expected.push(Action::NewPlay);
    expected.push(Action::Pipeline { play: h(24) });
    for (name, object) in [("video-sink", 0), ("audio-sink", 10), ("audio-filter", 13)] {
        expected.push(Action::SetProperty { object: h(25), name, value: Value::Object(h(object)) });
    }
    assert_eq!(run_all(&mut procedure, 0), expected);
    let inner = PlayerInner::new(&procedure);
    assert_eq!(inner.props().state, PlayState::Stopped);
    assert_eq!(inner.props().loop_, false);
    assert_eq!(Player::new(inner).play(), [Action::Play { play: h(24) }]);
}

#[test]
fn player_cannot_do_without_any_part() {
    let mut procedure = PlayerInner::build();
    let mut texts = Vec::new();
    for i in 0..29 {
        texts.push(procedure.fatal().unwrap());
        procedure.resume(Ok(h(i)));
    }
    assert_eq!(texts[3], "make tee failed");
    assert_eq!(texts[10], "make autoaudiosink failed");
    assert_eq!(texts[20], "pitch has no src pad");
    assert_eq!(procedure.fatal(), None);
    assert_eq!(procedure.action(), None);
}
