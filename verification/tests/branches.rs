use player::action::{Action, Property, Value};
use player::inner::PlayerInner;
use player::message::{Command, Handle, PlayEvent};
use player::player::{LoopEvent, Player};
use player::procedure::{Procedure, Progress};

fn h(id: u64) -> Handle {
    Handle { id }
}

/// A player with the video bin 0 and the tee 3.
fn new_player() -> Player {
    let mut procedure = PlayerInner::build();
    for i in 0..29 {
        procedure.resume(Ok(h(i)));
    }
    Player::new(PlayerInner::new(&procedure))
}

/// Adds a branch; its actions bring the handles from `base` on.
fn add(player: &mut Player, base: u64) -> Result<u32, String> {
    let mut procedure = player.add_branch(h(99));
    let mut i = 0;
    loop {
        if let Some(end) = player.resume_branch(&mut procedure, Ok(h(base + i))) {
            return end;
        }
        i += 1;
    }
}

fn add_failing_at(player: &mut Player, k: u64, cause: &str) -> Option<Result<u32, String>> {
    let mut procedure = player.add_branch(h(99));
    for i in 0..k {
        assert_eq!(player.resume_branch(&mut procedure, Ok(h(i))), None);
    }
    let end = player.resume_branch(&mut procedure, Err(cause.to_string()));
    assert_eq!(procedure.action(), None);
    end
}

fn actions_of(procedure: &mut Procedure, outcomes: Vec<Result<Handle, String>>) -> Vec<Action> {
    let mut performed = Vec::new();
    for outcome in outcomes {
        performed.push(procedure.action().unwrap());
        procedure.resume(outcome);
    }
    assert_eq!(procedure.action(), None);
    performed
}

#[test]
fn branch_is_built_in_order() {
    let mut player = new_player();
    let mut procedure = player.add_branch(h(99));
    let mut performed = Vec::new();
    let mut end = None;
    while let Some(action) = procedure.action() {
        let handle = h(100 + performed.len() as u64);
        performed.push(action);
        assert_eq!(procedure.fatal(), None);
        end = player.resume_branch(&mut procedure, Ok(handle));
    }
    assert_eq!(end, Some(Ok(1)));
    let queue = h(100);
    let sink = h(101);
    assert_eq!(
        performed,
        [
            Action::Make {
                factory: "queue",
                own_name: None,
                properties: vec![Property { name: "flush-on-eos", value: Value::Bool(true) }],
            },
            Action::Make {
                factory: "qml6glsink",
                own_name: None,
                properties: vec![
                    Property { name: "widget", value: Value::Object(h(99)) },
                    Property { name: "async", value: Value::Bool(false) },
                ],
            },
            Action::AddMany { bin: h(0), elements: vec![queue, sink] },
            Action::LinkMany { elements: vec![queue, sink] },
            Action::SyncStateWithParent { element: queue },
            Action::SyncStateWithParent { element: sink },
            Action::RequestPad { element: h(3), template: "src_%u" },
            Action::StaticPad { element: queue, name: "sink" },
            Action::LinkPads { source: h(106), sink: h(107) },
        ]
    );
}

#[test]
fn branch_reports_the_first_failure_and_takes_no_id() {
    let mut player = new_player();
    let texts = [
        (0, "make queue failed"),
        (1, "make qml6glsink failed"),
        (2, "Failed to add bin to pipeline"),
        (3, "Failed to link queue to sink"),
        (6, "Failed to request tee src pad"),
        (7, "Failed to get queue sink pad"),
        (8, "Failed to link tee src pad to queue sink pad: refused"),
    ];
    for (k, text) in texts {
        assert_eq!(add_failing_at(&mut player, k, "refused"), Some(Err(text.to_string())));
    }
    assert_eq!(add(&mut player, 100), Ok(1));
}

#[test]
fn branch_survives_state_changes_that_fail() {
    let mut player = new_player();
    let mut procedure = player.add_branch(h(99));
    for i in 0..4 {
        assert_eq!(player.resume_branch(&mut procedure, Ok(h(i))), None);
    }
    for _ in 0..2 {
        assert_eq!(player.resume_branch(&mut procedure, Err("no state".to_string())), None);
    }
    for i in 6..8 {
        assert_eq!(player.resume_branch(&mut procedure, Ok(h(i))), None);
    }
    assert_eq!(player.resume_branch(&mut procedure, Ok(h(8))), Some(Ok(1)));
}

#[test]
fn branches_are_numbered_from_one_on() {
    let mut player = new_player();
    assert_eq!(add(&mut player, 100), Ok(1));
    assert_eq!(add(&mut player, 200), Ok(2));
    assert!(player.remove_branch(2).is_ok());
    player.turn(LoopEvent::Message(Some(PlayEvent::EndOfStream)));
    player.turn(LoopEvent::Command(Some(Command::Stop)));
    assert_eq!(add(&mut player, 300), Ok(3));
}

#[test]
fn branches_are_those_added_and_not_removed() {
    let mut player = new_player();
    for i in 1..5 {
        assert_eq!(add(&mut player, u64::from(100 * i)), Ok(i));
    }
    assert!(player.remove_branch(2).is_ok());
    assert!(player.remove_branch(4).is_ok());
    assert_eq!(add(&mut player, 500), Ok(5));
    for (id, pad) in [(1, 106), (3, 306), (5, 506)] {
        let removal = player.remove_branch(id).ok().unwrap();
        assert_eq!(removal.actions[1], Action::IdleProbe { pad: h(pad) });
    }
    for id in 0..7 {
        assert!(player.remove_branch(id).is_err());
    }
}

#[test]
fn branches_that_are_added_at_once_get_ids_as_they_finish() {
    let mut player = new_player();
    let mut first = player.add_branch(h(98));
    let mut second = player.add_branch(h(99));
    for i in 0..8 {
        assert_eq!(player.resume_branch(&mut first, Ok(h(100 + i))), None);
        assert_eq!(player.resume_branch(&mut second, Ok(h(200 + i))), None);
    }
    assert_eq!(player.resume_branch(&mut second, Ok(h(208))), Some(Ok(1)));
    assert_eq!(player.resume_branch(&mut first, Ok(h(108))), Some(Ok(2)));
    let removal = player.remove_branch(2).ok().unwrap();
    assert_eq!(removal.actions[1], Action::IdleProbe { pad: h(106) });
}

#[test]
fn removed_branch_is_taken_down() {
    let mut player = new_player();
    assert_eq!(add(&mut player, 100), Ok(1));
    let mut removal = player.remove_branch(1).ok().unwrap();
    assert_eq!(
        removal.actions,
        [
            Action::SetProperty { object: h(101), name: "widget", value: Value::NoObject },
            Action::IdleProbe { pad: h(106) },
        ]
    );
    let performed = actions_of(
        &mut removal.detach,
        vec![Ok(h(107)), Ok(h(1)), Ok(h(1)), Ok(h(1)), Ok(h(1)), Ok(h(1))],
    );
    assert_eq!(
        performed,
        [
            Action::Peer { pad: h(106) },
            Action::UnlinkPads { source: h(106), sink: h(107) },
            Action::RemoveMany { bin: h(0), elements: vec![h(100), h(101)] },
            Action::SetStateNull { element: h(100) },
            Action::SetStateNull { element: h(101) },
            Action::ReleaseRequestPad { element: h(3), pad: h(106) },
        ]
    );
}

#[test]
fn branch_without_peer_is_not_unlinked() {
    let mut player = new_player();
    assert_eq!(add(&mut player, 100), Ok(1));
    let mut removal = player.remove_branch(1).ok().unwrap();
    let performed = actions_of(
        &mut removal.detach,
        vec![Err(String::new()), Ok(h(1)), Ok(h(1)), Ok(h(1)), Ok(h(1))],
    );
    assert_eq!(performed[1], Action::RemoveMany { bin: h(0), elements: vec![h(100), h(101)] });
    assert_eq!(performed[4], Action::ReleaseRequestPad { element: h(3), pad: h(106) });
}

#[test]
fn branch_that_cannot_be_unlinked_is_taken_down_all_the_same() {
    let mut player = new_player();
    assert_eq!(add(&mut player, 100), Ok(1));
    let mut removal = player.remove_branch(1).ok().unwrap();
    assert_eq!(removal.detach.resume(Ok(h(107))), Progress::Pending);
    assert_eq!(removal.detach.resume(Err("busy".to_string())), Progress::Pending);
    for _ in 0..3 {
        assert!(removal.detach.fatal().is_some());
        assert_eq!(removal.detach.resume(Ok(h(1))), Progress::Pending);
    }
    assert_eq!(removal.detach.resume(Ok(h(1))), Progress::Done);
}

#[test]
fn unknown_branch_is_refused() {
    let mut player = new_player();
    for (id, text) in [
        (0, "Branch with id 0 not found"),
        (10, "Branch with id 10 not found"),
        (4294967295, "Branch with id 4294967295 not found"),
    ] {
        assert_eq!(player.remove_branch(id).err(), Some(text.to_string()));
    }
}

#[test]
fn branch_is_removed_once() {
    let mut player = new_player();
    assert_eq!(add(&mut player, 100), Ok(1));
    assert_eq!(add(&mut player, 200), Ok(2));
    assert!(player.remove_branch(1).is_ok());
    assert_eq!(player.remove_branch(1).err(), Some("Branch with id 1 not found".to_string()));
    assert!(player.remove_branch(2).is_ok());
}
