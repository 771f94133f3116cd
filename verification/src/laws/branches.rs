//! What holds of video branches, from the first that is added to the last that is removed.
use vstd::prelude::*;

use crate::action::{action_views, Action, ActionView, Value};
use crate::inner::{
    branch_removed, branch_resumed, built_branch, built_player, id_after, no_such_branch,
    with_branch, without_branch, PlayerInner, PlayerInnerView, Removal, VideoHandlerView,
};
use crate::laws::operations::lemma_action_views;
use crate::laws::playback::{after_turns, law_turns};
use crate::laws::wiring::{branch_is_wired, law_built_branch};
use crate::message::Handle;
use crate::plan::{
    is_done, lemma_branch_handles, lemma_step_was_due, next_step, reachable, Branch, Job, Results,
};
use crate::player::{LoopEventView, Player, PlayerView};
use crate::procedure::{Outcome, Procedure, Progress, ProgressView};
use crate::text::{
    decimal, is_numeral, law_decimal_is_a_numeral, law_decimal_reads_back, number,
};

verus! {

/// The next id is past the ids of all branches.
pub open spec fn ids_are_past(p: PlayerInnerView) -> bool {
    forall|id: u32| #[trigger]
        p.video_handler.branchs.contains_key(id) ==> id < p.video_handler.next_id
}

/// A change of the branches.
pub enum Change {
    /// A branch is added.
    Added(Branch),
    /// A branch is removed, if it is there.
    Removed(u32),
    /// Commands and events come in.
    Turns(Seq<LoopEventView>),
}

/// The player after a change.
pub open spec fn after_change(p: PlayerInnerView, change: Change) -> PlayerInnerView {
    match change {
        Change::Added(branch) => with_branch(p, branch),
        Change::Removed(id) => without_branch(p, id),
        Change::Turns(events) => after_turns(p, events),
    }
}

/// The player after a row of changes.
pub open spec fn after_changes(p: PlayerInnerView, changes: Seq<Change>) -> PlayerInnerView
    decreases changes.len(),
{
    if changes.len() == 0 {
        p
    } else {
        after_change(after_changes(p, changes.drop_last()), changes.last())
    }
}

/// How many of the changes add a branch.
pub open spec fn additions(changes: Seq<Change>) -> nat
    decreases changes.len(),
{
    if changes.len() == 0 {
        0
    } else {
        additions(changes.drop_last()) + if changes.last() is Added {
            1nat
        } else {
            0nat
        }
    }
}

/// Branches are numbered from one on, in the order in which they are added, whatever is removed
/// meanwhile: after `n` additions the next id is `n + 1`, and the ids of all branches are from one
/// to `n`. So an id is not given again as long as the ids last.
pub proof fn law_ids_count_up(r: Results, changes: Seq<Change>)
    requires
        additions(changes) < u32::MAX,
    ensures
        ({
            let p = after_changes(built_player(r), changes);
            &&& p.video_handler.next_id == additions(changes) + 1
            &&& ids_are_past(p)
            &&& forall|id: u32| #[trigger]
                p.video_handler.branchs.contains_key(id) ==> 1 <= id <= additions(changes)
            &&& !p.video_handler.branchs.contains_key(p.video_handler.next_id)
        }),
    decreases changes.len(),
{
    if changes.len() > 0 {
        law_ids_count_up(r, changes.drop_last());
        let p = after_changes(built_player(r), changes.drop_last());
        if let Change::Turns(events) = changes.last() {
            law_turns(p, events);
        }
    }
}

/// The id that a change gives to the branch that it adds.
pub open spec fn id_given(r: Results, changes: Seq<Change>, i: int) -> u32 {
    after_changes(built_player(r), changes.take(i)).video_handler.next_id
}

proof fn lemma_additions_grow(changes: Seq<Change>, i: int)
    requires
        0 <= i <= changes.len(),
    ensures
        additions(changes.take(i)) <= additions(changes),
        i < changes.len() && changes[i] is Added ==> additions(changes.take(i)) < additions(
            changes,
        ),
    decreases changes.len(),
{
    if i == changes.len() {
        assert(changes.take(i) =~= changes);
    } else {
        lemma_additions_grow(changes.drop_last(), i);
        assert(changes.drop_last().take(i) =~= changes.take(i));
    }
}

/// Two branches never get the same id, as long as the ids last, whatever is added or removed
/// before, between and after.
pub proof fn law_ids_differ(r: Results, changes: Seq<Change>, i: int, j: int)
    requires
        0 <= i < j < changes.len(),
        changes[i] is Added,
        changes[j] is Added,
        additions(changes) <= u32::MAX,
    ensures
        id_given(r, changes, i) < id_given(r, changes, j),
{
    lemma_additions_grow(changes, i);
    lemma_additions_grow(changes, j);
    lemma_additions_grow(changes.take(j), i);
    assert(changes.take(j).take(i) =~= changes.take(i));
    law_ids_count_up(r, changes.take(i));
    law_ids_count_up(r, changes.take(j));
}

/// The change `i` gave this id to a branch, and nothing has removed the id since.
pub open spec fn given_and_kept(r: Results, changes: Seq<Change>, i: int, id: u32) -> bool {
    &&& 0 <= i < changes.len()
    &&& changes[i] is Added
    &&& id_given(r, changes, i) == id
    &&& forall|j: int| i < j < changes.len() ==> #[trigger] changes[j] != Change::Removed(id)
}

/// One more change keeps the ids that were kept, but for the one that it removes.
proof fn lemma_kept_before(r: Results, changes: Seq<Change>, i: int, id: u32)
    requires
        0 <= i < changes.len() - 1,
    ensures
        given_and_kept(r, changes, i, id) <==> given_and_kept(r, changes.drop_last(), i, id)
            && changes.last() != Change::Removed(id),
{
    let before = changes.drop_last();
    assert(before.take(i) =~= changes.take(i));
    assert forall|j: int| 0 <= j < before.len() implies #[trigger] before[j] == changes[j] by {}
    if given_and_kept(r, changes, i, id) {
        assert(changes[changes.len() - 1] != Change::Removed(id));
        assert forall|j: int| i < j < before.len() implies #[trigger] before[j]
            != Change::Removed(id) by {
            assert(changes[j] != Change::Removed(id));
        }
    }
    if given_and_kept(r, before, i, id) && changes.last() != Change::Removed(id) {
        assert forall|j: int| i < j < changes.len() implies #[trigger] changes[j]
            != Change::Removed(id) by {
            if j < before.len() {
                assert(before[j] != Change::Removed(id));
            }
        }
    }
}

/// The ids of the branches are exactly those that were given and not removed since, be there as
/// many changes as there may.
pub proof fn law_branches_are_those_kept(r: Results, changes: Seq<Change>, id: u32)
    ensures
        after_changes(built_player(r), changes).video_handler.branchs.contains_key(id) <==> exists|
            i: int,
        | #[trigger]
            given_and_kept(r, changes, i, id),
    decreases changes.len(),
{
    let p = after_changes(built_player(r), changes);
    if changes.len() > 0 {
        let before = changes.drop_last();
        let q = after_changes(built_player(r), before);
        let end = changes.len() - 1;
        assert(changes.take(end) =~= before);
        law_branches_are_those_kept(r, before, id);
        if let Change::Turns(events) = changes.last() {
            law_turns(q, events);
        }
        if p.video_handler.branchs.contains_key(id) {
            if changes.last() is Added && id == q.video_handler.next_id {
                assert(given_and_kept(r, changes, end, id));
            } else {
                let i = choose|i: int| #[trigger] given_and_kept(r, before, i, id);
                lemma_kept_before(r, changes, i, id);
                assert(given_and_kept(r, changes, i, id));
            }
        }
        if exists|i: int| #[trigger] given_and_kept(r, changes, i, id) {
            let i = choose|i: int| #[trigger] given_and_kept(r, changes, i, id);
            if i < end {
                lemma_kept_before(r, changes, i, id);
            }
        }
    }
}

/// As long as the ids last, every id is at least one, and the branch that has it is the one that
/// it was given to.
pub proof fn law_ids_keep_their_branches(r: Results, changes: Seq<Change>, i: int, id: u32)
    requires
        given_and_kept(r, changes, i, id),
        additions(changes) <= u32::MAX,
    ensures
        1 <= id <= additions(changes),
        after_changes(built_player(r), changes).video_handler.branchs.contains_pair(
            id,
            changes[i]->Added_0,
        ),
    decreases changes.len(),
{
    let before = changes.drop_last();
    let q = after_changes(built_player(r), before);
    let end = changes.len() - 1;
    assert(changes.take(end) =~= before);
    lemma_additions_grow(changes, i);
    law_ids_count_up(r, changes.take(i));
    if i < end {
        lemma_kept_before(r, changes, i, id);
        law_ids_keep_their_branches(r, before, i, id);
        match changes.last() {
            Change::Added(_) => {
                law_ids_differ(r, changes, i, end);
            },
            Change::Turns(events) => {
                law_turns(q, events);
            },
            Change::Removed(_) => {},
        }
    }
}

/// An id that was given and removed is never that of a branch again, as long as the ids last,
/// whatever is added or removed after it: to remove it once more is refused.
pub proof fn law_removed_ids_stay_removed(
    r: Results,
    changes: Seq<Change>,
    j: int,
    id: u32,
    again: Result<Removal, String>,
    after: PlayerInnerView,
)
    requires
        0 <= j < changes.len(),
        changes[j] == Change::Removed(id),
        1 <= id <= additions(changes.take(j)),
        additions(changes) <= u32::MAX,
        branch_removed(after_changes(built_player(r), changes), id, again, after),
    ensures
        again is Err,
        again->Err_0@ == no_such_branch(id),
        after == after_changes(built_player(r), changes),
{
    law_branches_are_those_kept(r, changes, id);
    if exists|i: int| #[trigger] given_and_kept(r, changes, i, id) {
        let i = choose|i: int| #[trigger] given_and_kept(r, changes, i, id);
        assert(j < i);
        lemma_additions_grow(changes, i);
        lemma_additions_grow(changes.take(i), j);
        assert(changes.take(i).take(j) =~= changes.take(j));
        law_ids_count_up(r, changes.take(i));
    }
}

/// Commands and events neither add nor remove a branch.
pub proof fn law_turns_keep_branches(p: PlayerInnerView, events: Seq<LoopEventView>)
    ensures
        after_turns(p, events).video_handler == p.video_handler,
{
    law_turns(p, events);
}

/// What a removal makes of the player is the change that histories count, whether a branch is
/// removed or the removal is refused.
pub proof fn law_removal_is_a_change(
    before: PlayerInnerView,
    id: u32,
    res: Result<Removal, String>,
    after: PlayerInnerView,
)
    requires
        branch_removed(before, id, res, after),
    ensures
        after == after_change(before, Change::Removed(id)),
        res is Ok <==> before.video_handler.branchs.contains_key(id),
{
    assert(after =~= after_change(before, Change::Removed(id)));
}

/// What the last outcome of a branch that is being added makes of the player is the change that
/// histories count; any other outcome, and a failure, changes nothing.
pub proof fn law_addition_is_a_change(
    before: PlayerInnerView,
    standing: ProgressView,
    res: Option<Result<u32, String>>,
    after: PlayerInnerView,
)
    requires
        branch_resumed(before, standing, res, after),
    ensures
        match res {
            Some(Ok(id)) => {
                &&& after == after_change(
                    before,
                    Change::Added(built_branch(standing->Done_0)),
                )
                &&& id == before.video_handler.next_id
            },
            _ => after == before,
        },
{
}

/// To add a branch under an id that no branch has, and to remove it again, leaves the player as it
/// was, but for the id, which is used up; and what is taken down is what was built. To remove it
/// once more is refused and changes nothing.
pub proof fn law_remove_undoes_add(
    before: PlayerInnerView,
    r: Results,
    id: u32,
    added: PlayerInnerView,
    removal: Result<Removal, String>,
    removed: PlayerInnerView,
    again: Result<Removal, String>,
    after: PlayerInnerView,
)
    requires
        !before.video_handler.branchs.contains_key(before.video_handler.next_id),
        branch_resumed(before, ProgressView::Done(r), Some(Ok(id)), added),
        branch_removed(added, id, removal, removed),
        branch_removed(removed, id, again, after),
    ensures
        added.video_handler.branchs[id] == built_branch(r),
        forall|other: u32|
            #![trigger added.video_handler.branchs[other]]
            before.video_handler.branchs.contains_key(other)
                ==> added.video_handler.branchs.contains_key(other)
                && added.video_handler.branchs[other] == before.video_handler.branchs[other],
        removal is Ok,
        removal->Ok_0.detach.job() == (Job::DetachBranch {
            bin: before.video_handler.bin,
            tee: before.video_handler.tee,
            branch: built_branch(r),
        }),
        removed == (PlayerInnerView {
            video_handler: VideoHandlerView { next_id: id_after(id), ..before.video_handler },
            ..before
        }),
        again is Err,
        again->Err_0@ == no_such_branch(id),
        after == removed,
{
    assert(removed.video_handler.branchs =~= before.video_handler.branchs);
}

/// What is left to do about a branch that was removed: its sink lets go of its widget first of all,
/// whatever the state of playback; then, when its pad is idle, it is taken down from the bin and
/// the tee.
pub open spec fn takes_down(removal: Removal, bin: Handle, tee: Handle, branch: Branch) -> bool {
    &&& removal.actions@.len() == 2
    &&& removal.actions@[0] matches Action::SetProperty { object, name, value } && {
        &&& object == branch.sink
        &&& name@ == "widget"@
        &&& value == Value::NoObject
    }
    &&& removal.actions@[1] == Action::IdleProbe { pad: branch.teepad }
    &&& removal.detach.wf()
    &&& removal.detach.job() == Job::DetachBranch { bin, tee, branch }
    &&& removal.detach.results().len() == 0
    &&& !removal.detach.failed()
}

/// A branch that is there is removed, in every state of the player, and is forgotten at once; the
/// other branches, the count of ids and all else stay. An id that no branch has is refused by a
/// text that has the id in decimal, and nothing changes.
pub proof fn law_removal(p: &mut PlayerInner, id: u32, res: Result<Removal, String>)
    requires
        call_ensures(PlayerInner::remove_branch, (p, id), res),
    ensures
        ({
            let before = old(p)@;
            let after = final(p)@;
            match res {
                Ok(removal) => {
                    &&& before.video_handler.branchs.contains_key(id)
                    &&& takes_down(
                        removal,
                        before.video_handler.bin,
                        before.video_handler.tee,
                        before.video_handler.branchs[id],
                    )
                    &&& !after.video_handler.branchs.contains_key(id)
                    &&& after.video_handler.branchs.insert(
                        id,
                        before.video_handler.branchs[id],
                    ) == before.video_handler.branchs
                    &&& after.video_handler.next_id == before.video_handler.next_id
                    &&& after.video_handler.bin == before.video_handler.bin
                    &&& after.video_handler.tee == before.video_handler.tee
                    &&& after.play == before.play
                    &&& after.pipeline == before.pipeline
                    &&& after.audio_handler == before.audio_handler
                    &&& after.props == before.props
                },
                Err(text) => {
                    &&& !before.video_handler.branchs.contains_key(id)
                    &&& after == before
                    &&& exists|digits: Seq<char>|
                        {
                            &&& text@ == "Branch with id "@ + digits + " not found"@
                            &&& #[trigger] is_numeral(digits)
                            &&& number(digits) == id
                        }
                },
            }
        }),
{
    match res {
        Ok(removal) => {
            lemma_action_views(removal.actions@);
            assert(removal.actions@[0]@ == action_views(removal.actions@)[0]);
            assert(removal.actions@[1]@ == action_views(removal.actions@)[1]);
            assert(final(p)@.video_handler.branchs.insert(id, old(p)@.video_handler.branchs[id])
                =~= old(p)@.video_handler.branchs);
        },
        Err(_) => {
            law_decimal_reads_back(id as nat);
            law_decimal_is_a_numeral(id as nat);
            assert(is_numeral(decimal(id as nat)));
        },
    }
}

/// The player and the part behind it remove branches alike; the loop is not touched.
pub proof fn law_removal_alike(
    p: &mut Player,
    q: &mut PlayerInner,
    id: u32,
    res: Result<Removal, String>,
    behind: Result<Removal, String>,
)
    requires
        old(p)@.inner == old(q)@,
        call_ensures(Player::remove_branch, (p, id), res),
        call_ensures(PlayerInner::remove_branch, (q, id), behind),
    ensures
        final(p)@ == (PlayerView { inner: final(q)@, ..old(p)@ }),
        match (res, behind) {
            (Ok(r), Ok(b)) => {
                &&& action_views(r.actions@) == action_views(b.actions@)
                &&& r.detach.job() == b.detach.job()
                &&& r.detach.results() == b.detach.results()
                &&& r.detach.failed() == b.detach.failed()
            },
            (Err(text), Err(other)) => text@ == other@,
            _ => false,
        },
{
}

/// To add a branch starts afresh, with the player's own bin and tee and with the item that it is
/// to show on.
pub proof fn law_addition_start(
    p: Player,
    q: PlayerInner,
    item: Handle,
    procedure: Procedure,
    behind: Procedure,
)
    requires
        p@.inner == q@,
        call_ensures(Player::add_branch, (&p, item), procedure),
        call_ensures(PlayerInner::add_branch, (&q, item), behind),
    ensures
        procedure.wf() && behind.wf(),
        procedure.job() == (Job::AddBranch {
            bin: q@.video_handler.bin,
            tee: q@.video_handler.tee,
            item,
        }),
        behind.job() == procedure.job(),
        procedure.results().len() == 0 && behind.results().len() == 0,
        !procedure.failed() && !behind.failed(),
{
}

/// As long as a branch that is being added to a player has a next action, any outcome of it can be
/// handed in, whatever else has happened to the player's branches and playback meanwhile.
pub proof fn law_branch_outcomes_are_taken(
    p: &mut Player,
    q: &mut PlayerInner,
    a: &mut Procedure,
    item: Handle,
    action: Action,
    outcome: Outcome,
)
    requires
        old(p)@.inner == old(q)@,
        old(a).wf(),
        old(a).job() == (Job::AddBranch {
            bin: old(q)@.video_handler.bin,
            tee: old(q)@.video_handler.tee,
            item,
        }),
        call_ensures(Procedure::action, (&*old(a),), Some(action)),
    ensures
        call_requires(Player::resume_branch, (p, a, outcome)),
        call_requires(PlayerInner::resume_branch, (q, a, outcome)),
{
}

/// A branch that is being added goes as its procedure goes, outcome by outcome. Only where the
/// procedure is done is there a new branch: it is the one that was built, it gets the next id, and
/// nothing but the branches and the count of ids changes. Where the procedure fails, its text is
/// what is said; and until it is done nothing changes.
pub proof fn law_addition(
    p: &mut PlayerInner,
    a: &mut Procedure,
    b: &mut Procedure,
    item: Handle,
    outcome: Outcome,
    res: Option<Result<u32, String>>,
    standing: Progress,
)
    requires
        old(a).wf(),
        old(a).job() == (Job::AddBranch {
            bin: old(p)@.video_handler.bin,
            tee: old(p)@.video_handler.tee,
            item,
        }),
        old(b).job() == old(a).job(),
        old(b).results() == old(a).results(),
        call_ensures(PlayerInner::resume_branch, (p, a, outcome), res),
        call_ensures(Procedure::resume, (b, outcome), standing),
    ensures
        final(a).job() == final(b).job(),
        final(a).results() == final(b).results(),
        final(a).failed() == final(b).failed(),
        ({
            let before = old(p)@;
            let after = final(p)@;
            match (res, standing) {
                (None, Progress::Pending) => after == before,
                (Some(Err(text)), Progress::Failed(said)) => text@ == said@ && after == before,
                (Some(Ok(id)), Progress::Done) => {
                    &&& id == before.video_handler.next_id
                    &&& after.video_handler.branchs.contains_key(id)
                    &&& branch_is_wired(
                        before.video_handler.bin,
                        before.video_handler.tee,
                        item,
                        final(a).results(),
                        after.video_handler.branchs[id],
                    )
                    &&& after.video_handler.branchs == before.video_handler.branchs.insert(
                        id,
                        after.video_handler.branchs[id],
                    )
                    &&& after.video_handler.next_id == if id == u32::MAX {
                        0int
                    } else {
                        id + 1
                    }
                    &&& after.video_handler.bin == before.video_handler.bin
                    &&& after.video_handler.tee == before.video_handler.tee
                    &&& after.play == before.play
                    &&& after.pipeline == before.pipeline
                    &&& after.audio_handler == before.audio_handler
                    &&& after.props == before.props
                },
                _ => false,
            }
        }),
{
    if res matches Some(Ok(_)) {
        law_built_branch(
            old(p)@.video_handler.bin,
            old(p)@.video_handler.tee,
            item,
            final(a).results(),
        );
    }
}

/// The player and the part behind it add branches alike; the loop is not touched.
pub proof fn law_addition_alike(
    p: &mut Player,
    q: &mut PlayerInner,
    a: &mut Procedure,
    b: &mut Procedure,
    outcome: Outcome,
    res: Option<Result<u32, String>>,
    behind: Option<Result<u32, String>>,
)
    requires
        old(p)@.inner == old(q)@,
        old(a).job() == old(b).job(),
        old(a).results() == old(b).results(),
        call_ensures(Player::resume_branch, (p, a, outcome), res),
        call_ensures(PlayerInner::resume_branch, (q, b, outcome), behind),
    ensures
        final(p)@ == (PlayerView { inner: final(q)@, ..old(p)@ }),
        final(a).job() == final(b).job(),
        final(a).results() == final(b).results(),
        final(a).failed() == final(b).failed(),
        match (res, behind) {
            (None, None) => true,
            (Some(Ok(id)), Some(Ok(other))) => id == other,
            (Some(Err(text)), Some(Err(other))) => text@ == other@,
            _ => false,
        },
{
}

/// A branch that could not be added leaves the player as it was.
pub proof fn law_failed_branch_keeps_the_player(
    before: PlayerInnerView,
    standing: ProgressView,
    res: Option<Result<u32, String>>,
    after: PlayerInnerView,
)
    requires
        branch_resumed(before, standing, res, after),
        standing is Failed,
    ensures
        after == before,
        res matches Some(Err(text)) && standing == ProgressView::Failed(text@),
{
}

/// What the engine has been given, as far as branches go.
#[verifier::ext_equal]
pub struct Engine {
    /// The elements that are in bins, each with its bin.
    pub children: Set<(Handle, Handle)>,
    /// The pads that elements were asked for, each with its element.
    pub requested: Set<(Handle, Handle)>,
    /// The links between pads, from source to sink.
    pub links: Set<(Handle, Handle)>,
}

/// Each of the elements with the bin.
pub open spec fn in_bin(bin: Handle, elements: Seq<Handle>) -> Set<(Handle, Handle)> {
    Set::new(|pair: (Handle, Handle)| pair.0 == bin && elements.contains(pair.1))
}

/// What an action that succeeded changes of that.
pub open spec fn performed(engine: Engine, action: ActionView, brought: Handle) -> Engine {
    match action {
        ActionView::AddMany { bin, elements } => Engine {
            children: engine.children.union(in_bin(bin, elements)),
            ..engine
        },
        ActionView::RemoveMany { bin, elements } => Engine {
            children: engine.children.difference(in_bin(bin, elements)),
            ..engine
        },
        ActionView::RequestPad { element, .. } => Engine {
            requested: engine.requested.insert((element, brought)),
            ..engine
        },
        ActionView::ReleaseRequestPad { element, pad } => Engine {
            requested: engine.requested.remove((element, pad)),
            ..engine
        },
        ActionView::LinkPads { source, sink } => Engine {
            links: engine.links.insert((source, sink)),
            ..engine
        },
        ActionView::UnlinkPads { source, sink } => Engine {
            links: engine.links.remove((source, sink)),
            ..engine
        },
        _ => engine,
    }
}

/// What the actions of a job that came to these results have changed of that.
pub open spec fn worked(engine: Engine, job: Job, r: Results) -> Engine
    decreases r.len(),
{
    if r.len() == 0 {
        engine
    } else {
        let before = worked(engine, job, r.drop_last());
        match r.last() {
            Some(brought) => performed(before, next_step(job, r.drop_last())->0.action, brought),
            None => before,
        }
    }
}

/// A branch that is added and then taken down leaves the engine with the elements and the requested
/// pads that it had, whether or not the branch's pad still had a peer, and whether or not it could
/// be unlinked from it. Where the peer is what the pad was linked to, and unlinking succeeds, the
/// links are those that there were too; where there is no peer, or unlinking fails, no link is
/// undone.
pub proof fn law_detach_undoes_add(
    engine: Engine,
    bin: Handle,
    tee: Handle,
    item: Handle,
    r: Results,
    d: Results,
)
    requires
        reachable(Job::AddBranch { bin, tee, item }, r),
        is_done(Job::AddBranch { bin, tee, item }, r),
        reachable(Job::DetachBranch { bin, tee, branch: built_branch(r) }, d),
        is_done(Job::DetachBranch { bin, tee, branch: built_branch(r) }, d),
        // The queue, the sink and the pad are new to the engine.
        !engine.children.contains((bin, r[0]->0)),
        !engine.children.contains((bin, r[1]->0)),
        !engine.requested.contains((tee, r[6]->0)),
        !engine.links.contains((r[6]->0, r[7]->0)),
    ensures
        ({
            let added = worked(engine, Job::AddBranch { bin, tee, item }, r);
            let detach = Job::DetachBranch { bin, tee, branch: built_branch(r) };
            let after = worked(added, detach, d);
            &&& added == (Engine {
                children: engine.children.insert((bin, r[0]->0)).insert((bin, r[1]->0)),
                requested: engine.requested.insert((tee, r[6]->0)),
                links: engine.links.insert((r[6]->0, r[7]->0)),
            })
            &&& after.children == engine.children
            &&& after.requested == engine.requested
            &&& d[0] == r[7] && d[1] is Some ==> after == engine
            &&& d[0] is None || d[1] is None ==> after.links == added.links
        }),
{
    let job = Job::AddBranch { bin, tee, item };
    let detach = Job::DetachBranch { bin, tee, branch: built_branch(r) };
    lemma_branch_handles(job, r);
    if r.len() > 9 {
        lemma_step_was_due(job, r, 9);
    }
    assert(r.len() == 9);
    assert(d.len() > 0);
    if d.len() > 6 {
        lemma_step_was_due(detach, d, 6);
    }
    if d[0] is None {
        if d.len() > 5 {
            lemma_step_was_due(detach, d, 5);
        }
        assert(d.len() == 5);
    } else {
        assert(d.len() == 6);
    }
    reveal_with_fuel(worked, 10);
    let added = worked(engine, job, r);
    let queue = r[0]->0;
    let sink = r[1]->0;
    assert(seq![queue, sink][0] == queue && seq![queue, sink][1] == sink);
    assert(added.children =~= engine.children.insert((bin, queue)).insert((bin, sink)));
    assert(added =~= Engine {
        children: engine.children.insert((bin, queue)).insert((bin, sink)),
        requested: engine.requested.insert((tee, r[6]->0)),
        links: engine.links.insert((r[6]->0, r[7]->0)),
    });
    let after = worked(added, detach, d);
    assert(after.children =~= engine.children);
    assert(after.requested =~= engine.requested);
    if d[0] == r[7] && d[1] is Some {
        assert(after.links =~= engine.links);
    }
}

} // verus!
