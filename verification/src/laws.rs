//! The guarantees the bridge gives across several functions, stated
//! and proved once, over the same spec functions the executable
//! contracts use.

use vstd::prelude::*;
use crate::command::{Command, is_operator_adjustment};
use crate::driver::{
    DriverAction, SessionEvent, SessionState, command_action, command_transition, event_action,
    event_snapshots, event_transition, reaches_remote_source,
};
use crate::snapshot::{
    Input, Output, Scene, SceneCollection, Snapshot, SnapshotKind, count_kind, spec_snapshot_kind,
};

verus! {

/// The state after the driver processes a whole sequence of
/// commands, in submission order.
pub open spec fn run_commands(s: SessionState, cmds: Seq<Command>) -> SessionState
    decreases cmds.len(),
{
    if cmds.len() == 0 {
        s
    } else {
        run_commands(command_transition(s, cmds[0]), cmds.drop_first())
    }
}

/// Source adjustments never move the session state.
pub proof fn lemma_adjustments_keep_state(s: SessionState, cmds: Seq<Command>)
    requires
        forall|j: int| 0 <= j < cmds.len() ==> is_operator_adjustment(#[trigger] cmds[j]),
    ensures
        run_commands(s, cmds) == s,
    decreases cmds.len(),
{
    if cmds.len() > 0 {
        assert(is_operator_adjustment(cmds[0]));
        assert(forall|j: int|
            0 <= j < cmds.drop_first().len() ==> is_operator_adjustment(
                #[trigger] cmds.drop_first()[j],
            ));
        lemma_adjustments_keep_state(command_transition(s, cmds[0]), cmds.drop_first());
    }
}

/// Law: while no login has succeeded, nothing reaches the remote
/// session. Starting from any state other than `Connected`, a
/// sequence of mute and volume commands (no login among them) leaves
/// the state where it was, and every single command in it — however
/// it is interleaved — produces no remote action at all.
pub proof fn lemma_no_remote_before_login(s: SessionState, cmds: Seq<Command>)
    requires
        !(s is Connected),
        forall|j: int| 0 <= j < cmds.len() ==> is_operator_adjustment(#[trigger] cmds[j]),
    ensures
        forall|j: int| 0 <= j <= cmds.len() ==> run_commands(s, cmds.subrange(0, j)) == s,
        forall|j: int|
            0 <= j < cmds.len() ==> command_action(
                run_commands(s, cmds.subrange(0, j)),
                #[trigger] cmds[j],
            ) == DriverAction::Idle,
        forall|j: int|
            0 <= j < cmds.len() ==> !reaches_remote_source(
                command_action(run_commands(s, cmds.subrange(0, j)), #[trigger] cmds[j]),
            ),
{
    assert forall|j: int| 0 <= j <= cmds.len() implies run_commands(s, cmds.subrange(0, j)) == s by {
        let prefix = cmds.subrange(0, j);
        assert(forall|k: int|
            0 <= k < prefix.len() ==> is_operator_adjustment(#[trigger] prefix[k]));
        lemma_adjustments_keep_state(s, prefix);
    }
}

/// Law: one successful login leads to exactly four snapshots, one of
/// each inventory kind, in the fixed order inputs, outputs, scenes,
/// scene collections — each kind exactly once. A successful connect
/// moves the session from `Connecting` to `Connected` and starts the
/// one inventory refresh; its completion emits precisely that
/// sequence.
pub proof fn lemma_login_emits_each_kind_once(
    inputs: Vec<Input>,
    outputs: Vec<Output>,
    scenes: Vec<Scene>,
    collections: Vec<SceneCollection>,
)
    ensures
        event_transition(SessionState::Connecting, SessionEvent::ConnectSucceeded)
            == SessionState::Connected,
        event_action(SessionState::Connecting, SessionEvent::ConnectSucceeded)
            == DriverAction::FetchInventories,
        ({
            let snaps = event_snapshots(
                SessionState::Connected,
                SessionEvent::InventoriesFetched { inputs, outputs, scenes, collections },
            );
            &&& snaps.len() == 4
            &&& snaps[0] == (Snapshot::InputInventory { inputs })
            &&& snaps[1] == (Snapshot::OutputInventory { outputs })
            &&& snaps[2] == (Snapshot::SceneInventory { scenes })
            &&& snaps[3] == (Snapshot::SceneCollectionInventory { collections })
            &&& forall|k: SnapshotKind| count_kind(snaps, k) == 1
        }),
{
    let snaps = event_snapshots(
        SessionState::Connected,
        SessionEvent::InventoriesFetched { inputs, outputs, scenes, collections },
    );
    assert forall|k: SnapshotKind| count_kind(snaps, k) == 1 by {
        reveal_with_fuel(count_kind, 5);
        assert(snaps.drop_last().drop_last().drop_last().drop_last() =~= Seq::<Snapshot>::empty());
        assert(snaps.drop_last().drop_last().drop_last() =~= seq![snaps[0]]);
        assert(snaps.drop_last().drop_last() =~= seq![snaps[0], snaps[1]]);
        assert(snaps.drop_last() =~= seq![snaps[0], snaps[1], snaps[2]]);
        match k {
            SnapshotKind::Inputs => {
                assert(count_kind(snaps, k) == 1);
            },
            SnapshotKind::Outputs => {
                assert(count_kind(snaps, k) == 1);
            },
            SnapshotKind::Scenes => {
                assert(count_kind(snaps, k) == 1);
            },
            SnapshotKind::SceneCollections => {
                assert(count_kind(snaps, k) == 1);
            },
        }
    }
}

/// What a remote source-adjustment action does to the mixer's mute
/// table, modelled as a map from source id to mute flag: a mute
/// action overwrites one entry, every other action leaves the table
/// alone.
pub open spec fn apply_action_to_mutes(
    mutes: Map<Seq<char>, bool>,
    a: DriverAction,
) -> Map<Seq<char>, bool> {
    match a {
        DriverAction::RemoteSetMute { source_id, muted } => mutes.insert(source_id@, muted),
        _ => mutes,
    }
}

/// Law: a mute command is idempotent downstream. Submitting the same
/// mute command twice in a row while connected leaves the session
/// connected, produces the same remote action both times, and the
/// second application changes nothing the first did not already
/// change: one observable state change in the mixer's mute table.
pub proof fn lemma_set_mute_idempotent(mutes: Map<Seq<char>, bool>, c: Command)
    requires
        c is SetMute,
    ensures
        command_transition(SessionState::Connected, c) == SessionState::Connected,
        command_action(
            command_transition(SessionState::Connected, c),
            c,
        ) == command_action(SessionState::Connected, c),
        ({
            let once = apply_action_to_mutes(mutes, command_action(SessionState::Connected, c));
            apply_action_to_mutes(once, command_action(SessionState::Connected, c)) == once
        }),
{
    let a = command_action(SessionState::Connected, c);
    let once = apply_action_to_mutes(mutes, a);
    assert(apply_action_to_mutes(once, a) =~= once);
}

} // verus!
