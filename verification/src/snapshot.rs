//! Inventory snapshots carried from the driver back to the consumer.

use vstd::prelude::*;

verus! {

/// One controllable input exposed by the mixer: a stable name and a
/// kind classifier (for example an input-capture or output-capture
/// device), used by the consumer to tell microphone-like sources
/// from desktop-audio-like ones.
#[derive(Clone, Debug, PartialEq, Eq)]
pub struct Input {
    pub name: String,
    pub kind: String,
}

/// One output exposed by the mixer.
#[derive(Clone, Debug, PartialEq, Eq)]
pub struct Output {
    pub name: String,
}

/// One scene exposed by the mixer.
#[derive(Clone, Debug, PartialEq, Eq)]
pub struct Scene {
    pub name: String,
}

/// One scene collection exposed by the mixer.
#[derive(Clone, Debug, PartialEq, Eq)]
pub struct SceneCollection {
    pub name: String,
}

/// A full-replacement inventory update of one kind. The consumer
/// replaces its cached inventory of that kind wholesale; there are
/// no incremental updates.
#[derive(Clone, Debug, PartialEq, Eq)]
pub enum Snapshot {
    InputInventory { inputs: Vec<Input> },
    OutputInventory { outputs: Vec<Output> },
    SceneInventory { scenes: Vec<Scene> },
    SceneCollectionInventory { collections: Vec<SceneCollection> },
}

/// The kind of a snapshot, without its payload.
#[derive(Clone, Copy, Debug, PartialEq, Eq, Structural)]
pub enum SnapshotKind {
    Inputs,
    Outputs,
    Scenes,
    SceneCollections,
}

/// The kind of a snapshot, without its payload.
pub open spec fn spec_snapshot_kind(s: Snapshot) -> SnapshotKind {
    match s {
        Snapshot::InputInventory { .. } => SnapshotKind::Inputs,
        Snapshot::OutputInventory { .. } => SnapshotKind::Outputs,
        Snapshot::SceneInventory { .. } => SnapshotKind::Scenes,
        Snapshot::SceneCollectionInventory { .. } => SnapshotKind::SceneCollections,
    }
}

impl Snapshot {
    /// Reports which of the four inventory kinds this snapshot replaces.
    pub fn kind(&self) -> (k: SnapshotKind)
        ensures
            k == spec_snapshot_kind(*self),
    {
        match self {
            Snapshot::InputInventory { .. } => SnapshotKind::Inputs,
            Snapshot::OutputInventory { .. } => SnapshotKind::Outputs,
            Snapshot::SceneInventory { .. } => SnapshotKind::Scenes,
            Snapshot::SceneCollectionInventory { .. } => SnapshotKind::SceneCollections,
        }
    }
}

/// How many snapshots of kind `k` the sequence holds.
pub open spec fn count_kind(snaps: Seq<Snapshot>, k: SnapshotKind) -> nat
    decreases snaps.len(),
{
    if snaps.len() == 0 {
        0
    } else {
        count_kind(snaps.drop_last(), k) + if spec_snapshot_kind(snaps.last()) == k {
            1nat
        } else {
            0nat
        }
    }
}

} // verus!
