//! The session driver: the state machine that owns the one remote
//! session across its lifetime.
//!
//! The driver itself performs no network work. It turns each command
//! drained from the queue, and each completion event of an in-flight
//! remote operation, into the next session state, the next remote
//! action to perform, the snapshots to emit, and the failure to
//! report. The surrounding task executes the actions against the
//! remote session and feeds the outcomes back as events, so every
//! decision the loop makes is made here.

use vstd::prelude::*;
use crate::command::{Command, VolumeFactor, HostAddress, spec_volume_factor, volume_factor};
use crate::snapshot::{Input, Output, Scene, SceneCollection, Snapshot};

verus! {

/// The lifecycle of the single remote session.
#[derive(Clone, Copy, Debug, PartialEq, Eq, Structural)]
pub enum SessionState {
    /// No connection exists; only a login is meaningful.
    Disconnected,
    /// A connect request is in flight.
    Connecting,
    /// A live connection exists; source adjustments are executed.
    Connected,
    /// A connect or inventory query failed; like `Disconnected`, a
    /// new login is accepted from here.
    Failed,
}

/// What the driver asks the surrounding task to do next against the
/// remote session.
#[derive(Clone, Debug, PartialEq, Eq)]
pub enum DriverAction {
    /// Nothing to perform (the command was dropped or needed no
    /// remote work).
    Idle,
    /// Open and authenticate the one connection.
    Connect { address: HostAddress, port: u16, credential: String },
    /// Fetch all four inventories (inputs, outputs, scenes, scene
    /// collections).
    FetchInventories,
    /// Set the mute flag of one named source to exactly this value.
    RemoteSetMute { source_id: String, muted: bool },
    /// Set the volume of one named source to this multiplicative
    /// factor.
    RemoteSetVolume { source_id: String, factor: VolumeFactor },
}

/// True of the actions that carry a source adjustment to the remote
/// session.
pub open spec fn reaches_remote_source(a: DriverAction) -> bool {
    a is RemoteSetMute || a is RemoteSetVolume
}

/// The completion of an in-flight remote operation, fed back to the
/// driver by the surrounding task.
#[derive(Clone, Debug, PartialEq, Eq)]
pub enum SessionEvent {
    /// The connect request succeeded.
    ConnectSucceeded,
    /// The connect request failed (bad address, credential or
    /// network).
    ConnectFailed,
    /// All four inventory queries succeeded.
    InventoriesFetched {
        inputs: Vec<Input>,
        outputs: Vec<Output>,
        scenes: Vec<Scene>,
        collections: Vec<SceneCollection>,
    },
    /// An inventory query failed after connecting.
    QueryFailed,
    /// A mute or volume operation was acknowledged.
    OperationSucceeded,
    /// A single mute or volume operation was rejected or failed in
    /// transit; the connection itself is assumed to remain valid.
    OperationFailed,
    /// The underlying connection was lost (explicit close, protocol
    /// error, or timeout).
    ConnectionLost,
}

/// A recoverable failure, reported to the operator as a visible,
/// non-fatal notification. Nothing the driver reports is ever fatal.
/// The fourth failure of the bridge, a command dropped by a full
/// queue, is surfaced synchronously as the `false` return of a
/// submit and never reaches the driver.
#[derive(Clone, Copy, Debug, PartialEq, Eq, Structural)]
pub enum SessionError {
    /// Address, credential or network failure during login.
    ConnectError,
    /// An inventory fetch failed after connect.
    QueryError,
    /// A single mute or volume command was rejected or failed in
    /// transit.
    OperationError,
}

/// Everything one event produces: the next remote action, the
/// snapshots to emit to the consumer (in emission order), and the
/// failure to report, if any.
pub struct EventOutcome {
    pub action: DriverAction,
    pub snapshots: Vec<Snapshot>,
    pub report: Option<SessionError>,
}

/// The state after one command is processed.
///
/// Only a login received while disconnected (or after a failure)
/// changes the state: it starts a connect. A login received while
/// connecting or connected is ignored, so the one existing session
/// is never replaced. Source adjustments never change the state.
pub open spec fn command_transition(s: SessionState, c: Command) -> SessionState {
    match c {
        Command::LogIn { .. } => {
            if s is Disconnected || s is Failed {
                SessionState::Connecting
            } else {
                s
            }
        },
        Command::SetMute { .. } => s,
        Command::SetVolume { .. } => s,
    }
}

/// The remote action one command produces.
///
/// Source adjustments are executed only while connected; in every
/// other state they are dropped, so nothing reaches the remote
/// session before a login succeeds. A volume command carries the
/// operator-facing percent converted to the multiplicative factor
/// `percent / 100`.
pub open spec fn command_action(s: SessionState, c: Command) -> DriverAction {
    match c {
        Command::LogIn { address, port, credential } => {
            if s is Disconnected || s is Failed {
                DriverAction::Connect { address, port, credential }
            } else {
                DriverAction::Idle
            }
        },
        Command::SetMute { source_id, muted } => {
            if s is Connected {
                DriverAction::RemoteSetMute { source_id, muted }
            } else {
                DriverAction::Idle
            }
        },
        Command::SetVolume { source_id, level_percent } => {
            if s is Connected {
                DriverAction::RemoteSetVolume {
                    source_id,
                    factor: spec_volume_factor(level_percent),
                }
            } else {
                DriverAction::Idle
            }
        },
    }
}

/// The state after one event.
///
/// A successful connect makes the session connected; a failed
/// connect or a failed inventory query makes it failed (from where a
/// new login is accepted); a lost connection makes it disconnected.
/// A failed single operation leaves the session connected: one
/// rejected command never tears the session down.
pub open spec fn event_transition(s: SessionState, ev: SessionEvent) -> SessionState {
    match ev {
        SessionEvent::ConnectSucceeded => if s is Connecting {
            SessionState::Connected
        } else {
            s
        },
        SessionEvent::ConnectFailed => if s is Connecting {
            SessionState::Failed
        } else {
            s
        },
        SessionEvent::InventoriesFetched { .. } => s,
        SessionEvent::QueryFailed => if s is Connected {
            SessionState::Failed
        } else {
            s
        },
        SessionEvent::OperationSucceeded => s,
        SessionEvent::OperationFailed => s,
        SessionEvent::ConnectionLost => if s is Connecting || s is Connected {
            SessionState::Disconnected
        } else {
            s
        },
    }
}

/// The remote action one event produces: a successful connect
/// immediately starts the full inventory refresh; no other event
/// starts remote work.
pub open spec fn event_action(s: SessionState, ev: SessionEvent) -> DriverAction {
    match ev {
        SessionEvent::ConnectSucceeded => if s is Connecting {
            DriverAction::FetchInventories
        } else {
            DriverAction::Idle
        },
        _ => DriverAction::Idle,
    }
}

/// The snapshots one event emits: a completed inventory refresh
/// emits exactly one snapshot per inventory kind, in the fixed order
/// inputs, outputs, scenes, scene collections. No other event emits
/// any.
pub open spec fn event_snapshots(s: SessionState, ev: SessionEvent) -> Seq<Snapshot> {
    match ev {
        SessionEvent::InventoriesFetched { inputs, outputs, scenes, collections } => {
            if s is Connected {
                seq![
                    Snapshot::InputInventory { inputs },
                    Snapshot::OutputInventory { outputs },
                    Snapshot::SceneInventory { scenes },
                    Snapshot::SceneCollectionInventory { collections },
                ]
            } else {
                Seq::empty()
            }
        },
        _ => Seq::empty(),
    }
}

/// The failure one event reports: a failed connect, a failed
/// inventory query, and a failed single operation are each reported;
/// everything else is silent.
pub open spec fn event_report(s: SessionState, ev: SessionEvent) -> Option<SessionError> {
    match ev {
        SessionEvent::ConnectFailed => if s is Connecting {
            Some(SessionError::ConnectError)
        } else {
            None
        },
        SessionEvent::QueryFailed => if s is Connected {
            Some(SessionError::QueryError)
        } else {
            None
        },
        SessionEvent::OperationFailed => if s is Connected {
            Some(SessionError::OperationError)
        } else {
            None
        },
        _ => None,
    }
}

/// The session driver: the single owner of the session lifecycle
/// state. It is transitioned only through the commands and events
/// handed to it, and the connection handle itself lives with the
/// task that executes its actions.
pub struct SessionDriver {
    state: SessionState,
}

impl SessionDriver {
    /// The current lifecycle state.
    pub closed spec fn state(&self) -> SessionState {
        self.state
    }

    /// Creates a driver with no connection.
    pub fn new() -> (d: SessionDriver)
        ensures
            d.state() == SessionState::Disconnected,
    {
        SessionDriver { state: SessionState::Disconnected }
    }

    /// Reports the current lifecycle state.
    pub fn current_state(&self) -> (s: SessionState)
        ensures
            s == self.state(),
    {
        self.state
    }

    /// Processes one command drained from the command queue,
    /// transitioning the state and returning the remote action to
    /// perform, exactly as `command_transition` and `command_action`
    /// say.
    pub fn handle_command(&mut self, c: Command) -> (a: DriverAction)
        ensures
            final(self).state() == command_transition(old(self).state(), c),
            a == command_action(old(self).state(), c),
    {
        match c {
            Command::LogIn { address, port, credential } => {
                match self.state {
                    SessionState::Disconnected | SessionState::Failed => {
                        self.state = SessionState::Connecting;
                        DriverAction::Connect { address, port, credential }
                    },
                    _ => DriverAction::Idle,
                }
            },
            Command::SetMute { source_id, muted } => {
                match self.state {
                    SessionState::Connected => DriverAction::RemoteSetMute { source_id, muted },
                    _ => DriverAction::Idle,
                }
            },
            Command::SetVolume { source_id, level_percent } => {
                match self.state {
                    SessionState::Connected => DriverAction::RemoteSetVolume {
                        source_id,
                        factor: volume_factor(level_percent),
                    },
                    _ => DriverAction::Idle,
                }
            },
        }
    }

    /// Processes the completion of one remote operation,
    /// transitioning the state and returning the next action, the
    /// snapshots to emit and the failure to report, exactly as the
    /// `event_*` functions say.
    pub fn handle_event(&mut self, ev: SessionEvent) -> (out: EventOutcome)
        ensures
            final(self).state() == event_transition(old(self).state(), ev),
            out.action == event_action(old(self).state(), ev),
            out.snapshots@ == event_snapshots(old(self).state(), ev),
            out.report == event_report(old(self).state(), ev),
    {
        let ghost s0 = self.state;
        match ev {
            SessionEvent::ConnectSucceeded => {
                match self.state {
                    SessionState::Connecting => {
                        self.state = SessionState::Connected;
                        EventOutcome {
                            action: DriverAction::FetchInventories,
                            snapshots: Vec::new(),
                            report: None,
                        }
                    },
                    _ => EventOutcome {
                        action: DriverAction::Idle,
                        snapshots: Vec::new(),
                        report: None,
                    },
                }
            },
            SessionEvent::ConnectFailed => {
                match self.state {
                    SessionState::Connecting => {
                        self.state = SessionState::Failed;
                        EventOutcome {
                            action: DriverAction::Idle,
                            snapshots: Vec::new(),
                            report: Some(SessionError::ConnectError),
                        }
                    },
                    _ => EventOutcome {
                        action: DriverAction::Idle,
                        snapshots: Vec::new(),
                        report: None,
                    },
                }
            },
            SessionEvent::InventoriesFetched { inputs, outputs, scenes, collections } => {
                match self.state {
                    SessionState::Connected => {
                        let mut snapshots: Vec<Snapshot> = Vec::new();
                        snapshots.push(Snapshot::InputInventory { inputs });
                        snapshots.push(Snapshot::OutputInventory { outputs });
                        snapshots.push(Snapshot::SceneInventory { scenes });
                        snapshots.push(Snapshot::SceneCollectionInventory { collections });
                        assert(snapshots@ =~= event_snapshots(
                            s0,
                            SessionEvent::InventoriesFetched { inputs, outputs, scenes, collections },
                        ));
                        EventOutcome { action: DriverAction::Idle, snapshots, report: None }
                    },
                    _ => EventOutcome {
                        action: DriverAction::Idle,
                        snapshots: Vec::new(),
                        report: None,
                    },
                }
            },
            SessionEvent::QueryFailed => {
                match self.state {
                    SessionState::Connected => {
                        self.state = SessionState::Failed;
                        EventOutcome {
                            action: DriverAction::Idle,
                            snapshots: Vec::new(),
                            report: Some(SessionError::QueryError),
                        }
                    },
                    _ => EventOutcome {
                        action: DriverAction::Idle,
                        snapshots: Vec::new(),
                        report: None,
                    },
                }
            },
            SessionEvent::OperationSucceeded => {
                EventOutcome { action: DriverAction::Idle, snapshots: Vec::new(), report: None }
            },
            SessionEvent::OperationFailed => {
                match self.state {
                    SessionState::Connected => EventOutcome {
                        action: DriverAction::Idle,
                        snapshots: Vec::new(),
                        report: Some(SessionError::OperationError),
                    },
                    _ => EventOutcome {
                        action: DriverAction::Idle,
                        snapshots: Vec::new(),
                        report: None,
                    },
                }
            },
            SessionEvent::ConnectionLost => {
                match self.state {
                    SessionState::Connecting | SessionState::Connected => {
                        self.state = SessionState::Disconnected;
                        EventOutcome {
                            action: DriverAction::Idle,
                            snapshots: Vec::new(),
                            report: None,
                        }
                    },
                    _ => EventOutcome {
                        action: DriverAction::Idle,
                        snapshots: Vec::new(),
                        report: None,
                    },
                }
            },
        }
    }
}

} // verus!
