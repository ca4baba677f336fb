use mixer_bridge::bridge::BridgeState;
use mixer_bridge::command::{Command, HostAddress};
use mixer_bridge::driver::{DriverAction, SessionDriver, SessionEvent, SessionState};
use mixer_bridge::queue::BoundedQueue;
use mixer_bridge::snapshot::{Input, Output, Scene, SceneCollection, Snapshot};
use mixer_bridge::text::str_contains;

fn mic(name: &str) -> Input {
    Input { name: name.to_string(), kind: "wasapi_input_capture".to_string() }
}

fn desktop(name: &str) -> Input {
    Input { name: name.to_string(), kind: "wasapi_output_capture".to_string() }
}

#[test]
fn input_snapshot_replaces_inventory_wholesale() {
    let mut b = BridgeState::new();
    b.apply_snapshot(Snapshot::InputInventory { inputs: vec![mic("A"), mic("B")] });
    assert_eq!(b.inputs.len(), 2);
    b.apply_snapshot(Snapshot::InputInventory { inputs: vec![mic("C")] });
    assert_eq!(b.inputs, vec![mic("C")]);
}

#[test]
fn each_snapshot_kind_touches_only_its_inventory() {
    let mut b = BridgeState::new();
    b.apply_snapshot(Snapshot::InputInventory { inputs: vec![mic("A")] });
    b.apply_snapshot(Snapshot::OutputInventory {
        outputs: vec![Output { name: "Stream".to_string() }],
    });
    b.apply_snapshot(Snapshot::SceneInventory { scenes: vec![Scene { name: "Main".to_string() }] });
    b.apply_snapshot(Snapshot::SceneCollectionInventory {
        collections: vec![SceneCollection { name: "Default".to_string() }],
    });
    assert_eq!(b.inputs, vec![mic("A")]);
    assert_eq!(b.outputs, vec![Output { name: "Stream".to_string() }]);
    assert_eq!(b.scenes, vec![Scene { name: "Main".to_string() }]);
    assert_eq!(b.collections, vec![SceneCollection { name: "Default".to_string() }]);
}

#[test]
fn dangling_selection_becomes_unset() {
    let mut b = BridgeState::new();
    b.apply_snapshot(Snapshot::InputInventory { inputs: vec![mic("Mic A")] });
    b.mic_selection = Some("Mic A".to_string());
    b.apply_snapshot(Snapshot::InputInventory { inputs: vec![mic("Mic B")] });
    assert_eq!(b.mic_selection, None);
}

#[test]
fn surviving_selection_is_kept() {
    let mut b = BridgeState::new();
    b.mic_selection = Some("Mic A".to_string());
    b.desktop_selection = Some("Desk".to_string());
    b.apply_snapshot(Snapshot::InputInventory { inputs: vec![mic("Mic A"), desktop("Desk")] });
    assert_eq!(b.mic_selection, Some("Mic A".to_string()));
    assert_eq!(b.desktop_selection, Some("Desk".to_string()));
}

#[test]
fn inputs_are_classified_by_kind() {
    let mut b = BridgeState::new();
    b.apply_snapshot(Snapshot::InputInventory {
        inputs: vec![
            mic("Mic A"),
            desktop("Desk"),
            Input { name: "Browser".to_string(), kind: "browser_source".to_string() },
        ],
    });
    assert_eq!(b.microphone_input_names(), vec!["Mic A".to_string()]);
    assert_eq!(b.desktop_input_names(), vec!["Desk".to_string()]);
}

#[test]
fn str_contains_finds_substrings() {
    assert!(str_contains("wasapi_input_capture", "input"));
    assert!(str_contains("input", "input"));
    assert!(str_contains("an_input", "input"));
    assert!(str_contains("inputs", "input"));
    assert!(!str_contains("wasapi_output_capture", "input"));
    assert!(!str_contains("inp", "input"));
    assert!(str_contains("anything", ""));
    assert!(!str_contains("", "x"));
}

#[test]
fn login_is_issued_exactly_once() {
    let mut b = BridgeState::new();
    let address = HostAddress { octet0: 127, octet1: 0, octet2: 0, octet3: 1 };
    let first = b.login_once(address, 4455, "SECRET-REDACTED".to_string());
    assert_eq!(
        first,
        Some(Command::LogIn {
            address,
            port: 4455,
            credential: "SECRET-REDACTED".to_string()
        })
    );
    assert!(b.logged_in);
    let second = b.login_once(address, 4455, "SECRET-REDACTED".to_string());
    assert_eq!(second, None);
}

#[test]
fn toggling_mute_flips_the_flag_and_carries_it() {
    let mut b = BridgeState::new();
    b.mic_selection = Some("Mic A".to_string());
    let cmd = b.toggle_mic_mute();
    assert!(b.mic_muted);
    assert_eq!(
        cmd,
        Some(Command::SetMute { source_id: "Mic A".to_string(), muted: true })
    );
    let cmd2 = b.toggle_mic_mute();
    assert!(!b.mic_muted);
    assert_eq!(
        cmd2,
        Some(Command::SetMute { source_id: "Mic A".to_string(), muted: false })
    );
}

#[test]
fn toggling_mute_without_selection_changes_only_local_state() {
    let mut b = BridgeState::new();
    assert_eq!(b.toggle_desktop_mute(), None);
    assert!(b.desktop_muted);
}

#[test]
fn dragging_a_level_produces_a_volume_command() {
    let mut b = BridgeState::new();
    b.desktop_selection = Some("Desk".to_string());
    let cmd = b.set_desktop_level(75);
    assert_eq!(b.desktop_level, 75);
    assert_eq!(
        cmd,
        Some(Command::SetVolume { source_id: "Desk".to_string(), level_percent: 75 })
    );
    assert_eq!(b.set_mic_level(20), None);
    assert_eq!(b.mic_level, 20);
}

#[test]
fn login_scenario_reaches_the_consumer_cache() {
    // The whole path: consumer submits a login, the driver connects,
    // refreshes the inventories, emits four snapshots through the
    // snapshot queue, and the consumer's cache ends up holding
    // exactly the list the mixer returned.
    let mut commands: BoundedQueue<Command> = BoundedQueue::new();
    let mut snapshots: BoundedQueue<Snapshot> = BoundedQueue::new();
    let mut driver = SessionDriver::new();
    let mut cache = BridgeState::new();

    let address = HostAddress { octet0: 127, octet1: 0, octet2: 0, octet3: 1 };
    let login = cache.login_once(address, 4455, "SECRET-REDACTED".to_string()).unwrap();
    assert!(commands.submit(login));

    assert_eq!(driver.current_state(), SessionState::Disconnected);
    let cmd = commands.poll().unwrap();
    let action = driver.handle_command(cmd);
    assert!(matches!(action, DriverAction::Connect { .. }));
    assert_eq!(driver.current_state(), SessionState::Connecting);

    let out = driver.handle_event(SessionEvent::ConnectSucceeded);
    assert_eq!(driver.current_state(), SessionState::Connected);
    assert_eq!(out.action, DriverAction::FetchInventories);

    let listed = vec![mic("Mic A"), desktop("Desk")];
    let out = driver.handle_event(SessionEvent::InventoriesFetched {
        inputs: listed.clone(),
        outputs: vec![Output { name: "Stream".to_string() }],
        scenes: vec![Scene { name: "Main".to_string() }],
        collections: vec![SceneCollection { name: "Default".to_string() }],
    });
    assert_eq!(out.snapshots.len(), 4);
    for snap in out.snapshots {
        assert!(snapshots.submit(snap));
    }

    while let Some(snap) = snapshots.poll() {
        cache.apply_snapshot(snap);
    }
    assert_eq!(cache.inputs, listed);
    assert_eq!(cache.outputs, vec![Output { name: "Stream".to_string() }]);
}
