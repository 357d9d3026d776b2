use minimal_browser::events::{dispatch_restores_home, HandlerAction, KeyListener};
use minimal_browser::home_chord;

fn overlay_listener() -> KeyListener {
    KeyListener {
        at_document: true,
        capture: true,
        stops_propagation: false,
        action: HandlerAction::RestoreHome,
    }
}

fn stopping_host_listener() -> KeyListener {
    KeyListener {
        at_document: false,
        capture: false,
        stops_propagation: true,
        action: HandlerAction::HostEffect,
    }
}

#[test]
fn chord_recognised() {
    assert!(home_chord(true, false, 'h'));
    assert!(home_chord(false, true, 'H'));
    assert!(!home_chord(false, false, 'h'));
    assert!(!home_chord(true, false, 'j'));
}

#[test]
fn capture_listener_survives_stop_propagation() {
    let ls = vec![stopping_host_listener(), overlay_listener()];
    assert!(dispatch_restores_home(&ls, true, false, 'h'));
}

#[test]
fn cmd_h_works_too() {
    let ls = vec![stopping_host_listener(), overlay_listener()];
    assert!(dispatch_restores_home(&ls, false, true, 'H'));
}

#[test]
fn bubble_listener_would_be_suppressed() {
    let bubbling_restore = KeyListener {
        at_document: true,
        capture: false,
        stops_propagation: false,
        action: HandlerAction::RestoreHome,
    };
    let ls = vec![stopping_host_listener(), bubbling_restore];
    assert!(!dispatch_restores_home(&ls, true, false, 'h'));
}

#[test]
fn other_keys_restore_nothing() {
    let ls = vec![stopping_host_listener(), overlay_listener()];
    assert!(!dispatch_restores_home(&ls, true, false, 'x'));
    assert!(!dispatch_restores_home(&ls, false, false, 'h'));
}
