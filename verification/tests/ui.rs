use jarvis_ui::protocol::{IpcCommand, IpcEvent};
use jarvis_ui::ui::{
    close_hides_window, emit_channel, initial_ui_state, should_send_message, toggle_listening,
    tray_click_toggles, tray_menu_action, ui_event_step, wake_chime_bootstrap_decision,
    window_toggle, MenuAction, UiAction, UiEmit, UiState, WakeChimeBootstrap, WindowToggle,
};

fn bootstrap() -> WakeChimeBootstrap {
    WakeChimeBootstrap {
        chime_path: "/res/wake_chime.wav".into(),
        marker_path: "/data/.wake_chime_bootstrapped".into(),
    }
}

#[test]
fn pending_when_marker_absent_and_resource_present() {
    let result = wake_chime_bootstrap_decision(
        false,
        true,
        "/tmp/pending/wake_chime.wav".into(),
        "/tmp/pending/.wake_chime_bootstrapped".into(),
    );
    assert_eq!(
        result,
        Some(WakeChimeBootstrap {
            chime_path: "/tmp/pending/wake_chime.wav".into(),
            marker_path: "/tmp/pending/.wake_chime_bootstrapped".into(),
        })
    );
}

#[test]
fn none_when_marker_already_written() {
    assert_eq!(
        wake_chime_bootstrap_decision(true, true, "wake_chime.wav".into(), "marker".into()),
        None
    );
}

#[test]
fn none_when_bundled_resource_is_missing() {
    assert_eq!(
        wake_chime_bootstrap_decision(false, false, "wake_chime.wav".into(), "marker".into()),
        None
    );
}

#[test]
fn connect_offers_the_pending_chime_every_time() {
    let s = initial_ui_state(Some(bootstrap()));
    assert!(!s.connected);
    assert_eq!(s.daemon_state, "offline");
    let (s, acts) = ui_event_step(s, IpcEvent::Connected);
    assert!(s.connected);
    assert_eq!(s.daemon_state, "idle");
    assert_eq!(
        acts,
        vec![
            UiAction::SetTooltip("JARVIS -- Connected".into()),
            UiAction::Emit(UiEmit::Connected),
            UiAction::Emit(UiEmit::State("idle".into())),
            UiAction::SendWakeChimePath("/res/wake_chime.wav".into()),
        ]
    );
    let (s, _) = ui_event_step(s, IpcEvent::Disconnected);
    let (s, acts) = ui_event_step(s, IpcEvent::Connected);
    assert_eq!(acts.last(), Some(&UiAction::SendWakeChimePath("/res/wake_chime.wav".into())));
    assert_eq!(s.wake_chime, Some(bootstrap()));
}

#[test]
fn marker_is_written_once_after_confirmation() {
    let s = initial_ui_state(Some(bootstrap()));
    let (s, _) = ui_event_step(s, IpcEvent::Connected);
    let updated = IpcEvent::ConfigUpdated { key: "WAKE_CHIME_PATH".into(), value: "/res/wake_chime.wav".into() };
    let (s, acts) = ui_event_step(s, updated.clone());
    assert_eq!(
        acts,
        vec![
            UiAction::WriteMarker("/data/.wake_chime_bootstrapped".into()),
            UiAction::Emit(UiEmit::ConfigUpdated {
                key: "WAKE_CHIME_PATH".into(),
                value: "/res/wake_chime.wav".into()
            }),
        ]
    );
    assert_eq!(s.wake_chime, None);
    let (s, acts) = ui_event_step(s, updated);
    assert_eq!(acts.len(), 1);
    let (_, acts) = ui_event_step(s, IpcEvent::Connected);
    assert_eq!(acts.len(), 3);
}

#[test]
fn other_config_updates_only_forward() {
    let s = initial_ui_state(Some(bootstrap()));
    let (s, acts) = ui_event_step(
        s,
        IpcEvent::ConfigUpdated { key: "CONFIRMATION_MODE".into(), value: "always".into() },
    );
    assert_eq!(
        acts,
        vec![UiAction::Emit(UiEmit::ConfigUpdated {
            key: "CONFIRMATION_MODE".into(),
            value: "always".into()
        })]
    );
    assert_eq!(s.wake_chime, Some(bootstrap()));
}

#[test]
fn rejected_chime_is_reported_while_pending() {
    let s = initial_ui_state(Some(bootstrap()));
    let (s, acts) = ui_event_step(
        s,
        IpcEvent::ConfigError { key: "WAKE_CHIME_PATH".into(), message: "no such file".into() },
    );
    assert_eq!(acts[0], UiAction::WarnChimeRejected("no such file".into()));
    assert_eq!(acts.len(), 2);
    assert_eq!(s.wake_chime, Some(bootstrap()));
    let s = initial_ui_state(None);
    let (_, acts) = ui_event_step(
        s,
        IpcEvent::ConfigError { key: "WAKE_CHIME_PATH".into(), message: "no such file".into() },
    );
    assert_eq!(acts.len(), 1);
}

#[test]
fn disconnect_resets_listening_and_state() {
    let s = UiState {
        connected: true,
        is_listening: true,
        daemon_state: "listening".into(),
        wake_chime: None,
    };
    let (s, acts) = ui_event_step(s, IpcEvent::Disconnected);
    assert!(!s.connected);
    assert!(!s.is_listening);
    assert_eq!(s.daemon_state, "offline");
    assert_eq!(
        acts,
        vec![
            UiAction::SetTooltip("JARVIS -- Offline".into()),
            UiAction::Emit(UiEmit::Disconnected),
            UiAction::Emit(UiEmit::State("offline".into())),
        ]
    );
}

#[test]
fn state_events_track_listening() {
    let s = initial_ui_state(None);
    let (s, acts) = ui_event_step(s, IpcEvent::State("listening".into()));
    assert!(s.is_listening);
    assert_eq!(acts, vec![UiAction::Emit(UiEmit::State("listening".into()))]);
    let (s, _) = ui_event_step(s, IpcEvent::State("thinking".into()));
    assert!(!s.is_listening);
    assert_eq!(s.daemon_state, "thinking");
    let (s, acts) = ui_event_step(s, IpcEvent::WakeWordDetected);
    assert!(s.is_listening);
    assert_eq!(s.daemon_state, "listening");
    assert_eq!(acts[0], UiAction::Emit(UiEmit::Wake));
}

#[test]
fn final_chunk_returns_to_idle() {
    let s = initial_ui_state(None);
    let (s, acts) = ui_event_step(s, IpcEvent::ResponseChunk { content: "a".into(), done: false });
    assert_eq!(s.daemon_state, "offline");
    assert_eq!(acts.len(), 1);
    let (s, acts) = ui_event_step(s, IpcEvent::ResponseChunk { content: "b".into(), done: true });
    assert_eq!(s.daemon_state, "idle");
    assert_eq!(acts[1], UiAction::Emit(UiEmit::State("idle".into())));
}

#[test]
fn acks_and_errors_do_nothing() {
    let (_, acts) = ui_event_step(initial_ui_state(None), IpcEvent::Ack);
    assert!(acts.is_empty());
    let (_, acts) = ui_event_step(initial_ui_state(None), IpcEvent::Error("x".into()));
    assert!(acts.is_empty());
}

#[test]
fn channels_are_named() {
    assert_eq!(emit_channel(&UiEmit::Connected), "ipc-connected");
    assert_eq!(emit_channel(&UiEmit::State("idle".into())), "ipc-state");
    assert_eq!(emit_channel(&UiEmit::ConfirmationList(vec![])), "ipc-confirmation-list");
    assert_eq!(emit_channel(&UiEmit::SessionError("x".into())), "ipc-session-error");
}

#[test]
fn blank_messages_are_not_sent() {
    assert!(!should_send_message(""));
    assert!(!should_send_message(" \t\n\u{3000}"));
    assert!(should_send_message("  hi "));
}

#[test]
fn toggle_alternates() {
    let t = toggle_listening(false);
    assert_eq!(t.command, IpcCommand::StartListening);
    assert!(t.now_listening);
    assert_eq!(t.shown_state, "listening");
    let t = toggle_listening(t.now_listening);
    assert_eq!(t.command, IpcCommand::StopListening);
    assert!(!t.now_listening);
    assert_eq!(t.shown_state, "idle");
}

#[test]
fn tray_and_window_decisions() {
    assert_eq!(tray_menu_action("show_hide"), MenuAction::ToggleWindow);
    assert_eq!(tray_menu_action("start_on_login"), MenuAction::ToggleAutostart);
    assert_eq!(tray_menu_action("quit"), MenuAction::Quit);
    assert_eq!(tray_menu_action("other"), MenuAction::Nothing);
    assert!(tray_click_toggles(true, true));
    assert!(!tray_click_toggles(true, false));
    assert!(!tray_click_toggles(false, true));
    assert_eq!(window_toggle(Some(true)), WindowToggle::Hide);
    assert_eq!(window_toggle(Some(false)), WindowToggle::ShowAndFocus);
    assert_eq!(window_toggle(None), WindowToggle::ShowAndFocus);
    assert!(close_hides_window("main"));
    assert!(!close_hides_window("widget-orb"));
}

#[test]
fn bootstrap_completes_from_a_daemon_line() {
    let s = initial_ui_state(Some(bootstrap()));
    let (s, _) = ui_event_step(s, IpcEvent::Connected);
    let ev = jarvis_ui::protocol::parse_daemon_message(
        "{\"type\":\"config_updated\",\"key\":\"WAKE_CHIME_PATH\",\"value\":\"/res/wake_chime.wav\"}",
    );
    let (s, acts) = ui_event_step(s, ev);
    assert_eq!(acts[0], UiAction::WriteMarker("/data/.wake_chime_bootstrapped".into()));
    assert_eq!(s.wake_chime, None);
}

#[test]
fn offline_exactly_when_disconnected() {
    let mut s = initial_ui_state(None);
    for ev in [
        IpcEvent::Connected,
        IpcEvent::State("listening".into()),
        IpcEvent::ResponseChunk { content: "x".into(), done: true },
        IpcEvent::WakeWordDetected,
        IpcEvent::Disconnected,
        IpcEvent::Connected,
    ] {
        let (next, _) = ui_event_step(s, ev);
        s = next;
        assert_eq!(!s.connected, s.daemon_state == "offline");
    }
}
