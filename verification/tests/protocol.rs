use jarvis_ui::protocol::{encode_command, parse_daemon_message, IpcCommand, IpcEvent};
use serde_json::Value;

fn object(members: &[(&str, Value)]) -> Value {
    let mut map = serde_json::Map::new();
    for (k, v) in members {
        map.insert(k.to_string(), v.clone());
    }
    Value::Object(map)
}

fn sent(cmd: IpcCommand) -> Value {
    let line = encode_command(cmd).expect("command is sent");
    assert!(line.ends_with('\n'));
    assert_eq!(line.matches('\n').count(), 1);
    serde_json::from_str(line.trim_end()).unwrap()
}

fn s(v: &str) -> Value {
    Value::String(v.to_string())
}

#[test]
fn confirmation_commands_round_trip_over_real_socket() {
    assert_eq!(
        sent(IpcCommand::ListConfirmations),
        object(&[("type", s("list_confirmations"))])
    );
    assert_eq!(
        sent(IpcCommand::ApproveConfirmation { id: "req1".into() }),
        object(&[("type", s("approve_confirmation")), ("id", s("req1"))])
    );
    assert_eq!(
        sent(IpcCommand::DenyConfirmation { id: "req2".into() }),
        object(&[("type", s("deny_confirmation")), ("id", s("req2"))])
    );
    assert_eq!(
        sent(IpcCommand::ApproveAllConfirmations),
        object(&[("type", s("approve_all_confirmations"))])
    );

    match parse_daemon_message(
        "{\"type\":\"confirmation_list\",\"confirmations\":[{\"id\":\"req1\",\"tool_names\":[\"fs.delete\"],\"created_at\":1.0}]}",
    ) {
        IpcEvent::ConfirmationList(list) => {
            assert_eq!(list.len(), 1);
            let item: Value = serde_json::from_str(&list[0]).unwrap();
            assert_eq!(item["id"], "req1");
        }
        other => panic!("unexpected {other:?}"),
    }

    assert_eq!(
        parse_daemon_message("{\"type\":\"ack\",\"message\":\"Approved req1\"}"),
        IpcEvent::Ack
    );

    match parse_daemon_message(
        "{\"type\":\"confirmation_request\",\"id\":\"req3\",\"tools\":[\"net.request\"]}",
    ) {
        IpcEvent::ConfirmationRequest { id, tool_names } => {
            assert_eq!(id, "req3");
            assert_eq!(tool_names, vec!["net.request".to_string()]);
        }
        other => panic!("unexpected {other:?}"),
    }
}

#[test]
fn every_command_encodes_its_wire_object() {
    assert_eq!(
        sent(IpcCommand::SendMessage("hi \"there\"\nnext".into())),
        object(&[("type", s("message")), ("content", s("hi \"there\"\nnext"))])
    );
    assert_eq!(sent(IpcCommand::StartListening), object(&[("type", s("start_listening"))]));
    assert_eq!(sent(IpcCommand::StopListening), object(&[("type", s("stop_listening"))]));
    assert_eq!(sent(IpcCommand::StopStream), object(&[("type", s("stop_stream"))]));
    assert_eq!(
        sent(IpcCommand::ConfirmationResponse { id: "c1".into(), approved: true }),
        object(&[
            ("type", s("confirmation_response")),
            ("id", s("c1")),
            ("approved", Value::Bool(true))
        ])
    );
    assert_eq!(sent(IpcCommand::ListSessions), object(&[("type", s("list_sessions"))]));
    assert_eq!(
        sent(IpcCommand::CreateSession { title: None }),
        object(&[("type", s("create_session")), ("title", Value::Null)])
    );
    assert_eq!(
        sent(IpcCommand::CreateSession { title: Some("Plans".into()) }),
        object(&[("type", s("create_session")), ("title", s("Plans"))])
    );
    assert_eq!(
        sent(IpcCommand::SwitchSession { id: "s1".into() }),
        object(&[("type", s("switch_session")), ("id", s("s1"))])
    );
    assert_eq!(
        sent(IpcCommand::RenameSession { id: "s1".into(), title: "New".into() }),
        object(&[("type", s("rename_session")), ("id", s("s1")), ("title", s("New"))])
    );
    assert_eq!(
        sent(IpcCommand::DeleteSession { id: "s2".into() }),
        object(&[("type", s("delete_session")), ("id", s("s2"))])
    );
    assert_eq!(encode_command(IpcCommand::Shutdown), None);
}

#[test]
fn encoded_line_is_compact_json() {
    assert_eq!(
        encode_command(IpcCommand::ApproveConfirmation { id: "req1".into() }).unwrap(),
        "{\"id\":\"req1\",\"type\":\"approve_confirmation\"}\n"
    );
}

#[test]
fn parses_state_with_default() {
    assert_eq!(
        parse_daemon_message("{\"type\":\"state\",\"state\":\"thinking\"}"),
        IpcEvent::State("thinking".into())
    );
    assert_eq!(parse_daemon_message("{\"type\":\"state\"}"), IpcEvent::State("idle".into()));
    assert_eq!(
        parse_daemon_message("{\"type\":\"state\",\"state\":3}"),
        IpcEvent::State("idle".into())
    );
}

#[test]
fn parses_response_chunks() {
    assert_eq!(
        parse_daemon_message("{\"type\":\"response\",\"content\":\"Hel\",\"done\":false}"),
        IpcEvent::ResponseChunk { content: "Hel".into(), done: false }
    );
    assert_eq!(
        parse_daemon_message("{\"type\":\"response\"}"),
        IpcEvent::ResponseChunk { content: "".into(), done: true }
    );
}

#[test]
fn parses_simple_kinds() {
    assert_eq!(
        parse_daemon_message("{\"type\":\"wake_word_detected\"}"),
        IpcEvent::WakeWordDetected
    );
    assert_eq!(parse_daemon_message("{\"type\":\"ping\"}"), IpcEvent::State("idle".into()));
    assert_eq!(parse_daemon_message("{\"type\":\"pong\"}"), IpcEvent::State("idle".into()));
    assert_eq!(
        parse_daemon_message("{\"type\":\"error\",\"message\":\"boom\"}"),
        IpcEvent::Error("boom".into())
    );
    assert_eq!(
        parse_daemon_message("{\"type\":\"error\"}"),
        IpcEvent::Error("Unknown error".into())
    );
    assert_eq!(
        parse_daemon_message("{\"type\":\"session_error\"}"),
        IpcEvent::SessionError("Unknown session error".into())
    );
    assert_eq!(
        parse_daemon_message("{\"type\":\"session_error\",\"message\":\"gone\"}"),
        IpcEvent::SessionError("gone".into())
    );
}

#[test]
fn confirmation_request_keeps_only_string_tools() {
    assert_eq!(
        parse_daemon_message(
            "{\"type\":\"confirmation_request\",\"id\":\"r\",\"tools\":[\"a\",1,null,\"b\"]}"
        ),
        IpcEvent::ConfirmationRequest { id: "r".into(), tool_names: vec!["a".into(), "b".into()] }
    );
    assert_eq!(
        parse_daemon_message("{\"type\":\"confirmation_request\"}"),
        IpcEvent::ConfirmationRequest { id: "".into(), tool_names: vec![] }
    );
}

#[test]
fn sessions_travel_as_json_text() {
    match parse_daemon_message(
        "{\"type\":\"session_list\",\"sessions\":[{\"id\":\"s1\"},{\"id\":\"s2\"}]}",
    ) {
        IpcEvent::SessionList(list) => {
            assert_eq!(list, vec!["{\"id\":\"s1\"}".to_string(), "{\"id\":\"s2\"}".to_string()])
        }
        other => panic!("unexpected {other:?}"),
    }
    assert_eq!(
        parse_daemon_message("{\"type\":\"session_list\"}"),
        IpcEvent::SessionList(vec![])
    );
    assert_eq!(
        parse_daemon_message("{\"type\":\"session_switched\"}"),
        IpcEvent::SessionSwitched { session: "null".into(), messages: vec![] }
    );
    assert_eq!(
        parse_daemon_message(
            "{\"type\":\"session_switched\",\"session\":{\"id\":\"s1\"},\"messages\":[1, \"x\"]}"
        ),
        IpcEvent::SessionSwitched {
            session: "{\"id\":\"s1\"}".into(),
            messages: vec!["1".into(), "\"x\"".into()]
        }
    );
}

#[test]
fn invalid_json_is_reported_with_the_line() {
    assert_eq!(
        parse_daemon_message("{ not json"),
        IpcEvent::Error("invalid JSON: { not json".into())
    );
}

#[test]
fn unknown_types_are_reported() {
    assert_eq!(
        parse_daemon_message("{\"type\":\"mystery\"}"),
        IpcEvent::Error("unknown type: Some(\"mystery\")".into())
    );
    assert_eq!(
        parse_daemon_message("{\"type\":\"say \\\"hi\\\"\"}"),
        IpcEvent::Error("unknown type: Some(\"say \\\"hi\\\"\")".into())
    );
    assert_eq!(parse_daemon_message("{}"), IpcEvent::Error("unknown type: None".into()));
    assert_eq!(parse_daemon_message("[1,2]"), IpcEvent::Error("unknown type: None".into()));
    assert_eq!(
        parse_daemon_message("{\"type\":7}"),
        IpcEvent::Error("unknown type: None".into())
    );
}

#[test]
fn parses_configuration_and_provider_reports() {
    assert_eq!(
        parse_daemon_message(
            "{\"type\":\"config_updated\",\"key\":\"WAKE_CHIME_PATH\",\"value\":\"/c.wav\"}"
        ),
        IpcEvent::ConfigUpdated { key: "WAKE_CHIME_PATH".into(), value: "/c.wav".into() }
    );
    assert_eq!(
        parse_daemon_message("{\"type\":\"config_error\",\"key\":\"K\",\"message\":\"bad\"}"),
        IpcEvent::ConfigError { key: "K".into(), message: "bad".into() }
    );
    assert_eq!(
        parse_daemon_message("{\"type\":\"config_error\"}"),
        IpcEvent::ConfigError { key: "".into(), message: "Unknown config error".into() }
    );
    assert_eq!(
        parse_daemon_message(
            "{\"type\":\"settings\",\"confirmation_mode\":\"ask\",\"wake_chime_path\":\"/w.wav\"}"
        ),
        IpcEvent::Settings { confirmation_mode: "ask".into(), wake_chime_path: "/w.wav".into() }
    );
    assert_eq!(
        parse_daemon_message("{\"type\":\"provider_list\",\"providers\":[{\"name\":\"p\"}]}"),
        IpcEvent::ProviderList(vec!["{\"name\":\"p\"}".into()])
    );
    assert_eq!(
        parse_daemon_message("{\"type\":\"provider_list\"}"),
        IpcEvent::ProviderList(vec![])
    );
    assert_eq!(
        parse_daemon_message("{\"type\":\"provider_error\",\"message\":\"no key\"}"),
        IpcEvent::ProviderError("no key".into())
    );
    assert_eq!(
        parse_daemon_message("{\"type\":\"provider_error\"}"),
        IpcEvent::ProviderError("Unknown provider error".into())
    );
}
