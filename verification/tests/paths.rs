use jarvis_ui::control::{
    control_command_from_args, control_message, control_word, parse_control_line, widget_startup,
    ControlCommand, Startup,
};
use jarvis_ui::paths::{
    control_cmd_path, control_socket_path, default_socket_path, jarvis_data_dir, parse_port,
    parse_u16, port_file_path, port_text, socket_path, EnvVars, Platform,
};

fn env() -> EnvVars {
    EnvVars {
        jarvis_data_dir: None,
        xdg_data_home: None,
        home: None,
        local_app_data: None,
        user_profile: None,
        jarvis_socket: None,
    }
}

#[test]
fn data_dir_override_wins() {
    let e = EnvVars { jarvis_data_dir: Some("/custom".into()), home: Some("/home/u".into()), ..env() };
    assert_eq!(jarvis_data_dir(Platform::Linux, &e), "/custom");
    assert_eq!(jarvis_data_dir(Platform::Windows, &e), "/custom");
}

#[test]
fn linux_data_dir() {
    assert_eq!(jarvis_data_dir(Platform::Linux, &env()), "/tmp/.local/share/jarvis");
    let e = EnvVars { home: Some("/home/u".into()), ..env() };
    assert_eq!(jarvis_data_dir(Platform::Linux, &e), "/home/u/.local/share/jarvis");
    let e = EnvVars { xdg_data_home: Some("/xdg".into()), home: Some("/home/u".into()), ..env() };
    assert_eq!(jarvis_data_dir(Platform::Linux, &e), "/xdg/jarvis");
}

#[test]
fn macos_data_dir() {
    let e = EnvVars { home: Some("/Users/u".into()), ..env() };
    assert_eq!(
        jarvis_data_dir(Platform::MacOs, &e),
        "/Users/u/Library/Application Support/jarvis"
    );
    assert_eq!(jarvis_data_dir(Platform::MacOs, &env()), "/tmp/Library/Application Support/jarvis");
}

#[test]
fn windows_data_dir() {
    assert_eq!(
        jarvis_data_dir(Platform::Windows, &env()),
        "C:\\Users\\Default\\AppData\\Local\\jarvis"
    );
    let e = EnvVars { user_profile: Some("C:\\Users\\u".into()), ..env() };
    assert_eq!(jarvis_data_dir(Platform::Windows, &e), "C:\\Users\\u\\AppData\\Local\\jarvis");
    let e = EnvVars { local_app_data: Some("D:\\Local".into()), ..env() };
    assert_eq!(jarvis_data_dir(Platform::Windows, &e), "D:\\Local\\jarvis");
}

#[test]
fn sockets_live_in_the_data_dir() {
    let e = EnvVars { jarvis_data_dir: Some("/d".into()), ..env() };
    assert_eq!(default_socket_path(Platform::Linux, &e), "/d/jarvis.sock");
    assert_eq!(socket_path(Platform::Linux, &e), "/d/jarvis.sock");
    assert_eq!(control_socket_path(Platform::MacOs, &e), "/d/jarvis-widget.sock");
    assert_eq!(control_cmd_path(Platform::Windows, &e), "/d\\jarvis-widget-cmd");
    let e = EnvVars { jarvis_socket: Some("/run/j.sock".into()), ..e };
    assert_eq!(socket_path(Platform::Linux, &e), "/run/j.sock");
    assert_eq!(port_file_path("/d/jarvis.sock"), "/d/jarvis.sock.port");
}

#[test]
fn u16_parsing_matches_std() {
    for s in ["0", "7", "+80", "65535", "65536", "0065535", "", "+", "-1", "-0", " 1", "1 ", "12a",
        "99999999999", "00000", "+0", "++1"] {
        assert_eq!(parse_u16(s), s.parse::<u16>().ok(), "{s:?}");
    }
}

#[test]
fn port_files_are_trimmed() {
    assert_eq!(parse_port("  4242\n"), Some(4242));
    assert_eq!(parse_port("port"), None);
    assert_eq!(parse_port(""), None);
}

#[test]
fn arguments_select_a_command() {
    let args = |a: &[&str]| a.iter().map(|s| s.to_string()).collect::<Vec<_>>();
    assert_eq!(control_command_from_args(&args(&["jarvis-widget"])), None);
    assert_eq!(
        control_command_from_args(&args(&["jarvis-widget", "--stop"])),
        Some(ControlCommand::Stop)
    );
    assert_eq!(
        control_command_from_args(&args(&["jarvis-widget", "--stop", "--toggle"])),
        Some(ControlCommand::Toggle)
    );
}

#[test]
fn startup_decisions() {
    assert_eq!(widget_startup(Some(ControlCommand::Toggle), true), Startup::Exit);
    assert_eq!(widget_startup(Some(ControlCommand::Toggle), false), Startup::Launch);
    assert_eq!(widget_startup(Some(ControlCommand::Stop), false), Startup::Exit);
    assert_eq!(widget_startup(None, false), Startup::Launch);
}

#[test]
fn control_lines_round_trip() {
    for c in [ControlCommand::Toggle, ControlCommand::Stop] {
        assert_eq!(parse_control_line(&control_message(c)), Some(c));
        assert_eq!(parse_control_line(&control_word(c)), Some(c));
    }
    assert_eq!(control_message(ControlCommand::Toggle), "toggle\n");
    assert_eq!(control_word(ControlCommand::Stop), "stop");
    assert_eq!(parse_control_line("  stop \r"), Some(ControlCommand::Stop));
    assert_eq!(parse_control_line("restart"), None);
}

#[test]
fn port_text_matches_std_and_reads_back() {
    for p in [0u16, 7, 10, 99, 100, 4242, 65535] {
        assert_eq!(port_text(p), p.to_string());
        assert_eq!(parse_port(&port_text(p)), Some(p));
    }
}
