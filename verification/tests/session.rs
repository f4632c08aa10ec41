use jarvis_ui::protocol::{IpcCommand, IpcEvent};
use jarvis_ui::session::{
    client_event, command_step, drain_step, keeps_reconnecting, reader_step, CommandPoll,
    CommandStep, DrainStep, EventPoll, LineRead, PendingCommand, ReaderMessage, ReaderStep,
};

#[test]
fn reader_skips_empty_lines_and_forwards_others() {
    assert_eq!(reader_step(LineRead::Line(String::new())), ReaderStep::Skip);
    assert_eq!(
        reader_step(LineRead::Line("{\"type\":\"ack\"}".into())),
        ReaderStep::Forward(IpcEvent::Ack)
    );
    assert_eq!(reader_step(LineRead::Failed), ReaderStep::ReportFailure);
}

#[test]
fn drain_forwards_events_and_ends_on_failure() {
    assert_eq!(
        drain_step(ReaderMessage::Event(IpcEvent::WakeWordDetected)),
        DrainStep::Forward(IpcEvent::WakeWordDetected)
    );
    assert_eq!(drain_step(ReaderMessage::NothingYet), DrainStep::PollCommands);
    assert_eq!(drain_step(ReaderMessage::ReadFailed), DrainStep::EndSession);
    assert_eq!(drain_step(ReaderMessage::ReaderGone), DrainStep::EndSession);
}

#[test]
fn only_messages_and_start_listening_end_on_write_failure() {
    match command_step(CommandPoll::Command(IpcCommand::SendMessage("x".into()))) {
        CommandStep::Write { line, end_on_failure } => {
            assert!(end_on_failure);
            assert!(line.ends_with('\n'));
        }
        other => panic!("unexpected {other:?}"),
    }
    match command_step(CommandPoll::Command(IpcCommand::StartListening)) {
        CommandStep::Write { end_on_failure, .. } => assert!(end_on_failure),
        other => panic!("unexpected {other:?}"),
    }
    match command_step(CommandPoll::Command(IpcCommand::StopListening)) {
        CommandStep::Write { end_on_failure, line } => {
            assert!(!end_on_failure);
            assert_eq!(line, "{\"type\":\"stop_listening\"}\n");
        }
        other => panic!("unexpected {other:?}"),
    }
    assert_eq!(command_step(CommandPoll::Command(IpcCommand::Shutdown)), CommandStep::EndSession);
    assert_eq!(command_step(CommandPoll::TimedOut), CommandStep::Idle);
    assert_eq!(command_step(CommandPoll::ChannelClosed), CommandStep::EndSession);
}

#[test]
fn reconnects_until_shutdown_or_closed() {
    assert!(keeps_reconnecting(&PendingCommand::Empty));
    assert!(keeps_reconnecting(&PendingCommand::Command(IpcCommand::ListSessions)));
    assert!(!keeps_reconnecting(&PendingCommand::Command(IpcCommand::Shutdown)));
    assert!(!keeps_reconnecting(&PendingCommand::ChannelClosed));
}

#[test]
fn closed_event_channel_reads_as_disconnected() {
    assert_eq!(client_event(EventPoll::Empty), None);
    assert_eq!(client_event(EventPoll::Event(IpcEvent::Ack)), Some(IpcEvent::Ack));
    assert_eq!(client_event(EventPoll::ChannelClosed), Some(IpcEvent::Disconnected));
}

#[test]
fn reader_forwards_nonempty_lines_in_order_until_failure() {
    let reads = vec![
        LineRead::Line("{\"type\":\"state\",\"state\":\"thinking\"}".into()),
        LineRead::Line(String::new()),
        LineRead::Line("{\"type\":\"ack\"}".into()),
        LineRead::Failed,
        LineRead::Line("{\"type\":\"wake_word_detected\"}".into()),
    ];
    let mut forwarded = Vec::new();
    for read in reads {
        match reader_step(read) {
            ReaderStep::Forward(event) => forwarded.push(event),
            ReaderStep::Skip => {}
            ReaderStep::ReportFailure => break,
        }
    }
    assert_eq!(forwarded, vec![IpcEvent::State("thinking".into()), IpcEvent::Ack]);
}
