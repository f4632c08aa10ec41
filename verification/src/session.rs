//! The decisions of the connection thread: what the reader does with each
//! line it reads, what the session loop does with each reader message and
//! each command, and when the thread stops reconnecting. The threads, the
//! socket and the channels themselves stay with the caller.

use vstd::prelude::*;
use crate::protocol::{
    IpcCommand, IpcCommandView, IpcEvent, IpcEventView, encode_command, command_line,
    parse_daemon_message, event_of, daemon_fields,
};

verus! {

/// The outcome of one read of a line from the daemon stream.
#[derive(Debug, Clone, PartialEq)]
pub enum LineRead {
    Line(String),
    Failed,
}

/// What the reader thread does with one read.
#[derive(Debug, Clone, PartialEq)]
pub enum ReaderStep {
    /// Hand the decoded event to the session loop.
    Forward(IpcEvent),
    /// Ignore an empty line.
    Skip,
    /// Tell the session loop that reading failed, then stop reading.
    ReportFailure,
}

/// The mathematical value of a read: the line, or `None` when it failed.
pub open spec fn line_read_view(read: LineRead) -> Option<Seq<char>> {
    match read {
        LineRead::Line(l) => Some(l@),
        LineRead::Failed => None,
    }
}

/// The event that a daemon line stands for.
pub open spec fn decoded(line: Seq<char>) -> IpcEventView {
    event_of(line, daemon_fields(line))
}

/// What the reader does with one read, as mathematical values.
pub enum ReaderEffect {
    Forward(IpcEventView),
    Skip,
    Stop,
}

/// An empty line is skipped, any other line is decoded and forwarded, and
/// a failed read stops the reader.
pub open spec fn reader_effect(read: Option<Seq<char>>) -> ReaderEffect {
    match read {
        Some(l) => if l.len() == 0 {
            ReaderEffect::Skip
        } else {
            ReaderEffect::Forward(decoded(l))
        },
        None => ReaderEffect::Stop,
    }
}

/// What the reader thread does with `read`: an empty line is skipped, any
/// other line is decoded and forwarded, and a failed read is reported.
pub fn reader_step(read: LineRead) -> (r: ReaderStep)
    ensures
        match reader_effect(line_read_view(read)) {
            ReaderEffect::Forward(e) => r matches ReaderStep::Forward(ev) && ev@ == e,
            ReaderEffect::Skip => r is Skip,
            ReaderEffect::Stop => r is ReportFailure,
        },
{
    match read {
        LineRead::Line(l) => {
            if l.as_str().unicode_len() == 0 {
                ReaderStep::Skip
            } else {
                ReaderStep::Forward(parse_daemon_message(l.as_str()))
            }
        },
        LineRead::Failed => ReaderStep::ReportFailure,
    }
}

/// The events the reader forwards, in order, for a sequence of reads: it
/// applies [`reader_effect`] to each read until one stops it.
pub open spec fn reader_run(reads: Seq<Option<Seq<char>>>) -> Seq<IpcEventView>
    decreases reads.len(),
{
    if reads.len() == 0 {
        seq![]
    } else {
        match reader_effect(reads[0]) {
            ReaderEffect::Forward(e) => seq![e] + reader_run(reads.drop_first()),
            ReaderEffect::Skip => reader_run(reads.drop_first()),
            ReaderEffect::Stop => seq![],
        }
    }
}

/// The lines read before the first failed read.
pub open spec fn lines_before_failure(reads: Seq<Option<Seq<char>>>) -> Seq<Seq<char>>
    decreases reads.len(),
{
    if reads.len() == 0 {
        seq![]
    } else {
        match reads[0] {
            Some(l) => seq![l] + lines_before_failure(reads.drop_first()),
            None => seq![],
        }
    }
}

/// The reader forwards exactly the decoded non-empty lines read before the
/// first failed read, each once, in the order they were read.
pub proof fn law_reader_forwards_lines_in_order(reads: Seq<Option<Seq<char>>>)
    ensures
        reader_run(reads) == lines_before_failure(reads).filter(|l: Seq<char>| l.len() > 0).map_values(
            |l: Seq<char>| decoded(l),
        ),
    decreases reads.len(),
{
    let p = |l: Seq<char>| l.len() > 0;
    let f = |l: Seq<char>| decoded(l);
    if reads.len() == 0 {
        reveal(Seq::filter);
        assert(lines_before_failure(reads).filter(p).map_values(f) =~= seq![]);
    } else {
        match reads[0] {
            Some(l) => {
                let rest = lines_before_failure(reads.drop_first());
                law_reader_forwards_lines_in_order(reads.drop_first());
                rest.lemma_filter_prepend(l, p);
                if l.len() > 0 {
                    assert((seq![l] + rest.filter(p)).map_values(f) =~= seq![decoded(l)]
                        + rest.filter(p).map_values(f));
                } else {
                    assert(seq![] + rest.filter(p) =~= rest.filter(p));
                }
            },
            None => {
                reveal(Seq::filter);
                assert(lines_before_failure(reads).filter(p).map_values(f) =~= seq![]);
            },
        }
    }
}

/// What the session loop finds when it polls the reader's channel.
#[derive(Debug, Clone, PartialEq)]
pub enum ReaderMessage {
    Event(IpcEvent),
    /// The reader reported a failed read.
    ReadFailed,
    /// Nothing is waiting.
    NothingYet,
    /// The reader has gone (the stream ended).
    ReaderGone,
}

/// What the session loop does with one reader message.
#[derive(Debug, Clone, PartialEq)]
pub enum DrainStep {
    /// Pass the event on to the UI (the session ends if the UI is gone).
    Forward(IpcEvent),
    /// Stop draining and wait for a command.
    PollCommands,
    /// The connection is over.
    EndSession,
}

/// Events are passed on, an empty channel moves on to commands, and a
/// failed read or a vanished reader ends the session.
pub fn drain_step(msg: ReaderMessage) -> (r: DrainStep)
    ensures
        match msg {
            ReaderMessage::Event(ev) => r matches DrainStep::Forward(e) && e@ == ev@,
            ReaderMessage::NothingYet => r is PollCommands,
            ReaderMessage::ReadFailed => r is EndSession,
            ReaderMessage::ReaderGone => r is EndSession,
        },
{
    match msg {
        ReaderMessage::Event(ev) => DrainStep::Forward(ev),
        ReaderMessage::NothingYet => DrainStep::PollCommands,
        ReaderMessage::ReadFailed => DrainStep::EndSession,
        ReaderMessage::ReaderGone => DrainStep::EndSession,
    }
}

/// What the session loop gets when it waits (briefly) for a command.
#[derive(Debug, Clone, PartialEq)]
pub enum CommandPoll {
    Command(IpcCommand),
    TimedOut,
    ChannelClosed,
}

/// What the session loop does with one command poll.
#[derive(Debug, Clone, PartialEq)]
pub enum CommandStep {
    /// Write `line` to the daemon; if the write fails and `end_on_failure`
    /// holds, the session ends, otherwise the failure is ignored.
    Write { line: String, end_on_failure: bool },
    /// Nothing to do; go back to draining the reader.
    Idle,
    /// The session is over.
    EndSession,
}

/// Whether a failed write of `cmd` ends the session: only a chat message
/// or a request to start listening does.
pub open spec fn ends_on_write_failure(cmd: IpcCommandView) -> bool {
    cmd is SendMessage || cmd is StartListening
}

/// Each command but `Shutdown` is written as its protocol line; `Shutdown`
/// and a closed command channel end the session; a timeout does nothing.
pub fn command_step(poll: CommandPoll) -> (r: CommandStep)
    ensures
        match poll {
            CommandPoll::Command(cmd) => match command_line(cmd@) {
                Some(line) => r matches CommandStep::Write { line: l, end_on_failure } && l@ == line
                    && end_on_failure == ends_on_write_failure(cmd@),
                None => r is EndSession,
            },
            CommandPoll::TimedOut => r is Idle,
            CommandPoll::ChannelClosed => r is EndSession,
        },
{
    match poll {
        CommandPoll::Command(cmd) => {
            let end_on_failure = match &cmd {
                IpcCommand::SendMessage(_) => true,
                IpcCommand::StartListening => true,
                _ => false,
            };
            match encode_command(cmd) {
                Some(line) => CommandStep::Write { line, end_on_failure },
                None => CommandStep::EndSession,
            }
        },
        CommandPoll::TimedOut => CommandStep::Idle,
        CommandPoll::ChannelClosed => CommandStep::EndSession,
    }
}

/// What the connection thread finds in the command channel after a
/// connection attempt (or a finished session).
#[derive(Debug, Clone, PartialEq)]
pub enum PendingCommand {
    Command(IpcCommand),
    Empty,
    ChannelClosed,
}

/// Whether the connection thread keeps reconnecting: it stops on
/// `Shutdown` or when the UI side has gone, and otherwise tries again
/// (a command that arrives while disconnected is dropped).
pub fn keeps_reconnecting(pending: &PendingCommand) -> (r: bool)
    ensures
        r == !(pending matches PendingCommand::Command(c) && c is Shutdown
            || pending is ChannelClosed),
{
    match pending {
        PendingCommand::Command(IpcCommand::Shutdown) => false,
        PendingCommand::ChannelClosed => false,
        _ => true,
    }
}

/// What the UI finds when it polls the event channel.
#[derive(Debug, Clone, PartialEq)]
pub enum EventPoll {
    Event(IpcEvent),
    Empty,
    ChannelClosed,
}

/// The event the UI sees: the event itself, nothing when none is waiting,
/// and `Disconnected` when the connection thread has gone.
pub fn client_event(poll: EventPoll) -> (r: Option<IpcEvent>)
    ensures
        match poll {
            EventPoll::Event(ev) => r matches Some(e) && e@ == ev@,
            EventPoll::Empty => r is None,
            EventPoll::ChannelClosed => r matches Some(e) && e is Disconnected,
        },
{
    match poll {
        EventPoll::Event(ev) => Some(ev),
        EventPoll::Empty => None,
        EventPoll::ChannelClosed => Some(IpcEvent::Disconnected),
    }
}

} // verus!
