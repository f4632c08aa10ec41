//! The desktop shell's decisions: how each daemon event changes the state
//! that the UI shows and what it emits to the frontend; the wake chime
//! bootstrap; the listening toggle; the tray and the main window.

use vstd::prelude::*;
use crate::protocol::{IpcCommand, IpcEvent, IpcEventView};
use crate::text::{is_blank, blank, same_text};
use crate::session::{reader_run, reader_effect, ReaderEffect, decoded};

verus! {

/// The one-time override of the daemon's wake chime with the bundled one:
/// the chime to offer, and the marker file that records that it was taken.
#[derive(Debug, Clone, PartialEq)]
pub struct WakeChimeBootstrap {
    pub chime_path: String,
    pub marker_path: String,
}

/// What the shell knows of the daemon between events.
#[derive(Debug, Clone, PartialEq)]
pub struct UiState {
    pub connected: bool,
    pub is_listening: bool,
    pub daemon_state: String,
    /// The bootstrap still waiting for the daemon's confirmation.
    pub wake_chime: Option<WakeChimeBootstrap>,
}

/// The mathematical value of a [`UiState`]; the bootstrap is
/// `(chime_path, marker_path)`.
pub struct UiStateView {
    pub connected: bool,
    pub is_listening: bool,
    pub daemon_state: Seq<char>,
    pub wake_chime: Option<(Seq<char>, Seq<char>)>,
}

impl View for UiState {
    type V = UiStateView;

    open spec fn view(&self) -> UiStateView {
        UiStateView {
            connected: self.connected,
            is_listening: self.is_listening,
            daemon_state: self.daemon_state@,
            wake_chime: match self.wake_chime {
                Some(b) => Some((b.chime_path@, b.marker_path@)),
                None => None,
            },
        }
    }
}

/// An event for the frontend, with its payload.
#[derive(Debug, Clone, PartialEq)]
pub enum UiEmit {
    Connected,
    Disconnected,
    State(String),
    Chunk { content: String, done: bool },
    Wake,
    Confirm { id: String, tool_names: Vec<String> },
    ConfirmationList(Vec<String>),
    ConfigUpdated { key: String, value: String },
    ConfigError { key: String, message: String },
    SessionList(Vec<String>),
    SessionSwitched { session: String, messages: Vec<String> },
    SessionError(String),
    Settings { confirmation_mode: String, wake_chime_path: String },
    ProviderList(Vec<String>),
    ProviderError(String),
}

/// The mathematical value of a [`UiEmit`].
pub enum UiEmitView {
    Connected,
    Disconnected,
    State(Seq<char>),
    Chunk { content: Seq<char>, done: bool },
    Wake,
    Confirm { id: Seq<char>, tool_names: Seq<Seq<char>> },
    ConfirmationList(Seq<Seq<char>>),
    ConfigUpdated { key: Seq<char>, value: Seq<char> },
    ConfigError { key: Seq<char>, message: Seq<char> },
    SessionList(Seq<Seq<char>>),
    SessionSwitched { session: Seq<char>, messages: Seq<Seq<char>> },
    SessionError(Seq<char>),
    Settings { confirmation_mode: Seq<char>, wake_chime_path: Seq<char> },
    ProviderList(Seq<Seq<char>>),
    ProviderError(Seq<char>),
}

impl View for UiEmit {
    type V = UiEmitView;

    open spec fn view(&self) -> UiEmitView {
        match self {
            UiEmit::Connected => UiEmitView::Connected,
            UiEmit::Disconnected => UiEmitView::Disconnected,
            UiEmit::State(s) => UiEmitView::State(s@),
            UiEmit::Chunk { content, done } => UiEmitView::Chunk { content: content@, done: *done },
            UiEmit::Wake => UiEmitView::Wake,
            UiEmit::Confirm { id, tool_names } => UiEmitView::Confirm {
                id: id@,
                tool_names: tool_names.deep_view(),
            },
            UiEmit::ConfirmationList(l) => UiEmitView::ConfirmationList(l.deep_view()),
            UiEmit::ConfigUpdated { key, value } => UiEmitView::ConfigUpdated {
                key: key@,
                value: value@,
            },
            UiEmit::ConfigError { key, message } => UiEmitView::ConfigError {
                key: key@,
                message: message@,
            },
            UiEmit::SessionList(l) => UiEmitView::SessionList(l.deep_view()),
            UiEmit::SessionSwitched { session, messages } => UiEmitView::SessionSwitched {
                session: session@,
                messages: messages.deep_view(),
            },
            UiEmit::SessionError(m) => UiEmitView::SessionError(m@),
            UiEmit::Settings { confirmation_mode, wake_chime_path } => UiEmitView::Settings {
                confirmation_mode: confirmation_mode@,
                wake_chime_path: wake_chime_path@,
            },
            UiEmit::ProviderList(l) => UiEmitView::ProviderList(l.deep_view()),
            UiEmit::ProviderError(m) => UiEmitView::ProviderError(m@),
        }
    }
}

/// Something the shell does in answer to an event.
#[derive(Debug, Clone, PartialEq)]
pub enum UiAction {
    /// Set the tray icon's tooltip.
    SetTooltip(String),
    /// Emit an event to the frontend.
    Emit(UiEmit),
    /// Ask the daemon to use this wake chime.
    SendWakeChimePath(String),
    /// Record, in this marker file, that the wake chime bootstrap is done.
    WriteMarker(String),
    /// Report that the daemon refused the bootstrap wake chime.
    WarnChimeRejected(String),
}

/// The mathematical value of a [`UiAction`].
pub enum UiActionView {
    SetTooltip(Seq<char>),
    Emit(UiEmitView),
    SendWakeChimePath(Seq<char>),
    WriteMarker(Seq<char>),
    WarnChimeRejected(Seq<char>),
}

impl View for UiAction {
    type V = UiActionView;

    open spec fn view(&self) -> UiActionView {
        match self {
            UiAction::SetTooltip(t) => UiActionView::SetTooltip(t@),
            UiAction::Emit(e) => UiActionView::Emit(e@),
            UiAction::SendWakeChimePath(p) => UiActionView::SendWakeChimePath(p@),
            UiAction::WriteMarker(p) => UiActionView::WriteMarker(p@),
            UiAction::WarnChimeRejected(m) => UiActionView::WarnChimeRejected(m@),
        }
    }
}

/// The mathematical values of a sequence of actions.
pub open spec fn actions_view(acts: Seq<UiAction>) -> Seq<UiActionView> {
    acts.map_values(|a: UiAction| a@)
}

/// The configuration key of the wake chime.
pub open spec fn wake_chime_key() -> Seq<char> {
    "WAKE_CHIME_PATH"@
}

/// The marker file of a pending bootstrap.
pub open spec fn marker_of(b: Option<(Seq<char>, Seq<char>)>) -> Seq<char> {
    match b {
        Some((_, marker)) => marker,
        None => seq![],
    }
}

/// The chime of a pending bootstrap.
pub open spec fn chime_of(b: Option<(Seq<char>, Seq<char>)>) -> Seq<char> {
    match b {
        Some((chime, _)) => chime,
        None => seq![],
    }
}

/// The state after `e`, and what the shell does about it.
pub open spec fn ui_step(s: UiStateView, e: IpcEventView) -> (UiStateView, Seq<UiActionView>) {
    match e {
        IpcEventView::Connected => (
            UiStateView { connected: true, daemon_state: "idle"@, ..s },
            seq![
                UiActionView::SetTooltip("JARVIS -- Connected"@),
                UiActionView::Emit(UiEmitView::Connected),
                UiActionView::Emit(UiEmitView::State("idle"@)),
            ] + match s.wake_chime {
                Some(b) => seq![UiActionView::SendWakeChimePath(b.0)],
                None => seq![],
            },
        ),
        IpcEventView::Disconnected => (
            UiStateView {
                connected: false,
                is_listening: false,
                daemon_state: "offline"@,
                ..s
            },
            seq![
                UiActionView::SetTooltip("JARVIS -- Offline"@),
                UiActionView::Emit(UiEmitView::Disconnected),
                UiActionView::Emit(UiEmitView::State("offline"@)),
            ],
        ),
        IpcEventView::State(x) => (
            UiStateView { is_listening: x == "listening"@, daemon_state: x, ..s },
            seq![UiActionView::Emit(UiEmitView::State(x))],
        ),
        IpcEventView::ResponseChunk { content, done } => if done {
            (
                UiStateView { daemon_state: "idle"@, ..s },
                seq![
                    UiActionView::Emit(UiEmitView::Chunk { content, done }),
                    UiActionView::Emit(UiEmitView::State("idle"@)),
                ],
            )
        } else {
            (s, seq![UiActionView::Emit(UiEmitView::Chunk { content, done })])
        },
        IpcEventView::WakeWordDetected => (
            UiStateView { is_listening: true, daemon_state: "listening"@, ..s },
            seq![
                UiActionView::Emit(UiEmitView::Wake),
                UiActionView::Emit(UiEmitView::State("listening"@)),
            ],
        ),
        IpcEventView::ConfirmationRequest { id, tool_names } => (
            s,
            seq![UiActionView::Emit(UiEmitView::Confirm { id, tool_names })],
        ),
        IpcEventView::ConfirmationList(l) => (
            s,
            seq![UiActionView::Emit(UiEmitView::ConfirmationList(l))],
        ),
        IpcEventView::Ack => (s, seq![]),
        IpcEventView::ConfigUpdated { key, value } => if key == wake_chime_key()
            && s.wake_chime is Some {
            (
                UiStateView { wake_chime: None, ..s },
                seq![
                    UiActionView::WriteMarker(marker_of(s.wake_chime)),
                    UiActionView::Emit(UiEmitView::ConfigUpdated { key, value }),
                ],
            )
        } else {
            (s, seq![UiActionView::Emit(UiEmitView::ConfigUpdated { key, value })])
        },
        IpcEventView::ConfigError { key, message } => if key == wake_chime_key()
            && s.wake_chime is Some {
            (
                s,
                seq![
                    UiActionView::WarnChimeRejected(message),
                    UiActionView::Emit(UiEmitView::ConfigError { key, message }),
                ],
            )
        } else {
            (s, seq![UiActionView::Emit(UiEmitView::ConfigError { key, message })])
        },
        IpcEventView::Error(_) => (s, seq![]),
        IpcEventView::SessionList(l) => (s, seq![UiActionView::Emit(UiEmitView::SessionList(l))]),
        IpcEventView::SessionSwitched { session, messages } => (
            s,
            seq![UiActionView::Emit(UiEmitView::SessionSwitched { session, messages })],
        ),
        IpcEventView::SessionError(m) => (s, seq![UiActionView::Emit(UiEmitView::SessionError(m))]),
        IpcEventView::Settings { confirmation_mode, wake_chime_path } => (
            s,
            seq![UiActionView::Emit(UiEmitView::Settings { confirmation_mode, wake_chime_path })],
        ),
        IpcEventView::ProviderList(l) => (s, seq![UiActionView::Emit(UiEmitView::ProviderList(l))]),
        IpcEventView::ProviderError(m) => (
            s,
            seq![UiActionView::Emit(UiEmitView::ProviderError(m))],
        ),
    }
}

fn one(a: UiAction) -> (r: Vec<UiAction>)
    ensures
        actions_view(r@) == seq![a@],
{
    let mut r = Vec::new();
    r.push(a);
    assert(actions_view(r@) =~= seq![a@]);
    r
}

fn two(a: UiAction, b: UiAction) -> (r: Vec<UiAction>)
    ensures
        actions_view(r@) == seq![a@, b@],
{
    let mut r = Vec::new();
    r.push(a);
    r.push(b);
    assert(actions_view(r@) =~= seq![a@, b@]);
    r
}

fn three(a: UiAction, b: UiAction, c: UiAction) -> (r: Vec<UiAction>)
    ensures
        actions_view(r@) == seq![a@, b@, c@],
{
    let mut r = Vec::new();
    r.push(a);
    r.push(b);
    r.push(c);
    assert(actions_view(r@) =~= seq![a@, b@, c@]);
    r
}

fn state_emit(s: &str) -> (r: UiAction)
    ensures
        r@ == UiActionView::Emit(UiEmitView::State(s@)),
{
    UiAction::Emit(UiEmit::State(s.to_string()))
}

fn is_wake_chime_key(key: &String) -> (r: bool)
    ensures
        r == (key@ == wake_chime_key()),
{
    same_text(key.as_str(), "WAKE_CHIME_PATH")
}

/// The shell's state before any event: not connected, not listening,
/// `offline`, with the wake chime bootstrap that is still pending.
pub fn initial_ui_state(wake_chime: Option<WakeChimeBootstrap>) -> (r: UiState)
    ensures
        !r.connected,
        !r.is_listening,
        r.daemon_state@ == "offline"@,
        r.wake_chime == wake_chime,
{
    UiState { connected: false, is_listening: false, daemon_state: "offline".to_string(), wake_chime }
}

fn connection_step(state: UiState, connected: bool) -> (r: (UiState, Vec<UiAction>))
    ensures
        (r.0@, actions_view(r.1@)) == ui_step(
            state@,
            if connected {
                IpcEventView::Connected
            } else {
                IpcEventView::Disconnected
            },
        ),
{
    let mut state = state;
    if connected {
        state.connected = true;
        state.daemon_state = "idle".to_string();
        let mut acts = three(
            UiAction::SetTooltip("JARVIS -- Connected".to_string()),
            UiAction::Emit(UiEmit::Connected),
            state_emit("idle"),
        );
        let ghost first = actions_view(acts@);
        match &state.wake_chime {
            Some(b) => {
                acts.push(UiAction::SendWakeChimePath(b.chime_path.clone()));
            },
            None => {},
        }
        assert(actions_view(acts@) =~= first + match state@.wake_chime {
            Some(b) => seq![UiActionView::SendWakeChimePath(b.0)],
            None => seq![],
        });
        (state, acts)
    } else {
        state.connected = false;
        state.is_listening = false;
        state.daemon_state = "offline".to_string();
        let acts = three(
            UiAction::SetTooltip("JARVIS -- Offline".to_string()),
            UiAction::Emit(UiEmit::Disconnected),
            state_emit("offline"),
        );
        (state, acts)
    }
}

fn config_step(state: UiState, event: IpcEvent) -> (r: (UiState, Vec<UiAction>))
    requires
        event is ConfigUpdated || event is ConfigError,
    ensures
        (r.0@, actions_view(r.1@)) == ui_step(state@, event@),
{
    let mut state = state;
    match event {
        IpcEvent::ConfigUpdated { key, value } => {
            if is_wake_chime_key(&key) && state.wake_chime.is_some() {
                let b = state.wake_chime.take().unwrap();
                let acts = two(
                    UiAction::WriteMarker(b.marker_path),
                    UiAction::Emit(UiEmit::ConfigUpdated { key, value }),
                );
                (state, acts)
            } else {
                (state, one(UiAction::Emit(UiEmit::ConfigUpdated { key, value })))
            }
        },
        IpcEvent::ConfigError { key, message } => {
            if is_wake_chime_key(&key) && state.wake_chime.is_some() {
                let acts = two(
                    UiAction::WarnChimeRejected(message.clone()),
                    UiAction::Emit(UiEmit::ConfigError { key, message }),
                );
                (state, acts)
            } else {
                (state, one(UiAction::Emit(UiEmit::ConfigError { key, message })))
            }
        },
        _ => (state, Vec::new()),
    }
}

/// How the shell answers one event from the connection: the new state and
/// the actions to perform, in order.
pub fn ui_event_step(state: UiState, event: IpcEvent) -> (r: (UiState, Vec<UiAction>))
    ensures
        (r.0@, actions_view(r.1@)) == ui_step(state@, event@),
{
    let mut state = state;
    match event {
        IpcEvent::Connected => connection_step(state, true),
        IpcEvent::Disconnected => connection_step(state, false),
        IpcEvent::State(x) => {
            state.is_listening = same_text(x.as_str(), "listening");
            state.daemon_state = x.clone();
            (state, one(UiAction::Emit(UiEmit::State(x))))
        },
        IpcEvent::ResponseChunk { content, done } => {
            if done {
                state.daemon_state = "idle".to_string();
                let acts = two(UiAction::Emit(UiEmit::Chunk { content, done }), state_emit("idle"));
                (state, acts)
            } else {
                (state, one(UiAction::Emit(UiEmit::Chunk { content, done })))
            }
        },
        IpcEvent::WakeWordDetected => {
            state.is_listening = true;
            state.daemon_state = "listening".to_string();
            (state, two(UiAction::Emit(UiEmit::Wake), state_emit("listening")))
        },
        IpcEvent::ConfirmationRequest { id, tool_names } => {
            (state, one(UiAction::Emit(UiEmit::Confirm { id, tool_names })))
        },
        IpcEvent::ConfirmationList(l) => (state, one(UiAction::Emit(UiEmit::ConfirmationList(l)))),
        IpcEvent::Ack => {
            let acts: Vec<UiAction> = Vec::new();
            assert(actions_view(acts@) =~= seq![]);
            (state, acts)
        },
        IpcEvent::ConfigUpdated { key, value } => config_step(
            state,
            IpcEvent::ConfigUpdated { key, value },
        ),
        IpcEvent::ConfigError { key, message } => config_step(
            state,
            IpcEvent::ConfigError { key, message },
        ),
        IpcEvent::Error(_) => {
            let acts: Vec<UiAction> = Vec::new();
            assert(actions_view(acts@) =~= seq![]);
            (state, acts)
        },
        IpcEvent::SessionList(l) => (state, one(UiAction::Emit(UiEmit::SessionList(l)))),
        IpcEvent::SessionSwitched { session, messages } => {
            (state, one(UiAction::Emit(UiEmit::SessionSwitched { session, messages })))
        },
        IpcEvent::SessionError(m) => (state, one(UiAction::Emit(UiEmit::SessionError(m)))),
        IpcEvent::Settings { confirmation_mode, wake_chime_path } => {
            (state, one(UiAction::Emit(UiEmit::Settings { confirmation_mode, wake_chime_path })))
        },
        IpcEvent::ProviderList(l) => (state, one(UiAction::Emit(UiEmit::ProviderList(l)))),
        IpcEvent::ProviderError(m) => (state, one(UiAction::Emit(UiEmit::ProviderError(m)))),
    }
}

// ---------------------------------------------------------------------------
// Laws of the event step
// ---------------------------------------------------------------------------

/// The state after a whole sequence of events, and all the actions taken.
pub open spec fn ui_run(s: UiStateView, events: Seq<IpcEventView>) -> (UiStateView, Seq<UiActionView>)
    decreases events.len(),
{
    if events.len() == 0 {
        (s, seq![])
    } else {
        let (s1, a1) = ui_step(s, events[0]);
        let (s2, a2) = ui_run(s1, events.drop_first());
        (s2, a1 + a2)
    }
}

/// How many of `acts` write the wake chime marker.
pub open spec fn marker_writes(acts: Seq<UiActionView>) -> nat
    decreases acts.len(),
{
    if acts.len() == 0 {
        0
    } else {
        (if acts[0] is WriteMarker {
            1nat
        } else {
            0nat
        }) + marker_writes(acts.drop_first())
    }
}

proof fn lemma_marker_writes_concat(a: Seq<UiActionView>, b: Seq<UiActionView>)
    ensures
        marker_writes(a + b) == marker_writes(a) + marker_writes(b),
    decreases a.len(),
{
    if a.len() > 0 {
        assert((a + b).drop_first() =~= a.drop_first() + b);
        lemma_marker_writes_concat(a.drop_first(), b);
    } else {
        assert(a + b =~= b);
    }
}

proof fn lemma_step_marker(s: UiStateView, e: IpcEventView)
    ensures
        ({
            let (s1, a1) = ui_step(s, e);
            &&& s1.wake_chime == s.wake_chime || s1.wake_chime is None
            &&& marker_writes(a1) + (if s1.wake_chime is Some {
                1nat
            } else {
                0nat
            }) <= (if s.wake_chime is Some {
                1nat
            } else {
                0nat
            })
        }),
{
    let (s1, a1) = ui_step(s, e);
    reveal_with_fuel(marker_writes, 5);
    match e {
        IpcEventView::Connected => {
            lemma_marker_writes_concat(
                seq![
                    UiActionView::SetTooltip("JARVIS -- Connected"@),
                    UiActionView::Emit(UiEmitView::Connected),
                    UiActionView::Emit(UiEmitView::State("idle"@)),
                ],
                match s.wake_chime {
                    Some(b) => seq![UiActionView::SendWakeChimePath(b.0)],
                    None => seq![],
                },
            );
        },
        _ => {},
    }
}

/// The wake chime marker is written at most once over any run of events,
/// never when no bootstrap is pending at the start, and once it has been
/// written no bootstrap is pending any more; a pending bootstrap is never
/// replaced by another one.
pub proof fn law_marker_written_at_most_once(s: UiStateView, events: Seq<IpcEventView>)
    ensures
        ({
            let (fin, acts) = ui_run(s, events);
            &&& fin.wake_chime == s.wake_chime || fin.wake_chime is None
            &&& marker_writes(acts) + (if fin.wake_chime is Some {
                1nat
            } else {
                0nat
            }) <= (if s.wake_chime is Some {
                1nat
            } else {
                0nat
            })
        }),
    decreases events.len(),
{
    if events.len() > 0 {
        let (s1, a1) = ui_step(s, events[0]);
        lemma_step_marker(s, events[0]);
        law_marker_written_at_most_once(s1, events.drop_first());
        let (s2, a2) = ui_run(s1, events.drop_first());
        lemma_marker_writes_concat(a1, a2);
    }
}

/// The shell passes what the daemon said on to the frontend unchanged:
/// every event that carries a payload is emitted with that payload, and
/// reports that do not concern the shell's own state leave it as it was.
pub proof fn law_payloads_forwarded_unchanged(s: UiStateView, e: IpcEventView)
    ensures
        (e matches IpcEventView::ConfirmationRequest { id, tool_names } ==> ui_step(s, e).1
            == seq![UiActionView::Emit(UiEmitView::Confirm { id, tool_names })] && ui_step(s, e).0
            == s),
        (e matches IpcEventView::ConfirmationList(l) ==> ui_step(s, e).1.contains(
            UiActionView::Emit(UiEmitView::ConfirmationList(l)),
        ) && ui_step(s, e).0 == s),
        (e matches IpcEventView::SessionList(l) ==> ui_step(s, e).1.contains(
            UiActionView::Emit(UiEmitView::SessionList(l)),
        ) && ui_step(s, e).0 == s),
        (e matches IpcEventView::SessionSwitched { session, messages } ==> ui_step(s, e).1.contains(
            UiActionView::Emit(UiEmitView::SessionSwitched { session, messages }),
        ) && ui_step(s, e).0 == s),
        (e matches IpcEventView::SessionError(m) ==> ui_step(s, e).1.contains(
            UiActionView::Emit(UiEmitView::SessionError(m)),
        ) && ui_step(s, e).0 == s),
        (e matches IpcEventView::Settings { confirmation_mode, wake_chime_path } ==> ui_step(
            s,
            e,
        ).1.contains(UiActionView::Emit(UiEmitView::Settings { confirmation_mode, wake_chime_path }))
            && ui_step(s, e).0 == s),
        (e matches IpcEventView::ProviderList(l) ==> ui_step(s, e).1.contains(
            UiActionView::Emit(UiEmitView::ProviderList(l)),
        ) && ui_step(s, e).0 == s),
        (e matches IpcEventView::ProviderError(m) ==> ui_step(s, e).1.contains(
            UiActionView::Emit(UiEmitView::ProviderError(m)),
        ) && ui_step(s, e).0 == s),
        (e matches IpcEventView::ResponseChunk { content, done } ==> ui_step(s, e).1[0]
            == UiActionView::Emit(UiEmitView::Chunk { content, done })),
        (e matches IpcEventView::State(x) ==> ui_step(s, e).1.contains(
            UiActionView::Emit(UiEmitView::State(x)),
        )),
        (e matches IpcEventView::ConfigError { key, message } ==> ui_step(s, e).1.contains(
            UiActionView::Emit(UiEmitView::ConfigError { key, message }),
        )),
{
    let acts = ui_step(s, e).1;
    if acts.len() > 0 {
        assert(acts[0] == acts[0]);
        assert(acts[acts.len() - 1] == acts[acts.len() - 1]);
    }
}

/// What the shell shows for the daemon's own reports: a connection shows
/// `JARVIS -- Connected`, tells the frontend, and shows `idle`; a
/// disconnection shows `JARVIS -- Offline`, tells the frontend and shows
/// `offline`; a final chunk brings the daemon back to `idle` after the
/// chunk, a partial one changes nothing; a detected wake word means the
/// daemon is listening; an acknowledgement or an error report changes
/// nothing and emits nothing. The bootstrap is only offered on a
/// connection, and only while it is pending.
pub proof fn law_daemon_reports_shown(s: UiStateView, e: IpcEventView)
    ensures
        (e is Connected ==> {
            let (t, acts) = ui_step(s, e);
            &&& t.connected && t.daemon_state == "idle"@ && t.is_listening == s.is_listening
            &&& t.wake_chime == s.wake_chime
            &&& acts.take(3) == seq![
                UiActionView::SetTooltip("JARVIS -- Connected"@),
                UiActionView::Emit(UiEmitView::Connected),
                UiActionView::Emit(UiEmitView::State("idle"@)),
            ]
            &&& (s.wake_chime is None ==> acts.len() == 3)
        }),
        (e is Disconnected ==> {
            let (t, acts) = ui_step(s, e);
            &&& !t.connected && !t.is_listening && t.daemon_state == "offline"@
            &&& t.wake_chime == s.wake_chime
            &&& acts == seq![
                UiActionView::SetTooltip("JARVIS -- Offline"@),
                UiActionView::Emit(UiEmitView::Disconnected),
                UiActionView::Emit(UiEmitView::State("offline"@)),
            ]
        }),
        (e matches IpcEventView::ResponseChunk { content, done } ==> {
            let (t, acts) = ui_step(s, e);
            &&& done ==> t == UiStateView { daemon_state: "idle"@, ..s } && acts == seq![
                UiActionView::Emit(UiEmitView::Chunk { content, done }),
                UiActionView::Emit(UiEmitView::State("idle"@)),
            ]
            &&& !done ==> t == s && acts == seq![
                UiActionView::Emit(UiEmitView::Chunk { content, done }),
            ]
        }),
        (e is WakeWordDetected ==> {
            let (t, acts) = ui_step(s, e);
            &&& t.is_listening && t.daemon_state == "listening"@ && t.connected == s.connected
            &&& t.wake_chime == s.wake_chime
            &&& acts == seq![
                UiActionView::Emit(UiEmitView::Wake),
                UiActionView::Emit(UiEmitView::State("listening"@)),
            ]
        }),
        (e is Ack || e is Error ==> ui_step(s, e) == (s, Seq::<UiActionView>::empty())),
        (!(e is Connected) ==> forall|i: int|
            0 <= i < ui_step(s, e).1.len() ==> !(#[trigger] ui_step(s, e).1[i] is SendWakeChimePath)),
{
    let acts = ui_step(s, e).1;
    if e is Connected {
        assert(acts.take(3) =~= seq![
            UiActionView::SetTooltip("JARVIS -- Connected"@),
            UiActionView::Emit(UiEmitView::Connected),
            UiActionView::Emit(UiEmitView::State("idle"@)),
        ]);
    }
    if e is Ack || e is Error {
        assert(acts =~= Seq::<UiActionView>::empty());
    }
}

/// The daemon's answer to the bootstrap: accepting the wake chime (an
/// update of `WAKE_CHIME_PATH` while the bootstrap is pending) writes the
/// pending marker and ends the bootstrap; refusing it warns with the
/// daemon's message and leaves the bootstrap pending, to be offered again
/// on the next connection. Updates and errors for other keys, or when no
/// bootstrap is pending, change nothing and write no marker.
pub proof fn law_wake_chime_answers(s: UiStateView, key: Seq<char>, text: Seq<char>)
    ensures
        (key == wake_chime_key() && s.wake_chime is Some ==> {
            let (t, acts) = ui_step(s, IpcEventView::ConfigUpdated { key, value: text });
            &&& t == UiStateView { wake_chime: None, ..s }
            &&& acts.contains(UiActionView::WriteMarker(marker_of(s.wake_chime)))
        }),
        (key == wake_chime_key() && s.wake_chime is Some ==> {
            let (t, acts) = ui_step(s, IpcEventView::ConfigError { key, message: text });
            &&& t == s
            &&& acts.contains(UiActionView::WarnChimeRejected(text))
            &&& forall|i: int| 0 <= i < acts.len() ==> !(#[trigger] acts[i] is WriteMarker)
        }),
        (!(key == wake_chime_key() && s.wake_chime is Some) ==> {
            let (t, acts) = ui_step(s, IpcEventView::ConfigUpdated { key, value: text });
            &&& t == s
            &&& forall|i: int| 0 <= i < acts.len() ==> !(#[trigger] acts[i] is WriteMarker)
        }),
        (!(key == wake_chime_key() && s.wake_chime is Some) ==> ui_step(
            s,
            IpcEventView::ConfigError { key, message: text },
        ) == (s, seq![UiActionView::Emit(UiEmitView::ConfigError { key, message: text })])),
{
    if key == wake_chime_key() && s.wake_chime is Some {
        let acts = ui_step(s, IpcEventView::ConfigUpdated { key, value: text }).1;
        assert(acts[0] == UiActionView::WriteMarker(marker_of(s.wake_chime)));
        let acts2 = ui_step(s, IpcEventView::ConfigError { key, message: text }).1;
        assert(acts2[0] == UiActionView::WarnChimeRejected(text));
    }
}

/// While the bootstrap is pending, every (re)connection asks the daemon
/// again for the bundled wake chime, and the bootstrap stays pending.
pub proof fn law_connect_retries_bootstrap(s: UiStateView)
    requires
        s.wake_chime is Some,
    ensures
        ui_step(s, IpcEventView::Connected).0.wake_chime == s.wake_chime,
        ui_step(s, IpcEventView::Connected).1.contains(
            UiActionView::SendWakeChimePath(chime_of(s.wake_chime)),
        ),
{
    let acts = ui_step(s, IpcEventView::Connected).1;
    assert(acts[3] == UiActionView::SendWakeChimePath(chime_of(s.wake_chime)));
}

/// A disconnection always leaves the shell disconnected, not listening and
/// `offline`.
pub proof fn law_disconnect_resets(s: UiStateView)
    ensures
        !ui_step(s, IpcEventView::Disconnected).0.connected,
        !ui_step(s, IpcEventView::Disconnected).0.is_listening,
        ui_step(s, IpcEventView::Disconnected).0.daemon_state == "offline"@,
{
}

/// A state report sets the daemon state, and the shell is listening exactly
/// when the reported state is `listening`.
pub proof fn law_listening_follows_state(s: UiStateView, x: Seq<char>)
    ensures
        ui_step(s, IpcEventView::State(x)).0.daemon_state == x,
        ui_step(s, IpcEventView::State(x)).0.is_listening == (x == "listening"@),
{
}

/// Every configuration update is forwarded to the frontend as it came.
pub proof fn law_config_updates_forwarded(s: UiStateView, key: Seq<char>, value: Seq<char>)
    ensures
        ui_step(s, IpcEventView::ConfigUpdated { key, value }).1.contains(
            UiActionView::Emit(UiEmitView::ConfigUpdated { key, value }),
        ),
{
    let acts = ui_step(s, IpcEventView::ConfigUpdated { key, value }).1;
    assert(acts[acts.len() - 1] == UiActionView::Emit(UiEmitView::ConfigUpdated { key, value }));
}

/// The shell shows `offline` exactly while it is not connected.
pub open spec fn offline_iff_disconnected(s: UiStateView) -> bool {
    !s.connected <==> s.daemon_state == "offline"@
}

/// An event that the connection thread can deliver in state `s`: while
/// disconnected only `Connected` or `Disconnected` (the latter when the
/// thread has gone); while connected anything but a second `Connected`.
/// The daemon never reports the client-side state `offline` itself.
pub open spec fn deliverable(s: UiStateView, e: IpcEventView) -> bool {
    &&& if s.connected {
        !(e is Connected)
    } else {
        e is Connected || e is Disconnected
    }
    &&& e != IpcEventView::State("offline"@)
}

/// Every event of `events` is deliverable in the state it reaches.
pub open spec fn delivered_in_order(s: UiStateView, events: Seq<IpcEventView>) -> bool
    decreases events.len(),
{
    events.len() == 0 || (deliverable(s, events[0]) && delivered_in_order(
        ui_step(s, events[0]).0,
        events.drop_first(),
    ))
}

proof fn lemma_step_keeps_offline_iff_disconnected(s: UiStateView, e: IpcEventView)
    requires
        offline_iff_disconnected(s),
        deliverable(s, e),
    ensures
        offline_iff_disconnected(ui_step(s, e).0),
{
    reveal_strlit("offline");
    reveal_strlit("idle");
    reveal_strlit("listening");
    assert("offline"@.len() == 7);
    assert("idle"@.len() == 4);
    assert("listening"@.len() == 9);
}

/// When events arrive in the connection thread's order, the shell shows
/// `offline` exactly while it is not connected, after every event (it
/// starts that way: disconnected and `offline`).
pub proof fn law_offline_exactly_when_disconnected(s: UiStateView, events: Seq<IpcEventView>)
    requires
        offline_iff_disconnected(s),
        delivered_in_order(s, events),
    ensures
        offline_iff_disconnected(ui_run(s, events).0),
    decreases events.len(),
{
    if events.len() > 0 {
        lemma_step_keeps_offline_iff_disconnected(s, events[0]);
        law_offline_exactly_when_disconnected(ui_step(s, events[0]).0, events.drop_first());
    }
}

/// One connection attempt of the connection thread: whether it connected,
/// and the reads of the session if it did.
pub struct Attempt {
    pub connected: bool,
    pub reads: Seq<Option<Seq<char>>>,
}

/// What the connection thread emits for one attempt: nothing when the
/// connection failed, otherwise `Connected`, the events the reader
/// forwarded, and `Disconnected`.
pub open spec fn attempt_events(a: Attempt) -> Seq<IpcEventView> {
    if a.connected {
        seq![IpcEventView::Connected] + reader_run(a.reads) + seq![IpcEventView::Disconnected]
    } else {
        seq![]
    }
}

/// What the connection thread emits over a sequence of attempts.
pub open spec fn thread_events(attempts: Seq<Attempt>) -> Seq<IpcEventView>
    decreases attempts.len(),
{
    if attempts.len() == 0 {
        seq![]
    } else {
        attempt_events(attempts[0]) + thread_events(attempts.drop_first())
    }
}

/// The daemon never reports the client-side state `offline` in these reads.
pub open spec fn never_reports_offline(reads: Seq<Option<Seq<char>>>) -> bool {
    forall|i: int|
        0 <= i < reads.len() && reads[i] is Some && reads[i]->0.len() > 0 ==> decoded(reads[i]->0)
            != IpcEventView::State("offline"@)
}

/// An event that a session can carry between `Connected` and
/// `Disconnected`.
pub open spec fn session_event(e: IpcEventView) -> bool {
    !(e is Connected) && !(e is Disconnected) && e != IpcEventView::State("offline"@)
}

/// A decoded daemon line is never a connection event.
pub proof fn law_decoded_lines_are_not_connection_events(line: Seq<char>)
    ensures
        !(decoded(line) is Connected),
        !(decoded(line) is Disconnected),
{
}

proof fn lemma_reader_run_session_events(reads: Seq<Option<Seq<char>>>)
    requires
        never_reports_offline(reads),
    ensures
        forall|i: int| 0 <= i < reader_run(reads).len() ==> session_event(#[trigger] reader_run(reads)[i]),
    decreases reads.len(),
{
    if reads.len() > 0 {
        let rest = reads.drop_first();
        assert(never_reports_offline(rest)) by {
            assert forall|i: int|
                0 <= i < rest.len() && rest[i] is Some && rest[i]->0.len() > 0 implies decoded(rest[i]->0)
                    != IpcEventView::State("offline"@) by {
                assert(rest[i] == reads[i + 1]);
            }
        }
        lemma_reader_run_session_events(rest);
        match reader_effect(reads[0]) {
            ReaderEffect::Forward(e) => {
                law_decoded_lines_are_not_connection_events(reads[0]->0);
                let r = reader_run(reads);
                assert forall|i: int| 0 <= i < r.len() implies session_event(#[trigger] r[i]) by {
                    if i > 0 {
                        assert(r[i] == reader_run(rest)[i - 1]);
                    }
                }
            },
            _ => {},
        }
    }
}

proof fn lemma_delivered_concat(s: UiStateView, a: Seq<IpcEventView>, b: Seq<IpcEventView>)
    requires
        delivered_in_order(s, a),
        delivered_in_order(ui_run(s, a).0, b),
    ensures
        delivered_in_order(s, a + b),
        ui_run(s, a + b).0 == ui_run(ui_run(s, a).0, b).0,
    decreases a.len(),
{
    if a.len() == 0 {
        assert(a + b =~= b);
    } else {
        assert((a + b)[0] == a[0]);
        assert((a + b).drop_first() =~= a.drop_first() + b);
        lemma_delivered_concat(ui_step(s, a[0]).0, a.drop_first(), b);
    }
}

proof fn lemma_session_delivered(s: UiStateView, es: Seq<IpcEventView>)
    requires
        s.connected,
        forall|i: int| 0 <= i < es.len() ==> session_event(#[trigger] es[i]),
    ensures
        delivered_in_order(s, es),
        ui_run(s, es).0.connected,
    decreases es.len(),
{
    if es.len() > 0 {
        assert(session_event(es[0]));
        let rest = es.drop_first();
        assert forall|i: int| 0 <= i < rest.len() implies session_event(#[trigger] rest[i]) by {
            assert(rest[i] == es[i + 1]);
        }
        lemma_session_delivered(ui_step(s, es[0]).0, rest);
    }
}

/// Whatever the connection thread emits over its attempts (each successful
/// one framed by `Connected` and `Disconnected`, a failed one emitting
/// nothing) is delivered in the order the shell's offline law assumes, as
/// long as the daemon never reports `offline` itself; the shell ends up
/// disconnected, and it shows `offline` exactly while disconnected
/// throughout, if it started so.
pub proof fn law_connection_framing(s: UiStateView, attempts: Seq<Attempt>)
    requires
        !s.connected,
        forall|k: int| 0 <= k < attempts.len() ==> never_reports_offline(#[trigger] attempts[k].reads),
    ensures
        delivered_in_order(s, thread_events(attempts)),
        !ui_run(s, thread_events(attempts)).0.connected,
        offline_iff_disconnected(s) ==> offline_iff_disconnected(ui_run(s, thread_events(attempts)).0),
    decreases attempts.len(),
{
    if attempts.len() > 0 {
        let a = attempts[0];
        let rest = attempts.drop_first();
        assert forall|k: int| 0 <= k < rest.len() implies never_reports_offline(#[trigger] rest[k].reads) by {
            assert(rest[k] == attempts[k + 1]);
        }
        let ev = attempt_events(a);
        assert(delivered_in_order(s, ev) && !ui_run(s, ev).0.connected) by {
            if a.connected {
                let r = reader_run(a.reads);
                assert(never_reports_offline(attempts[0].reads));
                lemma_reader_run_session_events(a.reads);
                let s1 = ui_step(s, IpcEventView::Connected).0;
                lemma_session_delivered(s1, r);
                let head = seq![IpcEventView::Connected];
                let tail = seq![IpcEventView::Disconnected];
                assert(head.drop_first() =~= Seq::<IpcEventView>::empty());
                assert(delivered_in_order(s1, head.drop_first()));
                assert(ui_run(s1, head.drop_first()).0 == s1);
                assert(delivered_in_order(s, head));
                assert(ui_run(s, head).0 == s1);
                lemma_delivered_concat(s, head, r);
                let s2 = ui_run(s, head + r).0;
                let s3 = ui_step(s2, IpcEventView::Disconnected).0;
                assert(tail.drop_first() =~= Seq::<IpcEventView>::empty());
                assert(delivered_in_order(s3, tail.drop_first()));
                assert(ui_run(s3, tail.drop_first()).0 == s3);
                assert(delivered_in_order(s2, tail));
                assert(!ui_run(s2, tail).0.connected);
                lemma_delivered_concat(s, head + r, tail);
            }
        }
        law_connection_framing(ui_run(s, ev).0, rest);
        lemma_delivered_concat(s, ev, thread_events(rest));
        if offline_iff_disconnected(s) {
            law_offline_exactly_when_disconnected(s, thread_events(attempts));
        }
    }
}

// ---------------------------------------------------------------------------
// Other decisions of the shell
// ---------------------------------------------------------------------------

/// The frontend event name for each kind of emission.
pub open spec fn channel_name(e: UiEmitView) -> Seq<char> {
    match e {
        UiEmitView::Connected => "ipc-connected"@,
        UiEmitView::Disconnected => "ipc-disconnected"@,
        UiEmitView::State(_) => "ipc-state"@,
        UiEmitView::Chunk { .. } => "ipc-chunk"@,
        UiEmitView::Wake => "ipc-wake"@,
        UiEmitView::Confirm { .. } => "ipc-confirm"@,
        UiEmitView::ConfirmationList(_) => "ipc-confirmation-list"@,
        UiEmitView::ConfigUpdated { .. } => "ipc-config-updated"@,
        UiEmitView::ConfigError { .. } => "ipc-config-error"@,
        UiEmitView::SessionList(_) => "ipc-session-list"@,
        UiEmitView::SessionSwitched { .. } => "ipc-session-switched"@,
        UiEmitView::SessionError(_) => "ipc-session-error"@,
        UiEmitView::Settings { .. } => "ipc-settings"@,
        UiEmitView::ProviderList(_) => "ipc-provider-list"@,
        UiEmitView::ProviderError(_) => "ipc-provider-error"@,
    }
}

/// The frontend event name under which `e` is emitted.
pub fn emit_channel(e: &UiEmit) -> (r: String)
    ensures
        r@ == channel_name(e@),
{
    match e {
        UiEmit::Connected => "ipc-connected".to_string(),
        UiEmit::Disconnected => "ipc-disconnected".to_string(),
        UiEmit::State(_) => "ipc-state".to_string(),
        UiEmit::Chunk { .. } => "ipc-chunk".to_string(),
        UiEmit::Wake => "ipc-wake".to_string(),
        UiEmit::Confirm { .. } => "ipc-confirm".to_string(),
        UiEmit::ConfirmationList(_) => "ipc-confirmation-list".to_string(),
        UiEmit::ConfigUpdated { .. } => "ipc-config-updated".to_string(),
        UiEmit::ConfigError { .. } => "ipc-config-error".to_string(),
        UiEmit::SessionList(_) => "ipc-session-list".to_string(),
        UiEmit::SessionSwitched { .. } => "ipc-session-switched".to_string(),
        UiEmit::SessionError(_) => "ipc-session-error".to_string(),
        UiEmit::Settings { .. } => "ipc-settings".to_string(),
        UiEmit::ProviderList(_) => "ipc-provider-list".to_string(),
        UiEmit::ProviderError(_) => "ipc-provider-error".to_string(),
    }
}

/// Which kind of emission `e` is, as a number.
pub open spec fn emit_kind(e: UiEmitView) -> nat {
    match e {
        UiEmitView::Connected => 0,
        UiEmitView::Disconnected => 1,
        UiEmitView::State(_) => 2,
        UiEmitView::Chunk { .. } => 3,
        UiEmitView::Wake => 4,
        UiEmitView::Confirm { .. } => 5,
        UiEmitView::ConfirmationList(_) => 6,
        UiEmitView::ConfigUpdated { .. } => 7,
        UiEmitView::ConfigError { .. } => 8,
        UiEmitView::SessionList(_) => 9,
        UiEmitView::SessionSwitched { .. } => 10,
        UiEmitView::SessionError(_) => 11,
        UiEmitView::Settings { .. } => 12,
        UiEmitView::ProviderList(_) => 13,
        UiEmitView::ProviderError(_) => 14,
    }
}

/// Every frontend event name starts with `ipc-`, and no two kinds of
/// emission share a name, so the frontend can tell every kind apart.
pub proof fn law_channels_tell_kinds_apart(a: UiEmitView, b: UiEmitView)
    ensures
        channel_name(a).len() > 4 && channel_name(a).subrange(0, 4) == "ipc-"@,
        channel_name(a) == channel_name(b) <==> emit_kind(a) == emit_kind(b),
{
    reveal_strlit("ipc-");
    reveal_strlit("ipc-connected");
    reveal_strlit("ipc-disconnected");
    reveal_strlit("ipc-state");
    reveal_strlit("ipc-chunk");
    reveal_strlit("ipc-wake");
    reveal_strlit("ipc-confirm");
    reveal_strlit("ipc-confirmation-list");
    reveal_strlit("ipc-config-updated");
    reveal_strlit("ipc-config-error");
    reveal_strlit("ipc-session-list");
    reveal_strlit("ipc-session-switched");
    reveal_strlit("ipc-session-error");
    reveal_strlit("ipc-settings");
    reveal_strlit("ipc-provider-list");
    reveal_strlit("ipc-provider-error");
    let na = channel_name(a);
    let nb = channel_name(b);
    assert(na.subrange(0, 4) =~= "ipc-"@);
    if emit_kind(a) != emit_kind(b) {
        if na.len() == nb.len() {
            assert(na[4] != nb[4]);
        }
    }
}

/// Whether the wake chime bootstrap is still to be done, from what the
/// caller found on disk: it is pending when the marker file does not exist
/// and the bundled chime is a regular file; the bootstrap then offers the
/// chime's path and remembers the marker's.
pub fn wake_chime_bootstrap_decision(
    marker_exists: bool,
    resource_is_file: bool,
    resource_path: String,
    marker_path: String,
) -> (r: Option<WakeChimeBootstrap>)
    ensures
        r is Some <==> !marker_exists && resource_is_file,
        r matches Some(b) ==> b.chime_path == resource_path && b.marker_path == marker_path,
{
    if marker_exists {
        return None;
    }
    if !resource_is_file {
        return None;
    }
    Some(WakeChimeBootstrap { chime_path: resource_path, marker_path })
}

/// Whether a chat message is worth sending: blank messages are dropped.
pub fn should_send_message(content: &str) -> (r: bool)
    ensures
        r == !is_blank(content@),
{
    !blank(content)
}

/// The outcome of the listening toggle: the command for the daemon, the new
/// listening flag, and the state shown meanwhile.
#[derive(Debug, Clone, PartialEq)]
pub struct ListeningToggle {
    pub command: IpcCommand,
    pub now_listening: bool,
    pub shown_state: String,
}

/// Toggling while listening stops listening and shows `idle`; otherwise it
/// starts listening and shows `listening`.
pub fn toggle_listening(was_listening: bool) -> (r: ListeningToggle)
    ensures
        r.now_listening == !was_listening,
        was_listening ==> r.command is StopListening && r.shown_state@ == "idle"@,
        !was_listening ==> r.command is StartListening && r.shown_state@ == "listening"@,
{
    if was_listening {
        ListeningToggle {
            command: IpcCommand::StopListening,
            now_listening: false,
            shown_state: "idle".to_string(),
        }
    } else {
        ListeningToggle {
            command: IpcCommand::StartListening,
            now_listening: true,
            shown_state: "listening".to_string(),
        }
    }
}

/// Toggling twice leaves the listening flag as it was, having first sent
/// one of start and stop and then the other.
pub proof fn law_toggle_twice_restores(was_listening: bool, first: ListeningToggle, second: ListeningToggle)
    requires
        first.now_listening == !was_listening,
        was_listening ==> first.command is StopListening,
        !was_listening ==> first.command is StartListening,
        second.now_listening == !first.now_listening,
        first.now_listening ==> second.command is StopListening,
        !first.now_listening ==> second.command is StartListening,
    ensures
        second.now_listening == was_listening,
        first.command is StartListening <==> second.command is StopListening,
{
}

/// What a tray menu entry does.
#[derive(Debug, Clone, PartialEq)]
pub enum MenuAction {
    ToggleWindow,
    ToggleAutostart,
    Quit,
    Nothing,
}

/// The tray menu entries: `show_hide`, `start_on_login` and `quit`.
pub fn tray_menu_action(id: &str) -> (r: MenuAction)
    ensures
        id@ == "show_hide"@ ==> r is ToggleWindow,
        id@ == "start_on_login"@ ==> r is ToggleAutostart,
        id@ == "quit"@ ==> r is Quit,
        id@ != "show_hide"@ && id@ != "start_on_login"@ && id@ != "quit"@ ==> r is Nothing,
{
    proof {
        reveal_strlit("show_hide");
        reveal_strlit("start_on_login");
        reveal_strlit("quit");
        assert("show_hide"@.len() == 9);
        assert("start_on_login"@.len() == 14);
        assert("quit"@.len() == 4);
    }
    if same_text(id, "show_hide") {
        MenuAction::ToggleWindow
    } else if same_text(id, "start_on_login") {
        MenuAction::ToggleAutostart
    } else if same_text(id, "quit") {
        MenuAction::Quit
    } else {
        MenuAction::Nothing
    }
}

/// A click on the tray icon toggles the main window when it is the left
/// button coming up.
pub fn tray_click_toggles(left_button: bool, button_up: bool) -> (r: bool)
    ensures
        r == (left_button && button_up),
{
    left_button && button_up
}

/// What toggling the main window does.
#[derive(Debug, Clone, PartialEq)]
pub enum WindowToggle {
    Hide,
    ShowAndFocus,
}

/// A visible window is hidden; one that is hidden, or whose visibility
/// cannot be read, is shown and focused.
pub fn window_toggle(visible: Option<bool>) -> (r: WindowToggle)
    ensures
        (visible == Some(true)) ==> r is Hide,
        (visible != Some(true)) ==> r is ShowAndFocus,
{
    match visible {
        Some(true) => WindowToggle::Hide,
        _ => WindowToggle::ShowAndFocus,
    }
}

/// Closing the main window hides it instead; other windows close.
pub fn close_hides_window(label: &str) -> (r: bool)
    ensures
        r == (label@ == "main"@),
{
    same_text(label, "main")
}

} // verus!
