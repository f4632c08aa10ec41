//! The line protocol between this client and the JARVIS daemon: each
//! command goes out as one compact JSON object on its own line, and each
//! line that comes in becomes one [`IpcEvent`].

use vstd::prelude::*;
use crate::json::{
    JsonScalar, JsonScalarView, members_view, json_parses, json_member, json_str, json_bool,
    json_array, json_object, debug_text, parse_succeeds, member_text, string_value, bool_value,
    array_items, object_text, debug_quoted,
};
use crate::text::same_text;

verus! {

/// A request from the UI to the connection thread.
#[derive(Debug, Clone, PartialEq)]
pub enum IpcCommand {
    SendMessage(String),
    StartListening,
    StopListening,
    StopStream,
    ConfirmationResponse { id: String, approved: bool },
    ListConfirmations,
    ApproveConfirmation { id: String },
    DenyConfirmation { id: String },
    ApproveAllConfirmations,
    ListSessions,
    CreateSession { title: Option<String> },
    SwitchSession { id: String },
    RenameSession { id: String, title: String },
    DeleteSession { id: String },
    Shutdown,
}

/// The mathematical value of an [`IpcCommand`].
pub enum IpcCommandView {
    SendMessage(Seq<char>),
    StartListening,
    StopListening,
    StopStream,
    ConfirmationResponse { id: Seq<char>, approved: bool },
    ListConfirmations,
    ApproveConfirmation { id: Seq<char> },
    DenyConfirmation { id: Seq<char> },
    ApproveAllConfirmations,
    ListSessions,
    CreateSession { title: Option<Seq<char>> },
    SwitchSession { id: Seq<char> },
    RenameSession { id: Seq<char>, title: Seq<char> },
    DeleteSession { id: Seq<char> },
    Shutdown,
}

impl View for IpcCommand {
    type V = IpcCommandView;

    open spec fn view(&self) -> IpcCommandView {
        match self {
            IpcCommand::SendMessage(c) => IpcCommandView::SendMessage(c@),
            IpcCommand::StartListening => IpcCommandView::StartListening,
            IpcCommand::StopListening => IpcCommandView::StopListening,
            IpcCommand::StopStream => IpcCommandView::StopStream,
            IpcCommand::ConfirmationResponse { id, approved } => IpcCommandView::ConfirmationResponse {
                id: id@,
                approved: *approved,
            },
            IpcCommand::ListConfirmations => IpcCommandView::ListConfirmations,
            IpcCommand::ApproveConfirmation { id } => IpcCommandView::ApproveConfirmation { id: id@ },
            IpcCommand::DenyConfirmation { id } => IpcCommandView::DenyConfirmation { id: id@ },
            IpcCommand::ApproveAllConfirmations => IpcCommandView::ApproveAllConfirmations,
            IpcCommand::ListSessions => IpcCommandView::ListSessions,
            IpcCommand::CreateSession { title } => IpcCommandView::CreateSession {
                title: title.deep_view(),
            },
            IpcCommand::SwitchSession { id } => IpcCommandView::SwitchSession { id: id@ },
            IpcCommand::RenameSession { id, title } => IpcCommandView::RenameSession {
                id: id@,
                title: title@,
            },
            IpcCommand::DeleteSession { id } => IpcCommandView::DeleteSession { id: id@ },
            IpcCommand::Shutdown => IpcCommandView::Shutdown,
        }
    }
}

/// Something the daemon (or the connection itself) reports to the UI.
#[derive(Debug, Clone, PartialEq)]
pub enum IpcEvent {
    Connected,
    Disconnected,
    State(String),
    ResponseChunk { content: String, done: bool },
    WakeWordDetected,
    ConfirmationRequest { id: String, tool_names: Vec<String> },
    /// The pending confirmations, each as its JSON text.
    ConfirmationList(Vec<String>),
    Ack,
    Error(String),
    /// The sessions, each as its JSON text.
    SessionList(Vec<String>),
    /// The session as JSON text, and its messages, each as JSON text.
    SessionSwitched { session: String, messages: Vec<String> },
    SessionError(String),
    /// A configuration value was changed.
    ConfigUpdated { key: String, value: String },
    ConfigError { key: String, message: String },
    Settings { confirmation_mode: String, wake_chime_path: String },
    /// The providers, each as its JSON text.
    ProviderList(Vec<String>),
    ProviderError(String),
}

/// The mathematical value of an [`IpcEvent`].
pub enum IpcEventView {
    Connected,
    Disconnected,
    State(Seq<char>),
    ResponseChunk { content: Seq<char>, done: bool },
    WakeWordDetected,
    ConfirmationRequest { id: Seq<char>, tool_names: Seq<Seq<char>> },
    ConfirmationList(Seq<Seq<char>>),
    Ack,
    Error(Seq<char>),
    SessionList(Seq<Seq<char>>),
    SessionSwitched { session: Seq<char>, messages: Seq<Seq<char>> },
    SessionError(Seq<char>),
    ConfigUpdated { key: Seq<char>, value: Seq<char> },
    ConfigError { key: Seq<char>, message: Seq<char> },
    Settings { confirmation_mode: Seq<char>, wake_chime_path: Seq<char> },
    ProviderList(Seq<Seq<char>>),
    ProviderError(Seq<char>),
}

impl View for IpcEvent {
    type V = IpcEventView;

    open spec fn view(&self) -> IpcEventView {
        match self {
            IpcEvent::Connected => IpcEventView::Connected,
            IpcEvent::Disconnected => IpcEventView::Disconnected,
            IpcEvent::State(s) => IpcEventView::State(s@),
            IpcEvent::ResponseChunk { content, done } => IpcEventView::ResponseChunk {
                content: content@,
                done: *done,
            },
            IpcEvent::WakeWordDetected => IpcEventView::WakeWordDetected,
            IpcEvent::ConfirmationRequest { id, tool_names } => IpcEventView::ConfirmationRequest {
                id: id@,
                tool_names: tool_names.deep_view(),
            },
            IpcEvent::ConfirmationList(l) => IpcEventView::ConfirmationList(l.deep_view()),
            IpcEvent::Ack => IpcEventView::Ack,
            IpcEvent::Error(m) => IpcEventView::Error(m@),
            IpcEvent::SessionList(l) => IpcEventView::SessionList(l.deep_view()),
            IpcEvent::SessionSwitched { session, messages } => IpcEventView::SessionSwitched {
                session: session@,
                messages: messages.deep_view(),
            },
            IpcEvent::SessionError(m) => IpcEventView::SessionError(m@),
            IpcEvent::ConfigUpdated { key, value } => IpcEventView::ConfigUpdated {
                key: key@,
                value: value@,
            },
            IpcEvent::ConfigError { key, message } => IpcEventView::ConfigError {
                key: key@,
                message: message@,
            },
            IpcEvent::Settings { confirmation_mode, wake_chime_path } => IpcEventView::Settings {
                confirmation_mode: confirmation_mode@,
                wake_chime_path: wake_chime_path@,
            },
            IpcEvent::ProviderList(l) => IpcEventView::ProviderList(l.deep_view()),
            IpcEvent::ProviderError(m) => IpcEventView::ProviderError(m@),
        }
    }
}

// ---------------------------------------------------------------------------
// Commands going out
// ---------------------------------------------------------------------------

/// The `"type"` member together with the other members of a message.
pub open spec fn typed(kind: Seq<char>, rest: Seq<(Seq<char>, JsonScalarView)>) -> Seq<
    (Seq<char>, JsonScalarView),
> {
    seq![("type"@, JsonScalarView::Str(kind))] + rest
}

/// The members of the JSON object that carries `cmd` to the daemon, in the
/// order the message lists them; `None` for `Shutdown`, which never leaves
/// the client.
pub open spec fn wire_members(cmd: IpcCommandView) -> Option<Seq<(Seq<char>, JsonScalarView)>> {
    match cmd {
        IpcCommandView::SendMessage(content) => Some(
            typed("message"@, seq![("content"@, JsonScalarView::Str(content))]),
        ),
        IpcCommandView::StartListening => Some(typed("start_listening"@, seq![])),
        IpcCommandView::StopListening => Some(typed("stop_listening"@, seq![])),
        IpcCommandView::StopStream => Some(typed("stop_stream"@, seq![])),
        IpcCommandView::ConfirmationResponse { id, approved } => Some(
            typed(
                "confirmation_response"@,
                seq![("id"@, JsonScalarView::Str(id)), ("approved"@, JsonScalarView::Bool(approved))],
            ),
        ),
        IpcCommandView::ListConfirmations => Some(typed("list_confirmations"@, seq![])),
        IpcCommandView::ApproveConfirmation { id } => Some(
            typed("approve_confirmation"@, seq![("id"@, JsonScalarView::Str(id))]),
        ),
        IpcCommandView::DenyConfirmation { id } => Some(
            typed("deny_confirmation"@, seq![("id"@, JsonScalarView::Str(id))]),
        ),
        IpcCommandView::ApproveAllConfirmations => Some(typed("approve_all_confirmations"@, seq![])),
        IpcCommandView::ListSessions => Some(typed("list_sessions"@, seq![])),
        IpcCommandView::CreateSession { title } => Some(
            typed(
                "create_session"@,
                seq![
                    ("title"@, match title {
                        Some(t) => JsonScalarView::Str(t),
                        None => JsonScalarView::Null,
                    }),
                ],
            ),
        ),
        IpcCommandView::SwitchSession { id } => Some(
            typed("switch_session"@, seq![("id"@, JsonScalarView::Str(id))]),
        ),
        IpcCommandView::RenameSession { id, title } => Some(
            typed(
                "rename_session"@,
                seq![("id"@, JsonScalarView::Str(id)), ("title"@, JsonScalarView::Str(title))],
            ),
        ),
        IpcCommandView::DeleteSession { id } => Some(
            typed("delete_session"@, seq![("id"@, JsonScalarView::Str(id))]),
        ),
        IpcCommandView::Shutdown => None,
    }
}

/// The line that carries `cmd` to the daemon, newline included.
pub open spec fn command_line(cmd: IpcCommandView) -> Option<Seq<char>> {
    match wire_members(cmd) {
        Some(members) => Some(json_object(members) + "\n"@),
        None => None,
    }
}

fn member(key: &str, value: JsonScalar) -> (r: (String, JsonScalar))
    ensures
        r.0@ == key@,
        r.1 == value,
{
    (key.to_string(), value)
}

fn text_scalar(s: &str) -> (r: JsonScalar)
    ensures
        r@ == JsonScalarView::Str(s@),
{
    JsonScalar::Str(s.to_string())
}

fn typed_members(kind: &str, rest: Vec<(String, JsonScalar)>) -> (r: Vec<(String, JsonScalar)>)
    ensures
        members_view(r@) == typed(kind@, members_view(rest@)),
{
    let mut r: Vec<(String, JsonScalar)> = Vec::new();
    r.push(member("type", text_scalar(kind)));
    let mut rest = rest;
    let ghost rest0 = rest@;
    r.append(&mut rest);
    assert(members_view(r@) =~= typed(kind@, members_view(rest0)));
    r
}

/// The members of the JSON object that carries `cmd` to the daemon;
/// `None` for `Shutdown`.
pub fn command_members(cmd: IpcCommand) -> (r: Option<Vec<(String, JsonScalar)>>)
    ensures
        match r {
            Some(v) => wire_members(cmd@) == Some(members_view(v@)),
            None => wire_members(cmd@) is None,
        },
{
    let ghost c = cmd@;
    let r = match cmd {
        IpcCommand::SendMessage(content) => {
            let mut rest = Vec::new();
            rest.push(("content".to_string(), JsonScalar::Str(content)));
            Some(typed_members("message", rest))
        },
        IpcCommand::StartListening => Some(typed_members("start_listening", Vec::new())),
        IpcCommand::StopListening => Some(typed_members("stop_listening", Vec::new())),
        IpcCommand::StopStream => Some(typed_members("stop_stream", Vec::new())),
        IpcCommand::ConfirmationResponse { id, approved } => {
            let mut rest = Vec::new();
            rest.push(("id".to_string(), JsonScalar::Str(id)));
            rest.push(("approved".to_string(), JsonScalar::Bool(approved)));
            Some(typed_members("confirmation_response", rest))
        },
        IpcCommand::ListConfirmations => Some(typed_members("list_confirmations", Vec::new())),
        IpcCommand::ApproveConfirmation { id } => {
            let mut rest = Vec::new();
            rest.push(("id".to_string(), JsonScalar::Str(id)));
            Some(typed_members("approve_confirmation", rest))
        },
        IpcCommand::DenyConfirmation { id } => {
            let mut rest = Vec::new();
            rest.push(("id".to_string(), JsonScalar::Str(id)));
            Some(typed_members("deny_confirmation", rest))
        },
        IpcCommand::ApproveAllConfirmations => Some(
            typed_members("approve_all_confirmations", Vec::new()),
        ),
        IpcCommand::ListSessions => Some(typed_members("list_sessions", Vec::new())),
        IpcCommand::CreateSession { title } => {
            let value = match title {
                Some(t) => JsonScalar::Str(t),
                None => JsonScalar::Null,
            };
            let mut rest = Vec::new();
            rest.push(("title".to_string(), value));
            Some(typed_members("create_session", rest))
        },
        IpcCommand::SwitchSession { id } => {
            let mut rest = Vec::new();
            rest.push(("id".to_string(), JsonScalar::Str(id)));
            Some(typed_members("switch_session", rest))
        },
        IpcCommand::RenameSession { id, title } => {
            let mut rest = Vec::new();
            rest.push(("id".to_string(), JsonScalar::Str(id)));
            rest.push(("title".to_string(), JsonScalar::Str(title)));
            Some(typed_members("rename_session", rest))
        },
        IpcCommand::DeleteSession { id } => {
            let mut rest = Vec::new();
            rest.push(("id".to_string(), JsonScalar::Str(id)));
            Some(typed_members("delete_session", rest))
        },
        IpcCommand::Shutdown => None,
    };
    proof {
        if r is Some {
            assert(members_view(r->0@) =~= wire_members(c).unwrap());
        }
    }
    r
}

/// The line that carries `cmd` to the daemon, newline included; `None`
/// for `Shutdown`, which ends the connection instead.
pub fn encode_command(cmd: IpcCommand) -> (r: Option<String>)
    ensures
        r.deep_view() == command_line(cmd@),
{
    match command_members(cmd) {
        Some(members) => {
            let mut line = object_text(members);
            line.append("\n");
            Some(line)
        },
        None => None,
    }
}

// ---------------------------------------------------------------------------
// Messages coming in
// ---------------------------------------------------------------------------

/// What the event decoder reads of one daemon line: whether it parses as
/// JSON, and each member it may consult (as the JSON accessors return it).
#[derive(Debug, Clone, PartialEq)]
pub struct DaemonFields {
    pub parses: bool,
    /// `type`, when it is a string.
    pub kind: Option<String>,
    /// The `Debug` rendering of `kind`'s string, when `kind` is present.
    pub kind_debug: Option<String>,
    pub state: Option<String>,
    pub content: Option<String>,
    pub done: Option<bool>,
    pub id: Option<String>,
    /// The items of `tools`, each as a string when it is one.
    pub tools: Option<Vec<Option<String>>>,
    /// The items of `confirmations`, each as JSON text.
    pub confirmations: Option<Vec<String>>,
    pub message: Option<String>,
    /// The items of `sessions`, each as JSON text.
    pub sessions: Option<Vec<String>>,
    /// `session`, as JSON text.
    pub session: Option<String>,
    /// The items of `messages`, each as JSON text.
    pub messages: Option<Vec<String>>,
    pub key: Option<String>,
    pub value: Option<String>,
    pub confirmation_mode: Option<String>,
    pub wake_chime_path: Option<String>,
    /// The items of `providers`, each as JSON text.
    pub providers: Option<Vec<String>>,
}

/// The mathematical value of a [`DaemonFields`].
pub struct DaemonFieldsView {
    pub parses: bool,
    pub kind: Option<Seq<char>>,
    pub kind_debug: Option<Seq<char>>,
    pub state: Option<Seq<char>>,
    pub content: Option<Seq<char>>,
    pub done: Option<bool>,
    pub id: Option<Seq<char>>,
    pub tools: Option<Seq<Option<Seq<char>>>>,
    pub confirmations: Option<Seq<Seq<char>>>,
    pub message: Option<Seq<char>>,
    pub sessions: Option<Seq<Seq<char>>>,
    pub session: Option<Seq<char>>,
    pub messages: Option<Seq<Seq<char>>>,
    pub key: Option<Seq<char>>,
    pub value: Option<Seq<char>>,
    pub confirmation_mode: Option<Seq<char>>,
    pub wake_chime_path: Option<Seq<char>>,
    pub providers: Option<Seq<Seq<char>>>,
}

impl View for DaemonFields {
    type V = DaemonFieldsView;

    open spec fn view(&self) -> DaemonFieldsView {
        DaemonFieldsView {
            parses: self.parses,
            kind: self.kind.deep_view(),
            kind_debug: self.kind_debug.deep_view(),
            state: self.state.deep_view(),
            content: self.content.deep_view(),
            done: self.done,
            id: self.id.deep_view(),
            tools: self.tools.deep_view(),
            confirmations: self.confirmations.deep_view(),
            message: self.message.deep_view(),
            sessions: self.sessions.deep_view(),
            session: self.session.deep_view(),
            messages: self.messages.deep_view(),
            key: self.key.deep_view(),
            value: self.value.deep_view(),
            confirmation_mode: self.confirmation_mode.deep_view(),
            wake_chime_path: self.wake_chime_path.deep_view(),
            providers: self.providers.deep_view(),
        }
    }
}

/// The string member `key` of the JSON text `text`.
pub open spec fn str_member(text: Seq<char>, key: Seq<char>) -> Option<Seq<char>> {
    match json_member(text, key) {
        Some(m) => json_str(m),
        None => None,
    }
}

/// The boolean member `key` of the JSON text `text`.
pub open spec fn bool_member(text: Seq<char>, key: Seq<char>) -> Option<bool> {
    match json_member(text, key) {
        Some(m) => json_bool(m),
        None => None,
    }
}

/// The items (as JSON texts) of the array member `key` of `text`.
pub open spec fn array_member(text: Seq<char>, key: Seq<char>) -> Option<Seq<Seq<char>>> {
    match json_member(text, key) {
        Some(m) => json_array(m),
        None => None,
    }
}

/// The items of the array member `key` of `text`, each as a string when it
/// is one.
pub open spec fn str_items_member(text: Seq<char>, key: Seq<char>) -> Option<Seq<Option<Seq<char>>>> {
    match array_member(text, key) {
        Some(items) => Some(items.map_values(|item: Seq<char>| json_str(item))),
        None => None,
    }
}

/// What the JSON accessors report of the daemon line `line`.
pub open spec fn daemon_fields(line: Seq<char>) -> DaemonFieldsView {
    let kind = str_member(line, "type"@);
    DaemonFieldsView {
        parses: json_parses(line),
        kind,
        kind_debug: match kind {
            Some(k) => Some(debug_text(k)),
            None => None,
        },
        state: str_member(line, "state"@),
        content: str_member(line, "content"@),
        done: bool_member(line, "done"@),
        id: str_member(line, "id"@),
        tools: str_items_member(line, "tools"@),
        confirmations: array_member(line, "confirmations"@),
        message: str_member(line, "message"@),
        sessions: array_member(line, "sessions"@),
        session: json_member(line, "session"@),
        messages: array_member(line, "messages"@),
        key: str_member(line, "key"@),
        value: str_member(line, "value"@),
        confirmation_mode: str_member(line, "confirmation_mode"@),
        wake_chime_path: str_member(line, "wake_chime_path"@),
        providers: array_member(line, "providers"@),
    }
}

/// The value of `o`, or `default` when it is absent.
pub open spec fn or_default<T>(o: Option<T>, default: T) -> T {
    match o {
        Some(v) => v,
        None => default,
    }
}

/// The strings among `items`, in order.
pub open spec fn present_strings(items: Seq<Option<Seq<char>>>) -> Seq<Seq<char>>
    decreases items.len(),
{
    if items.len() == 0 {
        seq![]
    } else {
        let rest = present_strings(items.drop_last());
        match items.last() {
            Some(s) => rest.push(s),
            None => rest,
        }
    }
}

/// How an unrecognised `type` is shown in the error: `None`, or
/// `Some(...)` around its `Debug` rendering.
pub open spec fn shown_kind(f: DaemonFieldsView) -> Seq<char> {
    match f.kind {
        None => "None"@,
        Some(_) => "Some("@ + or_default(f.kind_debug, ""@) + ")"@,
    }
}

/// The event that the daemon line `line`, read as `f`, stands for. A member
/// that a message lacks (or that has the wrong JSON type) takes a default:
/// the documented ones of the client (`idle`, an empty chunk that is final,
/// `Unknown error`, `null` for a session, empty lists), and for the
/// configuration and provider reports empty strings and lists, with
/// `Unknown config error` and `Unknown provider error` as the missing
/// error messages.
pub open spec fn event_of(line: Seq<char>, f: DaemonFieldsView) -> IpcEventView {
    if !f.parses {
        IpcEventView::Error("invalid JSON: "@ + line)
    } else if f.kind == Some("state"@) {
        IpcEventView::State(or_default(f.state, "idle"@))
    } else if f.kind == Some("response"@) {
        IpcEventView::ResponseChunk {
            content: or_default(f.content, ""@),
            done: or_default(f.done, true),
        }
    } else if f.kind == Some("wake_word_detected"@) {
        IpcEventView::WakeWordDetected
    } else if f.kind == Some("confirmation_request"@) {
        IpcEventView::ConfirmationRequest {
            id: or_default(f.id, ""@),
            tool_names: match f.tools {
                Some(items) => present_strings(items),
                None => seq![],
            },
        }
    } else if f.kind == Some("confirmation_list"@) {
        IpcEventView::ConfirmationList(or_default(f.confirmations, seq![]))
    } else if f.kind == Some("ack"@) {
        IpcEventView::Ack
    } else if f.kind == Some("error"@) {
        IpcEventView::Error(or_default(f.message, "Unknown error"@))
    } else if f.kind == Some("session_list"@) {
        IpcEventView::SessionList(or_default(f.sessions, seq![]))
    } else if f.kind == Some("session_switched"@) {
        IpcEventView::SessionSwitched {
            session: or_default(f.session, "null"@),
            messages: or_default(f.messages, seq![]),
        }
    } else if f.kind == Some("session_error"@) {
        IpcEventView::SessionError(or_default(f.message, "Unknown session error"@))
    } else if f.kind == Some("config_updated"@) {
        IpcEventView::ConfigUpdated { key: or_default(f.key, ""@), value: or_default(f.value, ""@) }
    } else if f.kind == Some("config_error"@) {
        IpcEventView::ConfigError {
            key: or_default(f.key, ""@),
            message: or_default(f.message, "Unknown config error"@),
        }
    } else if f.kind == Some("settings"@) {
        IpcEventView::Settings {
            confirmation_mode: or_default(f.confirmation_mode, ""@),
            wake_chime_path: or_default(f.wake_chime_path, ""@),
        }
    } else if f.kind == Some("provider_list"@) {
        IpcEventView::ProviderList(or_default(f.providers, seq![]))
    } else if f.kind == Some("provider_error"@) {
        IpcEventView::ProviderError(or_default(f.message, "Unknown provider error"@))
    } else if f.kind == Some("ping"@) || f.kind == Some("pong"@) {
        IpcEventView::State("idle"@)
    } else {
        IpcEventView::Error("unknown type: "@ + shown_kind(f))
    }
}

fn text_or(o: Option<String>, default: &str) -> (r: String)
    ensures
        r@ == or_default(o.deep_view(), default@),
{
    match o {
        Some(s) => s,
        None => default.to_string(),
    }
}

fn items_or_empty(o: Option<Vec<String>>) -> (r: Vec<String>)
    ensures
        r.deep_view() == or_default(o.deep_view(), seq![]),
{
    match o {
        Some(v) => v,
        None => {
            let v: Vec<String> = Vec::new();
            assert(v.deep_view() =~= seq![]);
            v
        },
    }
}

fn kind_is(kind: &Option<String>, name: &str) -> (r: bool)
    ensures
        r == (kind.deep_view() == Some(name@)),
{
    match kind {
        Some(k) => same_text(k.as_str(), name),
        None => false,
    }
}

/// The strings among `items`, in order.
pub fn keep_strings(items: &Vec<Option<String>>) -> (r: Vec<String>)
    ensures
        r.deep_view() == present_strings(items.deep_view()),
{
    let mut r: Vec<String> = Vec::new();
    let mut i: usize = 0;
    while i < items.len()
        invariant
            i <= items.len(),
            r.deep_view() == present_strings(items.deep_view().take(i as int)),
        decreases items.len() - i,
    {
        let ghost before = items.deep_view().take(i as int);
        assert(items.deep_view().take(i + 1).drop_last() =~= before);
        match &items[i] {
            Some(s) => {
                r.push(s.clone());
            },
            None => {},
        }
        proof {
            assert(r.deep_view() =~= present_strings(items.deep_view().take(i + 1)));
        }
        i = i + 1;
    }
    assert(items.deep_view().take(items.len() as int) =~= items.deep_view());
    r
}

/// Decides the event that the daemon line `line` stands for, from what the
/// JSON accessors report of it.
pub fn event_from_fields(line: &str, f: DaemonFields) -> (r: IpcEvent)
    ensures
        r@ == event_of(line@, f@),
{
    let ghost fv = f@;
    if !f.parses {
        let mut m = "invalid JSON: ".to_string();
        m.append(line);
        return IpcEvent::Error(m);
    }
    let kind = f.kind;
    if kind_is(&kind, "state") {
        IpcEvent::State(text_or(f.state, "idle"))
    } else if kind_is(&kind, "response") {
        let done = match f.done {
            Some(d) => d,
            None => true,
        };
        IpcEvent::ResponseChunk { content: text_or(f.content, ""), done }
    } else if kind_is(&kind, "wake_word_detected") {
        IpcEvent::WakeWordDetected
    } else if kind_is(&kind, "confirmation_request") {
        let tool_names = match &f.tools {
            Some(items) => keep_strings(items),
            None => {
                let v: Vec<String> = Vec::new();
                assert(v.deep_view() =~= seq![]);
                v
            },
        };
        IpcEvent::ConfirmationRequest { id: text_or(f.id, ""), tool_names }
    } else if kind_is(&kind, "confirmation_list") {
        IpcEvent::ConfirmationList(items_or_empty(f.confirmations))
    } else if kind_is(&kind, "ack") {
        IpcEvent::Ack
    } else if kind_is(&kind, "error") {
        IpcEvent::Error(text_or(f.message, "Unknown error"))
    } else if kind_is(&kind, "session_list") {
        IpcEvent::SessionList(items_or_empty(f.sessions))
    } else if kind_is(&kind, "session_switched") {
        IpcEvent::SessionSwitched {
            session: text_or(f.session, "null"),
            messages: items_or_empty(f.messages),
        }
    } else if kind_is(&kind, "session_error") {
        IpcEvent::SessionError(text_or(f.message, "Unknown session error"))
    } else if kind_is(&kind, "config_updated") {
        IpcEvent::ConfigUpdated { key: text_or(f.key, ""), value: text_or(f.value, "") }
    } else if kind_is(&kind, "config_error") {
        IpcEvent::ConfigError {
            key: text_or(f.key, ""),
            message: text_or(f.message, "Unknown config error"),
        }
    } else if kind_is(&kind, "settings") {
        IpcEvent::Settings {
            confirmation_mode: text_or(f.confirmation_mode, ""),
            wake_chime_path: text_or(f.wake_chime_path, ""),
        }
    } else if kind_is(&kind, "provider_list") {
        IpcEvent::ProviderList(items_or_empty(f.providers))
    } else if kind_is(&kind, "provider_error") {
        IpcEvent::ProviderError(text_or(f.message, "Unknown provider error"))
    } else if kind_is(&kind, "ping") || kind_is(&kind, "pong") {
        IpcEvent::State("idle".to_string())
    } else {
        let mut m = "unknown type: ".to_string();
        match kind {
            None => {
                m.append("None");
            },
            Some(_) => {
                m.append("Some(");
                m.append(text_or(f.kind_debug, "").as_str());
                m.append(")");
            },
        }
        assert(m@ =~= "unknown type: "@ + shown_kind(fv));
        IpcEvent::Error(m)
    }
}

fn str_member_of(text: &str, key: &str) -> (r: Option<String>)
    ensures
        r.deep_view() == str_member(text@, key@),
{
    match member_text(text, key) {
        Some(m) => string_value(m.as_str()),
        None => None,
    }
}

fn bool_member_of(text: &str, key: &str) -> (r: Option<bool>)
    ensures
        r == bool_member(text@, key@),
{
    match member_text(text, key) {
        Some(m) => bool_value(m.as_str()),
        None => None,
    }
}

fn array_member_of(text: &str, key: &str) -> (r: Option<Vec<String>>)
    ensures
        r.deep_view() == array_member(text@, key@),
{
    match member_text(text, key) {
        Some(m) => array_items(m.as_str()),
        None => None,
    }
}

fn str_items_member_of(text: &str, key: &str) -> (r: Option<Vec<Option<String>>>)
    ensures
        r.deep_view() == str_items_member(text@, key@),
{
    match array_member_of(text, key) {
        Some(items) => {
            let mut r: Vec<Option<String>> = Vec::new();
            let mut i: usize = 0;
            while i < items.len()
                invariant
                    i <= items.len(),
                    r.deep_view() =~= items.deep_view().take(i as int).map_values(
                        |item: Seq<char>| json_str(item),
                    ),
                decreases items.len() - i,
            {
                let ghost before = r.deep_view();
                r.push(string_value(items[i].as_str()));
                proof {
                    assert(items.deep_view().take(i + 1) =~= items.deep_view().take(i as int).push(
                        items[i as int]@,
                    ));
                    assert(r.deep_view() =~= before.push(json_str(items[i as int]@)));
                }
                i = i + 1;
            }
            assert(items.deep_view().take(items.len() as int) =~= items.deep_view());
            Some(r)
        },
        None => None,
    }
}

/// Reads every member of the daemon line `line` that the event decoder
/// may consult.
pub fn read_daemon_fields(line: &str) -> (r: DaemonFields)
    ensures
        r@ == daemon_fields(line@),
{
    let kind = str_member_of(line, "type");
    let kind_debug = match &kind {
        Some(k) => Some(debug_quoted(k.as_str())),
        None => None,
    };
    DaemonFields {
        parses: parse_succeeds(line),
        kind,
        kind_debug,
        state: str_member_of(line, "state"),
        content: str_member_of(line, "content"),
        done: bool_member_of(line, "done"),
        id: str_member_of(line, "id"),
        tools: str_items_member_of(line, "tools"),
        confirmations: array_member_of(line, "confirmations"),
        message: str_member_of(line, "message"),
        sessions: array_member_of(line, "sessions"),
        session: member_text(line, "session"),
        messages: array_member_of(line, "messages"),
        key: str_member_of(line, "key"),
        value: str_member_of(line, "value"),
        confirmation_mode: str_member_of(line, "confirmation_mode"),
        wake_chime_path: str_member_of(line, "wake_chime_path"),
        providers: array_member_of(line, "providers"),
    }
}

/// The event that one line from the daemon stands for.
pub fn parse_daemon_message(line: &str) -> (r: IpcEvent)
    ensures
        r@ == event_of(line@, daemon_fields(line@)),
{
    let fields = read_daemon_fields(line);
    event_from_fields(line, fields)
}

// ---------------------------------------------------------------------------
// Laws of the protocol
// ---------------------------------------------------------------------------

/// Every command but `Shutdown` goes out as exactly one line, ending in a
/// newline, whose object starts with the message's `type`; `Shutdown` is
/// never sent.
pub proof fn law_commands_become_lines(cmd: IpcCommandView)
    ensures
        command_line(cmd) is Some <==> !(cmd is Shutdown),
        command_line(cmd) matches Some(line) ==> line.len() > 0 && line.last() == '\n',
        wire_members(cmd) matches Some(members) ==> members.len() > 0 && members[0].0 == "type"@,
{
    reveal_strlit("\n");
    reveal_strlit("type");
    if let Some(members) = wire_members(cmd) {
        let line = json_object(members) + "\n"@;
        assert(line.last() == '\n');
    }
}

/// Each field of a command travels under its own name with its own value:
/// the chat text as `content`, ids as `id`, the decision of a confirmation
/// as the boolean `approved` (false as well as true), a session title as
/// `title` (`null` when there is none); `Shutdown` never goes out.
pub proof fn law_command_fields_on_the_wire(cmd: IpcCommandView)
    ensures
        (cmd is Shutdown <==> wire_members(cmd) is None),
        (cmd matches IpcCommandView::SendMessage(c) ==> wire_members(cmd)->0.contains(
            ("content"@, JsonScalarView::Str(c)),
        )),
        (cmd matches IpcCommandView::ConfirmationResponse { id, approved } ==> {
            &&& wire_members(cmd)->0.contains(("id"@, JsonScalarView::Str(id)))
            &&& wire_members(cmd)->0.contains(("approved"@, JsonScalarView::Bool(approved)))
            &&& !wire_members(cmd)->0.contains(("approved"@, JsonScalarView::Bool(!approved)))
        }),
        (cmd matches IpcCommandView::ApproveConfirmation { id } ==> wire_members(cmd)->0.contains(
            ("id"@, JsonScalarView::Str(id)),
        )),
        (cmd matches IpcCommandView::DenyConfirmation { id } ==> wire_members(cmd)->0.contains(
            ("id"@, JsonScalarView::Str(id)),
        )),
        (cmd matches IpcCommandView::SwitchSession { id } ==> wire_members(cmd)->0.contains(
            ("id"@, JsonScalarView::Str(id)),
        )),
        (cmd matches IpcCommandView::DeleteSession { id } ==> wire_members(cmd)->0.contains(
            ("id"@, JsonScalarView::Str(id)),
        )),
        (cmd matches IpcCommandView::RenameSession { id, title } ==> {
            &&& wire_members(cmd)->0.contains(("id"@, JsonScalarView::Str(id)))
            &&& wire_members(cmd)->0.contains(("title"@, JsonScalarView::Str(title)))
        }),
        (cmd matches IpcCommandView::CreateSession { title: Some(t) } ==> wire_members(
            cmd,
        )->0.contains(("title"@, JsonScalarView::Str(t)))),
        (cmd matches IpcCommandView::CreateSession { title: None } ==> wire_members(cmd)->0.contains(
            ("title"@, JsonScalarView::Null),
        )),
{
    reveal_strlit("approved");
    reveal_strlit("type");
    reveal_strlit("id");
    assert("approved"@.len() == 8);
    assert("type"@.len() == 4);
    assert("id"@.len() == 2);
    match wire_members(cmd) {
        Some(m) => {
            assert(m[0].0 == "type"@);
            if m.len() > 1 {
                assert(m[1] == m[1]);
            }
            if m.len() > 2 {
                assert(m[2] == m[2]);
            }
        },
        None => {},
    }
}

/// A denied confirmation and an approved one never go out as the same
/// message.
pub proof fn law_decision_changes_the_line(id: Seq<char>)
    ensures
        wire_members(IpcCommandView::ConfirmationResponse { id, approved: true })
            != wire_members(IpcCommandView::ConfirmationResponse { id, approved: false }),
{
    let t = wire_members(IpcCommandView::ConfirmationResponse { id, approved: true })->0;
    let f = wire_members(IpcCommandView::ConfirmationResponse { id, approved: false })->0;
    assert(t[2] != f[2]);
}

/// The decoder hands over what a message says: every member that a message
/// of its type carries, when it has the expected JSON type, appears in the
/// event unchanged; a response chunk keeps its text whether or not `done`
/// is given, and is final unless `done` says otherwise.
pub proof fn law_decoder_keeps_members(line: Seq<char>, f: DaemonFieldsView)
    requires
        f.parses,
    ensures
        (f.kind == Some("state"@) && f.state is Some ==> event_of(line, f) == IpcEventView::State(
            f.state->0,
        )),
        (f.kind == Some("response"@) ==> (event_of(line, f) matches IpcEventView::ResponseChunk {
            content,
            done,
        } && (f.content is Some ==> content == f.content->0) && (f.done is Some ==> done
            == f.done->0) && (f.done is None ==> done))),
        (f.kind == Some("confirmation_request"@) ==> (event_of(line, f)
            matches IpcEventView::ConfirmationRequest { id, tool_names } && (f.id is Some ==> id
            == f.id->0) && ((f.tools is Some && forall|i: int|
            0 <= i < f.tools->0.len() ==> #[trigger] f.tools->0[i] is Some) ==> (tool_names.len()
            == f.tools->0.len() && forall|i: int|
            0 <= i < tool_names.len() ==> tool_names[i] == f.tools->0[i]->0)))),
        (f.kind == Some("confirmation_list"@) && f.confirmations is Some ==> event_of(line, f)
            == IpcEventView::ConfirmationList(f.confirmations->0)),
        (f.kind == Some("error"@) && f.message is Some ==> event_of(line, f) == IpcEventView::Error(
            f.message->0,
        )),
        (f.kind == Some("session_list"@) && f.sessions is Some ==> event_of(line, f)
            == IpcEventView::SessionList(f.sessions->0)),
        (f.kind == Some("session_switched"@) && f.session is Some && f.messages is Some ==> event_of(
            line,
            f,
        ) == IpcEventView::SessionSwitched { session: f.session->0, messages: f.messages->0 }),
        (f.kind == Some("session_error"@) && f.message is Some ==> event_of(line, f)
            == IpcEventView::SessionError(f.message->0)),
        (f.kind == Some("config_updated"@) && f.key is Some && f.value is Some ==> event_of(line, f)
            == IpcEventView::ConfigUpdated { key: f.key->0, value: f.value->0 }),
        (f.kind == Some("config_error"@) && f.key is Some && f.message is Some ==> event_of(line, f)
            == IpcEventView::ConfigError { key: f.key->0, message: f.message->0 }),
        (f.kind == Some("settings"@) && f.confirmation_mode is Some && f.wake_chime_path is Some
            ==> event_of(line, f) == IpcEventView::Settings {
            confirmation_mode: f.confirmation_mode->0,
            wake_chime_path: f.wake_chime_path->0,
        }),
        (f.kind == Some("provider_list"@) && f.providers is Some ==> event_of(line, f)
            == IpcEventView::ProviderList(f.providers->0)),
        (f.kind == Some("provider_error"@) && f.message is Some ==> event_of(line, f)
            == IpcEventView::ProviderError(f.message->0)),
{
    lemma_kind_names_distinct();
    if f.kind == Some("confirmation_request"@) {
        if f.tools is Some {
            let items = f.tools->0;
            if forall|i: int| 0 <= i < items.len() ==> #[trigger] items[i] is Some {
                lemma_all_present(items);
            }
        }
    }
}

/// Each message type is decoded as its own event, and a member that a
/// message lacks takes its documented default: `idle` for a state, an
/// empty final chunk, an empty id and no tools for a confirmation request,
/// `Unknown error` (or the session, config and provider variants of it) for
/// a missing error message, `null` for a missing session and empty lists.
/// A message with no string `type` is reported as an unknown type.
pub proof fn law_decoder_kinds_and_defaults(line: Seq<char>, f: DaemonFieldsView)
    requires
        f.parses,
    ensures
        (f.kind == Some("state"@) && f.state is None ==> event_of(line, f) == IpcEventView::State(
            "idle"@,
        )),
        (f.kind == Some("response"@) && f.content is None && f.done is None ==> event_of(line, f)
            == IpcEventView::ResponseChunk { content: ""@, done: true }),
        (f.kind == Some("wake_word_detected"@) ==> event_of(line, f)
            == IpcEventView::WakeWordDetected),
        (f.kind == Some("confirmation_request"@) && f.id is None && f.tools is None ==> event_of(
            line,
            f,
        ) == IpcEventView::ConfirmationRequest { id: ""@, tool_names: seq![] }),
        (f.kind == Some("confirmation_list"@) && f.confirmations is None ==> event_of(line, f)
            == IpcEventView::ConfirmationList(seq![])),
        (f.kind == Some("ack"@) ==> event_of(line, f) == IpcEventView::Ack),
        (f.kind == Some("error"@) && f.message is None ==> event_of(line, f) == IpcEventView::Error(
            "Unknown error"@,
        )),
        (f.kind == Some("session_list"@) && f.sessions is None ==> event_of(line, f)
            == IpcEventView::SessionList(seq![])),
        (f.kind == Some("session_switched"@) && f.session is None && f.messages is None ==> event_of(
            line,
            f,
        ) == IpcEventView::SessionSwitched { session: "null"@, messages: seq![] }),
        (f.kind == Some("session_error"@) && f.message is None ==> event_of(line, f)
            == IpcEventView::SessionError("Unknown session error"@)),
        (f.kind == Some("config_updated"@) && f.key is None && f.value is None ==> event_of(line, f)
            == IpcEventView::ConfigUpdated { key: ""@, value: ""@ }),
        (f.kind == Some("config_error"@) && f.key is None && f.message is None ==> event_of(line, f)
            == IpcEventView::ConfigError { key: ""@, message: "Unknown config error"@ }),
        (f.kind == Some("settings"@) && f.confirmation_mode is None && f.wake_chime_path is None
            ==> event_of(line, f) == IpcEventView::Settings {
            confirmation_mode: ""@,
            wake_chime_path: ""@,
        }),
        (f.kind == Some("provider_list"@) && f.providers is None ==> event_of(line, f)
            == IpcEventView::ProviderList(seq![])),
        (f.kind == Some("provider_error"@) && f.message is None ==> event_of(line, f)
            == IpcEventView::ProviderError("Unknown provider error"@)),
        (f.kind is None ==> event_of(line, f) == IpcEventView::Error("unknown type: None"@)),
{
    lemma_kind_names_distinct();
    reveal_strlit("unknown type: ");
    reveal_strlit("None");
    reveal_strlit("unknown type: None");
    assert("unknown type: "@ + "None"@ =~= "unknown type: None"@);
}

proof fn lemma_kind_names_distinct()
    ensures
        "state"@ != "response"@,
        "state"@ != "wake_word_detected"@,
        "state"@ != "confirmation_request"@,
        "state"@ != "confirmation_list"@,
        "state"@ != "ack"@,
        "state"@ != "error"@,
        "state"@ != "session_list"@,
        "state"@ != "session_switched"@,
        "state"@ != "session_error"@,
        "state"@ != "config_updated"@,
        "state"@ != "config_error"@,
        "state"@ != "settings"@,
        "state"@ != "provider_list"@,
        "state"@ != "provider_error"@,
        "state"@ != "ping"@,
        "state"@ != "pong"@,
        "response"@ != "wake_word_detected"@,
        "response"@ != "confirmation_request"@,
        "response"@ != "confirmation_list"@,
        "response"@ != "ack"@,
        "response"@ != "error"@,
        "response"@ != "session_list"@,
        "response"@ != "session_switched"@,
        "response"@ != "session_error"@,
        "response"@ != "config_updated"@,
        "response"@ != "config_error"@,
        "response"@ != "settings"@,
        "response"@ != "provider_list"@,
        "response"@ != "provider_error"@,
        "response"@ != "ping"@,
        "response"@ != "pong"@,
        "wake_word_detected"@ != "confirmation_request"@,
        "wake_word_detected"@ != "confirmation_list"@,
        "wake_word_detected"@ != "ack"@,
        "wake_word_detected"@ != "error"@,
        "wake_word_detected"@ != "session_list"@,
        "wake_word_detected"@ != "session_switched"@,
        "wake_word_detected"@ != "session_error"@,
        "wake_word_detected"@ != "config_updated"@,
        "wake_word_detected"@ != "config_error"@,
        "wake_word_detected"@ != "settings"@,
        "wake_word_detected"@ != "provider_list"@,
        "wake_word_detected"@ != "provider_error"@,
        "wake_word_detected"@ != "ping"@,
        "wake_word_detected"@ != "pong"@,
        "confirmation_request"@ != "confirmation_list"@,
        "confirmation_request"@ != "ack"@,
        "confirmation_request"@ != "error"@,
        "confirmation_request"@ != "session_list"@,
        "confirmation_request"@ != "session_switched"@,
        "confirmation_request"@ != "session_error"@,
        "confirmation_request"@ != "config_updated"@,
        "confirmation_request"@ != "config_error"@,
        "confirmation_request"@ != "settings"@,
        "confirmation_request"@ != "provider_list"@,
        "confirmation_request"@ != "provider_error"@,
        "confirmation_request"@ != "ping"@,
        "confirmation_request"@ != "pong"@,
        "confirmation_list"@ != "ack"@,
        "confirmation_list"@ != "error"@,
        "confirmation_list"@ != "session_list"@,
        "confirmation_list"@ != "session_switched"@,
        "confirmation_list"@ != "session_error"@,
        "confirmation_list"@ != "config_updated"@,
        "confirmation_list"@ != "config_error"@,
        "confirmation_list"@ != "settings"@,
        "confirmation_list"@ != "provider_list"@,
        "confirmation_list"@ != "provider_error"@,
        "confirmation_list"@ != "ping"@,
        "confirmation_list"@ != "pong"@,
        "ack"@ != "error"@,
        "ack"@ != "session_list"@,
        "ack"@ != "session_switched"@,
        "ack"@ != "session_error"@,
        "ack"@ != "config_updated"@,
        "ack"@ != "config_error"@,
        "ack"@ != "settings"@,
        "ack"@ != "provider_list"@,
        "ack"@ != "provider_error"@,
        "ack"@ != "ping"@,
        "ack"@ != "pong"@,
        "error"@ != "session_list"@,
        "error"@ != "session_switched"@,
        "error"@ != "session_error"@,
        "error"@ != "config_updated"@,
        "error"@ != "config_error"@,
        "error"@ != "settings"@,
        "error"@ != "provider_list"@,
        "error"@ != "provider_error"@,
        "error"@ != "ping"@,
        "error"@ != "pong"@,
        "session_list"@ != "session_switched"@,
        "session_list"@ != "session_error"@,
        "session_list"@ != "config_updated"@,
        "session_list"@ != "config_error"@,
        "session_list"@ != "settings"@,
        "session_list"@ != "provider_list"@,
        "session_list"@ != "provider_error"@,
        "session_list"@ != "ping"@,
        "session_list"@ != "pong"@,
        "session_switched"@ != "session_error"@,
        "session_switched"@ != "config_updated"@,
        "session_switched"@ != "config_error"@,
        "session_switched"@ != "settings"@,
        "session_switched"@ != "provider_list"@,
        "session_switched"@ != "provider_error"@,
        "session_switched"@ != "ping"@,
        "session_switched"@ != "pong"@,
        "session_error"@ != "config_updated"@,
        "session_error"@ != "config_error"@,
        "session_error"@ != "settings"@,
        "session_error"@ != "provider_list"@,
        "session_error"@ != "provider_error"@,
        "session_error"@ != "ping"@,
        "session_error"@ != "pong"@,
        "config_updated"@ != "config_error"@,
        "config_updated"@ != "settings"@,
        "config_updated"@ != "provider_list"@,
        "config_updated"@ != "provider_error"@,
        "config_updated"@ != "ping"@,
        "config_updated"@ != "pong"@,
        "config_error"@ != "settings"@,
        "config_error"@ != "provider_list"@,
        "config_error"@ != "provider_error"@,
        "config_error"@ != "ping"@,
        "config_error"@ != "pong"@,
        "settings"@ != "provider_list"@,
        "settings"@ != "provider_error"@,
        "settings"@ != "ping"@,
        "settings"@ != "pong"@,
        "provider_list"@ != "provider_error"@,
        "provider_list"@ != "ping"@,
        "provider_list"@ != "pong"@,
        "provider_error"@ != "ping"@,
        "provider_error"@ != "pong"@,
        "ping"@ != "pong"@,
{
    reveal_strlit("state");
    assert("state"@.len() == 5);
    reveal_strlit("response");
    assert("response"@.len() == 8);
    reveal_strlit("wake_word_detected");
    assert("wake_word_detected"@.len() == 18);
    reveal_strlit("confirmation_request");
    assert("confirmation_request"@.len() == 20);
    reveal_strlit("confirmation_list");
    assert("confirmation_list"@.len() == 17);
    reveal_strlit("ack");
    assert("ack"@.len() == 3);
    reveal_strlit("error");
    assert("error"@.len() == 5);
    reveal_strlit("session_list");
    assert("session_list"@.len() == 12);
    reveal_strlit("session_switched");
    assert("session_switched"@.len() == 16);
    reveal_strlit("session_error");
    assert("session_error"@.len() == 13);
    reveal_strlit("config_updated");
    assert("config_updated"@.len() == 14);
    reveal_strlit("config_error");
    assert("config_error"@.len() == 12);
    reveal_strlit("settings");
    assert("settings"@.len() == 8);
    reveal_strlit("provider_list");
    assert("provider_list"@.len() == 13);
    reveal_strlit("provider_error");
    assert("provider_error"@.len() == 14);
    reveal_strlit("ping");
    assert("ping"@.len() == 4);
    reveal_strlit("pong");
    assert("pong"@.len() == 4);
    assert("state"@ != "error"@) by {
        assert("state"@[0] != "error"@[0]);
    }
    assert("response"@ != "settings"@) by {
        assert("response"@[0] != "settings"@[0]);
    }
    assert("session_list"@ != "config_error"@) by {
        assert("session_list"@[0] != "config_error"@[0]);
    }
    assert("session_error"@ != "provider_list"@) by {
        assert("session_error"@[0] != "provider_list"@[0]);
    }
    assert("config_updated"@ != "provider_error"@) by {
        assert("config_updated"@[0] != "provider_error"@[0]);
    }
    assert("ping"@ != "pong"@) by {
        assert("ping"@[1] != "pong"@[1]);
    }
}

proof fn lemma_all_present(items: Seq<Option<Seq<char>>>)
    requires
        forall|i: int| 0 <= i < items.len() ==> #[trigger] items[i] is Some,
    ensures
        present_strings(items).len() == items.len(),
        forall|i: int| 0 <= i < items.len() ==> present_strings(items)[i] == items[i]->0,
    decreases items.len(),
{
    if items.len() > 0 {
        let init = items.drop_last();
        assert forall|i: int| 0 <= i < init.len() implies #[trigger] init[i] is Some by {
            assert(init[i] == items[i]);
        }
        lemma_all_present(init);
        assert(items[items.len() - 1] is Some);
    }
}

/// A line that is not JSON is reported as an error that quotes it.
pub proof fn law_invalid_json_reported(line: Seq<char>)
    requires
        !json_parses(line),
    ensures
        event_of(line, daemon_fields(line)) == IpcEventView::Error("invalid JSON: "@ + line),
{
}

/// Keep-alive messages read as the daemon being idle.
pub proof fn law_keepalive_is_idle(line: Seq<char>)
    requires
        json_parses(line),
        str_member(line, "type"@) == Some("ping"@) || str_member(line, "type"@) == Some("pong"@),
    ensures
        event_of(line, daemon_fields(line)) == IpcEventView::State("idle"@),
{
    reveal_strlit("ping");
    assert("ping"@.len() == 4);
    reveal_strlit("pong");
    assert("pong"@.len() == 4);
    reveal_strlit("state");
    assert("state"@.len() == 5);
    reveal_strlit("response");
    assert("response"@.len() == 8);
    reveal_strlit("wake_word_detected");
    assert("wake_word_detected"@.len() == 18);
    reveal_strlit("confirmation_request");
    assert("confirmation_request"@.len() == 20);
    reveal_strlit("confirmation_list");
    assert("confirmation_list"@.len() == 17);
    reveal_strlit("ack");
    assert("ack"@.len() == 3);
    reveal_strlit("error");
    assert("error"@.len() == 5);
    reveal_strlit("session_list");
    assert("session_list"@.len() == 12);
    reveal_strlit("session_switched");
    assert("session_switched"@.len() == 16);
    reveal_strlit("session_error");
    reveal_strlit("provider_error");
    assert("provider_error"@.len() == 14);
    reveal_strlit("provider_list");
    assert("provider_list"@.len() == 13);
    reveal_strlit("settings");
    assert("settings"@.len() == 8);
    reveal_strlit("config_error");
    assert("config_error"@.len() == 12);
    reveal_strlit("config_updated");
    assert("config_updated"@.len() == 14);
    assert("session_error"@.len() == 13);
}

} // verus!
