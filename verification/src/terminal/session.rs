//! A session and the state machine of its lifecycle.

use vstd::prelude::*;
use vstd::string::StringExecFns;

verus! {

/// Rows of a session that was never resized.
pub const DEFAULT_ROWS: u16 = 24;

/// Columns of a session that was never resized.
pub const DEFAULT_COLS: u16 = 80;

/// Where a session stands in its lifecycle.
#[derive(Debug, PartialEq, Eq)]
pub enum SessionStatus {
    Disconnected,
    Connecting,
    Connected,
    /// The transport failed; the message says why.
    Error(String),
}

/// Mathematical value of a [`SessionStatus`].
pub enum StatusView {
    Disconnected,
    Connecting,
    Connected,
    Error(Seq<char>),
}

impl View for SessionStatus {
    type V = StatusView;

    open spec fn view(&self) -> StatusView {
        match *self {
            SessionStatus::Disconnected => StatusView::Disconnected,
            SessionStatus::Connecting => StatusView::Connecting,
            SessionStatus::Connected => StatusView::Connected,
            SessionStatus::Error(message) => StatusView::Error(message@),
        }
    }
}

impl Clone for SessionStatus {
    fn clone(&self) -> (copy: Self)
        ensures
            copy@ == self@,
    {
        match self {
            SessionStatus::Disconnected => SessionStatus::Disconnected,
            SessionStatus::Connecting => SessionStatus::Connecting,
            SessionStatus::Connected => SessionStatus::Connected,
            SessionStatus::Error(message) => SessionStatus::Error(message.clone()),
        }
    }
}

/// One logical session: who it is, where it connects, and its state.
#[derive(Debug)]
pub struct Session {
    pub id: String,
    pub name: String,
    pub host: String,
    pub port: u16,
    pub username: String,
    pub status: SessionStatus,
    pub rows: u16,
    pub cols: u16,
}

/// Mathematical value of a [`Session`].
pub struct SessionView {
    pub id: Seq<char>,
    pub name: Seq<char>,
    pub host: Seq<char>,
    pub port: u16,
    pub username: Seq<char>,
    pub status: StatusView,
    pub rows: u16,
    pub cols: u16,
}

impl View for Session {
    type V = SessionView;

    open spec fn view(&self) -> SessionView {
        SessionView {
            id: self.id@,
            name: self.name@,
            host: self.host@,
            port: self.port,
            username: self.username@,
            status: self.status@,
            rows: self.rows,
            cols: self.cols,
        }
    }
}

impl Clone for Session {
    fn clone(&self) -> (copy: Self)
        ensures
            copy@ == self@,
    {
        Session {
            id: self.id.clone(),
            name: self.name.clone(),
            host: self.host.clone(),
            port: self.port,
            username: self.username.clone(),
            status: self.status.clone(),
            rows: self.rows,
            cols: self.cols,
        }
    }
}

impl SessionView {
    /// A session as it is created: disconnected, at the default size.
    pub open spec fn fresh(
        id: Seq<char>,
        name: Seq<char>,
        host: Seq<char>,
        port: u16,
        username: Seq<char>,
    ) -> SessionView {
        SessionView {
            id: id,
            name: name,
            host: host,
            port: port,
            username: username,
            status: StatusView::Disconnected,
            rows: DEFAULT_ROWS,
            cols: DEFAULT_COLS,
        }
    }
}

impl Session {
    /// A new session: disconnected, at the default size of 24 by 80.
    pub fn new(id: String, name: String, host: String, port: u16, username: String) -> (session:
        Session)
        ensures
            session@ == SessionView::fresh(id@, name@, host@, port, username@),
    {
        Session {
            id,
            name,
            host,
            port,
            username,
            status: SessionStatus::Disconnected,
            rows: DEFAULT_ROWS,
            cols: DEFAULT_COLS,
        }
    }
}

/// A chunk of raw output of a session, with the size it was produced at.
#[derive(Debug)]
pub struct TerminalOutput {
    pub session_id: String,
    pub data: Vec<u8>,
    pub rows: u16,
    pub cols: u16,
}

/// What can go wrong in a session.
#[derive(Debug, PartialEq, Eq)]
pub enum TerminalError {
    /// The transport could not be established; the reason says why.
    ConnectionFailed(String),
    /// The remote end closed the transport, or the local process exited.
    TransportClosed,
    /// The operation is not allowed in the session's current state.
    InvalidState,
    /// The parser met bytes that it could not interpret.
    MalformedSequence,
    /// No session has the given identity.
    SessionNotFound,
}

/// Mathematical value of a [`TerminalError`].
pub enum ErrorView {
    ConnectionFailed(Seq<char>),
    TransportClosed,
    InvalidState,
    MalformedSequence,
    SessionNotFound,
}

impl View for TerminalError {
    type V = ErrorView;

    open spec fn view(&self) -> ErrorView {
        match *self {
            TerminalError::ConnectionFailed(reason) => ErrorView::ConnectionFailed(reason@),
            TerminalError::TransportClosed => ErrorView::TransportClosed,
            TerminalError::InvalidState => ErrorView::InvalidState,
            TerminalError::MalformedSequence => ErrorView::MalformedSequence,
            TerminalError::SessionNotFound => ErrorView::SessionNotFound,
        }
    }
}

impl ErrorView {
    /// The text that reports this error.
    pub open spec fn message(self) -> Seq<char> {
        match self {
            ErrorView::ConnectionFailed(reason) => "Connection failed: "@ + reason,
            ErrorView::TransportClosed => "Transport closed"@,
            ErrorView::InvalidState => "Invalid state"@,
            ErrorView::MalformedSequence => "Malformed sequence"@,
            ErrorView::SessionNotFound => "Session not found"@,
        }
    }
}

impl TerminalError {
    /// The text that reports this error.
    pub fn message(&self) -> (text: String)
        ensures
            text@ == self@.message(),
    {
        match self {
            TerminalError::ConnectionFailed(reason) => {
                String::from_str("Connection failed: ").concat(reason.as_str())
            },
            TerminalError::TransportClosed => String::from_str("Transport closed"),
            TerminalError::InvalidState => String::from_str("Invalid state"),
            TerminalError::MalformedSequence => String::from_str("Malformed sequence"),
            TerminalError::SessionNotFound => String::from_str("Session not found"),
        }
    }
}

/// What happens to a session: a request of the caller, or a report of
/// the transport.
#[derive(Debug)]
pub enum SessionEvent {
    /// The caller asks to connect.
    Connect,
    /// The transport reports that it is live.
    TransportReady,
    /// The transport reports that it failed; the reason says why.
    TransportFailed(String),
    /// The caller asks to disconnect.
    Disconnect,
    /// The transport reports that the other end closed it in good order.
    TransportClosed,
    /// The caller withdraws a connect request that is still pending.
    Cancel,
}

/// Mathematical value of a [`SessionEvent`].
pub enum EventView {
    Connect,
    TransportReady,
    TransportFailed(Seq<char>),
    Disconnect,
    TransportClosed,
    Cancel,
}

impl View for SessionEvent {
    type V = EventView;

    open spec fn view(&self) -> EventView {
        match *self {
            SessionEvent::Connect => EventView::Connect,
            SessionEvent::TransportReady => EventView::TransportReady,
            SessionEvent::TransportFailed(reason) => EventView::TransportFailed(reason@),
            SessionEvent::Disconnect => EventView::Disconnect,
            SessionEvent::TransportClosed => EventView::TransportClosed,
            SessionEvent::Cancel => EventView::Cancel,
        }
    }
}

/// What the owner of the transport has to do after a transition.
#[derive(Clone, Copy, Debug, PartialEq, Eq, Structural)]
pub enum SessionAction {
    /// Establish the transport, then report whether it is live.
    OpenTransport,
    /// Start draining the transport into the session's terminal.
    StartPump,
    /// Stop the pump and close the transport.
    CloseTransport,
    /// Abort the attempt to open the transport and release what it held.
    DiscardTransport,
}

/// The transition table of a session: the status after `event` and the
/// action it calls for, or `None` where the status forbids the event.
///
/// | from | event | to |
/// |---|---|---|
/// | disconnected, error | connect | connecting |
/// | connecting | transport ready | connected |
/// | connecting | transport failed | error |
/// | connecting | cancel | disconnected |
/// | connected | disconnect | disconnected |
/// | connected | transport closed | disconnected |
/// | connected | transport failed | error |
pub open spec fn transition(status: StatusView, event: EventView) -> Option<
    (StatusView, SessionAction),
> {
    match (status, event) {
        (StatusView::Disconnected, EventView::Connect) => Some(
            (StatusView::Connecting, SessionAction::OpenTransport),
        ),
        (StatusView::Error(_), EventView::Connect) => Some(
            (StatusView::Connecting, SessionAction::OpenTransport),
        ),
        (StatusView::Connecting, EventView::TransportReady) => Some(
            (StatusView::Connected, SessionAction::StartPump),
        ),
        (StatusView::Connecting, EventView::TransportFailed(reason)) => Some(
            (StatusView::Error(reason), SessionAction::DiscardTransport),
        ),
        (StatusView::Connecting, EventView::Cancel) => Some(
            (StatusView::Disconnected, SessionAction::DiscardTransport),
        ),
        (StatusView::Connected, EventView::Disconnect) => Some(
            (StatusView::Disconnected, SessionAction::CloseTransport),
        ),
        (StatusView::Connected, EventView::TransportClosed) => Some(
            (StatusView::Disconnected, SessionAction::CloseTransport),
        ),
        (StatusView::Connected, EventView::TransportFailed(reason)) => Some(
            (StatusView::Error(reason), SessionAction::CloseTransport),
        ),
        _ => None,
    }
}

impl SessionStatus {
    /// The status after `event` and the action it calls for. An event
    /// that the status forbids is rejected as an invalid state.
    pub fn on_event(&self, event: SessionEvent) -> (result: Result<
        (SessionStatus, SessionAction),
        TerminalError,
    >)
        ensures
            match transition(self@, event@) {
                Some((status, action)) => result matches Ok((s, a)) && s@ == status && a == action,
                None => result matches Err(e) && e@ == ErrorView::InvalidState,
            },
    {
        match (self, event) {
            (SessionStatus::Disconnected, SessionEvent::Connect) => Ok(
                (SessionStatus::Connecting, SessionAction::OpenTransport),
            ),
            (SessionStatus::Error(_), SessionEvent::Connect) => Ok(
                (SessionStatus::Connecting, SessionAction::OpenTransport),
            ),
            (SessionStatus::Connecting, SessionEvent::TransportReady) => Ok(
                (SessionStatus::Connected, SessionAction::StartPump),
            ),
            (SessionStatus::Connecting, SessionEvent::TransportFailed(reason)) => Ok(
                (SessionStatus::Error(reason), SessionAction::DiscardTransport),
            ),
            (SessionStatus::Connecting, SessionEvent::Cancel) => Ok(
                (SessionStatus::Disconnected, SessionAction::DiscardTransport),
            ),
            (SessionStatus::Connected, SessionEvent::Disconnect) => Ok(
                (SessionStatus::Disconnected, SessionAction::CloseTransport),
            ),
            (SessionStatus::Connected, SessionEvent::TransportClosed) => Ok(
                (SessionStatus::Disconnected, SessionAction::CloseTransport),
            ),
            (SessionStatus::Connected, SessionEvent::TransportFailed(reason)) => Ok(
                (SessionStatus::Error(reason), SessionAction::CloseTransport),
            ),
            _ => Err(TerminalError::InvalidState),
        }
    }

    /// Whether the session is connected.
    pub fn is_connected(&self) -> (b: bool)
        ensures
            b == (self@ is Connected),
    {
        match self {
            SessionStatus::Connected => true,
            _ => false,
        }
    }
}

/// A disconnect request is accepted in the connected status and in no
/// other: on a session that is disconnected, connecting or in error it
/// is rejected.
pub proof fn theorem_disconnect_needs_connected(status: StatusView)
    ensures
        transition(status, EventView::Disconnect) is Some <==> status is Connected,
        status is Connected ==> transition(status, EventView::Disconnect) == Some(
            (StatusView::Disconnected, SessionAction::CloseTransport),
        ),
{
}

/// A connect request is accepted exactly from the disconnected and the
/// error status, and leads to the connecting status. A second request
/// straight after an accepted one is therefore rejected, and so is one
/// on a connected session.
pub proof fn theorem_connect_not_repeated(status: StatusView)
    ensures
        transition(status, EventView::Connect) is Some <==> (status is Disconnected
            || status is Error),
        transition(status, EventView::Connect) matches Some((next, action)) ==> {
            &&& next is Connecting
            &&& action == SessionAction::OpenTransport
            &&& transition(next, EventView::Connect) is None
        },
{
}

/// A session becomes connected only from the connecting status and
/// only when the transport reports that it is live.
pub proof fn theorem_connected_only_when_ready(status: StatusView, event: EventView)
    ensures
        transition(status, event) matches Some((next, _)) && next is Connected ==> status
            is Connecting && event is TransportReady,
{
}

} // verus!
