//! The wire protocol: what clients and the server tell each other.

use vstd::prelude::*;

use crate::text::texts;
use crate::timestamp::Timestamp;

verus! {

/// The version of the protocol, which the server names when it greets a client.
pub const PROTOCOL_VERSION: u16 = 1;

/// Where a session is in its life.
#[derive(Clone, Copy, Debug, PartialEq, Eq, Structural)]
pub enum SessionStatus {
    Running,
    Exited,
    Starting,
    Stopped,
}

/// What is shown of a session. The identifier is a UUID as a number.
#[derive(Debug)]
pub struct SessionSummary {
    pub id: u128,
    pub name: String,
    pub cwd: String,
    pub shell: String,
    pub args: Vec<String>,
    pub status: SessionStatus,
    pub pid: Option<u32>,
    pub exit_code: Option<u32>,
    pub archived: bool,
    pub attached_clients: u32,
    pub last_activity_at: Timestamp,
    pub created_at: Timestamp,
    pub updated_at: Timestamp,
}

/// What a session summary holds.
#[verifier::ext_equal]
pub struct SummaryView {
    pub id: u128,
    pub name: Seq<char>,
    pub cwd: Seq<char>,
    pub shell: Seq<char>,
    pub args: Seq<Seq<char>>,
    pub status: SessionStatus,
    pub pid: Option<u32>,
    pub exit_code: Option<u32>,
    pub archived: bool,
    pub attached_clients: u32,
    pub last_activity_at: Timestamp,
    pub created_at: Timestamp,
    pub updated_at: Timestamp,
}

impl View for SessionSummary {
    type V = SummaryView;

    open spec fn view(&self) -> SummaryView {
        SummaryView {
            id: self.id,
            name: self.name@,
            cwd: self.cwd@,
            shell: self.shell@,
            args: texts(self.args@),
            status: self.status,
            pid: self.pid,
            exit_code: self.exit_code,
            archived: self.archived,
            attached_clients: self.attached_clients,
            last_activity_at: self.last_activity_at,
            created_at: self.created_at,
            updated_at: self.updated_at,
        }
    }
}

impl Clone for SessionSummary {
    fn clone(&self) -> (r: SessionSummary)
        ensures
            r@ == self@,
    {
        SessionSummary {
            id: self.id,
            name: self.name.clone(),
            cwd: self.cwd.clone(),
            shell: self.shell.clone(),
            args: crate::text::copy_texts(&self.args),
            status: self.status,
            pid: self.pid,
            exit_code: self.exit_code,
            archived: self.archived,
            attached_clients: self.attached_clients,
            last_activity_at: self.last_activity_at,
            created_at: self.created_at,
            updated_at: self.updated_at,
        }
    }
}

impl SummaryView {
    /// Whether every instant in the summary is one that can be written down.
    pub open spec fn times_valid(self) -> bool {
        &&& self.last_activity_at.valid()
        &&& self.created_at.valid()
        &&& self.updated_at.valid()
    }

    /// Whether every instant in the summary reads back from its text.
    pub open spec fn times_writable(self) -> bool {
        &&& self.last_activity_at.writable()
        &&& self.created_at.writable()
        &&& self.updated_at.writable()
    }

    /// Whether a process is, or is about to be, at work for the session.
    pub open spec fn active(self) -> bool {
        self.status == SessionStatus::Running || self.status == SessionStatus::Starting
    }

    /// Whether the session was at work, so that it is set to work again.
    pub open spec fn recovers(self) -> bool {
        !self.archived && self.active()
    }
}

impl SessionSummary {
    /// Whether a process is, or is about to be, at work for the session.
    pub fn is_active(&self) -> (r: bool)
        ensures
            r == self@.active(),
    {
        match self.status {
            SessionStatus::Running => true,
            SessionStatus::Starting => true,
            SessionStatus::Exited => false,
            SessionStatus::Stopped => false,
        }
    }
}

/// A request for a new session.
#[derive(Debug)]
pub struct CreateSessionRequest {
    pub name: String,
    pub cwd: String,
    pub shell: String,
    pub args: Vec<String>,
}

/// A request for another name of a session.
#[derive(Debug)]
pub struct PatchSessionRequest {
    pub name: String,
}

/// What a client says it can do.
#[derive(Clone, Copy, Debug, PartialEq, Eq, Structural)]
pub struct ClientCapabilities {
    pub mobile: bool,
    pub keyboard_overlay: bool,
}

/// A key of the on-screen keyboard.
#[derive(Clone, Copy, Debug, PartialEq, Eq, Structural)]
pub enum KeyboardAction {
    ToggleCtrlLock,
    ToggleAltLock,
    ToggleShiftLock,
    SendEsc,
    SendTab,
    ArrowUp,
    ArrowDown,
    ArrowLeft,
    ArrowRight,
    Home,
    End,
    PageUp,
    PageDown,
    Function(u8),
}

/// A frame that a client sends.
#[derive(Debug)]
pub enum ClientFrame {
    Hello {
        cols: u16,
        rows: u16,
        resume_from_seq: Option<u64>,
        capabilities: ClientCapabilities,
    },
    Input { data_b64: String },
    Resize { cols: u16, rows: u16 },
    Keyboard { action: KeyboardAction },
    Ping { ts_ms: u64 },
}

/// A piece of replayed output.
#[derive(Debug)]
pub struct OutputChunk {
    pub seq: u64,
    pub data_b64: String,
}

/// What a piece of replayed output holds.
#[verifier::ext_equal]
pub struct ChunkView {
    pub seq: u64,
    pub data_b64: Seq<char>,
}

impl View for OutputChunk {
    type V = ChunkView;

    open spec fn view(&self) -> ChunkView {
        ChunkView { seq: self.seq, data_b64: self.data_b64@ }
    }
}

/// What a list of replayed pieces holds.
pub open spec fn chunks_view(chunks: Seq<OutputChunk>) -> Seq<ChunkView> {
    chunks.map_values(|c: OutputChunk| c@)
}

/// A frame that the server sends.
#[derive(Debug)]
pub enum ServerFrame {
    HelloAck { protocol_version: u16, session_id: u128, next_seq: u64 },
    Snapshot { from_seq: u64, chunks: Vec<OutputChunk> },
    Output { seq: u64, data_b64: String },
    Status { running: bool, pid: Option<u32>, attached_clients: u32 },
    SessionUpdated { session: SessionSummary },
    Pong { ts_ms: u64 },
    Error { code: String, message: String },
}

/// What a frame of the server holds.
#[verifier::ext_equal]
pub enum ServerFrameView {
    HelloAck { protocol_version: u16, session_id: u128, next_seq: u64 },
    Snapshot { from_seq: u64, chunks: Seq<ChunkView> },
    Output { seq: u64, data_b64: Seq<char> },
    Status { running: bool, pid: Option<u32>, attached_clients: u32 },
    SessionUpdated { session: SummaryView },
    Pong { ts_ms: u64 },
    Error { code: Seq<char>, message: Seq<char> },
}

impl View for ServerFrame {
    type V = ServerFrameView;

    open spec fn view(&self) -> ServerFrameView {
        match *self {
            ServerFrame::HelloAck { protocol_version, session_id, next_seq } => {
                ServerFrameView::HelloAck { protocol_version, session_id, next_seq }
            },
            ServerFrame::Snapshot { from_seq, chunks } => {
                ServerFrameView::Snapshot { from_seq, chunks: chunks_view(chunks@) }
            },
            ServerFrame::Output { seq, data_b64 } => {
                ServerFrameView::Output { seq, data_b64: data_b64@ }
            },
            ServerFrame::Status { running, pid, attached_clients } => {
                ServerFrameView::Status { running, pid, attached_clients }
            },
            ServerFrame::SessionUpdated { session } => {
                ServerFrameView::SessionUpdated { session: session@ }
            },
            ServerFrame::Pong { ts_ms } => ServerFrameView::Pong { ts_ms },
            ServerFrame::Error { code, message } => {
                ServerFrameView::Error { code: code@, message: message@ }
            },
        }
    }
}

} // verus!
