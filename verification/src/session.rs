//! A terminal session: its settings, its state and its output history, apart from
//! the process that runs in it.

use vstd::prelude::*;

use crate::history::clip;
use crate::history::events_view;
use crate::history::EventView;
use crate::history::HistoryView;
use crate::history::OutputEvent;
use crate::history::OutputHistory;
use crate::payload::encodable;
use crate::proto::SessionStatus;
use crate::proto::SessionSummary;
use crate::proto::SummaryView;
use crate::record::decoded;
use crate::record::encoded;
use crate::record::row_columns;
use crate::record::session_texts;
use crate::record::stored_view;
use crate::record::PersistedOutputEvent;
use crate::record::PersistedSession;
use crate::record::PersistedView;
use crate::record::RowErrorView;
use crate::record::RowView;
use crate::sql::Statement;
use crate::sql::StatementView;
use crate::sql::UPSERT_SESSION;
use crate::storage::agree;
use crate::storage::as_stored;
use crate::storage::Storage;
use crate::text::texts;
use crate::timestamp::Timestamp;

verus! {

/// What a session is to run.
#[derive(Debug)]
pub struct SessionConfig {
    pub name: String,
    pub cwd: String,
    pub shell: String,
    pub args: Vec<String>,
}

/// What a session's settings hold.
#[verifier::ext_equal]
pub struct ConfigView {
    pub name: Seq<char>,
    pub cwd: Seq<char>,
    pub shell: Seq<char>,
    pub args: Seq<Seq<char>>,
}

impl View for SessionConfig {
    type V = ConfigView;

    open spec fn view(&self) -> ConfigView {
        ConfigView {
            name: self.name@,
            cwd: self.cwd@,
            shell: self.shell@,
            args: texts(self.args@),
        }
    }
}

impl Clone for SessionConfig {
    fn clone(&self) -> (r: SessionConfig)
        ensures
            r@ == self@,
    {
        SessionConfig {
            name: self.name.clone(),
            cwd: self.cwd.clone(),
            shell: self.shell.clone(),
            args: crate::text::copy_texts(&self.args),
        }
    }
}

/// Why a session does not take input or another size.
#[derive(Clone, Copy, Debug, PartialEq, Eq, Structural)]
pub enum SessionFault {
    /// No process is attached to the session.
    RuntimeUnavailable,
    /// A terminal has at least one column and one row.
    InvalidSize,
}

impl SessionFault {
    pub open spec fn text(self) -> Seq<char> {
        match self {
            SessionFault::RuntimeUnavailable => "session runtime is not available"@,
            SessionFault::InvalidSize => "invalid terminal size"@,
        }
    }

    /// The fault in words.
    pub fn message(&self) -> (r: String)
        ensures
            r@ == self.text(),
    {
        match self {
            SessionFault::RuntimeUnavailable => "session runtime is not available".to_owned(),
            SessionFault::InvalidSize => "invalid terminal size".to_owned(),
        }
    }
}

/// What a session holds.
#[verifier::ext_equal]
pub struct SessionView {
    pub config: ConfigView,
    pub summary: SummaryView,
    /// Whether a process is attached.
    pub has_runtime: bool,
    pub history: HistoryView,
    /// The sequence number of the latest output event, 0 before the first.
    pub next_seq: u64,
    /// Counts the processes: what an earlier one reports is ignored.
    pub generation: u64,
}

/// The number after `n`, 0 after the last.
pub open spec fn following(n: u64) -> u64 {
    if n == u64::MAX {
        0
    } else {
        (n + 1) as u64
    }
}

impl SessionView {
    /// A session that was just asked for.
    pub open spec fn created(
        id: u128,
        config: ConfigView,
        history_bytes: nat,
        now: Timestamp,
    ) -> SessionView {
        SessionView {
            config,
            summary: SummaryView {
                id,
                name: config.name,
                cwd: config.cwd,
                shell: config.shell,
                args: config.args,
                status: SessionStatus::Starting,
                pid: None,
                exit_code: None,
                archived: false,
                attached_clients: 0,
                last_activity_at: now,
                created_at: now,
                updated_at: now,
            },
            has_runtime: false,
            history: HistoryView::empty(history_bytes),
            next_seq: 0,
            generation: 0,
        }
    }

    /// A session as it comes back from the database: nobody is attached to it, no
    /// process runs in it, and its output is what was stored.
    pub open spec fn restored(
        persisted: PersistedView,
        history_bytes: nat,
        events: Seq<EventView>,
    ) -> SessionView {
        let summary = persisted.summary;
        SessionView {
            config: persisted.config,
            summary: SummaryView {
                attached_clients: 0,
                pid: if summary.active() {
                    None
                } else {
                    summary.pid
                },
                ..summary
            },
            has_runtime: false,
            history: HistoryView::empty(history_bytes).pushed_all(events),
            next_seq: if events.len() > 0 {
                events.last().seq
            } else {
                0
            },
            generation: 0,
        }
    }

    /// The settings and the summary name the same things.
    pub open spec fn consistent(self) -> bool {
        agree(self.summary, self.config)
    }

    /// The row under which the session is stored.
    pub open spec fn row(self) -> RowView {
        encoded(self.summary, self.config, session_texts(self.summary, self.config))
    }

    /// The statement that stores the session.
    pub open spec fn storing(self) -> StatementView {
        StatementView { sql: UPSERT_SESSION@, params: row_columns(self.row()) }
    }

    /// The session once the server has gone down and come up again.
    pub open spec fn after_restart(self) -> SessionView {
        SessionView {
            summary: SummaryView {
                attached_clients: 0,
                pid: if self.summary.active() {
                    None
                } else {
                    self.summary.pid
                },
                ..self.summary
            },
            has_runtime: false,
            generation: 0,
            ..self
        }
    }

    /// The retained output ends with the latest event and has no gap.
    pub open spec fn gapless(self) -> bool {
        &&& crate::history::gapless(self.history.chunks, self.next_seq)
        &&& self.history.chunks.len() <= self.next_seq
    }

    pub open spec fn renamed(self, name: Seq<char>, now: Timestamp) -> SessionView {
        SessionView {
            config: ConfigView { name, ..self.config },
            summary: SummaryView { name, updated_at: now, ..self.summary },
            ..self
        }
    }

    /// Archiving counts as activity, restoring does not.
    pub open spec fn with_archived(self, archived: bool, now: Timestamp) -> SessionView {
        SessionView {
            summary: SummaryView {
                archived,
                updated_at: now,
                last_activity_at: if archived {
                    now
                } else {
                    self.summary.last_activity_at
                },
                ..self.summary
            },
            ..self
        }
    }

    pub open spec fn attached(self, now: Timestamp) -> SessionView {
        let clients = self.summary.attached_clients;
        SessionView {
            summary: SummaryView {
                attached_clients: if clients == u32::MAX {
                    clients
                } else {
                    (clients + 1) as u32
                },
                updated_at: now,
                ..self.summary
            },
            ..self
        }
    }

    pub open spec fn detached(self, now: Timestamp) -> SessionView {
        let clients = self.summary.attached_clients;
        SessionView {
            summary: SummaryView {
                attached_clients: if clients == 0 {
                    clients
                } else {
                    (clients - 1) as u32
                },
                updated_at: now,
                ..self.summary
            },
            ..self
        }
    }

    /// The session once a client has done something in it.
    pub open spec fn touched(self, now: Timestamp) -> SessionView {
        SessionView {
            summary: SummaryView { updated_at: now, last_activity_at: now, ..self.summary },
            ..self
        }
    }

    /// The session once its process has been let go of, to be killed.
    pub open spec fn released(self) -> SessionView {
        SessionView { has_runtime: false, generation: following(self.generation), ..self }
    }

    /// The session once another process is on its way.
    pub open spec fn advanced(self) -> SessionView {
        SessionView { generation: following(self.generation), ..self }
    }

    pub open spec fn with_runtime(self) -> SessionView {
        SessionView { has_runtime: true, ..self }
    }

    pub open spec fn without_output(self) -> SessionView {
        SessionView { history: self.history.cleared(), next_seq: 0, ..self }
    }

    pub open spec fn starting(self, generation: u64, now: Timestamp) -> SessionView {
        if generation != self.generation {
            self
        } else {
            SessionView {
                summary: SummaryView {
                    status: SessionStatus::Starting,
                    pid: None,
                    exit_code: None,
                    updated_at: now,
                    last_activity_at: now,
                    ..self.summary
                },
                ..self
            }
        }
    }

    pub open spec fn running(
        self,
        generation: u64,
        pid: Option<u32>,
        now: Timestamp,
    ) -> SessionView {
        if generation != self.generation {
            self
        } else {
            SessionView {
                summary: SummaryView {
                    status: SessionStatus::Running,
                    pid,
                    exit_code: None,
                    updated_at: now,
                    last_activity_at: now,
                    ..self.summary
                },
                ..self
            }
        }
    }

    pub open spec fn exited(self, generation: u64, exit_code: u32, now: Timestamp) -> SessionView {
        if generation != self.generation {
            self
        } else {
            SessionView {
                has_runtime: false,
                summary: SummaryView {
                    status: SessionStatus::Exited,
                    pid: None,
                    exit_code: Some(exit_code),
                    updated_at: now,
                    ..self.summary
                },
                ..self
            }
        }
    }

    pub open spec fn stopped(self, now: Timestamp) -> SessionView {
        SessionView {
            has_runtime: false,
            summary: SummaryView {
                status: SessionStatus::Stopped,
                pid: None,
                exit_code: None,
                updated_at: now,
                last_activity_at: now,
                ..self.summary
            },
            ..self
        }
    }

    /// Whether output of this process, with these bytes, is taken in.
    pub open spec fn takes_output(self, generation: u64, data: Seq<u8>) -> bool {
        generation == self.generation && data.len() > 0
    }

    /// The event that the next output becomes.
    pub open spec fn next_event(self, data: Seq<u8>) -> EventView {
        EventView { seq: (self.next_seq + 1) as u64, data }
    }

    pub open spec fn with_output(
        self,
        generation: u64,
        data: Seq<u8>,
        now: Timestamp,
    ) -> SessionView {
        if !self.takes_output(generation, data) {
            self
        } else {
            let event = self.next_event(data);
            SessionView {
                history: self.history.pushed(event),
                next_seq: event.seq,
                summary: SummaryView { updated_at: now, last_activity_at: now, ..self.summary },
                ..self
            }
        }
    }

    /// Why a terminal of this size cannot be given to the session, if it cannot.
    pub open spec fn resize_fault(self, cols: u16, rows: u16) -> Option<SessionFault> {
        if cols == 0 || rows == 0 {
            Some(SessionFault::InvalidSize)
        } else if !self.has_runtime {
            Some(SessionFault::RuntimeUnavailable)
        } else {
            None
        }
    }

    /// Why the session takes no input, if it takes none.
    pub open spec fn input_fault(self) -> Option<SessionFault> {
        if !self.has_runtime {
            Some(SessionFault::RuntimeUnavailable)
        } else {
            None
        }
    }
}

/// Whether each event can be put into a frame.
pub open spec fn all_encodable(events: Seq<EventView>) -> bool {
    forall|i: int| 0 <= i < events.len() ==> encodable((#[trigger] events[i]).data.len())
}

/// An output event that is to be stored and sent to the attached clients.
#[derive(Debug)]
pub struct PublishedOutput {
    pub session_id: u128,
    pub event: OutputEvent,
    /// The limit on the session's stored payload bytes.
    pub max_bytes: usize,
    pub activity_at: Timestamp,
}

/// A terminal session.
#[derive(Debug)]
pub struct Session {
    config: SessionConfig,
    summary: SessionSummary,
    has_runtime: bool,
    history: OutputHistory,
    next_seq: u64,
    generation: u64,
}

impl View for Session {
    type V = SessionView;

    closed spec fn view(&self) -> SessionView {
        SessionView {
            config: self.config@,
            summary: self.summary@,
            has_runtime: self.has_runtime,
            history: self.history@,
            next_seq: self.next_seq,
            generation: self.generation,
        }
    }
}

impl Session {
    /// The history is well formed, its events fit in frames, and the instants can be
    /// written down.
    pub closed spec fn wf(self) -> bool {
        &&& self.history.wf()
        &&& all_encodable(self@.history.chunks)
        &&& self@.summary.times_valid()
    }

    /// What holds of every well-formed session.
    pub proof fn lemma_wf(self)
        requires
            self.wf(),
        ensures
            self@.history.bounded(),
            self@.history.max_bytes <= usize::MAX,
            all_encodable(self@.history.chunks),
            self@.summary.times_valid(),
    {
        self.history.lemma_wf();
    }

    /// A session that is asked for at the instant `now`.
    pub fn new_at(id: u128, config: SessionConfig, history_bytes: usize, now: Timestamp) -> (r:
        Session)
        requires
            now.valid(),
        ensures
            r.wf(),
            r@ == SessionView::created(id, config@, history_bytes as nat, now),
            r@.consistent(),
            r@.gapless(),
    {
        let summary = SessionSummary {
            id,
            name: config.name.clone(),
            cwd: config.cwd.clone(),
            shell: config.shell.clone(),
            args: crate::text::copy_texts(&config.args),
            status: SessionStatus::Starting,
            pid: None,
            exit_code: None,
            archived: false,
            attached_clients: 0,
            last_activity_at: now,
            created_at: now,
            updated_at: now,
        };
        Session {
            config,
            summary,
            has_runtime: false,
            history: OutputHistory::new(history_bytes),
            next_seq: 0,
            generation: 0,
        }
    }

    /// A session that is asked for now.
    pub fn new(id: u128, config: SessionConfig, history_bytes: usize) -> (r: Session)
        ensures
            r.wf(),
            exists|now: Timestamp|
                now.valid() && r@ == #[trigger] SessionView::created(
                    id,
                    config@,
                    history_bytes as nat,
                    now,
                ),
            r@.consistent(),
            r@.gapless(),
    {
        Session::new_at(id, config, history_bytes, Timestamp::now())
    }

    /// The session that the database holds, with the events stored for it, the
    /// oldest first.
    pub fn from_persisted(
        persisted: PersistedSession,
        history_bytes: usize,
        events: Vec<PersistedOutputEvent>,
    ) -> (r: Session)
        requires
            persisted@.summary.times_valid(),
            all_encodable(stored_view(events@)),
        ensures
            r.wf(),
            r@ == SessionView::restored(persisted@, history_bytes as nat, stored_view(events@)),
    {
        let ghost all = stored_view(events@);
        let next_seq: u64 = if events.len() > 0 {
            assert(all.last() == events@.last()@);
            events[events.len() - 1].seq
        } else {
            0
        };
        let mut summary = persisted.summary;
        summary.attached_clients = 0;
        if summary.is_active() {
            summary.pid = None;
        }
        let r = Session {
            config: persisted.config,
            summary,
            has_runtime: false,
            history: OutputHistory::from_persisted(history_bytes, events),
            next_seq,
            generation: 0,
        };
        proof {
            lemma_pushed_all_encodable(HistoryView::empty(history_bytes as nat), all);
        }
        r
    }

    /// What is shown of the session.
    pub fn summary(&self) -> (r: SessionSummary)
        ensures
            r@ == self@.summary,
    {
        self.summary.clone()
    }

    /// What the session is to run.
    pub fn config(&self) -> (r: SessionConfig)
        ensures
            r@ == self@.config,
    {
        self.config.clone()
    }

    pub fn id(&self) -> (r: u128)
        ensures
            r == self@.summary.id,
    {
        self.summary.id
    }

    /// The sequence number of the latest output event, 0 before the first.
    pub fn next_seq(&self) -> (r: u64)
        ensures
            r == self@.next_seq,
    {
        self.next_seq
    }

    pub fn generation(&self) -> (r: u64)
        ensures
            r == self@.generation,
    {
        self.generation
    }

    pub fn has_runtime(&self) -> (r: bool)
        ensures
            r == self@.has_runtime,
    {
        self.has_runtime
    }

    /// The replay for a client that has seen the output up to `resume_from_seq`.
    pub fn snapshot_since(&self, resume_from_seq: Option<u64>) -> (r: (u64, Vec<OutputEvent>))
        ensures
            (r.0, events_view(r.1@)) == self@.history.replay(resume_from_seq),
    {
        self.history.snapshot_since(resume_from_seq)
    }

    /// The statement that stores the session as it is. If its settings and its summary
    /// agree and its instants lie in the years 0 to 9999, the row reads back as the
    /// session with nobody attached.
    pub fn persist_snapshot(&self, storage: &Storage) -> (r: Statement)
        requires
            self.wf(),
        ensures
            r@ == self@.storing(),
            self@.consistent() && self@.summary.times_writable() ==> decoded(self@.row())
                == Ok::<_, RowErrorView>(as_stored(self@.summary, self@.config)),
    {
        storage.upsert_session(&self.summary, &self.config)
    }

    pub fn set_name_at(&mut self, name: String, now: Timestamp) -> (r: SessionSummary)
        requires
            old(self).wf(),
            now.valid(),
        ensures
            final(self).wf(),
            final(self)@ == old(self)@.renamed(name@, now),
            r@ == final(self)@.summary,
    {
        self.config.name = name.clone();
        self.summary.name = name;
        self.summary.updated_at = now;
        self.summary.clone()
    }

    /// Gives the session another name; the result is the summary to reply with once
    /// the session is stored.
    pub fn set_name(&mut self, name: String) -> (r: SessionSummary)
        requires
            old(self).wf(),
        ensures
            final(self).wf(),
            exists|now: Timestamp|
                now.valid() && final(self)@ == #[trigger] old(self)@.renamed(name@, now),
            r@ == final(self)@.summary,
    {
        self.set_name_at(name, Timestamp::now())
    }

    pub fn set_archived_at(&mut self, archived: bool, now: Timestamp) -> (r: SessionSummary)
        requires
            old(self).wf(),
            now.valid(),
        ensures
            final(self).wf(),
            final(self)@ == old(self)@.with_archived(archived, now),
            r@ == final(self)@.summary,
    {
        self.summary.archived = archived;
        self.summary.updated_at = now;
        if archived {
            self.summary.last_activity_at = now;
        }
        self.summary.clone()
    }

    /// Archives the session or takes it back; the result is the summary to reply with
    /// once the session is stored.
    pub fn set_archived(&mut self, archived: bool) -> (r: SessionSummary)
        requires
            old(self).wf(),
        ensures
            final(self).wf(),
            exists|now: Timestamp|
                now.valid() && final(self)@ == #[trigger] old(self)@.with_archived(archived, now),
            r@ == final(self)@.summary,
    {
        self.set_archived_at(archived, Timestamp::now())
    }

    pub fn attach_client_at(&mut self, now: Timestamp)
        requires
            old(self).wf(),
            now.valid(),
        ensures
            final(self).wf(),
            final(self)@ == old(self)@.attached(now),
    {
        self.summary.attached_clients = self.summary.attached_clients.saturating_add(1);
        self.summary.updated_at = now;
    }

    /// Counts a client that attaches.
    pub fn attach_client(&mut self)
        requires
            old(self).wf(),
        ensures
            final(self).wf(),
            exists|now: Timestamp|
                now.valid() && final(self)@ == #[trigger] old(self)@.attached(now),
    {
        self.attach_client_at(Timestamp::now())
    }

    pub fn detach_client_at(&mut self, now: Timestamp)
        requires
            old(self).wf(),
            now.valid(),
        ensures
            final(self).wf(),
            final(self)@ == old(self)@.detached(now),
    {
        self.summary.attached_clients = self.summary.attached_clients.saturating_sub(1);
        self.summary.updated_at = now;
    }

    /// Counts a client that goes.
    pub fn detach_client(&mut self)
        requires
            old(self).wf(),
        ensures
            final(self).wf(),
            exists|now: Timestamp|
                now.valid() && final(self)@ == #[trigger] old(self)@.detached(now),
    {
        self.detach_client_at(Timestamp::now())
    }

    pub fn note_activity_at(&mut self, now: Timestamp)
        requires
            old(self).wf(),
            now.valid(),
        ensures
            final(self).wf(),
            final(self)@ == old(self)@.touched(now),
    {
        self.summary.updated_at = now;
        self.summary.last_activity_at = now;
    }

    /// Notes that a client has done something in the session.
    pub fn note_activity(&mut self)
        requires
            old(self).wf(),
        ensures
            final(self).wf(),
            exists|now: Timestamp|
                now.valid() && final(self)@ == #[trigger] old(self)@.touched(now),
    {
        self.note_activity_at(Timestamp::now())
    }

    /// Whether input can be written to the session's process.
    pub fn check_input(&self) -> (r: Result<(), SessionFault>)
        ensures
            match r {
                Ok(_) => self@.input_fault() is None,
                Err(fault) => self@.input_fault() == Some(fault),
            },
    {
        if !self.has_runtime {
            return Err(SessionFault::RuntimeUnavailable);
        }
        Ok(())
    }

    /// Whether the session's terminal can be given this size.
    pub fn check_resize(&self, cols: u16, rows: u16) -> (r: Result<(), SessionFault>)
        ensures
            match r {
                Ok(_) => self@.resize_fault(cols, rows) is None,
                Err(fault) => self@.resize_fault(cols, rows) == Some(fault),
            },
    {
        if cols == 0 || rows == 0 {
            return Err(SessionFault::InvalidSize);
        }
        self.check_input()
    }

    /// Lets go of the session's process, if it has one, so that it can be killed, and
    /// has whatever that process still reports ignored. The result says whether there
    /// was one.
    pub fn take_runtime_and_advance_generation(&mut self) -> (r: bool)
        requires
            old(self).wf(),
        ensures
            final(self).wf(),
            final(self)@ == old(self)@.released(),
            r == old(self)@.has_runtime,
    {
        self.generation = self.generation.wrapping_add(1);
        let had: bool = self.has_runtime;
        self.has_runtime = false;
        had
    }

    /// Begins another process; the result is the generation that it belongs to.
    pub fn advance_generation(&mut self) -> (r: u64)
        requires
            old(self).wf(),
            old(self)@.generation < u64::MAX,
        ensures
            final(self).wf(),
            final(self)@ == old(self)@.advanced(),
            r == final(self)@.generation,
    {
        self.generation = self.generation + 1;
        self.generation
    }

    /// Attaches the process that was begun.
    pub fn install_runtime(&mut self)
        requires
            old(self).wf(),
        ensures
            final(self).wf(),
            final(self)@ == old(self)@.with_runtime(),
    {
        self.has_runtime = true;
    }

    /// Forgets all output and numbers what follows from the beginning.
    pub fn forget_output(&mut self)
        requires
            old(self).wf(),
        ensures
            final(self).wf(),
            final(self)@ == old(self)@.without_output(),
    {
        self.next_seq = 0;
        self.history.clear();
    }

    pub fn mark_starting_at(&mut self, generation: u64, now: Timestamp) -> (r: bool)
        requires
            old(self).wf(),
            now.valid(),
        ensures
            final(self).wf(),
            final(self)@ == old(self)@.starting(generation, now),
            r == (generation == old(self)@.generation),
    {
        if generation != self.generation {
            return false;
        }
        self.summary.status = SessionStatus::Starting;
        self.summary.pid = None;
        self.summary.exit_code = None;
        self.summary.updated_at = now;
        self.summary.last_activity_at = now;
        true
    }

    /// Notes that the process of this generation is being started, unless there is a
    /// later one. The result says whether the session has to be stored.
    pub fn mark_starting(&mut self, generation: u64) -> (r: bool)
        requires
            old(self).wf(),
        ensures
            final(self).wf(),
            exists|now: Timestamp|
                now.valid() && final(self)@ == #[trigger] old(self)@.starting(generation, now),
            r == (generation == old(self)@.generation),
    {
        self.mark_starting_at(generation, Timestamp::now())
    }

    pub fn mark_running_at(&mut self, generation: u64, pid: Option<u32>, now: Timestamp) -> (r:
        bool)
        requires
            old(self).wf(),
            now.valid(),
        ensures
            final(self).wf(),
            final(self)@ == old(self)@.running(generation, pid, now),
            r == (generation == old(self)@.generation),
    {
        if generation != self.generation {
            return false;
        }
        self.summary.status = SessionStatus::Running;
        self.summary.pid = pid;
        self.summary.exit_code = None;
        self.summary.updated_at = now;
        self.summary.last_activity_at = now;
        true
    }

    /// Notes that the process of this generation runs, unless there is a later one.
    /// The result says whether the session has to be stored.
    pub fn mark_running(&mut self, generation: u64, pid: Option<u32>) -> (r: bool)
        requires
            old(self).wf(),
        ensures
            final(self).wf(),
            exists|now: Timestamp|
                now.valid() && final(self)@ == #[trigger] old(self)@.running(generation, pid, now),
            r == (generation == old(self)@.generation),
    {
        self.mark_running_at(generation, pid, Timestamp::now())
    }

    pub fn mark_exited_at(&mut self, generation: u64, exit_code: u32, now: Timestamp) -> (r: bool)
        requires
            old(self).wf(),
            now.valid(),
        ensures
            final(self).wf(),
            final(self)@ == old(self)@.exited(generation, exit_code, now),
            r == (generation == old(self)@.generation),
    {
        if generation != self.generation {
            return false;
        }
        self.has_runtime = false;
        self.summary.status = SessionStatus::Exited;
        self.summary.pid = None;
        self.summary.exit_code = Some(exit_code);
        self.summary.updated_at = now;
        true
    }

    /// Notes that the process of this generation has ended, unless there is a later
    /// one. The result says whether the session has to be stored.
    pub fn mark_exited(&mut self, generation: u64, exit_code: u32) -> (r: bool)
        requires
            old(self).wf(),
        ensures
            final(self).wf(),
            exists|now: Timestamp|
                now.valid() && final(self)@ == #[trigger] old(self)@.exited(
                    generation,
                    exit_code,
                    now,
                ),
            r == (generation == old(self)@.generation),
    {
        self.mark_exited_at(generation, exit_code, Timestamp::now())
    }

    pub fn mark_stopped_at(&mut self, now: Timestamp)
        requires
            old(self).wf(),
            now.valid(),
        ensures
            final(self).wf(),
            final(self)@ == old(self)@.stopped(now),
    {
        self.has_runtime = false;
        self.summary.status = SessionStatus::Stopped;
        self.summary.pid = None;
        self.summary.exit_code = None;
        self.summary.updated_at = now;
        self.summary.last_activity_at = now;
    }

    /// Notes that the session is stopped; it then has to be stored.
    pub fn mark_stopped(&mut self)
        requires
            old(self).wf(),
        ensures
            final(self).wf(),
            exists|now: Timestamp|
                now.valid() && final(self)@ == #[trigger] old(self)@.stopped(now),
    {
        self.mark_stopped_at(Timestamp::now())
    }

    pub fn push_output_at(&mut self, generation: u64, data: Vec<u8>, now: Timestamp) -> (r: Option<
        PublishedOutput,
    >)
        requires
            old(self).wf(),
            now.valid(),
            encodable(data@.len()),
            old(self)@.takes_output(generation, data@) ==> old(self)@.next_seq < u64::MAX,
        ensures
            final(self).wf(),
            final(self)@ == old(self)@.with_output(generation, data@, now),
            match r {
                Some(out) => {
                    &&& old(self)@.takes_output(generation, data@)
                    &&& out.session_id == old(self)@.summary.id
                    &&& out.event@ == old(self)@.next_event(data@)
                    &&& out.max_bytes == old(self)@.history.max_bytes
                    &&& out.activity_at == now
                },
                None => !old(self)@.takes_output(generation, data@),
            },
    {
        if generation != self.generation || data.len() == 0 {
            return None;
        }
        let ghost before = self@;
        self.next_seq = self.next_seq + 1;
        let event = OutputEvent { seq: self.next_seq, data };
        let max_bytes: usize = self.history.max_bytes();
        proof {
            self.history.lemma_wf();
            lemma_pushed_encodable(before.history, event@);
        }
        self.history.push(event.clone());
        self.summary.updated_at = now;
        self.summary.last_activity_at = now;
        Some(PublishedOutput { session_id: self.summary.id, event, max_bytes, activity_at: now })
    }

    /// Takes in what the process of this generation has written, unless there is a
    /// later process or nothing was written. The result is the event that is to be
    /// stored and sent to the attached clients.
    pub fn push_output(&mut self, generation: u64, data: Vec<u8>) -> (r: Option<PublishedOutput>)
        requires
            old(self).wf(),
            encodable(data@.len()),
            old(self)@.takes_output(generation, data@) ==> old(self)@.next_seq < u64::MAX,
        ensures
            final(self).wf(),
            exists|now: Timestamp|
                now.valid() && final(self)@ == #[trigger] old(self)@.with_output(
                    generation,
                    data@,
                    now,
                ) && (r matches Some(out) ==> out.activity_at == now),
            match r {
                Some(out) => {
                    &&& old(self)@.takes_output(generation, data@)
                    &&& out.session_id == old(self)@.summary.id
                    &&& out.event@ == old(self)@.next_event(data@)
                    &&& out.max_bytes == old(self)@.history.max_bytes
                },
                None => !old(self)@.takes_output(generation, data@),
            },
    {
        self.push_output_at(generation, data, Timestamp::now())
    }
}

/// Events that fit in frames still do when one that fits comes in.
proof fn lemma_pushed_encodable(h: HistoryView, event: EventView)
    requires
        all_encodable(h.chunks),
        encodable(event.data.len()),
    ensures
        all_encodable(h.pushed(event).chunks),
{
    if h.max_bytes > 0 {
        let all = h.chunks.push(clip(event, h.max_bytes));
        crate::history::lemma_evict(all, h.max_bytes);
        assert(all_encodable(all));
    }
}

proof fn lemma_pushed_all_encodable(h: HistoryView, events: Seq<EventView>)
    requires
        all_encodable(h.chunks),
        all_encodable(events),
    ensures
        all_encodable(h.pushed_all(events).chunks),
    decreases events.len(),
{
    if events.len() > 0 {
        lemma_pushed_all_encodable(h, events.drop_last());
        lemma_pushed_encodable(h.pushed_all(events.drop_last()), events.last());
    }
}

} // verus!
