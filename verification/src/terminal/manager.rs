//! The session lifecycle manager.
//!
//! The manager owns one record per session. While a session is
//! connected, and only then, its record holds the terminal that the
//! session's output is written to and the input that waits to be sent.
//! The manager decides; whoever owns the transports carries out the
//! actions it hands back and reports what the transports do.

use vstd::prelude::*;
use crate::ambient::new_uuid;
use crate::terminal::renderer::{Snapshot, TerminalGrid, TerminalModel};
use crate::terminal::session::{
    transition, ErrorView, EventView, Session, SessionAction, SessionEvent, SessionView,
    StatusView, TerminalError, TerminalOutput,
};

verus! {

/// A session with what it owns while it is connected.
#[derive(Debug)]
pub struct Entry {
    pub session: Session,
    /// The terminal of a connected session.
    pub terminal: Option<TerminalGrid>,
    /// Input submitted and not yet handed to the transport, oldest first.
    pub pending_input: Vec<u8>,
}

/// Mathematical value of an [`Entry`].
pub struct EntryView {
    pub session: SessionView,
    pub terminal: Option<TerminalModel>,
    pub pending_input: Seq<u8>,
}

impl View for Entry {
    type V = EntryView;

    open spec fn view(&self) -> EntryView {
        EntryView {
            session: self.session@,
            terminal: match self.terminal {
                Some(t) => Some(t@),
                None => None,
            },
            pending_input: self.pending_input@,
        }
    }
}

impl EntryView {
    /// A session has a terminal exactly while it is connected; the
    /// terminal is well-formed and has the session's declared size; and
    /// input waits only for a connected session.
    pub open spec fn wf(self) -> bool {
        &&& self.terminal is Some <==> self.session.status is Connected
        &&& self.terminal matches Some(t) ==> {
            &&& t.wf()
            &&& t.screen.rows == self.session.rows
            &&& t.screen.cols == self.session.cols
        }
        &&& !(self.session.status is Connected) ==> self.pending_input.len() == 0
    }

    /// A newly created session: disconnected, with nothing attached.
    pub open spec fn fresh(session: SessionView) -> EntryView {
        EntryView { session: session, terminal: None, pending_input: Seq::empty() }
    }

    /// The record after a transition to `status`. A session that
    /// becomes connected gets a blank terminal of its declared size; in
    /// every other status it has none. No input survives a transition.
    pub open spec fn moved_to(self, status: StatusView) -> EntryView {
        EntryView {
            session: SessionView { status: status, ..self.session },
            terminal: if status is Connected {
                Some(TerminalModel::new(self.session.rows as int, self.session.cols as int))
            } else {
                None
            },
            pending_input: Seq::empty(),
        }
    }

    /// The record after input was submitted.
    pub open spec fn with_input(self, data: Seq<u8>) -> EntryView {
        EntryView { pending_input: self.pending_input + data, ..self }
    }

    /// The record after the waiting input was handed out.
    pub open spec fn drained(self) -> EntryView {
        EntryView { pending_input: Seq::empty(), ..self }
    }

    /// The record after a resize: the declared size changes, and so
    /// does the terminal of a connected session.
    pub open spec fn resized(self, rows: u16, cols: u16) -> EntryView {
        EntryView {
            session: SessionView { rows: rows, cols: cols, ..self.session },
            terminal: match self.terminal {
                Some(t) => Some(t.resize(rows as int, cols as int)),
                None => None,
            },
            ..self
        }
    }

    /// The record after output arrived from the transport.
    pub open spec fn with_output(self, data: Seq<u8>) -> EntryView {
        EntryView {
            terminal: match self.terminal {
                Some(t) => Some(t.write(data)),
                None => None,
            },
            ..self
        }
    }
}

impl Entry {
    /// Whether the record is well-formed.
    pub fn is_well_formed(&self) -> (ok: bool)
        ensures
            ok == self@.wf(),
    {
        let connected = self.session.status.is_connected();
        match &self.terminal {
            Some(t) => connected && t.is_well_formed() && t.rows == self.session.rows && t.cols
                == self.session.cols,
            None => !connected && self.pending_input.len() == 0,
        }
    }
}

/// Index of the first record whose session has identity `id`.
pub open spec fn find(entries: Seq<EntryView>, id: Seq<char>) -> Option<int>
    decreases entries.len(),
{
    if entries.len() == 0 {
        None
    } else if entries[0].session.id == id {
        Some(0)
    } else {
        match find(entries.drop_first(), id) {
            Some(i) => Some(i + 1),
            None => None,
        }
    }
}

/// `find` gives the first match.
pub proof fn lemma_find_first(entries: Seq<EntryView>, id: Seq<char>, index: int)
    requires
        0 <= index < entries.len(),
        entries[index].session.id == id,
        forall|j: int| 0 <= j < index ==> entries[j].session.id != id,
    ensures
        find(entries, id) == Some(index),
    decreases entries.len(),
{
    if index > 0 {
        let rest = entries.drop_first();
        assert forall|j: int| 0 <= j < index - 1 implies rest[j].session.id != id by {
            assert(rest[j] == entries[j + 1]);
        }
        lemma_find_first(rest, id, index - 1);
    }
}

/// `find` gives nothing only where nothing matches.
pub proof fn lemma_find_none(entries: Seq<EntryView>, id: Seq<char>)
    requires
        forall|j: int| 0 <= j < entries.len() ==> entries[j].session.id != id,
    ensures
        find(entries, id) is None,
    decreases entries.len(),
{
    if entries.len() > 0 {
        let rest = entries.drop_first();
        assert forall|j: int| 0 <= j < rest.len() implies rest[j].session.id != id by {
            assert(rest[j] == entries[j + 1]);
        }
        lemma_find_none(rest, id);
    }
}

/// What `find` gives is a match, and the first one.
pub proof fn lemma_find_some(entries: Seq<EntryView>, id: Seq<char>)
    ensures
        find(entries, id) matches Some(i) ==> {
            &&& 0 <= i < entries.len()
            &&& entries[i].session.id == id
            &&& forall|j: int| 0 <= j < i ==> entries[j].session.id != id
        },
        find(entries, id) is None ==> forall|j: int|
            0 <= j < entries.len() ==> entries[j].session.id != id,
    decreases entries.len(),
{
    if entries.len() > 0 && entries[0].session.id != id {
        let rest = entries.drop_first();
        lemma_find_some(rest, id);
        match find(rest, id) {
            Some(i) => {
                assert(rest[i] == entries[i + 1]);
                assert forall|j: int| 0 <= j < i + 1 implies entries[j].session.id != id by {
                    if j > 0 {
                        assert(rest[j - 1] == entries[j]);
                    }
                }
            },
            None => {
                assert forall|j: int| 0 <= j < entries.len() implies entries[j].session.id
                    != id by {
                    if j > 0 {
                        assert(rest[j - 1] == entries[j]);
                    }
                }
            },
        }
    }
}

/// The records of a manager as mathematical values, in order.
pub open spec fn entries_view(entries: Seq<Entry>) -> Seq<EntryView> {
    Seq::new(entries.len(), |i: int| entries[i]@)
}

/// Every record is well-formed.
pub open spec fn all_wf(entries: Seq<EntryView>) -> bool {
    forall|i: int| 0 <= i < entries.len() ==> (#[trigger] entries[i]).wf()
}

/// The records after `event` reached the session `id`, and the action
/// to carry out. An unknown identity and a forbidden event change
/// nothing.
pub open spec fn dispatch(entries: Seq<EntryView>, id: Seq<char>, event: EventView) -> (
    Seq<EntryView>,
    Result<SessionAction, ErrorView>,
) {
    match find(entries, id) {
        None => (entries, Err(ErrorView::SessionNotFound)),
        Some(i) => match transition(entries[i].session.status, event) {
            None => (entries, Err(ErrorView::InvalidState)),
            Some((status, action)) => (entries.update(i, entries[i].moved_to(status)), Ok(action)),
        },
    }
}

/// The records after input was submitted to the session `id`. Input
/// is accepted only while the session is connected.
pub open spec fn submit(entries: Seq<EntryView>, id: Seq<char>, data: Seq<u8>) -> (
    Seq<EntryView>,
    Result<(), ErrorView>,
) {
    match find(entries, id) {
        None => (entries, Err(ErrorView::SessionNotFound)),
        Some(i) => if entries[i].session.status is Connected {
            (entries.update(i, entries[i].with_input(data)), Ok(()))
        } else {
            (entries, Err(ErrorView::InvalidState))
        },
    }
}

/// The records after the session `id` was resized.
pub open spec fn resize(entries: Seq<EntryView>, id: Seq<char>, rows: u16, cols: u16) -> (
    Seq<EntryView>,
    Result<(), ErrorView>,
) {
    match find(entries, id) {
        None => (entries, Err(ErrorView::SessionNotFound)),
        Some(i) => (entries.update(i, entries[i].resized(rows, cols)), Ok(())),
    }
}

/// The records after output of the session `id` arrived. Output is
/// accepted only while the session is connected.
pub open spec fn receive(entries: Seq<EntryView>, id: Seq<char>, data: Seq<u8>) -> (
    Seq<EntryView>,
    Result<(), ErrorView>,
) {
    match find(entries, id) {
        None => (entries, Err(ErrorView::SessionNotFound)),
        Some(i) => if entries[i].session.status is Connected {
            (entries.update(i, entries[i].with_output(data)), Ok(()))
        } else {
            (entries, Err(ErrorView::InvalidState))
        },
    }
}

/// The records after the waiting input of the session `id` was handed
/// out, and that input.
pub open spec fn drain(entries: Seq<EntryView>, id: Seq<char>) -> (
    Seq<EntryView>,
    Result<Seq<u8>, ErrorView>,
) {
    match find(entries, id) {
        None => (entries, Err(ErrorView::SessionNotFound)),
        Some(i) => if entries[i].session.status is Connected {
            (entries.update(i, entries[i].drained()), Ok(entries[i].pending_input))
        } else {
            (entries, Err(ErrorView::InvalidState))
        },
    }
}

/// The records without the session `id`.
pub open spec fn delete(entries: Seq<EntryView>, id: Seq<char>) -> (
    Seq<EntryView>,
    Result<(), ErrorView>,
) {
    match find(entries, id) {
        None => (entries, Err(ErrorView::SessionNotFound)),
        Some(i) => (entries.remove(i), Ok(())),
    }
}

/// The sessions of the records, in order.
pub open spec fn sessions_of(entries: Seq<EntryView>) -> Seq<SessionView> {
    Seq::new(entries.len(), |i: int| entries[i].session)
}

/// The sessions of a list as mathematical values, in order.
pub open spec fn sessions_view(sessions: Seq<Session>) -> Seq<SessionView> {
    Seq::new(sessions.len(), |i: int| sessions[i]@)
}

/// The session lifecycle manager: every session, in order of creation.
#[derive(Debug)]
pub struct SessionManager {
    pub entries: Vec<Entry>,
}

impl View for SessionManager {
    type V = Seq<EntryView>;

    open spec fn view(&self) -> Seq<EntryView> {
        entries_view(self.entries@)
    }
}

impl SessionManager {
    /// Every record of the manager is well-formed.
    pub open spec fn wf(&self) -> bool {
        all_wf(self@)
    }

    /// Whether every record of the manager is well-formed.
    pub fn is_well_formed(&self) -> (ok: bool)
        ensures
            ok == self.wf(),
    {
        let mut i: usize = 0;
        while i < self.entries.len()
            invariant
                i <= self.entries@.len(),
                forall|k: int| 0 <= k < i ==> (#[trigger] self@[k]).wf(),
            decreases self.entries@.len() - i,
        {
            if !self.entries[i].is_well_formed() {
                assert(!self@[i as int].wf());
                return false;
            }
            i = i + 1;
        }
        true
    }

    /// A manager without sessions.
    pub fn new() -> (manager: SessionManager)
        ensures
            manager.wf(),
            manager@ == Seq::<EntryView>::empty(),
    {
        let manager = SessionManager { entries: Vec::new() };
        assert(manager@ =~= Seq::<EntryView>::empty());
        manager
    }

    /// Index of the first session with identity `id`.
    pub fn position(&self, id: &String) -> (index: Option<usize>)
        ensures
            match index {
                Some(i) => find(self@, id@) == Some(i as int) && i < self.entries@.len(),
                None => find(self@, id@) is None,
            },
    {
        let mut i: usize = 0;
        while i < self.entries.len()
            invariant
                i <= self.entries@.len(),
                forall|j: int| 0 <= j < i ==> self@[j].session.id != id@,
            decreases self.entries@.len() - i,
        {
            if self.entries[i].session.id == *id {
                proof {
                    lemma_find_first(self@, id@, i as int);
                }
                return Some(i);
            }
            i = i + 1;
        }
        proof {
            lemma_find_none(self@, id@);
        }
        None
    }

    /// Adds a session with the given identity: disconnected, at the
    /// default size, after every session that is already there.
    pub fn add_session(
        &mut self,
        id: String,
        name: String,
        host: String,
        port: u16,
        username: String,
    )
        requires
            old(self).wf(),
        ensures
            final(self).wf(),
            final(self)@ == old(self)@.push(
                EntryView::fresh(SessionView::fresh(id@, name@, host@, port, username@)),
            ),
    {
        let entry = Entry {
            session: Session::new(id, name, host, port, username),
            terminal: None,
            pending_input: Vec::new(),
        };
        self.entries.push(entry);
        assert(self@ =~= old(self)@.push(
            EntryView::fresh(SessionView::fresh(id@, name@, host@, port, username@)),
        ));
    }

    /// A copy of every session, in order of creation.
    pub fn sessions(&self) -> (list: Vec<Session>)
        ensures
            list@.len() == self@.len(),
            sessions_view(list@) == sessions_of(self@),
    {
        let mut list: Vec<Session> = Vec::new();
        let mut i: usize = 0;
        while i < self.entries.len()
            invariant
                i <= self.entries@.len(),
                list@.len() == i,
                forall|j: int| 0 <= j < i ==> (#[trigger] list@[j])@ == self.entries@[j].session@,
            decreases self.entries@.len() - i,
        {
            list.push(self.entries[i].session.clone());
            i = i + 1;
        }
        assert(sessions_view(list@) =~= sessions_of(self@));
        list
    }

    /// Hands `event` to the session `id`. Where the session's status
    /// allows the event, the session moves on and the action to carry
    /// out is returned; a session that becomes connected gets a fresh
    /// terminal, and one that leaves the connected status loses its
    /// terminal and its waiting input. Otherwise nothing changes.
    pub fn handle_event(&mut self, id: &String, event: SessionEvent) -> (result: Result<
        SessionAction,
        TerminalError,
    >)
        requires
            old(self).wf(),
        ensures
            final(self).wf(),
            final(self)@ == dispatch(old(self)@, id@, event@).0,
            error_view(result) == dispatch(old(self)@, id@, event@).1,
    {
        match self.position(id) {
            None => Err(TerminalError::SessionNotFound),
            Some(i) => {
                match self.entries[i].session.status.on_event(event) {
                    Err(e) => Err(e),
                    Ok((status, action)) => {
                        let ghost before = self@[i as int];
                        let rows = self.entries[i].session.rows;
                        let cols = self.entries[i].session.cols;
                        let terminal = if status.is_connected() {
                            Some(TerminalGrid::new(rows, cols))
                        } else {
                            None
                        };
                        let ghost moved = before.moved_to(status@);
                        self.entries[i].session.status = status;
                        self.entries[i].terminal = terminal;
                        self.entries[i].pending_input = Vec::new();
                        assert(self@[i as int] == moved);
                        assert(self@ =~= old(self)@.update(i as int, moved));
                        assert(moved.wf());
                        Ok(action)
                    },
                }
            },
        }
    }

    /// Queues `data` as input of the session `id`, behind what already
    /// waits. Input is accepted only while the session is connected.
    pub fn submit_input(&mut self, id: &String, data: &Vec<u8>) -> (result: Result<
        (),
        TerminalError,
    >)
        requires
            old(self).wf(),
        ensures
            final(self).wf(),
            final(self)@ == submit(old(self)@, id@, data@).0,
            error_view(result) == submit(old(self)@, id@, data@).1,
    {
        match self.position(id) {
            None => Err(TerminalError::SessionNotFound),
            Some(i) => {
                if self.entries[i].session.status.is_connected() {
                    let ghost before = self@[i as int];
                    let mut k: usize = 0;
                    while k < data.len()
                        invariant
                            k <= data@.len(),
                            i < self.entries@.len(),
                            self.entries@.len() == old(self).entries@.len(),
                            forall|j: int|
                                0 <= j < self.entries@.len() && j != i ==> self.entries@[j]
                                    == old(self).entries@[j],
                            self.entries@[i as int].session == old(self).entries@[i as int].session,
                            self.entries@[i as int].terminal == old(self).entries@[i as int].terminal,
                            self.entries@[i as int].pending_input@ == before.pending_input
                                + data@.take(k as int),
                        decreases data@.len() - k,
                    {
                        self.entries[i].pending_input.push(data[k]);
                        assert(data@.take(k + 1) =~= data@.take(k as int).push(data@[k as int]));
                        assert(before.pending_input + data@.take(k + 1) =~= (before.pending_input
                            + data@.take(k as int)).push(data@[k as int]));
                        k = k + 1;
                    }
                    assert(data@.take(k as int) =~= data@);
                    assert(self@[i as int] == before.with_input(data@));
                    assert(self@ =~= old(self)@.update(i as int, before.with_input(data@)));
                    Ok(())
                } else {
                    Err(TerminalError::InvalidState)
                }
            },
        }
    }

    /// Hands out the input that waits for the session `id`, oldest
    /// first, and leaves none waiting.
    pub fn take_input(&mut self, id: &String) -> (result: Result<Vec<u8>, TerminalError>)
        requires
            old(self).wf(),
        ensures
            final(self).wf(),
            final(self)@ == drain(old(self)@, id@).0,
            bytes_view(result) == drain(old(self)@, id@).1,
    {
        match self.position(id) {
            None => Err(TerminalError::SessionNotFound),
            Some(i) => {
                if self.entries[i].session.status.is_connected() {
                    let ghost before = self@[i as int];
                    let mut taken: Vec<u8> = Vec::new();
                    std::mem::swap(&mut self.entries[i].pending_input, &mut taken);
                    assert(self@[i as int] == before.drained());
                    assert(self@ =~= old(self)@.update(i as int, before.drained()));
                    Ok(taken)
                } else {
                    Err(TerminalError::InvalidState)
                }
            },
        }
    }

    /// Declares a new size for the session `id`. The size is recorded
    /// in every status; the terminal of a connected session is resized
    /// with it.
    pub fn resize(&mut self, id: &String, rows: u16, cols: u16) -> (result: Result<
        (),
        TerminalError,
    >)
        requires
            old(self).wf(),
        ensures
            final(self).wf(),
            final(self)@ == resize(old(self)@, id@, rows, cols).0,
            error_view(result) == resize(old(self)@, id@, rows, cols).1,
    {
        match self.position(id) {
            None => Err(TerminalError::SessionNotFound),
            Some(i) => {
                let ghost before = self@[i as int];
                assert(before.wf());
                self.entries[i].session.rows = rows;
                self.entries[i].session.cols = cols;
                match &mut self.entries[i].terminal {
                    Some(t) => {
                        t.resize(rows, cols);
                    },
                    None => {},
                }
                assert(self@[i as int] == before.resized(rows, cols));
                assert(self@ =~= old(self)@.update(i as int, before.resized(rows, cols)));
                Ok(())
            },
        }
    }

    /// Writes output that arrived from the transport of the session
    /// `id` to the session's terminal, and hands the output back with
    /// the session's identity and size, for whoever displays it. Output
    /// is accepted only while the session is connected.
    pub fn receive_output(&mut self, id: &String, data: Vec<u8>) -> (result: Result<
        TerminalOutput,
        TerminalError,
    >)
        requires
            old(self).wf(),
        ensures
            final(self).wf(),
            final(self)@ == receive(old(self)@, id@, data@).0,
            match receive(old(self)@, id@, data@).1 {
                Ok(_) => result matches Ok(output) && {
                    let i = find(old(self)@, id@)->Some_0;
                    &&& output.session_id@ == id@
                    &&& output.data@ == data@
                    &&& output.rows == old(self)@[i].session.rows
                    &&& output.cols == old(self)@[i].session.cols
                },
                Err(e) => result matches Err(error) && error@ == e,
            },
    {
        match self.position(id) {
            None => Err(TerminalError::SessionNotFound),
            Some(i) => {
                let ghost before = self@[i as int];
                assert(before.wf());
                let rows = self.entries[i].session.rows;
                let cols = self.entries[i].session.cols;
                match &mut self.entries[i].terminal {
                    Some(t) => {
                        proof {
                            crate::terminal::theorems::theorem_write_wf(t@, data@);
                        }
                        t.write(data.as_slice());
                        assert(self@[i as int] == before.with_output(data@));
                        assert(self@ =~= old(self)@.update(i as int, before.with_output(data@)));
                        Ok(TerminalOutput { session_id: id.clone(), data, rows, cols })
                    },
                    None => {
                        assert(self@ =~= old(self)@);
                        Err(TerminalError::InvalidState)
                    },
                }
            },
        }
    }

    /// A copy of what the terminal of the session `id` shows. Only a
    /// connected session has a terminal.
    pub fn snapshot(&self, id: &String) -> (result: Result<Snapshot, TerminalError>)
        requires
            self.wf(),
        ensures
            match find(self@, id@) {
                None => result matches Err(e) && e@ == ErrorView::SessionNotFound,
                Some(i) => match self@[i].terminal {
                    None => result matches Err(e) && e@ == ErrorView::InvalidState,
                    Some(t) => result matches Ok(snap) && snap.shows(t.screen),
                },
            },
    {
        match self.position(id) {
            None => Err(TerminalError::SessionNotFound),
            Some(i) => {
                assert(self@[i as int].wf());
                match &self.entries[i].terminal {
                    Some(t) => Ok(t.snapshot()),
                    None => Err(TerminalError::InvalidState),
                }
            },
        }
    }

    /// Deletes the session `id`, whatever its status, with all it owns.
    pub fn delete_session(&mut self, id: &String) -> (result: Result<(), TerminalError>)
        requires
            old(self).wf(),
        ensures
            final(self).wf(),
            final(self)@ == delete(old(self)@, id@).0,
            error_view(result) == delete(old(self)@, id@).1,
    {
        match self.position(id) {
            None => Err(TerminalError::SessionNotFound),
            Some(i) => {
                self.entries.remove(i);
                assert(self@ =~= old(self)@.remove(i as int));
                Ok(())
            },
        }
    }
}

/// The result with its error as a mathematical value.
pub open spec fn error_view<T>(result: Result<T, TerminalError>) -> Result<T, ErrorView> {
    match result {
        Ok(v) => Ok(v),
        Err(e) => Err(e@),
    }
}

/// The result with its bytes and its error as mathematical values.
pub open spec fn bytes_view(result: Result<Vec<u8>, TerminalError>) -> Result<Seq<u8>, ErrorView> {
    match result {
        Ok(v) => Ok(v@),
        Err(e) => Err(e@),
    }
}

/// The result without its action.
pub open spec fn without_action(result: Result<SessionAction, ErrorView>) -> Result<(), ErrorView> {
    match result {
        Ok(_) => Ok(()),
        Err(e) => Err(e),
    }
}

/// Creates a session under a new random identity and returns the
/// identity. The session starts disconnected, at 24 rows by 80 columns.
pub fn create_session(
    name: String,
    host: String,
    port: u16,
    username: String,
    state: &mut SessionManager,
) -> (result: Result<String, TerminalError>)
    requires
        old(state).wf(),
    ensures
        final(state).wf(),
        result matches Ok(id) && id@.len() == 36 && final(state)@ == old(state)@.push(
            EntryView::fresh(SessionView::fresh(id@, name@, host@, port, username@)),
        ),
{
    let id = new_uuid();
    state.add_session(id.clone(), name, host, port, username);
    Ok(id)
}

/// A copy of every session, in order of creation.
pub fn get_sessions(state: &SessionManager) -> (list: Vec<Session>)
    ensures
        list@.len() == state@.len(),
        sessions_view(list@) == sessions_of(state@),
{
    state.sessions()
}

/// Asks to connect the session. The request is accepted from the
/// disconnected and the error status and moves the session to
/// connecting; the caller then has to open the transport and report
/// how that went. In every other status it is rejected as an invalid
/// state, and nothing changes.
pub fn connect_session(session_id: String, state: &mut SessionManager) -> (result: Result<
    (),
    TerminalError,
>)
    requires
        old(state).wf(),
    ensures
        final(state).wf(),
        final(state)@ == dispatch(old(state)@, session_id@, EventView::Connect).0,
        error_view(result) == without_action(
            dispatch(old(state)@, session_id@, EventView::Connect).1,
        ),
{
    match state.handle_event(&session_id, SessionEvent::Connect) {
        Ok(_) => Ok(()),
        Err(e) => Err(e),
    }
}

/// Asks to disconnect the session. The request is accepted in the
/// connected status: the session becomes disconnected and its terminal
/// and waiting input are discarded; the caller then has to close the
/// transport. In every other status it is rejected as an invalid state,
/// and nothing changes.
pub fn disconnect_session(session_id: String, state: &mut SessionManager) -> (result: Result<
    (),
    TerminalError,
>)
    requires
        old(state).wf(),
    ensures
        final(state).wf(),
        final(state)@ == dispatch(old(state)@, session_id@, EventView::Disconnect).0,
        error_view(result) == without_action(
            dispatch(old(state)@, session_id@, EventView::Disconnect).1,
        ),
{
    match state.handle_event(&session_id, SessionEvent::Disconnect) {
        Ok(_) => Ok(()),
        Err(e) => Err(e),
    }
}

/// Submits input to the session. While the session is connected the
/// bytes are queued for its transport behind those already waiting;
/// otherwise the call is rejected as an invalid state and has no
/// effect.
pub fn send_input(session_id: String, data: Vec<u8>, state: &mut SessionManager) -> (result:
    Result<(), TerminalError>)
    requires
        old(state).wf(),
    ensures
        final(state).wf(),
        final(state)@ == submit(old(state)@, session_id@, data@).0,
        error_view(result) == submit(old(state)@, session_id@, data@).1,
{
    state.submit_input(&session_id, &data)
}

/// Declares a new size for the session. The size is recorded in every
/// status, and the terminal of a connected session is resized with it.
pub fn resize_pty(session_id: String, rows: u16, cols: u16, state: &mut SessionManager) -> (result:
    Result<(), TerminalError>)
    requires
        old(state).wf(),
    ensures
        final(state).wf(),
        final(state)@ == resize(old(state)@, session_id@, rows, cols).0,
        error_view(result) == resize(old(state)@, session_id@, rows, cols).1,
{
    state.resize(&session_id, rows, cols)
}

// ---------------------------------------------------------------------
// Theorems
// ---------------------------------------------------------------------

/// Two lists of records that agree on every identity find the same
/// session under every identity.
pub proof fn lemma_find_by_identity(first: Seq<EntryView>, second: Seq<EntryView>, id: Seq<char>)
    requires
        first.len() == second.len(),
        forall|j: int| 0 <= j < first.len() ==> first[j].session.id == second[j].session.id,
    ensures
        find(first, id) == find(second, id),
{
    lemma_find_some(first, id);
    lemma_find_some(second, id);
    match find(first, id) {
        Some(i) => {
            lemma_find_first(second, id, i);
        },
        None => {
            lemma_find_none(second, id);
        },
    }
}

/// A disconnect request on a session that is not connected is rejected
/// as an invalid state and changes nothing.
pub proof fn theorem_disconnect_rejected(entries: Seq<EntryView>, id: Seq<char>)
    requires
        find(entries, id) matches Some(i) && !(entries[i].session.status is Connected),
    ensures
        dispatch(entries, id, EventView::Disconnect) == (
            entries,
            Err::<SessionAction, ErrorView>(ErrorView::InvalidState),
        ),
{
}

/// A connect request that follows an accepted connect request on the
/// same session is rejected as an invalid state and changes nothing:
/// requests are never queued.
pub proof fn theorem_second_connect_rejected(entries: Seq<EntryView>, id: Seq<char>)
    requires
        dispatch(entries, id, EventView::Connect).1 is Ok,
    ensures
        dispatch(dispatch(entries, id, EventView::Connect).0, id, EventView::Connect) == (
            dispatch(entries, id, EventView::Connect).0,
            Err::<SessionAction, ErrorView>(ErrorView::InvalidState),
        ),
{
    lemma_find_some(entries, id);
    let i = find(entries, id)->Some_0;
    let after = dispatch(entries, id, EventView::Connect).0;
    assert(after == entries.update(i, entries[i].moved_to(StatusView::Connecting)));
    lemma_find_by_identity(entries, after, id);
}

/// Input submitted to a connected session waits in the order in which
/// it was submitted, and a resize between two submissions, of this
/// session or of another, neither drops nor reorders it: after
/// submitting `first`, resizing and submitting `second`, what is handed
/// to the transport is what waited before, then `first`, then `second`.
pub proof fn theorem_input_keeps_order(
    entries: Seq<EntryView>,
    id: Seq<char>,
    first: Seq<u8>,
    second: Seq<u8>,
    resized: Seq<char>,
    rows: u16,
    cols: u16,
)
    requires
        find(entries, id) matches Some(i) && entries[i].session.status is Connected,
    ensures
        ({
            let i = find(entries, id)->Some_0;
            let one = submit(entries, id, first);
            let two = resize(one.0, resized, rows, cols);
            let three = submit(two.0, id, second);
            &&& one.1 is Ok
            &&& three.1 is Ok
            &&& drain(three.0, id).1 == Ok::<Seq<u8>, ErrorView>(
                entries[i].pending_input + first + second,
            )
        }),
{
    lemma_find_some(entries, id);
    let i = find(entries, id)->Some_0;
    let one = submit(entries, id, first);
    assert(one.0 == entries.update(i, entries[i].with_input(first)));
    lemma_find_by_identity(entries, one.0, id);
    lemma_find_by_identity(entries, one.0, resized);
    let two = resize(one.0, resized, rows, cols);
    lemma_find_some(one.0, resized);
    assert(two.0.len() == entries.len());
    assert forall|j: int| 0 <= j < entries.len() implies entries[j].session.id
        == two.0[j].session.id by {}
    lemma_find_by_identity(entries, two.0, id);
    assert(two.0[i].pending_input == entries[i].pending_input + first);
    assert(two.0[i].session.status is Connected);
    let three = submit(two.0, id, second);
    assert(three.0 == two.0.update(i, two.0[i].with_input(second)));
    lemma_find_by_identity(two.0, three.0, id);
    assert(three.0[i].pending_input =~= entries[i].pending_input + first + second);
}

} // verus!
