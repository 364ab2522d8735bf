//! The terminal session bridge.
//!
//! A session tunnels a local pseudo-terminal over a transport of its own. It
//! moves through four states: `Resolving` (which address?), `Connecting`,
//! `Streaming` and `Closed`. The caller owns the transport and the
//! pseudo-terminal; it reports what happened as a [`SessionEvent`] and does
//! what the [`SessionAction`] says. Either side ending ends the session:
//! whichever is first, the other is torn down.

use vstd::prelude::*;

verus! {

/// The address of a session's transport: the base address, then `&id=` and
/// the session's identifier. The base address ends in a query, so the
/// identifier is one more parameter of it.
pub open spec fn pty_ws_link(ws_terminal_url: Seq<char>, id: Seq<char>) -> Seq<char> {
    ws_terminal_url + "&id="@ + id
}

/// Joins the base address and an identifier.
fn join_link(ws_terminal_url: &str, id: &str) -> (url: String)
    ensures
        url@ == pty_ws_link(ws_terminal_url@, id@),
{
    String::from_str(ws_terminal_url).concat("&id=").concat(id)
}

/// Builds the address of a session's transport from the identifier found in
/// the terminal message. `None` stands for a message that holds none.
pub fn get_pty_ws_link(id: Option<&str>, ws_terminal_url: &str) -> (link: Result<
    String,
    SessionError,
>)
    ensures
        id matches Some(found) ==> link matches Ok(url) && url@ == pty_ws_link(
            ws_terminal_url@,
            found@,
        ),
        id is None ==> link == Err::<String, SessionError>(SessionError::Link),
{
    match id {
        Some(found) => Ok(join_link(ws_terminal_url, found)),
        None => Err(SessionError::Link),
    }
}

/// Where a session stands.
#[derive(Clone, Copy, Debug, PartialEq, Eq, Structural)]
pub enum SessionState {
    Resolving,
    Connecting,
    Streaming,
    Closed,
}

/// Why a session ended, where it did not end by one side closing.
#[derive(Clone, Copy, Debug, PartialEq, Eq, Structural)]
pub enum SessionError {
    /// The terminal message held no session identifier.
    Link,
    /// The transport could not be opened.
    Connect,
    /// The pseudo-terminal could not be started.
    Spawn,
    /// Reading from or writing to the transport failed.
    Transport,
    /// Reading from or writing to the pseudo-terminal failed.
    Pty,
}

/// What the caller reports to a session.
#[derive(Clone, Debug, PartialEq, Eq)]
pub enum SessionEvent {
    /// The terminal message was decoded: the session's identifier, or `None`
    /// where the message holds none.
    Request(Option<String>),
    /// The transport is open.
    Connected,
    /// The transport could not be opened.
    ConnectFailed,
    /// The pseudo-terminal runs.
    PtyStarted,
    /// The pseudo-terminal could not be started.
    PtyFailed,
    /// The remote side sent input for the terminal.
    RemoteInput(Vec<u8>),
    /// The remote side sent a resize control frame.
    RemoteResize { cols: u16, rows: u16 },
    /// The remote side closed the transport.
    RemoteClosed,
    /// The transport failed.
    RemoteError,
    /// The terminal produced output.
    PtyOutput(Vec<u8>),
    /// The terminal's process exited.
    PtyExited,
    /// The pseudo-terminal failed.
    PtyError,
}

/// What a session asks its caller to do.
#[derive(Clone, Debug, PartialEq, Eq)]
pub enum SessionAction {
    /// Nothing: the event does not concern the session in its state.
    Ignore,
    /// Open the transport.
    Connect { url: String, tls: bool, ignore_unsafe_cert: bool },
    /// Start the pseudo-terminal with this command.
    SpawnPty { entry: String },
    /// Start forwarding in both directions.
    StartPumps,
    /// Write these bytes to the terminal's input.
    WritePty(Vec<u8>),
    /// Set the terminal's window size.
    ResizePty { cols: u16, rows: u16 },
    /// Send these bytes as one frame on the transport.
    SendRemote(Vec<u8>),
    /// The session is over: tear down what is still there, and log the error
    /// if there is one.
    Close { kill_pty: bool, close_transport: bool, error: Option<SessionError> },
}

/// The mathematical value of a [`SessionAction`].
pub enum SessionActionView {
    Ignore,
    Connect { url: Seq<char>, tls: bool, ignore_unsafe_cert: bool },
    SpawnPty { entry: Seq<char> },
    StartPumps,
    WritePty(Seq<u8>),
    ResizePty { cols: u16, rows: u16 },
    SendRemote(Seq<u8>),
    Close { kill_pty: bool, close_transport: bool, error: Option<SessionError> },
}

impl View for SessionAction {
    type V = SessionActionView;

    open spec fn view(&self) -> SessionActionView {
        match self {
            SessionAction::Ignore => SessionActionView::Ignore,
            SessionAction::Connect { url, tls, ignore_unsafe_cert } => SessionActionView::Connect {
                url: url@,
                tls: *tls,
                ignore_unsafe_cert: *ignore_unsafe_cert,
            },
            SessionAction::SpawnPty { entry } => SessionActionView::SpawnPty { entry: entry@ },
            SessionAction::StartPumps => SessionActionView::StartPumps,
            SessionAction::WritePty(bytes) => SessionActionView::WritePty(bytes@),
            SessionAction::ResizePty { cols, rows } => SessionActionView::ResizePty {
                cols: *cols,
                rows: *rows,
            },
            SessionAction::SendRemote(bytes) => SessionActionView::SendRemote(bytes@),
            SessionAction::Close { kill_pty, close_transport, error } => SessionActionView::Close {
                kill_pty: *kill_pty,
                close_transport: *close_transport,
                error: *error,
            },
        }
    }
}

/// One terminal session.
#[derive(Debug)]
pub struct Session {
    state: SessionState,
    pty_alive: bool,
    ws_terminal_url: String,
    terminal_entry: String,
    tls: bool,
    ignore_unsafe_cert: bool,
}

/// The mathematical value of a [`Session`].
pub struct SessionView {
    pub state: SessionState,
    /// Whether the session holds a running pseudo-terminal.
    pub pty_alive: bool,
    pub ws_terminal_url: Seq<char>,
    pub terminal_entry: Seq<char>,
    pub tls: bool,
    pub ignore_unsafe_cert: bool,
}

impl SessionView {
    /// Whether the session holds an open transport: while `Streaming`, and
    /// in no other state.
    pub open spec fn transport_open(self) -> bool {
        self.state == SessionState::Streaming
    }

    /// A pseudo-terminal runs only while the session is `Streaming`.
    pub open spec fn wf(self) -> bool {
        self.pty_alive ==> self.state == SessionState::Streaming
    }

    /// The session after it closed: it holds nothing any more.
    pub open spec fn after_close(self) -> SessionView {
        SessionView { state: SessionState::Closed, pty_alive: false, ..self }
    }

    /// The end of a session: the state after it, and the action that tears
    /// down what is left of the pseudo-terminal and the transport.
    pub open spec fn end(
        self,
        kill_pty: bool,
        close_transport: bool,
        error: Option<SessionError>,
    ) -> (SessionView, SessionActionView) {
        (self.after_close(), SessionActionView::Close { kill_pty, close_transport, error })
    }

    /// The transition function: the state after `event`, and what the caller
    /// is to do.
    pub open spec fn next(self, event: SessionEvent) -> (SessionView, SessionActionView) {
        match self.state {
            SessionState::Resolving => match event {
                SessionEvent::Request(Some(id)) => (
                    SessionView { state: SessionState::Connecting, ..self },
                    SessionActionView::Connect {
                        url: pty_ws_link(self.ws_terminal_url, id@),
                        tls: self.tls,
                        ignore_unsafe_cert: self.ignore_unsafe_cert,
                    },
                ),
                SessionEvent::Request(None) => self.end(false, false, Some(SessionError::Link)),
                _ => (self, SessionActionView::Ignore),
            },
            SessionState::Connecting => match event {
                SessionEvent::Connected => (
                    SessionView { state: SessionState::Streaming, ..self },
                    SessionActionView::SpawnPty { entry: self.terminal_entry },
                ),
                SessionEvent::ConnectFailed => self.end(
                    false,
                    false,
                    Some(SessionError::Connect),
                ),
                _ => (self, SessionActionView::Ignore),
            },
            SessionState::Streaming => match event {
                SessionEvent::RemoteClosed => self.end(self.pty_alive, false, None),
                SessionEvent::RemoteError => self.end(
                    self.pty_alive,
                    true,
                    Some(SessionError::Transport),
                ),
                SessionEvent::PtyStarted => if self.pty_alive {
                    (self, SessionActionView::Ignore)
                } else {
                    (SessionView { pty_alive: true, ..self }, SessionActionView::StartPumps)
                },
                SessionEvent::PtyFailed => if self.pty_alive {
                    (self, SessionActionView::Ignore)
                } else {
                    self.end(false, true, Some(SessionError::Spawn))
                },
                SessionEvent::RemoteInput(bytes) => if self.pty_alive {
                    (self, SessionActionView::WritePty(bytes@))
                } else {
                    (self, SessionActionView::Ignore)
                },
                SessionEvent::RemoteResize { cols, rows } => if self.pty_alive {
                    (self, SessionActionView::ResizePty { cols, rows })
                } else {
                    (self, SessionActionView::Ignore)
                },
                SessionEvent::PtyOutput(bytes) => if self.pty_alive {
                    (self, SessionActionView::SendRemote(bytes@))
                } else {
                    (self, SessionActionView::Ignore)
                },
                SessionEvent::PtyExited => if self.pty_alive {
                    self.end(false, true, None)
                } else {
                    (self, SessionActionView::Ignore)
                },
                SessionEvent::PtyError => if self.pty_alive {
                    self.end(true, true, Some(SessionError::Pty))
                } else {
                    (self, SessionActionView::Ignore)
                },
                _ => (self, SessionActionView::Ignore),
            },
            SessionState::Closed => (self, SessionActionView::Ignore),
        }
    }
}

impl View for Session {
    type V = SessionView;

    closed spec fn view(&self) -> SessionView {
        SessionView {
            state: self.state,
            pty_alive: self.pty_alive,
            ws_terminal_url: self.ws_terminal_url@,
            terminal_entry: self.terminal_entry@,
            tls: self.tls,
            ignore_unsafe_cert: self.ignore_unsafe_cert,
        }
    }
}

impl Session {
    #[verifier::type_invariant]
    spec fn well_formed(self) -> bool {
        self@.wf()
    }

    /// A new session, in `Resolving`, holding nothing yet.
    pub fn new(
        ws_terminal_url: String,
        terminal_entry: String,
        tls: bool,
        ignore_unsafe_cert: bool,
    ) -> (session: Session)
        ensures
            session@ == (SessionView {
                state: SessionState::Resolving,
                pty_alive: false,
                ws_terminal_url: ws_terminal_url@,
                terminal_entry: terminal_entry@,
                tls,
                ignore_unsafe_cert,
            }),
            session@.wf(),
    {
        Session {
            state: SessionState::Resolving,
            pty_alive: false,
            ws_terminal_url,
            terminal_entry,
            tls,
            ignore_unsafe_cert,
        }
    }

    /// The state that the session is in.
    pub fn state(&self) -> (state: SessionState)
        ensures
            state == self@.state,
            self@.wf(),
    {
        proof {
            use_type_invariant(self);
        }
        self.state
    }

    /// Whether the session is over.
    pub fn is_closed(&self) -> (over: bool)
        ensures
            over == (self@.state == SessionState::Closed),
    {
        match self.state {
            SessionState::Closed => true,
            _ => false,
        }
    }

    /// Ends the session and says what is to be torn down.
    fn finish(&mut self, kill_pty: bool, close_transport: bool, error: Option<SessionError>) -> (action:
        SessionAction)
        ensures
            (final(self)@, action@) == old(self)@.end(kill_pty, close_transport, error),
    {
        self.pty_alive = false;
        self.state = SessionState::Closed;
        SessionAction::Close { kill_pty, close_transport, error }
    }

    /// Takes one event and answers with what the caller is to do.
    pub fn step(&mut self, event: SessionEvent) -> (action: SessionAction)
        ensures
            (final(self)@, action@) == old(self)@.next(event),
            final(self)@.wf(),
    {
        proof {
            use_type_invariant(&*self);
        }
        match self.state {
            SessionState::Resolving => match event {
                SessionEvent::Request(Some(id)) => {
                    let url = join_link(self.ws_terminal_url.as_str(), id.as_str());
                    self.state = SessionState::Connecting;
                    SessionAction::Connect {
                        url,
                        tls: self.tls,
                        ignore_unsafe_cert: self.ignore_unsafe_cert,
                    }
                },
                SessionEvent::Request(None) => self.finish(false, false, Some(SessionError::Link)),
                _ => SessionAction::Ignore,
            },
            SessionState::Connecting => match event {
                SessionEvent::Connected => {
                    self.state = SessionState::Streaming;
                    SessionAction::SpawnPty { entry: self.terminal_entry.clone() }
                },
                SessionEvent::ConnectFailed => self.finish(
                    false,
                    false,
                    Some(SessionError::Connect),
                ),
                _ => SessionAction::Ignore,
            },
            SessionState::Streaming => {
                let alive = self.pty_alive;
                match event {
                    SessionEvent::RemoteClosed => self.finish(alive, false, None),
                    SessionEvent::RemoteError => self.finish(
                        alive,
                        true,
                        Some(SessionError::Transport),
                    ),
                    SessionEvent::PtyStarted => {
                        if alive {
                            SessionAction::Ignore
                        } else {
                            self.pty_alive = true;
                            SessionAction::StartPumps
                        }
                    },
                    SessionEvent::PtyFailed => {
                        if alive {
                            SessionAction::Ignore
                        } else {
                            self.finish(false, true, Some(SessionError::Spawn))
                        }
                    },
                    SessionEvent::RemoteInput(bytes) => {
                        if alive {
                            SessionAction::WritePty(bytes)
                        } else {
                            SessionAction::Ignore
                        }
                    },
                    SessionEvent::RemoteResize { cols, rows } => {
                        if alive {
                            SessionAction::ResizePty { cols, rows }
                        } else {
                            SessionAction::Ignore
                        }
                    },
                    SessionEvent::PtyOutput(bytes) => {
                        if alive {
                            SessionAction::SendRemote(bytes)
                        } else {
                            SessionAction::Ignore
                        }
                    },
                    SessionEvent::PtyExited => {
                        if alive {
                            self.finish(false, true, None)
                        } else {
                            SessionAction::Ignore
                        }
                    },
                    SessionEvent::PtyError => {
                        if alive {
                            self.finish(true, true, Some(SessionError::Pty))
                        } else {
                            SessionAction::Ignore
                        }
                    },
                    _ => SessionAction::Ignore,
                }
            },
            SessionState::Closed => SessionAction::Ignore,
        }
    }
}

/// A step keeps a session well formed.
pub proof fn next_keeps_wf(s: SessionView, event: SessionEvent)
    requires
        s.wf(),
    ensures
        s.next(event).0.wf(),
{
}

/// A step changes nothing of a session but its state and whether its
/// pseudo-terminal runs.
pub proof fn next_keeps_settings(s: SessionView, event: SessionEvent)
    ensures
        s.next(event).0.ws_terminal_url == s.ws_terminal_url,
        s.next(event).0.terminal_entry == s.terminal_entry,
        s.next(event).0.tls == s.tls,
        s.next(event).0.ignore_unsafe_cert == s.ignore_unsafe_cert,
{
}

/// When the remote side closes the transport, the session is over at once,
/// and the pseudo-terminal, if it runs, is killed. The transport is gone
/// already and is not closed again.
pub proof fn remote_close_ends_session(s: SessionView)
    requires
        s.state == SessionState::Streaming,
    ensures
        s.next(SessionEvent::RemoteClosed).0.state == SessionState::Closed,
        !s.next(SessionEvent::RemoteClosed).0.pty_alive,
        s.next(SessionEvent::RemoteClosed).1 == (SessionActionView::Close {
            kill_pty: s.pty_alive,
            close_transport: false,
            error: None,
        }),
{
}

/// When the terminal's process exits, the session is over at once, and the
/// transport is closed. The process is gone already and is not killed.
pub proof fn pty_exit_ends_session(s: SessionView)
    requires
        s.state == SessionState::Streaming,
        s.pty_alive,
    ensures
        s.next(SessionEvent::PtyExited).0.state == SessionState::Closed,
        !s.next(SessionEvent::PtyExited).0.transport_open(),
        s.next(SessionEvent::PtyExited).1 == (SessionActionView::Close {
            kill_pty: false,
            close_transport: true,
            error: None,
        }),
{
}

/// A closed session stays closed and asks for nothing more, whatever is
/// reported to it: the side that ended second finds nothing left to do.
pub proof fn closed_is_final(s: SessionView, event: SessionEvent)
    requires
        s.state == SessionState::Closed,
    ensures
        s.next(event) == (s, SessionActionView::Ignore),
{
}

/// A resize control frame sets the window size of the running terminal and
/// nothing else: the session stays as it is, and nothing is written to the
/// terminal's input.
pub proof fn resize_is_not_input(s: SessionView, cols: u16, rows: u16)
    requires
        s.state == SessionState::Streaming,
        s.pty_alive,
    ensures
        s.next(SessionEvent::RemoteResize { cols, rows }) == (
            s,
            SessionActionView::ResizePty { cols, rows },
        ),
        !(s.next(SessionEvent::RemoteResize { cols, rows }).1 is WritePty),
{
}

/// Bytes reach the terminal or the transport only while the session streams
/// with a running terminal, and a transport is asked for only while the
/// session resolves.
pub proof fn actions_fit_the_state(s: SessionView, event: SessionEvent)
    ensures
        (s.next(event).1 is WritePty || s.next(event).1 is SendRemote || s.next(event).1
            is ResizePty) ==> s.state == SessionState::Streaming && s.pty_alive,
        s.next(event).1 is Connect ==> s.state == SessionState::Resolving,
        s.next(event).1 is SpawnPty ==> s.state == SessionState::Connecting,
        s.next(event).1 is Close ==> s.next(event).0.state == SessionState::Closed && s.state
            != SessionState::Closed,
{
}

} // verus!
