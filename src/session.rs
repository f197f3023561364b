//! Session lifecycle: the decisions that govern when a command may be sent,
//! how the command counter advances, and when a session closes.
//!
//! The caller performs the handshake and each exchange with the device and
//! reports the outcome; the session decides what happens next.

use vstd::prelude::*;
use crate::error::{DeviceErrorKind, SessionErrorKind};

verus! {

/// Lifecycle states of a session
#[derive(Copy, Clone, Debug, PartialEq, Eq, Structural)]
pub enum SessionState {
    /// Created, not yet opened
    Created,
    /// Handshake in progress
    Authenticating,
    /// Authenticated: commands may be sent
    Authenticated,
    /// Closed: terminal
    Closed,
}

/// Abstract value of a session.
pub struct SessionView {
    pub state: SessionState,
    pub id: Option<u8>,
    pub counter: u32,
    pub command_limit: u32,
}

/// One session with the device: its state, its device-assigned id, the
/// number of commands sent, and the policy limit on that number.
#[derive(Debug)]
pub struct Session {
    state: SessionState,
    id: Option<u8>,
    counter: u32,
    command_limit: u32,
}

impl View for Session {
    type V = SessionView;

    closed spec fn view(&self) -> SessionView {
        SessionView {
            state: self.state,
            id: self.id,
            counter: self.counter,
            command_limit: self.command_limit,
        }
    }
}

/// The counter never passes the limit.
pub open spec fn session_wf(s: SessionView) -> bool {
    s.counter <= s.command_limit
}

/// The view with the state replaced by `Closed`.
pub open spec fn closed(s: SessionView) -> SessionView {
    SessionView { state: SessionState::Closed, ..s }
}

/// What an attempt to send one command does to a session, and what it returns:
/// the counter value for this command, or why no command may be sent.
pub open spec fn send_step(s: SessionView) -> (SessionView, Result<u32, SessionErrorKind>) {
    if s.state == SessionState::Closed {
        (s, Err(SessionErrorKind::ClosedSessionError))
    } else if s.state != SessionState::Authenticated {
        (s, Err(SessionErrorKind::ProtocolError))
    } else if s.counter >= s.command_limit {
        (closed(s), Err(SessionErrorKind::CommandLimitExceeded))
    } else {
        (SessionView { counter: (s.counter + 1) as u32, ..s }, Ok(s.counter))
    }
}

/// The session after `n` attempts to send.
pub open spec fn after_sends(s: SessionView, n: nat) -> SessionView
    decreases n,
{
    if n == 0 {
        s
    } else {
        send_step(after_sends(s, (n - 1) as nat)).0
    }
}

/// Whether a failed exchange leaves the outcome uncertain, so that the
/// session must close: every failure but a device error other than an
/// invalid session.
pub open spec fn closes_session(k: SessionErrorKind) -> bool {
    match k {
        SessionErrorKind::DeviceError { kind } => kind == DeviceErrorKind::InvalidSession,
        _ => true,
    }
}

impl Session {
    /// A new session, not yet opened, that allows `command_limit` commands.
    pub fn new(command_limit: u32) -> (r: Session)
        ensures
            r@ == (SessionView {
                state: SessionState::Created,
                id: None,
                counter: 0,
                command_limit,
            }),
            session_wf(r@),
    {
        Session { state: SessionState::Created, id: None, counter: 0, command_limit }
    }

    /// Current lifecycle state.
    pub fn state(&self) -> (r: SessionState)
        ensures
            r == self@.state,
    {
        self.state
    }

    /// Number of commands sent in this session.
    pub fn counter(&self) -> (r: u32)
        ensures
            r == self@.counter,
    {
        self.counter
    }

    /// Session id assigned by the device, once the handshake is done.
    pub fn id(&self) -> (r: Option<u8>)
        ensures
            r == self@.id,
    {
        self.id
    }

    /// Start the handshake. Only a created session can be opened.
    pub fn open(&mut self) -> (r: Result<(), SessionErrorKind>)
        ensures
            old(self)@.state == SessionState::Created ==> r is Ok && final(self)@ == (SessionView {
                state: SessionState::Authenticating,
                ..old(self)@
            }),
            old(self)@.state == SessionState::Closed ==> r == Err::<(), SessionErrorKind>(
                SessionErrorKind::ClosedSessionError,
            ) && final(self)@ == old(self)@,
            old(self)@.state == SessionState::Authenticating || old(self)@.state
                == SessionState::Authenticated ==> r == Err::<(), SessionErrorKind>(
                SessionErrorKind::CreateFailed,
            ) && final(self)@ == old(self)@,
    {
        match self.state {
            SessionState::Created => {
                self.state = SessionState::Authenticating;
                Ok(())
            },
            SessionState::Closed => Err(SessionErrorKind::ClosedSessionError),
            _ => Err(SessionErrorKind::CreateFailed),
        }
    }

    /// Record the outcome of the handshake: the session id that the device
    /// assigned, or why the handshake failed. A failure closes the session.
    pub fn finish_handshake(&mut self, outcome: Result<u8, SessionErrorKind>) -> (r: Result<
        (),
        SessionErrorKind,
    >)
        ensures
            old(self)@.state != SessionState::Authenticating ==> final(self)@ == old(self)@ && r
                == Err::<(), SessionErrorKind>(if old(self)@.state == SessionState::Closed {
                SessionErrorKind::ClosedSessionError
            } else {
                SessionErrorKind::CreateFailed
            }),
            old(self)@.state == SessionState::Authenticating ==> match outcome {
                Ok(id) => r is Ok && final(self)@ == (SessionView {
                    state: SessionState::Authenticated,
                    id: Some(id),
                    ..old(self)@
                }),
                Err(k) => r == Err::<(), SessionErrorKind>(k) && final(self)@ == closed(
                    old(self)@,
                ),
            },
    {
        match self.state {
            SessionState::Authenticating => match outcome {
                Ok(id) => {
                    self.state = SessionState::Authenticated;
                    self.id = Some(id);
                    Ok(())
                },
                Err(k) => {
                    self.state = SessionState::Closed;
                    Err(k)
                },
            },
            SessionState::Closed => Err(SessionErrorKind::ClosedSessionError),
            _ => Err(SessionErrorKind::CreateFailed),
        }
    }

    /// Claim the counter value for the next command. Only on `Ok` may the
    /// caller touch the transport.
    pub fn begin_send(&mut self) -> (r: Result<u32, SessionErrorKind>)
        requires
            session_wf(old(self)@),
        ensures
            (final(self)@, r) == send_step(old(self)@),
            session_wf(final(self)@),
    {
        match self.state {
            SessionState::Closed => Err(SessionErrorKind::ClosedSessionError),
            SessionState::Authenticated => {
                if self.counter >= self.command_limit {
                    self.state = SessionState::Closed;
                    Err(SessionErrorKind::CommandLimitExceeded)
                } else {
                    let c = self.counter;
                    self.counter = c + 1;
                    Ok(c)
                }
            },
            _ => Err(SessionErrorKind::ProtocolError),
        }
    }

    /// Record the outcome of an exchange begun with `begin_send`. A failure
    /// whose outcome is uncertain closes the session.
    pub fn finish_send(&mut self, outcome: Result<(), SessionErrorKind>) -> (r: Result<
        (),
        SessionErrorKind,
    >)
        ensures
            old(self)@.state != SessionState::Authenticated ==> final(self)@ == old(self)@ && r
                == Err::<(), SessionErrorKind>(SessionErrorKind::ClosedSessionError),
            old(self)@.state == SessionState::Authenticated ==> r == outcome && match outcome {
                Ok(_) => final(self)@ == old(self)@,
                Err(k) => final(self)@ == if closes_session(k) {
                    closed(old(self)@)
                } else {
                    old(self)@
                },
            },
    {
        if self.state != SessionState::Authenticated {
            return Err(SessionErrorKind::ClosedSessionError);
        }
        if let Err(k) = outcome {
            let close = match k {
                SessionErrorKind::DeviceError { kind } => kind == DeviceErrorKind::InvalidSession,
                _ => true,
            };
            if close {
                self.state = SessionState::Closed;
            }
        }
        outcome
    }

    /// Close the session. Idempotent; never fails.
    pub fn close(&mut self)
        ensures
            final(self)@ == closed(old(self)@),
    {
        self.state = SessionState::Closed;
    }
}

/// A closed session stays closed: every later attempt to send fails with
/// `ClosedSessionError` and changes nothing, so no transport I/O follows.
pub proof fn lemma_closed_is_terminal(s: SessionView, n: nat)
    requires
        s.state == SessionState::Closed,
    ensures
        after_sends(s, n) == s,
        send_step(after_sends(s, n)) == (s, Err::<u32, SessionErrorKind>(
            SessionErrorKind::ClosedSessionError,
        )),
    decreases n,
{
    if n > 0 {
        lemma_closed_is_terminal(s, (n - 1) as nat);
    }
}

/// Successive sends on an authenticated session within its limit each get
/// the counter value one above the last: after `n` of them the counter has
/// grown by exactly `n`, and the `i`-th used the value `counter + i`, so no
/// two commands share a counter value.
pub proof fn lemma_sends_advance_counter(s: SessionView, n: nat)
    requires
        s.state == SessionState::Authenticated,
        s.counter + n <= s.command_limit,
    ensures
        after_sends(s, n) == (SessionView { counter: (s.counter + n) as u32, ..s }),
        forall|i: nat|
            i < n ==> send_step(#[trigger] after_sends(s, i)).1 == Ok::<u32, SessionErrorKind>(
                (s.counter + i) as u32,
            ),
    decreases n,
{
    if n > 0 {
        lemma_sends_advance_counter(s, (n - 1) as nat);
    }
}

/// A fresh authenticated session with limit `n` accepts exactly `n` sends:
/// the `n`-th succeeds, the next fails with `CommandLimitExceeded` and leaves
/// the session closed.
pub proof fn lemma_command_limit_closes(s: SessionView)
    requires
        s.state == SessionState::Authenticated,
        s.counter == 0,
        s.command_limit > 0,
    ensures
        send_step(after_sends(s, (s.command_limit - 1) as nat)).1 == Ok::<u32, SessionErrorKind>(
            (s.command_limit - 1) as u32,
        ),
        send_step(after_sends(s, s.command_limit as nat)).1 == Err::<u32, SessionErrorKind>(
            SessionErrorKind::CommandLimitExceeded,
        ),
        after_sends(s, (s.command_limit + 1) as nat).state == SessionState::Closed,
{
    let n = s.command_limit as nat;
    lemma_sends_advance_counter(s, n);
    assert(send_step(after_sends(s, (n - 1) as nat)).1 == Ok::<u32, SessionErrorKind>(
        (s.counter + (n - 1) as nat) as u32,
    ));
}

} // verus!
