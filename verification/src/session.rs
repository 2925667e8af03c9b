//! One connection, from accept to hang-up, as a state machine.
//!
//! The machine does no I/O. Its caller reads the socket, writes the file and
//! sends the reply; it tells the machine what happened as an [`Event`] and is
//! told what to do next as an [`Action`].
//!
//! The protocol has no mark for the end of a paste, so the machine settles
//! three things. A transport that can tell that the peer has closed says so
//! ([`Event::Closed`]); what a read of no bytes means is for the deployment
//! to say ([`ZeroRead`]). A connection whose reading ends before it sent anything is
//! finished like any other: its paste is an empty file, and the client is
//! sent the URL of it. And a client gets no reply where reading from it or
//! storing its paste failed: the connection is just closed.

use vstd::prelude::*;
use crate::config::{Config, ZeroRead};
use crate::idle::{capped, IdleTimeout, IdleTimeoutView};
use crate::slug::{get_slug, is_slug};
use crate::url::{reply_line, reply_text};

verus! {

/// Where a session stands.
#[derive(Clone, Copy, Debug, PartialEq, Eq, Structural)]
pub enum State {
    /// Bytes are read and appended to the paste's file.
    Reading,
    /// Reading is over; the file is being closed.
    Finalizing,
    /// The file is closed; the reply line is being sent.
    Replying,
    /// The reply was attempted. Terminal.
    Done,
    /// Reading from the socket failed. Terminal, without a reply.
    Errored,
    /// Creating the file or appending to it failed. Terminal, without a reply.
    Aborted,
}

impl State {
    /// No event moves the session on from here.
    pub open spec fn is_terminal(self) -> bool {
        self == State::Done || self == State::Errored || self == State::Aborted
    }
}

/// What the caller reports to the session.
#[derive(Clone, Debug, PartialEq, Eq)]
pub enum Event {
    /// A read returned `bytes` at time `now`.
    Read { bytes: Vec<u8>, now: u64 },
    /// A read at time `now` found no data and would have blocked.
    WouldBlock { now: u64 },
    /// The peer has closed the connection in good order.
    Closed,
    /// A read failed for good.
    ReadFailed,
    /// The paste's file could not be created, or an append to it failed.
    StorageFailed,
    /// The paste's file has been closed.
    FileClosed,
    /// The reply line has been written to the socket.
    ReplySent,
    /// Writing the reply line failed.
    ReplyFailed,
}

/// An [`Event`] as the contracts see it.
pub enum EventView {
    Read { bytes: Seq<u8>, now: nat },
    WouldBlock { now: nat },
    Closed,
    ReadFailed,
    StorageFailed,
    FileClosed,
    ReplySent,
    ReplyFailed,
}

impl View for Event {
    type V = EventView;

    open spec fn view(&self) -> EventView {
        match *self {
            Event::Read { bytes, now } => EventView::Read { bytes: bytes@, now: now as nat },
            Event::WouldBlock { now } => EventView::WouldBlock { now: now as nat },
            Event::Closed => EventView::Closed,
            Event::ReadFailed => EventView::ReadFailed,
            Event::StorageFailed => EventView::StorageFailed,
            Event::FileClosed => EventView::FileClosed,
            Event::ReplySent => EventView::ReplySent,
            Event::ReplyFailed => EventView::ReplyFailed,
        }
    }
}

/// What the session asks of its caller.
#[derive(Clone, Debug, PartialEq, Eq)]
pub enum Action {
    /// Append `bytes` to the paste's file and make them durable, then read on.
    Append { bytes: Vec<u8> },
    /// Suspend until the socket is readable or `due_in` milliseconds have
    /// passed, whichever comes first, then read on. Where nothing arrives,
    /// the idle timeout is reached when that time has passed, not before.
    Wait { due_in: u64 },
    /// Close the paste's file.
    CloseFile,
    /// Write `line` to the socket.
    Reply { line: String },
    /// Hang up and release what the session holds.
    Release,
}

/// An [`Action`] as the contracts see it.
pub enum ActionView {
    Append { bytes: Seq<u8> },
    Wait { due_in: nat },
    CloseFile,
    Reply { line: Seq<char> },
    Release,
}

impl View for Action {
    type V = ActionView;

    open spec fn view(&self) -> ActionView {
        match *self {
            Action::Append { bytes } => ActionView::Append { bytes: bytes@ },
            Action::Wait { due_in } => ActionView::Wait { due_in: due_in as nat },
            Action::CloseFile => ActionView::CloseFile,
            Action::Reply { line } => ActionView::Reply { line: line@ },
            Action::Release => ActionView::Release,
        }
    }
}

/// Why a session refused an event.
#[derive(Clone, Copy, Debug, PartialEq, Eq, Structural)]
pub enum StepError {
    /// The session is in a terminal state.
    SessionOver,
    /// The event cannot happen in the session's state.
    OutOfTurn,
}

/// The state of one accepted connection.
#[derive(Debug)]
pub struct Session {
    state: State,
    peer: String,
    slug: String,
    domain: String,
    http_port: u16,
    zero_read: ZeroRead,
    idle: IdleTimeout,
    received: u64,
}

/// A [`Session`] as the contracts see it.
pub struct SessionView {
    pub state: State,
    /// The address of the peer.
    pub peer: Seq<char>,
    /// The name of the paste's file, and the last segment of its URL.
    pub slug: Seq<char>,
    pub domain: Seq<char>,
    pub http_port: u16,
    pub zero_read: ZeroRead,
    pub idle: IdleTimeoutView,
    /// The number of bytes received so far; it stops counting at `u64::MAX`.
    pub received: nat,
}

impl View for Session {
    type V = SessionView;

    closed spec fn view(&self) -> SessionView {
        SessionView {
            state: self.state,
            peer: self.peer@,
            slug: self.slug@,
            domain: self.domain@,
            http_port: self.http_port,
            zero_read: self.zero_read,
            idle: self.idle@,
            received: self.received as nat,
        }
    }
}

impl SessionView {
    /// The session that a connection from `peer`, accepted at time `now` and
    /// given the name `slug`, starts with.
    pub open spec fn fresh(config: Config, peer: Seq<char>, slug: Seq<char>, now: nat) -> SessionView {
        SessionView {
            state: State::Reading,
            peer,
            slug,
            domain: config.domain@,
            http_port: config.http_port,
            zero_read: config.zero_read,
            idle: IdleTimeoutView { timeout: config.idle_timeout as nat, last_activity: now },
            received: 0,
        }
    }

    /// The session in another state.
    pub open spec fn at(self, state: State) -> SessionView {
        SessionView { state, ..self }
    }

    /// The session after `count` bytes arrived at time `now`.
    pub open spec fn fed(self, count: nat, now: nat) -> SessionView {
        SessionView {
            idle: IdleTimeoutView { last_activity: now, ..self.idle },
            received: capped(self.received + count),
            ..self
        }
    }

    /// What a reading session does when it finds the connection silent at
    /// time `now`: it finalizes if the silence has lasted longer than the idle
    /// timeout, and waits otherwise.
    pub open spec fn on_silence(self, now: nat) -> (SessionView, ActionView) {
        if self.idle.timed_out(now) {
            (self.at(State::Finalizing), ActionView::CloseFile)
        } else {
            (self, ActionView::Wait { due_in: capped(self.idle.due_in(now)) })
        }
    }

    /// The transition relation: the session after `event` and the action it
    /// asks for, or `None` where the event cannot happen in this state.
    pub open spec fn react(self, event: EventView) -> Option<(SessionView, ActionView)> {
        match self.state {
            State::Reading => match event {
                EventView::Read { bytes, now } => if bytes.len() > 0 {
                    Some((self.fed(bytes.len(), now), ActionView::Append { bytes }))
                } else if self.zero_read == ZeroRead::Closed {
                    Some((self.at(State::Finalizing), ActionView::CloseFile))
                } else {
                    Some(self.on_silence(now))
                },
                EventView::WouldBlock { now } => Some(self.on_silence(now)),
                EventView::Closed => Some((self.at(State::Finalizing), ActionView::CloseFile)),
                EventView::ReadFailed => Some((self.at(State::Errored), ActionView::Release)),
                EventView::StorageFailed => Some((self.at(State::Aborted), ActionView::Release)),
                _ => None,
            },
            State::Finalizing => match event {
                EventView::FileClosed => Some(
                    (
                        self.at(State::Replying),
                        ActionView::Reply {
                            line: reply_text(self.domain, self.slug, self.http_port),
                        },
                    ),
                ),
                _ => None,
            },
            State::Replying => match event {
                EventView::ReplySent | EventView::ReplyFailed => Some(
                    (self.at(State::Done), ActionView::Release),
                ),
                _ => None,
            },
            _ => None,
        }
    }

    /// The event can happen in this state.
    pub open spec fn accepts(self, event: EventView) -> bool {
        self.react(event) is Some
    }

    /// The session after `event`; a refused event leaves it as it is.
    pub open spec fn next(self, event: EventView) -> SessionView {
        match self.react(event) {
            Some((next, _)) => next,
            None => self,
        }
    }

    /// The action that `event` leads to, where the session accepts it.
    pub open spec fn action(self, event: EventView) -> ActionView
        recommends
            self.accepts(event),
    {
        match self.react(event) {
            Some((_, action)) => action,
            None => arbitrary(),
        }
    }

    /// The error with which the session refuses an event that it does not
    /// accept.
    pub open spec fn refusal(self) -> StepError {
        if self.state.is_terminal() {
            StepError::SessionOver
        } else {
            StepError::OutOfTurn
        }
    }
}

impl Session {
    /// The session of a connection from `peer`, accepted at time `now`, whose
    /// paste is named `slug`.
    pub fn new(config: &Config, peer: String, slug: String, now: u64) -> (session: Session)
        ensures
            session@ == SessionView::fresh(*config, peer@, slug@, now as nat),
    {
        Session {
            state: State::Reading,
            peer,
            slug,
            domain: config.domain.clone(),
            http_port: config.http_port,
            zero_read: config.zero_read,
            idle: IdleTimeout::new(config.idle_timeout, now),
            received: 0,
        }
    }

    /// The session of a connection from `peer`, accepted at time `now`, under
    /// a slug drawn at random.
    pub fn accept(config: &Config, peer: String, now: u64) -> (session: Session)
        ensures
            session@ == SessionView::fresh(*config, peer@, session@.slug, now as nat),
            is_slug(session@.slug, config.slug_len as nat),
    {
        let slug = get_slug(config.slug_len);
        Session::new(config, peer, slug, now)
    }

    /// Where the session stands.
    pub fn state(&self) -> (state: State)
        ensures
            state == self@.state,
    {
        self.state
    }

    /// Whether the session has come to its end.
    pub fn is_over(&self) -> (over: bool)
        ensures
            over == self@.state.is_terminal(),
    {
        match self.state {
            State::Done | State::Errored | State::Aborted => true,
            _ => false,
        }
    }

    /// The name of the paste's file.
    pub fn slug(&self) -> (slug: &str)
        ensures
            slug@ == self@.slug,
    {
        self.slug.as_str()
    }

    /// The address of the peer.
    pub fn peer(&self) -> (peer: &str)
        ensures
            peer@ == self@.peer,
    {
        self.peer.as_str()
    }

    /// The time of the last byte received, or of the accept where none has
    /// come yet.
    pub fn last_activity(&self) -> (at: u64)
        ensures
            at as nat == self@.idle.last_activity,
    {
        self.idle.last_activity()
    }

    /// The number of bytes received so far.
    pub fn bytes_received(&self) -> (count: u64)
        ensures
            count as nat == self@.received,
    {
        self.received
    }

    fn on_silence(&mut self, now: u64) -> (action: Action)
        ensures
            (final(self)@, action@) == old(self)@.on_silence(now as nat),
    {
        if self.idle.is_timed_out(now) {
            self.state = State::Finalizing;
            Action::CloseFile
        } else {
            Action::Wait { due_in: self.idle.due_in(now) }
        }
    }

    /// Takes in what happened and says what to do next.
    ///
    /// An event that cannot happen in the session's state is refused, and the
    /// session stays as it is.
    pub fn step(&mut self, event: Event) -> (result: Result<Action, StepError>)
        ensures
            final(self)@ == old(self)@.next(event@),
            old(self)@.accepts(event@) ==> result is Ok && result->Ok_0@ == old(self)@.action(event@),
            !old(self)@.accepts(event@) ==> result is Err && result->Err_0 == old(self)@.refusal(),
    {
        match self.state {
            State::Reading => match event {
                Event::Read { bytes, now } => {
                    if bytes.len() > 0 {
                        self.idle.record_activity(now);
                        self.received = self.received.saturating_add(bytes.len() as u64);
                        Ok(Action::Append { bytes })
                    } else {
                        match self.zero_read {
                            ZeroRead::Closed => {
                                self.state = State::Finalizing;
                                Ok(Action::CloseFile)
                            },
                            ZeroRead::Transient => Ok(self.on_silence(now)),
                        }
                    }
                },
                Event::WouldBlock { now } => Ok(self.on_silence(now)),
                Event::Closed => {
                    self.state = State::Finalizing;
                    Ok(Action::CloseFile)
                },
                Event::ReadFailed => {
                    self.state = State::Errored;
                    Ok(Action::Release)
                },
                Event::StorageFailed => {
                    self.state = State::Aborted;
                    Ok(Action::Release)
                },
                _ => Err(StepError::OutOfTurn),
            },
            State::Finalizing => match event {
                Event::FileClosed => {
                    self.state = State::Replying;
                    let line = reply_line(self.domain.as_str(), self.slug.as_str(), self.http_port);
                    Ok(Action::Reply { line })
                },
                _ => Err(StepError::OutOfTurn),
            },
            State::Replying => match event {
                Event::ReplySent | Event::ReplyFailed => {
                    self.state = State::Done;
                    Ok(Action::Release)
                },
                _ => Err(StepError::OutOfTurn),
            },
            _ => Err(StepError::SessionOver),
        }
    }
}

} // verus!
