//! The events that the supervisor's producers hand to the reactor.
use std::sync::Arc;

use vstd::prelude::*;

use crate::config::AppInfo;
use crate::pid::Pid;

verus! {

/// Which output pipe of a child a record came from.
#[derive(Clone, Copy, Debug, PartialEq, Eq, Structural)]
pub enum StreamKind {
    Stdout,
    Stderr,
}

/// What happened to one app's child process or its pipes.
#[derive(Debug)]
pub enum EventKind {
    /// The child was started with this identifier.
    Started(Pid),
    /// The child could not be started; the text describes why.
    SpawnError(String),
    /// One record read from a pipe, without its line terminator.
    Line(StreamKind, Vec<u8>),
    /// Reading a pipe failed; the text describes why.
    ReadError(StreamKind, String),
    /// A pipe reached its end.
    Eof(StreamKind),
}

/// One input of the reactor.
#[derive(Debug)]
pub enum Event {
    /// Something about the given app's child.
    App { app: Arc<AppInfo>, kind: EventKind },
    /// The supervisor received the terminating signal with this number.
    Signal(i32),
    /// A child process exited normally with this code.
    Exited(Pid, i32),
    /// A child process was terminated by the signal with this number.
    Signaled(Pid, i32),
}

impl Event {
    pub fn new(app: &Arc<AppInfo>, kind: EventKind) -> (r: Event)
        ensures
            r == (Event::App { app: *app, kind: kind }),
    {
        Event::App { app: app.clone(), kind: kind }
    }
}

} // verus!
