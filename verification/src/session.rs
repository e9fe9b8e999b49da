//! One operation from its command to its end.
//!
//! A session is opened on a command and gives the first action. The caller
//! performs each action and hands the event that reports it to `advance`,
//! until the action is a final one. The clock and the random source are
//! read inside `advance`: the caller is never asked for them.

use vstd::prelude::*;

use crate::commit::CommitState;
use crate::config::Command;
use crate::file::FileState;
use crate::protocol::{Action, Event};
use crate::sources::{draw_suffix, now_timestamp, spec_carries_utc_offset};
use crate::start::StartState;

verus! {

/// An operation that is under way.
#[derive(Debug, PartialEq, Eq)]
pub enum Session<S> {
    /// A context is being created.
    Start(StartState<S>),
    /// A file is being reserved.
    File(FileState<S>),
    /// A context is being published.
    Commit(CommitState<S>),
}

impl View for Session<String> {
    type V = Session<Seq<char>>;

    open spec fn view(&self) -> Session<Seq<char>> {
        match *self {
            Session::Start(state) => Session::Start(state@),
            Session::File(state) => Session::File(state@),
            Session::Commit(state) => Session::Commit(state@),
        }
    }
}

impl Session<Seq<char>> {
    /// The session and the first action of a command.
    pub open spec fn spec_open(command: Command<Seq<char>>) -> (Self, Action<Seq<char>>) {
        match command {
            Command::Start { root, name } => {
                let first = StartState::spec_begin(root, name);
                (Session::Start(first.0), first.1)
            },
            Command::File { context, identifier } => {
                let first = FileState::spec_begin(context, identifier);
                (Session::File(first.0), first.1)
            },
            Command::Commit { context, root } => {
                let first = CommitState::spec_begin(context, root);
                (Session::Commit(first.0), first.1)
            },
        }
    }

    /// The session and the action that follow an event.
    pub open spec fn spec_step(self, event: Event<Seq<char>>) -> (Self, Action<Seq<char>>) {
        match self {
            Session::Start(state) => {
                let next = state.spec_step(event);
                (Session::Start(next.0), next.1)
            },
            Session::File(state) => {
                let next = state.spec_step(event);
                (Session::File(next.0), next.1)
            },
            Session::Commit(state) => {
                let next = state.spec_step(event);
                (Session::Commit(next.0), next.1)
            },
        }
    }

    /// Whether `served` is what becomes of the step `taken` once the library
    /// has read the clock or drawn the suffix that the step asks for: the
    /// step itself where it asks for neither; else the step that follows
    /// some time that carries the offset of UTC, or some suffix or the
    /// failure to draw one.
    pub open spec fn spec_serves(
        taken: (Self, Action<Seq<char>>),
        served: (Self, Action<Seq<char>>),
    ) -> bool {
        match taken.1 {
            Action::ReadClock => exists|time: Seq<char>|
                spec_carries_utc_offset(time) && served == #[trigger] taken.0.spec_step(
                    Event::Time(time),
                ),
            Action::DrawSuffix => served == taken.0.spec_step(Event::Failed) || exists|
                code: [u8; 4],
            |
                served == #[trigger] taken.0.spec_step(Event::Suffix(code)),
            _ => served == taken,
        }
    }
}

impl Session<String> {
    /// Opens the session of a command and gives its first action, which is
    /// always one for the caller.
    pub fn open(command: Command<String>) -> (first: (Self, Action<String>))
        ensures
            (first.0@, first.1@) == Session::spec_open(command@),
            !first.1@.is_internal(),
            !first.1@.is_final(),
    {
        match command {
            Command::Start { root, name } => {
                let (state, action) = StartState::begin(root, name);
                (Session::Start(state), action)
            },
            Command::File { context, identifier } => {
                let (state, action) = FileState::begin(context, identifier);
                (Session::File(state), action)
            },
            Command::Commit { context, root } => {
                let (state, action) = CommitState::begin(context, root);
                (Session::Commit(state), action)
            },
        }
    }

    /// Takes the answer to the pending action and gives the next action,
    /// which may be one for the library itself.
    pub fn step(self, event: Event<String>) -> (next: (Self, Action<String>))
        ensures
            (next.0@, next.1@) == self@.spec_step(event@),
    {
        match self {
            Session::Start(state) => {
                let (state, action) = state.step(event);
                (Session::Start(state), action)
            },
            Session::File(state) => {
                let (state, action) = state.step(event);
                (Session::File(state), action)
            },
            Session::Commit(state) => {
                let (state, action) = state.step(event);
                (Session::Commit(state), action)
            },
        }
    }

    /// Takes the answer to the pending action and gives the next action for
    /// the caller. Where the step asks for the time or for a suffix, the
    /// clock is read or the suffix drawn here, and the step after it is
    /// given: it holds whatever was read or drawn.
    pub fn advance(self, event: Event<String>) -> (next: (Self, Action<String>))
        ensures
            Session::spec_serves(self@.spec_step(event@), (next.0@, next.1@)),
            !next.1@.is_internal(),
    {
        let ghost taken = self@.spec_step(event@);
        let (session, action) = self.step(event);
        match action {
            Action::ReadClock => {
                let time = now_timestamp();
                let served = session.step(Event::Time(time));
                proof {
                    assert((served.0@, served.1@) == taken.0.spec_step(Event::Time(time@)));
                }
                served
            },
            Action::DrawSuffix => {
                match draw_suffix() {
                    Ok(code) => {
                        let served = session.step(Event::Suffix(code));
                        proof {
                            assert((served.0@, served.1@) == taken.0.spec_step(Event::Suffix(code)));
                        }
                        served
                    },
                    Err(_) => {
                        let served = session.step(Event::Failed);
                        proof {
                            assert((served.0@, served.1@) == taken.0.spec_step(Event::Failed));
                        }
                        served
                    },
                }
            },
            other => {
                proof {
                    assert((session@, other@) == taken);
                }
                (session, other)
            },
        }
    }
}

/// The status with which the process ends on a final action: 0 where the
/// operation succeeded, 1 where it failed. Other actions end nothing.
pub open spec fn spec_exit_status(action: Action<Seq<char>>) -> Option<u8> {
    match action {
        Action::Report(_) => Some(0u8),
        Action::Succeed => Some(0u8),
        Action::Fail(_) => Some(1u8),
        _ => None,
    }
}

/// The status with which the process ends on the action, where it is a
/// final one.
pub fn exit_status(action: &Action<String>) -> (status: Option<u8>)
    ensures
        status == spec_exit_status(action@),
        status is Some == action@.is_final(),
{
    match action {
        Action::Report(_) => Some(0u8),
        Action::Succeed => Some(0u8),
        Action::Fail(_) => Some(1u8),
        _ => None,
    }
}

} // verus!
