//! Reserving a file inside a context.
//!
//! The identifier is joined to the context as it is written: no segment of
//! it is resolved or refused, so one that climbs with `..` names a file
//! outside the context.

use vstd::prelude::*;

use crate::error::ExperimentAppError;
use crate::protocol::{Action, Event, Place};

verus! {

/// Where the reservation of a file stands.
#[derive(Debug, PartialEq, Eq)]
pub enum FileState<S> {
    /// The directories above the file are being created.
    CreatingParents { context: S, identifier: S },
    /// The file itself is being created.
    CreatingFile { context: S, identifier: S },
    /// The operation has ended.
    Finished,
}

impl View for FileState<String> {
    type V = FileState<Seq<char>>;

    open spec fn view(&self) -> FileState<Seq<char>> {
        match *self {
            FileState::CreatingParents { context, identifier } => FileState::CreatingParents {
                context: context@,
                identifier: identifier@,
            },
            FileState::CreatingFile { context, identifier } => FileState::CreatingFile {
                context: context@,
                identifier: identifier@,
            },
            FileState::Finished => FileState::Finished,
        }
    }
}

impl FileState<Seq<char>> {
    /// The first state and the first action, for a context and an
    /// identifier.
    pub open spec fn spec_begin(context: Seq<char>, identifier: Seq<char>) -> (Self, Action<Seq<char>>) {
        (
            FileState::CreatingParents { context, identifier },
            Action::CreateParents(Place::Under(context, identifier)),
        )
    }

    /// The state and the action that follow an event.
    pub open spec fn spec_step(self, event: Event<Seq<char>>) -> (Self, Action<Seq<char>>) {
        match self {
            FileState::CreatingParents { context, identifier } => match event {
                Event::Done => (
                    FileState::CreatingFile { context, identifier },
                    Action::CreateEmpty(Place::Under(context, identifier)),
                ),
                Event::Failed => (
                    FileState::Finished,
                    Action::Fail(ExperimentAppError::AncestorCreation),
                ),
                _ => (FileState::Finished, Action::Fail(ExperimentAppError::UnexpectedEvent)),
            },
            FileState::CreatingFile { context, identifier } => match event {
                Event::Done => (
                    FileState::Finished,
                    Action::Report(Place::Under(context, identifier)),
                ),
                Event::Failed => (
                    FileState::Finished,
                    Action::Fail(ExperimentAppError::FileCreation),
                ),
                _ => (FileState::Finished, Action::Fail(ExperimentAppError::UnexpectedEvent)),
            },
            FileState::Finished => (
                FileState::Finished,
                Action::Fail(ExperimentAppError::UnexpectedEvent),
            ),
        }
    }
}

impl FileState<String> {
    /// Starts the reservation of `identifier` inside `context`.
    pub fn begin(context: String, identifier: String) -> (first: (Self, Action<String>))
        ensures
            (first.0@, first.1@) == FileState::spec_begin(context@, identifier@),
    {
        let place = Place::Under(context.clone(), identifier.clone());
        (FileState::CreatingParents { context, identifier }, Action::CreateParents(place))
    }

    /// Takes the answer to the pending action and gives the next action.
    pub fn step(self, event: Event<String>) -> (next: (Self, Action<String>))
        ensures
            (next.0@, next.1@) == self@.spec_step(event@),
    {
        match self {
            FileState::CreatingParents { context, identifier } => match event {
                Event::Done => {
                    let place = Place::Under(context.clone(), identifier.clone());
                    (FileState::CreatingFile { context, identifier }, Action::CreateEmpty(place))
                },
                Event::Failed => (
                    FileState::Finished,
                    Action::Fail(ExperimentAppError::AncestorCreation),
                ),
                _ => (FileState::Finished, Action::Fail(ExperimentAppError::UnexpectedEvent)),
            },
            FileState::CreatingFile { context, identifier } => match event {
                Event::Done => (FileState::Finished, Action::Report(Place::Under(context, identifier))),
                Event::Failed => (
                    FileState::Finished,
                    Action::Fail(ExperimentAppError::FileCreation),
                ),
                _ => (FileState::Finished, Action::Fail(ExperimentAppError::UnexpectedEvent)),
            },
            FileState::Finished => (
                FileState::Finished,
                Action::Fail(ExperimentAppError::UnexpectedEvent),
            ),
        }
    }
}

/// Where every step succeeds, a reservation creates the directories above
/// the file, then the file, empty, and then reports the file's path: the
/// identifier joined to the context. This holds of every identifier.
pub proof fn lemma_file_reserves(context: Seq<char>, identifier: Seq<char>)
    ensures
        ({
            let target = Place::Under(context, identifier);
            let first = FileState::spec_begin(context, identifier);
            let second = first.0.spec_step(Event::Done);
            let third = second.0.spec_step(Event::Done);
            &&& first.1 == Action::CreateParents(target)
            &&& second.1 == Action::CreateEmpty(target)
            &&& third.1 == Action::Report(target)
            &&& third.0 == FileState::<Seq<char>>::Finished
        }),
{
}

/// A reservation reports a path only after the file was created: whatever
/// the state and the event, the step that reports was taken while the file
/// was being created and was answered by `Done`.
pub proof fn lemma_file_reports_after_creation(state: FileState<Seq<char>>, event: Event<Seq<char>>)
    ensures
        state.spec_step(event).1 is Report ==> state is CreatingFile && event is Done,
        state.spec_step(event).1 is Succeed == false,
{
}

/// A reservation alters the disk for the one path only: the first action
/// creates the directories above the identifier joined to the context, and
/// whatever the state and the event, a step that alters the disk creates
/// the file at that path.
pub proof fn lemma_file_alters(
    context: Seq<char>,
    identifier: Seq<char>,
    state: FileState<Seq<char>>,
    event: Event<Seq<char>>,
)
    ensures
        FileState::spec_begin(context, identifier).1 == Action::CreateParents(
            Place::Under(context, identifier),
        ),
        state.spec_step(event).1.alters() ==> (state matches FileState::CreatingParents {
            context,
            identifier,
        } && event is Done && state.spec_step(event).1 == Action::CreateEmpty(
            Place::Under(context, identifier),
        )),
{
}

} // verus!
