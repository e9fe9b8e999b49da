//! Creating a context: a fresh directory in the staging area that records
//! the experiment's name and the time at which it was started.

use vstd::prelude::*;

use crate::error::ExperimentAppError;
use crate::layout::{
    name_record, spec_name_record, spec_staging_directory, spec_start_time_record,
    staging_directory, start_time_record,
};
use crate::protocol::{Action, Event, Place};

verus! {

/// Where the creation of a context stands.
#[derive(Debug, PartialEq, Eq)]
pub enum StartState<S> {
    /// The staging area is being made sure of.
    EnsuringStaging { root: S, name: S },
    /// The context's directory is being created in the staging area.
    CreatingContext { root: S, name: S },
    /// The name is being written into the context.
    WritingName { context: S },
    /// The clock is being read.
    ReadingClock { context: S },
    /// The start time is being written into the context.
    WritingStartTime { context: S },
    /// The operation has ended.
    Finished,
}

impl View for StartState<String> {
    type V = StartState<Seq<char>>;

    open spec fn view(&self) -> StartState<Seq<char>> {
        match *self {
            StartState::EnsuringStaging { root, name } => StartState::EnsuringStaging {
                root: root@,
                name: name@,
            },
            StartState::CreatingContext { root, name } => StartState::CreatingContext {
                root: root@,
                name: name@,
            },
            StartState::WritingName { context } => StartState::WritingName { context: context@ },
            StartState::ReadingClock { context } => StartState::ReadingClock { context: context@ },
            StartState::WritingStartTime { context } => StartState::WritingStartTime {
                context: context@,
            },
            StartState::Finished => StartState::Finished,
        }
    }
}

impl StartState<Seq<char>> {
    /// The first state and the first action, for a storage root and an
    /// experiment's name.
    pub open spec fn spec_begin(root: Seq<char>, name: Seq<char>) -> (Self, Action<Seq<char>>) {
        (
            StartState::EnsuringStaging { root, name },
            Action::EnsureDirectory(Place::Under(root, spec_staging_directory())),
        )
    }

    /// The state and the action that follow an event.
    pub open spec fn spec_step(self, event: Event<Seq<char>>) -> (Self, Action<Seq<char>>) {
        match self {
            StartState::EnsuringStaging { root, name } => match event {
                Event::Done => (
                    StartState::CreatingContext { root, name },
                    Action::CreateUniqueDirectory(Place::Under(root, spec_staging_directory())),
                ),
                Event::Failed => (
                    StartState::Finished,
                    Action::Fail(ExperimentAppError::InvalidStorageRoot),
                ),
                _ => (StartState::Finished, Action::Fail(ExperimentAppError::UnexpectedEvent)),
            },
            StartState::CreatingContext { root, name } => match event {
                Event::Created(context) => (
                    StartState::WritingName { context },
                    Action::Write(Place::Under(context, spec_name_record()), name),
                ),
                Event::Failed => (StartState::Finished, Action::Fail(ExperimentAppError::Io)),
                _ => (StartState::Finished, Action::Fail(ExperimentAppError::UnexpectedEvent)),
            },
            StartState::WritingName { context } => match event {
                Event::Done => (StartState::ReadingClock { context }, Action::ReadClock),
                Event::Failed => (StartState::Finished, Action::Fail(ExperimentAppError::Io)),
                _ => (StartState::Finished, Action::Fail(ExperimentAppError::UnexpectedEvent)),
            },
            StartState::ReadingClock { context } => match event {
                Event::Time(time) => (
                    StartState::WritingStartTime { context },
                    Action::Write(Place::Under(context, spec_start_time_record()), time),
                ),
                _ => (StartState::Finished, Action::Fail(ExperimentAppError::UnexpectedEvent)),
            },
            StartState::WritingStartTime { context } => match event {
                Event::Done => (StartState::Finished, Action::Report(Place::At(context))),
                Event::Failed => (StartState::Finished, Action::Fail(ExperimentAppError::Io)),
                _ => (StartState::Finished, Action::Fail(ExperimentAppError::UnexpectedEvent)),
            },
            StartState::Finished => (
                StartState::Finished,
                Action::Fail(ExperimentAppError::UnexpectedEvent),
            ),
        }
    }
}

impl StartState<String> {
    /// Starts the creation of a context for `name` under `root`.
    pub fn begin(root: String, name: String) -> (first: (Self, Action<String>))
        ensures
            (first.0@, first.1@) == StartState::spec_begin(root@, name@),
    {
        let staging = Place::Under(root.clone(), staging_directory());
        (StartState::EnsuringStaging { root, name }, Action::EnsureDirectory(staging))
    }

    /// Takes the answer to the pending action and gives the next action.
    pub fn step(self, event: Event<String>) -> (next: (Self, Action<String>))
        ensures
            (next.0@, next.1@) == self@.spec_step(event@),
    {
        match self {
            StartState::EnsuringStaging { root, name } => match event {
                Event::Done => {
                    let staging = Place::Under(root.clone(), staging_directory());
                    (
                        StartState::CreatingContext { root, name },
                        Action::CreateUniqueDirectory(staging),
                    )
                },
                Event::Failed => (
                    StartState::Finished,
                    Action::Fail(ExperimentAppError::InvalidStorageRoot),
                ),
                _ => (StartState::Finished, Action::Fail(ExperimentAppError::UnexpectedEvent)),
            },
            StartState::CreatingContext { root, name } => match event {
                Event::Created(context) => {
                    let record = Place::Under(context.clone(), name_record());
                    (StartState::WritingName { context }, Action::Write(record, name))
                },
                Event::Failed => (StartState::Finished, Action::Fail(ExperimentAppError::Io)),
                _ => (StartState::Finished, Action::Fail(ExperimentAppError::UnexpectedEvent)),
            },
            StartState::WritingName { context } => match event {
                Event::Done => (StartState::ReadingClock { context }, Action::ReadClock),
                Event::Failed => (StartState::Finished, Action::Fail(ExperimentAppError::Io)),
                _ => (StartState::Finished, Action::Fail(ExperimentAppError::UnexpectedEvent)),
            },
            StartState::ReadingClock { context } => match event {
                Event::Time(time) => {
                    let record = Place::Under(context.clone(), start_time_record());
                    (StartState::WritingStartTime { context }, Action::Write(record, time))
                },
                _ => (StartState::Finished, Action::Fail(ExperimentAppError::UnexpectedEvent)),
            },
            StartState::WritingStartTime { context } => match event {
                Event::Done => (StartState::Finished, Action::Report(Place::At(context))),
                Event::Failed => (StartState::Finished, Action::Fail(ExperimentAppError::Io)),
                _ => (StartState::Finished, Action::Fail(ExperimentAppError::UnexpectedEvent)),
            },
            StartState::Finished => (
                StartState::Finished,
                Action::Fail(ExperimentAppError::UnexpectedEvent),
            ),
        }
    }
}

/// Where every step succeeds, the creation of a context makes sure of the
/// staging area, creates the context in it, writes the name into the
/// context's `name` record exactly as it was given, reads the clock, writes
/// the time into the `start-time` record, and reports the context's path.
pub proof fn lemma_start_records_name_and_time(
    root: Seq<char>,
    name: Seq<char>,
    context: Seq<char>,
    time: Seq<char>,
)
    ensures
        ({
            let staging = Place::Under(root, spec_staging_directory());
            let first = StartState::spec_begin(root, name);
            let second = first.0.spec_step(Event::Done);
            let third = second.0.spec_step(Event::Created(context));
            let fourth = third.0.spec_step(Event::Done);
            let fifth = fourth.0.spec_step(Event::Time(time));
            let sixth = fifth.0.spec_step(Event::Done);
            &&& first.1 == Action::EnsureDirectory(staging)
            &&& second.1 == Action::CreateUniqueDirectory(staging)
            &&& third.1 == Action::Write(Place::Under(context, spec_name_record()), name)
            &&& fourth.1 == Action::<Seq<char>>::ReadClock
            &&& fifth.1 == Action::Write(Place::Under(context, spec_start_time_record()), time)
            &&& sixth.1 == Action::Report(Place::At(context))
            &&& sixth.0 == StartState::<Seq<char>>::Finished
        }),
{
}

/// The creation of a context alters nothing outside the staging area: the
/// first action makes sure of the staging area, and whatever the state and
/// the event, a step that alters the disk creates the context in the
/// staging area, or writes the given name into the `name` record of the
/// context that was created, or writes the time that was read into its
/// `start-time` record.
pub proof fn lemma_start_alters(
    root: Seq<char>,
    name: Seq<char>,
    state: StartState<Seq<char>>,
    event: Event<Seq<char>>,
)
    ensures
        StartState::spec_begin(root, name).1 == Action::EnsureDirectory(
            Place::Under(root, spec_staging_directory()),
        ),
        state.spec_step(event).1.alters() ==> {
            ||| (state matches StartState::EnsuringStaging { root, name } && event is Done
                && state.spec_step(event).1 == Action::CreateUniqueDirectory(
                Place::Under(root, spec_staging_directory()),
            ))
            ||| (state matches StartState::CreatingContext { root, name } && event matches Event::Created(
                context,
            ) && state.spec_step(event).1 == Action::Write(
                Place::Under(context, spec_name_record()),
                name,
            ))
            ||| (state matches StartState::ReadingClock { context } && event matches Event::Time(time)
                && state.spec_step(event).1 == Action::Write(
                Place::Under(context, spec_start_time_record()),
                time,
            ))
        },
{
}

} // verus!
