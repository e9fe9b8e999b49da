//! What an operation asks of its caller, and what the caller reports back.
//!
//! Every type here has a parameter `S` for its text. With `String` it is the
//! value that runs; with `Seq<char>` it is the same value as contracts see
//! it, which is what `@` gives.

use vstd::prelude::*;

use crate::error::ExperimentAppError;

verus! {

/// A path, given by how it is put together. The caller joins the parts with
/// the platform's own rule for paths; the library never does.
#[derive(Debug, PartialEq, Eq)]
pub enum Place<S> {
    /// The path itself.
    At(S),
    /// The second path joined to the first.
    Under(S, S),
}

/// One step that an operation asks its caller to take, or its end.
#[derive(Debug, PartialEq, Eq)]
pub enum Action<S> {
    /// Create the directory and all missing directories above it, unless it
    /// is a directory already. Answer: `Done` or `Failed`.
    EnsureDirectory(Place<S>),
    /// Create a directory with a fresh, unique name inside the given one,
    /// and keep it when the process ends. Answer: `Created` with its
    /// absolute path, or `Failed`.
    CreateUniqueDirectory(Place<S>),
    /// Create or truncate the file and write the text to it, byte for byte.
    /// Answer: `Done` or `Failed`.
    Write(Place<S>, S),
    /// Create all missing directories above the path. Answer: `Done` or
    /// `Failed`.
    CreateParents(Place<S>),
    /// Create the file empty, truncating it where it exists. Answer: `Done`
    /// or `Failed`.
    CreateEmpty(Place<S>),
    /// Read the whole file as text. Answer: `Text`, or `Failed`.
    Read(Place<S>),
    /// Tell whether anything exists at the path. Answer: `Found`.
    Probe(Place<S>),
    /// Rename the first path to the second, in one step. Answer: `Done` or
    /// `Failed`.
    Rename(Place<S>, Place<S>),
    /// Read the clock. The library serves this one itself. Answer: `Time`.
    ReadClock,
    /// Draw a random suffix. The library serves this one itself. Answer:
    /// `Suffix`, or `Failed`.
    DrawSuffix,
    /// The operation succeeded: print the path.
    Report(Place<S>),
    /// The operation succeeded and has nothing to print.
    Succeed,
    /// The operation failed.
    Fail(ExperimentAppError),
}

/// How the action that was pending went.
#[derive(Debug, PartialEq, Eq)]
pub enum Event<S> {
    /// It succeeded and has nothing to tell.
    Done,
    /// It did not succeed.
    Failed,
    /// The unique directory was created at this absolute path.
    Created(S),
    /// The file was read, and held this text.
    Text(S),
    /// Whether something exists at the path.
    Found(bool),
    /// The time now, written out with its offset from UTC.
    Time(S),
    /// Four random bytes.
    Suffix([u8; 4]),
}

impl View for Place<String> {
    type V = Place<Seq<char>>;

    open spec fn view(&self) -> Place<Seq<char>> {
        match *self {
            Place::At(path) => Place::At(path@),
            Place::Under(base, rest) => Place::Under(base@, rest@),
        }
    }
}

impl View for Action<String> {
    type V = Action<Seq<char>>;

    open spec fn view(&self) -> Action<Seq<char>> {
        match *self {
            Action::EnsureDirectory(place) => Action::EnsureDirectory(place@),
            Action::CreateUniqueDirectory(place) => Action::CreateUniqueDirectory(place@),
            Action::Write(place, text) => Action::Write(place@, text@),
            Action::CreateParents(place) => Action::CreateParents(place@),
            Action::CreateEmpty(place) => Action::CreateEmpty(place@),
            Action::Read(place) => Action::Read(place@),
            Action::Probe(place) => Action::Probe(place@),
            Action::Rename(from, to) => Action::Rename(from@, to@),
            Action::ReadClock => Action::ReadClock,
            Action::DrawSuffix => Action::DrawSuffix,
            Action::Report(place) => Action::Report(place@),
            Action::Succeed => Action::Succeed,
            Action::Fail(error) => Action::Fail(error),
        }
    }
}

impl View for Event<String> {
    type V = Event<Seq<char>>;

    open spec fn view(&self) -> Event<Seq<char>> {
        match *self {
            Event::Done => Event::Done,
            Event::Failed => Event::Failed,
            Event::Created(path) => Event::Created(path@),
            Event::Text(text) => Event::Text(text@),
            Event::Found(found) => Event::Found(found),
            Event::Time(text) => Event::Time(text@),
            Event::Suffix(code) => Event::Suffix(code),
        }
    }
}

impl<S> Action<S> {
    /// Whether the action is one that the library serves itself.
    pub open spec fn is_internal(self) -> bool {
        self is ReadClock || self is DrawSuffix
    }

    /// Whether the action ends the operation.
    pub open spec fn is_final(self) -> bool {
        self is Report || self is Succeed || self is Fail
    }

    /// Whether the action changes what is on disk.
    pub open spec fn alters(self) -> bool {
        self is EnsureDirectory || self is CreateUniqueDirectory || self is Write
            || self is CreateParents || self is CreateEmpty || self is Rename
    }
}

} // verus!
