//! Publishing a context: one rename moves it from the staging area to a
//! name of its own directly under the storage root.
//!
//! The name is tried before the rename. A name that is taken costs a new
//! suffix and nothing else, however often it happens. Probe and rename are
//! two steps: two commits that draw the same suffix at the same moment are
//! not kept apart.

use vstd::prelude::*;

use crate::error::ExperimentAppError;
use crate::layout::{
    destination_name, name_record, spec_destination_name, spec_name_record,
    spec_start_time_record, start_time_record,
};
use crate::protocol::{Action, Event, Place};

verus! {

/// Where the publishing of a context stands.
#[derive(Debug, PartialEq, Eq)]
pub enum CommitState<S> {
    /// The experiment's name is being read from the context.
    ReadingName { context: S, root: S },
    /// The start time is being read from the context.
    ReadingStartTime { context: S, root: S, name: S },
    /// A suffix is being drawn.
    Drawing { context: S, root: S, name: S, start_time: S },
    /// The destination is being tried.
    Probing { context: S, root: S, name: S, start_time: S, destination: S },
    /// The context is being renamed.
    Renaming,
    /// The operation has ended.
    Finished,
}

impl View for CommitState<String> {
    type V = CommitState<Seq<char>>;

    open spec fn view(&self) -> CommitState<Seq<char>> {
        match *self {
            CommitState::ReadingName { context, root } => CommitState::ReadingName {
                context: context@,
                root: root@,
            },
            CommitState::ReadingStartTime { context, root, name } => CommitState::ReadingStartTime {
                context: context@,
                root: root@,
                name: name@,
            },
            CommitState::Drawing { context, root, name, start_time } => CommitState::Drawing {
                context: context@,
                root: root@,
                name: name@,
                start_time: start_time@,
            },
            CommitState::Probing {
                context,
                root,
                name,
                start_time,
                destination,
            } => CommitState::Probing {
                context: context@,
                root: root@,
                name: name@,
                start_time: start_time@,
                destination: destination@,
            },
            CommitState::Renaming => CommitState::Renaming,
            CommitState::Finished => CommitState::Finished,
        }
    }
}

impl CommitState<Seq<char>> {
    /// The first state and the first action, for a context and a storage
    /// root.
    pub open spec fn spec_begin(context: Seq<char>, root: Seq<char>) -> (Self, Action<Seq<char>>) {
        (
            CommitState::ReadingName { context, root },
            Action::Read(Place::Under(context, spec_name_record())),
        )
    }

    /// The state and the action that follow an event.
    pub open spec fn spec_step(self, event: Event<Seq<char>>) -> (Self, Action<Seq<char>>) {
        match self {
            CommitState::ReadingName { context, root } => match event {
                Event::Text(name) => (
                    CommitState::ReadingStartTime { context, root, name },
                    Action::Read(Place::Under(context, spec_start_time_record())),
                ),
                Event::Failed => (
                    CommitState::Finished,
                    Action::Fail(ExperimentAppError::InvalidContext),
                ),
                _ => (CommitState::Finished, Action::Fail(ExperimentAppError::UnexpectedEvent)),
            },
            CommitState::ReadingStartTime { context, root, name } => match event {
                Event::Text(start_time) => (
                    CommitState::Drawing { context, root, name, start_time },
                    Action::DrawSuffix,
                ),
                Event::Failed => (
                    CommitState::Finished,
                    Action::Fail(ExperimentAppError::InvalidContext),
                ),
                _ => (CommitState::Finished, Action::Fail(ExperimentAppError::UnexpectedEvent)),
            },
            CommitState::Drawing { context, root, name, start_time } => match event {
                Event::Suffix(code) => {
                    let destination = spec_destination_name(name, start_time, code@);
                    (
                        CommitState::Probing { context, root, name, start_time, destination },
                        Action::Probe(Place::Under(root, destination)),
                    )
                },
                Event::Failed => (CommitState::Finished, Action::Fail(ExperimentAppError::Entropy)),
                _ => (CommitState::Finished, Action::Fail(ExperimentAppError::UnexpectedEvent)),
            },
            CommitState::Probing { context, root, name, start_time, destination } => match event {
                Event::Found(true) => (
                    CommitState::Drawing { context, root, name, start_time },
                    Action::DrawSuffix,
                ),
                Event::Found(false) => (
                    CommitState::Renaming,
                    Action::Rename(Place::At(context), Place::Under(root, destination)),
                ),
                _ => (CommitState::Finished, Action::Fail(ExperimentAppError::UnexpectedEvent)),
            },
            CommitState::Renaming => match event {
                Event::Done => (CommitState::Finished, Action::Succeed),
                Event::Failed => (
                    CommitState::Finished,
                    Action::Fail(ExperimentAppError::Transfer),
                ),
                _ => (CommitState::Finished, Action::Fail(ExperimentAppError::UnexpectedEvent)),
            },
            CommitState::Finished => (
                CommitState::Finished,
                Action::Fail(ExperimentAppError::UnexpectedEvent),
            ),
        }
    }

    /// The actions that answer the events, one for each, from this state on.
    pub open spec fn spec_run(self, events: Seq<Event<Seq<char>>>) -> Seq<Action<Seq<char>>>
        decreases events.len(),
    {
        if events.len() == 0 {
            Seq::empty()
        } else {
            let next = self.spec_step(events[0]);
            seq![next.1] + next.0.spec_run(events.drop_first())
        }
    }

    /// The state that the events lead to from this one.
    pub open spec fn spec_after(self, events: Seq<Event<Seq<char>>>) -> Self
        decreases events.len(),
    {
        if events.len() == 0 {
            self
        } else {
            self.spec_step(events[0]).0.spec_after(events.drop_first())
        }
    }

    /// Whether a rename may still come: it has neither been asked for nor
    /// been ruled out by the end of the operation.
    pub open spec fn may_rename(self) -> bool {
        !(self is Renaming || self is Finished)
    }
}

impl CommitState<String> {
    /// Starts the publishing of `context` under `root`.
    pub fn begin(context: String, root: String) -> (first: (Self, Action<String>))
        ensures
            (first.0@, first.1@) == CommitState::spec_begin(context@, root@),
    {
        let record = Place::Under(context.clone(), name_record());
        (CommitState::ReadingName { context, root }, Action::Read(record))
    }

    /// Takes the answer to the pending action and gives the next action.
    pub fn step(self, event: Event<String>) -> (next: (Self, Action<String>))
        ensures
            (next.0@, next.1@) == self@.spec_step(event@),
    {
        match self {
            CommitState::ReadingName { context, root } => match event {
                Event::Text(name) => {
                    let record = Place::Under(context.clone(), start_time_record());
                    (CommitState::ReadingStartTime { context, root, name }, Action::Read(record))
                },
                Event::Failed => (
                    CommitState::Finished,
                    Action::Fail(ExperimentAppError::InvalidContext),
                ),
                _ => (CommitState::Finished, Action::Fail(ExperimentAppError::UnexpectedEvent)),
            },
            CommitState::ReadingStartTime { context, root, name } => match event {
                Event::Text(start_time) => (
                    CommitState::Drawing { context, root, name, start_time },
                    Action::DrawSuffix,
                ),
                Event::Failed => (
                    CommitState::Finished,
                    Action::Fail(ExperimentAppError::InvalidContext),
                ),
                _ => (CommitState::Finished, Action::Fail(ExperimentAppError::UnexpectedEvent)),
            },
            CommitState::Drawing { context, root, name, start_time } => match event {
                Event::Suffix(code) => {
                    let destination = destination_name(&name, &start_time, &code);
                    let target = Place::Under(root.clone(), destination.clone());
                    (
                        CommitState::Probing { context, root, name, start_time, destination },
                        Action::Probe(target),
                    )
                },
                Event::Failed => (CommitState::Finished, Action::Fail(ExperimentAppError::Entropy)),
                _ => (CommitState::Finished, Action::Fail(ExperimentAppError::UnexpectedEvent)),
            },
            CommitState::Probing { context, root, name, start_time, destination } => match event {
                Event::Found(true) => (
                    CommitState::Drawing { context, root, name, start_time },
                    Action::DrawSuffix,
                ),
                Event::Found(false) => (
                    CommitState::Renaming,
                    Action::Rename(Place::At(context), Place::Under(root, destination)),
                ),
                _ => (CommitState::Finished, Action::Fail(ExperimentAppError::UnexpectedEvent)),
            },
            CommitState::Renaming => match event {
                Event::Done => (CommitState::Finished, Action::Succeed),
                Event::Failed => (
                    CommitState::Finished,
                    Action::Fail(ExperimentAppError::Transfer),
                ),
                _ => (CommitState::Finished, Action::Fail(ExperimentAppError::UnexpectedEvent)),
            },
            CommitState::Finished => (
                CommitState::Finished,
                Action::Fail(ExperimentAppError::UnexpectedEvent),
            ),
        }
    }
}

impl CommitState<Seq<char>> {
    /// Whether the state, where it still names a context and a storage
    /// root, names these two.
    pub open spec fn bound_to(self, the_context: Seq<char>, the_root: Seq<char>) -> bool {
        match self {
            CommitState::ReadingName { context, root } => context == the_context && root == the_root,
            CommitState::ReadingStartTime { context, root, name } => context == the_context && root
                == the_root,
            CommitState::Drawing { context, root, name, start_time } => context == the_context
                && root == the_root,
            CommitState::Probing { context, root, name, start_time, destination } => context
                == the_context && root == the_root,
            CommitState::Renaming => true,
            CommitState::Finished => true,
        }
    }
}

/// Whether the action is the rename of the context to a name directly under
/// the storage root.
pub open spec fn publishes(action: Action<Seq<char>>, context: Seq<char>, root: Seq<char>) -> bool {
    action matches Action::Rename(from, to) && from == Place::At(context) && (to matches Place::Under(
        base,
        _,
    ) && base == root)
}

/// The events of a commit that draws each of the suffixes in turn and finds
/// every destination taken but the last.
pub open spec fn spec_attempts(codes: Seq<[u8; 4]>) -> Seq<Event<Seq<char>>>
    decreases codes.len(),
{
    if codes.len() == 0 {
        Seq::empty()
    } else {
        seq![Event::Suffix(codes[0]), Event::Found(codes.len() > 1)] + spec_attempts(
            codes.drop_first(),
        )
    }
}

/// A run answers each event with one action; the first answer is the step
/// from the state, and the others are the run from the next state.
proof fn lemma_run_unfolds(state: CommitState<Seq<char>>, events: Seq<Event<Seq<char>>>)
    requires
        events.len() > 0,
    ensures
        state.spec_run(events).len() == events.len(),
        state.spec_run(events)[0] == state.spec_step(events[0]).1,
        forall|i: int|
            0 < i < events.len() ==> state.spec_run(events)[i] == state.spec_step(
                events[0],
            ).0.spec_run(events.drop_first())[i - 1],
    decreases events.len(),
{
    let next = state.spec_step(events[0]).0;
    let rest = events.drop_first();
    if rest.len() > 0 {
        lemma_run_unfolds(next, rest);
    } else {
        assert(next.spec_run(rest).len() == 0);
    }
}

/// Once the rename has been asked for, or the operation has ended, no action
/// alters the disk and none reports success but the answer to the rename.
proof fn lemma_run_is_over(state: CommitState<Seq<char>>, events: Seq<Event<Seq<char>>>, i: int)
    requires
        !state.may_rename(),
        0 <= i < events.len(),
    ensures
        !state.spec_run(events)[i].alters(),
        state.spec_run(events)[i] is Succeed ==> i == 0 && state is Renaming && events[0] is Done,
    decreases events.len(),
{
    lemma_run_unfolds(state, events);
    if i > 0 {
        lemma_run_is_over(state.spec_step(events[0]).0, events.drop_first(), i - 1);
    }
}

/// What holds of the action at one place of a run, from any state.
proof fn lemma_run_at(
    state: CommitState<Seq<char>>,
    context: Seq<char>,
    root: Seq<char>,
    events: Seq<Event<Seq<char>>>,
    i: int,
)
    requires
        state.bound_to(context, root),
        0 <= i < events.len(),
    ensures
        state.spec_run(events)[i].alters() ==> publishes(state.spec_run(events)[i], context, root)
            && state.may_rename(),
        state.spec_run(events)[i].alters() ==> forall|j: int|
            i < j < events.len() ==> !state.spec_run(events)[j].alters(),
        state.spec_run(events)[i] is Succeed ==> events[i] is Done && if i == 0 {
            state is Renaming
        } else {
            state.spec_run(events)[i - 1] is Rename
        },
    decreases events.len(),
{
    lemma_run_unfolds(state, events);
    let next = state.spec_step(events[0]).0;
    let rest = events.drop_first();
    if i > 0 {
        lemma_run_at(next, context, root, rest, i - 1);
        if i > 1 {
            assert(state.spec_run(events)[i - 1] == next.spec_run(rest)[i - 2]);
        }
    } else if state.spec_run(events)[0].alters() {
        assert forall|j: int| 0 < j < events.len() implies !state.spec_run(events)[j].alters() by {
            lemma_run_is_over(next, rest, j - 1);
        }
    }
}

/// Publishing alters the disk by the rename alone: whatever the events, an
/// action of the run that alters anything is the rename of the context to a
/// name directly under the storage root.
pub proof fn lemma_commit_alters_by_rename_only(
    context: Seq<char>,
    root: Seq<char>,
    events: Seq<Event<Seq<char>>>,
    i: int,
)
    requires
        0 <= i < events.len(),
    ensures
        CommitState::spec_begin(context, root).0.spec_run(events)[i].alters() ==> publishes(
            CommitState::spec_begin(context, root).0.spec_run(events)[i],
            context,
            root,
        ),
        !CommitState::spec_begin(context, root).1.alters(),
{
    lemma_run_at(CommitState::spec_begin(context, root).0, context, root, events, i);
}

/// Publishing renames at most once: whatever the events, no two actions of
/// the run alter the disk.
pub proof fn lemma_commit_renames_at_most_once(
    context: Seq<char>,
    root: Seq<char>,
    events: Seq<Event<Seq<char>>>,
    i: int,
    j: int,
)
    requires
        0 <= i < j < events.len(),
    ensures
        !(CommitState::spec_begin(context, root).0.spec_run(events)[i].alters()
            && CommitState::spec_begin(context, root).0.spec_run(events)[j].alters()),
{
    lemma_run_at(CommitState::spec_begin(context, root).0, context, root, events, i);
}

/// Publishing succeeds exactly as the rename does: whatever the events, the
/// run reports success only in answer to `Done`, and only where the action
/// before it was the rename.
pub proof fn lemma_commit_succeeds_with_rename(
    context: Seq<char>,
    root: Seq<char>,
    events: Seq<Event<Seq<char>>>,
    i: int,
)
    requires
        0 <= i < events.len(),
    ensures
        CommitState::spec_begin(context, root).0.spec_run(events)[i] is Succeed ==> {
            &&& i > 0
            &&& events[i] is Done
            &&& publishes(
                CommitState::spec_begin(context, root).0.spec_run(events)[i - 1],
                context,
                root,
            )
        },
{
    let first = CommitState::spec_begin(context, root).0;
    lemma_run_at(first, context, root, events, i);
    if i > 0 {
        lemma_run_at(first, context, root, events, i - 1);
    }
}

/// A context without a readable `name` or `start-time` is not published:
/// where the first read fails, or the second after the first gave a name,
/// the run fails at that step with `InvalidContext`, and no action of the
/// run, before or after, alters the disk.
pub proof fn lemma_commit_refuses_invalid_context(
    context: Seq<char>,
    root: Seq<char>,
    events: Seq<Event<Seq<char>>>,
    i: int,
)
    requires
        0 <= i < events.len(),
        events[0] is Failed || (events.len() > 1 && events[0] is Text && events[1] is Failed),
    ensures
        CommitState::spec_begin(context, root).0.spec_run(events)[if events[0] is Failed {
            0int
        } else {
            1int
        }] == Action::<Seq<char>>::Fail(ExperimentAppError::InvalidContext),
        !CommitState::spec_begin(context, root).0.spec_run(events)[i].alters(),
        !(CommitState::spec_begin(context, root).0.spec_run(events)[i] is Succeed),
{
    let first = CommitState::spec_begin(context, root).0;
    lemma_run_unfolds(first, events);
    let second = first.spec_step(events[0]).0;
    let rest = events.drop_first();
    if events[0] is Failed {
        if i > 0 {
            lemma_run_is_over(second, rest, i - 1);
        }
    } else {
        lemma_run_unfolds(second, rest);
        assert(rest[0] == events[1]);
        let third = second.spec_step(rest[0]).0;
        if i > 1 {
            lemma_run_is_over(third, rest.drop_first(), i - 2);
        }
    }
}

/// From the drawing of a suffix on, a commit that finds every destination
/// taken but the last one asks for the rename to the last one.
proof fn lemma_attempts_end_in_rename(
    context: Seq<char>,
    root: Seq<char>,
    name: Seq<char>,
    start_time: Seq<char>,
    codes: Seq<[u8; 4]>,
)
    requires
        codes.len() > 0,
    ensures
        spec_attempts(codes).len() == 2 * codes.len(),
        (CommitState::Drawing { context, root, name, start_time }).spec_after(spec_attempts(codes))
            == CommitState::<Seq<char>>::Renaming,
        (CommitState::Drawing { context, root, name, start_time }).spec_run(
            spec_attempts(codes),
        ).last() == Action::Rename(
            Place::At(context),
            Place::Under(root, spec_destination_name(name, start_time, codes.last()@)),
        ),
        forall|i: int|
            0 <= i < 2 * codes.len() ==> !((CommitState::Drawing {
                context,
                root,
                name,
                start_time,
            }).spec_run(spec_attempts(codes))[i] is Fail),
    decreases codes.len(),
{
    let drawing = CommitState::Drawing { context, root, name, start_time };
    let events = spec_attempts(codes);
    let tail = spec_attempts(codes.drop_first());
    let head = seq![Event::<Seq<char>>::Suffix(codes[0]), Event::Found(codes.len() > 1)];
    if codes.len() > 1 {
        lemma_attempts_end_in_rename(context, root, name, start_time, codes.drop_first());
        assert(codes.drop_first().last() == codes.last());
    } else {
        assert(tail.len() == 0);
    }
    assert(events == head + tail);
    assert(events.len() == 2 * codes.len());
    let probing = drawing.spec_step(events[0]).0;
    let after = probing.spec_step(events[1]).0;
    lemma_run_unfolds(drawing, events);
    let rest = events.drop_first();
    lemma_run_unfolds(probing, rest);
    assert(rest[0] == events[1]);
    assert(rest.drop_first() =~= tail);
    assert(drawing.spec_after(events) == probing.spec_after(rest));
    assert(probing.spec_after(rest) == after.spec_after(tail));
    if codes.len() > 1 {
        assert(after == drawing);
        assert(codes.drop_first().len() == codes.len() - 1);
        assert forall|i: int| 0 <= i < 2 * codes.len() implies !(drawing.spec_run(events)[i] is Fail) by {
            if i >= 2 {
                assert(drawing.spec_run(events)[i] == probing.spec_run(rest)[i - 1]);
                assert(probing.spec_run(rest)[i - 1] == after.spec_run(tail)[i - 2]);
            } else if i == 1 {
                assert(drawing.spec_run(events)[1] == probing.spec_run(rest)[0]);
            }
        }
        let n = events.len() - 1;
        assert(drawing.spec_run(events)[n] == probing.spec_run(rest)[n - 1]);
        assert(probing.spec_run(rest)[n - 1] == after.spec_run(tail)[n - 2]);
    } else {
        assert(codes[0] == codes.last());
        assert(drawing.spec_run(events)[1] == probing.spec_run(rest)[0]);
    }
}

/// A destination that is taken costs a new suffix and nothing else: a commit
/// that reads the name and the start time, draws the suffixes one after the
/// other, finds every destination taken but the last, and whose rename then
/// succeeds, never fails on the way, renames the context to the last
/// destination and reports success.
pub proof fn lemma_commit_outlasts_collisions(
    context: Seq<char>,
    root: Seq<char>,
    name: Seq<char>,
    start_time: Seq<char>,
    codes: Seq<[u8; 4]>,
)
    requires
        codes.len() > 0,
    ensures
        ({
            let events = seq![Event::Text(name), Event::Text(start_time)] + spec_attempts(codes)
                + seq![Event::Done];
            let run = CommitState::spec_begin(context, root).0.spec_run(events);
            &&& run.len() == 2 * codes.len() + 3
            &&& forall|i: int| 0 <= i < run.len() ==> !(run[i] is Fail)
            &&& run[run.len() - 2] == Action::Rename(
                Place::At(context),
                Place::Under(root, spec_destination_name(name, start_time, codes.last()@)),
            )
            &&& run[run.len() - 1] == Action::<Seq<char>>::Succeed
        }),
{
    let attempts = spec_attempts(codes);
    let events = seq![Event::Text(name), Event::Text(start_time)] + attempts + seq![Event::Done];
    let first = CommitState::spec_begin(context, root).0;
    let second = CommitState::ReadingStartTime { context, root, name };
    let drawing = CommitState::Drawing { context, root, name, start_time };
    lemma_attempts_end_in_rename(context, root, name, start_time, codes);
    let tail = attempts + seq![Event::Done];
    lemma_run_unfolds(first, events);
    let rest = events.drop_first();
    lemma_run_unfolds(second, rest);
    assert(rest[0] == events[1]);
    assert(rest.drop_first() =~= tail);
    lemma_run_appends(drawing, attempts, seq![Event::Done]);
    lemma_run_unfolds(drawing, attempts);
    let renaming = CommitState::<Seq<char>>::Renaming;
    lemma_run_unfolds(renaming, seq![Event::Done]);
    assert(renaming.spec_run(seq![Event::Done])[0] == Action::<Seq<char>>::Succeed);
    assert(drawing.spec_run(tail).len() == 2 * codes.len() + 1);
    assert(forall|k: int|
        0 <= k < 2 * codes.len() ==> drawing.spec_run(tail)[k] == drawing.spec_run(attempts)[k]);
    assert(drawing.spec_run(tail)[2 * codes.len() as int] == Action::<Seq<char>>::Succeed);
    let run = first.spec_run(events);
    assert forall|i: int| 0 <= i < run.len() implies !(run[i] is Fail) by {
        if i >= 2 {
            assert(run[i] == second.spec_run(rest)[i - 1]);
            assert(second.spec_run(rest)[i - 1] == drawing.spec_run(tail)[i - 2]);
        } else if i == 1 {
            assert(run[1] == second.spec_run(rest)[0]);
        }
    }
    let n = run.len() - 1;
    assert(run[n] == second.spec_run(rest)[n - 1]);
    assert(second.spec_run(rest)[n - 1] == drawing.spec_run(tail)[n - 2]);
    assert(run[n - 1] == second.spec_run(rest)[n - 2]);
    assert(second.spec_run(rest)[n - 2] == drawing.spec_run(tail)[n - 3]);
}

/// The run over two stretches of events is the run over the first, then the
/// run over the second from the state that the first leads to.
proof fn lemma_run_appends(
    state: CommitState<Seq<char>>,
    front: Seq<Event<Seq<char>>>,
    back: Seq<Event<Seq<char>>>,
)
    ensures
        state.spec_run(front + back) == state.spec_run(front) + state.spec_after(front).spec_run(
            back,
        ),
    decreases front.len(),
{
    if front.len() == 0 {
        assert(front + back =~= back);
        assert(state.spec_run(front) + state.spec_run(back) =~= state.spec_run(back));
    } else {
        let next = state.spec_step(front[0]).0;
        lemma_run_appends(next, front.drop_first(), back);
        assert((front + back).drop_first() =~= front.drop_first() + back);
        assert((front + back)[0] == front[0]);
        assert(state.spec_run(front + back) =~= state.spec_run(front) + state.spec_after(
            front,
        ).spec_run(back));
    }
}


} // verus!
