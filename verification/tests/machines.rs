use experiment::commit::CommitState;
use experiment::error::ExperimentAppError;
use experiment::file::FileState;
use experiment::protocol::{Action, Event, Place};
use experiment::start::StartState;

fn text(value: &str) -> String {
    value.to_string()
}

fn under(base: &str, rest: &str) -> Place<String> {
    Place::Under(text(base), text(rest))
}

fn probing(code: [u8; 4]) -> (CommitState<String>, Action<String>) {
    let (state, _) = CommitState::begin(text("/r/.new/c"), text("/r"));
    let (state, _) = state.step(Event::Text(text("foo")));
    let (state, _) = state.step(Event::Text(text("T")));
    state.step(Event::Suffix(code))
}

#[test]
fn file_goes_through_parents_file_and_report() {
    let (state, action) = FileState::begin(text("/c"), text("data/output.txt"));
    assert_eq!(action, Action::CreateParents(under("/c", "data/output.txt")));
    let (state, action) = state.step(Event::Done);
    assert_eq!(action, Action::CreateEmpty(under("/c", "data/output.txt")));
    let (state, action) = state.step(Event::Done);
    assert_eq!(action, Action::Report(under("/c", "data/output.txt")));
    assert_eq!(state, FileState::Finished);
}

#[test]
fn file_keeps_traversal_segments() {
    let (state, action) = FileState::begin(text("/c"), text("../escape"));
    assert_eq!(action, Action::CreateParents(under("/c", "../escape")));
    let (_, action) = state.step(Event::Done);
    assert_eq!(action, Action::CreateEmpty(under("/c", "../escape")));
}

#[test]
fn file_names_its_two_failures() {
    let (state, _) = FileState::begin(text("/c"), text("a/b"));
    let (state, action) = state.step(Event::Failed);
    assert_eq!(action, Action::Fail(ExperimentAppError::AncestorCreation));
    assert_eq!(state, FileState::Finished);

    let (state, _) = FileState::begin(text("/c"), text("a/b"));
    let (state, _) = state.step(Event::Done);
    let (state, action) = state.step(Event::Failed);
    assert_eq!(action, Action::Fail(ExperimentAppError::FileCreation));
    assert_eq!(state, FileState::Finished);
}

#[test]
fn file_refuses_an_answer_that_does_not_fit() {
    let (state, _) = FileState::begin(text("/c"), text("a"));
    let (state, action) = state.step(Event::Found(true));
    assert_eq!(action, Action::Fail(ExperimentAppError::UnexpectedEvent));
    let (_, action) = state.step(Event::Done);
    assert_eq!(action, Action::Fail(ExperimentAppError::UnexpectedEvent));
}

#[test]
fn start_writes_name_then_time_then_reports() {
    let (state, action) = StartState::begin(text("/r"), text("foo"));
    assert_eq!(action, Action::EnsureDirectory(under("/r", ".new")));
    let (state, action) = state.step(Event::Done);
    assert_eq!(action, Action::CreateUniqueDirectory(under("/r", ".new")));
    let (state, action) = state.step(Event::Created(text("/r/.new/x1")));
    assert_eq!(action, Action::Write(under("/r/.new/x1", "name"), text("foo")));
    let (state, action) = state.step(Event::Done);
    assert_eq!(action, Action::ReadClock);
    let (state, action) = state.step(Event::Time(text("2018-05-01T12:00:00.123456+00:00")));
    assert_eq!(
        action,
        Action::Write(
            under("/r/.new/x1", "start-time"),
            text("2018-05-01T12:00:00.123456+00:00")
        )
    );
    let (state, action) = state.step(Event::Done);
    assert_eq!(action, Action::Report(Place::At(text("/r/.new/x1"))));
    assert_eq!(state, StartState::Finished);
}

#[test]
fn start_writes_any_name_unchanged() {
    for name in ["", " ", "a/b", "..", "naïve name\n", "-r"] {
        let (state, _) = StartState::begin(text("/r"), text(name));
        let (state, _) = state.step(Event::Done);
        let (_, action) = state.step(Event::Created(text("/c")));
        assert_eq!(action, Action::Write(under("/c", "name"), text(name)));
    }
}

#[test]
fn start_names_its_failures() {
    let (state, _) = StartState::begin(text("/r"), text("foo"));
    let (state, action) = state.step(Event::Failed);
    assert_eq!(action, Action::Fail(ExperimentAppError::InvalidStorageRoot));
    assert_eq!(state, StartState::Finished);

    let (state, _) = StartState::begin(text("/r"), text("foo"));
    let (state, _) = state.step(Event::Done);
    let (_, action) = state.step(Event::Failed);
    assert_eq!(action, Action::Fail(ExperimentAppError::Io));

    let (state, _) = StartState::begin(text("/r"), text("foo"));
    let (state, _) = state.step(Event::Done);
    let (state, _) = state.step(Event::Created(text("/c")));
    let (_, action) = state.step(Event::Failed);
    assert_eq!(action, Action::Fail(ExperimentAppError::Io));

    let (state, _) = StartState::begin(text("/r"), text("foo"));
    let (state, _) = state.step(Event::Done);
    let (state, _) = state.step(Event::Created(text("/c")));
    let (state, _) = state.step(Event::Done);
    let (state, _) = state.step(Event::Time(text("T")));
    let (_, action) = state.step(Event::Failed);
    assert_eq!(action, Action::Fail(ExperimentAppError::Io));
}

#[test]
fn start_refuses_an_answer_that_does_not_fit() {
    let (state, _) = StartState::begin(text("/r"), text("foo"));
    let (state, action) = state.step(Event::Created(text("/c")));
    assert_eq!(action, Action::Fail(ExperimentAppError::UnexpectedEvent));
    let (_, action) = state.step(Event::Done);
    assert_eq!(action, Action::Fail(ExperimentAppError::UnexpectedEvent));

    let (state, _) = StartState::begin(text("/r"), text("foo"));
    let (state, _) = state.step(Event::Done);
    let (state, _) = state.step(Event::Created(text("/c")));
    let (state, _) = state.step(Event::Done);
    let (_, action) = state.step(Event::Failed);
    assert_eq!(action, Action::Fail(ExperimentAppError::UnexpectedEvent));
}

#[test]
fn commit_reads_draws_probes_and_renames() {
    let (state, action) = CommitState::begin(text("/r/.new/c"), text("/r"));
    assert_eq!(action, Action::Read(under("/r/.new/c", "name")));
    let (state, action) = state.step(Event::Text(text("foo")));
    assert_eq!(action, Action::Read(under("/r/.new/c", "start-time")));
    let (state, action) = state.step(Event::Text(text("2018-05-01T12:00:00+00:00")));
    assert_eq!(action, Action::DrawSuffix);
    let (state, action) = state.step(Event::Suffix([0xde, 0xad, 0xbe, 0xef]));
    assert_eq!(action, Action::Probe(under("/r", "foo-2018-05-01T12:00:00+00:00-deadbeef")));
    let (state, action) = state.step(Event::Found(false));
    assert_eq!(
        action,
        Action::Rename(
            Place::At(text("/r/.new/c")),
            under("/r", "foo-2018-05-01T12:00:00+00:00-deadbeef")
        )
    );
    assert_eq!(state, CommitState::Renaming);
    let (state, action) = state.step(Event::Done);
    assert_eq!(action, Action::Succeed);
    assert_eq!(state, CommitState::Finished);
}

#[test]
fn commit_draws_again_where_the_name_is_taken() {
    let (state, action) = probing([0, 0, 0, 1]);
    assert_eq!(action, Action::Probe(under("/r", "foo-T-00000001")));
    let (state, action) = state.step(Event::Found(true));
    assert_eq!(action, Action::DrawSuffix);
    let (state, action) = state.step(Event::Suffix([0, 0, 0, 1]));
    assert_eq!(action, Action::Probe(under("/r", "foo-T-00000001")));
    let (state, action) = state.step(Event::Found(true));
    assert_eq!(action, Action::DrawSuffix);
    let (state, action) = state.step(Event::Suffix([0, 0, 0, 2]));
    assert_eq!(action, Action::Probe(under("/r", "foo-T-00000002")));
    let (state, action) = state.step(Event::Found(false));
    assert_eq!(
        action,
        Action::Rename(Place::At(text("/r/.new/c")), under("/r", "foo-T-00000002"))
    );
    let (_, action) = state.step(Event::Done);
    assert_eq!(action, Action::Succeed);
}

#[test]
fn commit_outlasts_a_thousand_collisions() {
    let (mut state, _) = probing([0, 0, 0, 0]);
    for round in 1u32..=1000 {
        let (next, action) = state.step(Event::Found(true));
        assert_eq!(action, Action::DrawSuffix);
        let (next, action) = next.step(Event::Suffix(round.to_be_bytes()));
        assert_eq!(action, Action::Probe(under("/r", &format!("foo-T-{:08x}", round))));
        state = next;
    }
    let (_, action) = state.step(Event::Found(false));
    assert_eq!(
        action,
        Action::Rename(Place::At(text("/r/.new/c")), under("/r", "foo-T-000003e8"))
    );
}

#[test]
fn commit_refuses_a_context_without_records() {
    let (state, _) = CommitState::begin(text("/c"), text("/r"));
    let (state, action) = state.step(Event::Failed);
    assert_eq!(action, Action::Fail(ExperimentAppError::InvalidContext));
    assert_eq!(state, CommitState::Finished);

    let (state, _) = CommitState::begin(text("/c"), text("/r"));
    let (state, _) = state.step(Event::Text(text("foo")));
    let (state, action) = state.step(Event::Failed);
    assert_eq!(action, Action::Fail(ExperimentAppError::InvalidContext));
    assert_eq!(state, CommitState::Finished);
}

#[test]
fn commit_names_its_other_failures() {
    let (state, _) = CommitState::begin(text("/c"), text("/r"));
    let (state, _) = state.step(Event::Text(text("foo")));
    let (state, _) = state.step(Event::Text(text("T")));
    let (state, action) = state.step(Event::Failed);
    assert_eq!(action, Action::Fail(ExperimentAppError::Entropy));
    assert_eq!(state, CommitState::Finished);

    let (state, _) = probing([1, 2, 3, 4]);
    let (state, _) = state.step(Event::Found(false));
    let (state, action) = state.step(Event::Failed);
    assert_eq!(action, Action::Fail(ExperimentAppError::Transfer));
    assert_eq!(state, CommitState::Finished);
}

#[test]
fn commit_refuses_an_answer_that_does_not_fit() {
    let (state, _) = CommitState::begin(text("/c"), text("/r"));
    let (_, action) = state.step(Event::Done);
    assert_eq!(action, Action::Fail(ExperimentAppError::UnexpectedEvent));

    let (state, _) = probing([1, 2, 3, 4]);
    let (state, action) = state.step(Event::Failed);
    assert_eq!(action, Action::Fail(ExperimentAppError::UnexpectedEvent));
    let (_, action) = state.step(Event::Found(false));
    assert_eq!(action, Action::Fail(ExperimentAppError::UnexpectedEvent));

    let (state, _) = probing([1, 2, 3, 4]);
    let (state, _) = state.step(Event::Found(false));
    let (state, _) = state.step(Event::Done);
    let (_, action) = state.step(Event::Done);
    assert_eq!(action, Action::Fail(ExperimentAppError::UnexpectedEvent));
}
