use experiment::config::{
    context_variable, resolve, settle, storage_root_variable, Command, Environment, Invocation,
};
use experiment::error::ExperimentAppError;

fn text(value: &str) -> String {
    value.to_string()
}

fn empty_environment() -> Environment<String> {
    Environment { storage_root: None, context: None }
}

fn full_environment() -> Environment<String> {
    Environment { storage_root: Some(text("/env/root")), context: Some(text("/env/context")) }
}

#[test]
fn start_without_storage_root_is_refused() {
    let invocation = Invocation::Start { name: text("foo"), root: None };
    assert_eq!(resolve(invocation, empty_environment()), Err(ExperimentAppError::NoStorageRoot));
}

#[test]
fn start_ignores_the_context_variable() {
    let invocation = Invocation::Start { name: text("foo"), root: None };
    let environment = Environment { storage_root: None, context: Some(text("/env/context")) };
    assert_eq!(resolve(invocation, environment), Err(ExperimentAppError::NoStorageRoot));
}

#[test]
fn start_takes_the_option_before_the_variable() {
    let invocation = Invocation::Start { name: text("foo"), root: Some(text("/opt/root")) };
    assert_eq!(
        resolve(invocation, full_environment()),
        Ok(Command::Start { root: text("/opt/root"), name: text("foo") })
    );
}

#[test]
fn start_falls_back_on_the_variable() {
    let invocation = Invocation::Start { name: text("foo"), root: None };
    assert_eq!(
        resolve(invocation, full_environment()),
        Ok(Command::Start { root: text("/env/root"), name: text("foo") })
    );
}

#[test]
fn file_without_context_is_refused() {
    let invocation = Invocation::File { identifier: text("data/output.txt"), context: None };
    let environment = Environment { storage_root: Some(text("/env/root")), context: None };
    assert_eq!(resolve(invocation, environment), Err(ExperimentAppError::NoContext));
}

#[test]
fn file_takes_the_option_before_the_variable() {
    let invocation =
        Invocation::File { identifier: text("data/output.txt"), context: Some(text("/opt/c")) };
    assert_eq!(
        resolve(invocation, full_environment()),
        Ok(Command::File { context: text("/opt/c"), identifier: text("data/output.txt") })
    );
}

#[test]
fn file_falls_back_on_the_variable() {
    let invocation = Invocation::File { identifier: text("a"), context: None };
    assert_eq!(
        resolve(invocation, full_environment()),
        Ok(Command::File { context: text("/env/context"), identifier: text("a") })
    );
}

#[test]
fn commit_needs_both_paths() {
    let neither = Invocation::Commit { root: None, context: None };
    assert_eq!(resolve(neither, empty_environment()), Err(ExperimentAppError::NoContext));

    let only_root = Invocation::Commit { root: Some(text("/opt/root")), context: None };
    assert_eq!(resolve(only_root, empty_environment()), Err(ExperimentAppError::NoContext));

    let only_context = Invocation::Commit { root: None, context: Some(text("/opt/c")) };
    assert_eq!(resolve(only_context, empty_environment()), Err(ExperimentAppError::NoStorageRoot));
}

#[test]
fn commit_mixes_options_and_variables() {
    let invocation = Invocation::Commit { root: Some(text("/opt/root")), context: None };
    assert_eq!(
        resolve(invocation, full_environment()),
        Ok(Command::Commit { context: text("/env/context"), root: text("/opt/root") })
    );
    let invocation = Invocation::Commit { root: None, context: None };
    assert_eq!(
        resolve(invocation, full_environment()),
        Ok(Command::Commit { context: text("/env/context"), root: text("/env/root") })
    );
    let invocation =
        Invocation::Commit { root: Some(text("/opt/root")), context: Some(text("/opt/c")) };
    assert_eq!(
        resolve(invocation, full_environment()),
        Ok(Command::Commit { context: text("/opt/c"), root: text("/opt/root") })
    );
}

#[test]
fn settle_prefers_the_option() {
    let missing = ExperimentAppError::NoContext;
    assert_eq!(settle(Some(text("a")), Some(text("b")), missing), Ok(text("a")));
    assert_eq!(settle(Some(text("a")), None, missing), Ok(text("a")));
    assert_eq!(settle(None, Some(text("b")), missing), Ok(text("b")));
    assert_eq!(settle(None, None, missing), Err(ExperimentAppError::NoContext));
    assert_eq!(
        settle(None, None, ExperimentAppError::NoStorageRoot),
        Err(ExperimentAppError::NoStorageRoot)
    );
}

#[test]
fn an_empty_option_still_counts() {
    let missing = ExperimentAppError::NoStorageRoot;
    assert_eq!(settle(Some(text("")), Some(text("b")), missing), Ok(text("")));
}

#[test]
fn the_variables_have_their_names() {
    assert_eq!(storage_root_variable(), "EXPERIMENT_STORAGE_ROOT");
    assert_eq!(context_variable(), "EXPERIMENT_PATH");
}

#[test]
fn every_error_has_its_line() {
    assert_eq!(
        ExperimentAppError::NoContext.message(),
        "No experiment context specified by --context or EXPERIMENT_PATH."
    );
    assert_eq!(
        ExperimentAppError::AncestorCreation.message(),
        "Failed to create ancestor directories."
    );
    assert_eq!(ExperimentAppError::FileCreation.message(), "Failed to create file.");
    assert_eq!(ExperimentAppError::InvalidContext.message(), "Invalid experimental context.");
    assert_eq!(
        ExperimentAppError::NoStorageRoot.message(),
        "No storage root specified by --storage-root or EXPERIMENT_STORAGE_ROOT."
    );
    assert_eq!(
        ExperimentAppError::InvalidStorageRoot.message(),
        "Invalid experimental storage repository."
    );
    assert_eq!(ExperimentAppError::Io.message(), "Failed to write the experiment context.");
    assert_eq!(
        ExperimentAppError::Transfer.message(),
        "Failed to move the experiment into the repository."
    );
    assert_eq!(ExperimentAppError::Entropy.message(), "Failed to draw a random suffix.");
    assert_eq!(
        ExperimentAppError::UnexpectedEvent.message(),
        "Unexpected answer to a pending action."
    );
}
