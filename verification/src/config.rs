//! From what was typed and what the environment holds to what is to be done.
//!
//! The storage root and the context can each be given on the command line
//! or in the environment; the command line wins. The environment is read
//! once, by the caller, and handed over as plain values.

use vstd::prelude::*;
use vstd::string::StringExecFns;

use crate::error::ExperimentAppError;

verus! {

/// What the command line asks for, with the options that it may leave out.
#[derive(Debug, PartialEq, Eq)]
pub enum Invocation<S> {
    /// `start <name> [--storage-root <root>]`
    Start { name: S, root: Option<S> },
    /// `file <identifier> [--context <context>]`
    File { identifier: S, context: Option<S> },
    /// `commit [--storage-root <root>] [--context <context>]`
    Commit { root: Option<S>, context: Option<S> },
}

/// The two variables of the environment that stand in for missing options.
#[derive(Debug, PartialEq, Eq)]
pub struct Environment<S> {
    /// The value of `EXPERIMENT_STORAGE_ROOT`, where it is set.
    pub storage_root: Option<S>,
    /// The value of `EXPERIMENT_PATH`, where it is set.
    pub context: Option<S>,
}

/// An operation with all that it needs.
#[derive(Debug, PartialEq, Eq)]
pub enum Command<S> {
    /// Create a context for the experiment `name` under `root`.
    Start { root: S, name: S },
    /// Reserve the file `identifier` inside `context`.
    File { context: S, identifier: S },
    /// Publish `context` under `root`.
    Commit { context: S, root: S },
}

/// An optional text as contracts see it.
pub open spec fn spec_text(value: Option<String>) -> Option<Seq<char>> {
    match value {
        Some(text) => Some(text@),
        None => None,
    }
}

impl View for Invocation<String> {
    type V = Invocation<Seq<char>>;

    open spec fn view(&self) -> Invocation<Seq<char>> {
        match *self {
            Invocation::Start { name, root } => Invocation::Start {
                name: name@,
                root: spec_text(root),
            },
            Invocation::File { identifier, context } => Invocation::File {
                identifier: identifier@,
                context: spec_text(context),
            },
            Invocation::Commit { root, context } => Invocation::Commit {
                root: spec_text(root),
                context: spec_text(context),
            },
        }
    }
}

impl View for Environment<String> {
    type V = Environment<Seq<char>>;

    open spec fn view(&self) -> Environment<Seq<char>> {
        Environment {
            storage_root: spec_text(self.storage_root),
            context: spec_text(self.context),
        }
    }
}

impl View for Command<String> {
    type V = Command<Seq<char>>;

    open spec fn view(&self) -> Command<Seq<char>> {
        match *self {
            Command::Start { root, name } => Command::Start { root: root@, name: name@ },
            Command::File { context, identifier } => Command::File {
                context: context@,
                identifier: identifier@,
            },
            Command::Commit { context, root } => Command::Commit { context: context@, root: root@ },
        }
    }
}

/// The option where it was given, else the variable where it is set, else
/// the error.
pub open spec fn spec_settle(
    option: Option<Seq<char>>,
    variable: Option<Seq<char>>,
    missing: ExperimentAppError,
) -> Result<Seq<char>, ExperimentAppError> {
    match option {
        Some(text) => Ok(text),
        None => match variable {
            Some(text) => Ok(text),
            None => Err(missing),
        },
    }
}

/// The operation that an invocation asks for in an environment, or the
/// error for what is missing. A commit looks for its context first.
pub open spec fn spec_resolve(
    invocation: Invocation<Seq<char>>,
    environment: Environment<Seq<char>>,
) -> Result<Command<Seq<char>>, ExperimentAppError> {
    match invocation {
        Invocation::Start { name, root } => match spec_settle(
            root,
            environment.storage_root,
            ExperimentAppError::NoStorageRoot,
        ) {
            Ok(root) => Ok(Command::Start { root, name }),
            Err(error) => Err(error),
        },
        Invocation::File { identifier, context } => match spec_settle(
            context,
            environment.context,
            ExperimentAppError::NoContext,
        ) {
            Ok(context) => Ok(Command::File { context, identifier }),
            Err(error) => Err(error),
        },
        Invocation::Commit { root, context } => match spec_settle(
            context,
            environment.context,
            ExperimentAppError::NoContext,
        ) {
            Ok(context) => match spec_settle(
                root,
                environment.storage_root,
                ExperimentAppError::NoStorageRoot,
            ) {
                Ok(root) => Ok(Command::Commit { context, root }),
                Err(error) => Err(error),
            },
            Err(error) => Err(error),
        },
    }
}

/// The name of the variable that stands in for `--storage-root`.
pub fn storage_root_variable() -> (text: String)
    ensures
        text@ == "EXPERIMENT_STORAGE_ROOT"@,
{
    String::from_str("EXPERIMENT_STORAGE_ROOT")
}

/// The name of the variable that stands in for `--context`.
pub fn context_variable() -> (text: String)
    ensures
        text@ == "EXPERIMENT_PATH"@,
{
    String::from_str("EXPERIMENT_PATH")
}

/// Settles one path: the option wins over the variable, and where both are
/// missing the given error comes back.
pub fn settle(option: Option<String>, variable: Option<String>, missing: ExperimentAppError) -> (settled:
    Result<String, ExperimentAppError>)
    ensures
        match settled {
            Ok(text) => spec_settle(spec_text(option), spec_text(variable), missing) == Ok::<
                Seq<char>,
                ExperimentAppError,
            >(text@),
            Err(error) => spec_settle(spec_text(option), spec_text(variable), missing) == Err::<
                Seq<char>,
                ExperimentAppError,
            >(error),
        },
{
    match option {
        Some(text) => Ok(text),
        None => match variable {
            Some(text) => Ok(text),
            None => Err(missing),
        },
    }
}

/// Settles an invocation in an environment.
pub fn resolve(invocation: Invocation<String>, environment: Environment<String>) -> (resolved: Result<
    Command<String>,
    ExperimentAppError,
>)
    ensures
        match resolved {
            Ok(command) => spec_resolve(invocation@, environment@) == Ok::<
                Command<Seq<char>>,
                ExperimentAppError,
            >(command@),
            Err(error) => spec_resolve(invocation@, environment@) == Err::<
                Command<Seq<char>>,
                ExperimentAppError,
            >(error),
        },
{
    match invocation {
        Invocation::Start { name, root } => {
            match settle(root, environment.storage_root, ExperimentAppError::NoStorageRoot) {
                Ok(root) => Ok(Command::Start { root, name }),
                Err(error) => Err(error),
            }
        },
        Invocation::File { identifier, context } => {
            match settle(context, environment.context, ExperimentAppError::NoContext) {
                Ok(context) => Ok(Command::File { context, identifier }),
                Err(error) => Err(error),
            }
        },
        Invocation::Commit { root, context } => {
            match settle(context, environment.context, ExperimentAppError::NoContext) {
                Ok(context) => {
                    match settle(root, environment.storage_root, ExperimentAppError::NoStorageRoot) {
                        Ok(root) => Ok(Command::Commit { context, root }),
                        Err(error) => Err(error),
                    }
                },
                Err(error) => Err(error),
            }
        },
    }
}

/// An option on the command line decides, whatever the environment holds,
/// and without either the operation is refused: a start or a commit with no
/// storage root with `NoStorageRoot`, a file or a commit with no context
/// with `NoContext`.
pub proof fn lemma_resolve_prefers_options(
    name: Seq<char>,
    identifier: Seq<char>,
    root: Seq<char>,
    context: Seq<char>,
    environment: Environment<Seq<char>>,
)
    ensures
        spec_resolve(Invocation::Start { name, root: Some(root) }, environment) == Ok::<
            Command<Seq<char>>,
            ExperimentAppError,
        >(Command::Start { root, name }),
        spec_resolve(Invocation::File { identifier, context: Some(context) }, environment) == Ok::<
            Command<Seq<char>>,
            ExperimentAppError,
        >(Command::File { context, identifier }),
        spec_resolve(
            Invocation::Commit { root: Some(root), context: Some(context) },
            environment,
        ) == Ok::<Command<Seq<char>>, ExperimentAppError>(Command::Commit { context, root }),
        environment.storage_root is None ==> spec_resolve(
            Invocation::Start { name, root: None },
            environment,
        ) == Err::<Command<Seq<char>>, ExperimentAppError>(ExperimentAppError::NoStorageRoot),
        environment.context is None ==> spec_resolve(
            Invocation::File { identifier, context: None },
            environment,
        ) == Err::<Command<Seq<char>>, ExperimentAppError>(ExperimentAppError::NoContext),
        environment.context is None ==> spec_resolve(
            Invocation::Commit { root: None, context: None },
            environment,
        ) == Err::<Command<Seq<char>>, ExperimentAppError>(ExperimentAppError::NoContext),
        environment.storage_root is None ==> spec_resolve(
            Invocation::Commit { root: None, context: Some(context) },
            environment,
        ) == Err::<Command<Seq<char>>, ExperimentAppError>(ExperimentAppError::NoStorageRoot),
{
}

} // verus!
