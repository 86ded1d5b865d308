//! The init step: create `.cazan` and a first `cazan.json`.
//!
//! `Init::run` names the first request and `Init::step` the one that follows
//! each answer.

use crate::config::Config;
use crate::cli::subcommands::SubCommandTrait;
use vstd::prelude::*;
use vstd::string::StringExecFns;

verus! {

/// The options of the init command.
#[derive(Clone, Copy, Debug, PartialEq, Eq, Structural)]
pub struct Init {
    /// Initialize again a project that already is.
    pub force: bool,
}

/// Why an init failed.
#[derive(Clone, Copy, Debug, PartialEq, Eq, Structural)]
pub enum InitError {
    /// The current directory has no name to call the project by.
    NoProjectName,
    /// The old `.cazan` could not be removed.
    NotRecreated,
    /// `.cazan` is already there and `force` was not given.
    AlreadyInitialized,
    /// `.cazan` could not be created.
    DirectoryNotCreated,
    /// `cazan.json` could not be written.
    ConfigNotWritten,
    /// `cazan.json` could not be written over the old one.
    ConfigNotRewritten,
    /// An answer came that the pending request does not call for.
    OutOfTurn,
}

/// How an init succeeded.
#[derive(Clone, Copy, Debug, PartialEq, Eq, Structural)]
pub enum InitSuccess {
    /// `.cazan` and `cazan.json` were created.
    Initialized,
    /// `.cazan` was created; the `cazan.json` that was there is kept.
    ConfigKept,
}

/// What the host is asked to do next.
#[derive(Debug, PartialEq, Eq)]
pub enum InitAction {
    /// Give the name of the current directory.
    NameProject,
    /// Tell whether `.cazan` exists.
    ProbeDirectory,
    /// Remove `.cazan` and all it holds.
    RemoveDirectory,
    /// Create `.cazan`.
    CreateDirectory,
    /// Tell whether `cazan.json` exists.
    ProbeConfig,
    /// Write `config` to `cazan.json`.
    WriteConfig { config: Config },
    /// Stop and report.
    Finish(Result<InitSuccess, InitError>),
}

/// The host's answer to the pending request.
#[derive(Debug, PartialEq, Eq)]
pub enum InitEvent {
    /// Answer to `NameProject`: the name, or nothing if there is none.
    Named(Option<String>),
    /// Answer to `ProbeDirectory` and `ProbeConfig`.
    Exists(bool),
    /// Answer to `RemoveDirectory`, `CreateDirectory` and `WriteConfig`:
    /// whether it was done.
    Done(bool),
}

/// Where an init stands between two requests.
#[derive(Debug, PartialEq, Eq)]
pub enum InitState {
    /// Waiting for the project's name.
    Naming,
    /// Waiting to hear whether there is an old `.cazan` to remove.
    ProbingOld { name: String },
    /// Waiting for the old `.cazan` to be removed.
    Removing { name: String },
    /// Waiting for `.cazan` to be created.
    Creating { name: String },
    /// Waiting to hear why `.cazan` could not be created.
    Diagnosing,
    /// Waiting to hear whether there is a `cazan.json` to keep.
    ProbingConfig { name: String },
    /// Waiting for `cazan.json` to be written.
    Writing,
    /// Nothing is pending.
    Finished,
}

/// Where an init stands, with the name as plain text.
pub enum Stage {
    Naming,
    ProbingOld { name: Seq<char> },
    Removing { name: Seq<char> },
    Creating { name: Seq<char> },
    Diagnosing,
    ProbingConfig { name: Seq<char> },
    Writing,
    Finished,
}

impl View for InitState {
    type V = Stage;

    open spec fn view(&self) -> Stage {
        match *self {
            InitState::Naming => Stage::Naming,
            InitState::ProbingOld { name } => Stage::ProbingOld { name: name@ },
            InitState::Removing { name } => Stage::Removing { name: name@ },
            InitState::Creating { name } => Stage::Creating { name: name@ },
            InitState::Diagnosing => Stage::Diagnosing,
            InitState::ProbingConfig { name } => Stage::ProbingConfig { name: name@ },
            InitState::Writing => Stage::Writing,
            InitState::Finished => Stage::Finished,
        }
    }
}

impl InitError {
    /// The line that reports the failure.
    pub open spec fn text(self) -> Seq<char> {
        match self {
            InitError::NoProjectName => "Error reading the name of the current directory"@,
            InitError::NotRecreated => "Error recreating .cazan directory"@,
            InitError::AlreadyInitialized => "Error creating .cazan directory: Already existing (try using --force)"@,
            InitError::DirectoryNotCreated => "Error creating .cazan directory"@,
            InitError::ConfigNotWritten => "Error creating cazan.json with default config"@,
            InitError::ConfigNotRewritten => "Error re-creating cazan.json with default config"@,
            InitError::OutOfTurn => "Error init was resumed out of turn"@,
        }
    }

    /// The line that reports the failure.
    pub fn message(&self) -> (line: String)
        ensures
            line@ == self.text(),
    {
        match self {
            InitError::NoProjectName => String::from_str(
                "Error reading the name of the current directory",
            ),
            InitError::NotRecreated => String::from_str("Error recreating .cazan directory"),
            InitError::AlreadyInitialized => String::from_str(
                "Error creating .cazan directory: Already existing (try using --force)",
            ),
            InitError::DirectoryNotCreated => String::from_str("Error creating .cazan directory"),
            InitError::ConfigNotWritten => String::from_str(
                "Error creating cazan.json with default config",
            ),
            InitError::ConfigNotRewritten => String::from_str(
                "Error re-creating cazan.json with default config",
            ),
            InitError::OutOfTurn => String::from_str("Error init was resumed out of turn"),
        }
    }
}

impl InitSuccess {
    /// The line that reports the success; keeping the old `cazan.json` is not
    /// reported.
    pub open spec fn text(self) -> Option<Seq<char>> {
        match self {
            InitSuccess::Initialized => Some("Initialized cazan project"@),
            InitSuccess::ConfigKept => None,
        }
    }

    /// The line that reports the success, if there is one.
    pub fn message(&self) -> (line: Option<String>)
        ensures
            line is Some == self.text() is Some,
            line matches Some(line) ==> self.text() == Some(line@),
    {
        match self {
            InitSuccess::Initialized => Some(String::from_str("Initialized cazan project")),
            InitSuccess::ConfigKept => None,
        }
    }
}

/// Whether `next` and `action` are a stop with the result `end`.
pub open spec fn stops(next: Stage, action: InitAction, end: Result<InitSuccess, InitError>) -> bool {
    &&& next == Stage::Finished
    &&& action matches InitAction::Finish(given)
    &&& given == end
}

impl Init {
    /// Whether `state` and `action` begin an init.
    pub open spec fn begins(self, state: Stage, action: InitAction) -> bool {
        state == Stage::Naming && action is NameProject
    }

    /// The transition, as a relation: whether `next` and `action` are what
    /// follows `event` in `state`.
    pub open spec fn follows(self, state: Stage, event: InitEvent, next: Stage, action: InitAction) -> bool {
        match (state, event) {
            (Stage::Naming, InitEvent::Named(None)) => stops(
                next,
                action,
                Err(InitError::NoProjectName),
            ),
            (Stage::Naming, InitEvent::Named(Some(name))) => {
                if self.force {
                    next == (Stage::ProbingOld { name: name@ }) && action is ProbeDirectory
                } else {
                    next == (Stage::Creating { name: name@ }) && action is CreateDirectory
                }
            },
            (Stage::ProbingOld { name }, InitEvent::Exists(found)) => {
                if found {
                    next == (Stage::Removing { name }) && action is RemoveDirectory
                } else {
                    next == (Stage::Creating { name }) && action is CreateDirectory
                }
            },
            (Stage::Removing { name }, InitEvent::Done(done)) => {
                if done {
                    next == (Stage::Creating { name }) && action is CreateDirectory
                } else {
                    stops(next, action, Err(InitError::NotRecreated))
                }
            },
            (Stage::Creating { name }, InitEvent::Done(done)) => {
                if !done {
                    next == Stage::Diagnosing && action is ProbeDirectory
                } else if self.force {
                    &&& next == Stage::Writing
                    &&& action matches InitAction::WriteConfig { config }
                    &&& config.is_starter(name)
                } else {
                    next == (Stage::ProbingConfig { name }) && action is ProbeConfig
                }
            },
            (Stage::Diagnosing, InitEvent::Exists(found)) => {
                if found {
                    stops(next, action, Err(InitError::AlreadyInitialized))
                } else {
                    stops(next, action, Err(InitError::DirectoryNotCreated))
                }
            },
            (Stage::ProbingConfig { name }, InitEvent::Exists(found)) => {
                if found {
                    stops(next, action, Ok(InitSuccess::ConfigKept))
                } else {
                    &&& next == Stage::Writing
                    &&& action matches InitAction::WriteConfig { config }
                    &&& config.is_starter(name)
                }
            },
            (Stage::Writing, InitEvent::Done(done)) => {
                if done {
                    stops(next, action, Ok(InitSuccess::Initialized))
                } else if self.force {
                    stops(next, action, Err(InitError::ConfigNotRewritten))
                } else {
                    stops(next, action, Err(InitError::ConfigNotWritten))
                }
            },
            _ => stops(next, action, Err(InitError::OutOfTurn)),
        }
    }

    /// Takes the answer to the pending request and names the next one.
    pub fn step(&self, state: InitState, event: InitEvent) -> (next: (InitState, InitAction))
        ensures
            self.follows(state@, event, next.0@, next.1),
    {
        match state {
            InitState::Naming => match event {
                InitEvent::Named(None) => stopped(Err(InitError::NoProjectName)),
                InitEvent::Named(Some(name)) => {
                    if self.force {
                        (InitState::ProbingOld { name }, InitAction::ProbeDirectory)
                    } else {
                        (InitState::Creating { name }, InitAction::CreateDirectory)
                    }
                },
                _ => stopped(Err(InitError::OutOfTurn)),
            },
            InitState::ProbingOld { name } => match event {
                InitEvent::Exists(found) => {
                    if found {
                        (InitState::Removing { name }, InitAction::RemoveDirectory)
                    } else {
                        (InitState::Creating { name }, InitAction::CreateDirectory)
                    }
                },
                _ => stopped(Err(InitError::OutOfTurn)),
            },
            InitState::Removing { name } => match event {
                InitEvent::Done(done) => {
                    if done {
                        (InitState::Creating { name }, InitAction::CreateDirectory)
                    } else {
                        stopped(Err(InitError::NotRecreated))
                    }
                },
                _ => stopped(Err(InitError::OutOfTurn)),
            },
            InitState::Creating { name } => match event {
                InitEvent::Done(done) => {
                    if !done {
                        (InitState::Diagnosing, InitAction::ProbeDirectory)
                    } else if self.force {
                        let config = Config::starter(name.as_str());
                        (InitState::Writing, InitAction::WriteConfig { config })
                    } else {
                        (InitState::ProbingConfig { name }, InitAction::ProbeConfig)
                    }
                },
                _ => stopped(Err(InitError::OutOfTurn)),
            },
            InitState::Diagnosing => match event {
                InitEvent::Exists(found) => {
                    if found {
                        stopped(Err(InitError::AlreadyInitialized))
                    } else {
                        stopped(Err(InitError::DirectoryNotCreated))
                    }
                },
                _ => stopped(Err(InitError::OutOfTurn)),
            },
            InitState::ProbingConfig { name } => match event {
                InitEvent::Exists(found) => {
                    if found {
                        stopped(Ok(InitSuccess::ConfigKept))
                    } else {
                        let config = Config::starter(name.as_str());
                        (InitState::Writing, InitAction::WriteConfig { config })
                    }
                },
                _ => stopped(Err(InitError::OutOfTurn)),
            },
            InitState::Writing => match event {
                InitEvent::Done(done) => {
                    if done {
                        stopped(Ok(InitSuccess::Initialized))
                    } else if self.force {
                        stopped(Err(InitError::ConfigNotRewritten))
                    } else {
                        stopped(Err(InitError::ConfigNotWritten))
                    }
                },
                _ => stopped(Err(InitError::OutOfTurn)),
            },
            InitState::Finished => stopped(Err(InitError::OutOfTurn)),
        }
    }
}

impl SubCommandTrait for Init {
    type State = InitState;

    type Action = InitAction;

    /// Begins an init.
    fn run(&self) -> (begun: (InitState, InitAction))
        ensures
            self.begins(begun.0@, begun.1),
    {
        (InitState::Naming, InitAction::NameProject)
    }
}

fn stopped(end: Result<InitSuccess, InitError>) -> (stop: (InitState, InitAction))
    ensures
        stops(stop.0@, stop.1, end),
{
    (InitState::Finished, InitAction::Finish(end))
}

} // verus!
