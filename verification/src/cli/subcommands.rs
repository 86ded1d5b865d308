//! The commands as one type, and what they have in common.

use crate::cli::init::Init;
use crate::cli::init::InitAction;
use crate::cli::init::InitState;
use crate::cli::lock::Lock;
use crate::cli::lock::LockAction;
use crate::cli::lock::LockState;
use crate::cli::prebuild::PreBuild;
use crate::cli::prebuild::PreBuildAction;
use crate::cli::prebuild::PreBuildState;
use vstd::prelude::*;

verus! {

/// A command that runs as requests to a host.
pub trait SubCommandTrait {
    /// Where a run stands between two requests.
    type State;

    /// What the host is asked to do.
    type Action;

    /// Begins a run: where it stands and what it asks for first.
    fn run(&self) -> (Self::State, Self::Action);
}

/// One of the commands, with its options.
#[derive(Debug)]
pub enum SubCommandEnum {
    PreBuild(PreBuild),
    Init(Init),
    Lock(Lock),
}

/// A run that has begun: where it stands and its pending request.
#[derive(Debug)]
pub enum Session {
    PreBuild(PreBuildState, PreBuildAction),
    Init(InitState, InitAction),
    Lock(LockState, LockAction),
}

impl SubCommandEnum {
    /// Whether `session` is the beginning of this command's run.
    pub open spec fn begins(self, session: Session) -> bool {
        match self {
            SubCommandEnum::PreBuild(command) => {
                session matches Session::PreBuild(state, action) && command.begins(state, action)
            },
            SubCommandEnum::Init(command) => {
                session matches Session::Init(state, action) && command.begins(state@, action)
            },
            SubCommandEnum::Lock(command) => {
                session matches Session::Lock(state, action) && (state@, action@)
                    == command.first()
            },
        }
    }

    /// Begins the run of whichever command this is.
    pub fn run(&self) -> (session: Session)
        ensures
            self.begins(session),
    {
        match self {
            SubCommandEnum::PreBuild(command) => {
                let (state, action) = command.run();
                Session::PreBuild(state, action)
            },
            SubCommandEnum::Init(command) => {
                let (state, action) = command.run();
                Session::Init(state, action)
            },
            SubCommandEnum::Lock(command) => {
                let (state, action) = command.run();
                Session::Lock(state, action)
            },
        }
    }
}

} // verus!
