//! The prebuild step: find the asset files, have each turned into triangles,
//! and merge what comes back into one artifact.
//!
//! `PreBuild::run` names the first request and `PreBuild::step` the one that
//! follows each answer. The host builds the files in any order and with as
//! many workers as it likes; worker `i` reports through slot `i` of the
//! display that comes with the request.

use crate::artifact::artifact_of;
use crate::artifact::entries;
use crate::artifact::failures_of;
use crate::artifact::merge;
use crate::artifact::AssetOutcome;
use crate::assets::discover;
use crate::assets::retained;
use crate::config::is_stale;
use crate::config::stale;
use crate::config::Config;
use crate::terminal::encoded;
use crate::terminal::SubTerminal;
use crate::text::decimal;
use crate::text::decimal_text;
use crate::text::texts;
use serde_json::Value;
use crate::cli::subcommands::SubCommandTrait;
use vstd::prelude::*;
use vstd::string::StrSliceExecFns;
use vstd::string::StringExecFns;

verus! {

/// The tolerance used when neither the command line nor the configuration
/// gives one: the bit pattern of 3.0 in double precision.
pub const DEFAULT_EPSILON: u64 = 0x4008_0000_0000_0000;

/// The most lines that the progress display takes.
pub const MAX_SLOTS: u16 = 0xffff;

/// The options of the prebuild command.
#[derive(Clone, Debug)]
pub struct PreBuild {
    /// Patterns of the asset files; the configuration's are used when there
    /// are none.
    pub assets: Vec<String>,
    /// Tolerance of the outline simplification, as the bit pattern of a
    /// double-precision number.
    pub epsilon: Option<u64>,
    /// Draw each asset's triangles over its image.
    pub preview: bool,
    /// Open the folder of the previews when the build is done.
    pub open: bool,
}

/// Why a prebuild failed.
#[derive(Clone, Copy, Debug, PartialEq, Eq, Structural)]
pub enum PreBuildError {
    /// `.cazan` is missing.
    NotInitialized,
    /// The locked configuration could not be read or is not valid.
    LockedConfigUnreadable,
    /// `cazan.json` could not be read.
    ConfigUnreadable,
    /// A pattern of asset files is malformed.
    BadPattern,
    /// The artifact could not be written.
    ArtifactNotWritten,
    /// The folder of the previews could not be opened.
    PreviewNotOpened,
    /// An answer came that the pending request does not call for.
    OutOfTurn,
}

/// How a prebuild succeeded.
#[derive(Clone, Copy, Debug, PartialEq, Eq, Structural)]
pub enum PreBuildSuccess {
    /// No asset file was found: nothing was written.
    NothingToBuild,
    /// The artifact was written.
    Built,
}

/// What the host is asked to do next. Warnings are printed before the request
/// they come with is carried out.
#[derive(Debug)]
pub enum PreBuildAction {
    /// Tell whether `.cazan` exists.
    Probe { warnings: Vec<String> },
    /// Read the locked configuration, the bytes of `cazan.json` and the
    /// recorded checksum.
    Load,
    /// List the paths that match the patterns, pattern by pattern; for a
    /// pattern that names a directory, every file below it.
    Expand { patterns: Vec<String>, warnings: Vec<String> },
    /// Print `opening`, then build every file, reporting the progress of file
    /// `i` through slot `i` of `terminal`.
    Build { files: Vec<String>, epsilon: u64, preview: bool, terminal: SubTerminal, opening: String },
    /// Write the artifact to `.cazan/build/assets.json`.
    Write { artifact: serde_json::Map<String, Value>, warnings: Vec<String> },
    /// Open the folder of the previews.
    OpenPreview,
    /// Stop and report.
    Finish(Result<PreBuildSuccess, PreBuildError>),
}

/// The host's answer to the pending request.
#[derive(Debug)]
pub enum PreBuildEvent {
    /// Answer to `Probe`.
    Probed(bool),
    /// Answer to `Load`: each part, or nothing where it could not be had.
    Loaded { config: Option<Config>, live: Option<Vec<u8>>, recorded: Option<String> },
    /// Answer to `Expand`: the paths found, or nothing if a pattern is
    /// malformed.
    Expanded(Option<Vec<String>>),
    /// Answer to `Build`: how each file ended, in whatever order the host
    /// collected the workers.
    Built(Vec<AssetOutcome>),
    /// Answer to `Write`: whether the artifact was stored.
    Stored(bool),
    /// Answer to `OpenPreview`: whether the folder was opened.
    Opened(bool),
}

/// Where a prebuild stands between two requests.
#[derive(Clone, Copy, Debug, PartialEq, Eq, Structural)]
pub enum PreBuildState {
    /// Waiting to hear whether the project is initialized.
    Probing,
    /// Waiting for the configuration and the checksums.
    Loading,
    /// Waiting for the paths that match; `epsilon` is the tolerance to build
    /// with.
    Expanding { epsilon: u64 },
    /// Waiting for the workers.
    Building,
    /// Waiting for the artifact to be stored.
    Storing,
    /// Waiting for the folder of the previews to be opened.
    Opening,
    /// Nothing is pending.
    Finished,
}

/// The warning about `--open` without `--preview`.
pub open spec fn useless_open_text() -> Seq<char> {
    "Warning use of `--open` without `--preview` is useless"@
}

/// The warning about a lock that is out of date.
pub open spec fn stale_lock_text() -> Seq<char> {
    "Warning lock file is not up-to-date with cazan.json. To update it use `cazan lock`"@
}

/// What a worker reports when it has built a file.
pub open spec fn parsed_text(file_name: Seq<char>, triangles: nat) -> Seq<char> {
    "`"@ + file_name + "` to "@ + decimal(triangles) + " triangles"@
}

/// The name of a preview: the stem of the asset's file name, a hyphen, the
/// first five characters of its digest, a dot and its extension.
pub open spec fn preview_name(stem: Seq<char>, digest: Seq<char>, extension: Seq<char>) -> Seq<char> {
    let short = if digest.len() < 5 {
        digest
    } else {
        digest.take(5)
    };
    stem + "-"@ + short + "."@ + extension
}

/// The number of lines that the progress display takes for so many files:
/// one each, up to the most it can take.
pub open spec fn slots_for(files: nat) -> u16 {
    if files > MAX_SLOTS {
        MAX_SLOTS
    } else {
        files as u16
    }
}

/// Builds what a worker reports when it has built a file.
pub fn parsed_message(file_name: &str, triangles: usize) -> (line: String)
    ensures
        line@ == parsed_text(file_name@, triangles as nat),
{
    let mut line = String::from_str("`");
    line.append(file_name);
    line.append("` to ");
    let count = decimal_text(triangles as u64);
    line.append(count.as_str());
    line.append(" triangles");
    line
}

/// Builds the name of a preview.
pub fn preview_file_name(stem: &str, digest: &str, extension: &str) -> (name: String)
    ensures
        name@ == preview_name(stem@, digest@, extension@),
{
    let mut name = String::from_str(stem);
    name.append("-");
    if digest.unicode_len() < 5 {
        name.append(digest);
    } else {
        name.append(digest.substring_char(0, 5));
    }
    name.append(".");
    name.append(extension);
    name
}

impl PreBuildError {
    /// The line that reports the failure.
    pub open spec fn text(self) -> Seq<char> {
        match self {
            PreBuildError::NotInitialized => "Error cazan is not initialized for this directory"@,
            PreBuildError::LockedConfigUnreadable => "Error reading .cazan/config.json file"@,
            PreBuildError::ConfigUnreadable => "Error reading cazan.json file"@,
            PreBuildError::BadPattern => "Error reading the patterns of the assets"@,
            PreBuildError::ArtifactNotWritten => "Error writing .cazan/build/assets.json"@,
            PreBuildError::PreviewNotOpened => "Error opening the folder of the previews"@,
            PreBuildError::OutOfTurn => "Error prebuild was resumed out of turn"@,
        }
    }

    /// The line that reports the failure.
    pub fn message(&self) -> (line: String)
        ensures
            line@ == self.text(),
    {
        match self {
            PreBuildError::NotInitialized => String::from_str(
                "Error cazan is not initialized for this directory",
            ),
            PreBuildError::LockedConfigUnreadable => String::from_str(
                "Error reading .cazan/config.json file",
            ),
            PreBuildError::ConfigUnreadable => String::from_str("Error reading cazan.json file"),
            PreBuildError::BadPattern => String::from_str(
                "Error reading the patterns of the assets",
            ),
            PreBuildError::ArtifactNotWritten => String::from_str(
                "Error writing .cazan/build/assets.json",
            ),
            PreBuildError::PreviewNotOpened => String::from_str(
                "Error opening the folder of the previews",
            ),
            PreBuildError::OutOfTurn => String::from_str("Error prebuild was resumed out of turn"),
        }
    }
}

/// Whether `next` and `action` are a stop with the result `end`.
pub open spec fn stops(
    next: PreBuildState,
    action: PreBuildAction,
    end: Result<PreBuildSuccess, PreBuildError>,
) -> bool {
    &&& next == PreBuildState::Finished
    &&& action matches PreBuildAction::Finish(given)
    &&& given == end
}

impl PreBuild {
    /// The patterns to expand: those of the command line, or else those of
    /// the configuration.
    pub open spec fn patterns_for(self, config: Config) -> Seq<Seq<char>> {
        if self.assets@.len() == 0 {
            match config.assets {
                Some(patterns) => texts(patterns@),
                None => Seq::empty(),
            }
        } else {
            texts(self.assets@)
        }
    }

    /// The tolerance to build with: that of the command line, or else that of
    /// the configuration, or else the default.
    pub open spec fn epsilon_for(self, config: Config) -> u64 {
        match self.epsilon {
            Some(epsilon) => epsilon,
            None => match config.rdp_epsilon {
                Some(epsilon) => epsilon,
                None => DEFAULT_EPSILON,
            },
        }
    }

    /// The warnings that a prebuild begins with.
    pub open spec fn first_warnings(self) -> Seq<Seq<char>> {
        if self.open && !self.preview {
            seq![useless_open_text()]
        } else {
            Seq::empty()
        }
    }

    /// Whether `state` and `action` begin a prebuild.
    pub open spec fn begins(self, state: PreBuildState, action: PreBuildAction) -> bool {
        &&& state == PreBuildState::Probing
        &&& action matches PreBuildAction::Probe { warnings }
        &&& texts(warnings@) == self.first_warnings()
    }

    /// Whether `next` and `action` are what follows the loading.
    pub open spec fn follows_loading(
        self,
        config: Option<Config>,
        live: Option<Vec<u8>>,
        recorded: Option<String>,
        next: PreBuildState,
        action: PreBuildAction,
    ) -> bool {
        match (config, live) {
            (None, _) => stops(next, action, Err(PreBuildError::LockedConfigUnreadable)),
            (Some(_), None) => stops(next, action, Err(PreBuildError::ConfigUnreadable)),
            (Some(config), Some(live)) => {
                let kept = match recorded {
                    Some(kept) => kept@,
                    None => Seq::empty(),
                };
                &&& next == PreBuildState::Expanding { epsilon: self.epsilon_for(config) }
                &&& action matches PreBuildAction::Expand { patterns, warnings }
                &&& texts(patterns@) == self.patterns_for(config)
                &&& texts(warnings@) == if stale(live@, kept) {
                    seq![stale_lock_text()]
                } else {
                    Seq::empty()
                }
            },
        }
    }

    /// Whether `next` and `action` are what follows the expansion of the
    /// patterns.
    pub open spec fn follows_expansion(
        self,
        epsilon: u64,
        candidates: Option<Vec<String>>,
        next: PreBuildState,
        action: PreBuildAction,
    ) -> bool {
        match candidates {
            None => stops(next, action, Err(PreBuildError::BadPattern)),
            Some(candidates) => {
                let wanted = retained(texts(candidates@));
                if wanted.len() == 0 {
                    stops(next, action, Ok(PreBuildSuccess::NothingToBuild))
                } else {
                    &&& next == PreBuildState::Building
                    &&& action matches PreBuildAction::Build {
                        files,
                        epsilon: tolerance,
                        preview,
                        terminal,
                        opening,
                    }
                    &&& texts(files@) == wanted
                    &&& tolerance == epsilon
                    &&& preview == self.preview
                    &&& terminal.well_formed()
                    &&& terminal.height() == slots_for(wanted.len())
                    &&& terminal.cursor() == 0
                    &&& opening@ == encoded(SubTerminal::opening(terminal.height()))
                }
            },
        }
    }

    /// The transition, as a relation: whether `next` and `action` are what
    /// follows `event` in `state`.
    pub open spec fn follows(
        self,
        state: PreBuildState,
        event: PreBuildEvent,
        next: PreBuildState,
        action: PreBuildAction,
    ) -> bool {
        match (state, event) {
            (PreBuildState::Probing, PreBuildEvent::Probed(found)) => {
                if found {
                    next == PreBuildState::Loading && action is Load
                } else {
                    stops(next, action, Err(PreBuildError::NotInitialized))
                }
            },
            (PreBuildState::Loading, PreBuildEvent::Loaded { config, live, recorded }) => {
                self.follows_loading(config, live, recorded, next, action)
            },
            (PreBuildState::Expanding { epsilon }, PreBuildEvent::Expanded(candidates)) => {
                self.follows_expansion(epsilon, candidates, next, action)
            },
            (PreBuildState::Building, PreBuildEvent::Built(outcomes)) => {
                &&& next == PreBuildState::Storing
                &&& action matches PreBuildAction::Write { artifact, warnings }
                &&& entries(artifact) == artifact_of(outcomes@)
                &&& texts(warnings@) == failures_of(outcomes@)
            },
            (PreBuildState::Storing, PreBuildEvent::Stored(done)) => {
                if !done {
                    stops(next, action, Err(PreBuildError::ArtifactNotWritten))
                } else if self.preview && self.open {
                    next == PreBuildState::Opening && action is OpenPreview
                } else {
                    stops(next, action, Ok(PreBuildSuccess::Built))
                }
            },
            (PreBuildState::Opening, PreBuildEvent::Opened(done)) => {
                if done {
                    stops(next, action, Ok(PreBuildSuccess::Built))
                } else {
                    stops(next, action, Err(PreBuildError::PreviewNotOpened))
                }
            },
            _ => stops(next, action, Err(PreBuildError::OutOfTurn)),
        }
    }

    /// Takes the answer to the pending request and names the next one.
    pub fn step(&self, state: PreBuildState, event: PreBuildEvent) -> (next: (
        PreBuildState,
        PreBuildAction,
    ))
        ensures
            self.follows(state, event, next.0, next.1),
    {
        match state {
            PreBuildState::Probing => match event {
                PreBuildEvent::Probed(found) => {
                    if found {
                        (PreBuildState::Loading, PreBuildAction::Load)
                    } else {
                        stopped(Err(PreBuildError::NotInitialized))
                    }
                },
                _ => stopped(Err(PreBuildError::OutOfTurn)),
            },
            PreBuildState::Loading => match event {
                PreBuildEvent::Loaded { config, live, recorded } => self.after_loading(
                    config,
                    live,
                    recorded,
                ),
                _ => stopped(Err(PreBuildError::OutOfTurn)),
            },
            PreBuildState::Expanding { epsilon } => match event {
                PreBuildEvent::Expanded(candidates) => self.after_expansion(epsilon, candidates),
                _ => stopped(Err(PreBuildError::OutOfTurn)),
            },
            PreBuildState::Building => match event {
                PreBuildEvent::Built(outcomes) => {
                    let (artifact, warnings) = merge(outcomes);
                    (PreBuildState::Storing, PreBuildAction::Write { artifact, warnings })
                },
                _ => stopped(Err(PreBuildError::OutOfTurn)),
            },
            PreBuildState::Storing => match event {
                PreBuildEvent::Stored(done) => {
                    if !done {
                        stopped(Err(PreBuildError::ArtifactNotWritten))
                    } else if self.preview && self.open {
                        (PreBuildState::Opening, PreBuildAction::OpenPreview)
                    } else {
                        stopped(Ok(PreBuildSuccess::Built))
                    }
                },
                _ => stopped(Err(PreBuildError::OutOfTurn)),
            },
            PreBuildState::Opening => match event {
                PreBuildEvent::Opened(done) => {
                    if done {
                        stopped(Ok(PreBuildSuccess::Built))
                    } else {
                        stopped(Err(PreBuildError::PreviewNotOpened))
                    }
                },
                _ => stopped(Err(PreBuildError::OutOfTurn)),
            },
            PreBuildState::Finished => stopped(Err(PreBuildError::OutOfTurn)),
        }
    }

    /// Chooses patterns and tolerance and checks the lock.
    fn after_loading(
        &self,
        config: Option<Config>,
        live: Option<Vec<u8>>,
        recorded: Option<String>,
    ) -> (next: (PreBuildState, PreBuildAction))
        ensures
            self.follows_loading(config, live, recorded, next.0, next.1),
    {
        match config {
            None => stopped(Err(PreBuildError::LockedConfigUnreadable)),
            Some(config) => match live {
                None => stopped(Err(PreBuildError::ConfigUnreadable)),
                Some(live) => {
                    let epsilon: u64 = match self.epsilon {
                        Some(epsilon) => epsilon,
                        None => match config.rdp_epsilon {
                            Some(epsilon) => epsilon,
                            None => DEFAULT_EPSILON,
                        },
                    };
                    let kept = match recorded {
                        Some(kept) => kept,
                        None => String::new(),
                    };
                    let mut warnings: Vec<String> = Vec::new();
                    if is_stale(live.as_slice(), kept.as_str()) {
                        warnings.push(
                            String::from_str(
                                "Warning lock file is not up-to-date with cazan.json. To update it use `cazan lock`",
                            ),
                        );
                        assert(texts(warnings@) =~= seq![stale_lock_text()]);
                    } else {
                        assert(texts(warnings@) =~= Seq::<Seq<char>>::empty());
                    }
                    let patterns = if self.assets.len() == 0 {
                        match config.assets {
                            Some(patterns) => patterns,
                            None => {
                                let none: Vec<String> = Vec::new();
                                assert(texts(none@) =~= Seq::<Seq<char>>::empty());
                                none
                            },
                        }
                    } else {
                        self.assets.clone()
                    };
                    (PreBuildState::Expanding { epsilon }, PreBuildAction::Expand { patterns, warnings })
                },
            },
        }
    }

    /// Picks the files and sets up the progress display.
    fn after_expansion(&self, epsilon: u64, candidates: Option<Vec<String>>) -> (next: (
        PreBuildState,
        PreBuildAction,
    ))
        ensures
            self.follows_expansion(epsilon, candidates, next.0, next.1),
    {
        match candidates {
            None => stopped(Err(PreBuildError::BadPattern)),
            Some(candidates) => {
                let files = discover(&candidates);
                assert(texts(files@).len() == files@.len());
                if files.len() == 0 {
                    stopped(Ok(PreBuildSuccess::NothingToBuild))
                } else {
                    let lines: u16 = if files.len() > MAX_SLOTS as usize {
                        MAX_SLOTS
                    } else {
                        files.len() as u16
                    };
                    let (terminal, opening) = SubTerminal::new(lines);
                    (
                        PreBuildState::Building,
                        PreBuildAction::Build {
                            files,
                            epsilon,
                            preview: self.preview,
                            terminal,
                            opening,
                        },
                    )
                }
            },
        }
    }
}

impl SubCommandTrait for PreBuild {
    type State = PreBuildState;

    type Action = PreBuildAction;

    /// Begins a prebuild.
    fn run(&self) -> (begun: (PreBuildState, PreBuildAction))
        ensures
            self.begins(begun.0, begun.1),
    {
        let mut warnings: Vec<String> = Vec::new();
        if self.open && !self.preview {
            warnings.push(
                String::from_str("Warning use of `--open` without `--preview` is useless"),
            );
            assert(texts(warnings@) =~= seq![useless_open_text()]);
        } else {
            assert(texts(warnings@) =~= Seq::<Seq<char>>::empty());
        }
        (PreBuildState::Probing, PreBuildAction::Probe { warnings })
    }
}

fn stopped(end: Result<PreBuildSuccess, PreBuildError>) -> (stop: (PreBuildState, PreBuildAction))
    ensures
        stops(stop.0, stop.1, end),
{
    (PreBuildState::Finished, PreBuildAction::Finish(end))
}

/// A stale lock never stops a build. Once the locked configuration and the
/// live one are read, what is recorded as the checksum changes nothing but the
/// warnings: the state that follows and the patterns asked for are the same.
pub proof fn lemma_stale_lock_does_not_block(
    command: PreBuild,
    config: Config,
    live: Vec<u8>,
    recorded: Option<String>,
    next: PreBuildState,
    action: PreBuildAction,
)
    requires
        command.follows(
            PreBuildState::Loading,
            PreBuildEvent::Loaded { config: Some(config), live: Some(live), recorded },
            next,
            action,
        ),
    ensures
        next == (PreBuildState::Expanding { epsilon: command.epsilon_for(config) }),
        action matches PreBuildAction::Expand { patterns, warnings } && texts(patterns@)
            == command.patterns_for(config),
{
}

} // verus!
