//! The lock step: snapshot the live configuration into `.cazan/config.json`
//! and record its digest in `.cazan/checksum.txt`.
//!
//! `Lock::run` names the first request and `Lock::step` the one that follows
//! each answer. Snapshot and checksum change together or not at all: the old
//! snapshot is read before the new one is stored, the checksum is written only
//! in answer to a stored snapshot, and where the checksum cannot be written
//! the old snapshot is put back. Only where putting it back fails too does a
//! lock end with one file new and the other old, and it says so.

use crate::config::checksum;
use crate::config::digest_of;
use crate::config::lemma_unrecorded_is_stale;
use crate::text::quoted_list;
use crate::text::quoted_list_text;
use crate::text::texts;
use crate::cli::subcommands::SubCommandTrait;
use vstd::prelude::*;
use vstd::string::StringExecFns;
use vstd::utf8::encode_utf8;

verus! {

/// The options of the lock command.
#[derive(Clone, Copy, Debug, PartialEq, Eq, Structural)]
pub struct Lock {
    /// Lock without checking that the configuration is valid.
    pub force: bool,
    /// Keep fields that the schema does not know.
    pub allow_unknown: bool,
}

/// Why a lock failed.
#[derive(Clone, Copy, Debug, PartialEq, Eq, Structural)]
pub enum LockError {
    /// `cazan.json` or `.cazan` is missing.
    NotInitialized,
    /// `cazan.json` could not be read.
    ConfigUnreadable,
    /// `.cazan/checksum.txt` is there but holds nothing that can be read.
    ChecksumUnreadable,
    /// The configuration does not fit the schema.
    InvalidConfig,
    /// Copying `cazan.json` over the snapshot failed.
    SnapshotNotCopied,
    /// Writing the normalized snapshot failed.
    SnapshotNotWritten,
    /// The checksum could not be saved; the old snapshot was put back.
    ChecksumNotSaved,
    /// `.cazan/config.json` is there but cannot be read, so it could not be
    /// put back if the lock failed half way.
    SnapshotUnreadable,
    /// The checksum could not be saved and the old snapshot could not be put
    /// back: the snapshot is new, the checksum is old.
    SnapshotNotRestored,
    /// An answer came that the pending request does not call for.
    OutOfTurn,
}

/// How a lock succeeded.
#[derive(Clone, Copy, Debug, PartialEq, Eq, Structural)]
pub enum LockSuccess {
    /// Snapshot and checksum were written.
    Locked,
    /// The recorded checksum matches: nothing was written.
    UpToDate,
}

/// What validating a configuration text found.
#[derive(Debug, PartialEq, Eq)]
pub struct Validated {
    /// The configuration written out again with the known fields only.
    pub normalized: String,
    /// The fields that the schema does not know, as paths.
    pub unknown: Vec<String>,
}

pub struct ValidatedView {
    pub normalized: Seq<char>,
    pub unknown: Seq<Seq<char>>,
}

impl View for Validated {
    type V = ValidatedView;

    open spec fn view(&self) -> ValidatedView {
        ValidatedView { normalized: self.normalized@, unknown: texts(self.unknown@) }
    }
}

/// What the host is asked to do next.
#[derive(Debug, PartialEq, Eq)]
pub enum LockAction {
    /// Tell whether `cazan.json` and `.cazan` exist.
    Probe,
    /// Read `cazan.json` as text.
    ReadConfig,
    /// Read `.cazan/checksum.txt` and tell whether the file exists.
    ReadChecksum,
    /// Check `text` against the schema.
    Validate { text: String },
    /// Read `.cazan/config.json` as text and tell whether the file exists.
    ReadSnapshot,
    /// Copy `cazan.json` to `.cazan/config.json` as it is.
    CopyConfig,
    /// Print the warning, if there is one, then write `text` to
    /// `.cazan/config.json`.
    WriteSnapshot { text: String, warning: Option<String> },
    /// Write `digest` to `.cazan/checksum.txt`.
    WriteChecksum { digest: String },
    /// Put `.cazan/config.json` back as it was: write `previous` to it, or
    /// remove it if there was none.
    RestoreSnapshot { previous: Option<String> },
    /// Stop and report.
    Finish(Result<LockSuccess, LockError>),
}

pub enum LockActionView {
    Probe,
    ReadConfig,
    ReadChecksum,
    Validate { text: Seq<char> },
    ReadSnapshot,
    CopyConfig,
    WriteSnapshot { text: Seq<char>, warning: Option<Seq<char>> },
    WriteChecksum { digest: Seq<char> },
    RestoreSnapshot { previous: Option<Seq<char>> },
    Finish(Result<LockSuccess, LockError>),
}

/// An optional text as plain characters.
pub open spec fn shown(text: Option<String>) -> Option<Seq<char>> {
    match text {
        Some(text) => Some(text@),
        None => None,
    }
}

impl View for LockAction {
    type V = LockActionView;

    open spec fn view(&self) -> LockActionView {
        match *self {
            LockAction::Probe => LockActionView::Probe,
            LockAction::ReadConfig => LockActionView::ReadConfig,
            LockAction::ReadChecksum => LockActionView::ReadChecksum,
            LockAction::Validate { text } => LockActionView::Validate { text: text@ },
            LockAction::ReadSnapshot => LockActionView::ReadSnapshot,
            LockAction::CopyConfig => LockActionView::CopyConfig,
            LockAction::WriteSnapshot { text, warning } => LockActionView::WriteSnapshot {
                text: text@,
                warning: shown(warning),
            },
            LockAction::WriteChecksum { digest } => LockActionView::WriteChecksum {
                digest: digest@,
            },
            LockAction::RestoreSnapshot { previous } => LockActionView::RestoreSnapshot {
                previous: shown(previous),
            },
            LockAction::Finish(end) => LockActionView::Finish(end),
        }
    }
}

/// The host's answer to the pending request.
#[derive(Debug, PartialEq, Eq)]
pub enum LockEvent {
    /// Answer to `Probe`.
    Probed { config: bool, directory: bool },
    /// Answer to `ReadConfig`: the text, or nothing if it could not be read.
    ConfigRead(Option<String>),
    /// Answer to `ReadChecksum`: the text, or nothing if it could not be
    /// read, and whether the file exists.
    ChecksumRead { text: Option<String>, exists: bool },
    /// Answer to `Validate`: what was found, or nothing if the text is
    /// invalid.
    Validated(Option<Validated>),
    /// Answer to `ReadSnapshot`: the text, or nothing if it could not be
    /// read, and whether the file exists.
    SnapshotRead { text: Option<String>, exists: bool },
    /// Answer to `CopyConfig`, `WriteSnapshot`, `WriteChecksum` and
    /// `RestoreSnapshot`: whether it was done. A store that fails leaves the
    /// file as it was.
    Stored(bool),
}

pub enum LockEventView {
    Probed { config: bool, directory: bool },
    ConfigRead(Option<Seq<char>>),
    ChecksumRead { text: Option<Seq<char>>, exists: bool },
    Validated(Option<ValidatedView>),
    SnapshotRead { text: Option<Seq<char>>, exists: bool },
    Stored(bool),
}

impl View for LockEvent {
    type V = LockEventView;

    open spec fn view(&self) -> LockEventView {
        match *self {
            LockEvent::Probed { config, directory } => LockEventView::Probed { config, directory },
            LockEvent::ConfigRead(text) => LockEventView::ConfigRead(shown(text)),
            LockEvent::ChecksumRead { text, exists } => LockEventView::ChecksumRead {
                text: shown(text),
                exists,
            },
            LockEvent::SnapshotRead { text, exists } => LockEventView::SnapshotRead {
                text: shown(text),
                exists,
            },
            LockEvent::Validated(found) => LockEventView::Validated(
                match found {
                    Some(found) => Some(found@),
                    None => None,
                },
            ),
            LockEvent::Stored(done) => LockEventView::Stored(done),
        }
    }
}

/// Where a lock stands between two requests.
#[derive(Debug, PartialEq, Eq)]
pub enum LockState {
    /// Waiting to hear whether the project is initialized.
    Probing,
    /// Waiting for the text of `cazan.json`.
    ReadingConfig,
    /// Waiting for the recorded checksum; `digest` is that of `text`.
    ReadingChecksum { text: String, digest: String },
    /// Waiting for the schema check.
    Validating { digest: String },
    /// Waiting for the old snapshot. `normalized` is the text to store, or
    /// nothing where the configuration is copied as it is.
    BackingUp { digest: String, normalized: Option<String>, warning: Option<String> },
    /// Waiting for the snapshot to be stored, copied as it is or normalized;
    /// `previous` is what it held before.
    Storing { digest: String, verbatim: bool, previous: Option<String> },
    /// Waiting for the checksum to be stored.
    Recording { previous: Option<String> },
    /// Waiting for the old snapshot to be put back.
    Restoring,
    /// Nothing is pending.
    Finished,
}

pub enum LockStateView {
    Probing,
    ReadingConfig,
    ReadingChecksum { text: Seq<char>, digest: Seq<char> },
    Validating { digest: Seq<char> },
    BackingUp { digest: Seq<char>, normalized: Option<Seq<char>>, warning: Option<Seq<char>> },
    Storing { digest: Seq<char>, verbatim: bool, previous: Option<Seq<char>> },
    Recording { previous: Option<Seq<char>> },
    Restoring,
    Finished,
}

impl View for LockState {
    type V = LockStateView;

    open spec fn view(&self) -> LockStateView {
        match *self {
            LockState::Probing => LockStateView::Probing,
            LockState::ReadingConfig => LockStateView::ReadingConfig,
            LockState::ReadingChecksum { text, digest } => LockStateView::ReadingChecksum {
                text: text@,
                digest: digest@,
            },
            LockState::Validating { digest } => LockStateView::Validating { digest: digest@ },
            LockState::BackingUp { digest, normalized, warning } => LockStateView::BackingUp {
                digest: digest@,
                normalized: shown(normalized),
                warning: shown(warning),
            },
            LockState::Storing { digest, verbatim, previous } => LockStateView::Storing {
                digest: digest@,
                verbatim,
                previous: shown(previous),
            },
            LockState::Recording { previous } => LockStateView::Recording {
                previous: shown(previous),
            },
            LockState::Restoring => LockStateView::Restoring,
            LockState::Finished => LockStateView::Finished,
        }
    }
}

/// The warning about fields that the snapshot drops.
pub open spec fn unknown_warning(names: Seq<Seq<char>>) -> Seq<char> {
    "Warning unknown fields ("@ + quoted_list(names)
        + ") are ignored. To force using them, use --allow-unknown"@
}

/// Builds the warning about the unknown fields `names`.
pub fn unknown_fields_warning(names: &Vec<String>) -> (message: String)
    ensures
        message@ == unknown_warning(texts(names@)),
{
    let mut message = String::from_str("Warning unknown fields (");
    let list = quoted_list_text(names);
    message.append(list.as_str());
    message.append(") are ignored. To force using them, use --allow-unknown");
    message
}

impl LockError {
    /// The line that reports the failure.
    pub open spec fn text(self) -> Seq<char> {
        match self {
            LockError::NotInitialized => "Error cazan is not initialized for this directory"@,
            LockError::ConfigUnreadable => "Error reading cazan.json file"@,
            LockError::ChecksumUnreadable => "Error reading checksum file"@,
            LockError::InvalidConfig => "Error cazan.json is invalid"@,
            LockError::SnapshotNotCopied => "Error copying cazan.json file to .cazan/config.json"@,
            LockError::SnapshotNotWritten => "Error copying cazan.json to .cazan/config.json"@,
            LockError::ChecksumNotSaved => "Error saving checksum"@,
            LockError::SnapshotUnreadable => "Error reading .cazan/config.json file"@,
            LockError::SnapshotNotRestored => "Error saving checksum: .cazan/config.json is new and could not be put back"@,
            LockError::OutOfTurn => "Error lock was resumed out of turn"@,
        }
    }

    /// The line that reports the failure.
    pub fn message(&self) -> (line: String)
        ensures
            line@ == self.text(),
    {
        match self {
            LockError::NotInitialized => String::from_str(
                "Error cazan is not initialized for this directory",
            ),
            LockError::ConfigUnreadable => String::from_str("Error reading cazan.json file"),
            LockError::ChecksumUnreadable => String::from_str("Error reading checksum file"),
            LockError::InvalidConfig => String::from_str("Error cazan.json is invalid"),
            LockError::SnapshotNotCopied => String::from_str(
                "Error copying cazan.json file to .cazan/config.json",
            ),
            LockError::SnapshotNotWritten => String::from_str(
                "Error copying cazan.json to .cazan/config.json",
            ),
            LockError::ChecksumNotSaved => String::from_str("Error saving checksum"),
            LockError::SnapshotUnreadable => String::from_str(
                "Error reading .cazan/config.json file",
            ),
            LockError::SnapshotNotRestored => String::from_str(
                "Error saving checksum: .cazan/config.json is new and could not be put back",
            ),
            LockError::OutOfTurn => String::from_str("Error lock was resumed out of turn"),
        }
    }
}

impl LockSuccess {
    /// The line that reports the success.
    pub open spec fn text(self) -> Seq<char> {
        match self {
            LockSuccess::Locked => "Locked config"@,
            LockSuccess::UpToDate => "Already up-to-date"@,
        }
    }

    /// The line that reports the success.
    pub fn message(&self) -> (line: String)
        ensures
            line@ == self.text(),
    {
        match self {
            LockSuccess::Locked => String::from_str("Locked config"),
            LockSuccess::UpToDate => String::from_str("Already up-to-date"),
        }
    }
}

/// Stopping with a failure.
pub open spec fn failing(error: LockError) -> (LockStateView, LockActionView) {
    (LockStateView::Finished, LockActionView::Finish(Err(error)))
}

impl Lock {
    /// How a lock begins: by asking whether the project is initialized.
    pub open spec fn first(self) -> (LockStateView, LockActionView) {
        (LockStateView::Probing, LockActionView::Probe)
    }

    /// What follows the checksum's arrival, once the digest of the live
    /// configuration is known.
    pub open spec fn after_checksum(
        self,
        text: Seq<char>,
        digest: Seq<char>,
        recorded: Option<Seq<char>>,
        exists: bool,
    ) -> (LockStateView, LockActionView) {
        let kept = match recorded {
            Some(kept) => kept,
            None => Seq::empty(),
        };
        if kept.len() == 0 && exists {
            failing(LockError::ChecksumUnreadable)
        } else if self.force {
            (
                LockStateView::BackingUp { digest, normalized: None, warning: None },
                LockActionView::ReadSnapshot,
            )
        } else if kept == digest {
            (LockStateView::Finished, LockActionView::Finish(Ok(LockSuccess::UpToDate)))
        } else {
            (LockStateView::Validating { digest }, LockActionView::Validate { text })
        }
    }

    /// What follows the schema check.
    pub open spec fn after_validation(self, digest: Seq<char>, found: Option<ValidatedView>) -> (
        LockStateView,
        LockActionView,
    ) {
        match found {
            None => failing(LockError::InvalidConfig),
            Some(found) => if self.allow_unknown {
                (
                    LockStateView::BackingUp { digest, normalized: None, warning: None },
                    LockActionView::ReadSnapshot,
                )
            } else {
                (
                    LockStateView::BackingUp {
                        digest,
                        normalized: Some(found.normalized),
                        warning: if found.unknown.len() > 0 {
                            Some(unknown_warning(found.unknown))
                        } else {
                            None
                        },
                    },
                    LockActionView::ReadSnapshot,
                )
            },
        }
    }

    /// What follows the old snapshot's arrival: the new one is stored, with
    /// the old one kept in mind. A snapshot that is there and cannot be read
    /// stops the lock before anything is written.
    pub open spec fn after_backup(
        self,
        digest: Seq<char>,
        normalized: Option<Seq<char>>,
        warning: Option<Seq<char>>,
        text: Option<Seq<char>>,
        exists: bool,
    ) -> (LockStateView, LockActionView) {
        if exists && text is None {
            failing(LockError::SnapshotUnreadable)
        } else {
            let previous = if exists {
                text
            } else {
                None
            };
            match normalized {
                None => (
                    LockStateView::Storing { digest, verbatim: true, previous },
                    LockActionView::CopyConfig,
                ),
                Some(text) => (
                    LockStateView::Storing { digest, verbatim: false, previous },
                    LockActionView::WriteSnapshot { text, warning },
                ),
            }
        }
    }

    /// The transition: from where the lock stands and the answer to its
    /// pending request, to where it stands next and what it asks for.
    pub open spec fn next(self, state: LockStateView, event: LockEventView) -> (
        LockStateView,
        LockActionView,
    ) {
        match (state, event) {
            (LockStateView::Probing, LockEventView::Probed { config, directory }) => {
                if config && directory {
                    (LockStateView::ReadingConfig, LockActionView::ReadConfig)
                } else {
                    failing(LockError::NotInitialized)
                }
            },
            (LockStateView::ReadingConfig, LockEventView::ConfigRead(Some(text))) => (
                LockStateView::ReadingChecksum { text, digest: digest_of(encode_utf8(text)) },
                LockActionView::ReadChecksum,
            ),
            (LockStateView::ReadingConfig, LockEventView::ConfigRead(None)) => failing(
                LockError::ConfigUnreadable,
            ),
            (
                LockStateView::ReadingChecksum { text, digest },
                LockEventView::ChecksumRead { text: recorded, exists },
            ) => self.after_checksum(text, digest, recorded, exists),
            (LockStateView::Validating { digest }, LockEventView::Validated(found)) => {
                self.after_validation(digest, found)
            },
            (
                LockStateView::BackingUp { digest, normalized, warning },
                LockEventView::SnapshotRead { text, exists },
            ) => self.after_backup(digest, normalized, warning, text, exists),
            (
                LockStateView::Storing { digest, verbatim, previous },
                LockEventView::Stored(done),
            ) => {
                if done {
                    (
                        LockStateView::Recording { previous },
                        LockActionView::WriteChecksum { digest },
                    )
                } else if verbatim {
                    failing(LockError::SnapshotNotCopied)
                } else {
                    failing(LockError::SnapshotNotWritten)
                }
            },
            (LockStateView::Recording { previous }, LockEventView::Stored(done)) => {
                if done {
                    (LockStateView::Finished, LockActionView::Finish(Ok(LockSuccess::Locked)))
                } else {
                    (LockStateView::Restoring, LockActionView::RestoreSnapshot { previous })
                }
            },
            (LockStateView::Restoring, LockEventView::Stored(done)) => {
                if done {
                    failing(LockError::ChecksumNotSaved)
                } else {
                    failing(LockError::SnapshotNotRestored)
                }
            },
            _ => failing(LockError::OutOfTurn),
        }
    }

    /// Takes the answer to the pending request and names the next one.
    pub fn step(&self, state: LockState, event: LockEvent) -> (next: (LockState, LockAction))
        ensures
            (next.0@, next.1@) == self.next(state@, event@),
    {
        match state {
            LockState::Probing => match event {
                LockEvent::Probed { config, directory } => {
                    if config && directory {
                        (LockState::ReadingConfig, LockAction::ReadConfig)
                    } else {
                        failed(LockError::NotInitialized)
                    }
                },
                _ => failed(LockError::OutOfTurn),
            },
            LockState::ReadingConfig => match event {
                LockEvent::ConfigRead(Some(text)) => {
                    let digest = checksum(text.as_str().as_bytes());
                    (LockState::ReadingChecksum { text, digest }, LockAction::ReadChecksum)
                },
                LockEvent::ConfigRead(None) => failed(LockError::ConfigUnreadable),
                _ => failed(LockError::OutOfTurn),
            },
            LockState::ReadingChecksum { text, digest } => match event {
                LockEvent::ChecksumRead { text: recorded, exists } => {
                    let kept = match recorded {
                        Some(kept) => kept,
                        None => String::new(),
                    };
                    if kept.as_str().is_empty() && exists {
                        failed(LockError::ChecksumUnreadable)
                    } else if self.force {
                        (
                            LockState::BackingUp { digest, normalized: None, warning: None },
                            LockAction::ReadSnapshot,
                        )
                    } else if kept == digest {
                        (LockState::Finished, LockAction::Finish(Ok(LockSuccess::UpToDate)))
                    } else {
                        (LockState::Validating { digest }, LockAction::Validate { text })
                    }
                },
                _ => failed(LockError::OutOfTurn),
            },
            LockState::Validating { digest } => match event {
                LockEvent::Validated(None) => failed(LockError::InvalidConfig),
                LockEvent::Validated(Some(found)) => {
                    if self.allow_unknown {
                        (
                            LockState::BackingUp { digest, normalized: None, warning: None },
                            LockAction::ReadSnapshot,
                        )
                    } else {
                        let warning = if found.unknown.len() > 0 {
                            Some(unknown_fields_warning(&found.unknown))
                        } else {
                            None
                        };
                        (
                            LockState::BackingUp {
                                digest,
                                normalized: Some(found.normalized),
                                warning,
                            },
                            LockAction::ReadSnapshot,
                        )
                    }
                },
                _ => failed(LockError::OutOfTurn),
            },
            LockState::BackingUp { digest, normalized, warning } => match event {
                LockEvent::SnapshotRead { text, exists } => {
                    if exists && text.is_none() {
                        failed(LockError::SnapshotUnreadable)
                    } else {
                        let previous = if exists {
                            text
                        } else {
                            None
                        };
                        match normalized {
                            None => (
                                LockState::Storing { digest, verbatim: true, previous },
                                LockAction::CopyConfig,
                            ),
                            Some(text) => (
                                LockState::Storing { digest, verbatim: false, previous },
                                LockAction::WriteSnapshot { text, warning },
                            ),
                        }
                    }
                },
                _ => failed(LockError::OutOfTurn),
            },
            LockState::Storing { digest, verbatim, previous } => match event {
                LockEvent::Stored(done) => {
                    if done {
                        (LockState::Recording { previous }, LockAction::WriteChecksum { digest })
                    } else if verbatim {
                        failed(LockError::SnapshotNotCopied)
                    } else {
                        failed(LockError::SnapshotNotWritten)
                    }
                },
                _ => failed(LockError::OutOfTurn),
            },
            LockState::Recording { previous } => match event {
                LockEvent::Stored(done) => {
                    if done {
                        (LockState::Finished, LockAction::Finish(Ok(LockSuccess::Locked)))
                    } else {
                        (LockState::Restoring, LockAction::RestoreSnapshot { previous })
                    }
                },
                _ => failed(LockError::OutOfTurn),
            },
            LockState::Restoring => match event {
                LockEvent::Stored(done) => {
                    if done {
                        failed(LockError::ChecksumNotSaved)
                    } else {
                        failed(LockError::SnapshotNotRestored)
                    }
                },
                _ => failed(LockError::OutOfTurn),
            },
            LockState::Finished => failed(LockError::OutOfTurn),
        }
    }
}

impl SubCommandTrait for Lock {
    type State = LockState;

    type Action = LockAction;

    /// Begins a lock.
    fn run(&self) -> (begun: (LockState, LockAction))
        ensures
            (begun.0@, begun.1@) == self.first(),
    {
        (LockState::Probing, LockAction::Probe)
    }
}

fn failed(error: LockError) -> (stop: (LockState, LockAction))
    ensures
        (stop.0@, stop.1@) == failing(error),
{
    (LockState::Finished, LockAction::Finish(Err(error)))
}

/// The files of a project that a lock reads and writes: what is stored can
/// be read back, and a store either replaces the file or leaves it as it was.
pub struct Project {
    /// The text of `cazan.json`, if the file is there.
    pub config: Option<Seq<char>>,
    /// Whether `.cazan` exists.
    pub directory: bool,
    /// The text of `.cazan/config.json`, if the file is there.
    pub snapshot: Option<Seq<char>>,
    /// The text of `.cazan/checksum.txt`, if the file is there.
    pub recorded: Option<Seq<char>>,
}

/// Which of the stores of a lock fail. A lock stores at most three times:
/// the snapshot, the checksum, and the old snapshot when it is put back.
pub struct Faults {
    /// Storing the new snapshot fails.
    pub snapshot: bool,
    /// Storing the checksum fails.
    pub checksum: bool,
    /// Putting the old snapshot back fails.
    pub restore: bool,
}

/// How a lock ended, and the files it left.
pub struct LockRun {
    pub project: Project,
    pub end: Result<LockSuccess, LockError>,
}

impl Faults {
    /// Every store succeeds.
    pub open spec fn none() -> Faults {
        Faults { snapshot: false, checksum: false, restore: false }
    }

    /// The snapshot file behaves the same way throughout: if it could be
    /// stored, it can be put back.
    pub open spec fn steady(self) -> bool {
        self.restore ==> self.snapshot
    }
}

impl Project {
    /// The files after `action` and the answer that the host gives.
    /// `validate` stands for the schema check and `faults` says which stores
    /// fail. `Finish` asks for nothing.
    pub open spec fn answer(
        self,
        action: LockActionView,
        validate: spec_fn(Seq<char>) -> Option<ValidatedView>,
        faults: Faults,
    ) -> (Project, LockEventView) {
        match action {
            LockActionView::Probe => (
                self,
                LockEventView::Probed { config: self.config is Some, directory: self.directory },
            ),
            LockActionView::ReadConfig => (self, LockEventView::ConfigRead(self.config)),
            LockActionView::ReadChecksum => (
                self,
                LockEventView::ChecksumRead {
                    text: self.recorded,
                    exists: self.recorded is Some,
                },
            ),
            LockActionView::Validate { text } => (self, LockEventView::Validated(validate(text))),
            LockActionView::ReadSnapshot => (
                self,
                LockEventView::SnapshotRead {
                    text: self.snapshot,
                    exists: self.snapshot is Some,
                },
            ),
            LockActionView::CopyConfig => if faults.snapshot {
                (self, LockEventView::Stored(false))
            } else {
                (Project { snapshot: self.config, ..self }, LockEventView::Stored(true))
            },
            LockActionView::WriteSnapshot { text, warning } => if faults.snapshot {
                (self, LockEventView::Stored(false))
            } else {
                (Project { snapshot: Some(text), ..self }, LockEventView::Stored(true))
            },
            LockActionView::WriteChecksum { digest } => if faults.checksum {
                (self, LockEventView::Stored(false))
            } else {
                (Project { recorded: Some(digest), ..self }, LockEventView::Stored(true))
            },
            LockActionView::RestoreSnapshot { previous } => if faults.restore {
                (self, LockEventView::Stored(false))
            } else {
                (Project { snapshot: previous, ..self }, LockEventView::Stored(true))
            },
            LockActionView::Finish(end) => (self, LockEventView::Stored(true)),
        }
    }

    /// The digest of the live configuration, if there is one.
    pub open spec fn live_digest(self) -> Option<Seq<char>> {
        match self.config {
            Some(text) => Some(digest_of(encode_utf8(text))),
            None => None,
        }
    }
}

impl Lock {
    /// Carries the lock on from `state` and its pending `action` until it
    /// finishes, for at most `steps` answers.
    pub open spec fn drive(
        self,
        state: LockStateView,
        action: LockActionView,
        project: Project,
        validate: spec_fn(Seq<char>) -> Option<ValidatedView>,
        faults: Faults,
        steps: nat,
    ) -> LockRun
        decreases steps,
    {
        match action {
            LockActionView::Finish(end) => LockRun { project, end },
            _ => if steps == 0 {
                LockRun { project, end: Err(LockError::OutOfTurn) }
            } else {
                let (files, event) = project.answer(action, validate, faults);
                let (state, action) = self.next(state, event);
                self.drive(state, action, files, validate, faults, (steps - 1) as nat)
            },
        }
    }

    /// A whole lock of `project`. Eight answers are the most a lock asks for.
    pub open spec fn locked(
        self,
        project: Project,
        validate: spec_fn(Seq<char>) -> Option<ValidatedView>,
        faults: Faults,
    ) -> LockRun {
        self.drive(self.first().0, self.first().1, project, validate, faults, 8)
    }
}

/// The checksum is written only once the snapshot is stored: no other state
/// and no other answer lead to that request, and what is written is the digest
/// taken when the configuration was read.
pub proof fn lemma_checksum_follows_snapshot(
    lock: Lock,
    state: LockStateView,
    event: LockEventView,
)
    requires
        lock.next(state, event).1 is WriteChecksum,
    ensures
        state is Storing,
        event == LockEventView::Stored(true),
        lock.next(state, event).1 == (LockActionView::WriteChecksum {
            digest: state->Storing_digest,
        }),
{
}

/// The snapshot is stored only once the old one is known, and it is put back
/// exactly when the checksum could not be written, as it was read.
pub proof fn lemma_snapshot_is_backed_up(lock: Lock, state: LockStateView, event: LockEventView)
    ensures
        lock.next(state, event).1 is CopyConfig || lock.next(state, event).1 is WriteSnapshot ==> {
            &&& state is BackingUp
            &&& event matches LockEventView::SnapshotRead { text, exists }
            &&& lock.next(state, event).0 is Storing
            &&& lock.next(state, event).0->Storing_previous == if exists {
                text
            } else {
                None
            }
        },
        lock.next(state, event).1 is RestoreSnapshot <==> state is Recording && event
            == LockEventView::Stored(false),
        lock.next(state, event).1 matches LockActionView::RestoreSnapshot { previous }
            ==> previous == state->Recording_previous,
{
}

/// A forced lock never asks for the schema check.
pub proof fn lemma_force_skips_validation(lock: Lock, state: LockStateView, event: LockEventView)
    requires
        lock.force,
        !(state is Validating),
    ensures
        !(lock.next(state, event).1 is Validate),
        !(lock.next(state, event).0 is Validating),
{
}

/// What a lock leaves behind, whichever stores fail. A lock that reports
/// `Locked` has recorded the digest of the live configuration; its snapshot is
/// the configuration as it is when forced or when unknown fields are allowed,
/// and the normalized text otherwise. A lock that reports `UpToDate` has
/// changed no file. A lock that fails has changed no file either, unless it
/// reports `SnapshotNotRestored`: that one comes only where the snapshot was
/// stored, the checksum was not, and the old snapshot could not be put back.
/// Every lock leaves `cazan.json` alone.
pub proof fn lemma_lock_outcome(
    lock: Lock,
    project: Project,
    validate: spec_fn(Seq<char>) -> Option<ValidatedView>,
    faults: Faults,
)
    ensures
        ({
            let run = lock.locked(project, validate, faults);
            &&& run.project.config == project.config
            &&& run.project.directory == project.directory
            &&& run.end is Ok ==> project.directory && project.config is Some
            &&& run.end == Ok::<LockSuccess, LockError>(LockSuccess::Locked) ==> {
                &&& !faults.snapshot
                &&& !faults.checksum
                &&& run.project.recorded == project.live_digest()
                &&& run.project.snapshot == if lock.force || lock.allow_unknown {
                    project.config
                } else {
                    Some(validate(project.config->0)->0.normalized)
                }
            }
            &&& run.end == Ok::<LockSuccess, LockError>(LockSuccess::UpToDate) ==> {
                &&& !lock.force
                &&& run.project == project
                &&& project.recorded == project.live_digest()
            }
            &&& run.end is Err && run.end != Err::<LockSuccess, LockError>(
                LockError::SnapshotNotRestored,
            ) ==> run.project == project
            &&& run.end == Err::<LockSuccess, LockError>(LockError::SnapshotNotRestored) ==> {
                &&& !faults.snapshot
                &&& faults.checksum
                &&& faults.restore
                &&& run.project.recorded == project.recorded
            }
        }),
{
    reveal_with_fuel(Lock::drive, 9);
}

/// Snapshot and checksum change together or not at all. Where the snapshot
/// file can be put back whenever it could be stored, a lock that fails leaves
/// both files as they were, whichever store failed, and a lock that succeeds
/// leaves the checksum equal to the digest of the live configuration.
pub proof fn lemma_lock_is_all_or_nothing(
    lock: Lock,
    project: Project,
    validate: spec_fn(Seq<char>) -> Option<ValidatedView>,
    faults: Faults,
)
    requires
        faults.steady(),
    ensures
        ({
            let run = lock.locked(project, validate, faults);
            &&& run.end is Err ==> run.project.snapshot == project.snapshot
                && run.project.recorded == project.recorded
            &&& run.end is Ok ==> run.project.recorded == project.live_digest()
        }),
{
    lemma_lock_outcome(lock, project, validate, faults);
    let run = lock.locked(project, validate, faults);
    match run.end {
        Ok(LockSuccess::Locked) => {},
        Ok(LockSuccess::UpToDate) => {},
        Err(error) => {
            if error == LockError::SnapshotNotRestored {
                assert(faults.restore && !faults.snapshot);
            }
        },
    }
}

/// A lock without `force` of a project whose recorded checksum is the digest
/// of its configuration asks for no store and reports that the lock is up to
/// date.
pub proof fn lemma_fresh_lock_is_idle(
    lock: Lock,
    project: Project,
    validate: spec_fn(Seq<char>) -> Option<ValidatedView>,
    faults: Faults,
)
    requires
        !lock.force,
        project.directory,
        project.config is Some,
        project.recorded == project.live_digest(),
    ensures
        lock.locked(project, validate, faults) == (LockRun {
            project,
            end: Ok(LockSuccess::UpToDate),
        }),
{
    lemma_unrecorded_is_stale(encode_utf8(project.config->0));
    reveal_with_fuel(Lock::drive, 5);
}

/// Idempotence. After a lock that succeeded, a lock without `force` of the
/// unchanged project writes nothing and reports that the lock is up to date.
pub proof fn lemma_second_lock_is_idle(
    first: Lock,
    second: Lock,
    project: Project,
    validate: spec_fn(Seq<char>) -> Option<ValidatedView>,
    faults: Faults,
    later_faults: Faults,
)
    requires
        !second.force,
        first.locked(project, validate, faults).end is Ok,
    ensures
        second.locked(first.locked(project, validate, faults).project, validate, later_faults)
            == (LockRun {
            project: first.locked(project, validate, faults).project,
            end: Ok(LockSuccess::UpToDate),
        }),
{
    lemma_lock_outcome(first, project, validate, faults);
    let run = first.locked(project, validate, faults);
    match run.end {
        Ok(LockSuccess::Locked) => {},
        Ok(LockSuccess::UpToDate) => {},
        Err(_) => {},
    }
    lemma_fresh_lock_is_idle(second, run.project, validate, later_faults);
}

/// A changed configuration is locked again. When the recorded checksum is not
/// the digest of the live configuration and the stores succeed, a lock
/// without `force` asks for the schema check, and on a valid configuration
/// ends `Locked`; a forced lock ends `Locked` whatever the configuration.
pub proof fn lemma_stale_lock_is_renewed(
    lock: Lock,
    project: Project,
    validate: spec_fn(Seq<char>) -> Option<ValidatedView>,
    faults: Faults,
)
    requires
        project.directory,
        project.config is Some,
        project.recorded != project.live_digest(),
        project.recorded matches Some(kept) ==> kept.len() > 0,
        lock.force || validate(project.config->0) is Some,
        !faults.snapshot,
        !faults.checksum,
    ensures
        lock.locked(project, validate, faults).end == Ok::<LockSuccess, LockError>(
            LockSuccess::Locked,
        ),
{
    reveal_with_fuel(Lock::drive, 9);
}

} // verus!
