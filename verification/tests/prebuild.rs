use cazan_cli::artifact::AssetOutcome;
use cazan_cli::cli::prebuild::parsed_message;
use cazan_cli::cli::prebuild::preview_file_name;
use cazan_cli::cli::prebuild::PreBuild;
use cazan_cli::cli::prebuild::PreBuildAction;
use cazan_cli::cli::prebuild::PreBuildError;
use cazan_cli::cli::prebuild::PreBuildEvent;
use cazan_cli::cli::prebuild::PreBuildState;
use cazan_cli::cli::prebuild::PreBuildSuccess;
use cazan_cli::cli::prebuild::DEFAULT_EPSILON;
use cazan_cli::cli::subcommands::SubCommandTrait;
use cazan_cli::config::checksum;
use cazan_cli::config::Config;
use serde_json::Value;

fn paths(names: &[&str]) -> Vec<String> {
    names.iter().map(|name| name.to_string()).collect()
}

fn plain() -> PreBuild {
    PreBuild { assets: vec![], epsilon: None, preview: false, open: false }
}

fn config(assets: Option<Vec<String>>, epsilon: Option<f64>) -> Config {
    let mut config = Config::starter("demo");
    config.assets = assets;
    config.rdp_epsilon = epsilon.map(f64::to_bits);
    config
}

fn loaded(config: Config, live: &[u8], recorded: Option<String>) -> PreBuildEvent {
    PreBuildEvent::Loaded { config: Some(config), live: Some(live.to_vec()), recorded }
}

/// Brings a prebuild to the point where it waits for the matching paths.
fn expanding(command: &PreBuild) -> PreBuildState {
    let (state, _) = command.run();
    let (state, _) = command.step(state, PreBuildEvent::Probed(true));
    let live = b"{}";
    let (state, _) = command.step(state, loaded(config(None, None), live, Some(checksum(live))));
    state
}

#[test]
fn default_epsilon_is_three() {
    assert_eq!(f64::from_bits(DEFAULT_EPSILON), 3.0);
}

#[test]
fn prebuild_begins_by_probing() {
    let (state, action) = plain().run();
    assert_eq!(state, PreBuildState::Probing);
    assert!(matches!(action, PreBuildAction::Probe { warnings } if warnings.is_empty()));
}

#[test]
fn open_without_preview_is_warned_about() {
    let command = PreBuild { assets: vec![], epsilon: None, preview: false, open: true };
    let (_, action) = command.run();
    match action {
        PreBuildAction::Probe { warnings } => assert_eq!(
            warnings,
            vec!["Warning use of `--open` without `--preview` is useless"]
        ),
        other => panic!("unexpected request {other:?}"),
    }
    for (preview, open) in [(true, true), (true, false), (false, false)] {
        let command = PreBuild { assets: vec![], epsilon: None, preview, open };
        assert!(matches!(command.run().1, PreBuildAction::Probe { warnings } if warnings.is_empty()));
    }
}

#[test]
fn missing_directory_is_not_initialized() {
    let command = plain();
    let (state, _) = command.run();
    let (state, action) = command.step(state, PreBuildEvent::Probed(false));
    assert_eq!(state, PreBuildState::Finished);
    assert!(matches!(action, PreBuildAction::Finish(Err(PreBuildError::NotInitialized))));
    assert_eq!(
        PreBuildError::NotInitialized.message(),
        "Error cazan is not initialized for this directory"
    );
}

#[test]
fn unreadable_files_stop_the_build() {
    let command = plain();
    let (state, _) = command.run();
    let (state, action) = command.step(state, PreBuildEvent::Probed(true));
    assert!(matches!(action, PreBuildAction::Load));
    let (_, action) = command.step(
        state,
        PreBuildEvent::Loaded { config: None, live: Some(vec![]), recorded: None },
    );
    assert!(matches!(action, PreBuildAction::Finish(Err(PreBuildError::LockedConfigUnreadable))));
    let (_, action) = command.step(
        PreBuildState::Loading,
        PreBuildEvent::Loaded { config: None, live: None, recorded: None },
    );
    assert!(matches!(action, PreBuildAction::Finish(Err(PreBuildError::LockedConfigUnreadable))));
    let (_, action) = command.step(
        PreBuildState::Loading,
        PreBuildEvent::Loaded { config: Some(config(None, None)), live: None, recorded: None },
    );
    assert!(matches!(action, PreBuildAction::Finish(Err(PreBuildError::ConfigUnreadable))));
    assert_eq!(
        PreBuildError::LockedConfigUnreadable.message(),
        "Error reading .cazan/config.json file"
    );
    assert_eq!(PreBuildError::ConfigUnreadable.message(), "Error reading cazan.json file");
}

#[test]
fn stale_lock_is_warned_about_and_does_not_stop_the_build() {
    let command = plain();
    for recorded in [None, Some(String::new()), Some(checksum(b"other"))] {
        let (_, action) = command.step(
            PreBuildState::Loading,
            loaded(config(Some(paths(&["*.png"])), None), b"live", recorded),
        );
        match action {
            PreBuildAction::Expand { patterns, warnings } => {
                assert_eq!(patterns, paths(&["*.png"]));
                assert_eq!(
                    warnings,
                    vec!["Warning lock file is not up-to-date with cazan.json. To update it use `cazan lock`"]
                );
            }
            other => panic!("unexpected request {other:?}"),
        }
    }
}

#[test]
fn fresh_lock_gives_no_warning() {
    let (_, action) = plain().step(
        PreBuildState::Loading,
        loaded(config(None, None), b"live", Some(checksum(b"live"))),
    );
    match action {
        PreBuildAction::Expand { patterns, warnings } => {
            assert!(patterns.is_empty());
            assert!(warnings.is_empty());
        }
        other => panic!("unexpected request {other:?}"),
    }
}

#[test]
fn patterns_of_the_command_line_come_before_those_of_the_config() {
    let command = PreBuild { assets: paths(&["cli/*.png"]), epsilon: None, preview: false, open: false };
    let (_, action) = command.step(
        PreBuildState::Loading,
        loaded(config(Some(paths(&["config/*.png", "more/**"])), None), b"", None),
    );
    assert!(matches!(action, PreBuildAction::Expand { patterns, .. } if patterns == paths(&["cli/*.png"])));
    let (_, action) = plain().step(
        PreBuildState::Loading,
        loaded(config(Some(paths(&["config/*.png", "more/**"])), None), b"", None),
    );
    assert!(
        matches!(action, PreBuildAction::Expand { patterns, .. } if patterns == paths(&["config/*.png", "more/**"]))
    );
}

#[test]
fn epsilon_of_the_command_line_comes_first_then_the_config_then_the_default() {
    let cases = [
        (Some(1.5), Some(0.25), 1.5),
        (Some(1.5), None, 1.5),
        (None, Some(0.25), 0.25),
        (None, None, 3.0),
    ];
    for (given, configured, expected) in cases {
        let command = PreBuild {
            assets: vec![],
            epsilon: given.map(f64::to_bits),
            preview: false,
            open: false,
        };
        let (state, _) = command.step(
            PreBuildState::Loading,
            loaded(config(None, configured), b"", None),
        );
        assert_eq!(state, PreBuildState::Expanding { epsilon: f64::to_bits(expected) });
    }
}

#[test]
fn bad_pattern_stops_the_build() {
    let command = plain();
    let state = expanding(&command);
    let (_, action) = command.step(state, PreBuildEvent::Expanded(None));
    assert!(matches!(action, PreBuildAction::Finish(Err(PreBuildError::BadPattern))));
    assert_eq!(PreBuildError::BadPattern.message(), "Error reading the patterns of the assets");
}

#[test]
fn nothing_to_build_is_a_success() {
    let command = plain();
    let state = expanding(&command);
    let (state, action) = command.step(state, PreBuildEvent::Expanded(Some(paths(&["notes.txt"]))));
    assert_eq!(state, PreBuildState::Finished);
    assert!(matches!(action, PreBuildAction::Finish(Ok(PreBuildSuccess::NothingToBuild))));
}

#[test]
fn three_images_and_a_text_file_build_three_entries() {
    let command = PreBuild { assets: paths(&["dir/*"]), epsilon: Some(f64::to_bits(2.0)), preview: true, open: false };
    let state = expanding(&command);
    let found = paths(&["dir/a.png", "dir/b.png", "dir/c.png", "dir/notes.txt"]);
    let (state, action) = command.step(state, PreBuildEvent::Expanded(Some(found)));
    assert_eq!(state, PreBuildState::Building);
    let (files, mut terminal) = match action {
        PreBuildAction::Build { files, epsilon, preview, terminal, opening } => {
            assert_eq!(f64::from_bits(epsilon), 2.0);
            assert!(preview);
            assert_eq!(opening, "\r\n\r\n\x1b[1F\x1b[1F");
            (files, terminal)
        }
        other => panic!("unexpected request {other:?}"),
    };
    assert_eq!(files, paths(&["dir/a.png", "dir/b.png", "dir/c.png"]));
    assert_eq!(terminal.write_to("x", 2), "\x1b[2B\x1b[1Gx");
    assert_eq!(terminal.write_to("x", 3), "\x1b[2A\x1b[1Gx");
    let outcomes = files
        .iter()
        .rev()
        .map(|path| AssetOutcome::Built {
            path: path.clone(),
            content: path.as_bytes().to_vec(),
            triangles: Value::Array(vec![]),
        })
        .collect();
    let (state, action) = command.step(state, PreBuildEvent::Built(outcomes));
    assert_eq!(state, PreBuildState::Storing);
    match action {
        PreBuildAction::Write { artifact, warnings } => {
            assert_eq!(artifact.len(), 3);
            for path in &files {
                assert!(artifact.contains_key(&checksum(path.as_bytes())));
            }
            assert!(warnings.is_empty());
        }
        other => panic!("unexpected request {other:?}"),
    }
    let (state, action) = command.step(state, PreBuildEvent::Stored(true));
    assert_eq!(state, PreBuildState::Finished);
    assert!(matches!(action, PreBuildAction::Finish(Ok(PreBuildSuccess::Built))));
}

#[test]
fn failed_assets_are_reported_with_the_artifact() {
    let command = plain();
    let outcomes = vec![
        AssetOutcome::Failed { path: "a.png".to_string(), reason: "no outline".to_string() },
        AssetOutcome::Built {
            path: "b.png".to_string(),
            content: b"second".to_vec(),
            triangles: Value::from(2u64),
        },
    ];
    let (_, action) = command.step(PreBuildState::Building, PreBuildEvent::Built(outcomes));
    match action {
        PreBuildAction::Write { artifact, warnings } => {
            assert_eq!(artifact.len(), 1);
            assert_eq!(warnings, vec!["Warning `a.png` could not be built: no outline"]);
        }
        other => panic!("unexpected request {other:?}"),
    }
}

#[test]
fn artifact_that_cannot_be_written_fails() {
    for (preview, open) in [(false, false), (true, true)] {
        let command = PreBuild { assets: vec![], epsilon: None, preview, open };
        let (state, action) = command.step(PreBuildState::Storing, PreBuildEvent::Stored(false));
        assert_eq!(state, PreBuildState::Finished);
        assert!(matches!(action, PreBuildAction::Finish(Err(PreBuildError::ArtifactNotWritten))));
    }
    assert_eq!(
        PreBuildError::ArtifactNotWritten.message(),
        "Error writing .cazan/build/assets.json"
    );
}

#[test]
fn previews_are_opened_when_asked_for() {
    let command = PreBuild { assets: vec![], epsilon: None, preview: true, open: true };
    let (state, action) = command.step(PreBuildState::Storing, PreBuildEvent::Stored(true));
    assert_eq!(state, PreBuildState::Opening);
    assert!(matches!(action, PreBuildAction::OpenPreview));
    let (_, action) = command.step(state, PreBuildEvent::Opened(true));
    assert!(matches!(action, PreBuildAction::Finish(Ok(PreBuildSuccess::Built))));
    let (_, action) = command.step(state, PreBuildEvent::Opened(false));
    assert!(matches!(action, PreBuildAction::Finish(Err(PreBuildError::PreviewNotOpened))));
    assert_eq!(
        PreBuildError::PreviewNotOpened.message(),
        "Error opening the folder of the previews"
    );
}

#[test]
fn previews_are_not_opened_otherwise() {
    for (preview, open) in [(true, false), (false, true), (false, false)] {
        let command = PreBuild { assets: vec![], epsilon: None, preview, open };
        let (_, action) = command.step(PreBuildState::Storing, PreBuildEvent::Stored(true));
        assert!(matches!(action, PreBuildAction::Finish(Ok(PreBuildSuccess::Built))));
    }
}

#[test]
fn prebuild_answer_out_of_turn() {
    let command = plain();
    let (state, _) = command.run();
    let (state, action) = command.step(state, PreBuildEvent::Stored(true));
    assert_eq!(state, PreBuildState::Finished);
    assert!(matches!(action, PreBuildAction::Finish(Err(PreBuildError::OutOfTurn))));
    let (_, action) = command.step(state, PreBuildEvent::Probed(true));
    assert!(matches!(action, PreBuildAction::Finish(Err(PreBuildError::OutOfTurn))));
    assert_eq!(PreBuildError::OutOfTurn.message(), "Error prebuild was resumed out of turn");
}

#[test]
fn display_takes_at_most_65535_lines() {
    let command = plain();
    let state = expanding(&command);
    let found: Vec<String> = (0..65537).map(|i| format!("{i}.png")).collect();
    let (_, action) = command.step(state, PreBuildEvent::Expanded(Some(found)));
    match action {
        PreBuildAction::Build { files, mut terminal, .. } => {
            assert_eq!(files.len(), 65537);
            assert_eq!(terminal.write_to("", 65534), "\x1b[65534B\x1b[1G");
            assert_eq!(terminal.write_to("", 65536), "\x1b[65533A\x1b[1G");
        }
        other => panic!("unexpected request {other:?}"),
    }
}

#[test]
fn parsed_message_text() {
    assert_eq!(parsed_message("a.png", 12), "`a.png` to 12 triangles");
    assert_eq!(parsed_message("", 0), "`` to 0 triangles");
}

#[test]
fn preview_name_takes_five_characters_of_the_digest() {
    assert_eq!(
        preview_file_name(
            "sprite",
            "e3b0c44298fc1c149afbf4c8996fb92427ae41e4649b934ca495991b7852b855",
            "png"
        ),
        "sprite-e3b0c.png"
    );
    assert_eq!(preview_file_name("s", "abcde", "png"), "s-abcde.png");
    assert_eq!(preview_file_name("s", "abc", "png"), "s-abc.png");
    assert_eq!(preview_file_name("", "", ""), "-.");
}
