use cazan_cli::cli::init::Init;
use cazan_cli::cli::init::InitAction;
use cazan_cli::cli::init::InitError;
use cazan_cli::cli::init::InitEvent;
use cazan_cli::cli::init::InitState;
use cazan_cli::cli::init::InitSuccess;
use cazan_cli::cli::subcommands::SubCommandTrait;
use cazan_cli::config::Config;
use cazan_cli::config::Version;

fn starter(name: &str) -> Config {
    Config {
        name: name.to_string(),
        version: Version { major: 0, minor: 0, patch: 1, pre: String::new(), build: String::new() },
        authors: vec![],
        use_autoplay_for_multimedia: None,
        rdp_epsilon: None,
        assets: Some(vec![]),
        plugins: Some(vec![]),
    }
}

/// Feeds the answers one by one and returns the requests they lead to.
fn requests(command: Init, answers: Vec<InitEvent>) -> Vec<InitAction> {
    let (mut state, action) = command.run();
    let mut asked = vec![action];
    for answer in answers {
        let (next, action) = command.step(state, answer);
        state = next;
        asked.push(action);
    }
    asked
}

#[test]
fn starter_config() {
    assert_eq!(Config::starter("demo"), starter("demo"));
    assert_eq!(Version::new(1, 2, 3).major, 1);
    assert_eq!(Version::new(1, 2, 3).minor, 2);
    assert_eq!(Version::new(1, 2, 3).patch, 3);
}

#[test]
fn init_of_an_empty_directory() {
    let asked = requests(
        Init { force: false },
        vec![
            InitEvent::Named(Some("demo".to_string())),
            InitEvent::Done(true),
            InitEvent::Exists(false),
            InitEvent::Done(true),
        ],
    );
    assert_eq!(
        asked,
        vec![
            InitAction::NameProject,
            InitAction::CreateDirectory,
            InitAction::ProbeConfig,
            InitAction::WriteConfig { config: starter("demo") },
            InitAction::Finish(Ok(InitSuccess::Initialized)),
        ]
    );
    assert_eq!(InitSuccess::Initialized.message().as_deref(), Some("Initialized cazan project"));
}

#[test]
fn init_keeps_a_config_that_is_there() {
    let asked = requests(
        Init { force: false },
        vec![
            InitEvent::Named(Some("demo".to_string())),
            InitEvent::Done(true),
            InitEvent::Exists(true),
        ],
    );
    assert_eq!(asked.last(), Some(&InitAction::Finish(Ok(InitSuccess::ConfigKept))));
    assert_eq!(InitSuccess::ConfigKept.message(), None);
}

#[test]
fn init_twice_without_force_fails() {
    let asked = requests(
        Init { force: false },
        vec![
            InitEvent::Named(Some("demo".to_string())),
            InitEvent::Done(false),
            InitEvent::Exists(true),
        ],
    );
    assert_eq!(
        asked,
        vec![
            InitAction::NameProject,
            InitAction::CreateDirectory,
            InitAction::ProbeDirectory,
            InitAction::Finish(Err(InitError::AlreadyInitialized)),
        ]
    );
    assert_eq!(
        InitError::AlreadyInitialized.message(),
        "Error creating .cazan directory: Already existing (try using --force)"
    );
}

#[test]
fn directory_that_cannot_be_created() {
    for force in [false, true] {
        let mut answers = vec![InitEvent::Named(Some("demo".to_string()))];
        if force {
            answers.push(InitEvent::Exists(false));
        }
        answers.push(InitEvent::Done(false));
        answers.push(InitEvent::Exists(false));
        let asked = requests(Init { force }, answers);
        assert_eq!(asked.last(), Some(&InitAction::Finish(Err(InitError::DirectoryNotCreated))));
    }
    assert_eq!(InitError::DirectoryNotCreated.message(), "Error creating .cazan directory");
}

#[test]
fn forced_init_removes_the_old_directory_and_rewrites_the_config() {
    let asked = requests(
        Init { force: true },
        vec![
            InitEvent::Named(Some("demo".to_string())),
            InitEvent::Exists(true),
            InitEvent::Done(true),
            InitEvent::Done(true),
            InitEvent::Done(true),
        ],
    );
    assert_eq!(
        asked,
        vec![
            InitAction::NameProject,
            InitAction::ProbeDirectory,
            InitAction::RemoveDirectory,
            InitAction::CreateDirectory,
            InitAction::WriteConfig { config: starter("demo") },
            InitAction::Finish(Ok(InitSuccess::Initialized)),
        ]
    );
}

#[test]
fn forced_init_without_an_old_directory() {
    let asked = requests(
        Init { force: true },
        vec![
            InitEvent::Named(Some("x".to_string())),
            InitEvent::Exists(false),
            InitEvent::Done(true),
        ],
    );
    assert_eq!(asked[2], InitAction::CreateDirectory);
    assert_eq!(asked[3], InitAction::WriteConfig { config: starter("x") });
}

#[test]
fn old_directory_that_cannot_be_removed() {
    let asked = requests(
        Init { force: true },
        vec![
            InitEvent::Named(Some("demo".to_string())),
            InitEvent::Exists(true),
            InitEvent::Done(false),
        ],
    );
    assert_eq!(asked.last(), Some(&InitAction::Finish(Err(InitError::NotRecreated))));
    assert_eq!(InitError::NotRecreated.message(), "Error recreating .cazan directory");
}

#[test]
fn config_that_cannot_be_written() {
    let asked = requests(
        Init { force: false },
        vec![
            InitEvent::Named(Some("demo".to_string())),
            InitEvent::Done(true),
            InitEvent::Exists(false),
            InitEvent::Done(false),
        ],
    );
    assert_eq!(asked.last(), Some(&InitAction::Finish(Err(InitError::ConfigNotWritten))));
    let asked = requests(
        Init { force: true },
        vec![
            InitEvent::Named(Some("demo".to_string())),
            InitEvent::Exists(false),
            InitEvent::Done(true),
            InitEvent::Done(false),
        ],
    );
    assert_eq!(asked.last(), Some(&InitAction::Finish(Err(InitError::ConfigNotRewritten))));
    assert_eq!(
        InitError::ConfigNotWritten.message(),
        "Error creating cazan.json with default config"
    );
    assert_eq!(
        InitError::ConfigNotRewritten.message(),
        "Error re-creating cazan.json with default config"
    );
}

#[test]
fn directory_without_a_name() {
    let asked = requests(Init { force: false }, vec![InitEvent::Named(None)]);
    assert_eq!(asked.last(), Some(&InitAction::Finish(Err(InitError::NoProjectName))));
    assert_eq!(
        InitError::NoProjectName.message(),
        "Error reading the name of the current directory"
    );
}

#[test]
fn init_answer_out_of_turn() {
    let command = Init { force: false };
    let (state, _) = command.run();
    let (state, action) = command.step(state, InitEvent::Done(true));
    assert_eq!(action, InitAction::Finish(Err(InitError::OutOfTurn)));
    assert_eq!(state, InitState::Finished);
    let (_, action) = command.step(state, InitEvent::Named(Some("demo".to_string())));
    assert_eq!(action, InitAction::Finish(Err(InitError::OutOfTurn)));
    assert_eq!(InitError::OutOfTurn.message(), "Error init was resumed out of turn");
}
