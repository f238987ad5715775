use nanuak_dictionary::action::Action;
use nanuak_dictionary::cargo_toml::{CargoToml, Dependencies, Dependency, Package, Workspace};
use nanuak_dictionary::create_new_version::NewVersionProcedure;
use nanuak_dictionary::create_new_version_state::CreateNewVersionState;
use nanuak_dictionary::define_word_state::{DefineWordCommand, DefineWordEvent, DefineWordState};
use nanuak_dictionary::effects::{Command, Event, StepError};
use nanuak_dictionary::state::{
    initial_actions, AppCommand, AppEvent, DictionaryApplicationState, State,
};
use nanuak_dictionary::versions::{DirEntry, NextVersionError, RootDirError};

const ROOT: &str = "/home/me/Nanuak-Dictionary";

fn listing() -> Vec<DirEntry> {
    ["v1", "v2-dictionary", "Cargo.toml", "target"]
        .iter()
        .map(|n| DirEntry { name: n.to_string(), is_dir: !n.contains('.') })
        .collect()
}

fn probe_root() -> Event {
    Event::DictionaryRootProbed {
        current_dir: format!("{ROOT}/v2-dictionary"),
        current_is_dir: true,
        parent_is_dir: true,
    }
}

fn workspace_toml() -> CargoToml {
    CargoToml {
        package: None,
        workspace: Some(Workspace {
            members: vec!["v1".to_string(), "v2-dictionary".to_string()],
            dependencies: Dependencies(vec![(
                "v1".to_string(),
                Dependency::Path { path: "v1".to_string(), features: None },
            )]),
        }),
        dependencies: None,
        dev_dependencies: None,
    }
}

fn crate_toml(name: &str) -> CargoToml {
    CargoToml {
        package: Some(Package {
            name: name.to_string(),
            version: "0.1.0".to_string(),
            edition: "2021".to_string(),
        }),
        workspace: None,
        dependencies: None,
        dev_dependencies: None,
    }
}

fn step(s: CreateNewVersionState, e: Event) -> (CreateNewVersionState, Option<Command>) {
    s.step(e).unwrap()
}

#[test]
fn creating_a_version_from_a_template_runs_through_every_stage() {
    let s = CreateNewVersionState::default();
    assert_eq!(s.describe(), "Determine workspace Cargo.toml path");
    assert!(matches!(s.first_command(), Some(Command::LocateDictionaryRoot)));

    let (s, c) = step(s, probe_root());
    assert_eq!(s.describe(), "Identify next version number");
    match c {
        Some(Command::ListDirectory { dir }) => assert_eq!(dir, ROOT),
        other => panic!("{other:?}"),
    }

    let (s, c) = step(s, Event::DirectoryListed { entries: listing() });
    assert_eq!(s.describe(), "Identify next version number");
    let entries = match c {
        Some(Command::ShowVersions { versions, entries }) => {
            assert_eq!(versions, vec![format!("{ROOT}/v1"), format!("{ROOT}/v2-dictionary")]);
            entries
        }
        other => panic!("{other:?}"),
    };

    let (s, c) = step(s, Event::VersionsShown { entries });
    assert_eq!(s.describe(), "Identify next version name");
    match c {
        Some(Command::PromptVersionName { next_version_number, warning }) => {
            assert_eq!(next_version_number, 3);
            assert!(warning.is_none());
        }
        other => panic!("{other:?}"),
    }

    let (s, c) = step(s, Event::VersionNameEntered { name: "3-new".to_string() });
    match c {
        Some(Command::PromptVersionName { next_version_number, warning }) => {
            assert_eq!(next_version_number, 3);
            assert_eq!(warning.as_deref(), Some("Version name must start with a 'v'"));
        }
        other => panic!("{other:?}"),
    }

    let (s, c) = step(s, Event::VersionNameEntered { name: "v3-new".to_string() });
    match c {
        Some(Command::CheckDirectoryExists { name, dir }) => {
            assert_eq!(name, "v3-new");
            assert_eq!(dir, format!("{ROOT}/v3-new"));
        }
        other => panic!("{other:?}"),
    }

    let (s, c) = step(s, Event::DirectoryExistence { name: "v3-new".to_string(), exists: true });
    match c {
        Some(Command::ConfirmProceed { name, dir }) => {
            assert_eq!(name, "v3-new");
            assert_eq!(dir, format!("{ROOT}/v3-new"));
        }
        other => panic!("{other:?}"),
    }

    let (s, c) = step(s, Event::ProceedAnswered { name: "v3-new".to_string(), proceed: true });
    assert_eq!(s.describe(), "Identify template version");
    assert!(matches!(c, Some(Command::ListDirectory { .. })));

    let (s, c) = step(s, Event::DirectoryListed { entries: listing() });
    match c {
        Some(Command::PickTemplate { choices }) => {
            assert_eq!(choices, vec![format!("{ROOT}/v2-dictionary"), format!("{ROOT}/v1")]);
        }
        other => panic!("{other:?}"),
    }

    let (s, c) = step(s, Event::TemplatePicked { template_dir: format!("{ROOT}/v2-dictionary") });
    assert_eq!(s.describe(), "Create new version from template");
    match c {
        Some(Command::CopyDirectory { from, to }) => {
            assert_eq!(from, format!("{ROOT}/v2-dictionary"));
            assert_eq!(to, format!("{ROOT}/v3-new"));
        }
        other => panic!("{other:?}"),
    }

    let (s, c) = step(s, Event::DirectoryCopied);
    assert_eq!(s.describe(), "Update workspace Cargo.toml");
    match c {
        Some(Command::CheckFileExists { path }) => assert_eq!(path, format!("{ROOT}/Cargo.toml")),
        other => panic!("{other:?}"),
    }

    let (s, c) = step(s, Event::FileExistence { exists: true });
    match c {
        Some(Command::ReadCargoToml { path }) => assert_eq!(path, format!("{ROOT}/Cargo.toml")),
        other => panic!("{other:?}"),
    }

    let (s, c) = step(s, Event::CargoTomlRead { manifest: workspace_toml() });
    match c {
        Some(Command::WriteCargoToml { path, manifest }) => {
            assert_eq!(path, format!("{ROOT}/Cargo.toml"));
            let ws = manifest.workspace.unwrap();
            assert_eq!(ws.members, vec!["v1", "v2-dictionary", "v3-new"]);
            assert_eq!(ws.dependencies.0.len(), 2);
            assert_eq!(ws.dependencies.0[1].0, "v3-new");
        }
        other => panic!("{other:?}"),
    }

    let (s, c) = step(s, Event::CargoTomlWritten);
    assert_eq!(s.describe(), "Update version Cargo.toml");
    match c {
        Some(Command::ReadCargoToml { path }) => {
            assert_eq!(path, format!("{ROOT}/v3-new/Cargo.toml"))
        }
        other => panic!("{other:?}"),
    }

    let (s, c) = step(s, Event::CargoTomlRead { manifest: crate_toml("v2-dictionary") });
    match c {
        Some(Command::WriteCargoToml { path, manifest }) => {
            assert_eq!(path, format!("{ROOT}/v3-new/Cargo.toml"));
            assert_eq!(manifest.package.unwrap().name, "v3-new");
        }
        other => panic!("{other:?}"),
    }

    let (s, c) = step(s, Event::CargoTomlWritten);
    assert_eq!(s.describe(), "Update main");
    match c {
        Some(Command::ReadText { path }) => {
            assert_eq!(path, format!("{ROOT}/v3-new/src/main.rs"))
        }
        other => panic!("{other:?}"),
    }

    let (s, c) = step(s, Event::TextRead { contents: "use v2-dictionary::x; // v2-dictionary".to_string() });
    match c {
        Some(Command::WriteText { path, contents }) => {
            assert_eq!(path, format!("{ROOT}/v3-new/src/main.rs"));
            assert_eq!(contents, "use v3-new::x; // v3-new");
        }
        other => panic!("{other:?}"),
    }

    let (s, c) = step(s, Event::TextWritten);
    assert!(c.is_none());
    assert!(s.is_terminal());
    assert_eq!(s.describe(), "Done");

    let (s, c) = step(s, Event::DirectoryCopied);
    assert!(c.is_none());
    assert!(s.is_terminal());
}

#[test]
fn a_missing_new_directory_skips_the_confirmation() {
    let s = CreateNewVersionState::IdentifyNextVersionName {
        workspace_dir: ROOT.to_string(),
        next_version_number: 3,
    };
    let (s, c) = step(s, Event::DirectoryExistence { name: "v3".to_string(), exists: false });
    assert_eq!(s.describe(), "Identify template version");
    match c {
        Some(Command::ListDirectory { dir }) => assert_eq!(dir, ROOT),
        other => panic!("{other:?}"),
    }
}

#[test]
fn refusing_to_proceed_stops_creation() {
    let s = CreateNewVersionState::IdentifyNextVersionName {
        workspace_dir: ROOT.to_string(),
        next_version_number: 3,
    };
    let r = s.step(Event::ProceedAnswered { name: "v3".to_string(), proceed: false });
    assert_eq!(r.err(), Some(StepError::UserChoseNotToProceed));
}

#[test]
fn step_errors_of_version_creation() {
    let r = CreateNewVersionState::default().step(Event::DictionaryRootProbed {
        current_dir: "/tmp/elsewhere".to_string(),
        current_is_dir: true,
        parent_is_dir: true,
    });
    assert_eq!(r.err(), Some(StepError::RootDir(RootDirError::NotFound)));

    // the (empty) list of versions is shown before the number is found missing
    let s = CreateNewVersionState::IdentifyNextVersionNumber { workspace_dir: ROOT.to_string() };
    let (s, c) = s.step(Event::DirectoryListed { entries: vec![] }).unwrap();
    match c {
        Some(Command::ShowVersions { versions, .. }) => assert!(versions.is_empty()),
        other => panic!("{other:?}"),
    }
    let r = s.step(Event::VersionsShown { entries: vec![] });
    assert_eq!(r.err(), Some(StepError::NextVersion(NextVersionError::NoVersionsFound)));

    // versions are shown even when the last one holds no number
    let s = CreateNewVersionState::IdentifyNextVersionNumber { workspace_dir: ROOT.to_string() };
    let odd = vec![DirEntry { name: "v1".to_string(), is_dir: true }, DirEntry { name: "v99999999999999999999999".to_string(), is_dir: true }];
    let (s, c) = s.step(Event::DirectoryListed { entries: odd }).unwrap();
    let entries = match c {
        Some(Command::ShowVersions { versions, entries }) => {
            assert_eq!(versions.len(), 2);
            entries
        }
        other => panic!("{other:?}"),
    };
    assert!(matches!(s.step(Event::VersionsShown { entries }).err(), Some(StepError::NextVersion(_))));

    let s = CreateNewVersionState::IdentifyTemplateVersion {
        workspace_dir: ROOT.to_string(),
        next_version_name: "v3".to_string(),
        next_version_dir: format!("{ROOT}/v3"),
    };
    let r = s.step(Event::TemplatePicked { template_dir: "/".to_string() });
    assert_eq!(r.err(), Some(StepError::NoTemplateFileName));

    let plan = || CreateNewVersionState::UpdateWorkspaceCargoToml {
        workspace_dir: ROOT.to_string(),
        next_version_name: "v1".to_string(),
        next_version_dir: format!("{ROOT}/v1"),
        template_version_name: "v2".to_string(),
        template_version_dir: format!("{ROOT}/v2"),
    };
    let r = plan().step(Event::FileExistence { exists: false });
    assert_eq!(r.err(), Some(StepError::WorkspaceCargoTomlNotFound));
    let r = plan().step(Event::CargoTomlRead { manifest: workspace_toml() });
    assert_eq!(
        r.err(),
        Some(StepError::CargoToml(nanuak_dictionary::cargo_toml::CargoTomlError::DependencyAlreadyExists))
    );
    let r = plan().step(Event::TextWritten);
    assert_eq!(r.err(), Some(StepError::UnexpectedEvent));

    let s = CreateNewVersionState::IdentifyNextVersionName {
        workspace_dir: ROOT.to_string(),
        next_version_number: 3,
    };
    let r = s.step(Event::DirectoryExistence { name: "bad name".to_string(), exists: false });
    assert_eq!(r.err(), Some(StepError::UnexpectedEvent));
}

#[test]
fn defining_a_word() {
    let s = DefineWordState::default();
    assert_eq!(s.describe(), "Prompt me for a word to define");
    assert!(matches!(s.first_command(), Some(DefineWordCommand::PromptForWord)));
    let (s, c) = s.step(DefineWordEvent::WordEntered { word: "ubiquitous".to_string() }).unwrap();
    assert_eq!(s.describe(), "Define a word");
    match c {
        Some(DefineWordCommand::DefineWord { word }) => assert_eq!(word, "ubiquitous"),
        other => panic!("{other:?}"),
    }
    let (s, c) = s.step(DefineWordEvent::WordDefined).unwrap();
    assert!(c.is_none());
    assert!(s.is_terminal());
    assert_eq!(s.describe(), "Done");
    let r = DefineWordState::default().step(DefineWordEvent::WordDefined);
    assert_eq!(r.err(), Some(StepError::UnexpectedEvent));
}

#[test]
fn the_application_offers_its_initial_actions() {
    let (s, c) = DictionaryApplicationState::default().begin();
    assert_eq!(s.describe(), "Start the application");
    match c {
        Some(AppCommand::PickInitialAction { choices }) => {
            assert_eq!(choices, vec!["Prompt me for a word to define", "Determine workspace Cargo.toml path"]);
        }
        other => panic!("{other:?}"),
    }
    assert_eq!(initial_actions().len(), 2);
}

#[test]
fn the_application_runs_the_chosen_machine_to_the_end() {
    let (s, c) = DictionaryApplicationState::default()
        .step(AppEvent::InitialActionPicked { index: 0 })
        .unwrap();
    assert!(matches!(c, Some(AppCommand::DefineWord(DefineWordCommand::PromptForWord))));
    let (s, c) = s
        .step(AppEvent::DefineWord(DefineWordEvent::WordEntered { word: "w".to_string() }))
        .unwrap();
    assert!(matches!(c, Some(AppCommand::DefineWord(DefineWordCommand::DefineWord { .. }))));
    assert!(!s.is_terminal());
    let (s, c) = s.step(AppEvent::DefineWord(DefineWordEvent::WordDefined)).unwrap();
    assert!(c.is_none());
    assert!(s.is_terminal());

    let (s, c) = DictionaryApplicationState::default()
        .step(AppEvent::InitialActionPicked { index: 1 })
        .unwrap();
    assert_eq!(s.describe(), "Determine workspace Cargo.toml path");
    assert!(matches!(c, Some(AppCommand::CreateNewVersion(Command::LocateDictionaryRoot))));
    let (s, c) = s.step(AppEvent::CreateNewVersion(probe_root())).unwrap();
    assert!(matches!(c, Some(AppCommand::CreateNewVersion(Command::ListDirectory { .. }))));
    assert_eq!(s.describe(), "Identify next version number");
}

#[test]
fn the_application_refuses_unknown_choices() {
    let r = DictionaryApplicationState::default().step(AppEvent::InitialActionPicked { index: 2 });
    assert_eq!(r.err(), Some(StepError::UnexpectedEvent));
    let r = DictionaryApplicationState::default()
        .step(AppEvent::DefineWord(DefineWordEvent::WordDefined));
    assert_eq!(r.err(), Some(StepError::UnexpectedEvent));
}

#[test]
fn a_finished_machine_finishes_the_application() {
    let (s, c) = DictionaryApplicationState::DefineWord(DefineWordState::Done).begin();
    assert!(c.is_none());
    assert!(s.is_terminal());
    let (s, c) = DictionaryApplicationState::Done
        .step(AppEvent::InitialActionPicked { index: 0 })
        .unwrap();
    assert!(c.is_none());
    assert!(s.is_terminal());
}

#[test]
fn the_older_procedure_copies_a_chosen_version() {
    let s = NewVersionProcedure::LocateRoot;
    assert!(matches!(s.first_command(), Some(Command::LocateDictionaryRoot)));
    let (s, c) = s.step(probe_root()).unwrap();
    assert!(matches!(c, Some(Command::ListDirectory { .. })));
    let (s, c) = s.step(Event::DirectoryListed { entries: listing() }).unwrap();
    let entries = match c {
        Some(Command::ShowVersions { versions, entries }) => {
            assert_eq!(versions.len(), 2);
            entries
        }
        other => panic!("{other:?}"),
    };
    let (s, c) = s.step(Event::VersionsShown { entries }).unwrap();
    match c {
        Some(Command::PromptVersionName { next_version_number, .. }) => assert_eq!(next_version_number, 3),
        other => panic!("{other:?}"),
    }
    let (s, _) = s.step(Event::VersionNameEntered { name: "v3".to_string() }).unwrap();
    let (s, c) = s.step(Event::DirectoryExistence { name: "v3".to_string(), exists: false }).unwrap();
    assert!(matches!(c, Some(Command::AskCopyExisting)));
    let (s, c) = s.step(Event::CopyExistingAnswered { copy: true }).unwrap();
    match c {
        Some(Command::PromptTemplateIndex { versions }) => {
            assert_eq!(versions, vec![format!("{ROOT}/v1"), format!("{ROOT}/v2-dictionary")])
        }
        other => panic!("{other:?}"),
    }
    let (s, c) = s.step(Event::TemplateIndexEntered { index: 1 }).unwrap();
    match c {
        Some(Command::CopyDirectory { from, to }) => {
            assert_eq!(from, format!("{ROOT}/v2-dictionary"));
            assert_eq!(to, format!("{ROOT}/v3"));
        }
        other => panic!("{other:?}"),
    }
    let (s, c) = s.step(Event::DirectoryCopied).unwrap();
    match c {
        Some(Command::ReadCargoToml { path }) => assert_eq!(path, format!("{ROOT}/v3/Cargo.toml")),
        other => panic!("{other:?}"),
    }
    let (s, c) = s.step(Event::CargoTomlRead { manifest: crate_toml("v2-dictionary") }).unwrap();
    match c {
        Some(Command::WriteCargoToml { manifest, .. }) => {
            let p = manifest.package.unwrap();
            assert_eq!(p.name, "v3");
            assert_eq!(p.version, "0.1.0");
        }
        other => panic!("{other:?}"),
    }
    let (s, c) = s.step(Event::CargoTomlWritten).unwrap();
    assert!(c.is_none());
    assert!(matches!(s, NewVersionProcedure::Done));
}

#[test]
fn the_older_procedure_can_start_empty() {
    let s = NewVersionProcedure::ChooseStarter {
        versions: vec![format!("{ROOT}/v1")],
        next_version_name: "v2".to_string(),
        next_version_dir: format!("{ROOT}/v2"),
    };
    let (s, c) = s.step(Event::CopyExistingAnswered { copy: false }).unwrap();
    match c {
        Some(Command::CreateDirectory { dir }) => assert_eq!(dir, format!("{ROOT}/v2")),
        other => panic!("{other:?}"),
    }
    let (s, c) = s.step(Event::DirectoryCreated).unwrap();
    assert!(c.is_none());
    assert!(matches!(s, NewVersionProcedure::Done));
}

#[test]
fn actions_are_offered_in_order() {
    let actions = Action::variants();
    assert_eq!(actions, vec![Action::CreateNewVersion, Action::DefineWord]);
    assert_eq!(Action::CreateNewVersion.to_string(), "Create a new version");
    assert_eq!(Action::DefineWord.to_string(), "Define a word");
}
