use gla_launcher::install::InstallError;
use gla_launcher::launch::LaunchError;
use gla_launcher::session::{Action, Event, Outcome, Session, Stage};

fn ask_notice(a: &Action) -> String {
    match a {
        Action::Ask { notice, .. } => notice.clone(),
        other => panic!("expected a prompt, got {:?}", other),
    }
}

fn checked_path(a: &Action) -> String {
    match a {
        Action::CheckPath(p) => p.clone(),
        other => panic!("expected a path check, got {:?}", other),
    }
}

/// Runs a session up to the prefix prompt with Wine present and the
/// installer at its default path.
fn at_prefix_prompt() -> Session {
    let mut s = Session::new("/home/ana".to_string());
    s.step(Event::Begin);
    s.step(Event::WineProbed(true));
    s.step(Event::PathChecked(true));
    let a = s.step(Event::PathChecked(true));
    assert_eq!(ask_notice(&a), "Usando WINEPREFIX padrão: /home/ana/.wine-grandline");
    s
}

#[test]
fn wine_present_and_installer_missing_asks_once() {
    let mut s = Session::new("/home/ana".to_string());
    let mut actions = vec![s.step(Event::Begin)];
    actions.push(s.step(Event::WineProbed(true)));
    assert_eq!(checked_path(&actions[1]), "/home/ana/Downloads/gla_installer.exe");
    actions.push(s.step(Event::PathChecked(false)));
    actions.push(s.step(Event::Answer("  /media/gla/setup.exe \n".to_string())));
    assert_eq!(checked_path(&actions[3]), "/media/gla/setup.exe");
    actions.push(s.step(Event::PathChecked(true)));
    actions.push(s.step(Event::Answer("\n".to_string())));
    actions.push(s.step(Event::PathChecked(true)));
    actions.push(s.step(Event::PathChecked(true)));
    assert!(matches!(actions[0], Action::ProbeWine));
    let path_prompts = actions
        .iter()
        .filter(|a| matches!(a, Action::Ask { prompt, .. } if prompt.contains("instalador")))
        .count();
    assert_eq!(path_prompts, 1);
    assert!(!actions.iter().any(|a| matches!(a, Action::ReadDescriptor | Action::RunInstall(_))));
    match actions.last().unwrap() {
        Action::Launch { exe, prefix } => {
            assert_eq!(exe, "/media/gla/setup.exe");
            assert_eq!(prefix, "/home/ana/.wine-grandline");
        },
        other => panic!("expected a launch, got {:?}", other),
    }
    assert_eq!(s.stage, Stage::Running);
}

#[test]
fn missing_wine_on_ubuntu_runs_apt() {
    let mut s = Session::new("/home/ana".to_string());
    s.step(Event::Begin);
    assert!(matches!(s.step(Event::WineProbed(false)), Action::ReadDescriptor));
    match s.step(Event::DescriptorRead("ID=ubuntu\nID_LIKE=debian\n".to_string())) {
        Action::RunInstall(cmd) => assert_eq!(cmd, vec!["apt", "install", "wine", "-y"]),
        other => panic!("expected an installation, got {:?}", other),
    }
    let a = s.step(Event::InstallFinished(true));
    assert_eq!(checked_path(&a), "/home/ana/Downloads/gla_installer.exe");
}

#[test]
fn unsupported_distribution_installs_nothing() {
    let mut s = Session::new("/root".to_string());
    s.step(Event::Begin);
    s.step(Event::WineProbed(false));
    match s.step(Event::DescriptorRead("ID=alpine\n".to_string())) {
        Action::Finish(Outcome::InstallFailed(InstallError::Unsupported(d))) => {
            assert_eq!(d, "alpine")
        },
        other => panic!("expected failure, got {:?}", other),
    }
    assert_eq!(s.stage, Stage::Finished);
    assert!(matches!(s.step(Event::InstallFinished(true)), Action::Ignore));
}

#[test]
fn unreadable_descriptor_and_failed_install_finish() {
    let mut s = Session::new("/root".to_string());
    s.step(Event::Begin);
    s.step(Event::WineProbed(false));
    match s.step(Event::DescriptorFailed("no such file".to_string())) {
        Action::Finish(Outcome::InstallFailed(InstallError::DescriptorUnreadable(m))) => {
            assert_eq!(m, "no such file")
        },
        other => panic!("expected failure, got {:?}", other),
    }
    let mut s = Session::new("/root".to_string());
    s.step(Event::Begin);
    s.step(Event::WineProbed(false));
    s.step(Event::DescriptorRead("ID=fedora".to_string()));
    assert!(matches!(
        s.step(Event::InstallFinished(false)),
        Action::Finish(Outcome::InstallFailed(InstallError::Failed))
    ));
}

#[test]
fn wrong_path_is_corrected_once() {
    let mut s = Session::new("/home/ana".to_string());
    s.step(Event::Begin);
    s.step(Event::WineProbed(true));
    s.step(Event::PathChecked(false));
    s.step(Event::Answer("/bad.exe".to_string()));
    let a = s.step(Event::PathChecked(false));
    assert_eq!(ask_notice(&a), "Arquivo não encontrado: /bad.exe");
    let a = s.step(Event::Answer("/good.exe".to_string()));
    assert_eq!(ask_notice(&a), "Usando WINEPREFIX padrão: /home/ana/.wine-grandline");
    assert_eq!(s.exe, "/good.exe");
}

#[test]
fn missing_prefix_is_created_existing_is_kept() {
    let mut s = at_prefix_prompt();
    match s.step(Event::Answer(" /opt/pfx ".to_string())) {
        Action::CheckPrefix(p) => assert_eq!(p, "/opt/pfx"),
        other => panic!("expected a prefix check, got {:?}", other),
    }
    match s.step(Event::PathChecked(false)) {
        Action::CreateDir(p) => assert_eq!(p, "/opt/pfx"),
        other => panic!("expected creation, got {:?}", other),
    }
    let a = s.step(Event::DirCreated);
    assert_eq!(checked_path(&a), "/home/ana/Downloads/gla_installer.exe");

    let mut s = at_prefix_prompt();
    s.step(Event::Answer("/opt/pfx".to_string()));
    let a = s.step(Event::PathChecked(true));
    assert_eq!(checked_path(&a), "/home/ana/Downloads/gla_installer.exe");
}

#[test]
fn prefix_creation_failure_finishes() {
    let mut s = at_prefix_prompt();
    s.step(Event::Answer("".to_string()));
    s.step(Event::PathChecked(false));
    match s.step(Event::DirFailed("permission denied".to_string())) {
        Action::Finish(Outcome::LaunchFailed(LaunchError::PrefixCreation(m))) => {
            assert_eq!(m, "permission denied")
        },
        other => panic!("expected failure, got {:?}", other),
    }
}

#[test]
fn vanished_installer_is_not_launched() {
    let mut s = at_prefix_prompt();
    s.step(Event::Answer("".to_string()));
    s.step(Event::PathChecked(true));
    match s.step(Event::PathChecked(false)) {
        Action::Finish(Outcome::LaunchFailed(LaunchError::NotFound(p))) => {
            assert_eq!(p, "/home/ana/Downloads/gla_installer.exe")
        },
        other => panic!("expected not-found, got {:?}", other),
    }
}

#[test]
fn exit_codes_are_reported() {
    let mut s = at_prefix_prompt();
    s.step(Event::Answer("".to_string()));
    s.step(Event::PathChecked(true));
    s.step(Event::PathChecked(true));
    assert!(matches!(s.step(Event::Exited(None)), Action::Finish(Outcome::Exited(-1))));

    let mut s = at_prefix_prompt();
    s.step(Event::Answer("".to_string()));
    s.step(Event::PathChecked(true));
    s.step(Event::PathChecked(true));
    assert!(matches!(s.step(Event::Exited(Some(2))), Action::Finish(Outcome::Exited(2))));
}

#[test]
fn spawn_failure_is_reported() {
    let mut s = at_prefix_prompt();
    s.step(Event::Answer("".to_string()));
    s.step(Event::PathChecked(true));
    s.step(Event::PathChecked(true));
    assert!(matches!(
        s.step(Event::LaunchFailed("no wine".to_string())),
        Action::Finish(Outcome::LaunchFailed(LaunchError::Spawn(_)))
    ));
}

#[test]
fn unexpected_event_is_ignored() {
    let mut s = Session::new("/home/ana".to_string());
    assert!(matches!(s.step(Event::WineProbed(true)), Action::Ignore));
    assert_eq!(s.stage, Stage::Start);
}
