use cedar::cli::{Action, Args, Commands, Flags};
use cedar::compile::Presence;
use cedar::discovery::Entry;
use cedar::error::{BuildError, CliError, ManifestError};
use cedar::manifest::Manifest;
use cedar::scaffold::plan_init;
use cedar::session::{BuildAction, BuildEvent, BuildFailure, BuildState};

fn words(v: &[&str]) -> Vec<String> {
    v.iter().map(|s| s.to_string()).collect()
}

const ALL: Presence = Presence { manifest: true, src: true, headers: true, build: true };

#[test]
fn parse_commands() {
    let a = Args::get(&words(&[]), "/w").unwrap();
    assert_eq!(a.command, Commands::Help);
    assert_eq!(a.path, "/w");
    for (w, c) in [
        ("init", Commands::Init),
        ("build", Commands::Build),
        (" run ", Commands::Run),
        ("help", Commands::Help),
    ] {
        let a = Args::get(&words(&[w]), "/w").unwrap();
        assert_eq!(a.command, c);
        assert_eq!(a.path, "/w");
        assert!(a.flags.is_empty());
    }
}

#[test]
fn parse_new_with_name_and_flags() {
    let a = Args::get(&words(&["new", "//demo", "--git"]), "/w").unwrap();
    assert_eq!(a.command, Commands::New);
    assert_eq!(a.path, "/w/demo");
    assert_eq!(a.flags, vec![Flags::Git]);
    let a = Args::get(&words(&["init", "-g", "x", "--git"]), "/w/").unwrap();
    assert_eq!(a.path, "/w/");
    assert_eq!(a.flags, vec![Flags::Git, Flags::Git]);
}

#[test]
fn parse_errors() {
    assert_eq!(Args::get(&words(&["make"]), "/w"), Err(CliError::InvalidCommand));
    assert!(matches!(
        Args::get(&words(&["new"]), "/w"),
        Err(CliError::MissingArgument(_))
    ));
}

#[test]
fn exec_decides_action() {
    let a = Args::get(&words(&["new", "demo", "-g"]), "/w").unwrap();
    assert_eq!(a.exec(), Action::New { path: "/w/demo".to_string(), git: true });
    let a = Args::get(&words(&["init"]), "/w").unwrap();
    assert_eq!(a.exec(), Action::Init { path: "/w".to_string(), git: false });
    let a = Args::get(&words(&["build"]), "/w").unwrap();
    assert_eq!(a.exec(), Action::Build { path: "/w".to_string() });
    let a = Args::get(&words(&["run"]), "/w").unwrap();
    assert_eq!(a.exec(), Action::Run { path: "/w".to_string() });
    let a = Args::get(&words(&[]), "/w").unwrap();
    assert_eq!(a.exec(), Action::Help);
}

fn build_to_dispatch(manifest: Manifest, headers: Vec<Entry>) -> (BuildState, BuildAction) {
    let (s, a) = BuildState::start("demo");
    match a {
        BuildAction::Probe(p) => assert_eq!(p.headers, "demo/include/"),
        other => panic!("unexpected {:?}", other),
    }
    let (s, a) = s.next("demo", BuildEvent::Probed(ALL));
    assert_eq!(a, BuildAction::ReadManifest("demo/cedar.toml".to_string()));
    let (s, a) = s.next("demo", BuildEvent::ManifestRead(Ok(manifest)));
    assert_eq!(a, BuildAction::Discover("demo/src/".to_string()));
    let (s, a) = s.next("demo", BuildEvent::Listed(vec![Entry::File("demo/src/main.c".to_string())]));
    assert_eq!(a, BuildAction::Discover("demo/include/".to_string()));
    s.next("demo", BuildEvent::Listed(headers))
}

#[test]
fn end_to_end_demo() {
    let plan = plan_init("demo", true, true, Some("demo".to_string())).unwrap();
    assert_eq!(plan.manifest.meta.name, "demo");
    let (s, a) = build_to_dispatch(plan.manifest, vec![]);
    assert_eq!(s, BuildState::Dispatched);
    match a {
        BuildAction::Spawn(inv) => {
            assert_eq!(inv.program, "gcc");
            assert_eq!(inv.args, words(&["demo/src/main.c", "-Wall", "-Wextra", "-o", "demo/build/demo"]));
        }
        other => panic!("unexpected {:?}", other),
    }
    let (s, a) = s.next("demo", BuildEvent::CompilerExited);
    assert_eq!(s, BuildState::Finished);
    assert_eq!(a, BuildAction::Report);
    let (s, a) = s.next("demo", BuildEvent::CompilerExited);
    assert_eq!(s, BuildState::Finished);
    assert_eq!(a, BuildAction::Idle);
}

#[test]
fn session_orders_sources_before_headers() {
    let (_, a) = build_to_dispatch(
        Manifest::named("demo"),
        vec![Entry::File("demo/include/b.h".to_string())],
    );
    match a {
        BuildAction::Spawn(inv) => assert_eq!(
            inv.args,
            words(&["demo/src/main.c", "demo/include/b.h", "-Wall", "-Wextra", "-o", "demo/build/demo"])
        ),
        other => panic!("unexpected {:?}", other),
    }
}

#[test]
fn session_stops_on_unknown_compiler() {
    let mut m = Manifest::named("demo");
    m.build.compiler = "tcc".to_string();
    let (s, a) = build_to_dispatch(m, vec![]);
    assert_eq!(s, BuildState::Failed(BuildFailure::Build(BuildError::InvalidCompiler)));
    assert_eq!(a, BuildAction::Stop);
}

#[test]
fn session_stops_on_missing_path() {
    let (s, _) = BuildState::start("demo");
    let (s, a) = s.next("demo", BuildEvent::Probed(Presence { headers: false, ..ALL }));
    assert_eq!(s, BuildState::Failed(BuildFailure::Build(BuildError::InvalidDirectory)));
    assert_eq!(a, BuildAction::Stop);
    let (s2, a2) = s.next("demo", BuildEvent::CompilerExited);
    assert_eq!(s2, BuildState::Failed(BuildFailure::Build(BuildError::InvalidDirectory)));
    assert_eq!(a2, BuildAction::Idle);
}

#[test]
fn session_stops_on_bad_manifest_and_io() {
    let (s, _) = BuildState::start("demo");
    let (s, _) = s.next("demo", BuildEvent::Probed(ALL));
    let e = ManifestError::InvalidManifest("missing field".to_string());
    let (f, a) = s.clone().next("demo", BuildEvent::ManifestRead(Err(e.clone())));
    assert_eq!(f, BuildState::Failed(BuildFailure::Manifest(e)));
    assert_eq!(a, BuildAction::Stop);
    let (f, a) = s.next("demo", BuildEvent::IoFailed("denied".to_string()));
    assert_eq!(f, BuildState::Failed(BuildFailure::Io("denied".to_string())));
    assert_eq!(a, BuildAction::Stop);
}

#[test]
fn session_refuses_unnamed_manifest() {
    let (s, _) = BuildState::start("demo");
    let (s, _) = s.next("demo", BuildEvent::Probed(ALL));
    let (s, a) = s.next("demo", BuildEvent::ManifestRead(Ok(Manifest::new())));
    assert_eq!(
        s,
        BuildState::Failed(BuildFailure::Manifest(ManifestError::InvalidManifest(
            "meta.name is empty".to_string()
        )))
    );
    assert_eq!(a, BuildAction::Stop);
}

#[test]
fn session_defaults_missing_version() {
    let (s, _) = BuildState::start("demo");
    let (s, _) = s.next("demo", BuildEvent::Probed(ALL));
    let mut m = Manifest::named("demo");
    m.meta.version = None;
    let (s, _) = s.next("demo", BuildEvent::ManifestRead(Ok(m)));
    match s {
        BuildState::ManifestLoaded { manifest } => {
            assert_eq!(manifest, Manifest::named("demo"))
        }
        other => panic!("unexpected {:?}", other),
    }
}

#[test]
fn parse_trims_unicode_white_space() {
    let a = Args::get(&words(&["\u{3000}build\t\u{a0}", " -g\n"]), "/w").unwrap();
    assert_eq!(a.command, Commands::Build);
    assert_eq!(a.flags, vec![Flags::Git]);
    assert_eq!(Args::get(&words(&["\u{200b}build"]), "/w"), Err(CliError::InvalidCommand));
}

#[test]
fn session_ignores_out_of_order_events() {
    let (s, _) = BuildState::start("demo");
    let (s, a) = s.next("demo", BuildEvent::CompilerExited);
    assert_eq!(s, BuildState::Start);
    assert_eq!(a, BuildAction::Idle);
}
