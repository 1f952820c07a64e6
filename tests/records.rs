use cedar::discovery::{discover, Entry};
use cedar::error::{BuildError, CliError, ManifestError, ProjectError};
use cedar::manifest::Manifest;
use cedar::scaffold::{hello_world, plan_init};

fn file(p: &str) -> Entry {
    Entry::File(p.to_string())
}

#[test]
fn default_manifest() {
    let m = Manifest::new();
    assert_eq!(m.meta.name, "");
    assert_eq!(m.meta.version, Some("0.1.0".to_string()));
    assert_eq!(m.meta.description, None);
    assert_eq!(m.build.compiler, "GCC");
    assert_eq!(m.build.cflags, vec!["-Wall".to_string(), "-Wextra".to_string()]);
    assert_eq!(Manifest::default(), m);
}

#[test]
fn named_manifest() {
    let m = Manifest::named("demo");
    assert_eq!(m.meta.name, "demo");
    let mut d = Manifest::new();
    d.meta.name = "demo".to_string();
    assert_eq!(m, d);
}

#[test]
fn test_init() {
    let r = plan_init("./tests/project/", true, true, Some("project".to_string()));
    let s = r.unwrap();
    assert_eq!(s.manifest.meta.name, "project");
    assert_eq!(s.manifest_path, "./tests/project/cedar.toml");
    assert_eq!(s.main_path, "./tests/project/src/main.c");
}

#[test]
fn checked_defaults_the_version() {
    let mut m = Manifest::named("x");
    m.meta.version = None;
    let c = m.clone().checked().unwrap();
    assert_eq!(c.meta.version, Some("0.1.0".to_string()));
    assert_eq!(c.meta.name, "x");
    assert_eq!(c.build, m.build);
    let mut v = Manifest::named("x");
    v.meta.version = Some("2.0.0".to_string());
    assert_eq!(v.clone().checked(), Ok(v));
}

#[test]
fn manifest_needs_a_name() {
    assert_eq!(
        Manifest::new().checked(),
        Err(ManifestError::InvalidManifest("meta.name is empty".to_string()))
    );
    let m = Manifest::named("x");
    assert_eq!(m.clone().checked(), Ok(m));
}

#[test]
fn discover_empty_directory() {
    assert!(discover(&vec![]).is_empty());
    assert!(discover(&vec![Entry::Dir(vec![]), Entry::Dir(vec![Entry::Dir(vec![])])]).is_empty());
}

#[test]
fn discover_nested_depth_first() {
    let tree = vec![
        file("r/a.c"),
        Entry::Dir(vec![file("r/d/b.c"), Entry::Dir(vec![file("r/d/e/c.c")]), file("r/d/f.c")]),
        file("r/g.c"),
    ];
    assert_eq!(discover(&tree), vec!["r/a.c", "r/d/b.c", "r/d/e/c.c", "r/d/f.c", "r/g.c"]);
}

#[test]
fn discover_ignores_empty_directories() {
    let plain = vec![file("a"), Entry::Dir(vec![file("b")])];
    let padded = vec![
        Entry::Dir(vec![]),
        file("a"),
        Entry::Dir(vec![Entry::Dir(vec![]), file("b"), Entry::Dir(vec![])]),
        Entry::Dir(vec![]),
    ];
    assert_eq!(discover(&plain), discover(&padded));
    assert_eq!(discover(&padded).len(), 2);
}

#[test]
fn discover_ignores_deep_empty_directories() {
    let plain = vec![Entry::Dir(vec![Entry::Dir(vec![file("a/b/c.c")])]), file("d.c")];
    let padded = vec![
        Entry::Dir(vec![
            Entry::Dir(vec![Entry::Dir(vec![Entry::Dir(vec![])]), file("a/b/c.c")]),
            Entry::Dir(vec![Entry::Dir(vec![]), Entry::Dir(vec![])]),
        ]),
        Entry::Dir(vec![Entry::Dir(vec![Entry::Dir(vec![])])]),
        file("d.c"),
    ];
    assert_eq!(discover(&plain), vec!["a/b/c.c", "d.c"]);
    assert_eq!(discover(&plain), discover(&padded));
}

#[test]
fn init_refuses_non_empty_directory() {
    let r = plan_init("demo", true, false, Some("demo".to_string()));
    assert_eq!(r, Err(ProjectError::NonEmptyPath("demo".to_string())));
}

#[test]
fn init_refuses_missing_directory() {
    let r = plan_init("demo", false, true, Some("demo".to_string()));
    assert_eq!(r, Err(ProjectError::InvalidPath("demo".to_string())));
}

#[test]
fn init_plans_skeleton() {
    let s = plan_init("demo", true, true, Some("demo".to_string())).unwrap();
    assert_eq!(s.dirs, vec!["demo/src/", "demo/include/", "demo/build/"]);
    assert_eq!(s.main_path, "demo/src/main.c");
    assert_eq!(
        s.main_source,
        "#include <stdio.h>\n\nint main() {\n\tprintf(\"Hello World!\");\n\treturn 0;\n}"
    );
    assert_eq!(s.main_source, hello_world());
    assert_eq!(s.manifest_path, "demo/cedar.toml");
    assert_eq!(s.manifest, Manifest::named("demo"));
}

#[test]
fn init_falls_back_to_placeholder() {
    let s = plan_init("x/y", true, true, None).unwrap();
    assert_eq!(s.manifest.meta.name, "placeholder");
    let s = plan_init(".", true, true, None).unwrap();
    assert_eq!(s.manifest.meta.name, "placeholder");
    assert_eq!(s.dirs, vec!["./src/", "./include/", "./build/"]);
}

#[test]
fn error_messages() {
    assert_eq!(BuildError::InvalidDirectory.message(), "Error: Project has invalid structure.\n");
    assert_eq!(
        BuildError::InvalidCompiler.message(),
        "Error: Compiler given in the manifest is invalid.\n"
    );
    assert_eq!(CliError::InvalidCommand.message(), "Error: Invalid command was given.");
    assert_eq!(
        CliError::MissingArgument("name".to_string()).message(),
        "Error: Missing argument name\n"
    );
    assert_eq!(
        ManifestError::InvalidManifest("bad".to_string()).message(),
        "Error: Failed to read manifest.\n bad"
    );
    assert_eq!(
        ManifestError::SerializeError("bad".to_string()).message(),
        "Error: Failed to create manifest.\n bad"
    );
    assert_eq!(
        ProjectError::ManifestError(ManifestError::InvalidManifest("e".to_string())).message(),
        "Error: Failed to read manifest.\n e\n"
    );
    assert_eq!(
        ProjectError::InvalidPath("p".to_string()).message(),
        "Error: Invalid path given. \n \"p\"\n"
    );
    assert_eq!(
        ProjectError::NonEmptyPath("p".to_string()).message(),
        "Error: Path given is not empty. \n p\n"
    );
    assert_eq!(
        ProjectError::IoError("e".to_string()).message(),
        "Error: Project caused an std::io::Error. \n e\n"
    );
    assert_eq!(
        ProjectError::NotExecutable("demo/build/demo".to_string()).message(),
        "Error: Could not run executable. \n demo/build/demo\n"
    );
}
