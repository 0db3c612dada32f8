//! Finding the workflow configuration.

use cruise::error::CruiseError;
use cruise::resolver::{
    after_answer, after_choice, after_read, choose_user_file, collect_yaml_files, file_to_read,
    first_place, has_config_extension, prompt_select_config, ConfigSource, DirEntry, FileRead, Place,
    Resolution, UserChoice, UserStep,
};
use cruise::run_cmd::session_run::MenuAnswer;

const BUILTIN: &str = "command: [agent]\nsteps: {}";

/// The files that there are, each with its text. The user's directory holds none.
fn resolve(
    explicit: Option<&str>,
    env: Option<&str>,
    files: &[(&str, &str)],
) -> Result<(String, ConfigSource), CruiseError> {
    let mut place = first_place(explicit, env.map(str::to_string));
    loop {
        let resolution = match file_to_read(&place) {
            Some(path) => {
                let read = match files.iter().find(|(name, _)| *name == path) {
                    Some((_, text)) => FileRead::Text(text.to_string()),
                    None => FileRead::NotFound("gone".to_string()),
                };
                after_read(place, read, Some("/repo"), false)?
            }
            None => {
                let choice = choose_user_file(Some("/home/.cruise"), &vec![], false);
                match after_choice(choice, BUILTIN) {
                    UserStep::Resolved(resolution) => resolution,
                    UserStep::Ask(names) => panic!("{names:?}"),
                }
            }
        };
        match resolution {
            Resolution::Found(yaml, source) => return Ok((yaml, source)),
            Resolution::Look(next) => place = next,
        }
    }
}

fn found(
    explicit: Option<&str>,
    env: Option<&str>,
    files: &[(&str, &str)],
) -> (String, ConfigSource) {
    resolve(explicit, env, files).unwrap_or_else(|e| panic!("{e:?}"))
}

const ECHO: &str = "command: [echo]\nsteps:\n  s:\n    command: echo";

#[test]
fn test_resolve_explicit_ok() {
    let (yaml, source) = found(Some("/tmp/x.yaml"), None, &[("/tmp/x.yaml", ECHO)]);
    assert!(yaml.contains("echo"));
    assert!(matches!(source, ConfigSource::Explicit(p) if p == "/tmp/x.yaml"));
}

#[test]
fn test_resolve_explicit_missing() {
    let result = resolve(Some("/nonexistent/path/cruise.yaml"), None, &[]);
    assert!(matches!(
        result,
        Err(CruiseError::ConfigNotFound(p)) if p == "/nonexistent/path/cruise.yaml"
    ));
}

#[test]
fn test_resolve_builtin_fallback() {
    let (yaml, source) = found(None, None, &[]);
    assert!(yaml.contains("steps"));
    assert!(matches!(source, ConfigSource::Builtin));
    assert_eq!(source.display_string(), "config: (builtin default)");
    assert_eq!(source.path(), None);
}

#[test]
fn test_resolve_local() {
    let (yaml, source) = found(None, None, &[("cruise.yaml", ECHO)]);
    assert!(yaml.contains("echo"));
    assert_eq!(source.display_string(), "config: /repo/cruise.yaml");
    assert_eq!(source.path(), Some(&"/repo/cruise.yaml".to_string()));
    assert!(matches!(source, ConfigSource::Local(_)));
}

#[test]
fn test_resolve_local_yml() {
    let (yaml, source) = found(None, None, &[("cruise.yml", ECHO)]);
    assert!(yaml.contains("echo"));
    assert!(matches!(source, ConfigSource::Local(p) if p == "/repo/cruise.yml"));
}

#[test]
fn test_resolve_hidden_cruise_yaml() {
    let (yaml, source) = found(None, None, &[(".cruise.yaml", ECHO)]);
    assert!(yaml.contains("echo"));
    assert!(matches!(source, ConfigSource::Local(p) if p == "/repo/.cruise.yaml"));
}

#[test]
fn test_resolve_hidden_cruise_yml() {
    let (yaml, source) = found(None, None, &[(".cruise.yml", ECHO)]);
    assert!(yaml.contains("echo"));
    assert!(matches!(source, ConfigSource::Local(p) if p == "/repo/.cruise.yml"));
}

#[test]
fn test_resolve_env_var_ok() {
    let (yaml, source) = found(None, Some("conf/e.yaml"), &[("conf/e.yaml", ECHO)]);
    assert!(yaml.contains("echo"));
    assert!(matches!(source, ConfigSource::EnvVar(p) if p == "/repo/conf/e.yaml"));
}

#[test]
fn test_resolve_env_var_missing_file() {
    let path = "/nonexistent/env/cruise.yaml";
    let result = resolve(None, Some(path), &[("cruise.yaml", ECHO)]);
    assert!(matches!(result, Err(CruiseError::ConfigNotFound(_))));
}

#[test]
fn test_env_var_takes_priority_over_local() {
    let files = [
        (
            "/e.yaml",
            "command: [envvar]\nsteps:\n  s:\n    command: envvar",
        ),
        (
            "cruise.yaml",
            "command: [local]\nsteps:\n  s:\n    command: local",
        ),
        ("/x.yaml", ECHO),
    ];
    let (yaml, source) = found(None, Some("/e.yaml"), &files);
    assert!(yaml.contains("envvar"));
    assert!(matches!(source, ConfigSource::EnvVar(_)));
    assert_eq!(found(Some("/x.yaml"), Some("/e.yaml"), &files).0, ECHO);
}

#[test]
fn test_local_takes_priority_over_hidden() {
    let files = [
        (
            ".cruise.yaml",
            "command: [hidden]\nsteps:\n  s:\n    command: hidden",
        ),
        ("cruise.yml", ECHO),
        (
            "cruise.yaml",
            "command: [visible]\nsteps:\n  s:\n    command: visible",
        ),
    ];
    assert!(found(None, None, &files).0.contains("visible"));
    assert_eq!(found(None, None, &files[..2]).0, ECHO);
}

#[test]
fn unreadable_files_are_errors() {
    for (place, name) in [
        (Place::Explicit("/x".to_string()), "/x"),
        (Place::EnvVar("/e".to_string()), "/e"),
        (Place::Local(1), "cruise.yml"),
        (Place::UserFile("/u".to_string()), "/u"),
    ] {
        match after_read(place, FileRead::Failed("denied".to_string()), None, false) {
            Err(e) => assert_eq!(e.message(), format!("failed to read '{name}': denied")),
            Ok(r) => panic!("{r:?}"),
        }
    }
    match after_read(
        Place::UserFile("/u".to_string()),
        FileRead::NotFound("gone".to_string()),
        None,
        false,
    ) {
        Err(e) => assert_eq!(e.message(), "failed to read '/u': gone"),
        Ok(r) => panic!("{r:?}"),
    }
}

fn files(names: &[&str]) -> Vec<DirEntry> {
    names
        .iter()
        .map(|n| DirEntry {
            name: n.to_string(),
            is_file: true,
        })
        .collect()
}

#[test]
fn test_collect_yaml_files_sorted() {
    let names = collect_yaml_files(&files(&["b.yaml", "a.yml", "c.yaml", "d.txt"]));
    assert_eq!(names, vec!["a.yml", "b.yaml", "c.yaml"]);
}

#[test]
fn test_collect_yaml_files_empty_dir() {
    assert!(collect_yaml_files(&vec![]).is_empty());
    let dir = DirEntry {
        name: "dir.yaml".to_string(),
        is_file: false,
    };
    assert!(collect_yaml_files(&vec![dir]).is_empty());
}

#[test]
fn extensions_of_configurations() {
    for (name, is) in [
        ("a.yaml", true),
        ("a.yml", true),
        (".yaml", false),
        (".yml", false),
        ("..yml", true),
        ("yaml", false),
        ("a.yaml.bak", false),
    ] {
        assert_eq!(has_config_extension(name), is, "{name}");
    }
}

#[test]
fn the_user_chooses_among_several_files() {
    assert!(matches!(choose_user_file(Some("/d"), &vec![], false), UserChoice::Nothing));
    assert!(matches!(
        choose_user_file(Some("/d"), &vec!["a.yaml".to_string()], false),
        UserChoice::Only(p) if p == "/d/a.yaml"
    ));
    let names = vec!["a.yaml".to_string(), "b.yaml".to_string()];
    assert!(matches!(
        choose_user_file(Some("/d"), &names, false),
        UserChoice::Ask(shown) if shown == names
    ));
    assert_eq!(
        prompt_select_config("/d", &names, &MenuAnswer::Chosen("b.yaml".to_string()), false)
            .unwrap_or_else(|e| panic!("{e:?}")),
        "/d/b.yaml"
    );
    for (answer, text) in [
        (MenuAnswer::Cancelled, "config selection cancelled"),
        (MenuAnswer::Failed("no tty".to_string()), "no tty"),
        (
            MenuAnswer::Chosen("c".to_string()),
            "selected config not found: c",
        ),
    ] {
        match prompt_select_config("/d", &names, &answer, false) {
            Err(e) => assert_eq!(e.message(), text),
            Ok(p) => panic!("{p}"),
        }
    }
}

#[test]
fn without_any_file_the_default_is_used() {
    for (dir, names) in [
        (None, vec![]),
        (None, vec!["a.yaml".to_string()]),
        (Some("/d"), vec![]),
    ] {
        let choice = choose_user_file(dir, &names, false);
        match after_choice(choice, "default") {
            UserStep::Resolved(Resolution::Found(text, source)) => {
                assert_eq!(text, "default");
                assert!(matches!(source, ConfigSource::Builtin));
            }
            other => panic!("{other:?}"),
        }
    }
}

#[test]
fn a_file_of_the_user_is_read() {
    let look = |r: Resolution| match r {
        Resolution::Look(Place::UserFile(path)) => path,
        other => panic!("{other:?}"),
    };
    match after_choice(UserChoice::Only("/d/a.yaml".to_string()), "default") {
        UserStep::Resolved(r) => assert_eq!(look(r), "/d/a.yaml"),
        other => panic!("{other:?}"),
    }
    let names = vec!["a.yaml".to_string(), "b.yaml".to_string()];
    let choice = choose_user_file(Some("C:\\d"), &names, true);
    assert!(matches!(after_choice(choice, "default"), UserStep::Ask(shown) if shown == names));
    let answer = MenuAnswer::Chosen("b.yaml".to_string());
    let found = after_answer("C:\\d", &names, &answer, true).unwrap_or_else(|e| panic!("{e:?}"));
    assert_eq!(look(found), "C:\\d\\b.yaml");
    assert!(after_answer("/d", &names, &MenuAnswer::Cancelled, false).is_err());
}
