use gitbones::config::{BonesConfig, Data, PathOverride, PermissionDefaults, Permissions};
use gitbones::permissions::{
    apply_default_modes, apply_recursive_mode, apply_single_mode, chmod_error, chown_args,
    chown_failed_error, chown_spawn_error, chown_to_deploy_user, create_worktree_error,
    entry_mode, format_mode, harden_step, metadata_error, parse_mode, walk_error, HardenEvent,
    HardenOp, HardenState, PermissionError,
};

fn s(x: &str) -> String {
    x.to_string()
}

fn config(dir_mode: &str, file_mode: &str, paths: Vec<PathOverride>) -> BonesConfig {
    BonesConfig {
        data: Data {
            remote_name: s("production"),
            project_name: s("shop"),
            host: s("deploy.example.com"),
            port: s("22"),
            git_dir: s("/home/git/shop.git"),
            worktree: s("/var/www/shop"),
            branch: s("master"),
        },
        permissions: Permissions {
            defaults: PermissionDefaults {
                deploy: s("git"),
                owner: s("applications"),
                group: s("www-data"),
                dir_mode: s(dir_mode),
                file_mode: s(file_mode),
            },
            paths,
        },
    }
}

fn path(p: &str, mode: &str, recursive: bool, path_type: Option<&str>) -> PathOverride {
    PathOverride { path: s(p), mode: s(mode), recursive, path_type: path_type.map(s) }
}

#[derive(Debug, PartialEq)]
enum Seen {
    Note(String),
    Chown(String, String, bool),
    Defaults(String, u32, u32),
    Check(String),
    Recursive(String, u32),
    Single(String, u32),
    Finish,
    Fail(String),
}

/// Drives hardening to its end; `missing` names the targets that do not
/// exist.
fn run(cfg: &BonesConfig, missing: &[&str]) -> Vec<Seen> {
    let mut seen = Vec::new();
    let mut state = HardenState::Start;
    let mut event = HardenEvent::Completed;
    for _ in 0..100 {
        let (next, step) = harden_step(cfg, state, event);
        if let Some(n) = step.note {
            seen.push(Seen::Note(n));
        }
        event = HardenEvent::Completed;
        match step.op {
            HardenOp::Chown { ownership, path, recursive } => {
                seen.push(Seen::Chown(ownership, path, recursive))
            }
            HardenOp::ApplyDefaultModes { root, dir_mode, file_mode } => {
                seen.push(Seen::Defaults(root, dir_mode, file_mode))
            }
            HardenOp::CheckExists { path } => {
                let exists = !missing.contains(&path.as_str());
                seen.push(Seen::Check(path));
                event = HardenEvent::TargetChecked { exists };
            }
            HardenOp::ApplyRecursiveMode { path, mode } => seen.push(Seen::Recursive(path, mode)),
            HardenOp::ApplySingleMode { path, mode } => seen.push(Seen::Single(path, mode)),
            HardenOp::CreateDir { path } => panic!("unexpected mkdir {path}"),
            HardenOp::Finish => {
                seen.push(Seen::Finish);
                return seen;
            }
            HardenOp::Fail { error } => {
                seen.push(Seen::Fail(error.message()));
                return seen;
            }
        }
        state = next;
    }
    panic!("hardening did not finish");
}

#[test]
fn parse_mode_reads_octal() {
    assert_eq!(parse_mode("750").ok(), Some(0o750));
    assert_eq!(parse_mode("640").ok(), Some(0o640));
    assert_eq!(parse_mode("+770").ok(), Some(0o770));
    assert_eq!(parse_mode("0").ok(), Some(0));
    assert_eq!(parse_mode("0755").ok(), Some(0o755));
    assert_eq!(parse_mode("37777777777").ok(), Some(u32::MAX));
}

#[test]
fn parse_mode_rejects_what_is_not_octal() {
    for bad in ["", "+", "-7", "8", "75a", " 750", "750 ", "++7", "40000000000", "٧"] {
        match parse_mode(bad) {
            Err(PermissionError::InvalidMode { mode }) => assert_eq!(mode, bad),
            _ => panic!("{bad:?} accepted"),
        }
    }
}

#[test]
fn invalid_mode_message() {
    let e = parse_mode("9").err().unwrap();
    assert_eq!(e.message(), "Invalid mode: 9");
}

#[test]
fn unknown_path_type_message() {
    let e = PermissionError::UnknownPathType { path_type: s("link") };
    assert_eq!(e.message(), "Unknown path type: link");
}

#[test]
fn format_mode_writes_octal() {
    assert_eq!(format_mode(0o755), "755");
    assert_eq!(format_mode(0o640), "640");
    assert_eq!(format_mode(0), "0");
    assert_eq!(format_mode(8), "10");
    assert_eq!(format_mode(u32::MAX), "37777777777");
}

#[test]
fn mode_round_trip() {
    for m in [0u32, 1, 7, 8, 0o644, 0o755, 0o4755, 123456, u32::MAX] {
        assert_eq!(parse_mode(&format_mode(m)).ok(), Some(m));
    }
}

#[test]
fn entry_mode_follows_kind() {
    assert_eq!(entry_mode(true, 0o750, 0o640), 0o750);
    assert_eq!(entry_mode(false, 0o750, 0o640), 0o640);
}

#[test]
fn mode_operations() {
    match apply_single_mode("/var/www/x", 0o660) {
        HardenOp::ApplySingleMode { path, mode } => {
            assert_eq!(path, "/var/www/x");
            assert_eq!(mode, 0o660);
        }
        _ => panic!(),
    }
    match apply_recursive_mode("/var/www/x", 0o770) {
        HardenOp::ApplyRecursiveMode { path, mode } => {
            assert_eq!(path, "/var/www/x");
            assert_eq!(mode, 0o770);
        }
        _ => panic!(),
    }
    match apply_default_modes("/var/www", 0o750, 0o640) {
        HardenOp::ApplyDefaultModes { root, dir_mode, file_mode } => {
            assert_eq!(root, "/var/www");
            assert_eq!((dir_mode, file_mode), (0o750, 0o640));
        }
        _ => panic!(),
    }
}

#[test]
fn chown_arguments() {
    assert_eq!(chown_args("git:git", "/var/www/shop", true), vec!["-R", "git:git", "/var/www/shop"]);
    assert_eq!(chown_args("a:b", "/x", false), vec!["a:b", "/x"]);
}

#[test]
fn error_messages() {
    assert_eq!(chown_spawn_error("/x"), "Failed to chown /x");
    assert_eq!(chown_failed_error("a:b", "/x"), "chown a:b /x failed");
    assert_eq!(chmod_error(0o640, "/x/y", "denied"), "chmod 640 /x/y: denied");
    assert_eq!(walk_error("/x"), "Failed to walk /x");
    assert_eq!(metadata_error("/x/y"), "Failed to read metadata for /x/y");
    assert_eq!(create_worktree_error("/x"), "Failed to create worktree directory: /x");
}

#[test]
fn harden_defaults_only() {
    let cfg = config("750", "640", vec![]);
    assert_eq!(
        run(&cfg, &[]),
        vec![
            Seen::Chown(s("applications:www-data"), s("/var/www/shop"), true),
            Seen::Note(s("Set ownership of /var/www/shop to applications:www-data")),
            Seen::Defaults(s("/var/www/shop"), 0o750, 0o640),
            Seen::Note(s("Applied default modes: dirs=750, files=640")),
            Seen::Finish,
        ]
    );
}

#[test]
fn harden_applies_overrides_in_order() {
    let cfg = config(
        "750",
        "640",
        vec![
            path("storage", "770", true, None),
            path("bootstrap/cache", "770", true, None),
            path("database", "770", false, Some("dir")),
            path("database/database.sqlite", "660", false, Some("file")),
            path("public", "755", false, None),
        ],
    );
    assert_eq!(
        run(&cfg, &["/var/www/shop/bootstrap/cache"]),
        vec![
            Seen::Chown(s("applications:www-data"), s("/var/www/shop"), true),
            Seen::Note(s("Set ownership of /var/www/shop to applications:www-data")),
            Seen::Defaults(s("/var/www/shop"), 0o750, 0o640),
            Seen::Note(s("Applied default modes: dirs=750, files=640")),
            Seen::Check(s("/var/www/shop/storage")),
            Seen::Recursive(s("/var/www/shop/storage"), 0o770),
            Seen::Note(s("Applied mode 770 to storage (recursive)")),
            Seen::Check(s("/var/www/shop/bootstrap/cache")),
            Seen::Note(s("Warning: override path '/var/www/shop/bootstrap/cache' does not exist, skipping")),
            Seen::Check(s("/var/www/shop/database")),
            Seen::Single(s("/var/www/shop/database"), 0o770),
            Seen::Note(s("Applied mode 770 to database")),
            Seen::Check(s("/var/www/shop/database/database.sqlite")),
            Seen::Single(s("/var/www/shop/database/database.sqlite"), 0o660),
            Seen::Note(s("Applied mode 660 to database/database.sqlite")),
            Seen::Check(s("/var/www/shop/public")),
            Seen::Single(s("/var/www/shop/public"), 0o755),
            Seen::Note(s("Applied mode 755 to public")),
            Seen::Finish,
        ]
    );
}

#[test]
fn harden_stops_on_bad_default_mode_after_ownership() {
    let cfg = config("75x", "640", vec![path("storage", "770", true, None)]);
    assert_eq!(
        run(&cfg, &[]),
        vec![
            Seen::Chown(s("applications:www-data"), s("/var/www/shop"), true),
            Seen::Note(s("Set ownership of /var/www/shop to applications:www-data")),
            Seen::Fail(s("Invalid mode: 75x")),
        ]
    );
    let cfg = config("750", "", vec![]);
    assert_eq!(run(&cfg, &[]).last(), Some(&Seen::Fail(s("Invalid mode: "))));
}

#[test]
fn harden_stops_on_unknown_type_or_bad_override_mode() {
    let cfg = config("750", "640", vec![path("x", "700", false, Some("link"))]);
    assert_eq!(run(&cfg, &[]).last(), Some(&Seen::Fail(s("Unknown path type: link"))));
    let cfg = config("750", "640", vec![path("x", "799", true, Some("link"))]);
    assert_eq!(run(&cfg, &[]).last(), Some(&Seen::Fail(s("Invalid mode: 799"))));
}

#[test]
fn recursive_override_ignores_type() {
    let cfg = config("750", "640", vec![path("x", "700", true, Some("link"))]);
    assert!(run(&cfg, &[]).contains(&Seen::Recursive(s("/var/www/shop/x"), 0o700)));
}

#[test]
fn missing_override_with_bad_mode_is_skipped() {
    let cfg = config("750", "640", vec![path("gone", "bad", false, Some("odd"))]);
    let seen = run(&cfg, &["/var/www/shop/gone"]);
    assert_eq!(seen.last(), Some(&Seen::Finish));
}

#[test]
fn absolute_override_path_replaces_worktree() {
    let cfg = config("750", "640", vec![path("/srv/data", "700", false, None)]);
    assert!(run(&cfg, &[]).contains(&Seen::Single(s("/srv/data"), 0o700)));
}

#[test]
fn checking_without_an_answer_asks_again() {
    let cfg = config("750", "640", vec![path("storage", "770", true, None)]);
    let (state, step) = harden_step(&cfg, HardenState::Checking { index: 0 }, HardenEvent::Completed);
    assert!(state == HardenState::Checking { index: 0 });
    assert!(step.note.is_none());
    match step.op {
        HardenOp::CheckExists { path } => assert_eq!(path, "/var/www/shop/storage"),
        _ => panic!(),
    }
}

#[test]
fn finished_run_stays_finished() {
    let cfg = config("750", "640", vec![]);
    let (state, step) = harden_step(&cfg, HardenState::Done, HardenEvent::Completed);
    assert!(state == HardenState::Done);
    assert!(matches!(step.op, HardenOp::Finish));
    let (state, step) = harden_step(&cfg, HardenState::Applied { index: 4 }, HardenEvent::Completed);
    assert!(state == HardenState::Done);
    assert!(matches!(step.op, HardenOp::Finish));
}

#[test]
fn harden_finishes_within_its_measure() {
    let paths = (0..6).map(|i| path(&format!("p{i}"), "700", i % 2 == 0, None)).collect();
    let cfg = config("750", "640", paths);
    let steps = run(&cfg, &["/var/www/shop/p3"]).iter().filter(|x| !matches!(x, Seen::Note(_))).count();
    assert!(steps <= 2 * 6 + 4 + 1);
}

#[test]
fn deploy_user_takes_existing_worktree() {
    let cfg = config("750", "640", vec![]);
    let steps = chown_to_deploy_user(&cfg, true);
    assert_eq!(steps.len(), 2);
    assert!(steps[0].note.is_none());
    match &steps[0].op {
        HardenOp::Chown { ownership, path, recursive } => {
            assert_eq!(ownership, "git:git");
            assert_eq!(path, "/var/www/shop");
            assert!(*recursive);
        }
        _ => panic!(),
    }
    assert_eq!(steps[1].note.as_deref(), Some("Changed ownership of /var/www/shop to git"));
    assert!(matches!(steps[1].op, HardenOp::Finish));
}

#[test]
fn deploy_user_creates_missing_worktree() {
    let cfg = config("750", "640", vec![]);
    let steps = chown_to_deploy_user(&cfg, false);
    assert_eq!(steps.len(), 3);
    match &steps[0].op {
        HardenOp::CreateDir { path } => assert_eq!(path, "/var/www/shop"),
        _ => panic!(),
    }
    assert_eq!(steps[1].note.as_deref(), Some("Created worktree directory: /var/www/shop"));
    assert!(matches!(steps[1].op, HardenOp::Chown { .. }));
    assert!(matches!(steps[2].op, HardenOp::Finish));
}

#[test]
fn ownership_goes_to_deploy_then_back_to_owner() {
    let cfg = config("750", "640", vec![]);
    let before = chown_to_deploy_user(&cfg, true);
    let (_, after) = harden_step(&cfg, HardenState::Start, HardenEvent::Completed);
    match (&before[0].op, &after.op) {
        (
            HardenOp::Chown { ownership: a, path: p, recursive: true },
            HardenOp::Chown { ownership: b, path: q, recursive: true },
        ) => {
            assert_eq!(a, "git:git");
            assert_eq!(b, "applications:www-data");
            assert_eq!(p, q);
        }
        _ => panic!(),
    }
}

/// The owner and mode changes of a run, and how it ended.
fn effects(seen: Vec<Seen>) -> Vec<Seen> {
    seen.into_iter().filter(|e| !matches!(e, Seen::Note(_) | Seen::Check(_))).collect()
}

#[test]
fn missing_override_acts_as_if_absent() {
    let with = config(
        "750",
        "640",
        vec![
            path("storage", "770", true, None),
            path("gone", "bad", false, Some("odd")),
            path("bootstrap/cache", "770", false, Some("dir")),
        ],
    );
    let without = config(
        "750",
        "640",
        vec![path("storage", "770", true, None), path("bootstrap/cache", "770", false, Some("dir"))],
    );
    let missing = ["/var/www/shop/gone"];
    let a = effects(run(&with, &missing));
    let b = effects(run(&without, &missing));
    assert_eq!(a, b);
    assert_eq!(a.last(), Some(&Seen::Finish));
    assert!(a.contains(&Seen::Single(s("/var/www/shop/bootstrap/cache"), 0o770)));
}
