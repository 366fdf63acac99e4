use gitbones::config::{Cli, Command};
use gitbones::git::{validate_remote_exists, GitError};
use gitbones::init::{project_name_from, scaffold_file, update_gitignore, HOOK_MODE};
use gitbones::num::{format_unsigned, parse_unsigned_str};
use gitbones::paths::{join, parts_of, paths_equal};
use gitbones::prompts::{collect, next_prompt, PROMPT_COUNT};
use gitbones::ssh::{
    bare_repo_check_command, bare_repo_step, command_outcome, connect_error, exec_error,
    hook_run_command, parse_port, post_receive_path, stream_failure, upload_post_receive_command,
    uploaded_note, SshError,
};
use gitbones::text::{str_concat, str_concat3, ends_with, is_whitespace, split_lines, starts_with, str_eq, trim_str};

fn s(x: &str) -> String {
    x.to_string()
}

#[test]
fn trimming_and_lines() {
    assert_eq!(trim_str("  a b \t\n"), "a b");
    assert_eq!(trim_str("\u{3000}x\u{a0}"), "x");
    assert_eq!(trim_str("   "), "");
    assert!(is_whitespace('\u{2028}'));
    assert!(!is_whitespace('x'));
    assert_eq!(split_lines("a\r\nb\n\nc"), vec!["a", "b", "", "c"]);
    assert_eq!(split_lines("a\n"), vec!["a"]);
    assert_eq!(split_lines("a\r"), vec!["a\r"]);
    assert!(split_lines("").is_empty());
    assert_eq!(split_lines("\n\n"), vec!["", ""]);
}

#[test]
fn prefixes_and_equality() {
    assert!(starts_with("sending x", "sending "));
    assert!(!starts_with("sen", "sending "));
    assert!(ends_with("hooks/", "/"));
    assert!(!ends_with("", "/"));
    assert!(str_eq("é", "é"));
    assert!(!str_eq("a", "ab"));
    assert_eq!(str_concat("ab", "cd"), "abcd");
    assert_eq!(str_concat3("a", "", "c"), "ac");
}

#[test]
fn numbers_in_bases() {
    assert_eq!(format_unsigned(0, 10), "0");
    assert_eq!(format_unsigned(65535, 10), "65535");
    assert_eq!(format_unsigned(511, 8), "777");
    assert_eq!(parse_unsigned_str("777", 8, u32::MAX as u64), Some(511));
    assert_eq!(parse_unsigned_str("65536", 10, 65535), None);
}

#[test]
fn joining_paths() {
    assert_eq!(join("/var/www/shop", "storage"), "/var/www/shop/storage");
    assert_eq!(join("/var/www/shop/", "storage"), "/var/www/shop/storage");
    assert_eq!(join("/var/www/shop", "/etc"), "/etc");
    assert_eq!(join("", "x"), "x");
    assert_eq!(join(".bones", "hooks/pre-push"), ".bones/hooks/pre-push");
}

#[test]
fn comparing_paths() {
    assert_eq!(parts_of("../a//./b/"), vec!["..", "a", "b"]);
    assert!(paths_equal("a/b", "a//b/"));
    assert!(paths_equal("a/./b", "a/b"));
    assert!(!paths_equal("./a", "a"));
    assert!(paths_equal("./a", "./a/."));
    assert!(!paths_equal("/a", "a"));
    assert!(!paths_equal("a/b", "a/c"));
    assert!(paths_equal("", ""));
}

#[test]
fn gitignore_created_when_missing() {
    assert_eq!(update_gitignore(None), Some(s(".bones\n")));
}

#[test]
fn gitignore_appends_entry_on_its_own_line() {
    assert_eq!(update_gitignore(Some("target")), Some(s("target\n.bones\n")));
    assert_eq!(update_gitignore(Some("target\n")), Some(s("target\n.bones\n")));
    assert_eq!(update_gitignore(Some("")), Some(s("\n.bones\n")));
    assert_eq!(update_gitignore(Some(".bones/\n")), Some(s(".bones/\n.bones\n")));
}

#[test]
fn gitignore_left_alone_when_entry_present() {
    assert_eq!(update_gitignore(Some("target\n.bones\n")), None);
    assert_eq!(update_gitignore(Some("  .bones \r\nx")), None);
    assert_eq!(update_gitignore(Some(".bones")), None);
}

#[test]
fn gitignore_update_is_idempotent() {
    for start in [None, Some(""), Some("a"), Some("a\n"), Some("a\r\n"), Some("x\n\n")] {
        if let Some(updated) = update_gitignore(start) {
            assert_eq!(update_gitignore(Some(&updated)), None);
        }
    }
}

#[test]
fn project_name_default() {
    assert_eq!(project_name_from(Some(s("shop"))), "shop");
    assert_eq!(project_name_from(None), "project");
}

#[test]
fn scaffold_targets() {
    let f = scaffold_file(".bones", "hooks/pre-push");
    assert_eq!(f.dest, ".bones/hooks/pre-push");
    assert!(f.executable);
    let f = scaffold_file(".bones", "deployment/01_run.sh");
    assert_eq!(f.dest, ".bones/deployment/01_run.sh");
    assert!(!f.executable);
    assert!(!scaffold_file(".bones", "hooks").executable);
    assert_eq!(HOOK_MODE, 0o755);
}

#[test]
fn prompts_in_order_with_derived_defaults() {
    let mut answers: Vec<String> = Vec::new();
    let mut labels = Vec::new();
    let given = [
        "staging", "shop", "h.example.com", "22", "/home/git/shop.git", "/var/www/shop", "main",
        "git", "applications", "www-data", "750", "640",
    ];
    while let Some(p) = next_prompt("dir-name", &answers) {
        labels.push(p.label.clone());
        match answers.len() {
            0 => {
                assert_eq!(p.default.as_deref(), Some("production"));
                assert_eq!(p.help.as_deref(), Some("e.g. production, staging"));
            }
            1 => assert_eq!(p.default.as_deref(), Some("dir-name")),
            2 => {
                assert_eq!(p.default, None);
                assert_eq!(p.help.as_deref(), Some("e.g. deploy.example.com"));
            }
            4 => assert_eq!(p.default.as_deref(), Some("/home/git/shop.git")),
            5 => assert_eq!(p.default.as_deref(), Some("/var/www/shop")),
            11 => assert_eq!(p.default.as_deref(), Some("640")),
            _ => {}
        }
        answers.push(s(given[answers.len()]));
    }
    assert_eq!(labels.len(), PROMPT_COUNT);
    assert_eq!(labels[0], "Remote name:");
    assert_eq!(labels[4], "Git directory (bare repo path on remote):");
    assert_eq!(labels[11], "Default file mode:");
    let cfg = collect(answers).unwrap();
    assert_eq!(cfg.data.remote_name, "staging");
    assert_eq!(cfg.data.project_name, "shop");
    assert_eq!(cfg.data.branch, "main");
    assert_eq!(cfg.permissions.defaults.owner, "applications");
    assert_eq!(cfg.permissions.defaults.file_mode, "640");
    assert!(cfg.permissions.paths.is_empty());
}

#[test]
fn collect_needs_every_answer() {
    assert!(collect(vec![s("a"); 11]).is_none());
    assert!(collect(vec![s("a"); 13]).is_none());
}

#[test]
fn remote_must_exist() {
    let remotes = vec![Some(s("origin")), None, Some(s("production"))];
    assert!(validate_remote_exists(&remotes, "production").is_ok());
    match validate_remote_exists(&remotes, "staging") {
        Err(e @ GitError::RemoteMissing { .. }) => assert_eq!(
            e.message(),
            "No git remote 'staging' found. Please set one up before running gitbones init:\n  git remote add staging git@<host>:<repo>.git"
        ),
        Ok(()) => panic!(),
    }
    assert!(validate_remote_exists(&vec![], "production").is_err());
}

#[test]
fn ports() {
    assert_eq!(parse_port("22").ok(), Some(22));
    assert_eq!(parse_port("+22").ok(), Some(22));
    assert_eq!(parse_port("65535").ok(), Some(65535));
    for bad in ["65536", "", "-1", "2 2", "port"] {
        match parse_port(bad) {
            Err(e @ SshError::InvalidPort { .. }) => {
                assert_eq!(e.message(), format!("Invalid port: {bad}"))
            }
            Ok(_) => panic!("{bad:?} accepted"),
        }
    }
    for p in [0u16, 22, 2222, 65535] {
        assert_eq!(parse_port(&p.to_string()).ok(), Some(p));
    }
}

#[test]
fn ssh_messages_and_commands() {
    assert_eq!(connect_error("git", "h", 22), "Failed to connect to git@h:22");
    assert_eq!(exec_error("ls"), "Failed to execute remote command: ls");
    assert_eq!(stream_failure("ls"), "Remote command failed: ls");
    assert_eq!(command_outcome("ls", true, s("out"), "err"), Ok(s("out")));
    assert_eq!(command_outcome("ls", false, s("out"), "err"), Err(s("Remote command failed: ls\nerr")));
    assert_eq!(bare_repo_check_command("/g.git"), "test -d /g.git");
    let existing = bare_repo_step("/g.git", true);
    assert_eq!(existing.note, "Bare repo already exists at /g.git");
    assert!(existing.command.is_none());
    let fresh = bare_repo_step("/g.git", false);
    assert_eq!(fresh.note, "Creating bare repo at /g.git...");
    assert_eq!(fresh.command.as_deref(), Some("git init --bare /g.git"));
    let path = post_receive_path("/g.git");
    assert_eq!(path, "/g.git/hooks/post-receive");
    assert_eq!(
        upload_post_receive_command(&path, "#!/bin/sh\necho hi"),
        "cat > '/g.git/hooks/post-receive' << 'GITBONES_EOF'\n#!/bin/sh\necho hi\nGITBONES_EOF\nchmod +x '/g.git/hooks/post-receive'"
    );
    assert_eq!(uploaded_note(&path), "Uploaded post-receive hook to /g.git/hooks/post-receive");
    assert_eq!(
        hook_run_command("/g.git", "pre-receive"),
        "GIT_DIR=/g.git /g.git/hooks/pre-receive </dev/null"
    );
}

#[test]
fn command_line_model() {
    let cli = Cli { command: Command::Doctor { local: true } };
    assert!(matches!(cli.command, Command::Doctor { local: true }));
}

#[test]
fn accepting_every_default() {
    let mut answers: Vec<String> = Vec::new();
    while let Some(p) = next_prompt("shop", &answers) {
        let answer = p.default.unwrap_or_else(|| s("deploy.example.com"));
        answers.push(answer);
    }
    let cfg = collect(answers).unwrap();
    assert_eq!(cfg.data.remote_name, "production");
    assert_eq!(cfg.data.project_name, "shop");
    assert_eq!(cfg.data.port, "22");
    assert_eq!(cfg.data.git_dir, "/home/git/shop.git");
    assert_eq!(cfg.data.worktree, "/var/www/shop");
    assert_eq!(cfg.data.branch, "master");
    assert_eq!(cfg.permissions.defaults.deploy, "git");
    assert_eq!(cfg.permissions.defaults.owner, "applications");
    assert_eq!(cfg.permissions.defaults.group, "www-data");
    assert_eq!(cfg.permissions.defaults.dir_mode, "750");
    assert_eq!(cfg.permissions.defaults.file_mode, "640");
}

use gitbones::init::{Init, InitAction, InitEvent};

const GIT_DIR: &str = "/home/git/shop.git";
const HOOK: &str = "#!/bin/sh\nexec checkout";

/// Runs init with `confirm`, and with `.bones/`, `bones.toml` and the
/// bare repository present or not; returns the actions and printed lines.
fn init_run(confirm: bool, bones_exists: bool, config_exists: bool, bare_exists: bool) -> Vec<String> {
    let mut out = Vec::new();
    let mut init = Init::new();
    let mut event = InitEvent::Completed;
    for _ in 0..40 {
        let (next, step) = init.step(event);
        init = next;
        if let Some(n) = step.note {
            out.push(format!("note {n}"));
        }
        event = InitEvent::Completed;
        out.push(describe_init(&step.action));
        match step.action {
            InitAction::Confirm => event = InitEvent::Observed { yes: confirm },
            InitAction::CheckBonesDir => event = InitEvent::Observed { yes: bones_exists },
            InitAction::CheckConfig => event = InitEvent::Observed { yes: config_exists },
            InitAction::LoadConfig | InitAction::AskQuestions => {
                event = InitEvent::ConfigReady { git_dir: s(GIT_DIR) }
            }
            InitAction::CheckBareRepo { .. } => event = InitEvent::Observed { yes: bare_exists },
            InitAction::ReadPostReceiveHook => event = InitEvent::HookRead { content: s(HOOK) },
            InitAction::Finish { .. } => return out,
            _ => {}
        }
    }
    panic!("init did not finish");
}

fn describe_init(a: &InitAction) -> String {
    match a {
        InitAction::Confirm => s("confirm"),
        InitAction::OpenRepo => s("open"),
        InitAction::CheckBonesDir => s("check bones"),
        InitAction::Scaffold => s("scaffold"),
        InitAction::UpdateGitignore => s("gitignore"),
        InitAction::CheckConfig => s("check config"),
        InitAction::LoadConfig => s("load"),
        InitAction::AskQuestions => s("ask"),
        InitAction::ValidateRemote => s("validate"),
        InitAction::SaveConfig => s("save"),
        InitAction::LinkPrePush => s("link"),
        InitAction::Connect => s("connect"),
        InitAction::CheckBareRepo { command } => format!("run {command}"),
        InitAction::CreateBareRepo { command } => format!("create {command}"),
        InitAction::ReadPostReceiveHook => s("read hook"),
        InitAction::UploadPostReceiveHook { command } => format!("upload {command}"),
        InitAction::Finish { completed: true } => s("done"),
        InitAction::Finish { completed: false } => s("aborted"),
    }
}

fn upload_line() -> String {
    format!(
        "upload cat > '{GIT_DIR}/hooks/post-receive' << 'GITBONES_EOF'\n{HOOK}\nGITBONES_EOF\nchmod +x '{GIT_DIR}/hooks/post-receive'"
    )
}

#[test]
fn init_declined() {
    assert_eq!(init_run(false, false, false, false), vec!["confirm", "note Aborted.", "aborted"]);
}

#[test]
fn init_fresh_project() {
    assert_eq!(
        init_run(true, false, false, false),
        vec![
            s("confirm"),
            s("open"),
            s("check bones"),
            s("note Creating .bones/ scaffold..."),
            s("scaffold"),
            s("gitignore"),
            s("check config"),
            s("ask"),
            s("validate"),
            s("save"),
            s("note Saved config to .bones/bones.toml"),
            s("link"),
            s("note Symlinked .git/hooks/pre-push -> .bones/hooks/pre-push"),
            s("connect"),
            s("run test -d /home/git/shop.git"),
            s("note Creating bare repo at /home/git/shop.git..."),
            s("create git init --bare /home/git/shop.git"),
            s("read hook"),
            upload_line(),
            s("note Uploaded post-receive hook to /home/git/shop.git/hooks/post-receive"),
            s("done"),
        ]
    );
}

#[test]
fn init_rerun_keeps_existing_files() {
    let first = init_run(true, false, false, false);
    let out = init_run(true, true, true, true);
    assert!(!out.contains(&s("scaffold")));
    assert!(!out.contains(&s("ask")));
    assert!(!out.iter().any(|l| l.starts_with("create ")));
    assert!(out.contains(&s("note .bones/ already exists, skipping scaffold extraction.")));
    assert!(out.contains(&s("note Loading existing config from .bones/bones.toml...")));
    assert!(out.contains(&s("note Bare repo already exists at /home/git/shop.git")));
    assert!(out.contains(&upload_line()));
    assert!(first.contains(&upload_line()));
    assert_eq!(out.last().unwrap(), "done");
}

#[test]
fn init_unanswered_event_repeats_action() {
    let (init, step) = Init::new().step(InitEvent::Completed);
    assert!(matches!(step.action, InitAction::Confirm));
    let (init, step) = init.step(InitEvent::Completed);
    assert!(matches!(step.action, InitAction::Confirm));
    assert!(step.note.is_none());
    let (_, step) = init.step(InitEvent::Observed { yes: false });
    assert!(matches!(step.action, InitAction::Finish { completed: false }));
}

#[test]
fn init_finishes_only_after_upload() {
    let out = init_run(true, true, true, false);
    let upload = out.iter().position(|l| l.starts_with("upload ")).unwrap();
    let done = out.iter().position(|l| l == "done").unwrap();
    assert!(upload < done);
    assert!(out.contains(&s("create git init --bare /home/git/shop.git")));
}
