use gitbones::config::{BonesConfig, Data, PermissionDefaults, Permissions};
use gitbones::doctor::{
    bones_dir_check_command, bones_dir_issue, check_bones_structure, check_deployment_naming,
    check_hook_links, check_pre_push_symlink, check_rsync_listing, config_load_issue,
    connect_issue, doctor_verdict, hook_check_failed_issue, hook_links_check_command,
    remote_tool_check_command, remote_tool_issue, rsync_changed_files, rsync_check_args,
    rsync_failed_issue, rsync_spawn_issue, BonesLayout, PrePushLink,
};

fn s(x: &str) -> String {
    x.to_string()
}

fn layout(bones_dir: bool, bones_toml: bool, hooks: bool, deployment: bool) -> BonesLayout {
    BonesLayout { bones_dir, bones_toml, hooks, deployment }
}

#[test]
fn structure_complete_has_no_issue() {
    let mut issues = vec![s("earlier")];
    check_bones_structure(&mut issues, &layout(true, true, true, true));
    assert_eq!(issues, vec!["earlier"]);
}

#[test]
fn missing_bones_dir_is_one_issue() {
    let mut issues = Vec::new();
    check_bones_structure(&mut issues, &layout(false, false, false, false));
    assert_eq!(issues, vec![".bones/ directory does not exist"]);
}

#[test]
fn missing_entries_are_listed_in_order() {
    let mut issues = Vec::new();
    check_bones_structure(&mut issues, &layout(true, false, true, false));
    assert_eq!(issues, vec![".bones/bones.toml is missing", ".bones/deployment is missing"]);
    let mut issues = Vec::new();
    check_bones_structure(&mut issues, &layout(true, true, false, true));
    assert_eq!(issues, vec![".bones/hooks is missing"]);
}

#[test]
fn deployment_names_need_a_numeric_prefix() {
    let mut issues = Vec::new();
    let names = vec![s("01_install.sh"), s("build.sh"), s("2x"), s(""), s("_03.sh"), s("٣.sh")];
    check_deployment_naming(&mut issues, &names);
    assert_eq!(
        issues,
        vec![
            "Deployment script 'build.sh' does not start with a numeric prefix (e.g. 01_)",
            "Deployment script '' does not start with a numeric prefix (e.g. 01_)",
            "Deployment script '_03.sh' does not start with a numeric prefix (e.g. 01_)",
            "Deployment script '٣.sh' does not start with a numeric prefix (e.g. 01_)",
        ]
    );
}

#[test]
fn pre_push_link_checks() {
    let mut issues = Vec::new();
    check_pre_push_symlink(&mut issues, &PrePushLink::NotSymlink);
    check_pre_push_symlink(&mut issues, &PrePushLink::Unreadable);
    check_pre_push_symlink(&mut issues, &PrePushLink::Target { target: s("../../.bones/hooks/pre-push") });
    check_pre_push_symlink(&mut issues, &PrePushLink::Target { target: s("../..//.bones/./hooks/pre-push/") });
    check_pre_push_symlink(&mut issues, &PrePushLink::Target { target: s("/tmp/pre-push") });
    check_pre_push_symlink(&mut issues, &PrePushLink::Target { target: s("./../../.bones/hooks/pre-push") });
    assert_eq!(
        issues,
        vec![
            ".git/hooks/pre-push is not symlinked",
            ".git/hooks/pre-push: cannot read symlink target",
            ".git/hooks/pre-push points to '/tmp/pre-push', expected '../../.bones/hooks/pre-push'",
            ".git/hooks/pre-push points to './../../.bones/hooks/pre-push', expected '../../.bones/hooks/pre-push'",
        ]
    );
}

#[test]
fn remote_commands() {
    assert_eq!(remote_tool_check_command(), "command -v gitbones-remote");
    assert_eq!(bones_dir_check_command("/home/git/shop.git"), "test -d /home/git/shop.git/bones");
    assert_eq!(
        hook_links_check_command("/g"),
        "for hook in /g/bones/hooks/*; do name=$(basename \"$hook\"); link=\"/g/hooks/$name\"; \
         if [ ! -L \"$link\" ] || [ \"$(readlink \"$link\")\" != \"$hook\" ]; then echo \"$name\"; fi; done"
    );
}

#[test]
fn remote_issue_messages() {
    assert_eq!(remote_tool_issue(), "gitbones-remote is not available on the remote");
    assert_eq!(bones_dir_issue("/g"), "/g/bones/ does not exist on remote (run 'gitbones push')");
    assert_eq!(config_load_issue("bad toml"), "Cannot load config: bad toml");
    assert_eq!(connect_issue("refused"), "Cannot connect to remote: refused");
    assert_eq!(hook_check_failed_issue("oops"), "Failed to check remote hook symlinks: oops");
    assert_eq!(rsync_spawn_issue("not found"), "Failed to run rsync sync check: not found");
    assert_eq!(rsync_failed_issue("denied"), "rsync sync check failed: denied");
}

#[test]
fn hook_link_output_becomes_issues() {
    let mut issues = Vec::new();
    check_hook_links(&mut issues, "/g", "pre-receive\n  \n deploy \r\n");
    assert_eq!(
        issues,
        vec![
            "/g/hooks/pre-receive is not properly symlinked to bones/hooks/pre-receive",
            "/g/hooks/deploy is not properly symlinked to bones/hooks/deploy",
        ]
    );
    let mut none = Vec::new();
    check_hook_links(&mut none, "/g", "");
    assert!(none.is_empty());
}

fn cfg() -> BonesConfig {
    BonesConfig {
        data: Data {
            remote_name: s("production"),
            project_name: s("shop"),
            host: s("deploy.example.com"),
            port: s("2222"),
            git_dir: s("/home/git/shop.git"),
            worktree: s("/var/www/shop"),
            branch: s("master"),
        },
        permissions: Permissions {
            defaults: PermissionDefaults {
                deploy: s("git"),
                owner: s("applications"),
                group: s("www-data"),
                dir_mode: s("750"),
                file_mode: s("640"),
            },
            paths: vec![],
        },
    }
}

#[test]
fn rsync_arguments() {
    assert_eq!(
        rsync_check_args(&cfg()),
        vec![
            "-avnc",
            "--delete",
            "-e",
            "ssh -p 2222",
            ".bones/",
            "git@deploy.example.com:/home/git/shop.git/bones/",
        ]
    );
}

const LISTING: &str = "sending incremental file list\n./\nhooks/\nhooks/deploy\n  bones.toml  \ndeleting stale.sh\n\nsent 123 bytes  received 45 bytes\ntotal size is 999  speedup is 1.00 (DRY RUN)\n";

#[test]
fn rsync_listing_keeps_changed_files() {
    assert_eq!(
        rsync_changed_files(LISTING),
        vec!["hooks/deploy", "  bones.toml  ", "deleting stale.sh"]
    );
    assert!(rsync_changed_files("sending incremental file list\n\nsent 1 bytes\ntotal size 0\n").is_empty());
}

#[test]
fn rsync_listing_issue() {
    let mut issues = Vec::new();
    check_rsync_listing(&mut issues, LISTING);
    assert_eq!(
        issues,
        vec![
            "Local .bones/ is out of sync with remote (run 'gitbones push'). Changed files:\n      hooks/deploy\n        bones.toml  \n      deleting stale.sh"
        ]
    );
    let mut clean = Vec::new();
    check_rsync_listing(&mut clean, "sending incremental file list\n./\n");
    assert!(clean.is_empty());
}

#[test]
fn verdict_passes_only_without_issues() {
    assert!(doctor_verdict(&vec![]).is_ok());
    assert_eq!(doctor_verdict(&vec![s("a")]).err().unwrap(), "Doctor found 1 issue");
    assert_eq!(doctor_verdict(&vec![s("a"), s("b"), s("c")]).err().unwrap(), "Doctor found 3 issues");
    let many: Vec<String> = (0..12).map(|i| i.to_string()).collect();
    assert_eq!(doctor_verdict(&many).err().unwrap(), "Doctor found 12 issues");
}

#[test]
fn checks_only_append() {
    let mut issues = vec![s("first")];
    check_bones_structure(&mut issues, &layout(false, true, true, true));
    check_deployment_naming(&mut issues, &vec![s("x.sh")]);
    check_pre_push_symlink(&mut issues, &PrePushLink::NotSymlink);
    assert_eq!(issues.len(), 4);
    assert_eq!(issues[0], "first");
}

#[test]
fn link_made_by_init_passes() {
    let mut issues = Vec::new();
    let target = gitbones::doctor::pre_push_link_target();
    assert_eq!(target, "../../.bones/hooks/pre-push");
    check_pre_push_symlink(&mut issues, &PrePushLink::Target { target });
    assert!(issues.is_empty());
}

use gitbones::doctor::{Doctor, DoctorAction, DoctorEvent};

fn local_event(bones_dir: bool) -> DoctorEvent {
    DoctorEvent::LocalInspected {
        layout: layout(bones_dir, true, true, true),
        deployment_names: vec![s("01_a.sh")],
        pre_push: PrePushLink::Target { target: s("../../.bones/hooks/pre-push") },
    }
}

fn describe(a: &DoctorAction) -> String {
    match a {
        DoctorAction::InspectLocal => s("inspect"),
        DoctorAction::LoadConfig => s("load"),
        DoctorAction::Connect => s("connect"),
        DoctorAction::RunRemote { command } => format!("remote {command}"),
        DoctorAction::RunRsync { args } => format!("rsync {}", args.join(" ")),
        DoctorAction::CloseSession => s("close"),
        DoctorAction::Finish { outcome } => format!("finish {outcome:?}"),
    }
}

/// Feeds `events` one by one and records the actions asked for.
fn drive(local_only: bool, events: Vec<DoctorEvent>) -> (Vec<String>, Vec<String>) {
    let mut d = Doctor::new(local_only);
    let mut actions = Vec::new();
    let mut event = DoctorEvent::Started;
    let mut rest = events.into_iter();
    loop {
        let (next, action) = d.step(event);
        d = next;
        actions.push(describe(&action));
        if matches!(action, DoctorAction::Finish { .. }) {
            return (actions, d.issues().clone());
        }
        event = rest.next().expect("ran out of events");
    }
}

#[test]
fn local_only_run_never_leaves_the_machine() {
    let (actions, issues) = drive(true, vec![local_event(true)]);
    assert_eq!(actions, vec!["inspect", "finish Ok(())"]);
    assert!(issues.is_empty());
    let (actions, issues) = drive(true, vec![local_event(false)]);
    assert_eq!(actions, vec!["inspect", "finish Err(\"Doctor found 1 issue\")"]);
    assert_eq!(issues, vec![".bones/ directory does not exist"]);
}

#[test]
fn full_run_checks_the_remote_in_order() {
    let (actions, issues) = drive(
        false,
        vec![
            local_event(true),
            DoctorEvent::ConfigLoaded { config: cfg() },
            DoctorEvent::Connected,
            DoctorEvent::CommandSucceeded { output: s("/usr/bin/gitbones-remote") },
            DoctorEvent::CommandFailed { cause: s("exit 1") },
            DoctorEvent::RsyncExited { success: true, stdout: s("sending incremental file list\n"), stderr: s("") },
            DoctorEvent::CommandSucceeded { output: s("deploy\n") },
            DoctorEvent::Closed,
        ],
    );
    assert_eq!(
        actions,
        vec![
            s("inspect"),
            s("load"),
            s("connect"),
            s("remote command -v gitbones-remote"),
            s("remote test -d /home/git/shop.git/bones"),
            s("rsync -avnc --delete -e ssh -p 2222 .bones/ git@deploy.example.com:/home/git/shop.git/bones/"),
            format!("remote {}", hook_links_check_command("/home/git/shop.git")),
            s("close"),
            s("finish Err(\"Doctor found 2 issues\")"),
        ]
    );
    assert_eq!(
        issues,
        vec![
            "/home/git/shop.git/bones/ does not exist on remote (run 'gitbones push')",
            "/home/git/shop.git/hooks/deploy is not properly symlinked to bones/hooks/deploy",
        ]
    );
}

#[test]
fn config_or_connection_failure_ends_the_run() {
    let (actions, issues) = drive(false, vec![local_event(true), DoctorEvent::ConfigFailed { cause: s("missing") }]);
    assert_eq!(actions.last().unwrap(), "finish Err(\"Doctor found 1 issue\")");
    assert_eq!(issues, vec!["Cannot load config: missing"]);
    let (actions, issues) = drive(
        false,
        vec![
            local_event(true),
            DoctorEvent::ConfigLoaded { config: cfg() },
            DoctorEvent::ConnectFailed { cause: s("timeout") },
        ],
    );
    assert_eq!(actions, vec!["inspect", "load", "connect", "finish Err(\"Doctor found 1 issue\")"]);
    assert_eq!(issues, vec!["Cannot connect to remote: timeout"]);
}

#[test]
fn rsync_failures_become_issues() {
    let (_, issues) = drive(
        false,
        vec![
            local_event(true),
            DoctorEvent::ConfigLoaded { config: cfg() },
            DoctorEvent::Connected,
            DoctorEvent::CommandFailed { cause: s("not found") },
            DoctorEvent::CommandSucceeded { output: s("") },
            DoctorEvent::RsyncFailedToStart { cause: s("no rsync") },
            DoctorEvent::CommandFailed { cause: s("broken") },
            DoctorEvent::Closed,
        ],
    );
    assert_eq!(
        issues,
        vec![
            "gitbones-remote is not available on the remote",
            "Failed to run rsync sync check: no rsync",
            "Failed to check remote hook symlinks: broken",
        ]
    );
}

#[test]
fn unanswered_action_is_asked_again() {
    let d = Doctor::new(false);
    let (d, a) = d.step(DoctorEvent::Started);
    assert!(matches!(a, DoctorAction::InspectLocal));
    let (d, a) = d.step(DoctorEvent::Connected);
    assert!(matches!(a, DoctorAction::InspectLocal));
    let (d, a) = d.step(local_event(true));
    assert!(matches!(a, DoctorAction::LoadConfig));
    let (_, a) = d.step(DoctorEvent::Closed);
    assert!(matches!(a, DoctorAction::LoadConfig));
}
