//! The health checks of `gitbones doctor`.
//!
//! Each check appends what it finds wrong to a list of issues, and never
//! removes one; the doctor passes exactly when the list stays empty. The
//! caller looks at the disk and runs the commands; these functions decide
//! what counts as an issue and how it reads.
use vstd::prelude::*;
use vstd::string::*;
use crate::config::BonesConfig;
use crate::num::{digits_of, format_unsigned};
use crate::paths::{paths_equal, same_path};
use crate::text::{
    str_concat, str_concat3, ends_with, has_prefix, has_suffix, lines, split_lines, starts_with, trim,
    trim_str, views,
};

verus! {

/// Which parts of the local `.bones/` folder exist.
pub struct BonesLayout {
    pub bones_dir: bool,
    pub bones_toml: bool,
    pub hooks: bool,
    pub deployment: bool,
}

/// The issues that the layout of `.bones/` raises: a missing folder is
/// one issue on its own; otherwise each missing expected entry is one.
pub open spec fn structure_issues(l: BonesLayout) -> Seq<Seq<char>> {
    if !l.bones_dir {
        seq![".bones/ directory does not exist"@]
    } else {
        (if l.bones_toml {
            seq![]
        } else {
            seq![".bones/bones.toml is missing"@]
        }) + (if l.hooks {
            seq![]
        } else {
            seq![".bones/hooks is missing"@]
        }) + (if l.deployment {
            seq![]
        } else {
            seq![".bones/deployment is missing"@]
        })
    }
}

fn push_issue(issues: &mut Vec<String>, issue: String)
    ensures
        views(final(issues)@) == views(old(issues)@) + seq![issue@],
{
    let ghost before = issues@;
    issues.push(issue);
    proof {
        assert(views(issues@) =~= views(before) + seq![issue@]);
    }
}

/// Checks that `.bones/` holds `bones.toml`, `hooks` and `deployment`.
pub fn check_bones_structure(issues: &mut Vec<String>, layout: &BonesLayout)
    ensures
        views(final(issues)@) == views(old(issues)@) + structure_issues(*layout),
{
    let ghost start = views(issues@);
    if !layout.bones_dir {
        push_issue(issues, ".bones/ directory does not exist".to_string());
        return;
    }
    if !layout.bones_toml {
        push_issue(issues, ".bones/bones.toml is missing".to_string());
    }
    if !layout.hooks {
        push_issue(issues, ".bones/hooks is missing".to_string());
    }
    if !layout.deployment {
        push_issue(issues, ".bones/deployment is missing".to_string());
    }
    proof {
        assert(views(issues@) =~= start + structure_issues(*layout));
    }
}

/// A character from `'0'` to `'9'`.
pub open spec fn is_ascii_digit(c: char) -> bool {
    '0' <= c <= '9'
}

/// A deployment script name that starts with a digit, as `01_build.sh`.
pub open spec fn has_numeric_prefix(name: Seq<char>) -> bool {
    name.len() > 0 && is_ascii_digit(name[0])
}

pub open spec fn naming_issue(name: Seq<char>) -> Seq<char> {
    "Deployment script '"@ + name + "' does not start with a numeric prefix (e.g. 01_)"@
}

/// One issue for each name, in order, that lacks a numeric prefix.
pub open spec fn naming_issues(names: Seq<Seq<char>>) -> Seq<Seq<char>>
    decreases names.len(),
{
    if names.len() == 0 {
        seq![]
    } else {
        naming_issues(names.drop_last()) + if has_numeric_prefix(names.last()) {
            seq![]
        } else {
            seq![naming_issue(names.last())]
        }
    }
}

/// Checks that every script in `.bones/deployment`, whose names are
/// `names`, starts with a numeric prefix.
pub fn check_deployment_naming(issues: &mut Vec<String>, names: &Vec<String>)
    ensures
        views(final(issues)@) == views(old(issues)@) + naming_issues(views(names@)),
{
    let ghost start = views(issues@);
    let mut i: usize = 0;
    while i < names.len()
        invariant
            i <= names.len(),
            views(issues@) == start + naming_issues(views(names@).take(i as int)),
        decreases names.len() - i,
    {
        let name = names[i].as_str();
        let ghost taken = views(names@).take(i + 1);
        proof {
            assert(taken.drop_last() =~= views(names@).take(i as int));
            assert(taken.last() == name@);
        }
        let numeric = name.unicode_len() > 0 && {
            let c = name.get_char(0);
            '0' <= c && c <= '9'
        };
        if !numeric {
            let mut issue = str_concat("Deployment script '", name);
            issue.append("' does not start with a numeric prefix (e.g. 01_)");
            push_issue(issues, issue);
            proof {
                assert(views(issues@) =~= start + naming_issues(taken));
            }
        } else {
            proof {
                assert(views(issues@) =~= start + naming_issues(taken));
            }
        }
        i = i + 1;
    }
    proof {
        assert(views(names@).take(names.len() as int) =~= views(names@));
    }
}

/// What is at `.git/hooks/pre-push`.
pub enum PrePushLink {
    /// Nothing there, or something that is not a symlink.
    NotSymlink,
    /// A symlink whose target could not be read.
    Unreadable,
    /// A symlink to `target`.
    Target { target: String },
}

/// The target that `.git/hooks/pre-push` must point to.
pub open spec fn pre_push_target() -> Seq<char> {
    "../../.bones/hooks/pre-push"@
}

/// The target that `init` gives the `.git/hooks/pre-push` link.
pub fn pre_push_link_target() -> (t: String)
    ensures
        t@ == pre_push_target(),
{
    "../../.bones/hooks/pre-push".to_string()
}

/// The issues that the pre-push hook link raises: none when it points
/// to `.bones/hooks/pre-push`, compared component by component.
pub open spec fn pre_push_issues(link: PrePushLink) -> Seq<Seq<char>> {
    match link {
        PrePushLink::NotSymlink => seq![".git/hooks/pre-push is not symlinked"@],
        PrePushLink::Unreadable => seq![".git/hooks/pre-push: cannot read symlink target"@],
        PrePushLink::Target { target } => if same_path(target@, pre_push_target()) {
            seq![]
        } else {
            seq![
                ".git/hooks/pre-push points to '"@ + target@ + "', expected '"@
                    + pre_push_target() + "'"@,
            ]
        },
    }
}

/// Checks that the local pre-push hook links to the one in `.bones/`.
pub fn check_pre_push_symlink(issues: &mut Vec<String>, link: &PrePushLink)
    ensures
        views(final(issues)@) == views(old(issues)@) + pre_push_issues(*link),
{
    let ghost start = views(issues@);
    match link {
        PrePushLink::NotSymlink => {
            push_issue(issues, ".git/hooks/pre-push is not symlinked".to_string());
        },
        PrePushLink::Unreadable => {
            push_issue(issues, ".git/hooks/pre-push: cannot read symlink target".to_string());
        },
        PrePushLink::Target { target } => {
            let expected = "../../.bones/hooks/pre-push";
            if !paths_equal(target.as_str(), expected) {
                let mut issue = str_concat3(".git/hooks/pre-push points to '", target.as_str(), "', expected '");
                issue.append(expected);
                issue.append("'");
                push_issue(issues, issue);
            } else {
                proof {
                    assert(views(issues@) =~= start + pre_push_issues(*link));
                }
            }
        },
    }
}

/// The issue when the configuration could not be loaded.
pub fn config_load_issue(cause: &str) -> (m: String)
    ensures
        m@ == "Cannot load config: "@ + cause@,
{
    str_concat("Cannot load config: ", cause)
}

/// The issue when no SSH session could be opened.
pub fn connect_issue(cause: &str) -> (m: String)
    ensures
        m@ == "Cannot connect to remote: "@ + cause@,
{
    str_concat("Cannot connect to remote: ", cause)
}

/// The remote command that finds `gitbones-remote` on the path.
pub fn remote_tool_check_command() -> (c: String)
    ensures
        c@ == "command -v gitbones-remote"@,
{
    "command -v gitbones-remote".to_string()
}

/// The issue when `gitbones-remote` is not on the remote's path.
pub fn remote_tool_issue() -> (m: String)
    ensures
        m@ == "gitbones-remote is not available on the remote"@,
{
    "gitbones-remote is not available on the remote".to_string()
}

/// The remote command that succeeds when `{git_dir}/bones` is a directory.
pub fn bones_dir_check_command(git_dir: &str) -> (c: String)
    ensures
        c@ == "test -d "@ + git_dir@ + "/bones"@,
{
    str_concat3("test -d ", git_dir, "/bones")
}

/// The issue when `{git_dir}/bones` is missing on the remote.
pub fn bones_dir_issue(git_dir: &str) -> (m: String)
    ensures
        m@ == git_dir@ + "/bones/ does not exist on remote (run 'gitbones push')"@,
{
    str_concat(git_dir, "/bones/ does not exist on remote (run 'gitbones push')")
}

/// The remote script that prints the name of every hook in
/// `{git_dir}/bones/hooks` that `{git_dir}/hooks` does not link to.
pub open spec fn hook_links_command(git_dir: Seq<char>) -> Seq<char> {
    "for hook in "@ + git_dir + "/bones/hooks/*; do name=$(basename \"$hook\"); link=\""@ + git_dir
        + "/hooks/$name\"; if [ ! -L \"$link\" ] || [ \"$(readlink \"$link\")\" != \"$hook\" ]; then echo \"$name\"; fi; done"@
}

pub fn hook_links_check_command(git_dir: &str) -> (c: String)
    ensures
        c@ == hook_links_command(git_dir@),
{
    let mut c = str_concat3(
        "for hook in ",
        git_dir,
        "/bones/hooks/*; do name=$(basename \"$hook\"); link=\"",
    );
    c.append(git_dir);
    c.append(
        "/hooks/$name\"; if [ ! -L \"$link\" ] || [ \"$(readlink \"$link\")\" != \"$hook\" ]; then echo \"$name\"; fi; done",
    );
    c
}

pub open spec fn hook_link_issue(git_dir: Seq<char>, hook: Seq<char>) -> Seq<char> {
    git_dir + "/hooks/"@ + hook + " is not properly symlinked to bones/hooks/"@ + hook
}

/// One issue for each line of `out`, in order, that is not blank once
/// trimmed; the trimmed line names the hook.
pub open spec fn hook_issues_of(git_dir: Seq<char>, out: Seq<Seq<char>>) -> Seq<Seq<char>>
    decreases out.len(),
{
    if out.len() == 0 {
        seq![]
    } else {
        hook_issues_of(git_dir, out.drop_last()) + if trim(out.last()).len() == 0 {
            seq![]
        } else {
            seq![hook_link_issue(git_dir, trim(out.last()))]
        }
    }
}

/// Turns the output of the hook script into issues.
pub fn check_hook_links(issues: &mut Vec<String>, git_dir: &str, output: &str)
    ensures
        views(final(issues)@) == views(old(issues)@) + hook_issues_of(git_dir@, lines(output@)),
{
    let ghost start = views(issues@);
    let ls = split_lines(output);
    let mut i: usize = 0;
    while i < ls.len()
        invariant
            i <= ls.len(),
            views(ls@) == lines(output@),
            views(issues@) == start + hook_issues_of(git_dir@, views(ls@).take(i as int)),
        decreases ls.len() - i,
    {
        let ghost taken = views(ls@).take(i + 1);
        proof {
            assert(taken.drop_last() =~= views(ls@).take(i as int));
            assert(taken.last() == ls@[i as int]@);
        }
        let hook = trim_str(ls[i].as_str());
        if hook.unicode_len() > 0 {
            let mut issue = str_concat3(git_dir, "/hooks/", hook.as_str());
            issue.append(" is not properly symlinked to bones/hooks/");
            issue.append(hook.as_str());
            push_issue(issues, issue);
        }
        proof {
            assert(views(issues@) =~= start + hook_issues_of(git_dir@, taken));
        }
        i = i + 1;
    }
    proof {
        assert(views(ls@).take(ls.len() as int) =~= views(ls@));
    }
}

/// The issue when the hook script could not be run.
pub fn hook_check_failed_issue(cause: &str) -> (m: String)
    ensures
        m@ == "Failed to check remote hook symlinks: "@ + cause@,
{
    str_concat("Failed to check remote hook symlinks: ", cause)
}

/// The arguments of the `rsync` dry run that compares `.bones/` with
/// `{git_dir}/bones/` on the remote, over SSH on the configured port.
pub open spec fn rsync_args(cfg: &BonesConfig) -> Seq<Seq<char>> {
    seq![
        "-avnc"@,
        "--delete"@,
        "-e"@,
        "ssh -p "@ + cfg.data.port@,
        ".bones/"@,
        cfg.permissions.defaults.deploy@ + "@"@ + cfg.data.host@ + ":"@ + cfg.data.git_dir@
            + "/bones/"@,
    ]
}

pub fn rsync_check_args(cfg: &BonesConfig) -> (args: Vec<String>)
    ensures
        views(args@) == rsync_args(cfg),
{
    let mut dest = str_concat3(cfg.permissions.defaults.deploy.as_str(), "@", cfg.data.host.as_str());
    dest.append(":");
    dest.append(cfg.data.git_dir.as_str());
    dest.append("/bones/");
    let mut args: Vec<String> = Vec::new();
    args.push("-avnc".to_string());
    args.push("--delete".to_string());
    args.push("-e".to_string());
    args.push(str_concat("ssh -p ", cfg.data.port.as_str()));
    args.push(".bones/".to_string());
    args.push(dest);
    proof {
        assert(views(args@) =~= rsync_args(cfg));
    }
    args
}

/// A line of the `rsync` listing that names a changed file: not blank,
/// not one of its `sending`, `sent` or `total` summary lines, and not a
/// directory. The tests look at the trimmed line.
pub open spec fn is_changed_file(line: Seq<char>) -> bool {
    let t = trim(line);
    &&& t.len() > 0
    &&& !has_prefix(t, "sending "@)
    &&& !has_prefix(t, "sent "@)
    &&& !has_prefix(t, "total "@)
    &&& !has_suffix(t, "/"@)
}

/// The lines of the listing that name changed files, in order and as
/// they stand.
pub open spec fn changed_files(out: Seq<Seq<char>>) -> Seq<Seq<char>>
    decreases out.len(),
{
    if out.len() == 0 {
        seq![]
    } else {
        changed_files(out.drop_last()) + if is_changed_file(out.last()) {
            seq![out.last()]
        } else {
            seq![]
        }
    }
}

fn changed_file_exec(line: &str) -> (b: bool)
    ensures
        b == is_changed_file(line@),
{
    let t = trim_str(line);
    let t = t.as_str();
    t.unicode_len() > 0 && !starts_with(t, "sending ") && !starts_with(t, "sent ")
        && !starts_with(t, "total ") && !ends_with(t, "/")
}

/// Picks the changed files out of the `rsync` listing `stdout`.
pub fn rsync_changed_files(stdout: &str) -> (changed: Vec<String>)
    ensures
        views(changed@) == changed_files(lines(stdout@)),
{
    let ls = split_lines(stdout);
    let mut changed: Vec<String> = Vec::new();
    let mut i: usize = 0;
    while i < ls.len()
        invariant
            i <= ls.len(),
            views(ls@) == lines(stdout@),
            views(changed@) == changed_files(views(ls@).take(i as int)),
        decreases ls.len() - i,
    {
        let ghost taken = views(ls@).take(i + 1);
        proof {
            assert(taken.drop_last() =~= views(ls@).take(i as int));
            assert(taken.last() == ls@[i as int]@);
        }
        if changed_file_exec(ls[i].as_str()) {
            let line = ls[i].clone();
            let ghost before = changed@;
            changed.push(line);
            proof {
                assert(views(changed@) =~= views(before) + seq![line@]);
            }
        }
        proof {
            assert(views(changed@) =~= changed_files(taken));
        }
        i = i + 1;
    }
    proof {
        assert(views(ls@).take(ls.len() as int) =~= views(ls@));
    }
    changed
}

/// The changed files, each on its own line indented by six spaces.
pub open spec fn indented_list(files: Seq<Seq<char>>) -> Seq<char>
    decreases files.len(),
{
    if files.len() == 0 {
        seq![]
    } else if files.len() == 1 {
        "      "@ + files[0]
    } else {
        indented_list(files.drop_last()) + "\n"@ + "      "@ + files.last()
    }
}

/// The issue that lists the files in which `.bones/` differs from the
/// remote copy.
pub open spec fn out_of_sync_issue(files: Seq<Seq<char>>) -> Seq<char> {
    "Local .bones/ is out of sync with remote (run 'gitbones push'). Changed files:\n"@
        + indented_list(files)
}

/// Appends the out-of-sync issue when the listing names changed files.
pub fn check_rsync_listing(issues: &mut Vec<String>, stdout: &str)
    ensures
        views(final(issues)@) == views(old(issues)@) + if changed_files(lines(stdout@)).len() == 0 {
            seq![]
        } else {
            seq![out_of_sync_issue(changed_files(lines(stdout@)))]
        },
{
    let changed = rsync_changed_files(stdout);
    if changed.len() == 0 {
        proof {
            assert(views(issues@) + Seq::<Seq<char>>::empty() =~= views(issues@));
        }
        return;
    }
    let mut list = String::new();
    let mut i: usize = 0;
    while i < changed.len()
        invariant
            i <= changed.len(),
            list@ == indented_list(views(changed@).take(i as int)),
        decreases changed.len() - i,
    {
        let ghost taken = views(changed@).take(i + 1);
        proof {
            assert(taken.drop_last() =~= views(changed@).take(i as int));
            assert(taken.last() == changed@[i as int]@);
        }
        if i > 0 {
            list.append("\n");
        } else {
            proof {
                assert(taken[0] == taken.last());
                assert(Seq::<char>::empty() + "      "@ + taken[0] =~= "      "@ + taken[0]);
            }
        }
        list.append("      ");
        list.append(changed[i].as_str());
        proof {
            if i > 0 {
                assert(list@ =~= indented_list(taken.drop_last()) + "\n"@ + "      "@ + taken.last());
            }
        }
        i = i + 1;
    }
    proof {
        assert(views(changed@).take(changed.len() as int) =~= views(changed@));
    }
    let issue = str_concat(
        "Local .bones/ is out of sync with remote (run 'gitbones push'). Changed files:\n",
        list.as_str(),
    );
    push_issue(issues, issue);
}

/// The issue when `rsync` could not be started.
pub fn rsync_spawn_issue(cause: &str) -> (m: String)
    ensures
        m@ == "Failed to run rsync sync check: "@ + cause@,
{
    str_concat("Failed to run rsync sync check: ", cause)
}

/// The issue when `rsync` exited unsuccessfully.
pub fn rsync_failed_issue(stderr: &str) -> (m: String)
    ensures
        m@ == "rsync sync check failed: "@ + stderr@,
{
    str_concat("rsync sync check failed: ", stderr)
}

/// The error that a failed doctor run ends with.
pub open spec fn doctor_failure(count: nat) -> Seq<char> {
    "Doctor found "@ + digits_of(count, 10) + " issue"@ + if count == 1 {
        seq![]
    } else {
        "s"@
    }
}

/// The outcome of a doctor run: it passes exactly when no check found
/// an issue, and otherwise fails with the number of issues found.
pub fn doctor_verdict(issues: &Vec<String>) -> (r: Result<(), String>)
    ensures
        r is Ok <==> issues@.len() == 0,
        r matches Err(m) ==> m@ == doctor_failure(issues@.len()),
{
    let n = issues.len();
    if n == 0 {
        return Ok(());
    }
    let count = format_unsigned(n as u64, 10);
    let mut m = str_concat3("Doctor found ", count.as_str(), " issue");
    if n != 1 {
        m.append("s");
    } else {
        proof {
            assert(m@ + Seq::<char>::empty() =~= m@);
        }
    }
    Err(m)
}

/// The link that `init` creates passes the doctor's link check.
pub proof fn lemma_init_link_passes(link: PrePushLink)
    requires
        link matches PrePushLink::Target { target } && target@ == pre_push_target(),
    ensures
        pre_push_issues(link).len() == 0,
{
}

/// The outcome of a doctor run over `issues`.
pub open spec fn verdict(issues: Seq<Seq<char>>) -> Result<(), Seq<char>> {
    if issues.len() == 0 {
        Ok(())
    } else {
        Err(doctor_failure(issues.len()))
    }
}

/// The remote check that a doctor run is waiting on.
#[derive(Clone, Copy, PartialEq, Eq, Structural)]
pub enum RemoteCheck {
    /// The SSH session.
    Connect,
    /// `gitbones-remote` on the remote's path.
    Tool,
    /// `{git_dir}/bones` on the remote.
    BonesDir,
    /// The `rsync` comparison of `.bones/`.
    Rsync,
    /// The hook links in the bare repository.
    HookLinks,
}

/// Where a doctor run stands.
pub enum DoctorStage {
    Start,
    /// Waiting for what is on the local disk.
    AwaitLocal,
    /// Waiting for `bones.toml`.
    AwaitConfig,
    /// Checking the remote described by `config`.
    Remote { config: BonesConfig, check: RemoteCheck },
    /// Waiting for the session to close.
    Closing,
    Done,
}

/// A run of `gitbones doctor`: the checks in their order, the issues
/// found so far, and whether the remote is skipped.
pub struct Doctor {
    pub stage: DoctorStage,
    pub local_only: bool,
    pub issues: Vec<String>,
}

/// What the caller observed after performing the last action.
pub enum DoctorEvent {
    Started,
    /// What the local disk holds.
    LocalInspected { layout: BonesLayout, deployment_names: Vec<String>, pre_push: PrePushLink },
    ConfigLoaded { config: BonesConfig },
    ConfigFailed { cause: String },
    Connected,
    ConnectFailed { cause: String },
    /// The remote command exited successfully with this output.
    CommandSucceeded { output: String },
    /// The remote command could not run or exited unsuccessfully.
    CommandFailed { cause: String },
    RsyncFailedToStart { cause: String },
    RsyncExited { success: bool, stdout: String, stderr: String },
    Closed,
}

/// What the caller does next.
pub enum DoctorAction {
    /// Look at `.bones/`, the deployment scripts and the pre-push link.
    InspectLocal,
    /// Load `.bones/bones.toml`.
    LoadConfig,
    /// Open an SSH session to the configured host.
    Connect,
    /// Run a command on the remote.
    RunRemote { command: String },
    /// Run `rsync` locally with these arguments.
    RunRsync { args: Vec<String> },
    /// Close the SSH session.
    CloseSession,
    /// Report the issues and end with this outcome.
    Finish { outcome: Result<(), String> },
}

/// The content of a [`DoctorAction`].
pub enum ActionView {
    InspectLocal,
    LoadConfig,
    Connect,
    RunRemote(Seq<char>),
    RunRsync(Seq<Seq<char>>),
    CloseSession,
    Finish(Result<(), Seq<char>>),
}

impl View for DoctorAction {
    type V = ActionView;

    open spec fn view(&self) -> ActionView {
        match self {
            DoctorAction::InspectLocal => ActionView::InspectLocal,
            DoctorAction::LoadConfig => ActionView::LoadConfig,
            DoctorAction::Connect => ActionView::Connect,
            DoctorAction::RunRemote { command } => ActionView::RunRemote(command@),
            DoctorAction::RunRsync { args } => ActionView::RunRsync(views(args@)),
            DoctorAction::CloseSession => ActionView::CloseSession,
            DoctorAction::Finish { outcome } => ActionView::Finish(
                match outcome {
                    Ok(()) => Ok(()),
                    Err(m) => Err(m@),
                },
            ),
        }
    }
}

/// The content of a [`Doctor`].
pub struct DoctorView {
    pub stage: DoctorStage,
    pub local_only: bool,
    pub issues: Seq<Seq<char>>,
}

impl View for Doctor {
    type V = DoctorView;

    open spec fn view(&self) -> DoctorView {
        DoctorView { stage: self.stage, local_only: self.local_only, issues: views(self.issues@) }
    }
}

/// The command a remote check runs.
pub open spec fn check_command(cfg: &BonesConfig, check: RemoteCheck) -> ActionView {
    match check {
        RemoteCheck::Connect => ActionView::Connect,
        RemoteCheck::Tool => ActionView::RunRemote("command -v gitbones-remote"@),
        RemoteCheck::BonesDir => ActionView::RunRemote("test -d "@ + cfg.data.git_dir@ + "/bones"@),
        RemoteCheck::Rsync => ActionView::RunRsync(rsync_args(cfg)),
        RemoteCheck::HookLinks => ActionView::RunRemote(hook_links_command(cfg.data.git_dir@)),
    }
}

/// The issues that the answer to a remote check adds, and whether the
/// event answers that check at all.
pub open spec fn check_issues(cfg: &BonesConfig, check: RemoteCheck, event: DoctorEvent) -> Option<
    Seq<Seq<char>>,
> {
    match (check, event) {
        (RemoteCheck::Tool, DoctorEvent::CommandSucceeded { .. }) => Some(seq![]),
        (RemoteCheck::Tool, DoctorEvent::CommandFailed { .. }) => Some(
            seq!["gitbones-remote is not available on the remote"@],
        ),
        (RemoteCheck::BonesDir, DoctorEvent::CommandSucceeded { .. }) => Some(seq![]),
        (RemoteCheck::BonesDir, DoctorEvent::CommandFailed { .. }) => Some(
            seq![cfg.data.git_dir@ + "/bones/ does not exist on remote (run 'gitbones push')"@],
        ),
        (RemoteCheck::Rsync, DoctorEvent::RsyncFailedToStart { cause }) => Some(
            seq!["Failed to run rsync sync check: "@ + cause@],
        ),
        (RemoteCheck::Rsync, DoctorEvent::RsyncExited { success, stdout, stderr }) => Some(
            if !success {
                seq!["rsync sync check failed: "@ + stderr@]
            } else if changed_files(lines(stdout@)).len() == 0 {
                seq![]
            } else {
                seq![out_of_sync_issue(changed_files(lines(stdout@)))]
            },
        ),
        (RemoteCheck::HookLinks, DoctorEvent::CommandSucceeded { output }) => Some(
            hook_issues_of(cfg.data.git_dir@, lines(output@)),
        ),
        (RemoteCheck::HookLinks, DoctorEvent::CommandFailed { cause }) => Some(
            seq!["Failed to check remote hook symlinks: "@ + cause@],
        ),
        _ => None,
    }
}

/// The check after `check`; after the hook links the session closes.
pub open spec fn next_check(check: RemoteCheck) -> Option<RemoteCheck> {
    match check {
        RemoteCheck::Connect => Some(RemoteCheck::Tool),
        RemoteCheck::Tool => Some(RemoteCheck::BonesDir),
        RemoteCheck::BonesDir => Some(RemoteCheck::Rsync),
        RemoteCheck::Rsync => Some(RemoteCheck::HookLinks),
        RemoteCheck::HookLinks => None,
    }
}

pub open spec fn finished(local_only: bool, issues: Seq<Seq<char>>) -> (DoctorView, ActionView) {
    (
        DoctorView { stage: DoctorStage::Done, local_only, issues },
        ActionView::Finish(verdict(issues)),
    )
}

/// One step of a doctor run: the local checks first, then, unless only
/// local checks were asked for, the configuration, the session, the
/// remote tool, the remote `bones` folder, the `rsync` comparison and
/// the hook links, in this order; a configuration or session that fails
/// ends the run early with that issue. An event that does not answer the
/// pending action repeats it.
pub open spec fn doctor_transition(d: DoctorView, event: DoctorEvent) -> (DoctorView, ActionView) {
    let same = |stage: DoctorStage, issues: Seq<Seq<char>>|
        DoctorView { stage, local_only: d.local_only, issues };
    match d.stage {
        DoctorStage::Start => (same(DoctorStage::AwaitLocal, d.issues), ActionView::InspectLocal),
        DoctorStage::AwaitLocal => match event {
            DoctorEvent::LocalInspected { layout, deployment_names, pre_push } => {
                let issues = d.issues + structure_issues(layout) + naming_issues(
                    views(deployment_names@),
                ) + pre_push_issues(pre_push);
                if d.local_only {
                    finished(d.local_only, issues)
                } else {
                    (same(DoctorStage::AwaitConfig, issues), ActionView::LoadConfig)
                }
            },
            _ => (d, ActionView::InspectLocal),
        },
        DoctorStage::AwaitConfig => match event {
            DoctorEvent::ConfigLoaded { config } => (
                same(DoctorStage::Remote { config, check: RemoteCheck::Connect }, d.issues),
                ActionView::Connect,
            ),
            DoctorEvent::ConfigFailed { cause } => finished(
                d.local_only,
                d.issues + seq!["Cannot load config: "@ + cause@],
            ),
            _ => (d, ActionView::LoadConfig),
        },
        DoctorStage::Remote { config, check } => if check == RemoteCheck::Connect {
            match event {
                DoctorEvent::Connected => (
                    same(DoctorStage::Remote { config, check: RemoteCheck::Tool }, d.issues),
                    check_command(&config, RemoteCheck::Tool),
                ),
                DoctorEvent::ConnectFailed { cause } => finished(
                    d.local_only,
                    d.issues + seq!["Cannot connect to remote: "@ + cause@],
                ),
                _ => (d, ActionView::Connect),
            }
        } else {
            match check_issues(&config, check, event) {
                None => (d, check_command(&config, check)),
                Some(found) => match next_check(check) {
                    Some(next) => (
                        same(DoctorStage::Remote { config, check: next }, d.issues + found),
                        check_command(&config, next),
                    ),
                    None => (same(DoctorStage::Closing, d.issues + found), ActionView::CloseSession),
                },
            }
        },
        DoctorStage::Closing => finished(d.local_only, d.issues),
        DoctorStage::Done => finished(d.local_only, d.issues),
    }
}

impl Doctor {
    /// A run that has not started; `local_only` skips the remote checks.
    pub fn new(local_only: bool) -> (d: Doctor)
        ensures
            d@ == (DoctorView { stage: DoctorStage::Start, local_only, issues: seq![] }),
    {
        let d = Doctor { stage: DoctorStage::Start, local_only, issues: Vec::new() };
        proof {
            assert(views(d.issues@) =~= Seq::<Seq<char>>::empty());
        }
        d
    }

    fn finish(local_only: bool, issues: Vec<String>) -> (r: (Doctor, DoctorAction))
        ensures
            (r.0@, r.1@) == finished(local_only, views(issues@)),
    {
        let outcome = doctor_verdict(&issues);
        proof {
            assert(views(issues@).len() == issues@.len());
        }
        (Doctor { stage: DoctorStage::Done, local_only, issues }, DoctorAction::Finish { outcome })
    }

    fn command_of(config: &BonesConfig, check: RemoteCheck) -> (a: DoctorAction)
        ensures
            a@ == check_command(config, check),
    {
        match check {
            RemoteCheck::Connect => DoctorAction::Connect,
            RemoteCheck::Tool => DoctorAction::RunRemote { command: remote_tool_check_command() },
            RemoteCheck::BonesDir => DoctorAction::RunRemote {
                command: bones_dir_check_command(config.data.git_dir.as_str()),
            },
            RemoteCheck::Rsync => DoctorAction::RunRsync { args: rsync_check_args(config) },
            RemoteCheck::HookLinks => DoctorAction::RunRemote {
                command: hook_links_check_command(config.data.git_dir.as_str()),
            },
        }
    }

    /// Appends the issues that `event` raises for `check`; `false` when
    /// the event does not answer that check.
    fn record(issues: &mut Vec<String>, config: &BonesConfig, check: RemoteCheck, event: &DoctorEvent) -> (answered: bool)
        requires
            check != RemoteCheck::Connect,
        ensures
            answered == check_issues(config, check, *event) is Some,
            answered ==> views(final(issues)@) == views(old(issues)@) + check_issues(config, check, *event).unwrap(),
            !answered ==> final(issues)@ == old(issues)@,
    {
        let ghost start = views(issues@);
        match (check, event) {
            (RemoteCheck::Tool, DoctorEvent::CommandSucceeded { .. }) |
            (RemoteCheck::BonesDir, DoctorEvent::CommandSucceeded { .. }) => {
                proof {
                    assert(views(issues@) + Seq::<Seq<char>>::empty() =~= views(issues@));
                }
                true
            },
            (RemoteCheck::Tool, DoctorEvent::CommandFailed { .. }) => {
                push_issue(issues, remote_tool_issue());
                true
            },
            (RemoteCheck::BonesDir, DoctorEvent::CommandFailed { .. }) => {
                push_issue(issues, bones_dir_issue(config.data.git_dir.as_str()));
                true
            },
            (RemoteCheck::Rsync, DoctorEvent::RsyncFailedToStart { cause }) => {
                push_issue(issues, rsync_spawn_issue(cause.as_str()));
                true
            },
            (RemoteCheck::Rsync, DoctorEvent::RsyncExited { success, stdout, stderr }) => {
                if !*success {
                    push_issue(issues, rsync_failed_issue(stderr.as_str()));
                } else {
                    check_rsync_listing(issues, stdout.as_str());
                }
                true
            },
            (RemoteCheck::HookLinks, DoctorEvent::CommandSucceeded { output }) => {
                check_hook_links(issues, config.data.git_dir.as_str(), output.as_str());
                true
            },
            (RemoteCheck::HookLinks, DoctorEvent::CommandFailed { cause }) => {
                push_issue(issues, hook_check_failed_issue(cause.as_str()));
                true
            },
            _ => false,
        }
    }

    /// Performs one step of [`doctor_transition`].
    pub fn step(self, event: DoctorEvent) -> (r: (Doctor, DoctorAction))
        ensures
            (r.0@, r.1@) == doctor_transition(self@, event),
    {
        let Doctor { stage, local_only, mut issues } = self;
        match stage {
            DoctorStage::Start => (
                Doctor { stage: DoctorStage::AwaitLocal, local_only, issues },
                DoctorAction::InspectLocal,
            ),
            DoctorStage::AwaitLocal => match event {
                DoctorEvent::LocalInspected { layout, deployment_names, pre_push } => {
                    check_bones_structure(&mut issues, &layout);
                    check_deployment_naming(&mut issues, &deployment_names);
                    check_pre_push_symlink(&mut issues, &pre_push);
                    if local_only {
                        Doctor::finish(local_only, issues)
                    } else {
                        (
                            Doctor { stage: DoctorStage::AwaitConfig, local_only, issues },
                            DoctorAction::LoadConfig,
                        )
                    }
                },
                _ => (
                    Doctor { stage: DoctorStage::AwaitLocal, local_only, issues },
                    DoctorAction::InspectLocal,
                ),
            },
            DoctorStage::AwaitConfig => match event {
                DoctorEvent::ConfigLoaded { config } => (
                    Doctor {
                        stage: DoctorStage::Remote { config, check: RemoteCheck::Connect },
                        local_only,
                        issues,
                    },
                    DoctorAction::Connect,
                ),
                DoctorEvent::ConfigFailed { cause } => {
                    push_issue(&mut issues, config_load_issue(cause.as_str()));
                    Doctor::finish(local_only, issues)
                },
                _ => (
                    Doctor { stage: DoctorStage::AwaitConfig, local_only, issues },
                    DoctorAction::LoadConfig,
                ),
            },
            DoctorStage::Remote { config, check } => {
                if check == RemoteCheck::Connect {
                    match event {
                        DoctorEvent::Connected => {
                            let action = Doctor::command_of(&config, RemoteCheck::Tool);
                            (
                                Doctor {
                                    stage: DoctorStage::Remote { config, check: RemoteCheck::Tool },
                                    local_only,
                                    issues,
                                },
                                action,
                            )
                        },
                        DoctorEvent::ConnectFailed { cause } => {
                            push_issue(&mut issues, connect_issue(cause.as_str()));
                            Doctor::finish(local_only, issues)
                        },
                        _ => (
                            Doctor {
                                stage: DoctorStage::Remote { config, check },
                                local_only,
                                issues,
                            },
                            DoctorAction::Connect,
                        ),
                    }
                } else if Doctor::record(&mut issues, &config, check, &event) {
                    let next = match check {
                        RemoteCheck::Connect => Some(RemoteCheck::Tool),
                        RemoteCheck::Tool => Some(RemoteCheck::BonesDir),
                        RemoteCheck::BonesDir => Some(RemoteCheck::Rsync),
                        RemoteCheck::Rsync => Some(RemoteCheck::HookLinks),
                        RemoteCheck::HookLinks => None,
                    };
                    match next {
                        Some(n) => {
                            let action = Doctor::command_of(&config, n);
                            (
                                Doctor {
                                    stage: DoctorStage::Remote { config, check: n },
                                    local_only,
                                    issues,
                                },
                                action,
                            )
                        },
                        None => (
                            Doctor { stage: DoctorStage::Closing, local_only, issues },
                            DoctorAction::CloseSession,
                        ),
                    }
                } else {
                    let action = Doctor::command_of(&config, check);
                    (
                        Doctor { stage: DoctorStage::Remote { config, check }, local_only, issues },
                        action,
                    )
                }
            },
            DoctorStage::Closing => Doctor::finish(local_only, issues),
            DoctorStage::Done => Doctor::finish(local_only, issues),
        }
    }

    /// The issues found so far.
    pub fn issues(&self) -> (v: &Vec<String>)
        ensures
            views(v@) == self@.issues,
    {
        &self.issues
    }

    /// The configuration of the remote being checked, once loaded.
    pub fn config(&self) -> (c: Option<&BonesConfig>)
        ensures
            match self.stage {
                DoctorStage::Remote { config, .. } => c == Some(&config),
                _ => c is None,
            },
    {
        match &self.stage {
            DoctorStage::Remote { config, .. } => Some(config),
            _ => None,
        }
    }
}

/// How far a doctor run is from its end.
pub open spec fn doctor_measure(stage: DoctorStage) -> nat {
    match stage {
        DoctorStage::Start => 9,
        DoctorStage::AwaitLocal => 8,
        DoctorStage::AwaitConfig => 7,
        DoctorStage::Remote { check, .. } => match check {
            RemoteCheck::Connect => 6,
            RemoteCheck::Tool => 5,
            RemoteCheck::BonesDir => 4,
            RemoteCheck::Rsync => 3,
            RemoteCheck::HookLinks => 2,
        },
        DoctorStage::Closing => 1,
        DoctorStage::Done => 0,
    }
}

/// The event answers the action that the run is waiting on.
pub open spec fn answers_doctor(stage: DoctorStage, event: DoctorEvent) -> bool {
    match stage {
        DoctorStage::Start => true,
        DoctorStage::AwaitLocal => event is LocalInspected,
        DoctorStage::AwaitConfig => event is ConfigLoaded || event is ConfigFailed,
        DoctorStage::Remote { config, check } => if check == RemoteCheck::Connect {
            event is Connected || event is ConnectFailed
        } else {
            check_issues(&config, check, event) is Some
        },
        DoctorStage::Closing => true,
        DoctorStage::Done => true,
    }
}

/// A doctor run always ends: each answered step finishes the run or
/// brings it closer to its end.
pub proof fn lemma_doctor_progress(d: DoctorView, event: DoctorEvent)
    requires
        answers_doctor(d.stage, event),
    ensures
        doctor_transition(d, event).1 is Finish || doctor_measure(doctor_transition(d, event).0.stage)
            < doctor_measure(d.stage),
        doctor_transition(d, event).0.local_only == d.local_only,
{
}

/// Unless the run is over, every step keeps the issues found so far,
/// whatever the event.
pub proof fn lemma_doctor_keeps_issues(d: DoctorView, event: DoctorEvent)
    ensures
        doctor_transition(d, event).0.issues.take(d.issues.len() as int) == d.issues,
        d.issues.len() <= doctor_transition(d, event).0.issues.len(),
{
    let r = doctor_transition(d, event).0;
    assert(r.issues.take(d.issues.len() as int) =~= d.issues);
}

/// A run that ends reports success exactly when it found no issue.
pub proof fn lemma_doctor_outcome(d: DoctorView, event: DoctorEvent)
    ensures
        doctor_transition(d, event).1 matches ActionView::Finish(outcome) ==> (outcome is Ok
            <==> doctor_transition(d, event).0.issues.len() == 0),
{
}

/// A local-only run never leaves the machine: it looks at the local
/// disk and then reports, and loads no configuration, opens no session
/// and runs no command.
pub proof fn lemma_local_only_stays_local(d: DoctorView, event: DoctorEvent)
    requires
        d.local_only,
        d.stage is Start || d.stage is AwaitLocal || d.stage is Done,
    ensures
        doctor_transition(d, event).1 is InspectLocal || doctor_transition(d, event).1 is Finish,
        doctor_transition(d, event).0.stage is AwaitLocal || doctor_transition(d, event).0.stage is Done,
{
}

/// A run that is not local-only always goes on to the remote, whatever
/// the local checks found: once the local disk is inspected it adds the
/// local issues to those found so far and asks for the configuration;
/// once the configuration
/// is loaded it connects; once connected it looks for `gitbones-remote`.
pub proof fn lemma_full_run_checks_remote(d: DoctorView, event: DoctorEvent)
    ensures
        (d.stage is AwaitLocal && !d.local_only && event is LocalInspected) ==> ({
            let (next, action) = doctor_transition(d, event);
            &&& next.stage is AwaitConfig
            &&& action == ActionView::LoadConfig
            &&& !next.local_only
            &&& next.issues == d.issues + structure_issues(event->LocalInspected_layout)
                + naming_issues(views(event->LocalInspected_deployment_names@)) + pre_push_issues(
                event->LocalInspected_pre_push,
            )
        }),
        (d.stage is AwaitConfig && event is ConfigLoaded) ==> ({
            let (next, action) = doctor_transition(d, event);
            &&& next.stage matches DoctorStage::Remote { config, check }
            &&& check == RemoteCheck::Connect
            &&& config == event->ConfigLoaded_config
            &&& action == ActionView::Connect
            &&& next.issues == d.issues
        }),
        (d.stage matches DoctorStage::Remote { check, .. } && check == RemoteCheck::Connect
            && event is Connected) ==> doctor_transition(d, event).1 == ActionView::RunRemote(
            "command -v gitbones-remote"@,
        ),
{
}

/// With `.bones/` missing there is one issue and no other; with it
/// present, each of `bones.toml`, `hooks` and `deployment` that is
/// missing gives its own issue, whatever the others are, and nothing
/// else does, in that order.
pub proof fn lemma_structure_issue_per_entry(l: BonesLayout)
    ensures
        !l.bones_dir ==> structure_issues(l) == seq![".bones/ directory does not exist"@],
        l.bones_dir ==> structure_issues(l).len() == (if l.bones_toml {
            0int
        } else {
            1int
        }) + (if l.hooks {
            0int
        } else {
            1int
        }) + (if l.deployment {
            0int
        } else {
            1int
        }),
        l.bones_dir ==> (structure_issues(l).contains(".bones/bones.toml is missing"@)
            <==> !l.bones_toml),
        l.bones_dir ==> (structure_issues(l).contains(".bones/hooks is missing"@) <==> !l.hooks),
        l.bones_dir ==> (structure_issues(l).contains(".bones/deployment is missing"@)
            <==> !l.deployment),
        (l.bones_dir && !l.bones_toml) ==> structure_issues(l)[0]
            == ".bones/bones.toml is missing"@,
        (l.bones_dir && !l.deployment) ==> structure_issues(l).last()
            == ".bones/deployment is missing"@,
{
    let t = ".bones/bones.toml is missing"@;
    let h = ".bones/hooks is missing"@;
    let p = ".bones/deployment is missing"@;
    reveal_strlit(".bones/bones.toml is missing");
    reveal_strlit(".bones/hooks is missing");
    reveal_strlit(".bones/deployment is missing");
    assert(t[7] != h[7] && t[7] != p[7] && h[7] != p[7]);
    let r = structure_issues(l);
    if l.bones_dir {
        if l.bones_toml && l.hooks && l.deployment {
            assert(r =~= Seq::<Seq<char>>::empty());
            assert(!r.contains(t));
            assert(!r.contains(h));
            assert(!r.contains(p));
        } else if l.bones_toml && l.hooks && !l.deployment {
            assert(r =~= seq![p]);
            assert(r[0] == p);
            assert(!r.contains(t));
            assert(!r.contains(h));
        } else if l.bones_toml && !l.hooks && l.deployment {
            assert(r =~= seq![h]);
            assert(r[0] == h);
            assert(!r.contains(t));
            assert(!r.contains(p));
        } else if l.bones_toml && !l.hooks && !l.deployment {
            assert(r =~= seq![h, p]);
            assert(r[0] == h);
            assert(r[1] == p);
            assert(!r.contains(t));
        } else if !l.bones_toml && l.hooks && l.deployment {
            assert(r =~= seq![t]);
            assert(r[0] == t);
            assert(!r.contains(h));
            assert(!r.contains(p));
        } else if !l.bones_toml && l.hooks && !l.deployment {
            assert(r =~= seq![t, p]);
            assert(r[0] == t);
            assert(r[1] == p);
            assert(!r.contains(h));
        } else if !l.bones_toml && !l.hooks && l.deployment {
            assert(r =~= seq![t, h]);
            assert(r[0] == t);
            assert(r[1] == h);
            assert(!r.contains(p));
        } else if !l.bones_toml && !l.hooks && !l.deployment {
            assert(r =~= seq![t, h, p]);
            assert(r[0] == t);
            assert(r[1] == h);
            assert(r[2] == p);
        }
    }
}

/// The naming check looks at each name alone: the issues of two lists
/// one after the other are those of each, in order.
pub proof fn lemma_naming_issues_concat(names: Seq<Seq<char>>, more: Seq<Seq<char>>)
    ensures
        naming_issues(names + more) == naming_issues(names) + naming_issues(more),
    decreases more.len(),
{
    if more.len() == 0 {
        assert(names + more =~= names);
        assert(naming_issues(names) + naming_issues(more) =~= naming_issues(names));
    } else {
        let m = more.drop_last();
        lemma_naming_issues_concat(names, m);
        assert((names + more).drop_last() =~= names + m);
        assert((names + more).last() == more.last());
        assert(naming_issues(names + more) =~= naming_issues(names) + naming_issues(more));
    }
}

/// A deployment script name raises no issue exactly when its first
/// character is an ASCII digit, `'0'` (0x30) to `'9'` (0x39); any other
/// name, the empty one too, raises one issue that quotes it.
pub proof fn lemma_naming_issue_of_name(n: Seq<char>)
    ensures
        naming_issues(seq![n]) == if n.len() > 0 && 0x30 <= (n[0] as int) <= 0x39 {
            Seq::<Seq<char>>::empty()
        } else {
            seq![
                "Deployment script '"@ + n + "' does not start with a numeric prefix (e.g. 01_)"@,
            ]
        },
{
    let one = seq![n];
    assert(one.drop_last() =~= Seq::<Seq<char>>::empty());
    assert(naming_issues(Seq::<Seq<char>>::empty()) == Seq::<Seq<char>>::empty());
    assert(one.last() == n);
    if n.len() > 0 {
        assert(('0' <= n[0] && n[0] <= '9') <==> (0x30 <= (n[0] as int) && (n[0] as int) <= 0x39));
    }
    assert(naming_issues(one) =~= if n.len() > 0 && 0x30 <= (n[0] as int) <= 0x39 {
        Seq::<Seq<char>>::empty()
    } else {
        seq![
            "Deployment script '"@ + n + "' does not start with a numeric prefix (e.g. 01_)"@,
        ]
    });
}

/// The pre-push link raises no issue exactly when its target has the
/// components of `../../.bones/hooks/pre-push`, and for any other target
/// one issue that names both; a missing or unreadable link raises one.
pub proof fn lemma_pre_push_check(link: PrePushLink)
    ensures
        link matches PrePushLink::Target { target } ==> (pre_push_issues(link).len() == 0
            <==> same_path(target@, "../../.bones/hooks/pre-push"@)),
        link matches PrePushLink::Target { target } ==> (!same_path(
            target@,
            "../../.bones/hooks/pre-push"@,
        ) ==> pre_push_issues(link) == seq![
            ".git/hooks/pre-push points to '"@ + target@
                + "', expected '../../.bones/hooks/pre-push'"@,
        ]),
        !(link is Target) ==> pre_push_issues(link).len() == 1,
{
    reveal_strlit("', expected '");
    reveal_strlit("'");
    reveal_strlit("', expected '../../.bones/hooks/pre-push'");
    reveal_strlit("../../.bones/hooks/pre-push");
    assert("', expected '"@ + pre_push_target() + "'"@ =~= "', expected '../../.bones/hooks/pre-push'"@);
    if let PrePushLink::Target { target } = link {
        let a = ".git/hooks/pre-push points to '"@ + target@ + "', expected '"@ + pre_push_target()
            + "'"@;
        let b = ".git/hooks/pre-push points to '"@ + target@
            + "', expected '../../.bones/hooks/pre-push'"@;
        assert(a =~= b);
    }
}

/// The remote checks run in a fixed order, each one answered moving on
/// to the next whatever it found: `gitbones-remote`, then the remote
/// `bones` folder, then the `rsync` comparison, then the hook links,
/// after which the session closes; the tool and folder checks add one
/// issue exactly when their command failed.
pub proof fn lemma_remote_checks_in_order(d: DoctorView, event: DoctorEvent)
    ensures
        (d.stage matches DoctorStage::Remote { config, check } && check == RemoteCheck::Tool && (
        event is CommandSucceeded || event is CommandFailed)) ==> ({
            let (next, action) = doctor_transition(d, event);
            let config = d.stage->Remote_config;
            &&& next.stage == DoctorStage::Remote { config, check: RemoteCheck::BonesDir }
            &&& action == ActionView::RunRemote("test -d "@ + config.data.git_dir@ + "/bones"@)
            &&& next.issues == if event is CommandFailed {
                d.issues + seq!["gitbones-remote is not available on the remote"@]
            } else {
                d.issues
            }
        }),
        (d.stage matches DoctorStage::Remote { config, check } && check == RemoteCheck::BonesDir
            && (event is CommandSucceeded || event is CommandFailed)) ==> ({
            let (next, action) = doctor_transition(d, event);
            let config = d.stage->Remote_config;
            &&& next.stage == DoctorStage::Remote { config, check: RemoteCheck::Rsync }
            &&& action is RunRsync
            &&& next.issues.len() == d.issues.len() + if event is CommandFailed {
                1int
            } else {
                0int
            }
        }),
        (d.stage matches DoctorStage::Remote { config, check } && check == RemoteCheck::Rsync && (
        event is RsyncExited || event is RsyncFailedToStart)) ==> ({
            let (next, action) = doctor_transition(d, event);
            let config = d.stage->Remote_config;
            &&& next.stage == DoctorStage::Remote { config, check: RemoteCheck::HookLinks }
            &&& action is RunRemote
        }),
        (d.stage matches DoctorStage::Remote { config, check } && check == RemoteCheck::HookLinks
            && (event is CommandSucceeded || event is CommandFailed)) ==> ({
            let (next, action) = doctor_transition(d, event);
            &&& next.stage is Closing
            &&& action == ActionView::CloseSession
        }),
        d.stage is Closing ==> ({
            let (next, action) = doctor_transition(d, event);
            &&& next.stage is Done
            &&& next.issues == d.issues
            &&& action == ActionView::Finish(
                if d.issues.len() == 0 {
                    Ok(())
                } else {
                    Err(doctor_failure(d.issues.len()))
                },
            )
        }),
{
}

} // verus!
