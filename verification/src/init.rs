//! What `gitbones init` decides: the `.gitignore` entry for `.bones`,
//! the default project name, the scaffold files to write, and the order
//! of the whole setup, from the confirmation to the bare repository and
//! the post-receive hook on the deployment host.
use vstd::prelude::*;
use vstd::string::*;
use crate::paths::{join, join_path};
use crate::ssh::{
    bare_repo_check_command, bare_repo_step, post_receive_path, upload_command,
    upload_post_receive_command, uploaded_note,
};
use crate::text::{
    ends_with, has_prefix, has_suffix, lemma_first_of, first_of, lines, split_lines, starts_with,
    strip_cr, trim, trim_end, trim_start, trim_str, str_eq, views,
};

verus! {

/// `content` has a line that reads `.bones` once trimmed.
pub open spec fn ignores_bones(content: Seq<char>) -> bool {
    exists|i: int| 0 <= i < lines(content).len() && #[trigger] trim(lines(content)[i]) == ".bones"@
}

/// The new `.gitignore`, if it has to change: created with the entry when
/// missing, unchanged when it already ignores `.bones`, and otherwise the
/// entry appended on a line of its own.
pub open spec fn gitignore_update(content: Option<Seq<char>>) -> Option<Seq<char>> {
    match content {
        None => Some(".bones\n"@),
        Some(c) => if ignores_bones(c) {
            None
        } else {
            Some(
                c + (if has_suffix(c, "\n"@) {
                    seq![]
                } else {
                    "\n"@
                }) + ".bones\n"@,
            )
        },
    }
}

/// The text of an optional string.
pub open spec fn text_of(content: Option<&str>) -> Option<Seq<char>> {
    match content {
        Some(c) => Some(c@),
        None => None,
    }
}

/// The text to write to `.gitignore`, from its current text (`None` when
/// there is no such file); `None` when nothing has to be written.
pub fn update_gitignore(content: Option<&str>) -> (r: Option<String>)
    ensures
        r matches Some(s) ==> gitignore_update(text_of(content)) == Some(s@),
        r is None ==> (gitignore_update(text_of(content)) is None),
{
    match content {
        None => Some(".bones\n".to_string()),
        Some(c) => {
            let ls = split_lines(c);
            let mut i: usize = 0;
            while i < ls.len()
                invariant
                    i <= ls.len(),
                    content == Some(c),
                    views(ls@) == lines(c@),
                    forall|k: int| 0 <= k < i ==> #[trigger] trim(lines(c@)[k]) != ".bones"@,
                decreases ls.len() - i,
            {
                let t = trim_str(ls[i].as_str());
                if str_eq(t.as_str(), ".bones") {
                    proof {
                        assert(views(ls@)[i as int] == ls@[i as int]@);
                        assert(trim(lines(c@)[i as int]) == ".bones"@);
                    }
                    return None;
                }
                i = i + 1;
            }
            let mut out = c.to_string();
            if !ends_with(c, "\n") {
                out.append("\n");
            } else {
                proof {
                    assert(out@ + Seq::<char>::empty() =~= out@);
                }
            }
            out.append(".bones\n");
            Some(out)
        },
    }
}

proof fn lemma_lines_concat(p: Seq<char>, r: Seq<char>)
    requires
        p.len() == 0 || p.last() == '\n',
    ensures
        lines(p + r) == lines(p) + lines(r),
    decreases p.len(),
{
    if p.len() == 0 {
        assert(p + r =~= r);
        assert(lines(p) + lines(r) =~= lines(r));
    } else {
        let n = first_of(p, '\n');
        lemma_first_of_bound(p);
        assert forall|m: int| 0 <= m < n implies #[trigger] (p + r)[m] != '\n' by {
            lemma_first_of_before(p, m);
        }
        lemma_first_of_at(p);
        lemma_first_of(p + r, '\n', n as int);
        let rest = p.skip(n as int + 1);
        assert((p + r).take(n as int) =~= p.take(n as int));
        assert((p + r).skip(n as int + 1) =~= rest + r);
        assert(rest.len() == 0 || rest.last() == '\n');
        lemma_lines_concat(rest, r);
        assert(lines(p + r) =~= lines(p) + lines(r));
    }
}

proof fn lemma_first_of_bound(p: Seq<char>)
    requires
        p.len() > 0,
        p.last() == '\n',
    ensures
        first_of(p, '\n') < p.len(),
    decreases p.len(),
{
    if p[0] != '\n' {
        lemma_first_of_bound(p.drop_first());
    }
}

proof fn lemma_first_of_before(p: Seq<char>, m: int)
    requires
        0 <= m < first_of(p, '\n'),
        m < p.len(),
    ensures
        p[m] != '\n',
    decreases p.len(),
{
    if m > 0 {
        lemma_first_of_before(p.drop_first(), m - 1);
    }
}

proof fn lemma_first_of_at(p: Seq<char>)
    requires
        first_of(p, '\n') < p.len(),
    ensures
        p[first_of(p, '\n') as int] == '\n',
    decreases p.len(),
{
    if p[0] != '\n' {
        lemma_first_of_at(p.drop_first());
    }
}

proof fn lemma_entry_line(p: Seq<char>)
    requires
        p.len() == 0 || p.last() == '\n',
    ensures
        ignores_bones(p + ".bones\n"@),
{
    reveal_strlit(".bones\n");
    reveal_strlit(".bones");
    let e = ".bones\n"@;
    lemma_lines_concat(p, e);
    lemma_first_of(e, '\n', 6);
    assert(e.skip(7).len() == 0);
    assert(lines(e.skip(7)) =~= Seq::<Seq<char>>::empty());
    assert(e.take(6) =~= ".bones"@);
    assert(strip_cr(e.take(6)) == ".bones"@);
    assert(lines(e) =~= seq![".bones"@]);
    let t = ".bones"@;
    assert(trim_start(t) == t);
    assert(trim_end(t) == t);
    let k = lines(p).len() as int;
    assert(lines(p + e)[k] == ".bones"@);
    assert(trim(lines(p + e)[k]) == ".bones"@);
}

/// Updating `.gitignore` is idempotent: once updated, it already ignores
/// `.bones`, and a second update has nothing to write.
pub proof fn lemma_gitignore_idempotent(content: Option<Seq<char>>)
    ensures
        gitignore_update(content) matches Some(updated) ==> (gitignore_update(Some(updated)) is None),
{
    reveal_strlit("\n");
    match content {
        None => {
            lemma_entry_line(Seq::<char>::empty());
            assert(Seq::<char>::empty() + ".bones\n"@ =~= ".bones\n"@);
        },
        Some(c) => {
            if !ignores_bones(c) {
                let sep = if has_suffix(c, "\n"@) {
                    Seq::<char>::empty()
                } else {
                    "\n"@
                };
                let p = c + sep;
                if has_suffix(c, "\n"@) {
                    assert(c.skip(c.len() - 1)[0] == c.last());
                    assert(p =~= c);
                }
                assert(p.len() == 0 || p.last() == '\n');
                lemma_entry_line(p);
            }
        },
    }
}

/// The project name proposed from the name of the current directory, or
/// `project` when the directory has no name.
pub fn project_name_from(dir_name: Option<String>) -> (name: String)
    ensures
        name@ == match dir_name {
            Some(n) => n@,
            None => "project"@,
        },
{
    match dir_name {
        Some(n) => n,
        None => "project".to_string(),
    }
}

/// The mode given to the hook scripts of the scaffold.
pub const HOOK_MODE: u32 = 0o755;

/// One file of the scaffold: where it goes, and whether it is a hook
/// script that must be executable.
pub struct ScaffoldFile {
    pub dest: String,
    pub executable: bool,
}

/// Where the scaffold file at `file_path` (relative to the scaffold root)
/// is written under `bones_dir`; the files under `hooks/` are made
/// executable with [`HOOK_MODE`].
pub fn scaffold_file(bones_dir: &str, file_path: &str) -> (f: ScaffoldFile)
    ensures
        f.dest@ == join_path(bones_dir@, file_path@),
        f.executable == has_prefix(file_path@, "hooks/"@),
{
    ScaffoldFile { dest: join(bones_dir, file_path), executable: starts_with(file_path, "hooks/") }
}

/// Where `gitbones init` stands.
#[derive(Clone, Copy, PartialEq, Eq, Structural)]
pub enum InitStage {
    Start,
    /// Waiting for the user to confirm.
    Confirming,
    /// Waiting for the repository to open.
    OpeningRepo,
    /// Waiting to learn whether `.bones/` exists.
    CheckingBones,
    /// Waiting for the scaffold to be written.
    Scaffolding,
    /// Waiting for `.gitignore` to be updated.
    UpdatingGitignore,
    /// Waiting to learn whether `bones.toml` exists.
    CheckingConfig,
    /// Waiting for `bones.toml` to be loaded.
    LoadingConfig,
    /// Waiting for the answers to the configuration questions.
    AskingQuestions,
    /// Waiting for the remote to be found among the repository's remotes.
    ValidatingRemote,
    /// Waiting for the configuration to be saved.
    Saving,
    /// Waiting for the pre-push hook to be linked.
    Linking,
    /// Waiting for the SSH session to the deployment host.
    Connecting,
    /// Waiting to learn whether the bare repository exists.
    CheckingBareRepo,
    /// Waiting for the bare repository to be created.
    CreatingBareRepo,
    /// Waiting for the text of the post-receive hook.
    ReadingHook,
    /// Waiting for the post-receive hook to be uploaded.
    Uploading,
    /// Set up.
    Done,
    /// The user declined.
    Aborted,
}

/// What the caller observed after the last action.
pub enum InitEvent {
    /// The action succeeded.
    Completed,
    /// The answer to a question: the confirmation, or whether `.bones/`,
    /// `bones.toml` or the bare repository exists.
    Observed { yes: bool },
    /// The configuration was loaded or collected; `git_dir` is the path of
    /// the bare repository on the deployment host.
    ConfigReady { git_dir: String },
    /// The text of the post-receive hook to upload.
    HookRead { content: String },
}

pub enum InitEventView {
    Completed,
    Observed { yes: bool },
    ConfigReady { git_dir: Seq<char> },
    HookRead { content: Seq<char> },
}

impl View for InitEvent {
    type V = InitEventView;

    open spec fn view(&self) -> InitEventView {
        match self {
            InitEvent::Completed => InitEventView::Completed,
            InitEvent::Observed { yes } => InitEventView::Observed { yes: *yes },
            InitEvent::ConfigReady { git_dir } => InitEventView::ConfigReady { git_dir: git_dir@ },
            InitEvent::HookRead { content } => InitEventView::HookRead { content: content@ },
        }
    }
}

/// What the caller does next.
pub enum InitAction {
    /// Ask the user to confirm, defaulting to yes.
    Confirm,
    OpenRepo,
    /// Look whether `.bones/` exists.
    CheckBonesDir,
    /// Write the scaffold into `.bones/`.
    Scaffold,
    UpdateGitignore,
    /// Look whether `.bones/bones.toml` exists.
    CheckConfig,
    LoadConfig,
    /// Ask the configuration questions.
    AskQuestions,
    /// Check that the configured remote exists.
    ValidateRemote,
    SaveConfig,
    /// Link `.git/hooks/pre-push` to the scaffold's hook.
    LinkPrePush,
    /// Open the SSH session to the deployment host.
    Connect,
    /// Run `command` on the host; it succeeds when the bare repository exists.
    CheckBareRepo { command: String },
    /// Run `command` on the host to create the bare repository.
    CreateBareRepo { command: String },
    /// Read the post-receive hook from `.bones/hooks/`.
    ReadPostReceiveHook,
    /// Run `command` on the host to install the post-receive hook.
    UploadPostReceiveHook { command: String },
    /// Stop; `completed` is false when the user declined.
    Finish { completed: bool },
}

pub enum InitActionView {
    Confirm,
    OpenRepo,
    CheckBonesDir,
    Scaffold,
    UpdateGitignore,
    CheckConfig,
    LoadConfig,
    AskQuestions,
    ValidateRemote,
    SaveConfig,
    LinkPrePush,
    Connect,
    CheckBareRepo { command: Seq<char> },
    CreateBareRepo { command: Seq<char> },
    ReadPostReceiveHook,
    UploadPostReceiveHook { command: Seq<char> },
    Finish { completed: bool },
}

impl View for InitAction {
    type V = InitActionView;

    open spec fn view(&self) -> InitActionView {
        match self {
            InitAction::Confirm => InitActionView::Confirm,
            InitAction::OpenRepo => InitActionView::OpenRepo,
            InitAction::CheckBonesDir => InitActionView::CheckBonesDir,
            InitAction::Scaffold => InitActionView::Scaffold,
            InitAction::UpdateGitignore => InitActionView::UpdateGitignore,
            InitAction::CheckConfig => InitActionView::CheckConfig,
            InitAction::LoadConfig => InitActionView::LoadConfig,
            InitAction::AskQuestions => InitActionView::AskQuestions,
            InitAction::ValidateRemote => InitActionView::ValidateRemote,
            InitAction::SaveConfig => InitActionView::SaveConfig,
            InitAction::LinkPrePush => InitActionView::LinkPrePush,
            InitAction::Connect => InitActionView::Connect,
            InitAction::CheckBareRepo { command } => InitActionView::CheckBareRepo { command: command@ },
            InitAction::CreateBareRepo { command } => InitActionView::CreateBareRepo { command: command@ },
            InitAction::ReadPostReceiveHook => InitActionView::ReadPostReceiveHook,
            InitAction::UploadPostReceiveHook { command } => InitActionView::UploadPostReceiveHook {
                command: command@,
            },
            InitAction::Finish { completed } => InitActionView::Finish { completed: *completed },
        }
    }
}

/// A line to print, then an action.
pub struct InitStep {
    pub note: Option<String>,
    pub action: InitAction,
}

pub struct InitStepView {
    pub note: Option<Seq<char>>,
    pub action: InitActionView,
}

impl View for InitStep {
    type V = InitStepView;

    open spec fn view(&self) -> InitStepView {
        InitStepView {
            note: match self.note {
                Some(t) => Some(t@),
                None => None,
            },
            action: self.action@,
        }
    }
}

/// The state of `gitbones init`: the stage, the bare repository's path
/// once the configuration is known, and the hook text once it was read.
pub struct Init {
    pub stage: InitStage,
    pub git_dir: String,
    pub hook: String,
}

pub struct InitView {
    pub stage: InitStage,
    pub git_dir: Seq<char>,
    pub hook: Seq<char>,
}

impl View for Init {
    type V = InitView;

    open spec fn view(&self) -> InitView {
        InitView { stage: self.stage, git_dir: self.git_dir@, hook: self.hook@ }
    }
}

/// Where the post-receive hook goes in the bare repository at `git_dir`.
pub open spec fn post_receive_at(git_dir: Seq<char>) -> Seq<char> {
    git_dir + "/hooks/post-receive"@
}

/// The remote command that installs `hook` as the post-receive hook of
/// the bare repository at `git_dir`.
pub open spec fn hook_upload(git_dir: Seq<char>, hook: Seq<char>) -> Seq<char> {
    upload_command(post_receive_at(git_dir), hook)
}

/// The action that a stage waits on.
pub open spec fn pending_action(s: InitView) -> InitActionView {
    match s.stage {
        InitStage::Start => InitActionView::Confirm,
        InitStage::Confirming => InitActionView::Confirm,
        InitStage::OpeningRepo => InitActionView::OpenRepo,
        InitStage::CheckingBones => InitActionView::CheckBonesDir,
        InitStage::Scaffolding => InitActionView::Scaffold,
        InitStage::UpdatingGitignore => InitActionView::UpdateGitignore,
        InitStage::CheckingConfig => InitActionView::CheckConfig,
        InitStage::LoadingConfig => InitActionView::LoadConfig,
        InitStage::AskingQuestions => InitActionView::AskQuestions,
        InitStage::ValidatingRemote => InitActionView::ValidateRemote,
        InitStage::Saving => InitActionView::SaveConfig,
        InitStage::Linking => InitActionView::LinkPrePush,
        InitStage::Connecting => InitActionView::Connect,
        InitStage::CheckingBareRepo => InitActionView::CheckBareRepo {
            command: "test -d "@ + s.git_dir,
        },
        InitStage::CreatingBareRepo => InitActionView::CreateBareRepo {
            command: "git init --bare "@ + s.git_dir,
        },
        InitStage::ReadingHook => InitActionView::ReadPostReceiveHook,
        InitStage::Uploading => InitActionView::UploadPostReceiveHook {
            command: hook_upload(s.git_dir, s.hook),
        },
        InitStage::Done => InitActionView::Finish { completed: true },
        InitStage::Aborted => InitActionView::Finish { completed: false },
    }
}

/// `s` moved to `stage`, printing `note`, then doing what `stage` waits on.
pub open spec fn go(s: InitView, stage: InitStage, note: Option<Seq<char>>) -> (InitView, InitStepView) {
    let t = InitView { stage, git_dir: s.git_dir, hook: s.hook };
    (t, InitStepView { note, action: pending_action(t) })
}

/// The next state, line and action of `gitbones init`: confirm, open the
/// repository, write the scaffold unless `.bones/` exists, update
/// `.gitignore`, load `bones.toml` when it exists and ask the questions
/// otherwise, check the remote, save, link the pre-push hook, then on the
/// deployment host create the bare repository unless it exists and
/// upload the post-receive hook. An event that does not answer the
/// pending action repeats it.
pub open spec fn init_transition(s: InitView, event: InitEventView) -> (InitView, InitStepView) {
    let wait = (s, InitStepView { note: None, action: pending_action(s) });
    match s.stage {
        InitStage::Start => go(s, InitStage::Confirming, None),
        InitStage::Confirming => match event {
            InitEventView::Observed { yes } => if yes {
                go(s, InitStage::OpeningRepo, None)
            } else {
                go(s, InitStage::Aborted, Some("Aborted."@))
            },
            _ => wait,
        },
        InitStage::OpeningRepo => match event {
            InitEventView::Completed => go(s, InitStage::CheckingBones, None),
            _ => wait,
        },
        InitStage::CheckingBones => match event {
            InitEventView::Observed { yes } => if yes {
                go(
                    s,
                    InitStage::UpdatingGitignore,
                    Some(".bones/ already exists, skipping scaffold extraction."@),
                )
            } else {
                go(s, InitStage::Scaffolding, Some("Creating .bones/ scaffold..."@))
            },
            _ => wait,
        },
        InitStage::Scaffolding => match event {
            InitEventView::Completed => go(s, InitStage::UpdatingGitignore, None),
            _ => wait,
        },
        InitStage::UpdatingGitignore => match event {
            InitEventView::Completed => go(s, InitStage::CheckingConfig, None),
            _ => wait,
        },
        InitStage::CheckingConfig => match event {
            InitEventView::Observed { yes } => if yes {
                go(
                    s,
                    InitStage::LoadingConfig,
                    Some("Loading existing config from .bones/bones.toml..."@),
                )
            } else {
                go(s, InitStage::AskingQuestions, None)
            },
            _ => wait,
        },
        InitStage::LoadingConfig | InitStage::AskingQuestions => match event {
            InitEventView::ConfigReady { git_dir } => go(
                InitView { stage: s.stage, git_dir, hook: s.hook },
                InitStage::ValidatingRemote,
                None,
            ),
            _ => wait,
        },
        InitStage::ValidatingRemote => match event {
            InitEventView::Completed => go(s, InitStage::Saving, None),
            _ => wait,
        },
        InitStage::Saving => match event {
            InitEventView::Completed => go(
                s,
                InitStage::Linking,
                Some("Saved config to .bones/bones.toml"@),
            ),
            _ => wait,
        },
        InitStage::Linking => match event {
            InitEventView::Completed => go(
                s,
                InitStage::Connecting,
                Some("Symlinked .git/hooks/pre-push -> .bones/hooks/pre-push"@),
            ),
            _ => wait,
        },
        InitStage::Connecting => match event {
            InitEventView::Completed => go(s, InitStage::CheckingBareRepo, None),
            _ => wait,
        },
        InitStage::CheckingBareRepo => match event {
            InitEventView::Observed { yes } => if yes {
                go(s, InitStage::ReadingHook, Some("Bare repo already exists at "@ + s.git_dir))
            } else {
                go(
                    s,
                    InitStage::CreatingBareRepo,
                    Some("Creating bare repo at "@ + s.git_dir + "..."@),
                )
            },
            _ => wait,
        },
        InitStage::CreatingBareRepo => match event {
            InitEventView::Completed => go(s, InitStage::ReadingHook, None),
            _ => wait,
        },
        InitStage::ReadingHook => match event {
            InitEventView::HookRead { content } => go(
                InitView { stage: s.stage, git_dir: s.git_dir, hook: content },
                InitStage::Uploading,
                None,
            ),
            _ => wait,
        },
        InitStage::Uploading => match event {
            InitEventView::Completed => go(
                s,
                InitStage::Done,
                Some("Uploaded post-receive hook to "@ + post_receive_at(s.git_dir)),
            ),
            _ => wait,
        },
        InitStage::Done | InitStage::Aborted => wait,
    }
}

fn note(text: &str) -> (n: Option<String>)
    ensures
        n matches Some(t) && t@ == text@,
{
    Some(text.to_string())
}

impl Init {
    /// `gitbones init` before its first step.
    pub fn new() -> (i: Init)
        ensures
            i@ == (InitView { stage: InitStage::Start, git_dir: seq![], hook: seq![] }),
    {
        Init { stage: InitStage::Start, git_dir: String::new(), hook: String::new() }
    }

    /// What the current stage waits on.
    fn pending(&self) -> (a: InitAction)
        ensures
            a@ == pending_action(self@),
    {
        match self.stage {
            InitStage::Start => InitAction::Confirm,
            InitStage::Confirming => InitAction::Confirm,
            InitStage::OpeningRepo => InitAction::OpenRepo,
            InitStage::CheckingBones => InitAction::CheckBonesDir,
            InitStage::Scaffolding => InitAction::Scaffold,
            InitStage::UpdatingGitignore => InitAction::UpdateGitignore,
            InitStage::CheckingConfig => InitAction::CheckConfig,
            InitStage::LoadingConfig => InitAction::LoadConfig,
            InitStage::AskingQuestions => InitAction::AskQuestions,
            InitStage::ValidatingRemote => InitAction::ValidateRemote,
            InitStage::Saving => InitAction::SaveConfig,
            InitStage::Linking => InitAction::LinkPrePush,
            InitStage::Connecting => InitAction::Connect,
            InitStage::CheckingBareRepo => InitAction::CheckBareRepo {
                command: bare_repo_check_command(self.git_dir.as_str()),
            },
            InitStage::CreatingBareRepo => {
                let step = bare_repo_step(self.git_dir.as_str(), false);
                match step.command {
                    Some(command) => InitAction::CreateBareRepo { command },
                    None => InitAction::CreateBareRepo { command: String::new() },
                }
            },
            InitStage::ReadingHook => InitAction::ReadPostReceiveHook,
            InitStage::Uploading => {
                let path = post_receive_path(self.git_dir.as_str());
                InitAction::UploadPostReceiveHook {
                    command: upload_post_receive_command(path.as_str(), self.hook.as_str()),
                }
            },
            InitStage::Done => InitAction::Finish { completed: true },
            InitStage::Aborted => InitAction::Finish { completed: false },
        }
    }

    /// Moves to `stage`, printing `note`.
    fn go(self, stage: InitStage, note: Option<String>) -> (r: (Init, InitStep))
        ensures
            ({
                let n = match note {
                    Some(t) => Some(t@),
                    None => None,
                };
                (r.0@, r.1@) == go(self@, stage, n)
            }),
    {
        let next = Init { stage, git_dir: self.git_dir, hook: self.hook };
        let action = next.pending();
        (next, InitStep { note, action })
    }

    /// Stays, repeating the pending action.
    fn wait(self) -> (r: (Init, InitStep))
        ensures
            r.0@ == self@,
            r.1@ == (InitStepView { note: None, action: pending_action(self@) }),
    {
        let action = self.pending();
        (self, InitStep { note: None, action })
    }

    /// Performs one step of [`init_transition`].
    pub fn step(self, event: InitEvent) -> (r: (Init, InitStep))
        ensures
            (r.0@, r.1@) == init_transition(self@, event@),
    {
        match self.stage {
            InitStage::Start => self.go(InitStage::Confirming, None),
            InitStage::Confirming => match event {
                InitEvent::Observed { yes } => if yes {
                    self.go(InitStage::OpeningRepo, None)
                } else {
                    self.go(InitStage::Aborted, note("Aborted."))
                },
                _ => self.wait(),
            },
            InitStage::OpeningRepo => match event {
                InitEvent::Completed => self.go(InitStage::CheckingBones, None),
                _ => self.wait(),
            },
            InitStage::CheckingBones => match event {
                InitEvent::Observed { yes } => if yes {
                    self.go(
                        InitStage::UpdatingGitignore,
                        note(".bones/ already exists, skipping scaffold extraction."),
                    )
                } else {
                    self.go(InitStage::Scaffolding, note("Creating .bones/ scaffold..."))
                },
                _ => self.wait(),
            },
            InitStage::Scaffolding => match event {
                InitEvent::Completed => self.go(InitStage::UpdatingGitignore, None),
                _ => self.wait(),
            },
            InitStage::UpdatingGitignore => match event {
                InitEvent::Completed => self.go(InitStage::CheckingConfig, None),
                _ => self.wait(),
            },
            InitStage::CheckingConfig => match event {
                InitEvent::Observed { yes } => if yes {
                    self.go(
                        InitStage::LoadingConfig,
                        note("Loading existing config from .bones/bones.toml..."),
                    )
                } else {
                    self.go(InitStage::AskingQuestions, None)
                },
                _ => self.wait(),
            },
            InitStage::LoadingConfig | InitStage::AskingQuestions => match event {
                InitEvent::ConfigReady { git_dir } => {
                    let s = Init { stage: self.stage, git_dir, hook: self.hook };
                    s.go(InitStage::ValidatingRemote, None)
                },
                _ => self.wait(),
            },
            InitStage::ValidatingRemote => match event {
                InitEvent::Completed => self.go(InitStage::Saving, None),
                _ => self.wait(),
            },
            InitStage::Saving => match event {
                InitEvent::Completed => self.go(
                    InitStage::Linking,
                    note("Saved config to .bones/bones.toml"),
                ),
                _ => self.wait(),
            },
            InitStage::Linking => match event {
                InitEvent::Completed => self.go(
                    InitStage::Connecting,
                    note("Symlinked .git/hooks/pre-push -> .bones/hooks/pre-push"),
                ),
                _ => self.wait(),
            },
            InitStage::Connecting => match event {
                InitEvent::Completed => self.go(InitStage::CheckingBareRepo, None),
                _ => self.wait(),
            },
            InitStage::CheckingBareRepo => match event {
                InitEvent::Observed { yes } => {
                    let step = bare_repo_step(self.git_dir.as_str(), yes);
                    if yes {
                        self.go(InitStage::ReadingHook, Some(step.note))
                    } else {
                        self.go(InitStage::CreatingBareRepo, Some(step.note))
                    }
                },
                _ => self.wait(),
            },
            InitStage::CreatingBareRepo => match event {
                InitEvent::Completed => self.go(InitStage::ReadingHook, None),
                _ => self.wait(),
            },
            InitStage::ReadingHook => match event {
                InitEvent::HookRead { content } => {
                    let s = Init { stage: self.stage, git_dir: self.git_dir, hook: content };
                    s.go(InitStage::Uploading, None)
                },
                _ => self.wait(),
            },
            InitStage::Uploading => match event {
                InitEvent::Completed => {
                    let path = post_receive_path(self.git_dir.as_str());
                    let line = uploaded_note(path.as_str());
                    self.go(InitStage::Done, Some(line))
                },
                _ => self.wait(),
            },
            InitStage::Done | InitStage::Aborted => self.wait(),
        }
    }
}

/// Init reports success only once the post-receive hook was uploaded:
/// `Finish` with `completed` comes from the upload completing, or from a
/// run that already stands done.
pub proof fn lemma_init_finishes_after_upload(s: InitView, event: InitEventView)
    ensures
        init_transition(s, event).1.action == (InitActionView::Finish { completed: true }) ==> (
        s.stage == InitStage::Uploading && event == InitEventView::Completed) || s.stage
            == InitStage::Done,
{
}

/// The bare repository is created only after it was found missing, and
/// the upload installs the hook text that was read at the path under the
/// configured `git_dir`.
pub proof fn lemma_init_remote_setup(s: InitView, event: InitEventView)
    ensures
        init_transition(s, event).1.action is CreateBareRepo ==> (s.stage
            == InitStage::CheckingBareRepo && event == InitEventView::Observed { yes: false })
            || s.stage == InitStage::CreatingBareRepo,
        (s.stage == InitStage::ReadingHook && event is HookRead) ==> init_transition(s, event).1.action
            == (InitActionView::UploadPostReceiveHook {
            command: hook_upload(s.git_dir, event->HookRead_content),
        }),
{
}

/// Re-running init on a project that has its `.bones/` leaves the files
/// there alone, and asks no question when `bones.toml` is there: the
/// scaffold is written only after `.bones/` was found missing, and the
/// questions are asked only after `bones.toml` was found missing.
pub proof fn lemma_init_keeps_existing_files(s: InitView, event: InitEventView)
    ensures
        init_transition(s, event).1.action == InitActionView::Scaffold ==> (s.stage
            == InitStage::Scaffolding || (s.stage == InitStage::CheckingBones && event
            == InitEventView::Observed { yes: false })),
        init_transition(s, event).1.action == InitActionView::AskQuestions ==> (s.stage
            == InitStage::AskingQuestions || (s.stage == InitStage::CheckingConfig && event
            == InitEventView::Observed { yes: false })),
{
}

/// The configuration is saved only once the remote it names was found:
/// saving is asked for only after the remote check completed.
pub proof fn lemma_init_saves_after_validation(s: InitView, event: InitEventView)
    ensures
        init_transition(s, event).1.action == InitActionView::SaveConfig ==> (s.stage
            == InitStage::ValidatingRemote && event == InitEventView::Completed) || s.stage
            == InitStage::Saving,
{
}

/// What the project and the deployment host answer during a run of
/// init: the user's confirmation, whether `.bones/`, `bones.toml` and the
/// bare repository exist, the configured `git_dir`, the text of the
/// post-receive hook, and `.gitignore` (`None` when missing).
pub struct InitEnv {
    pub confirm: bool,
    pub bones_exists: bool,
    pub config_exists: bool,
    pub bare_repo_exists: bool,
    pub git_dir: Seq<char>,
    pub hook: Seq<char>,
    pub gitignore: Option<Seq<char>>,
}

/// The event with which `env` answers `action`, each action succeeding.
pub open spec fn env_event(env: InitEnv, action: InitActionView) -> InitEventView {
    match action {
        InitActionView::Confirm => InitEventView::Observed { yes: env.confirm },
        InitActionView::CheckBonesDir => InitEventView::Observed { yes: env.bones_exists },
        InitActionView::CheckConfig => InitEventView::Observed { yes: env.config_exists },
        InitActionView::LoadConfig => InitEventView::ConfigReady { git_dir: env.git_dir },
        InitActionView::AskQuestions => InitEventView::ConfigReady { git_dir: env.git_dir },
        InitActionView::CheckBareRepo { .. } => InitEventView::Observed { yes: env.bare_repo_exists },
        InitActionView::ReadPostReceiveHook => InitEventView::HookRead { content: env.hook },
        _ => InitEventView::Completed,
    }
}

/// The actions of init from state `s` and `event`, answered by `env`, up
/// to and including `Finish`, over at most `fuel` steps.
pub open spec fn run_from(env: InitEnv, s: InitView, event: InitEventView, fuel: nat) -> Seq<
    InitActionView,
>
    decreases fuel,
{
    if fuel == 0 {
        seq![]
    } else {
        let (t, step) = init_transition(s, event);
        if step.action is Finish {
            seq![step.action]
        } else {
            seq![step.action] + run_from(env, t, env_event(env, step.action), (fuel - 1) as nat)
        }
    }
}

/// The actions of a whole run of init against `env`, from [`Init::new`].
pub open spec fn init_run(env: InitEnv) -> Seq<InitActionView> {
    run_from(
        env,
        InitView { stage: InitStage::Start, git_dir: seq![], hook: seq![] },
        InitEventView::Completed,
        24,
    )
}

/// `.gitignore` once updated.
pub open spec fn gitignore_after(content: Option<Seq<char>>) -> Option<Seq<char>> {
    match gitignore_update(content) {
        Some(updated) => Some(updated),
        None => content,
    }
}

/// The project and host as a completed run of init leaves them: the
/// scaffold, `bones.toml` and the bare repository are there, and
/// `.gitignore` is updated.
pub open spec fn settled(env: InitEnv) -> InitEnv {
    InitEnv {
        bones_exists: true,
        config_exists: true,
        bare_repo_exists: true,
        gitignore: gitignore_after(env.gitignore),
        ..env
    }
}

/// The steps of a confirmed run of init on the project: open the
/// repository, write the scaffold only where `.bones/` is missing, update
/// `.gitignore`, load `bones.toml` or ask the questions where it is
/// missing, check the remote, save, link the pre-push hook and connect.
pub open spec fn local_actions(env: InitEnv) -> Seq<InitActionView> {
    seq![InitActionView::Confirm, InitActionView::OpenRepo, InitActionView::CheckBonesDir] + (
    if env.bones_exists {
        seq![]
    } else {
        seq![InitActionView::Scaffold]
    }) + seq![InitActionView::UpdateGitignore, InitActionView::CheckConfig] + (if env.config_exists {
        seq![InitActionView::LoadConfig]
    } else {
        seq![InitActionView::AskQuestions]
    }) + seq![
        InitActionView::ValidateRemote,
        InitActionView::SaveConfig,
        InitActionView::LinkPrePush,
        InitActionView::Connect,
    ]
}

/// The steps of a confirmed run of init on the deployment host: create
/// the bare repository only where it is missing, read and upload the
/// post-receive hook, and finish.
pub open spec fn remote_actions(env: InitEnv) -> Seq<InitActionView> {
    seq![InitActionView::CheckBareRepo { command: "test -d "@ + env.git_dir }] + (
    if env.bare_repo_exists {
        seq![]
    } else {
        seq![InitActionView::CreateBareRepo { command: "git init --bare "@ + env.git_dir }]
    }) + seq![
        InitActionView::ReadPostReceiveHook,
        InitActionView::UploadPostReceiveHook { command: hook_upload(env.git_dir, env.hook) },
        InitActionView::Finish { completed: true },
    ]
}

/// What a run of init does against `env`: it stops when the user
/// declines, and otherwise sets up the project, then the host.
pub open spec fn expected_run(env: InitEnv) -> Seq<InitActionView> {
    if !env.confirm {
        seq![InitActionView::Confirm, InitActionView::Finish { completed: false }]
    } else {
        local_actions(env) + remote_actions(env)
    }
}

/// The state at `stage` with `git_dir` and `hook`.
pub open spec fn at(stage: InitStage, git_dir: Seq<char>, hook: Seq<char>) -> InitView {
    InitView { stage, git_dir, hook }
}

proof fn lemma_run_remote(env: InitEnv, hook: Seq<char>, fuel: nat)
    requires
        fuel >= 6,
    ensures
        run_from(env, at(InitStage::Connecting, env.git_dir, hook), InitEventView::Completed, fuel)
            == remote_actions(env),
{
    let g = env.git_dir;
    let h = env.hook;
    let f1 = (fuel - 1) as nat;
    let f2 = (fuel - 2) as nat;
    let f3 = (fuel - 3) as nat;
    let f4 = (fuel - 4) as nat;
    let up = run_from(env, at(InitStage::Uploading, g, h), InitEventView::Completed, f3);
    let up2 = run_from(env, at(InitStage::Uploading, g, h), InitEventView::Completed, f4);
    assert(up == seq![InitActionView::Finish { completed: true }]);
    assert(up2 == seq![InitActionView::Finish { completed: true }]);
    let read = InitEventView::HookRead { content: h };
    let rd = run_from(env, at(InitStage::ReadingHook, g, hook), read, f2);
    let rd2 = run_from(env, at(InitStage::ReadingHook, g, hook), read, f3);
    assert(rd == seq![InitActionView::UploadPostReceiveHook { command: hook_upload(g, h) }] + up);
    assert(rd2 == seq![InitActionView::UploadPostReceiveHook { command: hook_upload(g, h) }] + up2);
    let ck = run_from(
        env,
        at(InitStage::CheckingBareRepo, g, hook),
        InitEventView::Observed { yes: env.bare_repo_exists },
        f1,
    );
    if env.bare_repo_exists {
        assert(ck == seq![InitActionView::ReadPostReceiveHook] + rd);
    } else {
        let cr = run_from(env, at(InitStage::CreatingBareRepo, g, hook), InitEventView::Completed, f2);
        assert(cr == seq![InitActionView::ReadPostReceiveHook] + rd2);
        assert(ck == seq![InitActionView::CreateBareRepo { command: "git init --bare "@ + g }] + cr);
    }
    assert(run_from(env, at(InitStage::Connecting, g, hook), InitEventView::Completed, fuel) == seq![
        InitActionView::CheckBareRepo { command: "test -d "@ + g },
    ] + ck);
    assert(run_from(env, at(InitStage::Connecting, g, hook), InitEventView::Completed, fuel)
        =~= remote_actions(env));
}

proof fn lemma_run_after_config(env: InitEnv, stage: InitStage, hook: Seq<char>, fuel: nat)
    requires
        fuel >= 10,
        stage == InitStage::LoadingConfig || stage == InitStage::AskingQuestions,
    ensures
        run_from(
            env,
            at(stage, seq![], hook),
            InitEventView::ConfigReady { git_dir: env.git_dir },
            fuel,
        ) == seq![
            InitActionView::ValidateRemote,
            InitActionView::SaveConfig,
            InitActionView::LinkPrePush,
            InitActionView::Connect,
        ] + remote_actions(env),
{
    let g = env.git_dir;
    let c = InitEventView::Completed;
    lemma_run_remote(env, hook, (fuel - 4) as nat);
    let r4 = run_from(env, at(InitStage::Connecting, g, hook), c, (fuel - 4) as nat);
    let r3 = run_from(env, at(InitStage::Linking, g, hook), c, (fuel - 3) as nat);
    assert(r3 == seq![InitActionView::Connect] + r4);
    let r2 = run_from(env, at(InitStage::Saving, g, hook), c, (fuel - 2) as nat);
    assert(r2 == seq![InitActionView::LinkPrePush] + r3);
    let r1 = run_from(env, at(InitStage::ValidatingRemote, g, hook), c, (fuel - 1) as nat);
    assert(r1 == seq![InitActionView::SaveConfig] + r2);
    assert(run_from(env, at(stage, seq![], hook), InitEventView::ConfigReady { git_dir: g }, fuel)
        == seq![InitActionView::ValidateRemote] + r1);
    assert(run_from(env, at(stage, seq![], hook), InitEventView::ConfigReady { git_dir: g }, fuel)
        =~= seq![
            InitActionView::ValidateRemote,
            InitActionView::SaveConfig,
            InitActionView::LinkPrePush,
            InitActionView::Connect,
        ] + remote_actions(env));
}

/// A run of init against `env` does exactly [`expected_run`].
pub proof fn lemma_init_run(env: InitEnv)
    ensures
        init_run(env) == expected_run(env),
{
    let e: Seq<char> = seq![];
    let c = InitEventView::Completed;
    let rest = seq![
        InitActionView::ValidateRemote,
        InitActionView::SaveConfig,
        InitActionView::LinkPrePush,
        InitActionView::Connect,
    ] + remote_actions(env);
    let r0 = run_from(env, at(InitStage::Start, e, e), c, 24);
    let r1 = run_from(
        env,
        at(InitStage::Confirming, e, e),
        InitEventView::Observed { yes: env.confirm },
        23,
    );
    assert(init_run(env) == r0);
    assert(r0 == seq![InitActionView::Confirm] + r1);
    if !env.confirm {
        assert(r1 == seq![InitActionView::Finish { completed: false }]);
        assert(r0 =~= expected_run(env));
    } else {
        let r2 = run_from(env, at(InitStage::OpeningRepo, e, e), c, 22);
        assert(r1 == seq![InitActionView::OpenRepo] + r2);
        let r3 = run_from(
            env,
            at(InitStage::CheckingBones, e, e),
            InitEventView::Observed { yes: env.bones_exists },
            21,
        );
        assert(r2 == seq![InitActionView::CheckBonesDir] + r3);
        let fa: nat = if env.bones_exists { 20 } else { 19 };
        let ru = run_from(env, at(InitStage::UpdatingGitignore, e, e), c, fa);
        if env.bones_exists {
            assert(r3 == seq![InitActionView::UpdateGitignore] + ru);
        } else {
            let rs = run_from(env, at(InitStage::Scaffolding, e, e), c, 20);
            assert(r3 == seq![InitActionView::Scaffold] + rs);
            assert(rs == seq![InitActionView::UpdateGitignore] + ru);
        }
        let fc: nat = (fa - 1) as nat;
        let rc = run_from(
            env,
            at(InitStage::CheckingConfig, e, e),
            InitEventView::Observed { yes: env.config_exists },
            fc,
        );
        assert(ru == seq![InitActionView::CheckConfig] + rc);
        let stage = if env.config_exists {
            InitStage::LoadingConfig
        } else {
            InitStage::AskingQuestions
        };
        let rg = run_from(
            env,
            at(stage, e, e),
            InitEventView::ConfigReady { git_dir: env.git_dir },
            (fc - 1) as nat,
        );
        lemma_run_after_config(env, stage, e, (fc - 1) as nat);
        if env.config_exists {
            assert(rc == seq![InitActionView::LoadConfig] + rg);
        } else {
            assert(rc == seq![InitActionView::AskQuestions] + rg);
        }
        assert(rg == rest);
        assert(r0 =~= expected_run(env));
    }
}

/// Re-running init is idempotent: once a run completed, a second run
/// against what it left writes no scaffold, asks no question, creates no
/// bare repository and has nothing to add to `.gitignore`; it loads the
/// saved configuration, relinks the same pre-push hook, uploads the same
/// post-receive hook and completes.
pub proof fn lemma_init_rerun(env: InitEnv)
    requires
        env.confirm,
    ensures
        init_run(env).last() == (InitActionView::Finish { completed: true }),
        init_run(settled(env)) == seq![
            InitActionView::Confirm,
            InitActionView::OpenRepo,
            InitActionView::CheckBonesDir,
            InitActionView::UpdateGitignore,
            InitActionView::CheckConfig,
            InitActionView::LoadConfig,
            InitActionView::ValidateRemote,
            InitActionView::SaveConfig,
            InitActionView::LinkPrePush,
            InitActionView::Connect,
            InitActionView::CheckBareRepo { command: "test -d "@ + env.git_dir },
            InitActionView::ReadPostReceiveHook,
            InitActionView::UploadPostReceiveHook { command: hook_upload(env.git_dir, env.hook) },
            InitActionView::Finish { completed: true },
        ],
        gitignore_update(settled(env).gitignore) is None,
{
    lemma_init_run(env);
    lemma_init_run(settled(env));
    assert(init_run(settled(env)) =~= seq![
        InitActionView::Confirm,
        InitActionView::OpenRepo,
        InitActionView::CheckBonesDir,
        InitActionView::UpdateGitignore,
        InitActionView::CheckConfig,
        InitActionView::LoadConfig,
        InitActionView::ValidateRemote,
        InitActionView::SaveConfig,
        InitActionView::LinkPrePush,
        InitActionView::Connect,
        InitActionView::CheckBareRepo { command: "test -d "@ + env.git_dir },
        InitActionView::ReadPostReceiveHook,
        InitActionView::UploadPostReceiveHook { command: hook_upload(env.git_dir, env.hook) },
        InitActionView::Finish { completed: true },
    ]);
    lemma_gitignore_idempotent(env.gitignore);
}

} // verus!
