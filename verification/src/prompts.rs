//! The questions `gitbones init` asks, one after another, and the
//! configuration built from the answers.
use vstd::prelude::*;
use vstd::string::*;
use crate::config::{BonesConfig, Data, PermissionDefaults, PathOverride, Permissions};
use crate::text::{str_concat, str_concat3, views};

verus! {

/// One question: its label, the answer given when the user just presses
/// enter, and a hint shown below it.
pub struct Prompt {
    pub label: String,
    pub default: Option<String>,
    pub help: Option<String>,
}

/// The content of a [`Prompt`].
pub struct PromptView {
    pub label: Seq<char>,
    pub default: Option<Seq<char>>,
    pub help: Option<Seq<char>>,
}

pub open spec fn opt_text(o: Option<String>) -> Option<Seq<char>> {
    match o {
        Some(s) => Some(s@),
        None => None,
    }
}

impl View for Prompt {
    type V = PromptView;

    open spec fn view(&self) -> PromptView {
        PromptView { label: self.label@, default: opt_text(self.default), help: opt_text(self.help) }
    }
}

/// The number of questions.
pub const PROMPT_COUNT: usize = 12;

pub open spec fn ask(label: Seq<char>, default: Option<Seq<char>>, help: Option<Seq<char>>) -> Option<
    PromptView,
> {
    Some(PromptView { label, default, help })
}

/// Question `k`, once the earlier ones got `answers`; `hint` is the
/// proposed project name. The bare repository and the worktree default
/// to paths named after the project name answered.
pub open spec fn prompt_for(hint: Seq<char>, answers: Seq<Seq<char>>, k: int) -> Option<PromptView> {
    if k == 0 {
        ask("Remote name:"@, Some("production"@), Some("e.g. production, staging"@))
    } else if k == 1 {
        ask("Project name:"@, Some(hint), None)
    } else if k == 2 {
        ask("Host:"@, None, Some("e.g. deploy.example.com"@))
    } else if k == 3 {
        ask("Port:"@, Some("22"@), None)
    } else if k == 4 {
        ask(
            "Git directory (bare repo path on remote):"@,
            Some("/home/git/"@ + answers[1] + ".git"@),
            None,
        )
    } else if k == 5 {
        ask("Worktree path on remote:"@, Some("/var/www/"@ + answers[1]), None)
    } else if k == 6 {
        ask("Branch:"@, Some("master"@), None)
    } else if k == 7 {
        ask("Deploy user (SSH user):"@, Some("git"@), None)
    } else if k == 8 {
        ask("Service user (final file owner):"@, Some("applications"@), None)
    } else if k == 9 {
        ask("Service group:"@, Some("www-data"@), None)
    } else if k == 10 {
        ask("Default directory mode:"@, Some("750"@), None)
    } else if k == 11 {
        ask("Default file mode:"@, Some("640"@), None)
    } else {
        None
    }
}

fn prompt(label: &str, default: Option<String>, help: Option<&str>) -> (p: Prompt)
    ensures
        p.label@ == label@,
        opt_text(p.default) == opt_text(default),
        p.help matches Some(h) ==> help matches Some(g) && h@ == g@,
        p.help is None ==> help is None,
{
    Prompt {
        label: label.to_string(),
        default,
        help: match help {
            Some(h) => Some(h.to_string()),
            None => None,
        },
    }
}

/// The next question to ask, after `answers`; `None` when all were
/// asked.
pub fn next_prompt(hint: &str, answers: &Vec<String>) -> (p: Option<Prompt>)
    ensures
        match p {
            Some(q) => prompt_for(hint@, views(answers@), answers@.len() as int) == Some(q@),
            None => prompt_for(hint@, views(answers@), answers@.len() as int) is None,
        },
{
    let k = answers.len();
    proof {
        if k > 1 {
            assert(views(answers@)[1] == answers@[1]@);
        }
    }
    if k == 0 {
        Some(prompt("Remote name:", Some("production".to_string()), Some("e.g. production, staging")))
    } else if k == 1 {
        Some(prompt("Project name:", Some(hint.to_string()), None))
    } else if k == 2 {
        Some(prompt("Host:", None, Some("e.g. deploy.example.com")))
    } else if k == 3 {
        Some(prompt("Port:", Some("22".to_string()), None))
    } else if k == 4 {
        let d = str_concat3("/home/git/", answers[1].as_str(), ".git");
        Some(prompt("Git directory (bare repo path on remote):", Some(d), None))
    } else if k == 5 {
        let d = str_concat("/var/www/", answers[1].as_str());
        Some(prompt("Worktree path on remote:", Some(d), None))
    } else if k == 6 {
        Some(prompt("Branch:", Some("master".to_string()), None))
    } else if k == 7 {
        Some(prompt("Deploy user (SSH user):", Some("git".to_string()), None))
    } else if k == 8 {
        Some(prompt("Service user (final file owner):", Some("applications".to_string()), None))
    } else if k == 9 {
        Some(prompt("Service group:", Some("www-data".to_string()), None))
    } else if k == 10 {
        Some(prompt("Default directory mode:", Some("750".to_string()), None))
    } else if k == 11 {
        Some(prompt("Default file mode:", Some("640".to_string()), None))
    } else {
        None
    }
}

/// The configuration that the answers make, each answer to its key in
/// the order the questions are asked, with no path overrides.
pub open spec fn config_from(cfg: &BonesConfig, a: Seq<Seq<char>>) -> bool {
    &&& cfg.data.remote_name@ == a[0]
    &&& cfg.data.project_name@ == a[1]
    &&& cfg.data.host@ == a[2]
    &&& cfg.data.port@ == a[3]
    &&& cfg.data.git_dir@ == a[4]
    &&& cfg.data.worktree@ == a[5]
    &&& cfg.data.branch@ == a[6]
    &&& cfg.permissions.defaults.deploy@ == a[7]
    &&& cfg.permissions.defaults.owner@ == a[8]
    &&& cfg.permissions.defaults.group@ == a[9]
    &&& cfg.permissions.defaults.dir_mode@ == a[10]
    &&& cfg.permissions.defaults.file_mode@ == a[11]
    &&& cfg.permissions.paths@.len() == 0
}

/// Builds the configuration from the answers to all the questions;
/// `None` unless there is exactly one answer per question.
pub fn collect(answers: Vec<String>) -> (r: Option<BonesConfig>)
    ensures
        r is Some <==> answers@.len() == PROMPT_COUNT,
        r matches Some(cfg) ==> config_from(&cfg, views(answers@)),
{
    if answers.len() != PROMPT_COUNT {
        return None;
    }
    let ghost a = views(answers@);
    let mut answers = answers;
    let file_mode = answers.pop().unwrap();
    let dir_mode = answers.pop().unwrap();
    let group = answers.pop().unwrap();
    let owner = answers.pop().unwrap();
    let deploy = answers.pop().unwrap();
    let branch = answers.pop().unwrap();
    let worktree = answers.pop().unwrap();
    let git_dir = answers.pop().unwrap();
    let port = answers.pop().unwrap();
    let host = answers.pop().unwrap();
    let project_name = answers.pop().unwrap();
    let remote_name = answers.pop().unwrap();
    let paths: Vec<PathOverride> = Vec::new();
    let cfg = BonesConfig {
        data: Data { remote_name, project_name, host, port, git_dir, worktree, branch },
        permissions: Permissions {
            defaults: PermissionDefaults { deploy, owner, group, dir_mode, file_mode },
            paths,
        },
    };
    Some(cfg)
}

/// Every answer, but the host's, is the default that its question
/// offered.
pub open spec fn takes_defaults(hint: Seq<char>, answers: Seq<Seq<char>>) -> bool {
    &&& answers.len() == PROMPT_COUNT
    &&& forall|k: int|
        0 <= k < PROMPT_COUNT && k != 2 ==> (#[trigger] prompt_for(hint, answers, k)).unwrap().default
            == Some(answers[k])
}

/// Accepting the defaults gives the documented configuration: remote
/// `production`, port 22, the bare repository at
/// `/home/git/{project}.git` and the worktree at `/var/www/{project}`,
/// branch `master`, deploy user `git`, files owned by
/// `applications:www-data` with modes 750 and 640.
pub proof fn lemma_default_answers(hint: Seq<char>, answers: Seq<Seq<char>>)
    requires
        takes_defaults(hint, answers),
    ensures
        answers[0] == "production"@,
        answers[1] == hint,
        answers[3] == "22"@,
        answers[4] == "/home/git/"@ + hint + ".git"@,
        answers[5] == "/var/www/"@ + hint,
        answers[6] == "master"@,
        answers[7] == "git"@,
        answers[8] == "applications"@,
        answers[9] == "www-data"@,
        answers[10] == "750"@,
        answers[11] == "640"@,
{
    assert(prompt_for(hint, answers, 0).unwrap().default == Some(answers[0]));
    assert(prompt_for(hint, answers, 1).unwrap().default == Some(answers[1]));
    assert(prompt_for(hint, answers, 3).unwrap().default == Some(answers[3]));
    assert(prompt_for(hint, answers, 4).unwrap().default == Some(answers[4]));
    assert(prompt_for(hint, answers, 5).unwrap().default == Some(answers[5]));
    assert(prompt_for(hint, answers, 6).unwrap().default == Some(answers[6]));
    assert(prompt_for(hint, answers, 7).unwrap().default == Some(answers[7]));
    assert(prompt_for(hint, answers, 8).unwrap().default == Some(answers[8]));
    assert(prompt_for(hint, answers, 9).unwrap().default == Some(answers[9]));
    assert(prompt_for(hint, answers, 10).unwrap().default == Some(answers[10]));
    assert(prompt_for(hint, answers, 11).unwrap().default == Some(answers[11]));
}

} // verus!
