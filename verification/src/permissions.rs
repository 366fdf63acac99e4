//! File ownership and modes on the deployment host.
//!
//! Before the deployment scripts run, the worktree is handed to the
//! deploy user; afterwards it is hardened back: ownership to the service
//! user and group, the default directory and file modes, then each path
//! override in order. The host's file system is touched by the caller:
//! these functions decide which operation comes next and what is
//! reported, from the configuration and from what the caller observed.
use vstd::prelude::*;
use vstd::string::*;
use crate::config::{BonesConfig, PathOverride};
use crate::num::{digits_of, format_unsigned, lemma_digits_round_trip, parse_unsigned, parse_unsigned_str, unsigned_body};
use crate::paths::{join, join_path};
use crate::text::{str_concat, str_concat3, str_eq, views};

verus! {

/// The value of an octal mode string, as `u32::from_str_radix(s, 8)`
/// reads it.
pub open spec fn mode_value(s: Seq<char>) -> Option<nat> {
    parse_unsigned(s, 8, 0xffff_ffff)
}

/// Why hardening stopped.
pub enum PermissionError {
    /// A mode that is not an octal number fitting in 32 bits.
    InvalidMode { mode: String },
    /// A `type` other than `"dir"` or `"file"`.
    UnknownPathType { path_type: String },
}

/// The text of a [`PermissionError`].
pub enum ErrorView {
    InvalidMode(Seq<char>),
    UnknownPathType(Seq<char>),
}

impl View for PermissionError {
    type V = ErrorView;

    open spec fn view(&self) -> ErrorView {
        match self {
            PermissionError::InvalidMode { mode } => ErrorView::InvalidMode(mode@),
            PermissionError::UnknownPathType { path_type } => ErrorView::UnknownPathType(
                path_type@,
            ),
        }
    }
}

/// The message of an error, as it is reported.
pub open spec fn error_message(e: ErrorView) -> Seq<char> {
    match e {
        ErrorView::InvalidMode(m) => "Invalid mode: "@ + m,
        ErrorView::UnknownPathType(t) => "Unknown path type: "@ + t,
    }
}

impl PermissionError {
    pub fn message(&self) -> (m: String)
        ensures
            m@ == error_message(self@),
    {
        match self {
            PermissionError::InvalidMode { mode } => str_concat("Invalid mode: ", mode.as_str()),
            PermissionError::UnknownPathType { path_type } => str_concat(
                "Unknown path type: ",
                path_type.as_str(),
            ),
        }
    }
}

/// Reads an octal mode such as `"750"`.
pub fn parse_mode(mode_str: &str) -> (r: Result<u32, PermissionError>)
    ensures
        r is Ok <==> mode_value(mode_str@) is Some,
        r matches Ok(m) ==> mode_value(mode_str@) == Some(m as nat),
        r matches Err(e) ==> e@ == ErrorView::InvalidMode(mode_str@),
{
    match parse_unsigned_str(mode_str, 8, 0xffff_ffff) {
        Some(v) => Ok(v as u32),
        None => Err(PermissionError::InvalidMode { mode: mode_str.to_string() }),
    }
}

/// A mode written in octal, as `{:o}` prints it.
pub fn format_mode(mode: u32) -> (s: String)
    ensures
        s@ == digits_of(mode as nat, 8),
{
    format_unsigned(mode as u64, 8)
}

/// Reading back a mode written in octal gives the mode.
pub proof fn lemma_mode_round_trip(mode: u32)
    ensures
        mode_value(digits_of(mode as nat, 8)) == Some(mode as nat),
{
    lemma_digits_round_trip(mode as nat, 8);
    assert(unsigned_body(digits_of(mode as nat, 8)) == digits_of(mode as nat, 8));
}

/// The `user:group` argument of `chown`.
pub open spec fn ownership_of(user: Seq<char>, group: Seq<char>) -> Seq<char> {
    user + ":"@ + group
}

/// One operation on the host's file system, or the end of the run.
pub enum HardenOp {
    /// Create a directory and its parents.
    CreateDir { path: String },
    /// Run `chown`, with `-R` when `recursive`.
    Chown { ownership: String, path: String, recursive: bool },
    /// Walk `root`, following symlinks, and give every directory
    /// `dir_mode` and everything else `file_mode`.
    ApplyDefaultModes { root: String, dir_mode: u32, file_mode: u32 },
    /// Look whether `path` exists, and answer with
    /// [`HardenEvent::TargetChecked`].
    CheckExists { path: String },
    /// Give `path` and everything under it `mode`.
    ApplyRecursiveMode { path: String, mode: u32 },
    /// Give `path` alone `mode`.
    ApplySingleMode { path: String, mode: u32 },
    /// Everything is done.
    Finish,
    /// Stop with an error.
    Fail { error: PermissionError },
}

/// The content of a [`HardenOp`].
pub enum OpView {
    CreateDir(Seq<char>),
    Chown(Seq<char>, Seq<char>, bool),
    ApplyDefaultModes(Seq<char>, u32, u32),
    CheckExists(Seq<char>),
    ApplyRecursiveMode(Seq<char>, u32),
    ApplySingleMode(Seq<char>, u32),
    Finish,
    Fail(ErrorView),
}

impl View for HardenOp {
    type V = OpView;

    open spec fn view(&self) -> OpView {
        match self {
            HardenOp::CreateDir { path } => OpView::CreateDir(path@),
            HardenOp::Chown { ownership, path, recursive } => OpView::Chown(
                ownership@,
                path@,
                *recursive,
            ),
            HardenOp::ApplyDefaultModes { root, dir_mode, file_mode } => OpView::ApplyDefaultModes(
                root@,
                *dir_mode,
                *file_mode,
            ),
            HardenOp::CheckExists { path } => OpView::CheckExists(path@),
            HardenOp::ApplyRecursiveMode { path, mode } => OpView::ApplyRecursiveMode(
                path@,
                *mode,
            ),
            HardenOp::ApplySingleMode { path, mode } => OpView::ApplySingleMode(path@, *mode),
            HardenOp::Finish => OpView::Finish,
            HardenOp::Fail { error } => OpView::Fail(error@),
        }
    }
}

/// A line to print, then an operation to perform.
pub struct HardenStep {
    /// Reports what the previous operation did; printed before `op`.
    pub note: Option<String>,
    pub op: HardenOp,
}

/// The content of a [`HardenStep`].
pub struct StepView {
    pub note: Option<Seq<char>>,
    pub op: OpView,
}

impl View for HardenStep {
    type V = StepView;

    open spec fn view(&self) -> StepView {
        StepView {
            note: match self.note {
                Some(n) => Some(n@),
                None => None,
            },
            op: self.op@,
        }
    }
}

/// Gives `path` alone `mode`.
pub fn apply_single_mode(path: &str, mode: u32) -> (op: HardenOp)
    ensures
        op@ == OpView::ApplySingleMode(path@, mode),
{
    HardenOp::ApplySingleMode { path: path.to_string(), mode }
}

/// Gives `path` and everything under it `mode`.
pub fn apply_recursive_mode(path: &str, mode: u32) -> (op: HardenOp)
    ensures
        op@ == OpView::ApplyRecursiveMode(path@, mode),
{
    HardenOp::ApplyRecursiveMode { path: path.to_string(), mode }
}

/// Gives the directories under `root` `dir_mode` and everything else
/// `file_mode`.
pub fn apply_default_modes(root: &str, dir_mode: u32, file_mode: u32) -> (op: HardenOp)
    ensures
        op@ == OpView::ApplyDefaultModes(root@, dir_mode, file_mode),
{
    HardenOp::ApplyDefaultModes { root: root.to_string(), dir_mode, file_mode }
}

/// The mode that the default walk gives one entry: symlinks are
/// followed, so a link to a directory counts as a directory.
pub fn entry_mode(is_dir: bool, dir_mode: u32, file_mode: u32) -> (m: u32)
    ensures
        m == if is_dir {
            dir_mode
        } else {
            file_mode
        },
{
    if is_dir {
        dir_mode
    } else {
        file_mode
    }
}

/// The arguments of the `chown` command.
pub fn chown_args(ownership: &str, path: &str, recursive: bool) -> (args: Vec<String>)
    ensures
        views(args@) == if recursive {
            seq!["-R"@, ownership@, path@]
        } else {
            seq![ownership@, path@]
        },
{
    let mut args: Vec<String> = Vec::new();
    if recursive {
        args.push("-R".to_string());
    }
    args.push(ownership.to_string());
    args.push(path.to_string());
    proof {
        assert(views(args@) =~= if recursive {
            seq!["-R"@, ownership@, path@]
        } else {
            seq![ownership@, path@]
        });
    }
    args
}

/// The error when `chown` could not be started.
pub fn chown_spawn_error(path: &str) -> (m: String)
    ensures
        m@ == "Failed to chown "@ + path@,
{
    str_concat("Failed to chown ", path)
}

/// The error when `chown` exited unsuccessfully.
pub fn chown_failed_error(ownership: &str, path: &str) -> (m: String)
    ensures
        m@ == "chown "@ + ownership@ + " "@ + path@ + " failed"@,
{
    let mut m = str_concat3("chown ", ownership, " ");
    m.append(path);
    m.append(" failed");
    m
}

/// The error when a mode could not be set on `path`; `cause` is the
/// system's own message.
pub fn chmod_error(mode: u32, path: &str, cause: &str) -> (m: String)
    ensures
        m@ == "chmod "@ + digits_of(mode as nat, 8) + " "@ + path@ + ": "@ + cause@,
{
    let mut m = str_concat("chmod ", format_mode(mode).as_str());
    m.append(" ");
    m.append(path);
    m.append(": ");
    m.append(cause);
    m
}

/// The error when the default walk could not read below `root`.
pub fn walk_error(root: &str) -> (m: String)
    ensures
        m@ == "Failed to walk "@ + root@,
{
    str_concat("Failed to walk ", root)
}

/// The error when the metadata of `path` could not be read.
pub fn metadata_error(path: &str) -> (m: String)
    ensures
        m@ == "Failed to read metadata for "@ + path@,
{
    str_concat("Failed to read metadata for ", path)
}

/// The error when the worktree could not be created.
pub fn create_worktree_error(path: &str) -> (m: String)
    ensures
        m@ == "Failed to create worktree directory: "@ + path@,
{
    str_concat("Failed to create worktree directory: ", path)
}


/// Where hardening stands.
#[derive(Clone, Copy, PartialEq, Eq, Structural)]
pub enum HardenState {
    /// Nothing done yet.
    Start,
    /// The default ownership was set.
    OwnershipSet,
    /// The default modes were applied.
    DefaultModesSet,
    /// Waiting to learn whether the target of override `index` exists.
    Checking { index: usize },
    /// The mode of override `index` was applied.
    Applied { index: usize },
    /// Nothing is left to do.
    Done,
}

/// What the caller observed after performing the last operation.
#[derive(Clone, Copy, PartialEq, Eq, Structural)]
pub enum HardenEvent {
    /// The operation succeeded.
    Completed,
    /// The answer to [`HardenOp::CheckExists`].
    TargetChecked { exists: bool },
}

/// The path that override `i` names, under the worktree.
pub open spec fn override_target(cfg: &BonesConfig, i: int) -> Seq<char> {
    join_path(cfg.data.worktree@, cfg.permissions.paths@[i].path@)
}

/// The next override to look at from `k` on: check that its target
/// exists, or finish when there is none left.
pub open spec fn begin_override(cfg: &BonesConfig, k: int) -> (HardenState, OpView) {
    if 0 <= k < cfg.permissions.paths@.len() {
        (HardenState::Checking { index: k as usize }, OpView::CheckExists(override_target(cfg, k)))
    } else {
        (HardenState::Done, OpView::Finish)
    }
}

/// What override `i` does to its existing target: its mode, on the whole
/// tree when `recursive`, else on the path alone when its type is absent,
/// `"dir"` or `"file"`.
pub open spec fn override_op(cfg: &BonesConfig, i: int) -> Result<OpView, ErrorView> {
    let o = cfg.permissions.paths@[i];
    match mode_value(o.mode@) {
        None => Err(ErrorView::InvalidMode(o.mode@)),
        Some(m) => if o.recursive {
            Ok(OpView::ApplyRecursiveMode(override_target(cfg, i), m as u32))
        } else {
            match o.path_type {
                None => Ok(OpView::ApplySingleMode(override_target(cfg, i), m as u32)),
                Some(t) => if t@ == "dir"@ || t@ == "file"@ {
                    Ok(OpView::ApplySingleMode(override_target(cfg, i), m as u32))
                } else {
                    Err(ErrorView::UnknownPathType(t@))
                },
            }
        },
    }
}

pub open spec fn set_ownership_note(worktree: Seq<char>, ownership: Seq<char>) -> Seq<char> {
    "Set ownership of "@ + worktree + " to "@ + ownership
}

pub open spec fn default_modes_note(dir_mode: Seq<char>, file_mode: Seq<char>) -> Seq<char> {
    "Applied default modes: dirs="@ + dir_mode + ", files="@ + file_mode
}

pub open spec fn missing_note(target: Seq<char>) -> Seq<char> {
    "Warning: override path '"@ + target + "' does not exist, skipping"@
}

pub open spec fn applied_note(o: PathOverride) -> Seq<char> {
    "Applied mode "@ + o.mode@ + " to "@ + o.path@ + if o.recursive {
        " (recursive)"@
    } else {
        seq![]
    }
}

/// One step of hardening: from where it stands and what was observed,
/// the next state and what to print and do.
///
/// Ownership goes to `owner:group` over the whole worktree; then the
/// default modes, unless one of them is not octal; then each override in
/// order: a missing target is reported and skipped, an existing one gets
/// its mode, and a bad mode or type stops the run.
pub open spec fn harden_transition(cfg: &BonesConfig, state: HardenState, event: HardenEvent) -> (
    HardenState,
    StepView,
) {
    let n = cfg.permissions.paths@.len();
    let d = cfg.permissions.defaults;
    let wt = cfg.data.worktree@;
    match state {
        HardenState::Start => (
            HardenState::OwnershipSet,
            StepView { note: None, op: OpView::Chown(ownership_of(d.owner@, d.group@), wt, true) },
        ),
        HardenState::OwnershipSet => {
            let note = Some(set_ownership_note(wt, ownership_of(d.owner@, d.group@)));
            match (mode_value(d.dir_mode@), mode_value(d.file_mode@)) {
                (Some(dm), Some(fm)) => (
                    HardenState::DefaultModesSet,
                    StepView { note, op: OpView::ApplyDefaultModes(wt, dm as u32, fm as u32) },
                ),
                (None, _) => (
                    HardenState::Done,
                    StepView { note, op: OpView::Fail(ErrorView::InvalidMode(d.dir_mode@)) },
                ),
                (Some(_), None) => (
                    HardenState::Done,
                    StepView { note, op: OpView::Fail(ErrorView::InvalidMode(d.file_mode@)) },
                ),
            }
        },
        HardenState::DefaultModesSet => {
            let next = begin_override(cfg, 0);
            (
                next.0,
                StepView {
                    note: Some(default_modes_note(d.dir_mode@, d.file_mode@)),
                    op: next.1,
                },
            )
        },
        HardenState::Checking { index } => if index >= n {
            (HardenState::Done, StepView { note: None, op: OpView::Finish })
        } else {
            match event {
                HardenEvent::Completed => (
                    state,
                    StepView {
                        note: None,
                        op: OpView::CheckExists(override_target(cfg, index as int)),
                    },
                ),
                HardenEvent::TargetChecked { exists } => if exists {
                    match override_op(cfg, index as int) {
                        Ok(op) => (HardenState::Applied { index }, StepView { note: None, op }),
                        Err(e) => (HardenState::Done, StepView { note: None, op: OpView::Fail(e) }),
                    }
                } else {
                    let next = begin_override(cfg, index + 1);
                    (
                        next.0,
                        StepView {
                            note: Some(missing_note(override_target(cfg, index as int))),
                            op: next.1,
                        },
                    )
                },
            }
        },
        HardenState::Applied { index } => if index >= n {
            (HardenState::Done, StepView { note: None, op: OpView::Finish })
        } else {
            let next = begin_override(cfg, index + 1);
            (
                next.0,
                StepView {
                    note: Some(applied_note(cfg.permissions.paths@[index as int])),
                    op: next.1,
                },
            )
        },
        HardenState::Done => (HardenState::Done, StepView { note: None, op: OpView::Finish }),
    }
}

fn begin_override_exec(cfg: &BonesConfig, k: usize) -> (r: (HardenState, HardenOp))
    ensures
        (r.0, r.1@) == begin_override(cfg, k as int),
{
    if k < cfg.permissions.paths.len() {
        let target = join(cfg.data.worktree.as_str(), cfg.permissions.paths[k].path.as_str());
        (HardenState::Checking { index: k }, HardenOp::CheckExists { path: target })
    } else {
        (HardenState::Done, HardenOp::Finish)
    }
}

fn override_op_exec(cfg: &BonesConfig, i: usize) -> (r: Result<HardenOp, PermissionError>)
    requires
        i < cfg.permissions.paths@.len(),
    ensures
        match r {
            Ok(op) => override_op(cfg, i as int) == Ok::<OpView, ErrorView>(op@),
            Err(e) => override_op(cfg, i as int) == Err::<OpView, ErrorView>(e@),
        },
{
    let o = &cfg.permissions.paths[i];
    let mode = match parse_mode(o.mode.as_str()) {
        Ok(m) => m,
        Err(e) => {
            return Err(e);
        },
    };
    let target = join(cfg.data.worktree.as_str(), o.path.as_str());
    if o.recursive {
        return Ok(apply_recursive_mode(target.as_str(), mode));
    }
    match &o.path_type {
        None => Ok(apply_single_mode(target.as_str(), mode)),
        Some(t) => {
            if str_eq(t.as_str(), "dir") || str_eq(t.as_str(), "file") {
                Ok(apply_single_mode(target.as_str(), mode))
            } else {
                Err(PermissionError::UnknownPathType { path_type: t.clone() })
            }
        },
    }
}

/// Performs one step of [`harden_transition`].
pub fn harden_step(cfg: &BonesConfig, state: HardenState, event: HardenEvent) -> (r: (
    HardenState,
    HardenStep,
))
    ensures
        (r.0, r.1@) == harden_transition(cfg, state, event),
{
    let d = &cfg.permissions.defaults;
    let wt = cfg.data.worktree.as_str();
    let n = cfg.permissions.paths.len();
    match state {
        HardenState::Start => {
            let ownership = str_concat3(d.owner.as_str(), ":", d.group.as_str());
            (
                HardenState::OwnershipSet,
                HardenStep {
                    note: None,
                    op: HardenOp::Chown { ownership, path: wt.to_string(), recursive: true },
                },
            )
        },
        HardenState::OwnershipSet => {
            let ownership = str_concat3(d.owner.as_str(), ":", d.group.as_str());
            let mut note = str_concat3("Set ownership of ", wt, " to ");
            note.append(ownership.as_str());
            let dm = match parse_mode(d.dir_mode.as_str()) {
                Ok(m) => m,
                Err(e) => {
                    return (
                        HardenState::Done,
                        HardenStep { note: Some(note), op: HardenOp::Fail { error: e } },
                    );
                },
            };
            let fm = match parse_mode(d.file_mode.as_str()) {
                Ok(m) => m,
                Err(e) => {
                    return (
                        HardenState::Done,
                        HardenStep { note: Some(note), op: HardenOp::Fail { error: e } },
                    );
                },
            };
            (
                HardenState::DefaultModesSet,
                HardenStep { note: Some(note), op: apply_default_modes(wt, dm, fm) },
            )
        },
        HardenState::DefaultModesSet => {
            let mut note = str_concat3(
                "Applied default modes: dirs=",
                d.dir_mode.as_str(),
                ", files=",
            );
            note.append(d.file_mode.as_str());
            let (s, op) = begin_override_exec(cfg, 0);
            (s, HardenStep { note: Some(note), op })
        },
        HardenState::Checking { index } => {
            if index >= n {
                return (HardenState::Done, HardenStep { note: None, op: HardenOp::Finish });
            }
            match event {
                HardenEvent::Completed => {
                    let target = join(wt, cfg.permissions.paths[index].path.as_str());
                    (state, HardenStep { note: None, op: HardenOp::CheckExists { path: target } })
                },
                HardenEvent::TargetChecked { exists } => {
                    if exists {
                        match override_op_exec(cfg, index) {
                            Ok(op) => (HardenState::Applied { index }, HardenStep { note: None, op }),
                            Err(e) => (
                                HardenState::Done,
                                HardenStep { note: None, op: HardenOp::Fail { error: e } },
                            ),
                        }
                    } else {
                        let target = join(wt, cfg.permissions.paths[index].path.as_str());
                        let note = str_concat3(
                            "Warning: override path '",
                            target.as_str(),
                            "' does not exist, skipping",
                        );
                        let (s, op) = begin_override_exec(cfg, index + 1);
                        (s, HardenStep { note: Some(note), op })
                    }
                },
            }
        },
        HardenState::Applied { index } => {
            if index >= n {
                return (HardenState::Done, HardenStep { note: None, op: HardenOp::Finish });
            }
            let o = &cfg.permissions.paths[index];
            let mut note = str_concat3("Applied mode ", o.mode.as_str(), " to ");
            note.append(o.path.as_str());
            if o.recursive {
                note.append(" (recursive)");
            } else {
                proof {
                    assert(note@ + Seq::<char>::empty() =~= note@);
                }
            }
            let (s, op) = begin_override_exec(cfg, index + 1);
            (s, HardenStep { note: Some(note), op })
        },
        HardenState::Done => (HardenState::Done, HardenStep { note: None, op: HardenOp::Finish }),
    }
}


/// How far hardening is from its end: each answered step brings it
/// closer, until it finishes.
pub open spec fn harden_measure(cfg: &BonesConfig, state: HardenState) -> nat {
    let n = cfg.permissions.paths@.len();
    match state {
        HardenState::Start => 2 * n + 4,
        HardenState::OwnershipSet => 2 * n + 3,
        HardenState::DefaultModesSet => 2 * n + 2,
        HardenState::Checking { index } => if index < n {
            (2 * (n - index) + 1) as nat
        } else {
            0
        },
        HardenState::Applied { index } => if index < n {
            (2 * (n - index)) as nat
        } else {
            0
        },
        HardenState::Done => 0,
    }
}

/// The event answers the operation that the state is waiting on: a
/// check of existence while checking, a completion otherwise.
pub open spec fn answers(state: HardenState, event: HardenEvent) -> bool {
    match state {
        HardenState::Checking { .. } => event is TargetChecked,
        _ => event is Completed,
    }
}

/// Hardening always ends: every answered step either finishes or gets
/// strictly closer to the end, and it finishes once nothing is left.
pub proof fn lemma_harden_terminates(cfg: &BonesConfig, state: HardenState, event: HardenEvent)
    requires
        answers(state, event),
        cfg.permissions.paths@.len() <= usize::MAX,
    ensures
        harden_transition(cfg, state, event).1.op is Finish || harden_measure(
            cfg,
            harden_transition(cfg, state, event).0,
        ) < harden_measure(cfg, state),
        harden_measure(cfg, state) == 0 ==> harden_transition(cfg, state, event).1.op is Finish,
{
    let n = cfg.permissions.paths@.len();
    match state {
        HardenState::Checking { index } => {
            if index < n {
                let next = begin_override(cfg, index + 1);
                if index + 1 < n {
                    assert(next.0 == HardenState::Checking { index: (index + 1) as usize });
                }
            }
        },
        HardenState::Applied { index } => {
            if index < n {
                let next = begin_override(cfg, index + 1);
                if index + 1 < n {
                    assert(next.0 == HardenState::Checking { index: (index + 1) as usize });
                }
            }
        },
        HardenState::DefaultModesSet => {
            let next = begin_override(cfg, 0);
            if 0 < n {
                assert(next.0 == HardenState::Checking { index: 0 });
            }
        },
        _ => {},
    }
}

/// The steps that hand the worktree to the deploy user: create the
/// worktree when it is missing, then `chown -R deploy:deploy` it.
pub open spec fn deploy_steps(cfg: &BonesConfig, worktree_exists: bool) -> Seq<StepView> {
    let wt = cfg.data.worktree@;
    let u = cfg.permissions.defaults.deploy@;
    let chown = OpView::Chown(ownership_of(u, u), wt, true);
    let done = StepView {
        note: Some("Changed ownership of "@ + wt + " to "@ + u),
        op: OpView::Finish,
    };
    if worktree_exists {
        seq![StepView { note: None, op: chown }, done]
    } else {
        seq![
            StepView { note: None, op: OpView::CreateDir(wt) },
            StepView { note: Some("Created worktree directory: "@ + wt), op: chown },
            done,
        ]
    }
}

/// The views of a list of steps.
pub open spec fn step_views(v: Seq<HardenStep>) -> Seq<StepView> {
    v.map_values(|s: HardenStep| s@)
}

/// Hands the worktree to the deploy user before the deployment scripts
/// run; `worktree_exists` is whether the worktree is already there.
pub fn chown_to_deploy_user(cfg: &BonesConfig, worktree_exists: bool) -> (steps: Vec<HardenStep>)
    ensures
        step_views(steps@) == deploy_steps(cfg, worktree_exists),
{
    let wt = cfg.data.worktree.as_str();
    let user = cfg.permissions.defaults.deploy.as_str();
    let mut steps: Vec<HardenStep> = Vec::new();
    let mut chown_note: Option<String> = None;
    if !worktree_exists {
        steps.push(HardenStep { note: None, op: HardenOp::CreateDir { path: wt.to_string() } });
        chown_note = Some(str_concat("Created worktree directory: ", wt));
    }
    let ownership = str_concat3(user, ":", user);
    steps.push(
        HardenStep {
            note: chown_note,
            op: HardenOp::Chown { ownership, path: wt.to_string(), recursive: true },
        },
    );
    let mut done = str_concat3("Changed ownership of ", wt, " to ");
    done.append(user);
    steps.push(HardenStep { note: Some(done), op: HardenOp::Finish });
    proof {
        assert(step_views(steps@) =~= deploy_steps(cfg, worktree_exists));
    }
    steps
}

/// Ownership changes hands twice over one deployment, on the same tree:
/// before the scripts run the whole worktree goes to `deploy:deploy`,
/// and hardening first gives the whole worktree back to `owner:group`.
pub proof fn lemma_ownership_hand_over(cfg: &BonesConfig, worktree_exists: bool)
    ensures
        ({
            let steps = deploy_steps(cfg, worktree_exists);
            &&& steps.last().op is Finish
            &&& steps[steps.len() - 2].op == OpView::Chown(
                ownership_of(
                    cfg.permissions.defaults.deploy@,
                    cfg.permissions.defaults.deploy@,
                ),
                cfg.data.worktree@,
                true,
            )
        }),
        harden_transition(cfg, HardenState::Start, HardenEvent::Completed).1.op == OpView::Chown(
            ownership_of(cfg.permissions.defaults.owner@, cfg.permissions.defaults.group@),
            cfg.data.worktree@,
            true,
        ),
{
}

/// The event that answers `op` where `present` tells which paths exist.
pub open spec fn harden_answer(present: spec_fn(Seq<char>) -> bool, op: OpView) -> HardenEvent {
    match op {
        OpView::CheckExists(path) => HardenEvent::TargetChecked { exists: present(path) },
        _ => HardenEvent::Completed,
    }
}

/// What hardening does from `state` and `event` on, each operation
/// succeeding and `present` telling which paths exist: its operations
/// but the existence checks, up to and including `Finish` or `Fail`, over
/// at most `fuel` steps.
pub open spec fn effects_from(
    cfg: &BonesConfig,
    present: spec_fn(Seq<char>) -> bool,
    state: HardenState,
    event: HardenEvent,
    fuel: nat,
) -> Seq<OpView>
    decreases fuel,
{
    if fuel == 0 {
        seq![]
    } else {
        let (next, step) = harden_transition(cfg, state, event);
        if step.op is Finish || step.op is Fail {
            seq![step.op]
        } else {
            let rest = effects_from(
                cfg,
                present,
                next,
                harden_answer(present, step.op),
                (fuel - 1) as nat,
            );
            if step.op is CheckExists {
                rest
            } else {
                seq![step.op] + rest
            }
        }
    }
}

/// What a whole run of hardening does to the host, `present` telling
/// which paths exist: the ownership and mode changes in order, then
/// `Finish` or the `Fail` that stops it.
pub open spec fn harden_effects(cfg: &BonesConfig, present: spec_fn(Seq<char>) -> bool) -> Seq<
    OpView,
> {
    effects_from(
        cfg,
        present,
        HardenState::Start,
        HardenEvent::Completed,
        harden_measure(cfg, HardenState::Start) + 1,
    )
}

/// Each step that does not end the run leaves hardening waiting on the
/// operation it asked for.
proof fn lemma_next_answers(
    cfg: &BonesConfig,
    present: spec_fn(Seq<char>) -> bool,
    state: HardenState,
    event: HardenEvent,
)
    requires
        cfg.permissions.paths@.len() <= usize::MAX,
    ensures
        ({
            let (next, step) = harden_transition(cfg, state, event);
            !(step.op is Finish || step.op is Fail) ==> answers(next, harden_answer(present, step.op))
        }),
{
    let n = cfg.permissions.paths@.len();
    match state {
        HardenState::Checking { index } => {
            if index < n {
                if index + 1 < n {
                    assert(begin_override(cfg, index + 1).0 == HardenState::Checking {
                        index: (index + 1) as usize,
                    });
                }
            }
        },
        HardenState::Applied { index } => {
            if index < n {
                if index + 1 < n {
                    assert(begin_override(cfg, index + 1).0 == HardenState::Checking {
                        index: (index + 1) as usize,
                    });
                }
            }
        },
        _ => {},
    }
}

/// Any fuel beyond the measure gives the whole run.
proof fn lemma_effects_fuel(
    cfg: &BonesConfig,
    present: spec_fn(Seq<char>) -> bool,
    state: HardenState,
    event: HardenEvent,
    f1: nat,
    f2: nat,
)
    requires
        answers(state, event),
        cfg.permissions.paths@.len() <= usize::MAX,
        f1 > harden_measure(cfg, state),
        f2 > harden_measure(cfg, state),
    ensures
        effects_from(cfg, present, state, event, f1) == effects_from(cfg, present, state, event, f2),
        effects_from(cfg, present, state, event, f1).len() > 0,
        effects_from(cfg, present, state, event, f1).last() is Finish || effects_from(
            cfg,
            present,
            state,
            event,
            f1,
        ).last() is Fail,
    decreases f1,
{
    let (next, step) = harden_transition(cfg, state, event);
    lemma_harden_terminates(cfg, state, event);
    if !(step.op is Finish || step.op is Fail) {
        lemma_next_answers(cfg, present, state, event);
        let ev = harden_answer(present, step.op);
        lemma_effects_fuel(cfg, present, next, ev, (f1 - 1) as nat, (f2 - 1) as nat);
        let rest = effects_from(cfg, present, next, ev, (f1 - 1) as nat);
        if !(step.op is CheckExists) {
            assert((seq![step.op] + rest).last() == rest.last());
        }
    }
}

/// Hardening always runs to its end: its effects finish with `Finish` or
/// with the `Fail` that stopped it.
pub proof fn lemma_harden_effects_end(cfg: &BonesConfig, present: spec_fn(Seq<char>) -> bool)
    requires
        cfg.permissions.paths@.len() <= usize::MAX,
    ensures
        harden_effects(cfg, present).len() > 0,
        harden_effects(cfg, present).last() is Finish || harden_effects(cfg, present).last() is Fail,
{
    let m = harden_measure(cfg, HardenState::Start) + 1;
    lemma_effects_fuel(cfg, present, HardenState::Start, HardenEvent::Completed, m, m);
}

/// The effects of the whole run from `state` and `event`.
pub open spec fn effects(
    cfg: &BonesConfig,
    present: spec_fn(Seq<char>) -> bool,
    state: HardenState,
    event: HardenEvent,
) -> Seq<OpView> {
    effects_from(cfg, present, state, event, harden_measure(cfg, state) + 1)
}

/// The effects from the step that moved on to override `i`.
pub open spec fn effects_at(cfg: &BonesConfig, present: spec_fn(Seq<char>) -> bool, i: int) -> Seq<
    OpView,
> {
    if 0 <= i < cfg.permissions.paths@.len() {
        effects(
            cfg,
            present,
            HardenState::Checking { index: i as usize },
            HardenEvent::TargetChecked { exists: present(override_target(cfg, i)) },
        )
    } else {
        seq![OpView::Finish]
    }
}

/// One answered step of the whole run, by its effects.
proof fn lemma_effects_step(
    cfg: &BonesConfig,
    present: spec_fn(Seq<char>) -> bool,
    state: HardenState,
    event: HardenEvent,
)
    requires
        answers(state, event),
        cfg.permissions.paths@.len() <= usize::MAX,
    ensures
        ({
            let (next, step) = harden_transition(cfg, state, event);
            let rest = effects(cfg, present, next, harden_answer(present, step.op));
            effects(cfg, present, state, event) == if step.op is Finish || step.op is Fail {
                seq![step.op]
            } else if step.op is CheckExists {
                rest
            } else {
                seq![step.op] + rest
            }
        }),
{
    let (next, step) = harden_transition(cfg, state, event);
    lemma_harden_terminates(cfg, state, event);
    if !(step.op is Finish || step.op is Fail) {
        lemma_next_answers(cfg, present, state, event);
        let ev = harden_answer(present, step.op);
        lemma_effects_fuel(
            cfg,
            present,
            next,
            ev,
            harden_measure(cfg, state),
            harden_measure(cfg, next) + 1,
        );
    }
}

/// The effects from moving on to override `i`: where its target exists,
/// its mode change or the error that stops the run, then the rest;
/// where it is missing, the rest alone.
proof fn lemma_effects_at(cfg: &BonesConfig, present: spec_fn(Seq<char>) -> bool, i: int)
    requires
        0 <= i < cfg.permissions.paths@.len(),
        cfg.permissions.paths@.len() <= usize::MAX,
    ensures
        effects_at(cfg, present, i) == if present(override_target(cfg, i)) {
            match override_op(cfg, i) {
                Ok(op) => seq![op] + effects_at(cfg, present, i + 1),
                Err(e) => seq![OpView::Fail(e)],
            }
        } else {
            effects_at(cfg, present, i + 1)
        },
{
    let n = cfg.permissions.paths@.len();
    let st = HardenState::Checking { index: i as usize };
    let ev = HardenEvent::TargetChecked { exists: present(override_target(cfg, i)) };
    lemma_effects_step(cfg, present, st, ev);
    if i + 1 < n {
        assert(begin_override(cfg, i + 1).0 == HardenState::Checking { index: (i + 1) as usize });
    }
    if present(override_target(cfg, i)) {
        if let Ok(op) = override_op(cfg, i) {
            let ap = HardenState::Applied { index: i as usize };
            lemma_effects_step(cfg, present, ap, HardenEvent::Completed);
        }
    }
}

/// The two configurations agree on the worktree and the defaults.
pub open spec fn same_base(cfg: &BonesConfig, cfg2: &BonesConfig) -> bool {
    &&& cfg2.data.worktree@ == cfg.data.worktree@
    &&& cfg2.permissions.defaults.owner@ == cfg.permissions.defaults.owner@
    &&& cfg2.permissions.defaults.group@ == cfg.permissions.defaults.group@
    &&& cfg2.permissions.defaults.dir_mode@ == cfg.permissions.defaults.dir_mode@
    &&& cfg2.permissions.defaults.file_mode@ == cfg.permissions.defaults.file_mode@
}

proof fn lemma_skip_after(
    cfg: &BonesConfig,
    cfg2: &BonesConfig,
    k: int,
    present: spec_fn(Seq<char>) -> bool,
    j: int,
)
    requires
        same_base(cfg, cfg2),
        0 <= k < cfg.permissions.paths@.len(),
        cfg.permissions.paths@.len() <= usize::MAX,
        cfg2.permissions.paths@ == cfg.permissions.paths@.remove(k),
        k + 1 <= j <= cfg.permissions.paths@.len(),
    ensures
        effects_at(cfg, present, j) == effects_at(cfg2, present, j - 1),
    decreases cfg.permissions.paths@.len() - j,
{
    let n = cfg.permissions.paths@.len();
    if j < n {
        assert(cfg2.permissions.paths@[j - 1] == cfg.permissions.paths@[j]);
        assert(override_target(cfg, j) == override_target(cfg2, j - 1));
        assert(override_op(cfg, j) == override_op(cfg2, j - 1));
        lemma_effects_at(cfg, present, j);
        lemma_effects_at(cfg2, present, j - 1);
        lemma_skip_after(cfg, cfg2, k, present, j + 1);
    }
}

proof fn lemma_skip_before(
    cfg: &BonesConfig,
    cfg2: &BonesConfig,
    k: int,
    present: spec_fn(Seq<char>) -> bool,
    i: int,
)
    requires
        same_base(cfg, cfg2),
        0 <= k < cfg.permissions.paths@.len(),
        cfg.permissions.paths@.len() <= usize::MAX,
        cfg2.permissions.paths@ == cfg.permissions.paths@.remove(k),
        !present(override_target(cfg, k)),
        0 <= i <= k,
    ensures
        effects_at(cfg, present, i) == effects_at(cfg2, present, i),
    decreases k - i,
{
    lemma_effects_at(cfg, present, i);
    if i == k {
        lemma_skip_after(cfg, cfg2, k, present, k + 1);
    } else {
        assert(cfg2.permissions.paths@[i] == cfg.permissions.paths@[i]);
        assert(override_target(cfg, i) == override_target(cfg2, i));
        assert(override_op(cfg, i) == override_op(cfg2, i));
        lemma_effects_at(cfg2, present, i);
        lemma_skip_before(cfg, cfg2, k, present, i + 1);
    }
}

/// The whole run, by its effects: ownership, the default modes, then the
/// overrides from the first on.
proof fn lemma_effects_start(cfg: &BonesConfig, present: spec_fn(Seq<char>) -> bool)
    requires
        cfg.permissions.paths@.len() <= usize::MAX,
    ensures
        harden_effects(cfg, present) == {
            let (_, step) = harden_transition(cfg, HardenState::OwnershipSet, HardenEvent::Completed);
            let chown = harden_transition(cfg, HardenState::Start, HardenEvent::Completed).1.op;
            if step.op is Fail {
                seq![chown, step.op]
            } else {
                seq![chown, step.op] + effects_at(cfg, present, 0)
            }
        },
{
    let c = HardenEvent::Completed;
    lemma_effects_step(cfg, present, HardenState::Start, c);
    lemma_effects_step(cfg, present, HardenState::OwnershipSet, c);
    let (next, step) = harden_transition(cfg, HardenState::OwnershipSet, c);
    if !(step.op is Fail) {
        lemma_effects_step(cfg, present, HardenState::DefaultModesSet, c);
        if 0 < cfg.permissions.paths@.len() {
            assert(begin_override(cfg, 0).0 == HardenState::Checking { index: 0 });
        }
        let chown = harden_transition(cfg, HardenState::Start, c).1.op;
        assert(seq![chown] + (seq![step.op] + effects_at(cfg, present, 0)) =~= seq![chown, step.op]
            + effects_at(cfg, present, 0));
    } else {
        assert(seq![harden_transition(cfg, HardenState::Start, c).1.op] + seq![step.op] =~= seq![
            harden_transition(cfg, HardenState::Start, c).1.op,
            step.op,
        ]);
    }
}

/// A missing override path is skipped, never an error: where the target
/// of override `k` does not exist, hardening changes exactly the owners
/// and modes that it changes with that override taken out of the
/// configuration, and ends the same way, whatever the override's mode and
/// type.
pub proof fn lemma_missing_override_is_skipped(
    cfg: &BonesConfig,
    cfg2: &BonesConfig,
    k: int,
    present: spec_fn(Seq<char>) -> bool,
)
    requires
        same_base(cfg, cfg2),
        0 <= k < cfg.permissions.paths@.len(),
        cfg.permissions.paths@.len() <= usize::MAX,
        cfg2.permissions.paths@ == cfg.permissions.paths@.remove(k),
        !present(override_target(cfg, k)),
    ensures
        harden_effects(cfg, present) == harden_effects(cfg2, present),
{
    lemma_effects_start(cfg, present);
    lemma_effects_start(cfg2, present);
    lemma_skip_before(cfg, cfg2, k, present, 0);
}

/// What an override does to its existing target: a recursive one with a
/// valid mode gives that mode to the whole tree under the target,
/// whatever its type; one that is not recursive gives it to the target
/// alone when its type is absent, `dir` or `file`, and stops the run on
/// any other type; an override whose mode is not octal stops the run.
pub proof fn lemma_override_mode_scope(cfg: &BonesConfig, i: int)
    requires
        0 <= i < cfg.permissions.paths@.len(),
        cfg.permissions.paths@.len() <= usize::MAX,
    ensures
        ({
            let o = cfg.permissions.paths@[i];
            let target = join_path(cfg.data.worktree@, o.path@);
            let step = harden_transition(
                cfg,
                HardenState::Checking { index: i as usize },
                HardenEvent::TargetChecked { exists: true },
            );
            &&& (o.recursive && mode_value(o.mode@) is Some) ==> (step.1.op
                == OpView::ApplyRecursiveMode(target, mode_value(o.mode@)->0 as u32) && step.0
                == HardenState::Applied { index: i as usize })
            &&& (!o.recursive && mode_value(o.mode@) is Some && (o.path_type is None
                || o.path_type->0@ == "dir"@ || o.path_type->0@ == "file"@)) ==> (step.1.op
                == OpView::ApplySingleMode(target, mode_value(o.mode@)->0 as u32) && step.0
                == HardenState::Applied { index: i as usize })
            &&& (!o.recursive && mode_value(o.mode@) is Some && o.path_type is Some
                && o.path_type->0@ != "dir"@ && o.path_type->0@ != "file"@) ==> step.1.op == OpView::Fail(
                ErrorView::UnknownPathType(o.path_type->0@),
            )
            &&& mode_value(o.mode@) is None ==> step.1.op == OpView::Fail(
                ErrorView::InvalidMode(o.mode@),
            )
        }),
{
}

/// Hardening goes in a fixed order: `chown -R owner:group` over the
/// worktree; then the default modes, directories' first, unless one of
/// them is not octal, which stops the run (the directories' checked
/// first); then the overrides from the first, each one's target looked
/// for after the one before it is done, and the end after the last.
pub proof fn lemma_harden_order(cfg: &BonesConfig, i: int, event: HardenEvent)
    requires
        cfg.permissions.paths@.len() <= usize::MAX,
    ensures
        ({
            let d = cfg.permissions.defaults;
            let wt = cfg.data.worktree@;
            let first = harden_transition(cfg, HardenState::Start, event);
            &&& first.0 == HardenState::OwnershipSet
            &&& first.1.op == OpView::Chown(d.owner@ + ":"@ + d.group@, wt, true)
        }),
        ({
            let d = cfg.permissions.defaults;
            let wt = cfg.data.worktree@;
            let op = harden_transition(cfg, HardenState::OwnershipSet, event).1.op;
            &&& (mode_value(d.dir_mode@) is Some && mode_value(d.file_mode@) is Some) ==> op
                == OpView::ApplyDefaultModes(
                wt,
                mode_value(d.dir_mode@)->0 as u32,
                mode_value(d.file_mode@)->0 as u32,
            )
            &&& mode_value(d.dir_mode@) is None ==> op == OpView::Fail(
                ErrorView::InvalidMode(d.dir_mode@),
            )
            &&& (mode_value(d.dir_mode@) is Some && mode_value(d.file_mode@) is None) ==> op
                == OpView::Fail(ErrorView::InvalidMode(d.file_mode@))
        }),
        ({
            let n = cfg.permissions.paths@.len();
            let wt = cfg.data.worktree@;
            let op = harden_transition(cfg, HardenState::DefaultModesSet, event).1.op;
            &&& n > 0 ==> op == OpView::CheckExists(join_path(wt, cfg.permissions.paths@[0].path@))
            &&& n == 0 ==> op == OpView::Finish
        }),
        (0 <= i < cfg.permissions.paths@.len()) ==> ({
            let n = cfg.permissions.paths@.len();
            let wt = cfg.data.worktree@;
            let step = harden_transition(cfg, HardenState::Applied { index: i as usize }, event);
            &&& i + 1 < n ==> step.1.op == OpView::CheckExists(
                join_path(wt, cfg.permissions.paths@[i + 1].path@),
            )
            &&& i + 1 < n ==> step.0 == HardenState::Checking { index: (i + 1) as usize }
            &&& i + 1 == n ==> step.1.op == OpView::Finish
        }),
{
}

} // verus!
