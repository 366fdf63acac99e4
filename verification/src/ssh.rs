//! The SSH side of the tool: the port to connect to, the shell commands
//! sent to the remote, and how their outcome is read.
use vstd::prelude::*;
use vstd::string::*;
use crate::num::{digits_of, format_unsigned, lemma_digits_round_trip, parse_unsigned, parse_unsigned_str, unsigned_body};
use crate::text::{str_concat, str_concat3};

verus! {

/// The value of a port string, as `str::parse::<u16>` reads it.
pub open spec fn port_value(s: Seq<char>) -> Option<nat> {
    parse_unsigned(s, 10, 0xffff)
}

/// Why no session could be set up.
pub enum SshError {
    /// The configured port is not a number from 0 to 65535.
    InvalidPort { port: String },
}

impl SshError {
    pub fn message(&self) -> (m: String)
        ensures
            self matches SshError::InvalidPort { port } && m@ == "Invalid port: "@ + port@,
    {
        match self {
            SshError::InvalidPort { port } => str_concat("Invalid port: ", port.as_str()),
        }
    }
}

/// Reads the configured port.
pub fn parse_port(port: &str) -> (r: Result<u16, SshError>)
    ensures
        r is Ok <==> port_value(port@) is Some,
        r matches Ok(p) ==> port_value(port@) == Some(p as nat),
        r matches Err(SshError::InvalidPort { port: p }) ==> p@ == port@,
{
    match parse_unsigned_str(port, 10, 0xffff) {
        Some(v) => Ok(v as u16),
        None => Err(SshError::InvalidPort { port: port.to_string() }),
    }
}

/// A port written in decimal reads back as that port.
pub proof fn lemma_port_round_trip(port: u16)
    ensures
        port_value(digits_of(port as nat, 10)) == Some(port as nat),
{
    lemma_digits_round_trip(port as nat, 10);
    assert(unsigned_body(digits_of(port as nat, 10)) == digits_of(port as nat, 10));
}

/// The error when no session to `user@host:port` could be opened.
pub fn connect_error(user: &str, host: &str, port: u16) -> (m: String)
    ensures
        m@ == "Failed to connect to "@ + user@ + "@"@ + host@ + ":"@ + digits_of(port as nat, 10),
{
    let mut m = str_concat3("Failed to connect to ", user, "@");
    m.append(host);
    m.append(":");
    m.append(format_unsigned(port as u64, 10).as_str());
    m
}

/// The error when a remote command could not be started.
pub fn exec_error(cmd: &str) -> (m: String)
    ensures
        m@ == "Failed to execute remote command: "@ + cmd@,
{
    str_concat("Failed to execute remote command: ", cmd)
}

/// What running `cmd` on the remote yields: its standard output when it
/// exited successfully, and otherwise an error that names the command
/// and carries its standard error.
pub fn command_outcome(cmd: &str, success: bool, stdout: String, stderr: &str) -> (r: Result<
    String,
    String,
>)
    ensures
        success ==> (r matches Ok(out) && out@ == stdout@),
        !success ==> (r matches Err(m) && m@ == "Remote command failed: "@ + cmd@ + "\n"@ + stderr@),
{
    if success {
        Ok(stdout)
    } else {
        let mut m = str_concat3("Remote command failed: ", cmd, "\n");
        m.append(stderr);
        Err(m)
    }
}

/// The error when a streamed command exited unsuccessfully.
pub fn stream_failure(cmd: &str) -> (m: String)
    ensures
        m@ == "Remote command failed: "@ + cmd@,
{
    str_concat("Remote command failed: ", cmd)
}

/// The remote command that succeeds when `git_dir` is a directory.
pub fn bare_repo_check_command(git_dir: &str) -> (c: String)
    ensures
        c@ == "test -d "@ + git_dir@,
{
    str_concat("test -d ", git_dir)
}

/// What to do about the bare repository, once it is known whether it
/// exists: what to print, and the command that creates it if needed.
pub struct BareRepoStep {
    pub note: String,
    pub command: Option<String>,
}

/// The bare repository is created only when it does not exist yet.
pub fn bare_repo_step(git_dir: &str, exists: bool) -> (s: BareRepoStep)
    ensures
        exists ==> s.note@ == "Bare repo already exists at "@ + git_dir@ && s.command is None,
        !exists ==> s.note@ == "Creating bare repo at "@ + git_dir@ + "..."@,
        !exists ==> (s.command matches Some(c) && c@ == "git init --bare "@ + git_dir@),
{
    if exists {
        BareRepoStep { note: str_concat("Bare repo already exists at ", git_dir), command: None }
    } else {
        BareRepoStep {
            note: str_concat3("Creating bare repo at ", git_dir, "..."),
            command: Some(str_concat("git init --bare ", git_dir)),
        }
    }
}

/// Where the post-receive hook lives in the bare repository.
pub fn post_receive_path(git_dir: &str) -> (p: String)
    ensures
        p@ == git_dir@ + "/hooks/post-receive"@,
{
    str_concat(git_dir, "/hooks/post-receive")
}

/// The remote command that writes `hook_content` to `hook_path` through
/// a quoted here-document and makes it executable.
pub open spec fn upload_command(hook_path: Seq<char>, hook_content: Seq<char>) -> Seq<char> {
    "cat > '"@ + hook_path + "' << 'GITBONES_EOF'\n"@ + hook_content + "\nGITBONES_EOF\nchmod +x '"@
        + hook_path + "'"@
}

pub fn upload_post_receive_command(hook_path: &str, hook_content: &str) -> (c: String)
    ensures
        c@ == upload_command(hook_path@, hook_content@),
{
    let mut c = str_concat3("cat > '", hook_path, "' << 'GITBONES_EOF'\n");
    c.append(hook_content);
    c.append("\nGITBONES_EOF\nchmod +x '");
    c.append(hook_path);
    c.append("'");
    c
}

/// The line printed once the hook is uploaded.
pub fn uploaded_note(hook_path: &str) -> (m: String)
    ensures
        m@ == "Uploaded post-receive hook to "@ + hook_path@,
{
    str_concat("Uploaded post-receive hook to ", hook_path)
}

/// The remote command that runs the hook `hook` of the bare repository
/// by hand, as git would, with no input.
pub fn hook_run_command(git_dir: &str, hook: &str) -> (c: String)
    ensures
        c@ == "GIT_DIR="@ + git_dir@ + " "@ + git_dir@ + "/hooks/"@ + hook@ + " </dev/null"@,
{
    let mut c = str_concat3("GIT_DIR=", git_dir, " ");
    c.append(git_dir);
    c.append("/hooks/");
    c.append(hook);
    c.append(" </dev/null");
    c
}

} // verus!
