//! Deployment scaffolding for git repositories pushed over SSH: the
//! configuration model, the permission-hardening plan run on the
//! deployment host, the health checks, and the shell commands the tool
//! sends, each with a contract proved by Verus.
use vstd::prelude::*;

pub mod text;
pub mod num;
pub mod paths;
pub mod config;
pub mod permissions;
pub mod doctor;
pub mod init;
pub mod prompts;
pub mod git;
pub mod ssh;

verus! {

} // verus!
