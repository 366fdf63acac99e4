//! The git remote that deployments go to.
use vstd::prelude::*;
use vstd::string::*;
use crate::text::{str_concat, str_concat3, str_eq};

verus! {

/// The names of the repository's remotes; a name that is not valid
/// UTF-8 is `None`.
pub open spec fn remote_names(remotes: Seq<Option<String>>) -> Seq<Option<Seq<char>>> {
    remotes.map_values(
        |o: Option<String>|
            match o {
                Some(s) => Some(s@),
                None => None,
            },
    )
}

/// Why the deployment remote cannot be used.
pub enum GitError {
    /// The repository has no remote of this name.
    RemoteMissing { remote_name: String },
}

/// The message for a missing remote, with the command that adds it.
pub open spec fn remote_missing_message(name: Seq<char>) -> Seq<char> {
    "No git remote '"@ + name
        + "' found. Please set one up before running gitbones init:\n  git remote add "@ + name
        + " git@<host>:<repo>.git"@
}

impl GitError {
    pub fn message(&self) -> (m: String)
        ensures
            self matches GitError::RemoteMissing { remote_name } && m@ == remote_missing_message(
                remote_name@,
            ),
    {
        match self {
            GitError::RemoteMissing { remote_name } => {
                let mut m = str_concat3(
                    "No git remote '",
                    remote_name.as_str(),
                    "' found. Please set one up before running gitbones init:\n  git remote add ",
                );
                m.append(remote_name.as_str());
                m.append(" git@<host>:<repo>.git");
                m
            },
        }
    }
}

/// Checks that `remote_name` is one of the repository's `remotes`.
pub fn validate_remote_exists(remotes: &Vec<Option<String>>, remote_name: &str) -> (r: Result<
    (),
    GitError,
>)
    ensures
        r is Ok <==> remote_names(remotes@).contains(Some(remote_name@)),
        r matches Err(GitError::RemoteMissing { remote_name: n }) ==> n@ == remote_name@,
{
    let mut i: usize = 0;
    while i < remotes.len()
        invariant
            i <= remotes.len(),
            forall|k: int| 0 <= k < i ==> remote_names(remotes@)[k] != Some(remote_name@),
        decreases remotes.len() - i,
    {
        proof {
            assert(remote_names(remotes@)[i as int] == match remotes@[i as int] {
                Some(s) => Some(s@),
                None => None::<Seq<char>>,
            });
        }
        match &remotes[i] {
            Some(name) => {
                if str_eq(name.as_str(), remote_name) {
                    proof {
                        assert(remote_names(remotes@)[i as int] == Some(remote_name@));
                    }
                    return Ok(());
                }
            },
            None => {},
        }
        i = i + 1;
    }
    Err(GitError::RemoteMissing { remote_name: remote_name.to_string() })
}

} // verus!
