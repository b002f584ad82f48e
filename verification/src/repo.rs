//! The repository that a run reports on.

use octocrab::Octocrab;
use vstd::prelude::*;

verus! {

/// The client for the API that hosts the repository, of the crate octocrab.
/// Nothing is read of it here: it is carried to where requests are sent.
#[verifier::external_type_specification]
#[verifier::external_body]
pub struct ExOctocrab(Octocrab);

/// The repository that is reported on, the client that reaches it, and how
/// its pages may be requested.
pub struct RepoRef {
    pub octocrab: Octocrab,
    /// Whether to request the pages of a listing all at once through this
    /// client. With the default authentication this might run into
    /// rate-limiting, but not with the authentication of `gh`.
    pub parallelize: bool,
    pub owner: String,
    pub repo: String,
}

impl RepoRef {
    /// The repository as a session reaches it: the pages of a listing are
    /// requested at once exactly where the session is authenticated.
    pub fn new(octocrab: Octocrab, authenticated: bool, owner: String, repo: String) -> (r: Self)
        ensures
            r.octocrab == octocrab,
            r.parallelize == authenticated,
            r.owner == owner,
            r.repo == repo,
    {
        RepoRef { octocrab, parallelize: authenticated, owner, repo }
    }
}

} // verus!
