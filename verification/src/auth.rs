//! The credential that the command-line tool `gh` keeps for github.com, and
//! the search for the file that holds it.

use vstd::prelude::*;

verus! {

/// What `gh` keeps for one host.
#[derive(Debug)]
pub struct GhOAuth {
    pub user: String,
    pub oauth_token: String,
    pub git_protocol: String,
}

/// The hosts file of `gh`, as far as it is read: the entry of github.com.
#[derive(Debug)]
pub struct GhHosts {
    pub github: GhOAuth,
}

/// A token with which requests are signed, its kind and what it allows.
pub struct OAuth {
    pub access_token: String,
    pub token_type: String,
    pub scope: Vec<String>,
}

/// The directories under the configuration directory in which `gh` may
/// keep its hosts file, in the order in which they are tried.
pub open spec fn spec_hosts_dirs() -> Seq<Seq<char>> {
    seq!["gh"@, "GitHub CLI"@]
}

/// The name of the hosts file inside its directory.
pub fn hosts_file_name() -> (r: &'static str)
    ensures
        r@ == "hosts.yml"@,
{
    "hosts.yml"
}

/// The credential for github.com that a hosts file holds: its token as a
/// bearer token, for repositories.
pub fn gh_oauth(hosts: GhHosts) -> (r: OAuth)
    ensures
        r.access_token@ == hosts.github.oauth_token@,
        r.token_type@ == "bearer"@,
        r.scope@.len() == 1,
        r.scope@[0]@ == "repo"@,
{
    let mut scope: Vec<String> = Vec::new();
    scope.push(String::from_str("repo"));
    OAuth {
        access_token: hosts.github.oauth_token,
        token_type: String::from_str("bearer"),
        scope,
    }
}

/// The search for a hosts file that can be read: which directory is tried
/// next, and why the directories tried so far gave nothing.
pub struct HostsSearch<E> {
    tried: usize,
    errors: Vec<E>,
}

impl<E> HostsSearch<E> {
    /// How many directories have been tried in vain.
    pub closed spec fn tried(&self) -> nat {
        self.tried as nat
    }

    /// Why each of them gave nothing, in the order in which they were
    /// tried.
    pub closed spec fn errors(&self) -> Seq<E> {
        self.errors@
    }

    /// The search before any directory has been tried.
    pub fn new() -> (r: Self)
        ensures
            r.tried() == 0,
            r.errors() == Seq::<E>::empty(),
    {
        HostsSearch { tried: 0, errors: Vec::new() }
    }

    /// The directory to try next; none once all have been tried.
    pub fn next_dir(&self) -> (r: Option<&'static str>)
        ensures
            r is Some <==> self.tried() < spec_hosts_dirs().len(),
            r matches Some(dir) ==> dir@ == spec_hosts_dirs()[self.tried() as int],
    {
        if self.tried == 0 {
            Some("gh")
        } else if self.tried == 1 {
            Some("GitHub CLI")
        } else {
            None
        }
    }

    /// Takes note that the file in the directory tried last could not be
    /// read, and why.
    pub fn unreadable(&mut self, error: E)
        ensures
            final(self).errors() == old(self).errors().push(error),
            final(self).tried() == if old(self).tried() < spec_hosts_dirs().len() {
                old(self).tried() + 1
            } else {
                old(self).tried()
            },
    {
        self.errors.push(error);
        if self.tried < 2 {
            self.tried = self.tried + 1;
        }
    }

    /// Why no directory gave a file, in the order in which they were tried.
    pub fn into_errors(self) -> (r: Vec<E>)
        ensures
            r@ == self.errors(),
    {
        self.errors
    }
}

} // verus!
