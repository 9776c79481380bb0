use vstd::prelude::*;
use vstd::string::StringExecFns;

use crate::event::Event;
use crate::source::Source;
use crate::strings::opt_text;

verus! {

/// Holds the path of the at-most-one open repository.  Opening happens
/// outside the core; this store makes the decisions: whether a chosen
/// folder calls for an open attempt at all, and what is announced when an
/// attempt succeeds.  A failed attempt changes nothing, so a bad path is
/// reported and survived, never fatal.
pub struct RepositoryStore {
    repoPath: Option<String>,
}

impl RepositoryStore {
    /// The open repository's path, if one is open.
    pub closed spec fn spec_repo_path(self) -> Option<Seq<char>> {
        opt_text(self.repoPath)
    }

    /// A store over the repository the startup code already opened from
    /// the saved configuration, or over none.
    pub fn new(openedRepositoryPath: Option<String>) -> (r: RepositoryStore)
        ensures
            r.spec_repo_path() == opt_text(openedRepositoryPath),
    {
        RepositoryStore { repoPath: openedRepositoryPath }
    }

    /// The open repository's path, if one is open.
    pub fn getRepositoryPath(&self) -> (r: &Option<String>)
        ensures
            opt_text(*r) == self.spec_repo_path(),
    {
        &self.repoPath
    }

    /// Whether a chosen folder calls for an open attempt: choosing the
    /// path already open is a no-op (the caller notes it aloud), never a
    /// second open and never a second announcement.
    pub fn shouldOpenRepository(&self, path: &str) -> (r: bool)
        ensures
            r == spec_should_open(*self, path@),
    {
        match &self.repoPath {
            Some(repoPath) => {
                let newOwned = path.to_owned();
                !(*repoPath == newOwned)
            },
            None => true,
        }
    }

    /// An open attempt succeeded: the new path replaces the old one and
    /// the change is announced with exactly one event.
    pub fn onRepositoryOpened(&mut self, path: &str) -> (r: (Source, Event))
        ensures
            final(self).spec_repo_path() == Some(path@),
            r.0 == Source::RepositoryStore,
            r.1 matches Event::RepositoryChanged(p) && p@ == path@,
    {
        self.repoPath = Some(path.to_owned());
        (Source::RepositoryStore, Event::RepositoryChanged(path.to_owned()))
    }
}

/// A chosen folder calls for an open attempt exactly when it differs from
/// the path already open.
pub open spec fn spec_should_open(store: RepositoryStore, path: Seq<char>) -> bool {
    store.spec_repo_path() != Some(path)
}

/// Law: selecting the repository path that is already open calls for no
/// open attempt at all — so no repository-changed event can follow and the
/// held repository stays as it is; the caller only notes the repetition
/// aloud.
pub proof fn lemma_same_repository_path_is_silent(store: RepositoryStore, path: Seq<char>)
    requires
        store.spec_repo_path() == Some(path),
    ensures
        !spec_should_open(store, path),
{
}

} // verus!
