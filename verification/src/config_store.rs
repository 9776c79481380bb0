use vstd::prelude::*;
use vstd::string::StringExecFns;

use crate::event::OutputPathInfo;
use crate::strings::opt_text;

verus! {

/// The position the divider between commit log and diff starts at when no
/// saved position exists.
pub fn defaultPositionOfPaneWithCommitLogAndDiff() -> (r: i32)
    ensures
        r == 75,
{
    75
}

/// Everything the application remembers across runs.  Paths are kept as
/// plain text; the persistence layer around the core reads and writes the
/// actual file.
#[derive(Debug)]
pub struct Config {
    pub commitAuthorFilter: String,
    pub isWindowMaximized: bool,
    pub outputPathPrefix: Option<String>,
    pub positionOfPaneWithCommitLogAndDiff: i32,
    pub repository: Option<String>,
}

impl Default for Config {
    /// The configuration of a first run: nothing filtered, nothing chosen.
    fn default() -> (r: Config)
        ensures
            r.commitAuthorFilter@ == Seq::<char>::empty(),
            r.isWindowMaximized == false,
            r.outputPathPrefix is None,
            r.positionOfPaneWithCommitLogAndDiff == 75,
            r.repository is None,
    {
        Config {
            commitAuthorFilter: String::new(),
            isWindowMaximized: false,
            outputPathPrefix: None,
            positionOfPaneWithCommitLogAndDiff: defaultPositionOfPaneWithCommitLogAndDiff(),
            repository: None,
        }
    }
}

/// Holds the active configuration and decides, for every tracked change,
/// whether the file on disk is stale.  Each handler stores the new value
/// and answers whether the caller must persist — it must exactly when the
/// value differed from what was held, so untouched values are never
/// rewritten.
pub struct ConfigStore {
    config: Config,
}

impl ConfigStore {
    /// The configuration as held.
    pub closed spec fn spec_config(self) -> Config {
        self.config
    }

    /// A store over the configuration the persistence layer loaded (or the
    /// default when there was none).
    pub fn new(config: Config) -> (r: ConfigStore)
        ensures
            r.spec_config() == config,
    {
        ConfigStore { config }
    }

    /// The configuration as held.
    pub fn getConfig(&self) -> (r: &Config)
        ensures
            *r == self.spec_config(),
    {
        &self.config
    }

    /// Tracks the author filter text.
    pub fn onCommitAuthorFilterChanged(&mut self, filter: &str) -> (save: bool)
        ensures
            save == (old(self).spec_config().commitAuthorFilter@ != filter@),
            final(self).spec_config().commitAuthorFilter@ == filter@,
            final(self).spec_config().isWindowMaximized == old(self).spec_config().isWindowMaximized,
            final(self).spec_config().outputPathPrefix == old(self).spec_config().outputPathPrefix,
            final(self).spec_config().positionOfPaneWithCommitLogAndDiff == old(
                self,
            ).spec_config().positionOfPaneWithCommitLogAndDiff,
            final(self).spec_config().repository == old(self).spec_config().repository,
    {
        let newFilter = filter.to_owned();
        if self.config.commitAuthorFilter == newFilter {
            return false;
        }
        self.config.commitAuthorFilter = newFilter;
        true
    }

    /// Tracks the chosen output path prefix.
    pub fn onOutputPathChanged(&mut self, pathInfo: &OutputPathInfo) -> (save: bool)
        ensures
            save == !(opt_text(old(self).spec_config().outputPathPrefix) == Some(
                pathInfo.prefix@,
            )),
            opt_text(final(self).spec_config().outputPathPrefix) == Some(pathInfo.prefix@),
            final(self).spec_config().commitAuthorFilter == old(
                self,
            ).spec_config().commitAuthorFilter,
            final(self).spec_config().isWindowMaximized == old(self).spec_config().isWindowMaximized,
            final(self).spec_config().positionOfPaneWithCommitLogAndDiff == old(
                self,
            ).spec_config().positionOfPaneWithCommitLogAndDiff,
            final(self).spec_config().repository == old(self).spec_config().repository,
    {
        match &self.config.outputPathPrefix {
            Some(prefix) => {
                if *prefix == pathInfo.prefix {
                    return false;
                }
            },
            None => {},
        }
        self.config.outputPathPrefix = Some(pathInfo.prefix.clone());
        true
    }

    /// Tracks the divider position.
    pub fn onPanePositionChanged(&mut self, position: i32) -> (save: bool)
        ensures
            save == (old(self).spec_config().positionOfPaneWithCommitLogAndDiff != position),
            final(self).spec_config().positionOfPaneWithCommitLogAndDiff == position,
            final(self).spec_config().commitAuthorFilter == old(
                self,
            ).spec_config().commitAuthorFilter,
            final(self).spec_config().isWindowMaximized == old(self).spec_config().isWindowMaximized,
            final(self).spec_config().outputPathPrefix == old(self).spec_config().outputPathPrefix,
            final(self).spec_config().repository == old(self).spec_config().repository,
    {
        if self.config.positionOfPaneWithCommitLogAndDiff == position {
            return false;
        }
        self.config.positionOfPaneWithCommitLogAndDiff = position;
        true
    }

    /// Tracks the active repository's path.
    pub fn onRepositoryChanged(&mut self, repositoryPath: &str) -> (save: bool)
        ensures
            save == !(opt_text(old(self).spec_config().repository) == Some(repositoryPath@)),
            opt_text(final(self).spec_config().repository) == Some(repositoryPath@),
            final(self).spec_config().commitAuthorFilter == old(
                self,
            ).spec_config().commitAuthorFilter,
            final(self).spec_config().isWindowMaximized == old(self).spec_config().isWindowMaximized,
            final(self).spec_config().outputPathPrefix == old(self).spec_config().outputPathPrefix,
            final(self).spec_config().positionOfPaneWithCommitLogAndDiff == old(
                self,
            ).spec_config().positionOfPaneWithCommitLogAndDiff,
    {
        let newPath = repositoryPath.to_owned();
        match &self.config.repository {
            Some(path) => {
                if *path == newPath {
                    return false;
                }
            },
            None => {},
        }
        self.config.repository = Some(newPath);
        true
    }

    /// Tracks whether the window is maximized.
    pub fn onWindowMaximized(&mut self, isMaximized: bool) -> (save: bool)
        ensures
            save == (old(self).spec_config().isWindowMaximized != isMaximized),
            final(self).spec_config().isWindowMaximized == isMaximized,
            final(self).spec_config().commitAuthorFilter == old(
                self,
            ).spec_config().commitAuthorFilter,
            final(self).spec_config().outputPathPrefix == old(self).spec_config().outputPathPrefix,
            final(self).spec_config().positionOfPaneWithCommitLogAndDiff == old(
                self,
            ).spec_config().positionOfPaneWithCommitLogAndDiff,
            final(self).spec_config().repository == old(self).spec_config().repository,
    {
        if self.config.isWindowMaximized == isMaximized {
            return false;
        }
        self.config.isWindowMaximized = isMaximized;
        true
    }
}

} // verus!
