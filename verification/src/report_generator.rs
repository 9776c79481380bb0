use vstd::prelude::*;
use vstd::string::StrSliceExecFns;
use vstd::string::StringExecFns;

use crate::commit_log::{CommitInfo, CommitLog};
use crate::event::OutputPathInfo;
use crate::strings::{opt_text, pushChar, replaceAll, spec_replace, views_of};

verus! {

/// What the file name pattern's tokens become after sanitization for the
/// file system: the result of `sanitize_filename` with Windows rules, a
/// replacement of `_`, and truncation.  A pure function of the name.
pub uninterp spec fn sanitized_of(name: Seq<char>) -> Seq<char>;

/// Relies on `sanitize_filename::sanitize_with_options` (windows rules,
/// truncation on, replacement `_`): the sanitized name depends on the
/// input text alone.
#[verifier::external_body]
fn sanitizeFileName(name: &String) -> (r: String)
    ensures
        r@ == sanitized_of(name@),
{
    let options = sanitize_filename::Options { windows: true, truncate: true, replacement: "_" };
    sanitize_filename::sanitize_with_options(name, options)
}

/// The ids of the rows marked for the report, in log order.
pub open spec fn marked_ids(commits: Seq<CommitInfo>) -> Seq<Seq<char>>
    decreases commits.len(),
{
    if commits.len() == 0 {
        Seq::empty()
    } else {
        let rest = marked_ids(commits.skip(1));
        if commits[0].markedForReport {
            seq![commits[0].id@] + rest
        } else {
            rest
        }
    }
}

/// The stem's text after the pattern's three tokens are substituted and
/// the result is sanitized.
pub open spec fn spec_file_name(
    pattern: Seq<char>,
    commitId: Seq<char>,
    commitShortId: Seq<char>,
    commitSummary: Seq<char>,
) -> Seq<char> {
    sanitized_of(
        spec_replace(
            spec_replace(
                spec_replace(pattern, ("<commit_id>")@, commitId),
                ("<commit_short_id>")@,
                commitShortId,
            ),
            ("<commit_summary>")@,
            commitSummary,
        ),
    )
}

/// Everything the writer outside the core needs for one report run: where
/// to write, and which commits, by id and in log order.
pub struct ReportPlan {
    pub outputPath: String,
    pub commitIds: Vec<String>,
}

/// Decides what a report run writes.  It tracks whether a repository is
/// open, where output goes, and the file name pattern; a request made
/// before both a repository and an output path exist is skipped silently —
/// not ready, not an error.
pub struct ReportGenerator {
    hasRepository: bool,
    outputPath: Option<String>,
    outputFileNamesPattern: String,
}

impl ReportGenerator {
    /// Whether a repository is open.
    pub closed spec fn spec_has_repository(self) -> bool {
        self.hasRepository
    }

    /// Where the report goes, once known.
    pub closed spec fn spec_output_path(self) -> Option<Seq<char>> {
        opt_text(self.outputPath)
    }

    /// The file name pattern in effect.
    pub closed spec fn spec_pattern(self) -> Seq<char> {
        self.outputFileNamesPattern@
    }

    /// A generator over the state known at startup.
    pub fn new(hasRepository: bool, outputPath: Option<String>, outputFileNamesPattern: &str) -> (r:
        ReportGenerator)
        ensures
            r.spec_has_repository() == hasRepository,
            r.spec_output_path() == opt_text(outputPath),
            r.spec_pattern() == outputFileNamesPattern@,
    {
        ReportGenerator {
            hasRepository,
            outputPath,
            outputFileNamesPattern: outputFileNamesPattern.to_owned(),
        }
    }

    /// A new file name pattern replaces the old one.
    pub fn onOutputFileNamesPatternChanged(&mut self, pattern: &str)
        ensures
            final(self).spec_pattern() == pattern@,
            final(self).spec_has_repository() == old(self).spec_has_repository(),
            final(self).spec_output_path() == old(self).spec_output_path(),
    {
        self.outputFileNamesPattern = pattern.to_owned();
    }

    /// The derived output path changed.
    pub fn onOutputPathChanged(&mut self, pathInfo: &OutputPathInfo)
        ensures
            final(self).spec_output_path() == Some(pathInfo.full@),
            final(self).spec_has_repository() == old(self).spec_has_repository(),
            final(self).spec_pattern() == old(self).spec_pattern(),
    {
        self.outputPath = Some(pathInfo.full.clone());
    }

    /// A repository is open from now on.
    pub fn onRepositoryChanged(&mut self)
        ensures
            final(self).spec_has_repository(),
            final(self).spec_output_path() == old(self).spec_output_path(),
            final(self).spec_pattern() == old(self).spec_pattern(),
    {
        self.hasRepository = true;
    }

    /// A report was requested.  Without a repository or without an output
    /// path there is nothing to do yet and nothing is written; otherwise
    /// the plan names the output directory and the marked commits, in log
    /// order.
    pub fn generateReport(&self, log: &CommitLog) -> (r: Option<ReportPlan>)
        ensures
            match r {
                None => !self.spec_has_repository() || self.spec_output_path() is None,
                Some(plan) => {
                    &&& self.spec_has_repository()
                    &&& Some(plan.outputPath@) == self.spec_output_path()
                    &&& views_of(plan.commitIds@) == marked_ids(log@)
                },
            },
    {
        if !self.hasRepository {
            return None;
        }
        let outputPath = match &self.outputPath {
            Some(path) => path.clone(),
            None => return None,
        };
        let commits = log.getCommits();
        let mut commitIds: Vec<String> = Vec::new();
        let mut i: usize = 0;
        proof {
            assert(log@.skip(0) =~= log@);
            assert(views_of(commitIds@) =~= Seq::<Seq<char>>::empty());
        }
        while i < commits.len()
            invariant
                0 <= i <= log@.len(),
                commits@ == log@,
                marked_ids(log@) == views_of(commitIds@) + marked_ids(
                    log@.skip(i as int),
                ),
            decreases log@.len() - i,
        {
            proof {
                assert(log@.skip(i as int)[0] == log@[i as int]);
                assert(log@.skip(i as int).skip(1) =~= log@.skip(i + 1));
            }
            if commits[i].markedForReport {
                let ghost previous = views_of(commitIds@);
                commitIds.push(commits[i].id.clone());
                proof {
                    assert(views_of(commitIds@) =~= previous.push(
                        log@[i as int].id@,
                    ));
                    assert(previous + (seq![log@[i as int].id@] + marked_ids(log@.skip(i + 1)))
                        =~= views_of(commitIds@) + marked_ids(log@.skip(i + 1)));
                }
            }
            i = i + 1;
        }
        proof {
            assert(log@.skip(log@.len() as int) =~= Seq::<CommitInfo>::empty());
            assert(views_of(commitIds@) =~= marked_ids(log@));
        }
        Some(ReportPlan { outputPath, commitIds })
    }

    /// The file name stem for one commit: the pattern with its tokens
    /// substituted, sanitized for the file system.  The short id comes
    /// from the repository, which alone knows how short an unambiguous id
    /// may be.
    pub fn formatFileName(&self, commitId: &str, commitShortId: &str, commitSummary: &str) -> (r:
        String)
        ensures
            r@ == spec_file_name(self.spec_pattern(), commitId@, commitShortId@, commitSummary@),
    {
        proof {
            reveal_strlit("<commit_id>");
            reveal_strlit("<commit_short_id>");
            reveal_strlit("<commit_summary>");
        }
        let withId = replaceAll(self.outputFileNamesPattern.as_str(), "<commit_id>", commitId);
        let withShortId = replaceAll(withId.as_str(), "<commit_short_id>", commitShortId);
        let withSummary = replaceAll(withShortId.as_str(), "<commit_summary>", commitSummary);
        sanitizeFileName(&withSummary)
    }
}

/// One changed file as the repository's diff hands it over: whether the
/// change is a deletion, the file's path, and the blob holding its new
/// content.
#[derive(Clone, Debug)]
pub struct DeltaRecord {
    pub isDeleted: bool,
    pub filePath: String,
    pub blobId: String,
}

/// One entry of a report's archive pair: which blob to write, under which
/// name in the full-files archive, and under which name beside the diff.
#[derive(Clone, Debug)]
pub struct FullFileEntry {
    pub blobId: String,
    pub filePath: String,
    pub diffArchiveFilePath: String,
}

/// The texts of a sequence of archive entries.
pub open spec fn full_file_entry_views(entries: Seq<FullFileEntry>) -> Seq<
    (Seq<char>, Seq<char>, Seq<char>),
> {
    entries.map_values(|e: FullFileEntry| (e.blobId@, e.filePath@, e.diffArchiveFilePath@))
}

/// The archive entries a diff yields, in diff order: deleted files are
/// skipped; every other file goes into the full-files archive under its
/// own path, and beside the diff text under `full_files/<path>`.
pub open spec fn spec_full_file_entries(deltas: Seq<DeltaRecord>) -> Seq<
    (Seq<char>, Seq<char>, Seq<char>),
>
    decreases deltas.len(),
{
    if deltas.len() == 0 {
        Seq::empty()
    } else {
        let rest = spec_full_file_entries(deltas.skip(1));
        if deltas[0].isDeleted {
            rest
        } else {
            seq![
                (deltas[0].blobId@, deltas[0].filePath@, ("full_files/")@ + deltas[0].filePath@),
            ] + rest
        }
    }
}

/// Decides which files of one commit's diff enter the report archives and
/// under which names; the blob reads and the archive writes happen outside
/// the core.
pub fn makeFullFileEntries(deltas: &Vec<DeltaRecord>) -> (r: Vec<FullFileEntry>)
    ensures
        full_file_entry_views(r@) == spec_full_file_entries(deltas@),
{
    let mut entries: Vec<FullFileEntry> = Vec::new();
    let mut i: usize = 0;
    proof {
        assert(deltas@.skip(0) =~= deltas@);
        assert(full_file_entry_views(entries@) =~= Seq::<(Seq<char>, Seq<char>, Seq<char>)>::empty());
    }
    while i < deltas.len()
        invariant
            0 <= i <= deltas@.len(),
            spec_full_file_entries(deltas@) == full_file_entry_views(entries@)
                + spec_full_file_entries(deltas@.skip(i as int)),
        decreases deltas@.len() - i,
    {
        proof {
            assert(deltas@.skip(i as int)[0] == deltas@[i as int]);
            assert(deltas@.skip(i as int).skip(1) =~= deltas@.skip(i + 1));
        }
        let delta = &deltas[i];
        if !delta.isDeleted {
            proof {
                reveal_strlit("full_files/");
            }
            let mut diffArchiveFilePath = String::from_str("full_files/");
            diffArchiveFilePath.append(delta.filePath.as_str());
            let entry = FullFileEntry {
                blobId: delta.blobId.clone(),
                filePath: delta.filePath.clone(),
                diffArchiveFilePath,
            };
            let ghost previous = full_file_entry_views(entries@);
            let ghost entryView = (entry.blobId@, entry.filePath@, entry.diffArchiveFilePath@);
            entries.push(entry);
            proof {
                assert(full_file_entry_views(entries@) =~= previous.push(entryView));
                assert(previous + (seq![entryView] + spec_full_file_entries(deltas@.skip(i + 1)))
                    =~= full_file_entry_views(entries@) + spec_full_file_entries(
                    deltas@.skip(i + 1),
                ));
            }
        }
        i = i + 1;
    }
    proof {
        assert(deltas@.skip(deltas@.len() as int) =~= Seq::<DeltaRecord>::empty());
        assert(full_file_entry_views(entries@) =~= spec_full_file_entries(deltas@));
    }
    entries
}

/// The path of the archive holding the new and changed files themselves:
/// `<outputPath>/<stem>.zip`.
pub fn makeFullFilesZipPath(outputPath: &str, fileNameStem: &str) -> (r: String)
    ensures
        r@ == outputPath@ + seq!['/'] + fileNameStem@ + (".zip")@,
{
    let mut filePath = outputPath.to_owned();
    pushChar(&mut filePath, '/');
    filePath.append(fileNameStem);
    filePath.append(".zip");
    filePath
}

/// The path of the archive holding the diff text beside the full files:
/// `<outputPath>/<stem>-diff.zip`.
pub fn makeDiffAndFullFilesZipPath(outputPath: &str, fileNameStem: &str) -> (r: String)
    ensures
        r@ == outputPath@ + seq!['/'] + fileNameStem@ + ("-diff.zip")@,
{
    let mut filePath = outputPath.to_owned();
    pushChar(&mut filePath, '/');
    filePath.append(fileNameStem);
    filePath.append("-diff.zip");
    filePath
}

} // verus!
