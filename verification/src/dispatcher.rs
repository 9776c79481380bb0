use vstd::prelude::*;

use crate::event::Event;
use crate::source::Source;

verus! {

/// Names one of the components that can be registered to handle an event.
#[derive(Clone, Copy, Debug, PartialEq, Eq, Structural)]
pub enum HandlerId {
    ChooseOutputFolderButton,
    ChooseRepositoryFolderButton,
    CommitDiffView,
    CommitLog,
    CommitLogModel,
    CommitLogModelFilter,
    CommitLogView,
    ConfigStore,
    OptionsDialog,
    OutputPathLabel,
    OutputPathStore,
    ReportGenerator,
    RepositoryPathLabel,
    RepositoryStore,
}

/// The static routing table: which handlers react to an event of this kind
/// coming from this source, in the order they must run.  `None` marks a
/// combination that was never wired up; dispatching it is a programming
/// error and the caller must abort loudly rather than drop the event.
pub open spec fn spec_route(source: Source, event: Event) -> Option<Seq<HandlerId>> {
    match (source, event) {
        (Source::ChooseOutputFolderButtonWidget, Event::Clicked) =>
            Some(seq![HandlerId::ChooseOutputFolderButton]),
        (Source::ChooseOutputFolderButton, Event::FolderChosen(_)) =>
            Some(seq![HandlerId::OutputPathStore]),
        (Source::ChooseOutputFolderDialog, Event::DialogResponded(_)) =>
            Some(seq![HandlerId::ChooseOutputFolderButton]),
        (Source::ChooseRepositoryFolderButton, Event::FolderChosen(_)) =>
            Some(seq![HandlerId::RepositoryStore]),
        (Source::ChooseRepositoryFolderButtonWidget, Event::Clicked) =>
            Some(seq![HandlerId::ChooseRepositoryFolderButton]),
        (Source::ChooseRepositoryFolderDialog, Event::DialogResponded(_)) =>
            Some(seq![HandlerId::ChooseRepositoryFolderButton]),
        (Source::CommitDiffViewWidget, Event::ZoomRequested(_)) =>
            Some(seq![HandlerId::CommitDiffView]),
        (Source::CommitAuthorFilterEntry, Event::CommitAuthorFilterChanged(_)) =>
            Some(seq![HandlerId::CommitLogModelFilter]),
        (Source::CommitLog, Event::CommitLogChanged) =>
            Some(seq![HandlerId::CommitLogModel]),
        (Source::CommitLogModelFilter, Event::MarkCommitForReportToggled(_)) =>
            Some(seq![HandlerId::CommitLogModel]),
        (Source::CommitLogView, Event::CommitSelected(_)) =>
            Some(seq![HandlerId::CommitDiffView]),
        (Source::CommitLogView, Event::CommitUnselected) =>
            Some(seq![HandlerId::CommitDiffView]),
        (Source::CommitLogViewCheckButton, Event::MarkCommitForReportToggled(_)) =>
            Some(seq![HandlerId::CommitLogModelFilter]),
        (Source::CommitLogViewWidget, Event::SelectionChanged(_)) =>
            Some(seq![HandlerId::CommitLogView]),
        (Source::GenerateReportButton, Event::GenerateReportRequested) =>
            Some(seq![HandlerId::ReportGenerator]),
        (Source::MonthComboBox, Event::MonthFilterChanged(_)) =>
            Some(seq![HandlerId::CommitLogModelFilter, HandlerId::OutputPathStore]),
        (Source::OpenOptionsButton, Event::OpenOptionsRequested) =>
            Some(seq![HandlerId::OptionsDialog]),
        (Source::OptionsDialog, Event::OutputFileNamesPatternChanged(_)) =>
            Some(seq![HandlerId::ReportGenerator]),
        (Source::OptionsDialogWidget, Event::DialogResponded(_)) =>
            Some(seq![HandlerId::OptionsDialog]),
        (Source::OutputPathStore, Event::OutputPathChanged(_)) =>
            Some(seq![
                HandlerId::OutputPathLabel,
                HandlerId::ReportGenerator,
                HandlerId::ConfigStore,
            ]),
        (Source::OutputPathStore, Event::PartialOutputPathChanged(_)) =>
            Some(seq![HandlerId::OutputPathLabel]),
        (Source::RepositoryStore, Event::RepositoryChanged(_)) =>
            Some(seq![
                HandlerId::RepositoryPathLabel,
                HandlerId::CommitLog,
                HandlerId::CommitDiffView,
                HandlerId::ReportGenerator,
                HandlerId::ConfigStore,
            ]),
        (Source::YearSpinButton, Event::YearFilterChanged(_)) =>
            Some(seq![HandlerId::CommitLogModelFilter, HandlerId::OutputPathStore]),
        _ => None,
    }
}

/// Looks an incoming pair up in the routing table.  Returns the handlers to
/// run, in declared order, or `None` for an unregistered combination.
pub fn route(source: Source, event: &Event) -> (r: Option<Vec<HandlerId>>)
    ensures
        match r {
            Some(handlers) => spec_route(source, *event) == Some(handlers@),
            None => spec_route(source, *event) is None,
        },
{
    match (source, event) {
        (Source::ChooseOutputFolderButtonWidget, Event::Clicked) =>
            Some(vec![HandlerId::ChooseOutputFolderButton]),
        (Source::ChooseOutputFolderButton, Event::FolderChosen(_)) =>
            Some(vec![HandlerId::OutputPathStore]),
        (Source::ChooseOutputFolderDialog, Event::DialogResponded(_)) =>
            Some(vec![HandlerId::ChooseOutputFolderButton]),
        (Source::ChooseRepositoryFolderButton, Event::FolderChosen(_)) =>
            Some(vec![HandlerId::RepositoryStore]),
        (Source::ChooseRepositoryFolderButtonWidget, Event::Clicked) =>
            Some(vec![HandlerId::ChooseRepositoryFolderButton]),
        (Source::ChooseRepositoryFolderDialog, Event::DialogResponded(_)) =>
            Some(vec![HandlerId::ChooseRepositoryFolderButton]),
        (Source::CommitDiffViewWidget, Event::ZoomRequested(_)) =>
            Some(vec![HandlerId::CommitDiffView]),
        (Source::CommitAuthorFilterEntry, Event::CommitAuthorFilterChanged(_)) =>
            Some(vec![HandlerId::CommitLogModelFilter]),
        (Source::CommitLog, Event::CommitLogChanged) =>
            Some(vec![HandlerId::CommitLogModel]),
        (Source::CommitLogModelFilter, Event::MarkCommitForReportToggled(_)) =>
            Some(vec![HandlerId::CommitLogModel]),
        (Source::CommitLogView, Event::CommitSelected(_)) =>
            Some(vec![HandlerId::CommitDiffView]),
        (Source::CommitLogView, Event::CommitUnselected) =>
            Some(vec![HandlerId::CommitDiffView]),
        (Source::CommitLogViewCheckButton, Event::MarkCommitForReportToggled(_)) =>
            Some(vec![HandlerId::CommitLogModelFilter]),
        (Source::CommitLogViewWidget, Event::SelectionChanged(_)) =>
            Some(vec![HandlerId::CommitLogView]),
        (Source::GenerateReportButton, Event::GenerateReportRequested) =>
            Some(vec![HandlerId::ReportGenerator]),
        (Source::MonthComboBox, Event::MonthFilterChanged(_)) =>
            Some(vec![HandlerId::CommitLogModelFilter, HandlerId::OutputPathStore]),
        (Source::OpenOptionsButton, Event::OpenOptionsRequested) =>
            Some(vec![HandlerId::OptionsDialog]),
        (Source::OptionsDialog, Event::OutputFileNamesPatternChanged(_)) =>
            Some(vec![HandlerId::ReportGenerator]),
        (Source::OptionsDialogWidget, Event::DialogResponded(_)) =>
            Some(vec![HandlerId::OptionsDialog]),
        (Source::OutputPathStore, Event::OutputPathChanged(_)) =>
            Some(vec![
                HandlerId::OutputPathLabel,
                HandlerId::ReportGenerator,
                HandlerId::ConfigStore,
            ]),
        (Source::OutputPathStore, Event::PartialOutputPathChanged(_)) =>
            Some(vec![HandlerId::OutputPathLabel]),
        (Source::RepositoryStore, Event::RepositoryChanged(_)) =>
            Some(vec![
                HandlerId::RepositoryPathLabel,
                HandlerId::CommitLog,
                HandlerId::CommitDiffView,
                HandlerId::ReportGenerator,
                HandlerId::ConfigStore,
            ]),
        (Source::YearSpinButton, Event::YearFilterChanged(_)) =>
            Some(vec![HandlerId::CommitLogModelFilter, HandlerId::OutputPathStore]),
        _ => None,
    }
}

} // verus!
