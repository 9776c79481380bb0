use vstd::prelude::*;

verus! {

/// Tag naming the widget or component an event originated from.  Routing
/// keys on the pair of a source and an event kind, so the same event kind
/// coming from two different widgets can reach different handlers.
#[derive(Clone, Copy, Debug, PartialEq, Eq, Structural)]
pub enum Source {
    ApplicationWindow,
    ChooseOutputFolderButton,
    ChooseOutputFolderButtonWidget,
    ChooseOutputFolderDialog,
    ChooseRepositoryFolderButton,
    ChooseRepositoryFolderButtonWidget,
    ChooseRepositoryFolderDialog,
    CommitDiffViewWidget,
    CommitAuthorFilterEntry,
    CommitLog,
    CommitLogModelFilter,
    CommitLogView,
    CommitLogViewCheckButton,
    CommitLogViewWidget,
    GenerateReportButton,
    MonthComboBox,
    OpenOptionsButton,
    OptionsDialog,
    OptionsDialogWidget,
    OutputPathStore,
    PaneWithCommitLogAndDiff,
    RepositoryStore,
    YearSpinButton,
}

} // verus!
