#![allow(non_snake_case)]

use rusty_tax_break::choose_folder_button::{ChooseFolderButton, FolderDialogChoice};
use rusty_tax_break::commit_log::{CommitLog, CommitRecord};
use rusty_tax_break::commit_log_view::handleSelectionChanged;
use rusty_tax_break::dispatcher::{route, HandlerId};
use rusty_tax_break::event::{DialogResponse, Event};
use rusty_tax_break::options_dialog::{OptionsDialog, OptionsDialogChoice};
use rusty_tax_break::source::Source;

#[test]
fn routesSingleHandlerEntries() {
    assert_eq!(
        route(Source::ChooseOutputFolderButtonWidget, &Event::Clicked),
        Some(vec![HandlerId::ChooseOutputFolderButton])
    );
    assert_eq!(
        route(Source::ChooseRepositoryFolderButton, &Event::FolderChosen("/r".to_string())),
        Some(vec![HandlerId::RepositoryStore])
    );
    assert_eq!(
        route(Source::ChooseOutputFolderButton, &Event::FolderChosen("/o".to_string())),
        Some(vec![HandlerId::OutputPathStore])
    );
    assert_eq!(
        route(Source::CommitLog, &Event::CommitLogChanged),
        Some(vec![HandlerId::CommitLogModel])
    );
    assert_eq!(
        route(Source::GenerateReportButton, &Event::GenerateReportRequested),
        Some(vec![HandlerId::ReportGenerator])
    );
    assert_eq!(
        route(Source::CommitLogView, &Event::CommitUnselected),
        Some(vec![HandlerId::CommitDiffView])
    );
}

#[test]
fn routesCompositeEntriesInDeclaredOrder() {
    assert_eq!(
        route(Source::MonthComboBox, &Event::MonthFilterChanged(7)),
        Some(vec![HandlerId::CommitLogModelFilter, HandlerId::OutputPathStore])
    );
    assert_eq!(
        route(Source::YearSpinButton, &Event::YearFilterChanged(2023)),
        Some(vec![HandlerId::CommitLogModelFilter, HandlerId::OutputPathStore])
    );
    let pathInfo = rusty_tax_break::event::OutputPathInfo {
        full: "/out/2023/07".to_string(),
        prefix: "/out".to_string(),
    };
    assert_eq!(
        route(Source::OutputPathStore, &Event::OutputPathChanged(pathInfo)),
        Some(vec![
            HandlerId::OutputPathLabel,
            HandlerId::ReportGenerator,
            HandlerId::ConfigStore,
        ])
    );
    assert_eq!(
        route(Source::RepositoryStore, &Event::RepositoryChanged("/r".to_string())),
        Some(vec![
            HandlerId::RepositoryPathLabel,
            HandlerId::CommitLog,
            HandlerId::CommitDiffView,
            HandlerId::ReportGenerator,
            HandlerId::ConfigStore,
        ])
    );
}

#[test]
fn unregisteredCombinationsAreRefused() {
    // an event from a source it was never wired to is a programming error
    assert_eq!(route(Source::ApplicationWindow, &Event::WindowMaximized(true)), None);
    assert_eq!(route(Source::PaneWithCommitLogAndDiff, &Event::PanePositionChanged(10)), None);
    assert_eq!(route(Source::CommitLog, &Event::Clicked), None);
    assert_eq!(route(Source::YearSpinButton, &Event::MonthFilterChanged(3)), None);
}

#[test]
fn optionsDialogSavesOnlyChangedPatterns() {
    let mut dialog = OptionsDialog::new("<commit_id>");
    assert_eq!(dialog.open(), "<commit_id>");
    let emitted = dialog.onSaveDialog("<commit_short_id>");
    assert_eq!(
        emitted,
        Some((
            Source::OptionsDialog,
            Event::OutputFileNamesPatternChanged("<commit_short_id>".to_string()),
        ))
    );
    dialog.open();
    assert_eq!(dialog.onSaveDialog("<commit_short_id>"), None, "unchanged pattern stays silent");
}

#[test]
fn optionsDialogSaveWithoutAnOpenDialogDoesNothing() {
    let mut dialog = OptionsDialog::new("a");
    assert_eq!(dialog.onSaveDialog("b"), None);
}

#[test]
fn optionsDialogMapsResponses() {
    let dialog = OptionsDialog::new("a");
    assert_eq!(dialog.onDialogResponded(DialogResponse::Apply), OptionsDialogChoice::Save);
    assert_eq!(dialog.onDialogResponded(DialogResponse::Cancel), OptionsDialogChoice::Close);
    assert_eq!(dialog.onDialogResponded(DialogResponse::DeleteEvent), OptionsDialogChoice::Forget);
    assert_eq!(
        dialog.onDialogResponded(DialogResponse::Accept),
        OptionsDialogChoice::WarnAndClose
    );
}

#[test]
fn chooseFolderButtonAnnouncesTheChosenFolder() {
    let mut button = ChooseFolderButton::new(
        Source::ChooseRepositoryFolderButton,
        Source::ChooseRepositoryFolderDialog,
    );
    assert_eq!(button.onClicked(), Source::ChooseRepositoryFolderDialog);
    assert_eq!(button.onDialogResponded(DialogResponse::Accept), FolderDialogChoice::Accepted);
    let emitted = button.onDialogAccepted(Some("/repo"));
    assert_eq!(
        emitted,
        Some((Source::ChooseRepositoryFolderButton, Event::FolderChosen("/repo".to_string())))
    );
    assert_eq!(button.onDialogAccepted(None), None, "closing with no selection stays silent");
}

#[test]
fn chooseFolderButtonWithoutADialogStaysSilent() {
    let mut button = ChooseFolderButton::new(
        Source::ChooseOutputFolderButton,
        Source::ChooseOutputFolderDialog,
    );
    assert_eq!(button.onDialogAccepted(Some("/out")), None);
    assert_eq!(button.onDialogResponded(DialogResponse::Cancel), FolderDialogChoice::Cancelled);
    assert_eq!(
        button.onDialogResponded(DialogResponse::DeleteEvent),
        FolderDialogChoice::Deleted
    );
}

#[test]
fn selectionChangesBecomeCommitEvents() {
    let records = vec![CommitRecord {
        id: "deadbeef".to_string(),
        summary: Some("s".to_string()),
        summaryLossy: None,
        authorName: Some("A".to_string()),
        authorEmail: Some("a@b".to_string()),
        timeSeconds: 0,
        timeOffsetMinutes: 0,
    }];
    let log = CommitLog::new(Some(&records)).unwrap();
    assert_eq!(
        handleSelectionChanged(&log, Some(0)),
        (Source::CommitLogView, Event::CommitSelected("deadbeef".to_string()))
    );
    assert_eq!(
        handleSelectionChanged(&log, None),
        (Source::CommitLogView, Event::CommitUnselected)
    );
}
