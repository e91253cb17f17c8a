use xkeen_ui::update::{Action, Completion, ExtractFailure, FileRole, InstallFailure, Outcome, UpdateError, UpdatePlan, UpdateRun};

fn plan(running: bool, backup: bool, target_exists: bool) -> UpdatePlan {
    UpdatePlan { running, backup, target_exists, spool_threshold: 1000 }
}

#[test]
fn running_core_is_stopped_backed_up_installed_and_restarted() {
    let (mut run, first) = UpdateRun::new(plan(true, true, true));
    assert_eq!(first, Action::Download);
    assert_eq!(run.advance(Outcome::Downloaded(500)), Action::Extract { from_spool: false });
    assert_eq!(run.advance(Outcome::Done), Action::Backup);
    assert!(!run.stopped);
    assert_eq!(run.advance(Outcome::Done), Action::StopCore);
    assert_eq!(run.advance(Outcome::Done), Action::Rename);
    assert!(run.stopped && run.backed_up);
    assert_eq!(run.advance(Outcome::Done), Action::MakeExecutable);
    assert_eq!(run.advance(Outcome::Done), Action::StartCore);
    assert_eq!(run.advance(Outcome::Done), Action::Finish(Completion::Success));
    assert_eq!(run.advance(Outcome::Done), Action::Finish(Completion::Success));
}

#[test]
fn large_artifact_is_spooled_and_the_spool_removed() {
    let (mut run, _) = UpdateRun::new(plan(false, false, true));
    assert_eq!(run.advance(Outcome::Downloaded(1001)), Action::Spool);
    assert_eq!(run.advance(Outcome::Done), Action::Extract { from_spool: true });
    assert_eq!(run.advance(Outcome::Done), Action::Remove(FileRole::Spool));
    assert_eq!(run.advance(Outcome::Done), Action::Rename);
    assert_eq!(run.advance(Outcome::Done), Action::MakeExecutable);
    assert_eq!(run.advance(Outcome::Done), Action::Finish(Completion::Success));
}

#[test]
fn failed_rename_falls_back_to_copy_and_still_sets_mode() {
    let (mut run, _) = UpdateRun::new(plan(false, false, true));
    run.advance(Outcome::Downloaded(10));
    assert_eq!(run.advance(Outcome::Done), Action::Rename);
    assert_eq!(run.advance(Outcome::Failed(UpdateError::InstallFailed(InstallFailure::Copy))), Action::Copy);
    assert_eq!(run.advance(Outcome::Done), Action::Remove(FileRole::Extracted));
    assert_eq!(run.advance(Outcome::Done), Action::MakeExecutable);
    assert_eq!(run.advance(Outcome::Done), Action::Finish(Completion::Success));
}

#[test]
fn no_backup_without_an_installed_binary() {
    let (mut run, _) = UpdateRun::new(plan(false, true, false));
    run.advance(Outcome::Downloaded(10));
    assert_eq!(run.advance(Outcome::Done), Action::Rename);
}

#[test]
fn download_failure_ends_at_once() {
    let (mut run, _) = UpdateRun::new(plan(true, true, true));
    let e = UpdateError::DownloadFailed;
    assert_eq!(run.advance(Outcome::Failed(e)), Action::Finish(Completion::Failure(e)));
}

#[test]
fn extraction_failure_removes_temporary_files() {
    let (mut run, _) = UpdateRun::new(plan(true, true, true));
    run.advance(Outcome::Downloaded(2000));
    run.advance(Outcome::Done);
    let e = UpdateError::ExtractionFailed(ExtractFailure::Format);
    assert_eq!(run.advance(Outcome::Failed(e)), Action::Remove(FileRole::Spool));
    assert_eq!(run.advance(Outcome::Done), Action::Remove(FileRole::Extracted));
    assert_eq!(run.advance(Outcome::Failed(UpdateError::ProcessError)), Action::Finish(Completion::Failure(e)));
    assert!(!run.stopped);
}

#[test]
fn failed_backup_leaves_running_core_and_target_alone() {
    let (mut run, _) = UpdateRun::new(plan(true, true, true));
    run.advance(Outcome::Downloaded(10));
    assert_eq!(run.advance(Outcome::Done), Action::Backup);
    let e = UpdateError::InstallFailed(InstallFailure::Backup);
    assert_eq!(run.advance(Outcome::Failed(e)), Action::Remove(FileRole::Extracted));
    assert_eq!(run.advance(Outcome::Done), Action::Finish(Completion::Failure(e)));
    assert!(!run.stopped);
}

#[test]
fn failed_copy_restores_backup_and_stops_there() {
    let (mut run, _) = UpdateRun::new(plan(true, true, true));
    run.advance(Outcome::Downloaded(10));
    run.advance(Outcome::Done);
    run.advance(Outcome::Done);
    assert_eq!(run.advance(Outcome::Done), Action::Rename);
    assert_eq!(run.advance(Outcome::Failed(UpdateError::InstallFailed(InstallFailure::Copy))), Action::Copy);
    let e = UpdateError::InstallFailed(InstallFailure::Copy);
    assert_eq!(run.advance(Outcome::Failed(e)), Action::Restore);
    assert_eq!(run.advance(Outcome::Done), Action::Remove(FileRole::Extracted));
    assert_eq!(run.advance(Outcome::Done), Action::Finish(Completion::Failure(e)));
}

#[test]
fn failed_mode_change_ends_the_run() {
    let (mut run, _) = UpdateRun::new(plan(true, false, true));
    run.advance(Outcome::Downloaded(10));
    assert_eq!(run.advance(Outcome::Done), Action::StopCore);
    assert_eq!(run.advance(Outcome::Done), Action::Rename);
    assert_eq!(run.advance(Outcome::Done), Action::MakeExecutable);
    let e = UpdateError::InstallFailed(InstallFailure::Permissions);
    assert_eq!(run.advance(Outcome::Failed(e)), Action::Finish(Completion::Failure(e)));
}

#[test]
fn failed_stop_puts_the_backup_back() {
    let (mut run, _) = UpdateRun::new(plan(true, true, true));
    run.advance(Outcome::Downloaded(10));
    run.advance(Outcome::Done);
    assert_eq!(run.advance(Outcome::Done), Action::StopCore);
    let e = UpdateError::ProcessError;
    assert_eq!(run.advance(Outcome::Failed(e)), Action::Restore);
    assert_eq!(run.advance(Outcome::Done), Action::Remove(FileRole::Extracted));
    assert_eq!(run.advance(Outcome::Done), Action::Finish(Completion::Failure(e)));
}
