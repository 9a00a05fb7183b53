use savegame_orchestrator::guard::OperationKind;
use savegame_orchestrator::log::Outcome;
use savegame_orchestrator::orchestrator::{Action, Modal, Orchestrator, Screen, StartError};
use savegame_orchestrator::roots::{RootDescriptor, RootRegistry, Store};

fn strings(items: &[&str]) -> Vec<String> {
    items.iter().map(|s| s.to_string()).collect()
}

fn two_games() -> Orchestrator {
    let roots = RootRegistry::from_roots(vec![RootDescriptor::new("/games".to_string(), Store::Other)]);
    Orchestrator::new(strings(&["A", "B"]), "/backup".to_string(), "/restore".to_string(), roots)
}

#[test]
fn preview_backup_logs_only_matching_games() {
    let mut o = two_games();
    let action = o.start(OperationKind::PreviewBackup);
    match action {
        Action::Dispatch(d) => {
            assert_eq!(d.kind, OperationKind::PreviewBackup);
            assert_eq!(d.games, strings(&["A", "B"]));
            assert_eq!(d.roots.len(), 1);
            assert_eq!(d.roots[0].path, "/games");
            assert_eq!(d.roots[0].store, Store::Other);
            assert!(d.location.is_none());
            assert!(d.enter_app_dir);
        }
        _ => panic!("expected a dispatch"),
    }
    assert_eq!(o.current_kind(), Some(OperationKind::PreviewBackup));
    assert_eq!(o.pending(), 2);
    let a = o.task_completed("A".to_string(), Outcome::new(strings(&["save1.dat"]), vec![]));
    assert!(matches!(a, Action::Nothing));
    assert_eq!(o.current_kind(), Some(OperationKind::PreviewBackup));
    let b = o.task_completed("B".to_string(), Outcome::new(vec![], vec![]));
    assert!(matches!(b, Action::RestoreWorkingDir));
    assert!(o.is_idle());
    let log = o.backup_log();
    assert_eq!(log.count(), 1);
    assert_eq!(log.entry(0).name(), "A");
    assert_eq!(o.restore_log().count(), 0);
}

#[test]
fn restore_start_while_backup_runs_is_ignored() {
    let mut o = two_games();
    assert!(matches!(o.start(OperationKind::Backup), Action::CheckBackupTarget { ref path } if path == "/backup"));
    let d = o.precondition_checked("/abs/backup".to_string(), true);
    match d {
        Action::Dispatch(d) => {
            assert_eq!(d.kind, OperationKind::Backup);
            assert_eq!(d.location, Some("/abs/backup".to_string()));
        }
        _ => panic!("expected a dispatch"),
    }
    o.task_completed("A".to_string(), Outcome::new(strings(&["x"]), vec![]));
    assert!(matches!(o.start(OperationKind::Restore), Action::Nothing));
    assert_eq!(o.current_kind(), Some(OperationKind::Backup));
    assert_eq!(o.restore_log().count(), 0);
    assert_eq!(o.backup_log().count(), 1);
    assert_eq!(o.pending(), 1);
}

#[test]
fn restore_from_missing_directory_reports_the_resolved_path() {
    let mut o = two_games();
    assert!(matches!(o.start(OperationKind::Restore), Action::CheckRestoreSource { ref path } if path == "/restore"));
    let a = o.precondition_checked("/abs/restore".to_string(), false);
    assert!(matches!(a, Action::Nothing));
    assert!(o.is_idle());
    assert_eq!(o.pending(), 0);
    match o.modal() {
        Some(Modal::Error(StartError::RestorationSourceInvalid { path })) => assert_eq!(path, "/abs/restore"),
        _ => panic!("expected a restoration source error"),
    }
    assert!(matches!(o.dismiss(), Action::RestoreWorkingDir));
    assert!(o.modal().is_none());
}

#[test]
fn backup_target_failure_frees_the_guard() {
    let mut o = two_games();
    o.start(OperationKind::Backup);
    assert_eq!(o.current_kind(), Some(OperationKind::Backup));
    o.precondition_checked("/abs/backup".to_string(), false);
    assert!(o.is_idle());
    assert!(matches!(o.modal(), Some(Modal::Error(StartError::BackupTargetInvalid))));
}

#[test]
fn run_returns_to_idle_after_every_task() {
    let mut o = two_games();
    o.start(OperationKind::PreviewRestore);
    o.precondition_checked("/r".to_string(), true);
    assert_eq!(o.current_kind(), Some(OperationKind::PreviewRestore));
    assert!(matches!(o.task_completed("B".to_string(), Outcome::new(vec![], strings(&["HKCU/b"]))), Action::Nothing));
    assert_eq!(o.current_kind(), Some(OperationKind::PreviewRestore));
    assert!(matches!(o.task_completed("A".to_string(), Outcome::new(vec![], vec![])), Action::Nothing));
    assert!(o.is_idle());
    assert_eq!(o.restore_log().count(), 1);
    assert_eq!(o.backup_log().count(), 0);
    // a stray report after the run changes nothing
    o.task_completed("C".to_string(), Outcome::new(strings(&["c"]), vec![]));
    assert_eq!(o.restore_log().count(), 1);
}

#[test]
fn empty_manifest_still_reaches_idle() {
    let mut o = Orchestrator::new(vec![], "/b".to_string(), "/r".to_string(), RootRegistry::new());
    match o.start(OperationKind::PreviewBackup) {
        Action::Dispatch(d) => {
            assert!(d.games.is_empty());
            assert!(!d.enter_app_dir);
        }
        _ => panic!("expected a dispatch"),
    }
    assert!(o.is_idle());
    o.start(OperationKind::Restore);
    o.precondition_checked("/r".to_string(), true);
    assert!(o.is_idle());
}

#[test]
fn new_start_clears_the_screen_log() {
    let mut o = two_games();
    o.start(OperationKind::PreviewBackup);
    o.task_completed("A".to_string(), Outcome::new(strings(&["a"]), vec![]));
    o.task_completed("B".to_string(), Outcome::new(strings(&["b"]), vec![]));
    assert_eq!(o.backup_log().count(), 2);
    o.start(OperationKind::PreviewBackup);
    assert_eq!(o.backup_log().count(), 0);
}

#[test]
fn confirmation_gate_starts_or_dismisses() {
    let mut o = two_games();
    o.request_backup();
    assert!(matches!(o.modal(), Some(Modal::ConfirmBackup)));
    assert!(o.is_idle());
    assert!(matches!(o.confirm(), Action::CheckBackupTarget { .. }));
    assert!(o.modal().is_none());
    assert_eq!(o.current_kind(), Some(OperationKind::Backup));

    let mut p = two_games();
    p.request_restore();
    assert!(matches!(p.modal(), Some(Modal::ConfirmRestore)));
    assert!(matches!(p.dismiss(), Action::RestoreWorkingDir));
    assert!(p.is_idle());
    assert!(p.modal().is_none());
    p.request_restore();
    assert!(matches!(p.confirm(), Action::CheckRestoreSource { .. }));
    assert_eq!(p.current_kind(), Some(OperationKind::Restore));
}

#[test]
fn settings_edits() {
    let mut o = two_games();
    o.set_backup_path("/b2".to_string());
    o.set_restore_path("/r2".to_string());
    assert_eq!(o.backup_path(), "/b2");
    assert_eq!(o.restore_path(), "/r2");
    o.add_root();
    assert_eq!(o.roots().len(), 2);
    assert_eq!(o.roots().get(1).path, "");
    assert_eq!(o.roots().get(1).store, Store::Other);
    o.set_root_path(1, "/steam".to_string());
    o.set_root_store(1, Store::Steam);
    assert_eq!(o.roots().get(1).path, "/steam");
    assert_eq!(o.roots().get(1).store, Store::Steam);
    o.remove_root(0);
    assert_eq!(o.roots().len(), 1);
    assert_eq!(o.roots().get(0).path, "/steam");
    assert_eq!(o.screen(), Screen::Backup);
    o.show_screen(Screen::Restore);
    assert_eq!(o.screen(), Screen::Restore);
}

#[test]
fn confirm_while_running_is_ignored_and_edits_keep_the_dialog() {
    let mut o = two_games();
    o.start(OperationKind::PreviewBackup);
    o.request_restore();
    o.add_root();
    o.remove_root(0);
    o.set_backup_path("/elsewhere".to_string());
    assert!(matches!(o.modal(), Some(Modal::ConfirmRestore)));
    assert!(matches!(o.confirm(), Action::Nothing));
    assert!(o.modal().is_none());
    assert_eq!(o.current_kind(), Some(OperationKind::PreviewBackup));
    assert_eq!(o.pending(), 2);
    assert_eq!(o.restore_path(), "/restore");
}
