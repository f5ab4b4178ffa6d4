use backend_dispatch::backup::backup_action;
use backend_dispatch::backup::backup_step;
use backend_dispatch::backup::BackupAction;
use backend_dispatch::backup::BackupEvent;
use backend_dispatch::backup::BackupState;
use backend_dispatch::paths::normalize_path;
use backend_dispatch::paths::PathKind;

#[test]
fn existing_directory_is_returned_unchanged() {
    assert_eq!(normalize_path("/tmp/exports", PathKind::Directory), "/tmp/exports");
    assert_eq!(normalize_path("/", PathKind::Directory), "/");
}

#[test]
fn existing_file_degrades_to_its_parent() {
    assert_eq!(normalize_path("/tmp/exports/chat.db", PathKind::File), "/tmp/exports");
    assert_eq!(normalize_path("rel.txt", PathKind::File), "");
}

#[test]
fn uninspectable_path_degrades_to_its_parent() {
    assert_eq!(normalize_path("/no/such/place", PathKind::Inaccessible), "/no/such");
}

#[test]
fn root_with_no_parent_is_returned_unchanged() {
    assert_eq!(normalize_path("/", PathKind::Inaccessible), "/");
}

fn drive_all_creations_succeed() -> (String, bool) {
    let s = BackupState::CreateSystemBase;
    match backup_action(&s) {
        BackupAction::CreateDir { path } => {
            assert_eq!(path, "/Library/Application Support/iMessageWrapped");
        },
        _ => panic!("expected a directory creation"),
    }
    let s = backup_step(s, BackupEvent::DirCreated);
    match backup_action(&s) {
        BackupAction::CreateDir { path } => {
            assert_eq!(path, "/Library/Application Support/iMessageWrapped/backups");
        },
        _ => panic!("expected a directory creation"),
    }
    let s = backup_step(s, BackupEvent::DirCreated);
    match s {
        BackupState::Done { path, used_fallback } => (path, used_fallback),
        _ => panic!("expected the run to be done"),
    }
}

#[test]
fn successful_provisioning_ends_at_system_backups() {
    let (path, used_fallback) = drive_all_creations_succeed();
    assert_eq!(path, "/Library/Application Support/iMessageWrapped/backups");
    assert!(!used_fallback);
}

#[test]
fn repeated_provisioning_yields_the_same_path_without_error() {
    let (first, _) = drive_all_creations_succeed();
    let (second, _) = drive_all_creations_succeed();
    assert_eq!(first, second);
}

#[test]
fn system_failure_falls_back_to_user_tree() {
    let s = BackupState::CreateSystemBase;
    let s = backup_step(s, BackupEvent::DirFailed { message: "permission denied".to_string() });
    assert!(matches!(backup_action(&s), BackupAction::LookupHome));
    let s = backup_step(s, BackupEvent::HomeIs { home: "/home/u".to_string() });
    match backup_action(&s) {
        BackupAction::CreateDir { path } => {
            assert_eq!(path, "/home/u/Library/Application Support/iMessageWrapped");
        },
        _ => panic!("expected a directory creation"),
    }
    let s = backup_step(s, BackupEvent::DirCreated);
    let s = backup_step(s, BackupEvent::DirCreated);
    match s {
        BackupState::Done { path, used_fallback } => {
            assert_eq!(path, "/home/u/Library/Application Support/iMessageWrapped/backups");
            assert!(used_fallback);
        },
        _ => panic!("expected the run to be done"),
    }
}

#[test]
fn unresolved_home_fails_the_fallback() {
    let s = BackupState::CreateSystemBase;
    let s = backup_step(s, BackupEvent::DirFailed { message: "denied".to_string() });
    let s = backup_step(s, BackupEvent::HomeUnknown { message: "HOME not set".to_string() });
    match s {
        BackupState::Failed { message } => assert_eq!(message, "HOME not set"),
        _ => panic!("expected the run to fail"),
    }
}

#[test]
fn failure_creating_user_backups_surfaces() {
    let s = BackupState::CreateSystemBase;
    let s = backup_step(s, BackupEvent::DirFailed { message: "denied".to_string() });
    let s = backup_step(s, BackupEvent::HomeIs { home: "/home/u".to_string() });
    let s = backup_step(s, BackupEvent::DirFailed { message: "disk full".to_string() });
    match s {
        BackupState::Failed { message } => assert_eq!(message, "disk full"),
        _ => panic!("expected the run to fail"),
    }
}
