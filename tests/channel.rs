use bitwarden_backup::channel::{
    is_export_file, provision_plan, should_capture, Provision, WatchEventKind, WatchTarget,
    DEBOUNCE_MILLIS, EXPORT_FILE_PREFIX,
};

#[test]
fn debounce_is_bounded_and_positive() {
    assert!(DEBOUNCE_MILLIS > 0);
    assert!(DEBOUNCE_MILLIS <= 10_000);
}

#[test]
fn export_files_are_told_by_their_name() {
    assert!(is_export_file("bitwarden_export.json"));
    assert!(is_export_file("bitwarden_export_20240101.json"));
    assert!(is_export_file(EXPORT_FILE_PREFIX));
    assert!(!is_export_file("bitwarden_expor"));
    assert!(!is_export_file("notes.txt"));
    assert!(!is_export_file(""));
    assert!(!is_export_file("my_bitwarden_export.json"));
}

#[test]
fn capture_only_on_create_or_write() {
    let name = Some("bitwarden_export.json");
    assert!(should_capture(WatchTarget::Directory, WatchEventKind::Create, name));
    assert!(should_capture(WatchTarget::Directory, WatchEventKind::Write, name));
    assert!(!should_capture(WatchTarget::Directory, WatchEventKind::Other, name));
    assert!(!should_capture(WatchTarget::File, WatchEventKind::Other, name));
}

#[test]
fn directory_watch_ignores_other_files() {
    assert!(!should_capture(WatchTarget::Directory, WatchEventKind::Create, Some("other.json")));
    assert!(!should_capture(WatchTarget::Directory, WatchEventKind::Create, None));
    assert!(should_capture(WatchTarget::File, WatchEventKind::Write, Some("other.json")));
    assert!(should_capture(WatchTarget::File, WatchEventKind::Create, None));
}

#[test]
fn provisioning_follows_what_is_found() {
    assert_eq!(provision_plan(false, false), Provision::CreateDirectory);
    assert_eq!(provision_plan(false, true), Provision::CreateDirectory);
    assert_eq!(provision_plan(true, true), Provision::ReuseDirectory);
    assert_eq!(provision_plan(true, false), Provision::EmptyFile);
    assert_eq!(Provision::EmptyFile.target(), WatchTarget::File);
    assert_eq!(Provision::CreateDirectory.target(), WatchTarget::Directory);
    assert_eq!(Provision::ReuseDirectory.target(), WatchTarget::Directory);
}
