use playlist_downloader::directory::{
    create_dir, remove_dir, remove_downloaded_songs, remove_unpacked_songs, DirectoryCommand,
    DirectoryOpFailed, DirectoryOperation, DOWNLOADED_PATH, UNPACKED_PATH,
};

fn carry_out(present: bool, command: &DirectoryCommand) -> bool {
    match command.operation {
        DirectoryOperation::Keep => present,
        DirectoryOperation::Create => true,
        DirectoryOperation::RemoveAll => false,
    }
}

#[test]
fn the_working_directories_have_their_names() {
    assert_eq!(DOWNLOADED_PATH, "songs");
    assert_eq!(UNPACKED_PATH, "songs_unpacked");
}

#[test]
fn a_missing_directory_is_created() {
    let command = create_dir("songs", false);
    assert_eq!(
        command,
        DirectoryCommand { path: "songs".to_string(), operation: DirectoryOperation::Create }
    );
}

#[test]
fn a_directory_that_is_there_is_kept() {
    let command = create_dir("songs", true);
    assert_eq!(command.path, "songs");
    assert_eq!(command.operation, DirectoryOperation::Keep);
}

#[test]
fn a_directory_that_is_there_is_removed() {
    let command = remove_dir("songs_unpacked/XYZ", true);
    assert_eq!(command.path, "songs_unpacked/XYZ");
    assert_eq!(command.operation, DirectoryOperation::RemoveAll);
}

#[test]
fn a_missing_directory_needs_no_removal() {
    assert_eq!(remove_dir("songs", false).operation, DirectoryOperation::Keep);
}

#[test]
fn the_downloads_are_removed_from_their_directory() {
    assert_eq!(
        remove_downloaded_songs(true),
        DirectoryCommand { path: "songs".to_string(), operation: DirectoryOperation::RemoveAll }
    );
    assert_eq!(remove_downloaded_songs(false).operation, DirectoryOperation::Keep);
    assert_eq!(remove_downloaded_songs(false).path, "songs");
}

#[test]
fn the_unpacked_songs_are_removed_from_their_directory() {
    assert_eq!(
        remove_unpacked_songs(true),
        DirectoryCommand {
            path: "songs_unpacked".to_string(),
            operation: DirectoryOperation::RemoveAll,
        }
    );
    assert_eq!(remove_unpacked_songs(false).operation, DirectoryOperation::Keep);
}

#[test]
fn ensuring_twice_asks_for_nothing_the_second_time() {
    for present in [false, true] {
        let first = create_dir("songs", present);
        let after_first = carry_out(present, &first);
        assert!(after_first);
        let second = create_dir("songs", after_first);
        assert_eq!(second.operation, DirectoryOperation::Keep);
        assert_eq!(second.report(true), None);
        assert_eq!(second.report(false), None);
        assert_eq!(second.outcome(false), Ok(()));
        assert!(carry_out(after_first, &second));
    }
}

#[test]
fn removing_and_then_ensuring_creates_the_directory_anew() {
    for present in [false, true] {
        let removal = remove_dir("songs", present);
        let after_removal = carry_out(present, &removal);
        assert!(!after_removal);
        let creation = create_dir("songs", after_removal);
        assert_eq!(creation.operation, DirectoryOperation::Create);
    }
}

#[test]
fn the_report_tells_what_was_done() {
    assert_eq!(
        create_dir("songs", false).report(true),
        Some("songs directory created".to_string())
    );
    assert_eq!(
        remove_dir("songs", true).report(true),
        Some("songs directory removed with all its contents".to_string())
    );
}

#[test]
fn the_report_tells_what_failed() {
    assert_eq!(
        create_dir("songs", false).report(false),
        Some("Failed to create directory songs".to_string())
    );
    assert_eq!(
        remove_dir("songs", true).report(false),
        Some("Failed to remove directory songs".to_string())
    );
}

#[test]
fn nothing_is_reported_where_nothing_was_done() {
    assert_eq!(create_dir("songs", true).report(true), None);
    assert_eq!(remove_dir("songs", false).report(false), None);
}

#[test]
fn a_failed_operation_is_an_error_that_the_caller_may_drop() {
    assert_eq!(
        create_dir("songs", false).outcome(false),
        Err(DirectoryOpFailed { operation: DirectoryOperation::Create })
    );
    assert_eq!(
        remove_dir("songs", true).outcome(false),
        Err(DirectoryOpFailed { operation: DirectoryOperation::RemoveAll })
    );
    assert_eq!(create_dir("songs", false).outcome(true), Ok(()));
    assert_eq!(remove_dir("songs", true).outcome(true), Ok(()));
    assert_eq!(create_dir("songs", true).outcome(false), Ok(()));
}
