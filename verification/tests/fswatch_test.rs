use overfloat::fswatch::{
    channel_of, emit_filechange, handle_fswatch_event, handle_fswatch_event_linux,
    handle_fswatch_event_windows, Backend, EventKind, FileChangeKind, FileChangeMessage,
    ModifyKind, RawEvent, RemoveKind, RenameMode, RenamePairState,
};
use overfloat::registry::{add_watched_path, remove_watched_path, WatchedPaths};

fn text(s: &str) -> String {
    s.to_string()
}

fn raw(kind: EventKind, paths: &[&str]) -> RawEvent {
    RawEvent { kind, paths: paths.iter().map(|p| p.to_string()).collect() }
}

fn expect(
    message: Option<FileChangeMessage>,
    kind: u64,
    is_dir: bool,
    path: &str,
    path_old: &str,
) {
    let message = message.expect("a message");
    assert_eq!(message.window_label, "A");
    assert_eq!(message.channel, "Overfloat://FSEvent/w1");
    assert_eq!(message.payload.kind, kind);
    assert_eq!(message.payload.is_dir, is_dir);
    assert_eq!(message.payload.path, path);
    assert_eq!(message.payload.path_old, path_old);
    assert_eq!(message.payload.timestamp, 1234);
}

fn linux(kind: EventKind, paths: &[&str], lookup: Option<bool>) -> Option<FileChangeMessage> {
    handle_fswatch_event_linux(&raw(kind, paths), lookup, &text("A"), &text("w1"), 1234)
}

fn windows(
    kind: EventKind,
    paths: &[&str],
    lookup: Option<bool>,
    state: &mut RenamePairState,
) -> Option<FileChangeMessage> {
    handle_fswatch_event_windows(&raw(kind, paths), lookup, &text("A"), &text("w1"), 1234, state)
}

#[test]
fn kind_codes() {
    assert_eq!(FileChangeKind::Created.code(), 0);
    assert_eq!(FileChangeKind::Removed.code(), 1);
    assert_eq!(FileChangeKind::Modified.code(), 2);
    assert_eq!(FileChangeKind::Renamed.code(), 3);
}

#[test]
fn channel_is_derived_from_the_identifier() {
    assert_eq!(channel_of(&text("w1")), "Overfloat://FSEvent/w1");
    assert_eq!(channel_of(&text("")), "Overfloat://FSEvent/");
    assert_eq!(channel_of(&text("a/b c")), "Overfloat://FSEvent/a/b c");
}

#[test]
fn message_holds_what_it_was_built_from() {
    let message = emit_filechange(
        &text("win"),
        &text("id7"),
        FileChangeKind::Renamed,
        true,
        &text("/new"),
        &text("/old"),
        u128::MAX,
    );
    assert_eq!(message.window_label, "win");
    assert_eq!(message.channel, "Overfloat://FSEvent/id7");
    assert_eq!(message.payload.kind, 3);
    assert!(message.payload.is_dir);
    assert_eq!(message.payload.path, "/new");
    assert_eq!(message.payload.path_old, "/old");
    assert_eq!(message.payload.timestamp, u128::MAX);
}

#[test]
fn linux_create_of_a_directory() {
    expect(linux(EventKind::Create, &["/tmp/d"], Some(true)), 0, true, "/tmp/d", "/tmp/d");
}

#[test]
fn linux_create_of_a_file() {
    expect(linux(EventKind::Create, &["/tmp/f"], Some(false)), 0, false, "/tmp/f", "/tmp/f");
}

#[test]
fn linux_failed_lookup_counts_as_no_directory() {
    expect(linux(EventKind::Create, &["/gone"], None), 0, false, "/gone", "/gone");
    expect(
        linux(EventKind::Modify(ModifyKind::Data), &["/gone"], None),
        2,
        false,
        "/gone",
        "/gone",
    );
}

#[test]
fn linux_remove_goes_by_the_kind_not_by_the_lookup() {
    expect(linux(EventKind::Remove(RemoveKind::File), &["/f"], Some(true)), 1, false, "/f", "/f");
    expect(linux(EventKind::Remove(RemoveKind::Folder), &["/d"], None), 1, true, "/d", "/d");
    expect(linux(EventKind::Remove(RemoveKind::Folder), &["/d"], Some(false)), 1, true, "/d", "/d");
}

#[test]
fn linux_modify_of_data() {
    expect(linux(EventKind::Modify(ModifyKind::Data), &["/f"], Some(false)), 2, false, "/f", "/f");
    expect(linux(EventKind::Modify(ModifyKind::Data), &["/d"], Some(true)), 2, true, "/d", "/d");
}

#[test]
fn linux_rename_with_both_paths() {
    expect(
        linux(EventKind::Modify(ModifyKind::Name(RenameMode::Both)), &["/a", "/b"], Some(false)),
        3,
        false,
        "/b",
        "/a",
    );
}

#[test]
fn linux_rename_with_one_path() {
    expect(
        linux(EventKind::Modify(ModifyKind::Name(RenameMode::Both)), &["/a"], Some(true)),
        3,
        true,
        "/a",
        "/a",
    );
}

#[test]
fn linux_old_path_is_the_path_unless_renamed() {
    expect(linux(EventKind::Create, &["/a", "/b"], Some(false)), 0, false, "/a", "/a");
    expect(linux(EventKind::Remove(RemoveKind::File), &["/a", "/b"], None), 1, false, "/a", "/a");
}

#[test]
fn linux_other_kinds_are_dropped() {
    for kind in [
        EventKind::Any,
        EventKind::Access,
        EventKind::Other,
        EventKind::Remove(RemoveKind::Any),
        EventKind::Remove(RemoveKind::Other),
        EventKind::Modify(ModifyKind::Any),
        EventKind::Modify(ModifyKind::Metadata),
        EventKind::Modify(ModifyKind::Other),
        EventKind::Modify(ModifyKind::Name(RenameMode::Any)),
        EventKind::Modify(ModifyKind::Name(RenameMode::From)),
        EventKind::Modify(ModifyKind::Name(RenameMode::To)),
        EventKind::Modify(ModifyKind::Name(RenameMode::Other)),
    ] {
        assert!(linux(kind, &["/a", "/b"], Some(true)).is_none());
    }
}

#[test]
fn events_without_a_path_are_dropped() {
    let mut state = RenamePairState::new();
    for kind in [
        EventKind::Create,
        EventKind::Remove(RemoveKind::File),
        EventKind::Remove(RemoveKind::Any),
        EventKind::Modify(ModifyKind::Any),
        EventKind::Modify(ModifyKind::Data),
        EventKind::Modify(ModifyKind::Name(RenameMode::Both)),
        EventKind::Modify(ModifyKind::Name(RenameMode::From)),
        EventKind::Modify(ModifyKind::Name(RenameMode::To)),
    ] {
        assert!(linux(kind, &[], Some(true)).is_none());
        assert!(windows(kind, &[], Some(true), &mut state).is_none());
    }
    assert_eq!(state.last_rename_from(), "/");
}

#[test]
fn windows_rename_from_then_rename_to() {
    let mut state = RenamePairState::new();
    let from = windows(
        EventKind::Modify(ModifyKind::Name(RenameMode::From)),
        &["/a"],
        Some(false),
        &mut state,
    );
    assert!(from.is_none());
    assert_eq!(state.last_rename_from(), "/a");
    let to = windows(
        EventKind::Modify(ModifyKind::Name(RenameMode::To)),
        &["/b"],
        Some(false),
        &mut state,
    );
    expect(to, 3, false, "/b", "/a");
    assert_eq!(state.last_rename_from(), "/a");
}

#[test]
fn windows_rename_to_without_a_rename_from_has_the_root_as_old_path() {
    let mut state = RenamePairState::new();
    assert_eq!(state.last_rename_from(), "/");
    let to = windows(
        EventKind::Modify(ModifyKind::Name(RenameMode::To)),
        &["/b"],
        Some(true),
        &mut state,
    );
    expect(to, 3, true, "/b", "/");
}

#[test]
fn windows_pending_path_is_kept_across_other_events() {
    let mut state = RenamePairState::new();
    windows(EventKind::Modify(ModifyKind::Name(RenameMode::From)), &["/a"], None, &mut state);
    expect(windows(EventKind::Create, &["/c"], Some(false), &mut state), 0, false, "/c", "/c");
    assert!(windows(EventKind::Access, &["/d"], None, &mut state).is_none());
    assert_eq!(state.last_rename_from(), "/a");
    windows(EventKind::Modify(ModifyKind::Name(RenameMode::From)), &["/e"], None, &mut state);
    assert_eq!(state.last_rename_from(), "/e");
}

#[test]
fn windows_create_modify_remove() {
    let mut state = RenamePairState::new();
    expect(windows(EventKind::Create, &["/d"], Some(true), &mut state), 0, true, "/d", "/d");
    expect(
        windows(EventKind::Modify(ModifyKind::Any), &["/f"], Some(false), &mut state),
        2,
        false,
        "/f",
        "/f",
    );
    expect(
        windows(EventKind::Remove(RemoveKind::Any), &["/d"], Some(true), &mut state),
        1,
        false,
        "/d",
        "/d",
    );
    expect(windows(EventKind::Create, &["/gone"], None, &mut state), 0, false, "/gone", "/gone");
}

#[test]
fn windows_other_kinds_are_dropped() {
    let mut state = RenamePairState::new();
    for kind in [
        EventKind::Any,
        EventKind::Access,
        EventKind::Other,
        EventKind::Remove(RemoveKind::File),
        EventKind::Remove(RemoveKind::Folder),
        EventKind::Remove(RemoveKind::Other),
        EventKind::Modify(ModifyKind::Data),
        EventKind::Modify(ModifyKind::Metadata),
        EventKind::Modify(ModifyKind::Other),
        EventKind::Modify(ModifyKind::Name(RenameMode::Any)),
        EventKind::Modify(ModifyKind::Name(RenameMode::Both)),
        EventKind::Modify(ModifyKind::Name(RenameMode::Other)),
    ] {
        assert!(windows(kind, &["/a", "/b"], Some(true), &mut state).is_none());
    }
    assert_eq!(state.last_rename_from(), "/");
}

#[test]
fn the_backend_selects_the_variant() {
    let mut state = RenamePairState::new();
    let event = raw(EventKind::Modify(ModifyKind::Name(RenameMode::From)), &["/a"]);
    let on_linux =
        handle_fswatch_event(Backend::Linux, &event, None, &text("A"), &text("w1"), 1234, &mut state);
    assert!(on_linux.is_none());
    assert_eq!(state.last_rename_from(), "/");
    let on_windows = handle_fswatch_event(
        Backend::Windows,
        &event,
        None,
        &text("A"),
        &text("w1"),
        1234,
        &mut state,
    );
    assert!(on_windows.is_none());
    assert_eq!(state.last_rename_from(), "/a");
    let removal = raw(EventKind::Remove(RemoveKind::Folder), &["/d"]);
    expect(
        handle_fswatch_event(Backend::Linux, &removal, None, &text("A"), &text("w1"), 1234, &mut state),
        1,
        true,
        "/d",
        "/d",
    );
    assert!(handle_fswatch_event(
        Backend::Windows,
        &removal,
        None,
        &text("A"),
        &text("w1"),
        1234,
        &mut state
    )
    .is_none());
}

#[test]
fn watch_a_directory_see_a_file_created_then_stop() {
    let mut watched: WatchedPaths<&str> = WatchedPaths::new();
    let mut state = RenamePairState::new();
    assert_eq!(add_watched_path(&mut watched, &text("A"), &text("w1"), "/tmp/x"), None);
    assert!(watched.is_watched(&text("A"), &text("w1")));
    let created = raw(EventKind::Create, &["/tmp/x/f.txt"]);
    let message = handle_fswatch_event(
        Backend::Linux,
        &created,
        Some(false),
        &text("A"),
        &text("w1"),
        1234,
        &mut state,
    );
    expect(message, 0, false, "/tmp/x/f.txt", "/tmp/x/f.txt");
    assert_eq!(remove_watched_path(&mut watched, &text("A"), &text("w1")), Some("/tmp/x"));
    assert!(!watched.is_watched(&text("A"), &text("w1")));
    assert_eq!(remove_watched_path(&mut watched, &text("A"), &text("w1")), None);
}
