//! Normalisation of raw filesystem notifications.
//!
//! The notification backends of the platforms report changes in different shapes. This
//! module reduces what they report to one vocabulary of four kinds of change, and builds
//! the message that tells a window of a change.
//!
//! Two backends are covered. One reports a rename as a single event with both paths; the
//! other reports it as two events, the old path first and the new path after it, which
//! have to be paired.

use vstd::prelude::*;
use vstd::string::*;

verus! {

/// How a rename is reported.
#[derive(Clone, Copy, Debug, PartialEq, Eq, Structural)]
pub enum RenameMode {
    Any,
    /// The event carries the new path.
    To,
    /// The event carries the old path.
    From,
    /// The event carries the old path and then the new one.
    Both,
    Other,
}

/// What was removed.
#[derive(Clone, Copy, Debug, PartialEq, Eq, Structural)]
pub enum RemoveKind {
    Any,
    File,
    Folder,
    Other,
}

/// What was modified.
#[derive(Clone, Copy, Debug, PartialEq, Eq, Structural)]
pub enum ModifyKind {
    Any,
    Data,
    Metadata,
    Name(RenameMode),
    Other,
}

/// The kind of a raw notification.
#[derive(Clone, Copy, Debug, PartialEq, Eq, Structural)]
pub enum EventKind {
    Any,
    Access,
    Create,
    Modify(ModifyKind),
    Remove(RemoveKind),
    Other,
}

/// A raw notification: its kind and the paths it is about.
pub struct RawEvent {
    pub kind: EventKind,
    pub paths: Vec<String>,
}

impl RawEvent {
    /// The paths of the notification, as texts.
    pub open spec fn path_texts(&self) -> Seq<Seq<char>> {
        Seq::new(self.paths@.len(), |i: int| self.paths@[i]@)
    }
}

/// The kind of a change, as windows are told of it.
#[derive(Clone, Copy, Debug, PartialEq, Eq, Structural)]
pub enum FileChangeKind {
    Created,
    Removed,
    Modified,
    Renamed,
}

impl FileChangeKind {
    /// The number that stands for the kind in a message.
    pub open spec fn spec_code(self) -> u64 {
        match self {
            FileChangeKind::Created => 0,
            FileChangeKind::Removed => 1,
            FileChangeKind::Modified => 2,
            FileChangeKind::Renamed => 3,
        }
    }

    /// Returns the number that stands for the kind in a message.
    pub fn code(self) -> (code: u64)
        ensures
            code == self.spec_code(),
    {
        match self {
            FileChangeKind::Created => 0,
            FileChangeKind::Removed => 1,
            FileChangeKind::Modified => 2,
            FileChangeKind::Renamed => 3,
        }
    }
}

/// A change of the filesystem in the common vocabulary.
pub ghost struct FileChange {
    pub kind: FileChangeKind,
    pub is_dir: bool,
    pub path: Seq<char>,
    pub path_old: Seq<char>,
}

/// What a window is told of a change. `path_old` differs from `path` only for a rename.
/// `kind` is the number of the kind of change, and `timestamp` counts milliseconds.
pub struct PayloadFileChange {
    pub kind: u64,
    pub is_dir: bool,
    pub path: String,
    pub path_old: String,
    pub timestamp: u128,
}

impl PayloadFileChange {
    /// Whether the payload tells of `change`, observed at `timestamp`.
    pub open spec fn tells(&self, change: FileChange, timestamp: u128) -> bool {
        &&& self.kind == change.kind.spec_code()
        &&& self.is_dir == change.is_dir
        &&& self.path@ == change.path
        &&& self.path_old@ == change.path_old
        &&& self.timestamp == timestamp
    }
}

/// A message to a window: the label of the window, the channel, and the payload.
pub struct FileChangeMessage {
    pub window_label: String,
    pub channel: String,
    pub payload: PayloadFileChange,
}

impl FileChangeMessage {
    /// Whether the message tells the window `window_label`, on the channel of the watch
    /// `id`, of `change`, observed at `timestamp`.
    pub open spec fn announces(
        &self,
        window_label: Seq<char>,
        id: Seq<char>,
        change: FileChange,
        timestamp: u128,
    ) -> bool {
        &&& self.window_label@ == window_label
        &&& self.channel@ == channel_name(id)
        &&& self.payload.tells(change, timestamp)
    }
}

/// The name of the channel on which the changes of the watch `id` are announced.
pub open spec fn channel_name(id: Seq<char>) -> Seq<char> {
    "Overfloat://FSEvent/"@ + id
}

/// Whether the first path of a notification is taken for a directory, given what the
/// lookup of its metadata said. A lookup that failed, as it does when the path is gone
/// by the time it is made, counts as "no directory".
pub open spec fn is_dir_of(metadata_is_dir: Option<bool>) -> bool {
    match metadata_is_dir {
        Some(is_dir) => is_dir,
        None => false,
    }
}

/// What a notification of the backend that reports both paths of a rename at once
/// becomes. `is_dir` says whether the first path is a directory. A notification without
/// a path, or of a kind that is not listed, becomes nothing.
pub open spec fn normalize_linux(kind: EventKind, paths: Seq<Seq<char>>, is_dir: bool) -> Option<
    FileChange,
> {
    if paths.len() == 0 {
        None
    } else {
        let path = paths[0];
        match kind {
            EventKind::Create => Some(
                FileChange { kind: FileChangeKind::Created, is_dir, path, path_old: path },
            ),
            EventKind::Remove(RemoveKind::File) => Some(
                FileChange { kind: FileChangeKind::Removed, is_dir: false, path, path_old: path },
            ),
            EventKind::Remove(RemoveKind::Folder) => Some(
                FileChange { kind: FileChangeKind::Removed, is_dir: true, path, path_old: path },
            ),
            EventKind::Modify(ModifyKind::Data) => Some(
                FileChange { kind: FileChangeKind::Modified, is_dir, path, path_old: path },
            ),
            EventKind::Modify(ModifyKind::Name(RenameMode::Both)) => Some(
                FileChange {
                    kind: FileChangeKind::Renamed,
                    is_dir,
                    path: if paths.len() > 1 {
                        paths[1]
                    } else {
                        path
                    },
                    path_old: path,
                },
            ),
            _ => None,
        }
    }
}

/// What a notification of the backend that reports a rename in two parts becomes.
/// `pending` is the old path of the rename that was reported last. `is_dir` says whether
/// the path is a directory. A notification without a path, or of a kind that is not
/// listed, becomes nothing, and so does the first part of a rename.
pub open spec fn normalize_windows(
    kind: EventKind,
    paths: Seq<Seq<char>>,
    is_dir: bool,
    pending: Seq<char>,
) -> Option<FileChange> {
    if paths.len() == 0 {
        None
    } else {
        let path = paths[0];
        match kind {
            EventKind::Create => Some(
                FileChange { kind: FileChangeKind::Created, is_dir, path, path_old: path },
            ),
            EventKind::Modify(ModifyKind::Name(RenameMode::To)) => Some(
                FileChange { kind: FileChangeKind::Renamed, is_dir, path, path_old: pending },
            ),
            EventKind::Modify(ModifyKind::Any) => Some(
                FileChange { kind: FileChangeKind::Modified, is_dir, path, path_old: path },
            ),
            EventKind::Remove(RemoveKind::Any) => Some(
                FileChange { kind: FileChangeKind::Removed, is_dir: false, path, path_old: path },
            ),
            _ => None,
        }
    }
}

/// The old path that is pending after a notification of the backend that reports a
/// rename in two parts: the path of the notification, where it is the first part of a
/// rename, and else what was pending before.
pub open spec fn next_pending(kind: EventKind, paths: Seq<Seq<char>>, pending: Seq<char>) -> Seq<
    char,
> {
    if paths.len() > 0 && kind == EventKind::Modify(ModifyKind::Name(RenameMode::From)) {
        paths[0]
    } else {
        pending
    }
}

/// The old path of the rename whose first part was reported last.
pub struct RenamePairState {
    last_rename_from: String,
}

impl View for RenamePairState {
    type V = Seq<char>;

    closed spec fn view(&self) -> Seq<char> {
        self.last_rename_from@
    }
}

impl RenamePairState {
    /// The state before any rename was reported: the pending path is the root, `/`.
    pub fn new() -> (state: RenamePairState)
        ensures
            state@ == "/"@,
    {
        RenamePairState { last_rename_from: "/".to_owned() }
    }

    /// Returns the pending path.
    pub fn last_rename_from(&self) -> (path: String)
        ensures
            path@ == self@,
    {
        self.last_rename_from.clone()
    }
}

/// The backend that the notifications come from.
#[derive(Clone, Copy, Debug, PartialEq, Eq, Structural)]
pub enum Backend {
    /// Reports a rename as one event with both paths.
    Linux,
    /// Reports a rename as two events, the old path first.
    Windows,
}

/// Returns the name of the channel on which the changes of the watch `id` are announced.
pub fn channel_of(id: &String) -> (channel: String)
    ensures
        channel@ == channel_name(id@),
{
    let mut channel = "Overfloat://FSEvent/".to_owned();
    channel.append(id.as_str());
    channel
}

/// Builds the message that tells the window `window_label`, on the channel of the watch
/// `id`, of a change.
pub fn emit_filechange(
    window_label: &String,
    id: &String,
    kind: FileChangeKind,
    is_dir: bool,
    path: &String,
    path_old: &String,
    timestamp: u128,
) -> (message: FileChangeMessage)
    ensures
        message.announces(
            window_label@,
            id@,
            FileChange { kind, is_dir, path: path@, path_old: path_old@ },
            timestamp,
        ),
{
    FileChangeMessage {
        window_label: window_label.clone(),
        channel: channel_of(id),
        payload: PayloadFileChange {
            kind: kind.code(),
            is_dir,
            path: path.clone(),
            path_old: path_old.clone(),
            timestamp,
        },
    }
}

/// Handles a notification of the backend that reports both paths of a rename at once,
/// for the watch `id` of the window `window_label`. `metadata_is_dir` is what the lookup
/// of the metadata of the first path said, or nothing where the lookup failed;
/// `timestamp` is the time of the notification in milliseconds. Returns the message to
/// send, where the notification amounts to a change.
pub fn handle_fswatch_event_linux(
    event: &RawEvent,
    metadata_is_dir: Option<bool>,
    window_label: &String,
    id: &String,
    timestamp: u128,
) -> (message: Option<FileChangeMessage>)
    ensures
        match normalize_linux(event.kind, event.path_texts(), is_dir_of(metadata_is_dir)) {
            Some(change) => message is Some && message->0.announces(
                window_label@,
                id@,
                change,
                timestamp,
            ),
            None => message is None,
        },
{
    if event.paths.len() == 0 {
        return None;
    }
    let path = &event.paths[0];
    assert(event.path_texts()[0] == path@);
    let is_dir = match metadata_is_dir {
        Some(is_dir) => is_dir,
        None => false,
    };
    match event.kind {
        EventKind::Create => Some(
            emit_filechange(window_label, id, FileChangeKind::Created, is_dir, path, path, timestamp),
        ),
        EventKind::Remove(RemoveKind::File) => Some(
            emit_filechange(window_label, id, FileChangeKind::Removed, false, path, path, timestamp),
        ),
        EventKind::Remove(RemoveKind::Folder) => Some(
            emit_filechange(window_label, id, FileChangeKind::Removed, true, path, path, timestamp),
        ),
        EventKind::Modify(ModifyKind::Data) => Some(
            emit_filechange(
                window_label,
                id,
                FileChangeKind::Modified,
                is_dir,
                path,
                path,
                timestamp,
            ),
        ),
        EventKind::Modify(ModifyKind::Name(RenameMode::Both)) => {
            if event.paths.len() > 1 {
                let path_new = &event.paths[1];
                assert(event.path_texts()[1] == path_new@);
                Some(
                    emit_filechange(
                        window_label,
                        id,
                        FileChangeKind::Renamed,
                        is_dir,
                        path_new,
                        path,
                        timestamp,
                    ),
                )
            } else {
                Some(
                    emit_filechange(
                        window_label,
                        id,
                        FileChangeKind::Renamed,
                        is_dir,
                        path,
                        path,
                        timestamp,
                    ),
                )
            }
        },
        _ => None,
    }
}

/// Handles a notification of the backend that reports a rename in two parts, for the
/// watch `id` of the window `window_label`. `metadata_is_dir` is what the lookup of the
/// metadata of the path said, or nothing where the lookup failed; `timestamp` is the
/// time of the notification in milliseconds. The first part of a rename is remembered in
/// `state` and produces no message; the second part produces the message of the rename,
/// with the remembered path as the old one, and leaves `state` as it is.
pub fn handle_fswatch_event_windows(
    event: &RawEvent,
    metadata_is_dir: Option<bool>,
    window_label: &String,
    id: &String,
    timestamp: u128,
    state: &mut RenamePairState,
) -> (message: Option<FileChangeMessage>)
    ensures
        final(state)@ == next_pending(event.kind, event.path_texts(), old(state)@),
        match normalize_windows(
            event.kind,
            event.path_texts(),
            is_dir_of(metadata_is_dir),
            old(state)@,
        ) {
            Some(change) => message is Some && message->0.announces(
                window_label@,
                id@,
                change,
                timestamp,
            ),
            None => message is None,
        },
{
    if event.paths.len() == 0 {
        return None;
    }
    let path = &event.paths[0];
    assert(event.path_texts()[0] == path@);
    let is_dir = match metadata_is_dir {
        Some(is_dir) => is_dir,
        None => false,
    };
    match event.kind {
        EventKind::Create => Some(
            emit_filechange(window_label, id, FileChangeKind::Created, is_dir, path, path, timestamp),
        ),
        EventKind::Modify(ModifyKind::Name(RenameMode::From)) => {
            state.last_rename_from = path.clone();
            None
        },
        EventKind::Modify(ModifyKind::Name(RenameMode::To)) => Some(
            emit_filechange(
                window_label,
                id,
                FileChangeKind::Renamed,
                is_dir,
                path,
                &state.last_rename_from,
                timestamp,
            ),
        ),
        EventKind::Modify(ModifyKind::Any) => Some(
            emit_filechange(
                window_label,
                id,
                FileChangeKind::Modified,
                is_dir,
                path,
                path,
                timestamp,
            ),
        ),
        EventKind::Remove(RemoveKind::Any) => Some(
            emit_filechange(window_label, id, FileChangeKind::Removed, false, path, path, timestamp),
        ),
        _ => None,
    }
}

/// What a notification becomes on a backend, given the pending old path.
pub open spec fn normalize(
    backend: Backend,
    kind: EventKind,
    paths: Seq<Seq<char>>,
    is_dir: bool,
    pending: Seq<char>,
) -> Option<FileChange> {
    match backend {
        Backend::Linux => normalize_linux(kind, paths, is_dir),
        Backend::Windows => normalize_windows(kind, paths, is_dir, pending),
    }
}

/// One step of a running watch: handles a notification of `backend` for the watch `id`
/// of the window `window_label`, and returns the message to send, if any. Only the
/// backend that reports a rename in two parts reads and changes `state`.
pub fn handle_fswatch_event(
    backend: Backend,
    event: &RawEvent,
    metadata_is_dir: Option<bool>,
    window_label: &String,
    id: &String,
    timestamp: u128,
    state: &mut RenamePairState,
) -> (message: Option<FileChangeMessage>)
    ensures
        final(state)@ == match backend {
            Backend::Linux => old(state)@,
            Backend::Windows => next_pending(event.kind, event.path_texts(), old(state)@),
        },
        match normalize(
            backend,
            event.kind,
            event.path_texts(),
            is_dir_of(metadata_is_dir),
            old(state)@,
        ) {
            Some(change) => message is Some && message->0.announces(
                window_label@,
                id@,
                change,
                timestamp,
            ),
            None => message is None,
        },
{
    match backend {
        Backend::Linux => handle_fswatch_event_linux(
            event,
            metadata_is_dir,
            window_label,
            id,
            timestamp,
        ),
        Backend::Windows => handle_fswatch_event_windows(
            event,
            metadata_is_dir,
            window_label,
            id,
            timestamp,
            state,
        ),
    }
}

/// On the backend that reports both paths at once, the creation of a path that is a
/// directory becomes a `Created` change of a directory whose old path is the path.
pub proof fn lemma_created_directory(paths: Seq<Seq<char>>)
    requires
        paths.len() > 0,
    ensures
        normalize_linux(EventKind::Create, paths, is_dir_of(Some(true))) == Some(
            FileChange {
                kind: FileChangeKind::Created,
                is_dir: true,
                path: paths[0],
                path_old: paths[0],
            },
        ),
{
}

/// On the backend that reports a rename in two parts, the first part produces no change
/// and the second part produces one `Renamed` change from the path of the first part to
/// the path of the second, whatever was pending before.
pub proof fn lemma_rename_pair(
    from: Seq<char>,
    to: Seq<char>,
    from_is_dir: bool,
    to_is_dir: bool,
    pending: Seq<char>,
)
    ensures
        ({
            let first = EventKind::Modify(ModifyKind::Name(RenameMode::From));
            let second = EventKind::Modify(ModifyKind::Name(RenameMode::To));
            let remembered = next_pending(first, seq![from], pending);
            &&& normalize_windows(first, seq![from], from_is_dir, pending) is None
            &&& normalize_windows(second, seq![to], to_is_dir, remembered) == Some(
                FileChange {
                    kind: FileChangeKind::Renamed,
                    is_dir: to_is_dir,
                    path: to,
                    path_old: from,
                },
            )
            &&& next_pending(second, seq![to], remembered) == remembered
        }),
{
}

/// Only a rename has an old path that differs from the path.
pub proof fn lemma_old_path_is_path_unless_renamed(
    backend: Backend,
    kind: EventKind,
    paths: Seq<Seq<char>>,
    is_dir: bool,
    pending: Seq<char>,
)
    ensures
        normalize(backend, kind, paths, is_dir, pending) matches Some(change) ==> (change.kind
            != FileChangeKind::Renamed ==> change.path_old == change.path),
{
}

/// A path whose metadata could not be looked up is not taken for a directory.
pub proof fn lemma_failed_lookup_is_no_directory()
    ensures
        !is_dir_of(None),
{
}

} // verus!
