//! The registry of running watches.
//!
//! A watch is named by the label of the window that asked for it and an identifier that
//! the window chose. The registry keeps, for every such pair, the task that serves it,
//! and never more than one. A task that leaves the registry is handed back to the
//! caller, who has to cancel it: the registry itself runs nothing.

use vstd::prelude::*;

verus! {

/// One running watch: who asked for it, under which identifier, and the task behind it.
pub struct WatchEntry<T> {
    window_label: String,
    id: String,
    task: T,
}

/// The running watches, at most one for each pair of window label and identifier.
pub struct WatchedPaths<T> {
    entries: Vec<WatchEntry<T>>,
}

/// The pair that names a watch: the window label and the identifier, as texts.
pub open spec fn watch_key(window_label: &String, id: &String) -> (Seq<char>, Seq<char>) {
    (window_label@, id@)
}

/// The task that leaves a registry when the watch that `key` names is removed or
/// replaced: the one registered under the pair, if there is one.
pub open spec fn evicted<T>(watches: Map<(Seq<char>, Seq<char>), T>, key: (Seq<char>, Seq<char>)) -> Option<T> {
    if watches.contains_key(key) {
        Some(watches[key])
    } else {
        None
    }
}

impl<T> View for WatchedPaths<T> {
    type V = Map<(Seq<char>, Seq<char>), T>;

    /// The task of every watch that is registered, by the pair that names the watch.
    closed spec fn view(&self) -> Map<(Seq<char>, Seq<char>), T> {
        Map::new(
            |key: (Seq<char>, Seq<char>)| self.holds(key),
            |key: (Seq<char>, Seq<char>)| self.entries@[self.index_of(key)].task,
        )
    }
}

impl<T> WatchedPaths<T> {
    /// The pair that names the watch at a position.
    spec fn key_at(&self, index: int) -> (Seq<char>, Seq<char>) {
        (self.entries@[index].window_label@, self.entries@[index].id@)
    }

    /// Whether some position holds the watch that a pair names.
    spec fn holds(&self, key: (Seq<char>, Seq<char>)) -> bool {
        exists|index: int| 0 <= index < self.entries@.len() && self.key_at(index) == key
    }

    /// A position that holds the watch that a pair names.
    spec fn index_of(&self, key: (Seq<char>, Seq<char>)) -> int {
        choose|index: int| 0 <= index < self.entries@.len() && self.key_at(index) == key
    }

    /// No pair names two watches.
    pub closed spec fn wf(&self) -> bool {
        forall|i: int, j: int|
            0 <= i < j < self.entries@.len() ==> self.key_at(i) != self.key_at(j)
    }

    /// In a well-formed registry the watch at a position is found under its pair.
    proof fn lemma_entry_is_viewed(&self, index: int)
        requires
            self.wf(),
            0 <= index < self.entries@.len(),
        ensures
            self@.contains_key(self.key_at(index)),
            self@[self.key_at(index)] == self.entries@[index].task,
    {
        let key = self.key_at(index);
        assert(self.holds(key));
        let found = self.index_of(key);
        assert(found == index) by {
            if found < index {
                assert(self.key_at(found) != self.key_at(index));
            } else if index < found {
                assert(self.key_at(index) != self.key_at(found));
            }
        }
    }

    /// A registry without watches.
    pub fn new() -> (watched_paths: WatchedPaths<T>)
        ensures
            watched_paths.wf(),
            watched_paths@ == Map::<(Seq<char>, Seq<char>), T>::empty(),
    {
        let watched_paths = WatchedPaths { entries: Vec::new() };
        assert(watched_paths@ =~= Map::<(Seq<char>, Seq<char>), T>::empty());
        watched_paths
    }

    /// The position of the watch that the pair names, if it is registered.
    fn position(&self, window_label: &String, id: &String) -> (found: Option<usize>)
        requires
            self.wf(),
        ensures
            match found {
                Some(index) => index < self.entries@.len() && self.key_at(index as int)
                    == watch_key(window_label, id),
                None => !self.holds(watch_key(window_label, id)),
            },
    {
        let mut index: usize = 0;
        while index < self.entries.len()
            invariant
                index <= self.entries@.len(),
                forall|j: int| 0 <= j < index ==> self.key_at(j) != watch_key(window_label, id),
            decreases self.entries@.len() - index,
        {
            let entry = &self.entries[index];
            if entry.window_label == *window_label && entry.id == *id {
                assert(self.key_at(index as int) =~= watch_key(window_label, id));
                return Some(index);
            }
            assert(self.key_at(index as int) != watch_key(window_label, id));
            index += 1;
        }
        None
    }

    /// Tells whether a watch is registered under the pair.
    pub fn is_watched(&self, window_label: &String, id: &String) -> (watched: bool)
        requires
            self.wf(),
        ensures
            watched == self@.contains_key(watch_key(window_label, id)),
    {
        self.position(window_label, id).is_some()
    }

    /// Takes the watch that the pair names out of the registry and returns its task, for
    /// the caller to cancel. Without such a watch nothing changes and nothing is returned.
    /// The watches of all other pairs stay as they are.
    pub fn remove_watched_path(&mut self, window_label: &String, id: &String) -> (removed: Option<T>)
        requires
            old(self).wf(),
        ensures
            final(self).wf(),
            final(self)@ == old(self)@.remove(watch_key(window_label, id)),
            removed == evicted(old(self)@, watch_key(window_label, id)),
    {
        let key = Ghost(watch_key(window_label, id));
        match self.position(window_label, id) {
            None => {
                assert(self@ =~= old(self)@.remove(key@));
                None
            },
            Some(index) => {
                proof {
                    self.lemma_entry_is_viewed(index as int);
                }
                let entry = self.entries.remove(index);
                proof {
                    let before = *old(self);
                    let at = index as int;
                    assert forall|i: int| 0 <= i < self.entries@.len() implies self.key_at(i)
                        == before.key_at(if i < at {
                        i
                    } else {
                        i + 1
                    }) by {}
                    assert(self.wf()) by {
                        assert forall|i: int, j: int|
                            0 <= i < j < self.entries@.len() implies self.key_at(i) != self.key_at(
                            j,
                        ) by {
                            let i_before = if i < at {
                                i
                            } else {
                                i + 1
                            };
                            let j_before = if j < at {
                                j
                            } else {
                                j + 1
                            };
                            assert(before.key_at(i_before) != before.key_at(j_before));
                        }
                    }
                    assert forall|other: (Seq<char>, Seq<char>)|
                        self@.contains_key(other) <==> before@.remove(key@).contains_key(
                            other,
                        ) by {
                        if self.holds(other) {
                            let i = self.index_of(other);
                            let i_before = if i < at {
                                i
                            } else {
                                i + 1
                            };
                            assert(before.key_at(i_before) == other);
                            assert(before.holds(other));
                            if at < i_before {
                                assert(before.key_at(at) != before.key_at(i_before));
                            } else {
                                assert(before.key_at(i_before) != before.key_at(at));
                            }
                        }
                        if before.holds(other) && other != key@ {
                            let j = before.index_of(other);
                            let j_after = if j < at {
                                j
                            } else {
                                j - 1
                            };
                            assert(self.key_at(j_after) == other);
                        }
                    }
                    assert forall|other: (Seq<char>, Seq<char>)|
                        self@.contains_key(other) implies self@[other] == before@[other] by {
                        let i = self.index_of(other);
                        let i_before = if i < at {
                            i
                        } else {
                            i + 1
                        };
                        self.lemma_entry_is_viewed(i);
                        before.lemma_entry_is_viewed(i_before);
                    }
                    assert(self@ =~= before@.remove(key@));
                }
                Some(entry.task)
            },
        }
    }

    /// Registers a task for the pair. A watch that the pair named before leaves the
    /// registry, and its task is returned for the caller to cancel: the pair never names
    /// two watches. The watches of all other pairs stay as they are.
    pub fn add_watched_path(&mut self, window_label: &String, id: &String, task: T) -> (replaced:
        Option<T>)
        requires
            old(self).wf(),
        ensures
            final(self).wf(),
            final(self)@ == old(self)@.insert(watch_key(window_label, id), task),
            replaced == evicted(old(self)@, watch_key(window_label, id)),
    {
        let key = Ghost(watch_key(window_label, id));
        let replaced = self.remove_watched_path(window_label, id);
        let ghost between = *self;
        self.entries.push(WatchEntry { window_label: window_label.clone(), id: id.clone(), task });
        proof {
            let last = self.entries@.len() - 1;
            assert(self.key_at(last) == key@);
            assert forall|i: int| 0 <= i < last implies self.key_at(i) == between.key_at(i) by {}
            assert(!between.holds(key@)) by {
                assert(!between@.contains_key(key@));
            }
            assert(self.wf()) by {
                assert forall|i: int, j: int|
                    0 <= i < j < self.entries@.len() implies self.key_at(i) != self.key_at(j) by {
                    if j == last {
                        assert(between.key_at(i) != key@);
                    } else {
                        assert(between.key_at(i) != between.key_at(j));
                    }
                }
            }
            assert forall|other: (Seq<char>, Seq<char>)|
                self@.contains_key(other) <==> between@.insert(key@, task).contains_key(other) by {
                if self.holds(other) {
                    let i = self.index_of(other);
                    if i < last {
                        assert(between.key_at(i) == other);
                    }
                }
                if between.holds(other) {
                    let j = between.index_of(other);
                    assert(self.key_at(j) == other);
                }
            }
            assert forall|other: (Seq<char>, Seq<char>)|
                self@.contains_key(other) implies self@[other] == between@.insert(key@, task)[other] by {
                let i = self.index_of(other);
                self.lemma_entry_is_viewed(i);
                if i < last {
                    between.lemma_entry_is_viewed(i);
                }
            }
            assert(self@ =~= between@.insert(key@, task));
            assert(between@.insert(key@, task) =~= old(self)@.insert(key@, task));
        }
        replaced
    }
}

/// Stops the watch that the pair of window label and identifier names: takes it out of
/// the registry and returns its task, for the caller to cancel. Without such a watch
/// nothing changes and nothing is returned.
pub fn remove_watched_path<T>(
    watched_paths: &mut WatchedPaths<T>,
    window_label: &String,
    id: &String,
) -> (removed: Option<T>)
    requires
        old(watched_paths).wf(),
    ensures
        final(watched_paths).wf(),
        final(watched_paths)@ == old(watched_paths)@.remove(watch_key(window_label, id)),
        removed == evicted(old(watched_paths)@, watch_key(window_label, id)),
{
    watched_paths.remove_watched_path(window_label, id)
}

/// Registers a task for the pair of window label and identifier, and returns the task
/// that the pair named before, if any, for the caller to cancel.
pub fn add_watched_path<T>(
    watched_paths: &mut WatchedPaths<T>,
    window_label: &String,
    id: &String,
    task: T,
) -> (replaced: Option<T>)
    requires
        old(watched_paths).wf(),
    ensures
        final(watched_paths).wf(),
        final(watched_paths)@ == old(watched_paths)@.insert(watch_key(window_label, id), task),
        replaced == evicted(old(watched_paths)@, watch_key(window_label, id)),
{
    watched_paths.add_watched_path(window_label, id, task)
}

/// After two registrations under one pair the pair names one watch, the second. The
/// first task left the registry with the second registration, which handed it back for
/// cancelling, and the registry is what it would be had the first never been made.
pub proof fn lemma_second_registration_replaces_first<T>(
    watches: Map<(Seq<char>, Seq<char>), T>,
    key: (Seq<char>, Seq<char>),
    first: T,
    second: T,
)
    ensures
        evicted(watches.insert(key, first), key) == Some(first),
        watches.insert(key, first).insert(key, second)[key] == second,
        watches.insert(key, first).insert(key, second) == watches.insert(key, second),
{
    assert(watches.insert(key, first).insert(key, second) =~= watches.insert(key, second));
}

/// Removing a watch that is not registered hands back no task and leaves the registry
/// as it was.
pub proof fn lemma_removal_of_absent_watch<T>(
    watches: Map<(Seq<char>, Seq<char>), T>,
    key: (Seq<char>, Seq<char>),
)
    requires
        !watches.contains_key(key),
    ensures
        evicted(watches, key) == None::<T>,
        watches.remove(key) == watches,
{
    assert(watches.remove(key) =~= watches);
}

/// Removing a watch, registered or not, leaves the watch of every other pair as it was.
pub proof fn lemma_removal_keeps_other_watches<T>(
    watches: Map<(Seq<char>, Seq<char>), T>,
    key: (Seq<char>, Seq<char>),
    other: (Seq<char>, Seq<char>),
)
    requires
        other != key,
    ensures
        watches.remove(key).contains_key(other) == watches.contains_key(other),
        evicted(watches.remove(key), other) == evicted(watches, other),
{
}

/// After its removal a pair names no watch, so a second removal finds nothing to cancel.
pub proof fn lemma_removal_is_final<T>(
    watches: Map<(Seq<char>, Seq<char>), T>,
    key: (Seq<char>, Seq<char>),
)
    ensures
        !watches.remove(key).contains_key(key),
        evicted(watches.remove(key), key) == None::<T>,
{
}

} // verus!
