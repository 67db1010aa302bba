use vstd::prelude::*;
use crate::names::same_text;
use crate::types::{WatchEvent, WatchEventType};

verus! {

/// The kinds of notification a recursive filesystem watcher delivers.
#[derive(Debug, Clone, Copy, PartialEq, Eq, Structural)]
pub enum NativeEventKind {
    Any,
    Access,
    Create,
    /// A change of name (a rename, or one half of it).
    ModifyName,
    /// Any other modification: data, metadata, or unspecified.
    Modify,
    Remove,
    Other,
}

/// The event type reported for a native notification.
pub open spec fn event_type_of(kind: NativeEventKind) -> WatchEventType {
    match kind {
        NativeEventKind::Create => WatchEventType::Created,
        NativeEventKind::ModifyName => WatchEventType::Renamed,
        NativeEventKind::Modify => WatchEventType::Modified,
        NativeEventKind::Remove => WatchEventType::Deleted,
        _ => WatchEventType::Other,
    }
}

/// Classifies a native notification: creations, renames, other
/// modifications and removals; anything else is `Other`.
pub fn watch_event_type(kind: NativeEventKind) -> (r: WatchEventType)
    ensures
        r == event_type_of(kind),
{
    match kind {
        NativeEventKind::Create => WatchEventType::Created,
        NativeEventKind::ModifyName => WatchEventType::Renamed,
        NativeEventKind::Modify => WatchEventType::Modified,
        NativeEventKind::Remove => WatchEventType::Deleted,
        _ => WatchEventType::Other,
    }
}

/// The event handed to subscribers for a notification on `path`.
pub fn watch_event(kind: NativeEventKind, path: String, timestamp: u64) -> (r: WatchEvent)
    ensures
        r.event_type == event_type_of(kind),
        r.path@ == path@,
        r.timestamp == timestamp,
{
    WatchEvent { event_type: watch_event_type(kind), path, timestamp }
}

/// The texts of a list of paths, as a set.
pub open spec fn path_set(s: Seq<String>) -> Set<Seq<char>> {
    Set::new(|p: Seq<char>| exists|i: int| 0 <= i < s.len() && s[i]@ == p)
}

/// No path text appears twice.
pub open spec fn distinct_paths(s: Seq<String>) -> bool {
    forall|i: int, j: int| 0 <= i < j < s.len() ==> s[i]@ != s[j]@
}

fn find_path(paths: &Vec<String>, path: &str) -> (r: Option<usize>)
    ensures
        match r {
            Some(i) => i < paths@.len() && paths@[i as int]@ == path@,
            None => forall|i: int| 0 <= i < paths@.len() ==> paths@[i]@ != path@,
        },
{
    let mut i: usize = 0;
    while i < paths.len()
        invariant
            i <= paths@.len(),
            forall|j: int| 0 <= j < i ==> paths@[j]@ != path@,
        decreases paths@.len() - i,
    {
        if same_text(paths[i].as_str(), path) {
            return Some(i);
        }
        i += 1;
    }
    None
}

proof fn lemma_distinct_len(s: Seq<String>)
    requires
        distinct_paths(s),
    ensures
        path_set(s).finite(),
        path_set(s).len() == s.len(),
{
    let t = s.map_values(|p: String| p@);
    assert forall|p: Seq<char>| path_set(s).contains(p) implies t.to_set().contains(p) by {
        let i = choose|i: int| 0 <= i < s.len() && s[i]@ == p;
        assert(t[i] == p);
    }
    assert forall|p: Seq<char>| t.to_set().contains(p) implies path_set(s).contains(p) by {
        let i = choose|i: int| 0 <= i < t.len() && t[i] == p;
        assert(s[i]@ == p);
    }
    assert(path_set(s) =~= t.to_set());
    assert forall|i: int, j: int| 0 <= i < t.len() && 0 <= j < t.len() && i != j implies t[i]
        != t[j] by {
        if i < j {
        } else {
        }
    }
    assert(t.no_duplicates());
    t.unique_seq_to_set();
}

/// The set of directories under watch, one entry per path.
pub struct WatchRegistry {
    paths: Vec<String>,
}

impl View for WatchRegistry {
    type V = Set<Seq<char>>;

    closed spec fn view(&self) -> Set<Seq<char>> {
        path_set(self.paths@)
    }
}

impl WatchRegistry {
    #[verifier::type_invariant]
    spec fn distinct(&self) -> bool {
        distinct_paths(self.paths@)
    }

    /// An empty registry.
    pub fn new() -> (r: WatchRegistry)
        ensures
            r@ == Set::<Seq<char>>::empty(),
    {
        let r = WatchRegistry { paths: Vec::new() };
        assert(r@ =~= Set::<Seq<char>>::empty());
        r
    }

    /// Whether `path` is under watch.
    pub fn is_watching(&self, path: &str) -> (r: bool)
        ensures
            r == self@.contains(path@),
    {
        find_path(&self.paths, path).is_some()
    }

    /// How many directories are under watch.
    pub fn len(&self) -> (r: usize)
        ensures
            r == self@.len(),
    {
        proof {
            use_type_invariant(self);
            lemma_distinct_len(self.paths@);
        }
        self.paths.len()
    }

    /// Puts `path` under watch. Returns whether it already was, in which case
    /// the caller releases the earlier handle before installing the new one.
    pub fn register(&mut self, path: &str) -> (replaced: bool)
        ensures
            final(self)@ == old(self)@.insert(path@),
            replaced == old(self)@.contains(path@),
    {
        proof {
            use_type_invariant(&*self);
        }
        match find_path(&self.paths, path) {
            Some(_) => {
                assert(self@.insert(path@) =~= self@);
                true
            },
            None => {
                let mut paths: Vec<String> = Vec::new();
                std::mem::swap(&mut paths, &mut self.paths);
                let ghost before = paths@;
                paths.push(path.to_owned());
                assert(path_set(paths@) =~= path_set(before).insert(path@)) by {
                    assert forall|p: Seq<char>| path_set(paths@).contains(p) implies path_set(
                        before,
                    ).insert(path@).contains(p) by {
                        let i = choose|i: int| 0 <= i < paths@.len() && paths@[i]@ == p;
                        if i < before.len() {
                            assert(before[i] == paths@[i]);
                        }
                    }
                    assert forall|p: Seq<char>| path_set(before).contains(p) implies path_set(
                        paths@,
                    ).contains(p) by {
                        let i = choose|i: int| 0 <= i < before.len() && before[i]@ == p;
                        assert(paths@[i] == before[i]);
                    }
                    assert(paths@[before.len() as int]@ == path@);
                }
                self.paths = paths;
                false
            },
        }
    }

    /// Takes `path` off the watch. Returns whether it was under watch, in
    /// which case the caller releases its handle.
    pub fn unregister(&mut self, path: &str) -> (removed: bool)
        ensures
            final(self)@ == old(self)@.remove(path@),
            removed == old(self)@.contains(path@),
    {
        proof {
            use_type_invariant(&*self);
        }
        match find_path(&self.paths, path) {
            Some(i) => {
                let mut paths: Vec<String> = Vec::new();
                std::mem::swap(&mut paths, &mut self.paths);
                let ghost before = paths@;
                paths.remove(i);
                assert(paths@ =~= before.remove(i as int));
                assert(path_set(paths@) =~= path_set(before).remove(path@)) by {
                    assert forall|p: Seq<char>| path_set(paths@).contains(p) implies path_set(
                        before,
                    ).remove(path@).contains(p) by {
                        let k = choose|k: int| 0 <= k < paths@.len() && paths@[k]@ == p;
                        if k < i {
                            assert(paths@[k] == before[k]);
                        } else {
                            assert(paths@[k] == before[k + 1]);
                        }
                    }
                    assert forall|p: Seq<char>| path_set(before).remove(path@).contains(p) implies path_set(
                        paths@,
                    ).contains(p) by {
                        let k = choose|k: int| 0 <= k < before.len() && before[k]@ == p;
                        if k < i {
                            assert(paths@[k] == before[k]);
                        } else {
                            assert(k != i);
                            assert(paths@[k - 1] == before[k]);
                        }
                    }
                }
                self.paths = paths;
                true
            },
            None => {
                assert(self@.remove(path@) =~= self@);
                false
            },
        }
    }

    /// The paths under watch, each once; used to stop every watcher at
    /// shutdown.
    pub fn watched_paths(&self) -> (r: Vec<String>)
        ensures
            path_set(r@) == self@,
            distinct_paths(r@),
    {
        proof {
            use_type_invariant(self);
        }
        let r = self.paths.clone();
        assert(r@ =~= self.paths@);
        r
    }
}

} // verus!
