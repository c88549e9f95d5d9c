//! The directory-watcher state machine. The host owns the operating-system
//! watch handle and the background thread; this type owns every decision:
//! when the watcher may start, which events are considered, and the pending
//! set whose membership is the sole defence against dispatching two
//! concurrent uploads for one file.

use vstd::prelude::*;
use vstd::seq_lib::group_seq_properties;
use vstd::string::StringExecFns;
use crate::text::views_of;
use crate::types::WatcherState;
use crate::validate;

verus! {

/// The kind of a file-system event, as the host's notification backend
/// reports it.
#[derive(Debug, Clone, Copy, PartialEq, Eq, Structural)]
pub enum FsEventKind {
    Create,
    Modify,
    Access,
    Remove,
    Other,
}

/// Creation, modification and access events are all candidate signals,
/// because different producers on different operating systems surface file
/// completion differently.
pub open spec fn spec_should_process(kind: FsEventKind) -> bool {
    kind is Create || kind is Modify || kind is Access
}

/// Event-kind filter of the detection loop.
pub fn should_process(kind: FsEventKind) -> (r: bool)
    ensures
        r == spec_should_process(kind),
{
    match kind {
        FsEventKind::Create => true,
        FsEventKind::Modify => true,
        FsEventKind::Access => true,
        _ => false,
    }
}

/// The filter predicate that keeps every path but `p`.
pub open spec fn not_path(p: Seq<char>) -> spec_fn(Seq<char>) -> bool {
    |e: Seq<char>| e != p
}

/// No path occurs twice.
pub open spec fn no_dups(s: Seq<Seq<char>>) -> bool {
    forall|i: int, j: int| 0 <= i < j < s.len() ==> s[i] != s[j]
}

/// How often `x` occurs in `s`.
pub open spec fn occurrences(s: Seq<Seq<char>>, x: Seq<char>) -> nat {
    s.filter(|e: Seq<char>| e == x).len()
}

/// Admission to the pending set: a path already pending is refused, any
/// other is appended and admitted.
pub open spec fn admit_spec(pending: Seq<Seq<char>>, p: Seq<char>) -> (Seq<Seq<char>>, bool) {
    if pending.contains(p) {
        (pending, false)
    } else {
        (pending.push(p), true)
    }
}

/// Removal from the pending set: every occurrence of the path leaves, the
/// rest keep their order.
pub open spec fn remove_spec(pending: Seq<Seq<char>>, p: Seq<char>) -> Seq<Seq<char>> {
    pending.filter(not_path(p))
}

/// Whether the detection loop takes any further step for an event: only
/// while watching and not paused, only for candidate event kinds, and only
/// for paths not already in flight.
pub open spec fn spec_should_consider(
    watching: bool,
    paused: bool,
    kind: FsEventKind,
    pending: Seq<Seq<char>>,
    path: Seq<char>,
) -> bool {
    watching && !paused && spec_should_process(kind) && !pending.contains(path)
}

/// The watcher: start/stop state, a pause flag, and the pending set of
/// paths between detection and a terminal upload outcome.
#[derive(Debug)]
pub struct FileWatcher {
    watching: bool,
    watch_path: Option<String>,
    paused: bool,
    pending_files: Vec<String>,
}

/// The one failure of `start`.
#[derive(Debug, Clone, PartialEq, Eq, Structural)]
pub enum WatchError {
    AlreadyRunning,
}

impl WatchError {
    /// Render this error as its user-facing message.
    pub fn message(&self) -> (r: String)
        ensures
            r@ == "Watcher already running"@,
    {
        String::from_str("Watcher already running")
    }
}

impl FileWatcher {
    /// Whether a watch is active.
    pub closed spec fn watching(&self) -> bool {
        self.watching
    }

    /// The watched directory, while watching.
    pub closed spec fn path(&self) -> Option<Seq<char>> {
        match self.watch_path {
            Some(p) => Some(p@),
            None => None,
        }
    }

    /// Whether events are currently discarded.
    pub closed spec fn paused(&self) -> bool {
        self.paused
    }

    /// The pending set, in admission order.
    pub closed spec fn pending(&self) -> Seq<Seq<char>> {
        views_of(self.pending_files@)
    }

    /// Invariant: no path is pending twice.
    pub open spec fn wf(&self) -> bool {
        no_dups(self.pending())
    }

    /// A fresh watcher: stopped, not paused, nothing pending.
    pub fn new() -> (r: Self)
        ensures
            !r.watching(),
            r.path() is None,
            !r.paused(),
            r.pending() =~= Seq::<Seq<char>>::empty(),
            r.wf(),
    {
        let r = FileWatcher { watching: false, watch_path: None, paused: false, pending_files: Vec::new() };
        proof {
            assert(r.pending() =~= Seq::<Seq<char>>::empty());
        }
        r
    }

    /// Begin watching a directory. Starting while already watching fails
    /// with the already-running condition and changes nothing.
    pub fn start(&mut self, path: String) -> (r: Result<(), WatchError>)
        requires
            old(self).wf(),
        ensures
            final(self).wf(),
            old(self).watching() ==> r is Err && *final(self) == *old(self),
            !old(self).watching() ==> r is Ok && final(self).watching() && final(self).path()
                == Some(path@),
            final(self).paused() == old(self).paused(),
            final(self).pending() == old(self).pending(),
    {
        if self.watching {
            return Err(WatchError::AlreadyRunning);
        }
        self.watching = true;
        self.watch_path = Some(path);
        Ok(())
    }

    /// Stop watching; idempotent. Pending uploads are unaffected.
    pub fn stop(&mut self) -> (r: Result<(), WatchError>)
        requires
            old(self).wf(),
        ensures
            final(self).wf(),
            r is Ok,
            !final(self).watching(),
            final(self).path() is None,
            final(self).paused() == old(self).paused(),
            final(self).pending() == old(self).pending(),
    {
        self.watching = false;
        self.watch_path = None;
        Ok(())
    }

    /// Discard events until resumed; idempotent.
    pub fn pause(&mut self) -> (r: Result<(), WatchError>)
        requires
            old(self).wf(),
        ensures
            final(self).wf(),
            r is Ok,
            final(self).paused(),
            final(self).watching() == old(self).watching(),
            final(self).path() == old(self).path(),
            final(self).pending() == old(self).pending(),
    {
        self.paused = true;
        Ok(())
    }

    /// Consider events again; idempotent.
    pub fn resume(&mut self) -> (r: Result<(), WatchError>)
        requires
            old(self).wf(),
        ensures
            final(self).wf(),
            r is Ok,
            !final(self).paused(),
            final(self).watching() == old(self).watching(),
            final(self).path() == old(self).path(),
            final(self).pending() == old(self).pending(),
    {
        self.paused = false;
        Ok(())
    }

    /// Whether a path is currently between detection and a terminal upload
    /// outcome.
    pub fn is_pending(&self, path: &str) -> (r: bool)
        ensures
            r == self.pending().contains(path@),
    {
        let mut i: usize = 0;
        let n = self.pending_files.len();
        while i < n
            invariant
                i <= n,
                n == self.pending_files@.len(),
                self.pending() == views_of(self.pending_files@),
                forall|j: int| 0 <= j < i ==> self.pending()[j] != path@,
            decreases n - i,
        {
            if crate::text::str_eq(self.pending_files[i].as_str(), path) {
                assert(self.pending()[i as int] == path@);
                return true;
            }
            i += 1;
        }
        false
    }

    /// Whether the detection loop takes any further step for this event.
    pub fn should_consider(&self, kind: FsEventKind, path: &str) -> (r: bool)
        ensures
            r == spec_should_consider(
                self.watching(),
                self.paused(),
                kind,
                self.pending(),
                path@,
            ),
    {
        self.watching && !self.paused && should_process(kind) && !self.is_pending(path)
    }

    /// Admit a validated path to the pending set; refuse it if an upload
    /// for it is already in flight. The check and the insertion are one
    /// step: no duplicate can be admitted in between.
    pub fn add_pending(&mut self, path: &str) -> (admitted: bool)
        requires
            old(self).wf(),
        ensures
            final(self).wf(),
            (final(self).pending(), admitted) == admit_spec(old(self).pending(), path@),
            final(self).watching() == old(self).watching(),
            final(self).path() == old(self).path(),
            final(self).paused() == old(self).paused(),
    {
        if self.is_pending(path) {
            return false;
        }
        let ghost before = self.pending();
        self.pending_files.push(path.to_owned());
        proof {
            assert(self.pending() =~= before.push(path@));
        }
        true
    }

    /// Drop a path from the pending set once its upload reached a terminal
    /// outcome, whatever that outcome was; idempotent.
    pub fn remove_from_pending(&mut self, path: &str)
        requires
            old(self).wf(),
        ensures
            final(self).wf(),
            final(self).pending() == remove_spec(old(self).pending(), path@),
            final(self).watching() == old(self).watching(),
            final(self).path() == old(self).path(),
            final(self).paused() == old(self).paused(),
    {
        let ghost before = self.pending();
        let mut kept: Vec<String> = Vec::new();
        let mut i: usize = 0;
        let n = self.pending_files.len();
        while i < n
            invariant
                i <= n,
                n == self.pending_files@.len(),
                before == views_of(self.pending_files@),
                views_of(kept@) =~= before.take(i as int).filter(not_path(path@)),
            decreases n - i,
        {
            proof {
                assert(before.take(i + 1).drop_last() =~= before.take(i as int));
                assert(before.take(i + 1).last() == before[i as int]);
                reveal(Seq::filter);
            }
            if !crate::text::str_eq(self.pending_files[i].as_str(), path) {
                let item = self.pending_files[i].clone();
                assert(item@ == before[i as int]);
                kept.push(item);
            }
            i += 1;
        }
        proof {
            assert(before.take(n as int) =~= before);
        }
        self.pending_files = kept;
        proof {
            lemma_filter_keeps_nodup(before, path@);
        }
    }

    /// A read-only snapshot of the watcher for external callers.
    pub fn get_state(&self) -> (r: WatcherState)
        ensures
            r.is_watching == self.watching(),
            r.is_paused == self.paused(),
            r.last_event_at is None,
            views_of(r.pending_files@) == self.pending(),
    {
        let mut copy: Vec<String> = Vec::new();
        let mut i: usize = 0;
        let n = self.pending_files.len();
        while i < n
            invariant
                i <= n,
                n == self.pending_files@.len(),
                copy@ =~= self.pending_files@.take(i as int),
            decreases n - i,
        {
            let item = self.pending_files[i].clone();
            copy.push(item);
            proof {
                assert(copy@ =~= self.pending_files@.take(i + 1));
            }
            i += 1;
        }
        proof {
            assert(self.pending_files@.take(n as int) =~= self.pending_files@);
            assert(copy@ == self.pending_files@);
        }
        WatcherState {
            is_watching: self.watching,
            is_paused: self.paused,
            last_event_at: None,
            pending_files: copy,
        }
    }
}

impl Default for FileWatcher {
    fn default() -> (r: Self)
        ensures
            !r.watching(),
            !r.paused(),
            r.pending() =~= Seq::<Seq<char>>::empty(),
            r.wf(),
    {
        FileWatcher::new()
    }
}

/// A value absent from the set is absent from any filtering of it.
proof fn lemma_filter_absent(s: Seq<Seq<char>>, p: Seq<char>, x: Seq<char>)
    requires
        !s.contains(x),
    ensures
        !s.filter(not_path(p)).contains(x),
    decreases s.len(),
{
    reveal(Seq::filter);
    let pred = not_path(p);
    if s.len() > 0 {
        let s1 = s.drop_last();
        assert(!s1.contains(x)) by {
            if s1.contains(x) {
                let i = choose|i: int| 0 <= i < s1.len() && s1[i] == x;
                assert(s[i] == x);
            }
        }
        lemma_filter_absent(s1, p, x);
        let f1 = s1.filter(pred);
        if pred(s.last()) {
            assert(s.filter(pred) == f1.push(s.last()));
            assert(s.last() != x);
            assert(!f1.push(s.last()).contains(x)) by {
                if f1.push(s.last()).contains(x) {
                    let i = choose|i: int|
                        0 <= i < f1.push(s.last()).len() && f1.push(s.last())[i] == x;
                    if i < f1.len() {
                        assert(f1[i] == x);
                    }
                }
            }
        }
    }
}

/// Filtering a duplicate-free pending set keeps it duplicate-free, and the
/// filtered-out path is gone.
proof fn lemma_filter_keeps_nodup(s: Seq<Seq<char>>, p: Seq<char>)
    requires
        no_dups(s),
    ensures
        no_dups(s.filter(not_path(p))),
        !s.filter(not_path(p)).contains(p),
    decreases s.len(),
{
    broadcast use group_seq_properties;

    reveal(Seq::filter);
    let pred = not_path(p);
    assert(!s.filter(pred).contains(p)) by {
        if s.filter(pred).contains(p) {
            let i = choose|i: int| 0 <= i < s.filter(pred).len() && s.filter(pred)[i] == p;
            s.lemma_filter_pred(pred, i);
        }
    }
    if s.len() == 0 {
    } else {
        let s1 = s.drop_last();
        assert(no_dups(s1)) by {
            assert(forall|i: int, j: int| 0 <= i < j < s1.len() ==> s1[i] != s1[j]);
        }
        lemma_filter_keeps_nodup(s1, p);
        let f1 = s1.filter(pred);
        if pred(s.last()) {
            assert(s.filter(pred) == f1.push(s.last()));
            assert(!s1.contains(s.last())) by {
                if s1.contains(s.last()) {
                    let i = choose|i: int| 0 <= i < s1.len() && s1[i] == s.last();
                    assert(s[i] == s[s.len() - 1]);
                }
            }
            lemma_filter_absent(s1, p, s.last());
            assert(no_dups(f1.push(s.last()))) by {
                assert(forall|i: int|
                    0 <= i < f1.len() ==> f1.push(s.last())[i] == f1[i] && f1[i] != s.last());
            }
        } else {
            assert(s.filter(pred) == f1);
        }
    }
}

/// While an upload for a path is pending, a second event for the same path
/// admits nothing: the pending set and its answer are unchanged, so only
/// one task is ever dispatched per pending path.
pub proof fn lemma_pending_dedup(pending: Seq<Seq<char>>, p: Seq<char>)
    ensures
        ({
            let (q1, a1) = admit_spec(pending, p);
            let (q2, a2) = admit_spec(q1, p);
            !a2 && q2 == q1
        }),
{
    let (q1, a1) = admit_spec(pending, p);
    if !pending.contains(p) {
        assert(q1 == pending.push(p));
        assert(q1[q1.len() - 1] == p);
        assert(q1.contains(p));
    }
}

/// One detection event for a valid file not already in flight dispatches
/// exactly one upload task: the path is admitted, it then occurs exactly
/// once in the pending set, and admitting it again is refused until it is
/// removed.
pub proof fn lemma_single_dispatch(
    watching: bool,
    paused: bool,
    kind: FsEventKind,
    pending: Seq<Seq<char>>,
    path: Seq<char>,
    meta: Option<validate::FileMeta>,
    exists_after_delay: bool,
    meta_after_delay: Option<validate::FileMeta>,
)
    requires
        no_dups(pending),
        spec_should_consider(watching, paused, kind, pending, path),
        validate::spec_validation_passes(path, meta, exists_after_delay, meta_after_delay),
    ensures
        ({
            let (q, admitted) = admit_spec(pending, path);
            admitted && occurrences(q, path) == 1 && no_dups(q) && !admit_spec(q, path).1
        }),
{
    let (q, admitted) = admit_spec(pending, path);
    assert(admitted);
    assert(q == pending.push(path));
    lemma_count_absent(pending, path);
    reveal(Seq::filter);
    assert(q.drop_last() =~= pending);
    assert(occurrences(q, path) == 1);
    assert(no_dups(q)) by {
        assert(forall|i: int|
            0 <= i < pending.len() ==> q[i] == pending[i] && pending[i] != path);
    }
    lemma_pending_dedup(pending, path);
}

/// A path that is not in the set occurs zero times.
proof fn lemma_count_absent(s: Seq<Seq<char>>, p: Seq<char>)
    requires
        !s.contains(p),
    ensures
        occurrences(s, p) == 0,
    decreases s.len(),
{
    reveal(Seq::filter);
    if s.len() > 0 {
        let s1 = s.drop_last();
        assert(!s1.contains(p)) by {
            if s1.contains(p) {
                let i = choose|i: int| 0 <= i < s1.len() && s1[i] == p;
                assert(s[i] == p);
            }
        }
        lemma_count_absent(s1, p);
        assert(s.last() != p);
    }
}

/// The pending set and the number of admissions after `n` successive
/// detection events for one path.
pub open spec fn admit_count(pending: Seq<Seq<char>>, p: Seq<char>, n: nat) -> (
    Seq<Seq<char>>,
    nat,
)
    decreases n,
{
    if n == 0 {
        (pending, 0nat)
    } else {
        let (q, c) = admit_count(pending, p, (n - 1) as nat);
        let (q2, admitted) = admit_spec(q, p);
        (q2, c + if admitted {
            1nat
        } else {
            0nat
        })
    }
}

/// However many rapid duplicate events arrive for one path, at most one
/// upload task is dispatched while the path is pending: an already-pending
/// path is admitted zero times, a fresh one exactly once.
pub proof fn lemma_rapid_duplicates_dispatch_once(
    pending: Seq<Seq<char>>,
    p: Seq<char>,
    n: nat,
)
    ensures
        ({
            let (q, c) = admit_count(pending, p, n);
            &&& c == if pending.contains(p) || n == 0 {
                0nat
            } else {
                1nat
            }
            &&& n > 0 ==> q.contains(p)
        }),
    decreases n,
{
    if n > 0 {
        lemma_rapid_duplicates_dispatch_once(pending, p, (n - 1) as nat);
        let (q1, c1) = admit_count(pending, p, (n - 1) as nat);
        if !q1.contains(p) {
            assert(q1.push(p)[q1.len() as int] == p);
            assert(q1.push(p).contains(p));
        }
    }
}

/// Once a path is removed from the pending set, a new event for it is
/// validated and dispatched again from scratch: admission succeeds.
pub proof fn lemma_readmission_after_removal(pending: Seq<Seq<char>>, p: Seq<char>)
    requires
        no_dups(pending),
    ensures
        admit_spec(remove_spec(pending, p), p).1,
{
    lemma_filter_keeps_nodup(pending, p);
}

} // verus!
