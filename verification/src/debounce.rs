//! Collapsing the changes that come in quick succession into one change for
//! each file.
//!
//! A change is held back for the length of the window. Another change to the
//! same file within that time takes its place and starts the time anew, so
//! that a burst of changes to one file is handed on once, when the file has
//! been quiet for the length of the window. Time is in milliseconds on any
//! clock that does not run backwards.

use crate::text::str_equal;
use crate::watch::Change;
use crate::watch::ChangeView;
use vstd::prelude::*;

verus! {

/// The length of the debounce window of a watch session, in milliseconds.
pub const DEBOUNCE_MILLIS: u64 = 10_000;

/// A change that is held back until `due`.
#[derive(Debug)]
struct Pending {
    change: Change,
    due: u64,
}

/// A change that is held back until `due`, as contracts see it.
pub struct PendingView {
    pub change: ChangeView,
    pub due: u64,
}

impl View for Pending {
    type V = PendingView;

    closed spec fn view(&self) -> PendingView {
        PendingView { change: self.change@, due: self.due }
    }
}

/// The changes that are held back, in the order in which the last change to
/// each file came.
#[derive(Debug)]
pub struct Debouncer {
    window: u64,
    pending: Vec<Pending>,
}

/// A [`Debouncer`] as contracts see it.
pub struct DebouncerView {
    pub window: u64,
    pub pending: Seq<PendingView>,
}

/// The held changes of a vector, as contracts see them.
spec fn pending_view(pending: Seq<Pending>) -> Seq<PendingView> {
    pending.map_values(|entry: Pending| entry@)
}

impl View for Debouncer {
    type V = DebouncerView;

    closed spec fn view(&self) -> DebouncerView {
        DebouncerView { window: self.window, pending: pending_view(self.pending@) }
    }
}

/// The held changes but those to the file at `path`.
pub open spec fn without_path(pending: Seq<PendingView>, path: Seq<char>) -> Seq<PendingView>
    decreases pending.len(),
{
    if pending.len() == 0 {
        pending
    } else {
        let earlier = without_path(pending.drop_last(), path);
        if pending.last().change.path == path {
            earlier
        } else {
            earlier.push(pending.last())
        }
    }
}

/// The changes that are due at `now`, in the order in which they are held.
pub open spec fn due_changes(pending: Seq<PendingView>, now: u64) -> Seq<ChangeView>
    decreases pending.len(),
{
    if pending.len() == 0 {
        Seq::empty()
    } else {
        let earlier = due_changes(pending.drop_last(), now);
        if pending.last().due <= now {
            earlier.push(pending.last().change)
        } else {
            earlier
        }
    }
}

/// The held changes that are not yet due at `now`.
pub open spec fn still_waiting(pending: Seq<PendingView>, now: u64) -> Seq<PendingView>
    decreases pending.len(),
{
    if pending.len() == 0 {
        pending
    } else {
        let earlier = still_waiting(pending.drop_last(), now);
        if pending.last().due <= now {
            earlier
        } else {
            earlier.push(pending.last())
        }
    }
}

/// `due` is the earliest instant at which a held change is due.
pub open spec fn is_earliest_due(pending: Seq<PendingView>, due: u64) -> bool {
    &&& exists|i: int| 0 <= i < pending.len() && (#[trigger] pending[i]).due == due
    &&& forall|i: int| 0 <= i < pending.len() ==> due <= (#[trigger] pending[i]).due
}

/// The changes of a vector, as contracts see them.
pub open spec fn changes_view(changes: Seq<Change>) -> Seq<ChangeView> {
    changes.map_values(|change: Change| change@)
}

impl Debouncer {
    /// A debouncer that holds nothing, with a window of `window`
    /// milliseconds.
    pub fn new(window: u64) -> (debouncer: Debouncer)
        ensures
            debouncer@ == (DebouncerView { window, pending: Seq::empty() }),
    {
        let debouncer = Debouncer { window, pending: Vec::new() };
        proof {
            assert(debouncer@.pending =~= Seq::<PendingView>::empty());
        }
        debouncer
    }

    /// Takes in a change that came at `now`. It is held until the window has
    /// passed, in place of any change to the same file that was held.
    pub fn record(&mut self, change: Change, now: u64)
        ensures
            final(self)@.window == old(self)@.window,
            final(self)@.pending == without_path(old(self)@.pending, change@.path).push(
                PendingView { change: change@, due: now.saturating_add(old(self)@.window) },
            ),
    {
        let ghost held = pending_view(self.pending@);
        let mut kept: Vec<Pending> = Vec::new();
        let mut taken: Vec<Pending> = Vec::new();
        std::mem::swap(&mut self.pending, &mut taken);
        proof {
            assert(held.take(0) =~= Seq::<PendingView>::empty());
            assert(pending_view(kept@) =~= without_path(held.take(0), change@.path));
        }
        for entry in it: taken
            invariant
                held == pending_view(it.seq()),
                pending_view(kept@) == without_path(held.take(it.index()), change@.path),
        {
            let ghost i = it.index();
            proof {
                assert(held.take(i + 1).drop_last() =~= held.take(i));
                assert(held.take(i + 1).last() == entry@);
            }
            if !str_equal(entry.change.path.as_str(), change.path.as_str()) {
                let ghost before = kept@;
                kept.push(entry);
                proof {
                    assert(pending_view(kept@) =~= pending_view(before).push(entry@));
                }
            }
        }
        proof {
            assert(held.take(held.len() as int) =~= held);
        }
        let ghost before = kept@;
        let entry = Pending { change, due: now.saturating_add(self.window) };
        kept.push(entry);
        proof {
            assert(pending_view(kept@) =~= pending_view(before).push(entry@));
        }
        self.pending = kept;
    }

    /// Hands out the changes that are due at `now`, in the order in which
    /// they are held, and holds them no longer.
    pub fn take_due(&mut self, now: u64) -> (due: Vec<Change>)
        ensures
            changes_view(due@) == due_changes(old(self)@.pending, now),
            final(self)@.window == old(self)@.window,
            final(self)@.pending == still_waiting(old(self)@.pending, now),
    {
        let ghost held = pending_view(self.pending@);
        let mut due: Vec<Change> = Vec::new();
        let mut kept: Vec<Pending> = Vec::new();
        let mut taken: Vec<Pending> = Vec::new();
        std::mem::swap(&mut self.pending, &mut taken);
        proof {
            assert(held.take(0) =~= Seq::<PendingView>::empty());
            assert(pending_view(kept@) =~= still_waiting(held.take(0), now));
            assert(changes_view(due@) =~= due_changes(held.take(0), now));
        }
        for entry in it: taken
            invariant
                held == pending_view(it.seq()),
                pending_view(kept@) == still_waiting(held.take(it.index()), now),
                changes_view(due@) == due_changes(held.take(it.index()), now),
        {
            let ghost i = it.index();
            proof {
                assert(held.take(i + 1).drop_last() =~= held.take(i));
                assert(held.take(i + 1).last() == entry@);
            }
            if entry.due <= now {
                let ghost before = due@;
                due.push(entry.change);
                proof {
                    assert(changes_view(due@) =~= changes_view(before).push(entry@.change));
                }
            } else {
                let ghost before = kept@;
                kept.push(entry);
                proof {
                    assert(pending_view(kept@) =~= pending_view(before).push(entry@));
                }
            }
        }
        proof {
            assert(held.take(held.len() as int) =~= held);
        }
        self.pending = kept;
        due
    }

    /// The earliest instant at which a held change is due; `None` when
    /// nothing is held.
    pub fn next_due(&self) -> (next: Option<u64>)
        ensures
            match next {
                Some(due) => is_earliest_due(self@.pending, due),
                None => self@.pending.len() == 0,
            },
    {
        if self.pending.len() == 0 {
            return None;
        }
        let mut earliest: u64 = self.pending[0].due;
        assert(self@.pending[0].due == earliest);
        let mut i: usize = 1;
        while i < self.pending.len()
            invariant
                1 <= i <= self.pending.len(),
                exists|k: int| 0 <= k < i && (#[trigger] self@.pending[k]).due == earliest,
                forall|k: int| 0 <= k < i ==> earliest <= (#[trigger] self@.pending[k]).due,
            decreases self.pending.len() - i,
        {
            assert(self@.pending[i as int].due == self.pending@[i as int].due);
            if self.pending[i].due < earliest {
                earliest = self.pending[i].due;
            }
            i += 1;
        }
        Some(earliest)
    }

    /// How many changes are held.
    pub fn len(&self) -> (len: usize)
        ensures
            len == self@.pending.len(),
    {
        self.pending.len()
    }
}

/// No change to the file at `path` is left among the held changes without
/// that path.
pub proof fn lemma_without_path_has_none(pending: Seq<PendingView>, path: Seq<char>, i: int)
    requires
        0 <= i < without_path(pending, path).len(),
    ensures
        without_path(pending, path)[i].change.path != path,
    decreases pending.len(),
{
    if pending.len() > 0 {
        let earlier = without_path(pending.drop_last(), path);
        if i < earlier.len() {
            lemma_without_path_has_none(pending.drop_last(), path, i);
        }
    }
}

/// Changes to one file collapse: once a change to the file at `path` is
/// recorded, it is the one change to that file that is held, whatever was
/// held before.
pub proof fn lemma_one_change_per_path(pending: Seq<PendingView>, entry: PendingView, i: int)
    requires
        0 <= i < without_path(pending, entry.change.path).push(entry).len(),
        without_path(pending, entry.change.path).push(entry)[i].change.path == entry.change.path,
    ensures
        i == without_path(pending, entry.change.path).len(),
{
    if i < without_path(pending, entry.change.path).len() {
        lemma_without_path_has_none(pending, entry.change.path, i);
    }
}

/// Every held change is handed out or held on, never both and never lost:
/// the changes that are due at `now` and those that are still waiting are
/// as many as were held.
pub proof fn lemma_due_or_waiting(pending: Seq<PendingView>, now: u64)
    ensures
        due_changes(pending, now).len() + still_waiting(pending, now).len() == pending.len(),
    decreases pending.len(),
{
    if pending.len() > 0 {
        lemma_due_or_waiting(pending.drop_last(), now);
    }
}

/// No change that is still waiting at `now` is due at `now`.
pub proof fn lemma_waiting_is_not_due(pending: Seq<PendingView>, now: u64, i: int)
    requires
        0 <= i < still_waiting(pending, now).len(),
    ensures
        still_waiting(pending, now)[i].due > now,
    decreases pending.len(),
{
    if pending.len() > 0 {
        let earlier = still_waiting(pending.drop_last(), now);
        if i < earlier.len() {
            lemma_waiting_is_not_due(pending.drop_last(), now, i);
        }
    }
}

/// Before the earliest instant at which a held change is due, no change is
/// handed out and every change is held on.
pub proof fn lemma_nothing_due_before(pending: Seq<PendingView>, earliest: u64, now: u64)
    requires
        forall|i: int| 0 <= i < pending.len() ==> earliest <= (#[trigger] pending[i]).due,
        now < earliest,
    ensures
        due_changes(pending, now) == Seq::<ChangeView>::empty(),
        still_waiting(pending, now) == pending,
    decreases pending.len(),
{
    if pending.len() > 0 {
        let earlier = pending.drop_last();
        assert forall|i: int| 0 <= i < earlier.len() implies earliest <= (#[trigger] earlier[i]).due by {
            assert(earlier[i] == pending[i]);
        }
        lemma_nothing_due_before(earlier, earliest, now);
        assert(pending.last() == pending[pending.len() - 1]);
        assert(earlier.push(pending.last()) =~= pending);
    }
}

/// A change is held for the length of the window: recorded at `now`, it is
/// still held at every instant before the window has passed, whatever else
/// is held.
pub proof fn lemma_recorded_change_waits(
    pending: Seq<PendingView>,
    change: ChangeView,
    window: u64,
    now: u64,
    later: u64,
)
    requires
        later < now.saturating_add(window),
    ensures
        ({
            let recorded = without_path(pending, change.path).push(
                PendingView { change, due: now.saturating_add(window) },
            );
            still_waiting(recorded, later).len() > 0 && still_waiting(recorded, later).last()
                == recorded.last()
        }),
{
    let recorded = without_path(pending, change.path).push(
        PendingView { change, due: now.saturating_add(window) },
    );
    assert(recorded.drop_last() =~= without_path(pending, change.path));
}

} // verus!
