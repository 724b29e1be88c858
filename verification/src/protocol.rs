//! The lock protocol over whole histories.
//!
//! `lock::Mutex` shows what each single operation does.  This module shows
//! what the protocol guarantees when any number of threads interleave those
//! operations: a history is a sequence of events (successful and failed
//! acquisition attempts, writes under the lock, releases), a history is valid
//! when every event was enabled in the state it found, and the guarantees of
//! the lock — mutual exclusion, visibility of writes, no stuck lock, one
//! release per acquisition — are proved of every valid history.

use vstd::prelude::*;

use crate::lock::GuardState;

verus! {

/// Identity of a thread of control.
pub type ThreadId = nat;

/// Who holds the lock.  `Nobody` is the guard flag read as `Unlocked`; a
/// holder is the one thread whose compare-and-set took the flag to `Locked`.
pub enum Holder {
    Nobody,
    Thread(ThreadId),
}

/// One observable step of the protocol, tagged with the thread that took it.
pub enum Event<V> {
    /// A compare-and-set on the guard that succeeds: the thread takes the lock.
    Acquire(ThreadId),
    /// A compare-and-set that fails: the thread yields and will try again.
    FailedAcquire(ThreadId),
    /// The holder overwrites the protected value inside its critical section.
    Write(ThreadId, V),
    /// The holder gives the lock back.
    Release(ThreadId),
}

/// The lock as the protocol sees it: who holds it, and the protected value.
pub struct State<V> {
    pub holder: Holder,
    pub value: V,
}

/// Whether `e` may be taken in state `s`.  Acquisition succeeds exactly when
/// nobody holds the lock; it fails exactly when somebody does; only the
/// holder may write or release.
pub open spec fn enabled<V>(s: State<V>, e: Event<V>) -> bool {
    match e {
        Event::Acquire(_) => s.holder is Nobody,
        Event::FailedAcquire(_) => !(s.holder is Nobody),
        Event::Write(t, _) => s.holder == Holder::Thread(t),
        Event::Release(t) => s.holder == Holder::Thread(t),
    }
}

/// The state after taking `e` in `s`.
pub open spec fn step<V>(s: State<V>, e: Event<V>) -> State<V> {
    match e {
        Event::Acquire(t) => State { holder: Holder::Thread(t), ..s },
        Event::FailedAcquire(_) => s,
        Event::Write(_, v) => State { value: v, ..s },
        Event::Release(_) => State { holder: Holder::Nobody, ..s },
    }
}

/// The state after running the whole history `h` from `s`.
pub open spec fn run<V>(s: State<V>, h: Seq<Event<V>>) -> State<V>
    decreases h.len(),
{
    if h.len() == 0 {
        s
    } else {
        step(run(s, h.drop_last()), h.last())
    }
}

/// A history is valid when every event was enabled in the state it found.
pub open spec fn valid<V>(s: State<V>, h: Seq<Event<V>>) -> bool
    decreases h.len(),
{
    h.len() == 0 || (valid(s, h.drop_last()) && enabled(run(s, h.drop_last()), h.last()))
}

/// Running one more event is one more step.
proof fn lemma_run_snoc<V>(s: State<V>, h: Seq<Event<V>>, j: int)
    requires
        0 <= j < h.len(),
    ensures
        run(s, h.take(j + 1)) == step(run(s, h.take(j)), h[j]),
{
    assert(h.take(j + 1).drop_last() =~= h.take(j));
    assert(h.take(j + 1).last() == h[j]);
}

/// In a valid history every prefix is valid, and the event at `k` was
/// enabled in the state the prefix before it reaches.
proof fn lemma_valid_at<V>(s: State<V>, h: Seq<Event<V>>, k: int)
    requires
        valid(s, h),
        0 <= k < h.len(),
    ensures
        valid(s, h.take(k)),
        enabled(run(s, h.take(k)), h[k]),
    decreases h.len(),
{
    let hd = h.drop_last();
    if k == h.len() - 1 {
        assert(hd =~= h.take(k));
    } else {
        lemma_valid_at(s, hd, k);
        assert(hd.take(k) =~= h.take(k));
    }
}

/// A holder keeps the lock until it releases: if thread `t` holds the lock
/// after `i` events and does not release through event `j - 1`, it still
/// holds the lock after `j` events.  No other thread's acquisition attempt
/// can succeed in between, and no other thread can release on `t`'s behalf.
pub proof fn lemma_holder_keeps_lock<V>(s: State<V>, h: Seq<Event<V>>, i: int, j: int, t: ThreadId)
    requires
        valid(s, h),
        0 <= i <= j <= h.len(),
        run(s, h.take(i)).holder == Holder::Thread(t),
        forall|k: int| i <= k < j ==> h[k] != Event::<V>::Release(t),
    ensures
        run(s, h.take(j)).holder == Holder::Thread(t),
    decreases j - i,
{
    if j > i {
        lemma_holder_keeps_lock(s, h, i, j - 1, t);
        lemma_valid_at(s, h, j - 1);
        lemma_run_snoc(s, h, j - 1);
        let before = run(s, h.take(j - 1));
        match h[j - 1] {
            Event::Acquire(_) => {
                // not enabled: somebody (t) holds the lock
                assert(false);
            }
            Event::FailedAcquire(_) => {}
            Event::Write(_, _) => {}
            Event::Release(u) => {
                // only the holder releases, so u == t; but t does not
                // release in [i, j)
                assert(before.holder == Holder::Thread(u));
                assert(h[j - 1] == Event::<V>::Release(t));
                assert(false);
            }
        }
    }
}

/// Mutual exclusion: two critical sections never overlap.  If thread `t1`
/// holds the lock after `i` events, thread `t2` holds it after `j` events,
/// and `t1` has not released in between, then `t1` and `t2` are the same
/// thread — the lock never has two holders, however the threads interleave.
pub proof fn lemma_mutual_exclusion<V>(
    s: State<V>,
    h: Seq<Event<V>>,
    i: int,
    j: int,
    t1: ThreadId,
    t2: ThreadId,
)
    requires
        valid(s, h),
        0 <= i <= j <= h.len(),
        run(s, h.take(i)).holder == Holder::Thread(t1),
        run(s, h.take(j)).holder == Holder::Thread(t2),
        forall|k: int| i <= k < j ==> h[k] != Event::<V>::Release(t1),
    ensures
        t1 == t2,
{
    lemma_holder_keeps_lock(s, h, i, j, t1);
}

/// Mutual exclusion, read off the events: two acquisition attempts can only
/// both succeed if somebody released the lock in between — so the critical
/// sections of any two concurrent callers never overlap in time.
pub proof fn lemma_acquires_separated_by_release<V>(
    s: State<V>,
    h: Seq<Event<V>>,
    i: int,
    j: int,
    t1: ThreadId,
    t2: ThreadId,
)
    requires
        valid(s, h),
        0 <= i < j < h.len(),
        h[i] == Event::<V>::Acquire(t1),
        h[j] == Event::<V>::Acquire(t2),
    ensures
        exists|k: int| i < k < j && h[k] is Release,
{
    lemma_valid_at(s, h, i);
    lemma_run_snoc(s, h, i);
    lemma_valid_at(s, h, j);
    if !(exists|k: int| i < k < j && h[k] is Release) {
        assert(forall|k: int| i + 1 <= k < j ==> h[k] != Event::<V>::Release(t1)) by {
            assert forall|k: int| i + 1 <= k < j implies h[k] != Event::<V>::Release(t1) by {
                if h[k] == Event::<V>::Release(t1) {
                    assert(i < k < j && h[k] is Release);
                }
            }
        }
        lemma_holder_keeps_lock(s, h, i + 1, j, t1);
        assert(false);
    }
}

/// Visibility: a write made under the lock is never lost.  If event `i` is a
/// write of `v` and no later event through `j - 1` writes, then the value
/// after `j` events is still `v` — in particular, every later critical
/// section on the same lock starts from the value the previous writer left.
pub proof fn lemma_visibility<V>(s: State<V>, h: Seq<Event<V>>, i: int, j: int, t: ThreadId, v: V)
    requires
        valid(s, h),
        0 <= i < j <= h.len(),
        h[i] == Event::Write(t, v),
        forall|k: int| i < k < j ==> !(h[k] is Write),
    ensures
        run(s, h.take(j)).value == v,
    decreases j - i,
{
    if j == i + 1 {
        lemma_run_snoc(s, h, i);
    } else {
        lemma_visibility(s, h, i, j - 1, t, v);
        lemma_run_snoc(s, h, j - 1);
    }
}

/// Progress: the protocol has no stuck state.  When nobody holds the lock,
/// any thread's acquisition attempt is enabled and succeeds; when a thread
/// holds it, that thread's release is enabled and frees the lock.  So as
/// long as every thread is eventually scheduled, every acquisition attempt
/// is eventually answered: the lock is always one enabled step away from
/// changing hands.
pub proof fn lemma_progress<V>(s: State<V>, t: ThreadId)
    ensures
        s.holder is Nobody ==> enabled(s, Event::<V>::Acquire(t)) && step(
            s,
            Event::<V>::Acquire(t),
        ).holder == Holder::Thread(t),
        s.holder == Holder::Thread(t) ==> enabled(s, Event::<V>::Release(t)) && step(
            s,
            Event::<V>::Release(t),
        ).holder is Nobody,
{
}

/// No stuck lock: a release frees the lock.  After the release at event `j`,
/// nobody holds the lock and every thread's next acquisition attempt is
/// enabled.
pub proof fn lemma_release_frees<V>(s: State<V>, h: Seq<Event<V>>, j: int, t: ThreadId)
    requires
        valid(s, h),
        0 <= j < h.len(),
        h[j] == Event::<V>::Release(t),
    ensures
        run(s, h.take(j + 1)).holder is Nobody,
        forall|u: ThreadId| enabled(run(s, h.take(j + 1)), Event::<V>::Acquire(u)),
{
    lemma_run_snoc(s, h, j);
}

/// One release per acquisition: only the holder may release, and once it
/// has, no thread — itself included — can release again until somebody
/// acquires the lock anew.
pub proof fn lemma_release_exactly_once<V>(s: State<V>, t: ThreadId)
    requires
        enabled(s, Event::<V>::Release(t)),
    ensures
        s.holder == Holder::Thread(t),
        step(s, Event::<V>::Release(t)).holder is Nobody,
        forall|u: ThreadId| !enabled(step(s, Event::<V>::Release(t)), Event::<V>::Release(u)),
{
}

/// Every holder got the lock by an acquisition of its own: if thread `t`
/// holds the lock after `j` events of a history that started with the lock
/// free, some earlier event is `t`'s successful acquisition, and `t` has not
/// released since.  So a release is never unmatched: together with
/// `lemma_release_exactly_once`, each release answers exactly one earlier
/// acquisition by the same thread — never zero, never twice.
pub proof fn lemma_holding_needs_acquire<V>(s: State<V>, h: Seq<Event<V>>, j: int, t: ThreadId)
    requires
        valid(s, h),
        s.holder is Nobody,
        0 <= j <= h.len(),
        run(s, h.take(j)).holder == Holder::Thread(t),
    ensures
        exists|i: int|
            0 <= i < j && h[i] == Event::<V>::Acquire(t) && (forall|k: int|
                i < k < j ==> h[k] != Event::<V>::Release(t)),
    decreases j,
{
    if j == 0 {
        assert(h.take(0) =~= Seq::<Event<V>>::empty());
        assert(false);
    } else {
        lemma_valid_at(s, h, j - 1);
        lemma_run_snoc(s, h, j - 1);
        let before = run(s, h.take(j - 1));
        match h[j - 1] {
            Event::Acquire(u) => {
                assert(u == t);
                assert(0 <= j - 1 < j && h[j - 1] == Event::<V>::Acquire(t) && (forall|k: int|
                    j - 1 < k < j ==> h[k] != Event::<V>::Release(t)));
            }
            Event::FailedAcquire(_) => {
                assert(before.holder == Holder::Thread(t));
                lemma_holding_needs_acquire(s, h, j - 1, t);
                let i = choose|i: int|
                    0 <= i < j - 1 && h[i] == Event::<V>::Acquire(t) && (forall|k: int|
                        i < k < j - 1 ==> h[k] != Event::<V>::Release(t));
                assert(h[j - 1] != Event::<V>::Release(t));
                assert(0 <= i < j && h[i] == Event::<V>::Acquire(t) && (forall|k: int|
                    i < k < j ==> h[k] != Event::<V>::Release(t)));
            }
            Event::Write(_, _) => {
                assert(before.holder == Holder::Thread(t));
                lemma_holding_needs_acquire(s, h, j - 1, t);
                let i = choose|i: int|
                    0 <= i < j - 1 && h[i] == Event::<V>::Acquire(t) && (forall|k: int|
                        i < k < j - 1 ==> h[k] != Event::<V>::Release(t));
                assert(h[j - 1] != Event::<V>::Release(t));
                assert(0 <= i < j && h[i] == Event::<V>::Acquire(t) && (forall|k: int|
                    i < k < j ==> h[k] != Event::<V>::Release(t)));
            }
            Event::Release(_) => {
                assert(false);
            }
        }
    }
}

/// What the guard flag of `lock::Mutex` shows of a protocol state: `Unlocked`
/// exactly when nobody holds the lock.  The flag cannot tell holders apart;
/// the protocol keeps the holder's identity so that the theorems above can
/// speak of it.
pub open spec fn guard_of(h: Holder) -> GuardState {
    if h is Nobody {
        GuardState::Unlocked
    } else {
        GuardState::Locked
    }
}

/// The acquire event is the compare-and-set of `lock::Mutex::try_acquire`:
/// it is enabled exactly when the guard flag reads `Unlocked`, it leaves the
/// flag `Locked`, and a failed attempt leaves the state as it was.
pub proof fn lemma_acquire_is_the_cas<V>(s: State<V>, t: ThreadId)
    ensures
        enabled(s, Event::<V>::Acquire(t)) <==> guard_of(s.holder) is Unlocked,
        enabled(s, Event::<V>::FailedAcquire(t)) <==> guard_of(s.holder) is Locked,
        guard_of(step(s, Event::<V>::Acquire(t)).holder) is Locked,
        step(s, Event::<V>::FailedAcquire(t)) == s,
{
}

/// One whole critical section, as `lock::Mutex::with_lock` performs it: from
/// a free lock, thread `t` acquires, writes `v`, and releases.  That history
/// is valid, and it leaves the lock free again with value `v` stored.
pub proof fn lemma_critical_section<V>(s: State<V>, t: ThreadId, v: V)
    requires
        s.holder is Nobody,
    ensures
        valid(s, seq![Event::Acquire(t), Event::Write(t, v), Event::Release(t)]),
        run(s, seq![Event::Acquire(t), Event::Write(t, v), Event::Release(t)]).holder is Nobody,
        run(s, seq![Event::Acquire(t), Event::Write(t, v), Event::Release(t)]).value == v,
{
    let h = seq![Event::<V>::Acquire(t), Event::<V>::Write(t, v), Event::<V>::Release(t)];
    let h2 = seq![Event::<V>::Acquire(t), Event::<V>::Write(t, v)];
    let h1 = seq![Event::<V>::Acquire(t)];
    let h0 = Seq::<Event<V>>::empty();
    assert(h.drop_last() =~= h2);
    assert(h2.drop_last() =~= h1);
    assert(h1.drop_last() =~= h0);
    assert(valid(s, h0));
    assert(run(s, h0) == s);
    assert(valid(s, h1));
    assert(run(s, h1) == step(s, h1.last()));
    assert(valid(s, h2));
    assert(run(s, h2) == step(run(s, h1), h2.last()));
    assert(valid(s, h));
    assert(run(s, h) == step(run(s, h2), h.last()));
}

/// Histories compose: running `h1 + h2` is running `h2` from where `h1`
/// ends, and the whole is valid when each part is valid from its own start.
proof fn lemma_run_concat<V>(s: State<V>, h1: Seq<Event<V>>, h2: Seq<Event<V>>)
    ensures
        run(s, h1 + h2) == run(run(s, h1), h2),
        valid(s, h1) && valid(run(s, h1), h2) ==> valid(s, h1 + h2),
    decreases h2.len(),
{
    if h2.len() == 0 {
        assert(h1 + h2 =~= h1);
    } else {
        lemma_run_concat(s, h1, h2.drop_last());
        assert((h1 + h2).drop_last() =~= h1 + h2.drop_last());
        assert((h1 + h2).last() == h2.last());
    }
}

/// One increment under the lock, by thread `t`, entered with value `v`: the
/// thread acquires, writes the value it read plus one, and releases.
pub open spec fn increment_section(v: int, t: ThreadId) -> Seq<Event<int>> {
    seq![Event::Acquire(t), Event::Write(t, v + 1), Event::Release(t)]
}

/// The counter scenario's history: starting from value `v0`, one increment
/// section per entry of `ts`, each taken by the thread named there, in that
/// order.  `ts` may interleave the threads in any way — ten threads ten
/// times each, one thread a thousand times, a hundred threads once each.
pub open spec fn counter_history(v0: int, ts: Seq<ThreadId>) -> Seq<Event<int>>
    decreases ts.len(),
{
    if ts.len() == 0 {
        Seq::empty()
    } else {
        increment_section(v0, ts.first()) + counter_history(v0 + 1, ts.drop_first())
    }
}

/// Zero lost updates: however many threads take however many increment
/// sections each, and in whatever order the lock hands the sections out, the
/// counter scenario's history is valid and ends with the value raised by
/// exactly the number of sections — every increment counts, and the lock is
/// free at the end.
pub proof fn lemma_counter_scenario(s: State<int>, ts: Seq<ThreadId>)
    requires
        s.holder is Nobody,
    ensures
        valid(s, counter_history(s.value, ts)),
        run(s, counter_history(s.value, ts)).value == s.value + ts.len(),
        run(s, counter_history(s.value, ts)).holder is Nobody,
    decreases ts.len(),
{
    if ts.len() > 0 {
        let t = ts.first();
        let section = increment_section(s.value, t);
        lemma_critical_section(s, t, s.value + 1);
        assert(section =~= seq![
            Event::<int>::Acquire(t),
            Event::<int>::Write(t, s.value + 1),
            Event::<int>::Release(t),
        ]);
        let mid = run(s, section);
        lemma_counter_scenario(mid, ts.drop_first());
        lemma_run_concat(s, section, counter_history(mid.value, ts.drop_first()));
    }
}

} // verus!
